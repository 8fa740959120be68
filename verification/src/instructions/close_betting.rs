//! Closing a market for bets once its deadline has come.

use vstd::prelude::*;
use crate::errors::ClawBetsError;
use crate::state::{Market, MarketStatus};

verus! {

/// The records that closing touches.
#[derive(Clone, Debug, PartialEq, Eq)]
pub struct CloseBetting {
    pub market: Market,
}

/// The first reason, in the order in which the conditions are tested, for
/// which closing is rejected; `Ok` if there is none.
pub open spec fn close_verdict(ctx: CloseBetting, now: i64) -> Result<(), ClawBetsError> {
    if ctx.market.status != MarketStatus::Open {
        Err(ClawBetsError::MarketNotOpen)
    } else if now < ctx.market.deadline {
        Err(ClawBetsError::MarketNotReady)
    } else {
        Ok(())
    }
}

/// Marks the market closed at the time `now`. Anybody can, from the betting
/// deadline on, while the market is open. No funds move. A rejected closing
/// changes nothing.
pub fn handler(ctx: &mut CloseBetting, now: i64) -> (r: Result<(), ClawBetsError>)
    ensures
        r == close_verdict(*old(ctx), now),
        r.is_ok() ==> *final(ctx) == (CloseBetting {
            market: Market { status: MarketStatus::Closed, ..old(ctx).market },
        }),
        r.is_err() ==> *final(ctx) == *old(ctx),
{
    if ctx.market.status != MarketStatus::Open {
        return Err(ClawBetsError::MarketNotOpen);
    }
    if now < ctx.market.deadline {
        return Err(ClawBetsError::MarketNotReady);
    }
    ctx.market.status = MarketStatus::Closed;
    Ok(())
}

} // verus!
