//! Cancelling a market that holds no bet.

use vstd::prelude::*;
use crate::errors::ClawBetsError;
use crate::state::{Identity, Market, MarketStatus};

verus! {

/// The records that a cancellation touches.
#[derive(Clone, Debug, PartialEq, Eq)]
pub struct CancelMarket {
    /// The caller.
    pub creator: Identity,
    pub market: Market,
}

/// The first reason, in the order in which the conditions are tested, for
/// which the cancellation is rejected; `Ok` if there is none.
pub open spec fn cancel_verdict(ctx: CancelMarket) -> Result<(), ClawBetsError> {
    if ctx.market.creator != ctx.creator {
        Err(ClawBetsError::UnauthorizedCreator)
    } else if ctx.market.status != MarketStatus::Open {
        Err(ClawBetsError::MarketNotOpen)
    } else if ctx.market.yes_count != 0 || ctx.market.no_count != 0 {
        Err(ClawBetsError::MarketHasBets)
    } else {
        Ok(())
    }
}

/// Cancels the market. Only its creator can, while it is open and holds no
/// bet. A rejected cancellation changes nothing.
pub fn handler(ctx: &mut CancelMarket) -> (r: Result<(), ClawBetsError>)
    ensures
        r == cancel_verdict(*old(ctx)),
        r.is_ok() ==> *final(ctx) == (CancelMarket {
            market: Market { status: MarketStatus::Cancelled, ..old(ctx).market },
            ..*old(ctx)
        }),
        r.is_err() ==> *final(ctx) == *old(ctx),
{
    if !ctx.market.creator.same(&ctx.creator) {
        return Err(ClawBetsError::UnauthorizedCreator);
    }
    if ctx.market.status != MarketStatus::Open {
        return Err(ClawBetsError::MarketNotOpen);
    }
    if ctx.market.yes_count != 0 || ctx.market.no_count != 0 {
        return Err(ClawBetsError::MarketHasBets);
    }
    ctx.market.status = MarketStatus::Cancelled;
    Ok(())
}

} // verus!
