//! Expiring a market whose resolution window closed without a resolution.

use vstd::prelude::*;
use crate::errors::ClawBetsError;
use crate::state::{Market, MarketStatus};

verus! {

/// The records that an expiry touches.
#[derive(Clone, Debug, PartialEq, Eq)]
pub struct ExpireMarket {
    pub market: Market,
}

/// The first reason, in the order in which the conditions are tested, for
/// which the expiry is rejected; `Ok` if there is none.
pub open spec fn expire_verdict(ctx: ExpireMarket, now: i64) -> Result<(), ClawBetsError> {
    if now <= ctx.market.resolution_deadline {
        Err(ClawBetsError::MarketNotReady)
    } else if ctx.market.status != MarketStatus::Open && ctx.market.status
        != MarketStatus::Closed {
        Err(ClawBetsError::MarketNotOpen)
    } else {
        Ok(())
    }
}

/// Marks the market expired at the time `now`, so that its stakes can be
/// refunded. Anybody can, once the resolution deadline has passed, while the
/// market is open or closed. A rejected expiry changes nothing.
pub fn handler(ctx: &mut ExpireMarket, now: i64) -> (r: Result<(), ClawBetsError>)
    ensures
        r == expire_verdict(*old(ctx), now),
        r.is_ok() ==> *final(ctx) == (ExpireMarket {
            market: Market { status: MarketStatus::Expired, ..old(ctx).market },
        }),
        r.is_err() ==> *final(ctx) == *old(ctx),
{
    if now <= ctx.market.resolution_deadline {
        return Err(ClawBetsError::MarketNotReady);
    }
    if ctx.market.status != MarketStatus::Open && ctx.market.status != MarketStatus::Closed {
        return Err(ClawBetsError::MarketNotOpen);
    }
    ctx.market.status = MarketStatus::Expired;
    Ok(())
}

} // verus!
