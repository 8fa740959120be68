//! Settling a market against an oracle reading.

use vstd::prelude::*;
use crate::errors::ClawBetsError;
use crate::state::{Market, MarketStatus, OracleReading};

verus! {

/// Greatest age, in seconds, at which an oracle reading is still accepted.
pub const MAX_ORACLE_AGE: i64 = 120;

/// The records that a resolution touches.
#[derive(Clone, Debug, PartialEq, Eq)]
pub struct ResolveMarket {
    pub market: Market,
    /// What the oracle gave for the market's feed: `None` if it gave nothing
    /// that could be read.
    pub oracle: Option<OracleReading>,
}

/// Whether a price settles the market as YES: at or above the target where
/// the market asks for that, strictly below it where it asks for the
/// opposite.
pub open spec fn outcome_of(market: Market, price: i64) -> bool {
    if market.target_above {
        price >= market.target_price
    } else {
        price < market.target_price
    }
}

/// Whether a reading published at `published_at` is still fresh at `now`.
pub open spec fn is_fresh(published_at: i64, now: i64) -> bool {
    now - published_at <= MAX_ORACLE_AGE
}

/// The first reason, in the order in which the conditions are tested, for
/// which the resolution is rejected; `Ok` if there is none.
pub open spec fn resolve_verdict(ctx: ResolveMarket, now: i64) -> Result<(), ClawBetsError> {
    if now < ctx.market.deadline {
        Err(ClawBetsError::MarketNotReady)
    } else if now > ctx.market.resolution_deadline {
        Err(ClawBetsError::ResolutionExpired)
    } else if ctx.market.status != MarketStatus::Open && ctx.market.status
        != MarketStatus::Closed {
        Err(ClawBetsError::MarketNotOpen)
    } else if ctx.oracle.is_none() || ctx.oracle.unwrap().feed_id != ctx.market.oracle_feed {
        Err(ClawBetsError::InvalidOracleData)
    } else if !is_fresh(ctx.oracle.unwrap().published_at, now) {
        Err(ClawBetsError::StaleOraclePrice)
    } else {
        Ok(())
    }
}

/// The market after it was resolved with `price` at the time `now`.
pub open spec fn resolved_market(market: Market, price: i64, now: i64) -> Market {
    Market {
        status: MarketStatus::Resolved,
        outcome: Some(outcome_of(market, price)),
        resolved_price: Some(price),
        resolved_at: Some(now),
        ..market
    }
}

/// Whether `now - published_at` is at most the accepted age.
pub fn check_fresh(published_at: i64, now: i64) -> (r: bool)
    ensures
        r == is_fresh(published_at, now),
{
    let age: i128 = now as i128 - published_at as i128;
    age <= MAX_ORACLE_AGE as i128
}

/// The outcome that `price` gives the market: true for YES.
pub fn determine_outcome(market: &Market, price: i64) -> (r: bool)
    ensures
        r == outcome_of(*market, price),
{
    if market.target_above {
        price >= market.target_price
    } else {
        price < market.target_price
    }
}

/// Resolves the market at the time `now` with the oracle's reading.
///
/// A market that is open or closed is resolved between its deadline and its
/// resolution deadline, both included, with a fresh reading of its own feed.
/// It then records the outcome, the price and the time, for good. A rejected
/// resolution changes nothing and may be tried again.
pub fn handler(ctx: &mut ResolveMarket, now: i64) -> (r: Result<(), ClawBetsError>)
    ensures
        r == resolve_verdict(*old(ctx), now),
        r.is_ok() ==> *final(ctx) == (ResolveMarket {
            market: resolved_market(old(ctx).market, old(ctx).oracle.unwrap().price, now),
            ..*old(ctx)
        }),
        r.is_err() ==> *final(ctx) == *old(ctx),
{
    if now < ctx.market.deadline {
        return Err(ClawBetsError::MarketNotReady);
    }
    if now > ctx.market.resolution_deadline {
        return Err(ClawBetsError::ResolutionExpired);
    }
    if ctx.market.status != MarketStatus::Open && ctx.market.status != MarketStatus::Closed {
        return Err(ClawBetsError::MarketNotOpen);
    }
    let reading: OracleReading = match ctx.oracle {
        Some(reading) => reading,
        None => {
            return Err(ClawBetsError::InvalidOracleData);
        },
    };
    if !reading.feed_id.same(&ctx.market.oracle_feed) {
        return Err(ClawBetsError::InvalidOracleData);
    }
    if !check_fresh(reading.published_at, now) {
        return Err(ClawBetsError::StaleOraclePrice);
    }
    let outcome: bool = determine_outcome(&ctx.market, reading.price);
    ctx.market.status = MarketStatus::Resolved;
    ctx.market.outcome = Some(outcome);
    ctx.market.resolved_price = Some(reading.price);
    ctx.market.resolved_at = Some(now);
    Ok(())
}

} // verus!
