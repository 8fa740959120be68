//! Refunding a stake from a market that pays no winner.

use vstd::prelude::*;
use crate::errors::ClawBetsError;
use crate::state::{Bet, Identity, Market, MarketStatus};

verus! {

/// The records that a refund touches.
#[derive(Clone, Debug, PartialEq, Eq)]
pub struct ReclaimBet {
    /// The caller, who is refunded.
    pub bettor: Identity,
    /// The identity under which the market is kept.
    pub market_key: Identity,
    pub market: Market,
    /// The bet that the caller takes back.
    pub bet: Bet,
    /// The balance escrowed for the market.
    pub vault: u64,
}

/// Whether the market is resolved for a side that nobody backed. A resolved
/// market without a recorded outcome counts as resolved for NO.
pub open spec fn resolved_without_winners(market: Market) -> bool {
    market.status == MarketStatus::Resolved && match market.outcome {
        Some(side) => market.pool(side) == 0,
        None => market.total_no == 0,
    }
}

/// Whether the market refunds its stakes at the time `now`: it is cancelled;
/// or it is expired, or unresolved after its resolution deadline; or it is
/// resolved for a side that nobody backed.
pub open spec fn reclaimable(market: Market, now: i64) -> bool {
    ||| market.status == MarketStatus::Cancelled
    ||| market.status == MarketStatus::Expired
    ||| (market.status != MarketStatus::Resolved && now > market.resolution_deadline)
    ||| resolved_without_winners(market)
}

/// The refund, or the first reason, in the order in which the conditions are
/// tested, for which it is refused.
pub open spec fn reclaim_verdict(ctx: ReclaimBet, now: i64) -> Result<u64, ClawBetsError> {
    if ctx.bet.bettor != ctx.bettor {
        Err(ClawBetsError::UnauthorizedBettor)
    } else if ctx.bet.market != ctx.market_key {
        Err(ClawBetsError::BetMarketMismatch)
    } else if !reclaimable(ctx.market, now) {
        Err(ClawBetsError::MarketNotReclaimable)
    } else if ctx.bet.claimed {
        Err(ClawBetsError::AlreadyClaimed)
    } else if ctx.bet.amount > ctx.vault {
        Err(ClawBetsError::Overflow)
    } else {
        Ok(ctx.bet.amount)
    }
}

/// The records after the bet was refunded.
pub open spec fn reclaim_effect(ctx: ReclaimBet) -> ReclaimBet {
    ReclaimBet {
        bet: Bet { claimed: true, ..ctx.bet },
        vault: (ctx.vault - ctx.bet.amount) as u64,
        ..ctx
    }
}

/// Whether the market refunds its stakes at the time `now`.
pub fn is_reclaimable(market: &Market, now: i64) -> (r: bool)
    ensures
        r == reclaimable(*market, now),
{
    if market.status == MarketStatus::Cancelled || market.status == MarketStatus::Expired {
        return true;
    }
    if market.status != MarketStatus::Resolved {
        return now > market.resolution_deadline;
    }
    let winners: u64 = match market.outcome {
        Some(true) => market.total_yes,
        _ => market.total_no,
    };
    winners == 0
}

/// Refunds the caller's stake at the time `now` and returns the refund,
/// which is the bet's amount.
///
/// The amount leaves the vault and the bet is marked claimed. A refund is
/// refused for a bet of another bettor or market, on a market that does not
/// refund, for a bet that was claimed before, and where the vault holds less
/// than the amount. A refused refund changes nothing.
pub fn handler(ctx: &mut ReclaimBet, now: i64) -> (r: Result<u64, ClawBetsError>)
    ensures
        r == reclaim_verdict(*old(ctx), now),
        r.is_ok() ==> r.unwrap() == old(ctx).bet.amount,
        r.is_ok() ==> *final(ctx) == reclaim_effect(*old(ctx)),
        r.is_err() ==> *final(ctx) == *old(ctx),
{
    if !ctx.bet.bettor.same(&ctx.bettor) {
        return Err(ClawBetsError::UnauthorizedBettor);
    }
    if !ctx.bet.market.same(&ctx.market_key) {
        return Err(ClawBetsError::BetMarketMismatch);
    }
    if !is_reclaimable(&ctx.market, now) {
        return Err(ClawBetsError::MarketNotReclaimable);
    }
    if ctx.bet.claimed {
        return Err(ClawBetsError::AlreadyClaimed);
    }
    let amount: u64 = ctx.bet.amount;
    if amount > ctx.vault {
        return Err(ClawBetsError::Overflow);
    }
    ctx.vault = ctx.vault - amount;
    ctx.bet.claimed = true;
    Ok(amount)
}

} // verus!
