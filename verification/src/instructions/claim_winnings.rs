//! Paying a winner out of the vault of a resolved market.

use vstd::prelude::*;
use crate::errors::ClawBetsError;
use crate::payout::{accuracy_of, compute_accuracy, compute_winnings, payout_defined, winnings_of};
use crate::state::{AgentReputation, Bet, Identity, Market, MarketStatus};

verus! {

/// The records that a payout touches.
#[derive(Clone, Debug, PartialEq, Eq)]
pub struct ClaimWinnings {
    /// The caller, who is paid.
    pub bettor: Identity,
    /// The identity under which the market is kept.
    pub market_key: Identity,
    pub market: Market,
    /// The bet that the caller claims on.
    pub bet: Bet,
    /// The balance escrowed for the market.
    pub vault: u64,
    /// The caller's reputation record.
    pub reputation: AgentReputation,
}

/// The pool of the side that won under `outcome`.
pub open spec fn winning_pool(market: Market, outcome: bool) -> u64 {
    market.pool(outcome)
}

/// The pool of the side that lost under `outcome`.
pub open spec fn losing_pool(market: Market, outcome: bool) -> u64 {
    market.pool(!outcome)
}

/// What the bet is paid from the market settled with `outcome`: the stake and
/// its proportional share of the losing pool.
pub open spec fn claim_payout(market: Market, bet: Bet, outcome: bool) -> int {
    winnings_of(bet.amount, winning_pool(market, outcome), losing_pool(market, outcome))
}

/// Whether the bet may be paid at all: it is the caller's, on this market,
/// which is resolved in its favour, and it was not paid or refunded before.
pub open spec fn claim_available(ctx: ClaimWinnings) -> bool {
    &&& ctx.bet.bettor == ctx.bettor
    &&& ctx.bet.market == ctx.market_key
    &&& ctx.market.status == MarketStatus::Resolved
    &&& !ctx.bet.claimed
    &&& ctx.market.outcome == Some(ctx.bet.position)
}

/// Whether the payout of an available claim and the sums that follow it fit
/// their widths, and the vault holds the payout.
pub open spec fn claim_fits(ctx: ClaimWinnings) -> bool {
    let won = winning_pool(ctx.market, ctx.bet.position);
    let lost = losing_pool(ctx.market, ctx.bet.position);
    &&& payout_defined(ctx.bet.amount, won, lost)
    &&& winnings_of(ctx.bet.amount, won, lost) <= ctx.vault
    &&& ctx.reputation.wins + 1 + ctx.reputation.losses <= u32::MAX
    &&& ctx.reputation.total_won + winnings_of(ctx.bet.amount, won, lost) - ctx.bet.amount
        <= u64::MAX
}

/// The payout, or the first reason, in the order in which the conditions are
/// tested, for which the claim is rejected.
pub open spec fn claim_verdict(ctx: ClaimWinnings) -> Result<u64, ClawBetsError> {
    if ctx.bet.bettor != ctx.bettor {
        Err(ClawBetsError::UnauthorizedBettor)
    } else if ctx.bet.market != ctx.market_key {
        Err(ClawBetsError::BetMarketMismatch)
    } else if ctx.market.status != MarketStatus::Resolved {
        Err(ClawBetsError::MarketNotResolved)
    } else if ctx.bet.claimed {
        Err(ClawBetsError::AlreadyClaimed)
    } else if ctx.market.outcome.is_none() {
        Err(ClawBetsError::MarketNotResolved)
    } else if ctx.market.outcome != Some(ctx.bet.position) {
        Err(ClawBetsError::BetDidNotWin)
    } else if !claim_fits(ctx) {
        Err(ClawBetsError::Overflow)
    } else {
        Ok(claim_payout(ctx.market, ctx.bet, ctx.bet.position) as u64)
    }
}

/// The reputation record after a win with the given profit at the time `now`.
pub open spec fn reputation_with_win(reputation: AgentReputation, profit: u64, now: i64) -> AgentReputation {
    AgentReputation {
        wins: (reputation.wins + 1) as u32,
        total_won: (reputation.total_won + profit) as u64,
        accuracy_bps: accuracy_of((reputation.wins + 1) as u32, reputation.losses) as u16,
        last_active: now,
        ..reputation
    }
}

/// The records after a payout of `winnings`.
pub open spec fn claim_effect(ctx: ClaimWinnings, winnings: u64, now: i64) -> ClaimWinnings {
    ClaimWinnings {
        bet: Bet { claimed: true, ..ctx.bet },
        vault: (ctx.vault - winnings) as u64,
        reputation: reputation_with_win(ctx.reputation, (winnings - ctx.bet.amount) as u64, now),
        ..ctx
    }
}

/// Pays the caller's winning bet at the time `now` and returns the payout.
///
/// The payout is the stake and the stake's proportional share of the losing
/// pool, rounded down. It leaves the vault, the bet is marked claimed, and
/// the reputation record counts the win and the profit. A claim is rejected
/// for a bet of another bettor or market, on a market that is not resolved,
/// for a bet that was claimed before or that lost, and where the payout is
/// undefined or a sum does not fit. A rejected claim changes nothing.
pub fn handler(ctx: &mut ClaimWinnings, now: i64) -> (r: Result<u64, ClawBetsError>)
    ensures
        r == claim_verdict(*old(ctx)),
        r.is_ok() == (claim_available(*old(ctx)) && claim_fits(*old(ctx))),
        r.is_ok() ==> *final(ctx) == claim_effect(*old(ctx), r.unwrap(), now),
        r.is_err() ==> *final(ctx) == *old(ctx),
{
    if !ctx.bet.bettor.same(&ctx.bettor) {
        return Err(ClawBetsError::UnauthorizedBettor);
    }
    if !ctx.bet.market.same(&ctx.market_key) {
        return Err(ClawBetsError::BetMarketMismatch);
    }
    if ctx.market.status != MarketStatus::Resolved {
        return Err(ClawBetsError::MarketNotResolved);
    }
    if ctx.bet.claimed {
        return Err(ClawBetsError::AlreadyClaimed);
    }
    let outcome: bool = match ctx.market.outcome {
        Some(side) => side,
        None => {
            return Err(ClawBetsError::MarketNotResolved);
        },
    };
    if ctx.bet.position != outcome {
        return Err(ClawBetsError::BetDidNotWin);
    }
    let (won, lost): (u64, u64) = if outcome {
        (ctx.market.total_yes, ctx.market.total_no)
    } else {
        (ctx.market.total_no, ctx.market.total_yes)
    };
    let winnings: u64 = match compute_winnings(ctx.bet.amount, won, lost) {
        Some(total) => total,
        None => {
            return Err(ClawBetsError::Overflow);
        },
    };
    assert(winnings >= ctx.bet.amount) by (nonlinear_arith)
        requires
            winnings == ctx.bet.amount + (ctx.bet.amount * lost) / (won as int),
            won > 0,
    ;
    let profit: u64 = winnings - ctx.bet.amount;
    if winnings > ctx.vault || ctx.reputation.wins as u64 + 1 + ctx.reputation.losses as u64
        > u32::MAX as u64 || profit > u64::MAX - ctx.reputation.total_won {
        return Err(ClawBetsError::Overflow);
    }
    ctx.vault = ctx.vault - winnings;
    ctx.bet.claimed = true;
    ctx.reputation.wins = ctx.reputation.wins + 1;
    ctx.reputation.total_won = ctx.reputation.total_won + profit;
    ctx.reputation.accuracy_bps = compute_accuracy(ctx.reputation.wins, ctx.reputation.losses);
    ctx.reputation.last_active = now;
    Ok(winnings)
}

} // verus!
