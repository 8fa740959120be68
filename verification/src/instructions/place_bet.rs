//! Placing a wager on an open market.

use vstd::prelude::*;
use crate::errors::ClawBetsError;
use crate::state::{AgentReputation, Bet, Identity, Market, MarketStatus, Protocol};

verus! {

/// The records that a wager touches.
#[derive(Clone, Debug, PartialEq, Eq)]
pub struct PlaceBet {
    /// The caller, who stakes the amount.
    pub bettor: Identity,
    /// The identity under which the market is kept.
    pub market_key: Identity,
    pub market: Market,
    /// The caller's bet on this market: `None` before the wager.
    pub bet: Option<Bet>,
    /// The balance escrowed for the market.
    pub vault: u64,
    /// The caller's reputation record, not owned by anybody if it is new.
    pub reputation: AgentReputation,
    pub protocol: Protocol,
}

/// The first reason, in the order in which the conditions are tested, for
/// which the wager is rejected; `Ok` if there is none.
pub open spec fn place_bet_verdict(ctx: PlaceBet, amount: u64, position: bool, now: i64) -> Result<
    (),
    ClawBetsError,
> {
    if ctx.bet.is_some() {
        Err(ClawBetsError::BetAlreadyExists)
    } else if ctx.market.status != MarketStatus::Open {
        Err(ClawBetsError::MarketNotOpen)
    } else if now >= ctx.market.deadline {
        Err(ClawBetsError::BettingClosed)
    } else if amount < ctx.market.min_bet {
        Err(ClawBetsError::BetTooSmall)
    } else if amount > ctx.market.max_bet {
        Err(ClawBetsError::BetTooLarge)
    } else if ctx.vault + amount > u64::MAX || ctx.market.pool(position) + amount > u64::MAX
        || ctx.market.count(position) + 1 > u32::MAX || ctx.protocol.total_volume + amount
        > u64::MAX || ctx.reputation.total_bets + 1 > u32::MAX || ctx.reputation.total_wagered
        + amount > u64::MAX {
        Err(ClawBetsError::Overflow)
    } else {
        Ok(())
    }
}

/// The market after a stake of `amount` on the side `position`: that side's
/// pool grows by the amount and its count by one.
pub open spec fn market_with_stake(market: Market, amount: u64, position: bool) -> Market {
    if position {
        Market {
            total_yes: (market.total_yes + amount) as u64,
            yes_count: (market.yes_count + 1) as u32,
            ..market
        }
    } else {
        Market {
            total_no: (market.total_no + amount) as u64,
            no_count: (market.no_count + 1) as u32,
            ..market
        }
    }
}

/// The reputation record after its owner staked `amount` at the time `now`.
/// A record that nobody owns becomes the bettor's.
pub open spec fn reputation_with_stake(
    reputation: AgentReputation,
    bettor: Identity,
    amount: u64,
    now: i64,
) -> AgentReputation {
    AgentReputation {
        agent: if reputation.agent.is_unset() {
            bettor
        } else {
            reputation.agent
        },
        total_bets: (reputation.total_bets + 1) as u32,
        total_wagered: (reputation.total_wagered + amount) as u64,
        last_active: now,
        ..reputation
    }
}

/// The records after an accepted wager.
pub open spec fn place_bet_effect(ctx: PlaceBet, amount: u64, position: bool, now: i64) -> PlaceBet {
    PlaceBet {
        market: market_with_stake(ctx.market, amount, position),
        bet: Some(
            Bet {
                bettor: ctx.bettor,
                market: ctx.market_key,
                amount,
                position,
                claimed: false,
                placed_at: now,
            },
        ),
        vault: (ctx.vault + amount) as u64,
        reputation: reputation_with_stake(ctx.reputation, ctx.bettor, amount, now),
        protocol: Protocol {
            total_volume: (ctx.protocol.total_volume + amount) as u64,
            ..ctx.protocol
        },
        ..ctx
    }
}

/// Stakes `amount` for the caller on the side `position` at the time `now`.
///
/// The wager is accepted on an open market before its deadline, for an amount
/// within the market's bounds, from a bettor without a bet on it, if no sum
/// or count overflows. Then the amount is escrowed, the side's pool and count
/// grow, the bet is recorded unclaimed, and volume and reputation follow.
/// A rejected wager changes nothing.
pub fn handler(ctx: &mut PlaceBet, amount: u64, position: bool, now: i64) -> (r: Result<
    (),
    ClawBetsError,
>)
    ensures
        r == place_bet_verdict(*old(ctx), amount, position, now),
        r.is_ok() ==> *final(ctx) == place_bet_effect(*old(ctx), amount, position, now),
        r.is_err() ==> *final(ctx) == *old(ctx),
{
    if ctx.bet.is_some() {
        return Err(ClawBetsError::BetAlreadyExists);
    }
    if ctx.market.status != MarketStatus::Open {
        return Err(ClawBetsError::MarketNotOpen);
    }
    if now >= ctx.market.deadline {
        return Err(ClawBetsError::BettingClosed);
    }
    if amount < ctx.market.min_bet {
        return Err(ClawBetsError::BetTooSmall);
    }
    if amount > ctx.market.max_bet {
        return Err(ClawBetsError::BetTooLarge);
    }
    let pool: u64 = if position {
        ctx.market.total_yes
    } else {
        ctx.market.total_no
    };
    let count: u32 = if position {
        ctx.market.yes_count
    } else {
        ctx.market.no_count
    };
    if amount > u64::MAX - ctx.vault || amount > u64::MAX - pool || count == u32::MAX || amount
        > u64::MAX - ctx.protocol.total_volume || ctx.reputation.total_bets == u32::MAX || amount
        > u64::MAX - ctx.reputation.total_wagered {
        return Err(ClawBetsError::Overflow);
    }
    ctx.vault = ctx.vault + amount;
    if position {
        ctx.market.total_yes = pool + amount;
        ctx.market.yes_count = count + 1;
    } else {
        ctx.market.total_no = pool + amount;
        ctx.market.no_count = count + 1;
    }
    ctx.protocol.total_volume = ctx.protocol.total_volume + amount;
    ctx.bet = Some(
        Bet {
            bettor: ctx.bettor,
            market: ctx.market_key,
            amount,
            position,
            claimed: false,
            placed_at: now,
        },
    );
    if ctx.reputation.agent.has_no_owner() {
        ctx.reputation.agent = ctx.bettor;
    }
    ctx.reputation.total_bets = ctx.reputation.total_bets + 1;
    ctx.reputation.total_wagered = ctx.reputation.total_wagered + amount;
    ctx.reputation.last_active = now;
    Ok(())
}

} // verus!
