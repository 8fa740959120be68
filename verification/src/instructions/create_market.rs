//! Creating a market.

use vstd::prelude::*;
use crate::errors::ClawBetsError;
use crate::state::{
    AgentReputation,
    Identity,
    Market,
    MarketStatus,
    Protocol,
    MAX_DESCRIPTION_LEN,
    MAX_TITLE_LEN,
};

verus! {

/// The records that the creation of a market touches.
#[derive(Clone, Copy, Debug, PartialEq, Eq)]
pub struct CreateMarket {
    /// The caller, who becomes the market's creator.
    pub creator: Identity,
    pub protocol: Protocol,
    /// The caller's reputation record, not owned by anybody if it is new.
    pub reputation: AgentReputation,
}

/// What the caller asks of the new market.
#[derive(Clone, Debug, PartialEq, Eq)]
pub struct MarketTerms {
    pub title: String,
    pub description: String,
    /// The price feed that settles the market.
    pub feed_id: [u8; 32],
    pub target_price: i64,
    pub target_above: bool,
    pub deadline: i64,
    pub resolution_deadline: i64,
    pub min_bet: u64,
    pub max_bet: u64,
}

/// The first reason, in the order in which the conditions are tested, for
/// which the terms are refused at the time `now`; `Ok` if there is none.
pub open spec fn terms_verdict(terms: MarketTerms, now: i64) -> Result<(), ClawBetsError> {
    if terms.title@.len() > MAX_TITLE_LEN {
        Err(ClawBetsError::TitleTooLong)
    } else if terms.description@.len() > MAX_DESCRIPTION_LEN {
        Err(ClawBetsError::DescriptionTooLong)
    } else if terms.deadline <= now {
        Err(ClawBetsError::DeadlineInPast)
    } else if terms.resolution_deadline <= terms.deadline {
        Err(ClawBetsError::InvalidResolutionDeadline)
    } else if terms.min_bet == 0 {
        Err(ClawBetsError::InvalidMinBet)
    } else if terms.max_bet < terms.min_bet {
        Err(ClawBetsError::InvalidMaxBet)
    } else {
        Ok(())
    }
}

/// The first reason for which the creation is rejected: that of the terms,
/// or that a counter is full; `Ok` if there is none.
pub open spec fn create_verdict(ctx: CreateMarket, terms: MarketTerms, now: i64) -> Result<
    (),
    ClawBetsError,
> {
    if terms_verdict(terms, now).is_err() {
        terms_verdict(terms, now)
    } else if ctx.protocol.market_count == u64::MAX || ctx.reputation.markets_created
        == u32::MAX {
        Err(ClawBetsError::Overflow)
    } else {
        Ok(())
    }
}

/// The market that the creator gets for the terms at the time `now`, under
/// the id `market_id`: open, with empty pools and nothing resolved.
pub open spec fn new_market(creator: Identity, market_id: u64, terms: MarketTerms, now: i64) -> Market {
    Market {
        creator,
        market_id,
        title: terms.title,
        description: terms.description,
        oracle_feed: Identity { bytes: terms.feed_id },
        target_price: terms.target_price,
        target_above: terms.target_above,
        deadline: terms.deadline,
        resolution_deadline: terms.resolution_deadline,
        min_bet: terms.min_bet,
        max_bet: terms.max_bet,
        total_yes: 0,
        total_no: 0,
        yes_count: 0,
        no_count: 0,
        status: MarketStatus::Open,
        outcome: None,
        resolved_price: None,
        resolved_at: None,
        created_at: now,
    }
}

/// The reputation record after its owner created a market at the time `now`.
/// A record that nobody owns becomes the creator's.
pub open spec fn reputation_with_market(reputation: AgentReputation, creator: Identity, now: i64) -> AgentReputation {
    AgentReputation {
        agent: if reputation.agent.is_unset() {
            creator
        } else {
            reputation.agent
        },
        markets_created: (reputation.markets_created + 1) as u32,
        last_active: now,
        ..reputation
    }
}

/// The records after a market was created.
pub open spec fn create_effect(ctx: CreateMarket, now: i64) -> CreateMarket {
    CreateMarket {
        protocol: Protocol {
            market_count: (ctx.protocol.market_count + 1) as u64,
            ..ctx.protocol
        },
        reputation: reputation_with_market(ctx.reputation, ctx.creator, now),
        ..ctx
    }
}

/// Tests the terms of a new market at the time `now`.
pub fn validate_terms(terms: &MarketTerms, now: i64) -> (r: Result<(), ClawBetsError>)
    ensures
        r == terms_verdict(*terms, now),
{
    if terms.title.as_str().unicode_len() > MAX_TITLE_LEN {
        return Err(ClawBetsError::TitleTooLong);
    }
    if terms.description.as_str().unicode_len() > MAX_DESCRIPTION_LEN {
        return Err(ClawBetsError::DescriptionTooLong);
    }
    if terms.deadline <= now {
        return Err(ClawBetsError::DeadlineInPast);
    }
    if terms.resolution_deadline <= terms.deadline {
        return Err(ClawBetsError::InvalidResolutionDeadline);
    }
    if terms.min_bet == 0 {
        return Err(ClawBetsError::InvalidMinBet);
    }
    if terms.max_bet < terms.min_bet {
        return Err(ClawBetsError::InvalidMaxBet);
    }
    Ok(())
}

/// The terms that the nine values make.
pub open spec fn terms_of(
    title: String,
    description: String,
    feed_id: [u8; 32],
    target_price: i64,
    target_above: bool,
    deadline: i64,
    resolution_deadline: i64,
    min_bet: u64,
    max_bet: u64,
) -> MarketTerms {
    MarketTerms {
        title,
        description,
        feed_id,
        target_price,
        target_above,
        deadline,
        resolution_deadline,
        min_bet,
        max_bet,
    }
}

/// Creates a market for the caller at the time `now` and returns it.
///
/// The terms are accepted if the texts keep their limits, the deadline lies
/// in the future and before the resolution deadline, and the bet bounds are
/// positive and in order. The market gets the protocol's counter as its id
/// and starts open and empty; the counter and the creator's count of markets
/// grow by one. A rejected creation changes nothing.
pub fn handler(
    ctx: &mut CreateMarket,
    title: String,
    description: String,
    feed_id: [u8; 32],
    target_price: i64,
    target_above: bool,
    deadline: i64,
    resolution_deadline: i64,
    min_bet: u64,
    max_bet: u64,
    now: i64,
) -> (r: Result<Market, ClawBetsError>)
    ensures
        r.is_ok() == create_verdict(
            *old(ctx),
            terms_of(
                title,
                description,
                feed_id,
                target_price,
                target_above,
                deadline,
                resolution_deadline,
                min_bet,
                max_bet,
            ),
            now,
        ).is_ok(),
        r.is_err() ==> r.unwrap_err() == create_verdict(
            *old(ctx),
            terms_of(
                title,
                description,
                feed_id,
                target_price,
                target_above,
                deadline,
                resolution_deadline,
                min_bet,
                max_bet,
            ),
            now,
        ).unwrap_err(),
        r.is_ok() ==> r.unwrap() == new_market(
            old(ctx).creator,
            old(ctx).protocol.market_count,
            terms_of(
                title,
                description,
                feed_id,
                target_price,
                target_above,
                deadline,
                resolution_deadline,
                min_bet,
                max_bet,
            ),
            now,
        ),
        r.is_ok() ==> r.unwrap().wf(),
        r.is_ok() ==> *final(ctx) == create_effect(*old(ctx), now),
        r.is_err() ==> *final(ctx) == *old(ctx),
{
    let terms = MarketTerms {
        title,
        description,
        feed_id,
        target_price,
        target_above,
        deadline,
        resolution_deadline,
        min_bet,
        max_bet,
    };
    match validate_terms(&terms, now) {
        Err(reason) => {
            return Err(reason);
        },
        Ok(_) => {},
    }
    if ctx.protocol.market_count == u64::MAX || ctx.reputation.markets_created == u32::MAX {
        return Err(ClawBetsError::Overflow);
    }
    let market = Market {
        creator: ctx.creator,
        market_id: ctx.protocol.market_count,
        title: terms.title,
        description: terms.description,
        oracle_feed: Identity { bytes: terms.feed_id },
        target_price: terms.target_price,
        target_above: terms.target_above,
        deadline: terms.deadline,
        resolution_deadline: terms.resolution_deadline,
        min_bet: terms.min_bet,
        max_bet: terms.max_bet,
        total_yes: 0,
        total_no: 0,
        yes_count: 0,
        no_count: 0,
        status: MarketStatus::Open,
        outcome: None,
        resolved_price: None,
        resolved_at: None,
        created_at: now,
    };
    ctx.protocol.market_count = ctx.protocol.market_count + 1;
    if ctx.reputation.agent.has_no_owner() {
        ctx.reputation.agent = ctx.creator;
    }
    ctx.reputation.markets_created = ctx.reputation.markets_created + 1;
    ctx.reputation.last_active = now;
    Ok(market)
}

} // verus!
