//! Settlement engine for binary-outcome prediction markets.
//!
//! Participants escrow value on the YES or NO side of a proposition that an
//! oracle price settles. Every operation is a function from the records it
//! touches and the current time to the updated records; each either applies
//! all of its effects or leaves every record as it was.

use vstd::prelude::*;
use crate::errors::ClawBetsError;
use crate::instructions::cancel_market::{cancel_verdict, CancelMarket};
use crate::instructions::claim_winnings::{
    claim_available,
    claim_effect,
    claim_fits,
    claim_verdict,
    ClaimWinnings,
};
use crate::instructions::close_betting::{close_verdict, CloseBetting};
use crate::instructions::create_market::{
    create_effect,
    create_verdict,
    new_market,
    terms_of,
    CreateMarket,
};
use crate::instructions::expire_market::{expire_verdict, ExpireMarket};
use crate::instructions::initialize::Initialize;
use crate::instructions::place_bet::{place_bet_effect, place_bet_verdict, PlaceBet};
use crate::instructions::reclaim_bet::{reclaim_effect, reclaim_verdict, ReclaimBet};
use crate::instructions::resolve_market::{resolve_verdict, resolved_market, ResolveMarket};
use crate::state::{Market, MarketStatus, Protocol};

pub mod errors;
pub mod escrow;
pub mod instructions;
pub mod lifecycle;
pub mod oracle;
pub mod payout;
pub mod state;

verus! {

/// Sets the protocol record up for the caller.
pub fn initialize(ctx: &mut Initialize) -> (r: Result<(), ClawBetsError>)
    ensures
        r.is_ok(),
        final(ctx).admin == old(ctx).admin,
        final(ctx).protocol == (Protocol {
            admin: old(ctx).admin,
            market_count: 0,
            total_volume: 0,
        }),
{
    instructions::initialize::handler(ctx)
}

/// Creates a market for the caller at the time `now` and returns it.
pub fn create_market(
    ctx: &mut CreateMarket,
    title: String,
    description: String,
    feed_id: [u8; 32],
    target_price: i64,
    target_above: bool,
    deadline: i64,
    resolution_deadline: i64,
    min_bet: u64,
    max_bet: u64,
    now: i64,
) -> (r: Result<Market, ClawBetsError>)
    ensures
        r.is_ok() == create_verdict(
            *old(ctx),
            terms_of(
                title,
                description,
                feed_id,
                target_price,
                target_above,
                deadline,
                resolution_deadline,
                min_bet,
                max_bet,
            ),
            now,
        ).is_ok(),
        r.is_err() ==> r.unwrap_err() == create_verdict(
            *old(ctx),
            terms_of(
                title,
                description,
                feed_id,
                target_price,
                target_above,
                deadline,
                resolution_deadline,
                min_bet,
                max_bet,
            ),
            now,
        ).unwrap_err(),
        r.is_ok() ==> r.unwrap() == new_market(
            old(ctx).creator,
            old(ctx).protocol.market_count,
            terms_of(
                title,
                description,
                feed_id,
                target_price,
                target_above,
                deadline,
                resolution_deadline,
                min_bet,
                max_bet,
            ),
            now,
        ),
        r.is_ok() ==> r.unwrap().wf(),
        r.is_ok() ==> *final(ctx) == create_effect(*old(ctx), now),
        r.is_err() ==> *final(ctx) == *old(ctx),
{
    instructions::create_market::handler(
        ctx,
        title,
        description,
        feed_id,
        target_price,
        target_above,
        deadline,
        resolution_deadline,
        min_bet,
        max_bet,
        now,
    )
}

/// Stakes `amount` for the caller on the side `position` at the time `now`.
pub fn place_bet(ctx: &mut PlaceBet, amount: u64, position: bool, now: i64) -> (r: Result<
    (),
    ClawBetsError,
>)
    ensures
        r == place_bet_verdict(*old(ctx), amount, position, now),
        r.is_ok() ==> *final(ctx) == place_bet_effect(*old(ctx), amount, position, now),
        r.is_err() ==> *final(ctx) == *old(ctx),
{
    instructions::place_bet::handler(ctx, amount, position, now)
}

/// Resolves the market at the time `now` with the oracle's reading.
pub fn resolve_market(ctx: &mut ResolveMarket, now: i64) -> (r: Result<(), ClawBetsError>)
    ensures
        r == resolve_verdict(*old(ctx), now),
        r.is_ok() ==> *final(ctx) == (ResolveMarket {
            market: resolved_market(old(ctx).market, old(ctx).oracle.unwrap().price, now),
            ..*old(ctx)
        }),
        r.is_err() ==> *final(ctx) == *old(ctx),
{
    instructions::resolve_market::handler(ctx, now)
}

/// Pays the caller's winning bet at the time `now` and returns the payout.
pub fn claim_winnings(ctx: &mut ClaimWinnings, now: i64) -> (r: Result<u64, ClawBetsError>)
    ensures
        r == claim_verdict(*old(ctx)),
        r.is_ok() == (claim_available(*old(ctx)) && claim_fits(*old(ctx))),
        r.is_ok() ==> *final(ctx) == claim_effect(*old(ctx), r.unwrap(), now),
        r.is_err() ==> *final(ctx) == *old(ctx),
{
    instructions::claim_winnings::handler(ctx, now)
}

/// Cancels the market for its creator.
pub fn cancel_market(ctx: &mut CancelMarket) -> (r: Result<(), ClawBetsError>)
    ensures
        r == cancel_verdict(*old(ctx)),
        r.is_ok() ==> *final(ctx) == (CancelMarket {
            market: Market { status: MarketStatus::Cancelled, ..old(ctx).market },
            ..*old(ctx)
        }),
        r.is_err() ==> *final(ctx) == *old(ctx),
{
    instructions::cancel_market::handler(ctx)
}

/// Refunds the caller's stake at the time `now` and returns the refund.
pub fn reclaim_bet(ctx: &mut ReclaimBet, now: i64) -> (r: Result<u64, ClawBetsError>)
    ensures
        r == reclaim_verdict(*old(ctx), now),
        r.is_ok() ==> r.unwrap() == old(ctx).bet.amount,
        r.is_ok() ==> *final(ctx) == reclaim_effect(*old(ctx)),
        r.is_err() ==> *final(ctx) == *old(ctx),
{
    instructions::reclaim_bet::handler(ctx, now)
}

/// Marks the market expired at the time `now`.
pub fn expire_market(ctx: &mut ExpireMarket, now: i64) -> (r: Result<(), ClawBetsError>)
    ensures
        r == expire_verdict(*old(ctx), now),
        r.is_ok() ==> *final(ctx) == (ExpireMarket {
            market: Market { status: MarketStatus::Expired, ..old(ctx).market },
        }),
        r.is_err() ==> *final(ctx) == *old(ctx),
{
    instructions::expire_market::handler(ctx, now)
}

/// Marks the market closed for bets at the time `now`.
pub fn close_betting(ctx: &mut CloseBetting, now: i64) -> (r: Result<(), ClawBetsError>)
    ensures
        r == close_verdict(*old(ctx), now),
        r.is_ok() ==> *final(ctx) == (CloseBetting {
            market: Market { status: MarketStatus::Closed, ..old(ctx).market },
        }),
        r.is_err() ==> *final(ctx) == *old(ctx),
{
    instructions::close_betting::handler(ctx, now)
}

} // verus!
