//! The life of a market: which status may follow which, and that every
//! operation keeps to it.

use vstd::prelude::*;
use crate::instructions::cancel_market::{cancel_verdict, CancelMarket};
use crate::instructions::close_betting::{close_verdict, CloseBetting};
use crate::instructions::expire_market::{expire_verdict, ExpireMarket};
use crate::instructions::place_bet::{market_with_stake, place_bet_verdict, PlaceBet};
use crate::instructions::resolve_market::{resolve_verdict, resolved_market, ResolveMarket};
use crate::state::{Market, MarketStatus};

verus! {

/// Whether a market in the status `from` may pass to the status `to`: an open
/// market to any other status, a closed one to resolved or expired, and no
/// other.
pub open spec fn may_follow(from: MarketStatus, to: MarketStatus) -> bool {
    match from {
        MarketStatus::Open => to != MarketStatus::Open,
        MarketStatus::Closed => to == MarketStatus::Resolved || to == MarketStatus::Expired,
        _ => false,
    }
}

/// Whether the status is one that a market never leaves.
pub open spec fn is_terminal(status: MarketStatus) -> bool {
    status == MarketStatus::Resolved || status == MarketStatus::Cancelled || status
        == MarketStatus::Expired
}

/// No status follows a terminal one, and none follows itself.
pub proof fn lemma_terminal_is_final(from: MarketStatus, to: MarketStatus)
    ensures
        is_terminal(from) ==> !may_follow(from, to),
        !may_follow(from, from),
        may_follow(from, to) ==> !may_follow(to, from),
{
}

/// Every operation that changes a market's status is rejected on a market
/// in a terminal status, and so is a wager.
pub proof fn lemma_terminal_market_rejects(
    market: Market,
    close: CloseBetting,
    resolve: ResolveMarket,
    cancel: CancelMarket,
    expire: ExpireMarket,
    wager: PlaceBet,
    amount: u64,
    position: bool,
    now: i64,
)
    requires
        is_terminal(market.status),
        close.market == market,
        resolve.market == market,
        cancel.market == market,
        expire.market == market,
        wager.market == market,
    ensures
        close_verdict(close, now).is_err(),
        resolve_verdict(resolve, now).is_err(),
        cancel_verdict(cancel).is_err(),
        expire_verdict(expire, now).is_err(),
        place_bet_verdict(wager, amount, position, now).is_err(),
{
}

/// Every accepted change of status is one that the life of a market allows:
/// closing leads from open to closed, cancelling from open to cancelled,
/// resolving and expiring from open or closed to resolved and to expired.
pub proof fn lemma_operations_keep_to_lifecycle(
    close: CloseBetting,
    resolve: ResolveMarket,
    cancel: CancelMarket,
    expire: ExpireMarket,
    now: i64,
)
    ensures
        close_verdict(close, now).is_ok() ==> close.market.status == MarketStatus::Open
            && may_follow(close.market.status, MarketStatus::Closed),
        resolve_verdict(resolve, now).is_ok() ==> may_follow(
            resolve.market.status,
            MarketStatus::Resolved,
        ),
        cancel_verdict(cancel).is_ok() ==> cancel.market.status == MarketStatus::Open
            && may_follow(cancel.market.status, MarketStatus::Cancelled),
        expire_verdict(expire, now).is_ok() ==> may_follow(
            expire.market.status,
            MarketStatus::Expired,
        ),
{
}

/// At no time can a market be both resolved and expired by the next
/// operation: resolution needs a time up to the resolution deadline, expiry
/// a time after it.
pub proof fn lemma_resolve_and_expire_exclude(resolve: ResolveMarket, expire: ExpireMarket, now: i64)
    requires
        resolve.market == expire.market,
    ensures
        !(resolve_verdict(resolve, now).is_ok() && expire_verdict(expire, now).is_ok()),
{
}

/// A well-formed market stays well-formed under every operation: under a
/// stake, a resolution, and each plain change of status that an operation
/// makes.
pub proof fn lemma_operations_keep_market_wf(
    market: Market,
    amount: u64,
    position: bool,
    price: i64,
    now: i64,
)
    requires
        market.wf(),
    ensures
        market_with_stake(market, amount, position).wf(),
        resolved_market(market, price, now).wf(),
        market.status != MarketStatus::Resolved ==> (Market {
            status: MarketStatus::Closed,
            ..market
        }).wf() && (Market { status: MarketStatus::Cancelled, ..market }).wf() && (Market {
            status: MarketStatus::Expired,
            ..market
        }).wf(),
{
}

} // verus!
