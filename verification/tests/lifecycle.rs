use clawbets::errors::ClawBetsError;
use clawbets::instructions::cancel_market::CancelMarket;
use clawbets::instructions::close_betting::CloseBetting;
use clawbets::instructions::expire_market::ExpireMarket;
use clawbets::state::{Identity, Market, MarketStatus};

fn owner() -> Identity {
    Identity { bytes: [1u8; 32] }
}

fn market_in(status: MarketStatus) -> Market {
    Market {
        creator: owner(),
        market_id: 0,
        title: String::from("m"),
        description: String::new(),
        oracle_feed: Identity { bytes: [2u8; 32] },
        target_price: 10,
        target_above: true,
        deadline: 1000,
        resolution_deadline: 2000,
        min_bet: 100,
        max_bet: 1000,
        total_yes: 0,
        total_no: 0,
        yes_count: 0,
        no_count: 0,
        status,
        outcome: if status == MarketStatus::Resolved { Some(true) } else { None },
        resolved_price: if status == MarketStatus::Resolved { Some(10) } else { None },
        resolved_at: if status == MarketStatus::Resolved { Some(1500) } else { None },
        created_at: 0,
    }
}

const NOT_OPEN: [MarketStatus; 4] = [
    MarketStatus::Closed,
    MarketStatus::Resolved,
    MarketStatus::Cancelled,
    MarketStatus::Expired,
];

#[test]
fn close_from_deadline_on() {
    let mut ctx = CloseBetting { market: market_in(MarketStatus::Open) };
    assert_eq!(clawbets::close_betting(&mut ctx, 999), Err(ClawBetsError::MarketNotReady));
    assert_eq!(ctx.market, market_in(MarketStatus::Open));
    assert_eq!(clawbets::close_betting(&mut ctx, 1000), Ok(()));
    assert_eq!(ctx.market, market_in(MarketStatus::Closed));
}

#[test]
fn close_only_an_open_market() {
    for status in NOT_OPEN {
        let mut ctx = CloseBetting { market: market_in(status) };
        assert_eq!(
            clawbets::instructions::close_betting::handler(&mut ctx, 5000),
            Err(ClawBetsError::MarketNotOpen)
        );
        assert_eq!(ctx.market, market_in(status));
    }
}

#[test]
fn cancel_only_by_creator() {
    let mut ctx =
        CancelMarket { creator: Identity { bytes: [7u8; 32] }, market: market_in(MarketStatus::Open) };
    assert_eq!(
        clawbets::instructions::cancel_market::handler(&mut ctx),
        Err(ClawBetsError::UnauthorizedCreator)
    );
    assert_eq!(ctx.market, market_in(MarketStatus::Open));
    ctx.creator = owner();
    assert_eq!(clawbets::instructions::cancel_market::handler(&mut ctx), Ok(()));
    assert_eq!(ctx.market, market_in(MarketStatus::Cancelled));
}

#[test]
fn cancel_only_an_open_market() {
    for status in NOT_OPEN {
        let mut ctx = CancelMarket { creator: owner(), market: market_in(status) };
        assert_eq!(clawbets::cancel_market(&mut ctx), Err(ClawBetsError::MarketNotOpen));
        assert_eq!(ctx.market, market_in(status));
    }
}

#[test]
fn cancel_rejected_with_a_bet_on_either_side() {
    let mut market = market_in(MarketStatus::Open);
    market.yes_count = 1;
    let mut ctx = CancelMarket { creator: owner(), market };
    assert_eq!(clawbets::cancel_market(&mut ctx), Err(ClawBetsError::MarketHasBets));
    ctx.market.yes_count = 0;
    ctx.market.no_count = 1;
    assert_eq!(clawbets::cancel_market(&mut ctx), Err(ClawBetsError::MarketHasBets));
    assert_eq!(ctx.market.status, MarketStatus::Open);
}

#[test]
fn expire_after_resolution_deadline() {
    for status in [MarketStatus::Open, MarketStatus::Closed] {
        let mut ctx = ExpireMarket { market: market_in(status) };
        assert_eq!(
            clawbets::instructions::expire_market::handler(&mut ctx, 2000),
            Err(ClawBetsError::MarketNotReady)
        );
        assert_eq!(ctx.market, market_in(status));
        assert_eq!(clawbets::instructions::expire_market::handler(&mut ctx, 2001), Ok(()));
        assert_eq!(ctx.market.status, MarketStatus::Expired);
        assert_eq!(ctx.market.outcome, None);
    }
}

#[test]
fn expire_only_an_unsettled_market() {
    for status in [MarketStatus::Resolved, MarketStatus::Cancelled, MarketStatus::Expired] {
        let mut ctx = ExpireMarket { market: market_in(status) };
        assert_eq!(clawbets::expire_market(&mut ctx, 5000), Err(ClawBetsError::MarketNotOpen));
        assert_eq!(ctx.market, market_in(status));
        assert_eq!(clawbets::expire_market(&mut ctx, 0), Err(ClawBetsError::MarketNotReady));
    }
}
