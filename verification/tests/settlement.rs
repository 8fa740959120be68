use clawbets::errors::ClawBetsError;
use clawbets::instructions::claim_winnings::ClaimWinnings;
use clawbets::instructions::resolve_market::{
    check_fresh, determine_outcome, ResolveMarket, MAX_ORACLE_AGE,
};
use clawbets::state::{AgentReputation, Bet, Identity, Market, MarketStatus, OracleReading};

fn who(tag: u8) -> Identity {
    Identity { bytes: [tag; 32] }
}

fn betting_over() -> Market {
    Market {
        creator: who(1),
        market_id: 3,
        title: String::from("m"),
        description: String::new(),
        oracle_feed: who(2),
        target_price: 250,
        target_above: true,
        deadline: 1000,
        resolution_deadline: 2000,
        min_bet: 1,
        max_bet: 1_000_000,
        total_yes: 600,
        total_no: 400,
        yes_count: 2,
        no_count: 1,
        status: MarketStatus::Open,
        outcome: None,
        resolved_price: None,
        resolved_at: None,
        created_at: 0,
    }
}

fn reading(price: i64, published_at: i64) -> Option<OracleReading> {
    Some(OracleReading { feed_id: who(2), price, published_at, exponent: -8 })
}

fn resolve_rejected(mut ctx: ResolveMarket, now: i64) -> ClawBetsError {
    let before = ctx.clone();
    let reason = clawbets::instructions::resolve_market::handler(&mut ctx, now).unwrap_err();
    assert_eq!(ctx, before);
    reason
}

fn resolved(outcome: bool) -> Market {
    let mut market = betting_over();
    market.status = MarketStatus::Resolved;
    market.outcome = Some(outcome);
    market.resolved_price = Some(if outcome { 250 } else { 249 });
    market.resolved_at = Some(1500);
    market
}

fn yes_claim() -> ClaimWinnings {
    ClaimWinnings {
        bettor: who(5),
        market_key: who(9),
        market: resolved(true),
        bet: Bet {
            bettor: who(5),
            market: who(9),
            amount: 200,
            position: true,
            claimed: false,
            placed_at: 10,
        },
        vault: 1000,
        reputation: AgentReputation {
            agent: who(5),
            total_bets: 4,
            wins: 1,
            losses: 2,
            total_wagered: 900,
            total_won: 50,
            total_lost: 0,
            markets_created: 0,
            accuracy_bps: 3333,
            last_active: 10,
        },
    }
}

fn claim_rejected(mut ctx: ClaimWinnings) -> ClawBetsError {
    let before = ctx.clone();
    let reason = clawbets::instructions::claim_winnings::handler(&mut ctx, 1600).unwrap_err();
    assert_eq!(ctx, before);
    reason
}

#[test]
fn outcome_follows_target_direction() {
    let mut market = betting_over();
    assert!(determine_outcome(&market, 250));
    assert!(determine_outcome(&market, 251));
    assert!(!determine_outcome(&market, 249));
    market.target_above = false;
    assert!(!determine_outcome(&market, 250));
    assert!(!determine_outcome(&market, 251));
    assert!(determine_outcome(&market, 249));
    market.target_price = i64::MIN;
    assert!(!determine_outcome(&market, i64::MIN));
    market.target_above = true;
    assert!(determine_outcome(&market, i64::MIN));
}

#[test]
fn reading_is_fresh_up_to_120_seconds() {
    assert_eq!(MAX_ORACLE_AGE, 120);
    assert!(check_fresh(1000, 1000));
    assert!(check_fresh(1000, 1120));
    assert!(!check_fresh(1000, 1121));
    assert!(check_fresh(2000, 1000));
    assert!(!check_fresh(i64::MIN, i64::MAX));
    assert!(check_fresh(i64::MAX, i64::MIN));
    assert!(!check_fresh(-1, i64::MAX));
}

#[test]
fn resolution_records_outcome_price_and_time() {
    let mut ctx = ResolveMarket { market: betting_over(), oracle: reading(249, 1400) };
    assert_eq!(clawbets::instructions::resolve_market::handler(&mut ctx, 1500), Ok(()));
    assert_eq!(ctx.market.status, MarketStatus::Resolved);
    assert_eq!(ctx.market.outcome, Some(false));
    assert_eq!(ctx.market.resolved_price, Some(249));
    assert_eq!(ctx.market.resolved_at, Some(1500));
    assert_eq!(ctx.market.total_yes, 600);
    assert_eq!(ctx.oracle, reading(249, 1400));

    let mut closed = betting_over();
    closed.status = MarketStatus::Closed;
    closed.target_above = false;
    let mut ctx = ResolveMarket { market: closed, oracle: reading(249, 1400) };
    assert_eq!(clawbets::instructions::resolve_market::handler(&mut ctx, 1500), Ok(()));
    assert_eq!(ctx.market.outcome, Some(true));
}

#[test]
fn resolution_window_includes_both_deadlines() {
    let mut ctx = ResolveMarket { market: betting_over(), oracle: reading(250, 1000) };
    assert_eq!(clawbets::instructions::resolve_market::handler(&mut ctx, 1000), Ok(()));
    let mut ctx = ResolveMarket { market: betting_over(), oracle: reading(250, 2000) };
    assert_eq!(clawbets::instructions::resolve_market::handler(&mut ctx, 2000), Ok(()));
    let early = ResolveMarket { market: betting_over(), oracle: reading(250, 999) };
    assert_eq!(resolve_rejected(early, 999), ClawBetsError::MarketNotReady);
    let late = ResolveMarket { market: betting_over(), oracle: reading(250, 2001) };
    assert_eq!(resolve_rejected(late, 2001), ClawBetsError::ResolutionExpired);
}

#[test]
fn resolution_is_one_shot() {
    let mut ctx = ResolveMarket { market: betting_over(), oracle: reading(300, 1500) };
    assert_eq!(clawbets::instructions::resolve_market::handler(&mut ctx, 1500), Ok(()));
    ctx.oracle = reading(100, 1501);
    assert_eq!(resolve_rejected(ctx.clone(), 1501), ClawBetsError::MarketNotOpen);
    assert_eq!(ctx.market.outcome, Some(true));
    for status in [MarketStatus::Cancelled, MarketStatus::Expired] {
        let mut market = betting_over();
        market.status = status;
        let ctx = ResolveMarket { market, oracle: reading(300, 1500) };
        assert_eq!(resolve_rejected(ctx, 1500), ClawBetsError::MarketNotOpen);
    }
}

#[test]
fn oracle_reading_must_be_present_matching_and_fresh() {
    let missing = ResolveMarket { market: betting_over(), oracle: None };
    assert_eq!(resolve_rejected(missing, 1500), ClawBetsError::InvalidOracleData);
    let other_feed = ResolveMarket {
        market: betting_over(),
        oracle: Some(OracleReading { feed_id: who(3), price: 1, published_at: 1500, exponent: 0 }),
    };
    assert_eq!(resolve_rejected(other_feed, 1500), ClawBetsError::InvalidOracleData);
    let stale = ResolveMarket { market: betting_over(), oracle: reading(250, 1379) };
    assert_eq!(resolve_rejected(stale, 1500), ClawBetsError::StaleOraclePrice);
    let mut fresh = ResolveMarket { market: betting_over(), oracle: reading(250, 1380) };
    assert_eq!(clawbets::instructions::resolve_market::handler(&mut fresh, 1500), Ok(()));
}

#[test]
fn claim_pays_stake_and_share_and_counts_the_win() {
    let mut ctx = yes_claim();
    assert_eq!(clawbets::instructions::claim_winnings::handler(&mut ctx, 1600), Ok(333));
    assert_eq!(ctx.vault, 667);
    assert!(ctx.bet.claimed);
    assert_eq!(ctx.bet.amount, 200);
    assert_eq!(ctx.reputation.wins, 2);
    assert_eq!(ctx.reputation.losses, 2);
    assert_eq!(ctx.reputation.total_won, 183);
    assert_eq!(ctx.reputation.accuracy_bps, 5000);
    assert_eq!(ctx.reputation.last_active, 1600);
    assert_eq!(ctx.reputation.total_bets, 4);
    assert_eq!(ctx.market, resolved(true));
}

#[test]
fn claim_on_no_side_uses_no_pool_as_winning_pool() {
    let mut ctx = yes_claim();
    ctx.market = resolved(false);
    ctx.bet.position = false;
    ctx.bet.amount = 100;
    assert_eq!(clawbets::instructions::claim_winnings::handler(&mut ctx, 1600), Ok(250));
    assert_eq!(ctx.vault, 750);
    assert_eq!(ctx.reputation.total_won, 200);
}

#[test]
fn claim_needs_resolved_market() {
    for status in [
        MarketStatus::Open,
        MarketStatus::Closed,
        MarketStatus::Cancelled,
        MarketStatus::Expired,
    ] {
        let mut ctx = yes_claim();
        ctx.market.status = status;
        assert_eq!(claim_rejected(ctx), ClawBetsError::MarketNotResolved);
    }
    let mut ctx = yes_claim();
    ctx.market.outcome = None;
    assert_eq!(claim_rejected(ctx), ClawBetsError::MarketNotResolved);
}

#[test]
fn claim_needs_winning_unclaimed_bet_of_the_caller() {
    let mut ctx = yes_claim();
    ctx.bet.position = false;
    assert_eq!(claim_rejected(ctx), ClawBetsError::BetDidNotWin);
    let mut ctx = yes_claim();
    ctx.bet.claimed = true;
    assert_eq!(claim_rejected(ctx), ClawBetsError::AlreadyClaimed);
    let mut ctx = yes_claim();
    ctx.bettor = who(6);
    assert_eq!(claim_rejected(ctx), ClawBetsError::UnauthorizedBettor);
    let mut ctx = yes_claim();
    ctx.market_key = who(8);
    assert_eq!(claim_rejected(ctx), ClawBetsError::BetMarketMismatch);
}

#[test]
fn claim_that_does_not_fit_is_rejected() {
    let mut ctx = yes_claim();
    ctx.market.total_yes = 0;
    assert_eq!(claim_rejected(ctx), ClawBetsError::Overflow);
    let mut ctx = yes_claim();
    ctx.vault = 332;
    assert_eq!(claim_rejected(ctx), ClawBetsError::Overflow);
    let mut ctx = yes_claim();
    ctx.reputation.wins = u32::MAX - 2;
    assert_eq!(claim_rejected(ctx), ClawBetsError::Overflow);
    let mut ctx = yes_claim();
    ctx.reputation.total_won = u64::MAX - 132;
    assert_eq!(claim_rejected(ctx), ClawBetsError::Overflow);
    let mut ctx = yes_claim();
    ctx.market.total_no = u64::MAX;
    ctx.market.total_yes = 1;
    ctx.vault = u64::MAX;
    assert_eq!(claim_rejected(ctx), ClawBetsError::Overflow);
}

#[test]
fn claim_at_the_limits_succeeds() {
    let mut ctx = yes_claim();
    ctx.vault = 333;
    ctx.reputation.wins = u32::MAX - 3;
    ctx.reputation.total_won = u64::MAX - 133;
    assert_eq!(clawbets::instructions::claim_winnings::handler(&mut ctx, 1600), Ok(333));
    assert_eq!(ctx.vault, 0);
    assert_eq!(ctx.reputation.wins, u32::MAX - 2);
    assert_eq!(ctx.reputation.total_won, u64::MAX);
}

#[test]
fn all_winners_paid_leave_only_rounding_in_vault() {
    let stakes: [u64; 3] = [100, 200, 300];
    let mut vault: u64 = 1000;
    for stake in stakes {
        let mut ctx = yes_claim();
        ctx.bet.amount = stake;
        ctx.vault = vault;
        let paid = clawbets::instructions::claim_winnings::handler(&mut ctx, 1600).unwrap();
        assert_eq!(paid, stake + stake * 400 / 600);
        vault = ctx.vault;
    }
    assert_eq!(vault, 1);
}
