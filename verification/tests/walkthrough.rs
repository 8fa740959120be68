use clawbets::errors::ClawBetsError;
use clawbets::instructions::cancel_market::CancelMarket;
use clawbets::instructions::claim_winnings::ClaimWinnings;
use clawbets::instructions::create_market::CreateMarket;
use clawbets::instructions::expire_market::ExpireMarket;
use clawbets::instructions::initialize::Initialize;
use clawbets::instructions::place_bet::PlaceBet;
use clawbets::instructions::reclaim_bet::ReclaimBet;
use clawbets::instructions::resolve_market::ResolveMarket;
use clawbets::state::{
    AgentReputation, Bet, Identity, Market, MarketStatus, OracleReading, Protocol,
};

const T: i64 = 1_000_000;

fn id(tag: u8) -> Identity {
    let mut bytes = [0u8; 32];
    bytes[0] = tag;
    bytes[31] = 7;
    Identity { bytes }
}

fn fresh_reputation() -> AgentReputation {
    AgentReputation {
        agent: Identity::unset(),
        total_bets: 0,
        wins: 0,
        losses: 0,
        total_wagered: 0,
        total_won: 0,
        total_lost: 0,
        markets_created: 0,
        accuracy_bps: 0,
        last_active: 0,
    }
}

fn fresh_protocol() -> Protocol {
    let mut ctx = Initialize {
        admin: id(1),
        protocol: Protocol { admin: Identity::unset(), market_count: 9, total_volume: 9 },
    };
    assert_eq!(clawbets::initialize(&mut ctx), Ok(()));
    ctx.protocol
}

fn feed() -> [u8; 32] {
    [42u8; 32]
}

/// A market with bets between 100 and 1000, a deadline at `T` and a
/// resolution deadline an hour later, created at `T - 500` with a target of
/// 250 that YES wins at or above.
fn new_market(protocol: &mut Protocol, creator_reputation: &mut AgentReputation) -> Market {
    let mut ctx =
        CreateMarket { creator: id(2), protocol: *protocol, reputation: *creator_reputation };
    let market = clawbets::create_market(
        &mut ctx,
        String::from("SOL above 250?"),
        String::from("Settles on the feed's price"),
        feed(),
        250,
        true,
        T,
        T + 3600,
        100,
        1000,
        T - 500,
    )
    .unwrap();
    *protocol = ctx.protocol;
    *creator_reputation = ctx.reputation;
    market
}

struct World {
    protocol: Protocol,
    market: Market,
    vault: u64,
}

fn wager(
    world: &mut World,
    bettor: Identity,
    reputation: &mut AgentReputation,
    amount: u64,
    position: bool,
    now: i64,
) -> Result<Bet, ClawBetsError> {
    let mut ctx = PlaceBet {
        bettor,
        market_key: id(100),
        market: world.market.clone(),
        bet: None,
        vault: world.vault,
        reputation: *reputation,
        protocol: world.protocol,
    };
    let before = ctx.clone();
    match clawbets::place_bet(&mut ctx, amount, position, now) {
        Ok(()) => {
            world.market = ctx.market;
            world.vault = ctx.vault;
            world.protocol = ctx.protocol;
            *reputation = ctx.reputation;
            Ok(ctx.bet.unwrap())
        }
        Err(reason) => {
            assert_eq!(ctx, before);
            Err(reason)
        }
    }
}

fn resolve(world: &mut World, price: i64, now: i64) -> Result<(), ClawBetsError> {
    let mut ctx = ResolveMarket {
        market: world.market.clone(),
        oracle: Some(OracleReading {
            feed_id: Identity { bytes: feed() },
            price,
            published_at: now - 10,
            exponent: -8,
        }),
    };
    let r = clawbets::resolve_market(&mut ctx, now);
    world.market = ctx.market;
    r
}

fn open_world() -> (World, AgentReputation) {
    let mut protocol = fresh_protocol();
    let mut creator_reputation = fresh_reputation();
    let market = new_market(&mut protocol, &mut creator_reputation);
    (World { protocol, market, vault: 0 }, creator_reputation)
}

#[test]
fn winner_claims_stake_and_losing_pool() {
    let (mut world, creator_reputation) = open_world();
    assert_eq!(world.market.market_id, 0);
    assert_eq!(world.market.status, MarketStatus::Open);
    assert_eq!(world.market.min_bet, 100);
    assert_eq!(world.market.max_bet, 1000);
    assert_eq!(world.market.deadline, T);
    assert_eq!(world.market.resolution_deadline, T + 3600);
    assert_eq!(world.protocol.market_count, 1);
    assert_eq!(creator_reputation.markets_created, 1);
    assert_eq!(creator_reputation.agent, id(2));

    let mut alice = fresh_reputation();
    let mut bob = fresh_reputation();
    let yes_bet = wager(&mut world, id(3), &mut alice, 500, true, T - 100).unwrap();
    let no_bet = wager(&mut world, id(4), &mut bob, 300, false, T - 50).unwrap();
    assert_eq!(world.market.total_yes, 500);
    assert_eq!(world.market.total_no, 300);
    assert_eq!(world.market.yes_count, 1);
    assert_eq!(world.market.no_count, 1);
    assert_eq!(world.vault, 800);
    assert_eq!(world.protocol.total_volume, 800);
    assert_eq!(alice.total_bets, 1);
    assert_eq!(alice.total_wagered, 500);
    assert_eq!(alice.agent, id(3));
    assert_eq!(alice.last_active, T - 100);
    assert!(!yes_bet.claimed);
    assert_eq!(no_bet.amount, 300);

    assert_eq!(resolve(&mut world, 260, T + 10), Ok(()));
    assert_eq!(world.market.status, MarketStatus::Resolved);
    assert_eq!(world.market.outcome, Some(true));
    assert_eq!(world.market.resolved_price, Some(260));
    assert_eq!(world.market.resolved_at, Some(T + 10));

    let mut claim = ClaimWinnings {
        bettor: id(3),
        market_key: id(100),
        market: world.market.clone(),
        bet: yes_bet,
        vault: world.vault,
        reputation: alice,
    };
    assert_eq!(clawbets::claim_winnings(&mut claim, T + 20), Ok(800));
    assert_eq!(claim.vault, 0);
    assert!(claim.bet.claimed);
    assert_eq!(claim.reputation.wins, 1);
    assert_eq!(claim.reputation.total_won, 300);
    assert_eq!(claim.reputation.accuracy_bps, 10000);
    assert_eq!(claim.reputation.last_active, T + 20);

    let mut losing = ClaimWinnings {
        bettor: id(4),
        market_key: id(100),
        market: world.market.clone(),
        bet: no_bet,
        vault: world.vault,
        reputation: bob,
    };
    let before = losing.clone();
    assert_eq!(clawbets::claim_winnings(&mut losing, T + 20), Err(ClawBetsError::BetDidNotWin));
    assert_eq!(losing, before);
}

#[test]
fn wager_below_minimum_is_rejected() {
    let (mut world, _) = open_world();
    let mut reputation = fresh_reputation();
    assert_eq!(
        wager(&mut world, id(3), &mut reputation, 50, true, T - 100),
        Err(ClawBetsError::BetTooSmall)
    );
    assert_eq!(world.vault, 0);
    assert_eq!(world.market.total_yes, 0);
    assert_eq!(world.market.yes_count, 0);
    assert_eq!(reputation, fresh_reputation());
}

#[test]
fn cancel_succeeds_only_without_bets() {
    let (mut world, _) = open_world();
    let mut untouched = CancelMarket { creator: id(2), market: world.market.clone() };
    assert_eq!(clawbets::cancel_market(&mut untouched), Ok(()));
    assert_eq!(untouched.market.status, MarketStatus::Cancelled);

    let mut reputation = fresh_reputation();
    wager(&mut world, id(3), &mut reputation, 100, false, T - 1).unwrap();
    let mut staked = CancelMarket { creator: id(2), market: world.market.clone() };
    assert_eq!(clawbets::cancel_market(&mut staked), Err(ClawBetsError::MarketHasBets));
    assert_eq!(staked.market.status, MarketStatus::Open);
    assert_eq!(staked.market, world.market);
}

#[test]
fn expired_market_refunds_principal() {
    let (mut world, _) = open_world();
    let mut reputation = fresh_reputation();
    let bet = wager(&mut world, id(3), &mut reputation, 700, true, T - 1).unwrap();

    let mut early = ExpireMarket { market: world.market.clone() };
    assert_eq!(clawbets::expire_market(&mut early, T + 3600), Err(ClawBetsError::MarketNotReady));
    assert_eq!(early.market.status, MarketStatus::Open);

    let mut expire = ExpireMarket { market: world.market.clone() };
    assert_eq!(clawbets::expire_market(&mut expire, T + 3601), Ok(()));
    assert_eq!(expire.market.status, MarketStatus::Expired);

    let mut reclaim = ReclaimBet {
        bettor: id(3),
        market_key: id(100),
        market: expire.market.clone(),
        bet,
        vault: world.vault,
    };
    assert_eq!(clawbets::reclaim_bet(&mut reclaim, T + 3602), Ok(700));
    assert_eq!(reclaim.vault, 0);
    assert!(reclaim.bet.claimed);
}

#[test]
fn second_claim_is_rejected_and_leaves_vault() {
    let (mut world, _) = open_world();
    let mut alice = fresh_reputation();
    let mut bob = fresh_reputation();
    let mut carol = fresh_reputation();
    let yes_bet = wager(&mut world, id(3), &mut alice, 500, true, T - 100).unwrap();
    wager(&mut world, id(4), &mut bob, 300, false, T - 50).unwrap();
    wager(&mut world, id(5), &mut carol, 500, true, T - 40).unwrap();
    assert_eq!(resolve(&mut world, 250, T), Ok(()));
    assert_eq!(world.market.outcome, Some(true));

    let mut claim = ClaimWinnings {
        bettor: id(3),
        market_key: id(100),
        market: world.market.clone(),
        bet: yes_bet,
        vault: world.vault,
        reputation: alice,
    };
    assert_eq!(clawbets::claim_winnings(&mut claim, T + 1), Ok(650));
    assert_eq!(claim.vault, 650);
    let after_first = claim.clone();
    assert_eq!(clawbets::claim_winnings(&mut claim, T + 2), Err(ClawBetsError::AlreadyClaimed));
    assert_eq!(claim.vault, 650);
    assert_eq!(claim, after_first);
}
