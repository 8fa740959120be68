//! What holds of a market's escrow over many operations: the pools follow
//! the vault while wagers come in; the winners' payouts take from the vault
//! what the pools hold, but for the fractions lost to rounding; a bet
//! releases funds once; and wagers and refunds keep the vault equal to the
//! principal that it owes.

use vstd::prelude::*;
use crate::errors::ClawBetsError;
use crate::instructions::claim_winnings::{
    claim_available,
    claim_effect,
    claim_fits,
    claim_verdict,
    ClaimWinnings,
};
use crate::instructions::place_bet::{place_bet_effect, place_bet_verdict, PlaceBet};
use crate::instructions::reclaim_bet::{reclaim_effect, reclaim_verdict, ReclaimBet};
use crate::payout::{share_of, winnings_of};
use crate::state::{Bet, MarketStatus};

verus! {

/// One wager: the records that it found, and what was asked.
pub struct WagerStep {
    pub ctx: PlaceBet,
    pub amount: u64,
    pub position: bool,
    pub now: i64,
}

impl WagerStep {
    /// Whether the wager is accepted.
    pub open spec fn accepted(&self) -> bool {
        place_bet_verdict(self.ctx, self.amount, self.position, self.now).is_ok()
    }

    /// The records that the wager leaves.
    pub open spec fn after(&self) -> PlaceBet {
        place_bet_effect(self.ctx, self.amount, self.position, self.now)
    }
}

/// Whether `next` finds the market and the vault as `prev` left them.
/// Bettor, bet, reputation and protocol records may differ between the two.
pub open spec fn follows(prev: WagerStep, next: WagerStep) -> bool {
    &&& next.ctx.market == prev.after().market
    &&& next.ctx.vault == prev.after().vault
}

/// Whether the steps are accepted wagers that follow one another on one
/// market.
pub open spec fn wagers_in_sequence(steps: Seq<WagerStep>) -> bool {
    &&& forall|i: int| 0 <= i < steps.len() ==> (#[trigger] steps[i]).accepted()
    &&& forall|i: int, j: int|
        0 <= i && j == i + 1 && j < steps.len() ==> follows(#[trigger] steps[i], #[trigger] steps[j])
}

/// The sum of the amounts of the steps.
pub open spec fn total_wagered(steps: Seq<WagerStep>) -> int
    decreases steps.len(),
{
    if steps.len() == 0 {
        0
    } else {
        total_wagered(steps.drop_last()) + steps.last().amount
    }
}

/// An accepted wager adds its amount to the two pools together, and to the
/// vault.
pub proof fn lemma_wager_adds_amount(step: WagerStep)
    requires
        step.accepted(),
    ensures
        step.after().market.total_yes + step.after().market.total_no
            == step.ctx.market.total_yes + step.ctx.market.total_no + step.amount,
        step.after().vault == step.ctx.vault + step.amount,
{
}

/// Over any sequence of accepted wagers on one market, the two pools
/// together grow by the sum of the amounts, and so does the vault. A market
/// whose pools equal its vault before the first wager, as a new market's do,
/// has them equal after the last.
pub proof fn lemma_pools_follow_vault(steps: Seq<WagerStep>)
    requires
        steps.len() > 0,
        wagers_in_sequence(steps),
    ensures
        steps.last().after().market.total_yes + steps.last().after().market.total_no
            == steps[0].ctx.market.total_yes + steps[0].ctx.market.total_no + total_wagered(
            steps,
        ),
        steps.last().after().vault == steps[0].ctx.vault + total_wagered(steps),
        steps[0].ctx.market.total_yes + steps[0].ctx.market.total_no == steps[0].ctx.vault
            ==> steps.last().after().market.total_yes + steps.last().after().market.total_no
            == steps.last().after().vault,
    decreases steps.len(),
{
    let last = steps.last();
    let before = steps.drop_last();
    assert(last.accepted());
    lemma_wager_adds_amount(last);
    if steps.len() == 1 {
        assert(total_wagered(before) == 0);
    } else {
        assert(wagers_in_sequence(before)) by {
            assert forall|i: int| 0 <= i < before.len() implies (#[trigger] before[i]).accepted() by {
                assert(steps[i].accepted());
            }
            assert forall|i: int, j: int| 0 <= i && j == i + 1 && j < before.len() implies follows(
                #[trigger] before[i],
                #[trigger] before[j],
            ) by {
                assert(follows(steps[i], steps[j]));
            }
        }
        lemma_pools_follow_vault(before);
        assert(before[0] == steps[0]);
        assert(follows(steps[steps.len() - 2], steps[steps.len() - 1]));
        assert(before.last() == steps[steps.len() - 2]);
    }
}

/// The sum of the stakes.
pub open spec fn total_stakes(stakes: Seq<u64>) -> int
    decreases stakes.len(),
{
    if stakes.len() == 0 {
        0
    } else {
        total_stakes(stakes.drop_last()) + stakes.last()
    }
}

/// The sum of what the stakes are paid from the pools.
pub open spec fn total_payouts(stakes: Seq<u64>, winning_pool: u64, losing_pool: u64) -> int
    decreases stakes.len(),
{
    if stakes.len() == 0 {
        0
    } else {
        total_payouts(stakes.drop_last(), winning_pool, losing_pool) + winnings_of(
            stakes.last(),
            winning_pool,
            losing_pool,
        )
    }
}

/// The sum of what rounding down takes from the shares of the stakes, in
/// units of one part in `winning_pool`.
pub open spec fn total_remainders(stakes: Seq<u64>, winning_pool: u64, losing_pool: u64) -> int
    decreases stakes.len(),
{
    if stakes.len() == 0 {
        0
    } else {
        total_remainders(stakes.drop_last(), winning_pool, losing_pool) + (stakes.last()
            * losing_pool) % (winning_pool as int)
    }
}

/// The payouts of any stakes, taken times the winning pool and with what
/// rounding took, are the stakes themselves times both pools.
pub proof fn lemma_payouts_with_remainders(stakes: Seq<u64>, winning_pool: u64, losing_pool: u64)
    requires
        winning_pool > 0,
    ensures
        winning_pool * total_payouts(stakes, winning_pool, losing_pool) + total_remainders(
            stakes,
            winning_pool,
            losing_pool,
        ) == total_stakes(stakes) * (winning_pool + losing_pool),
        0 <= total_remainders(stakes, winning_pool, losing_pool) <= stakes.len() * (winning_pool
            - 1),
    decreases stakes.len(),
{
    if stakes.len() > 0 {
        let before = stakes.drop_last();
        lemma_payouts_with_remainders(before, winning_pool, losing_pool);
        let a: int = stakes.last() as int;
        let w: int = winning_pool as int;
        let l: int = losing_pool as int;
        let p: int = total_payouts(before, winning_pool, losing_pool);
        let r: int = total_remainders(before, winning_pool, losing_pool);
        let s: int = total_stakes(before);
        let n: int = before.len() as int;
        assert(share_of(stakes.last(), winning_pool, losing_pool) == (a * l) / w);
        assert(w * (p + a + (a * l) / w) + r + (a * l) % w == (s + a) * (w + l)) by (nonlinear_arith)
            requires
                w > 0,
                w * p + r == s * (w + l),
        ;
        assert(0 <= (a * l) % w <= w - 1) by (nonlinear_arith)
            requires
                w > 0,
        ;
        assert(r + (a * l) % w <= (n + 1) * (w - 1)) by (nonlinear_arith)
            requires
                r <= n * (w - 1),
                (a * l) % w <= w - 1,
        ;
    }
}

/// Payouts conserve the pools. Where the stakes on the winning side add up
/// to a winning pool that is not empty, their payouts together are at most
/// both pools, and fall short of them by less than one unit for each winner
/// but one: what rounding down leaves in the vault.
pub proof fn lemma_payouts_conserve_pools(stakes: Seq<u64>, winning_pool: u64, losing_pool: u64)
    requires
        winning_pool > 0,
        total_stakes(stakes) == winning_pool,
    ensures
        stakes.len() >= 1,
        total_payouts(stakes, winning_pool, losing_pool) <= winning_pool + losing_pool,
        winning_pool + losing_pool - total_payouts(stakes, winning_pool, losing_pool)
            <= stakes.len() - 1,
{
    lemma_payouts_with_remainders(stakes, winning_pool, losing_pool);
    let w: int = winning_pool as int;
    let l: int = losing_pool as int;
    let p: int = total_payouts(stakes, winning_pool, losing_pool);
    let r: int = total_remainders(stakes, winning_pool, losing_pool);
    let n: int = stakes.len() as int;
    assert(n >= 1) by {
        if n == 0 {
            assert(total_stakes(stakes) == 0);
        }
    }
    assert(0 <= w + l - p <= n - 1) by (nonlinear_arith)
        requires
            w > 0,
            w * p + r == w * (w + l),
            0 <= r <= n * (w - 1),
            n >= 1,
    ;
}

/// A claim succeeds exactly where it is available and fits. For the caller's
/// own unclaimed bet on this market, with sums that fit, that is: exactly
/// where the market is resolved for the bet's side.
pub proof fn lemma_claim_needs_resolution_for_side(ctx: ClaimWinnings)
    ensures
        claim_verdict(ctx).is_ok() == (claim_available(ctx) && claim_fits(ctx)),
        ctx.bet.bettor == ctx.bettor && ctx.bet.market == ctx.market_key && !ctx.bet.claimed
            && claim_fits(ctx) ==> (claim_verdict(ctx).is_ok() <==> ctx.market.status
            == MarketStatus::Resolved && ctx.market.outcome == Some(ctx.bet.position)),
{
}

/// A bet is paid once. After a successful claim the bet is marked, the vault
/// holds less by the payout, and a second claim on the records that the
/// first one left is rejected as a repetition and would change nothing.
pub proof fn lemma_claim_once(ctx: ClaimWinnings, now: i64)
    requires
        claim_verdict(ctx).is_ok(),
    ensures
        claim_effect(ctx, claim_verdict(ctx).unwrap(), now).bet.claimed,
        claim_effect(ctx, claim_verdict(ctx).unwrap(), now).vault == ctx.vault - claim_verdict(
            ctx,
        ).unwrap(),
        claim_verdict(claim_effect(ctx, claim_verdict(ctx).unwrap(), now)) == Err::<
            u64,
            ClawBetsError,
        >(ClawBetsError::AlreadyClaimed),
{
}

/// A bet is refunded once. After a successful refund the bet is marked, the
/// vault holds less by the bet's amount, and a second refund on the records
/// that the first one left is refused at any time.
pub proof fn lemma_reclaim_once(ctx: ReclaimBet, now: i64, later: i64)
    requires
        reclaim_verdict(ctx, now).is_ok(),
    ensures
        reclaim_verdict(ctx, now).unwrap() == ctx.bet.amount,
        reclaim_effect(ctx).bet.claimed,
        reclaim_effect(ctx).vault == ctx.vault - ctx.bet.amount,
        reclaim_verdict(reclaim_effect(ctx), later).is_err(),
        later >= now ==> reclaim_verdict(reclaim_effect(ctx), later) == Err::<u64, ClawBetsError>(
            ClawBetsError::AlreadyClaimed,
        ),
{
}

/// A bet that is marked claimed releases nothing, by neither path, whatever
/// the other records hold.
pub proof fn lemma_claimed_bet_releases_nothing(claim: ClaimWinnings, reclaim: ReclaimBet, now: i64)
    requires
        claim.bet.claimed,
        reclaim.bet.claimed,
    ensures
        claim_verdict(claim).is_err(),
        reclaim_verdict(reclaim, now).is_err(),
{
}

/// A market resolved for a side that nobody backed refunds and does not pay.
/// Every unclaimed bet on it is refunded in full to its owner, at any time,
/// if the vault holds the amount; and no claim on it succeeds.
pub proof fn lemma_no_winners_refund(claim: ClaimWinnings, reclaim: ReclaimBet, now: i64)
    requires
        claim.market == reclaim.market,
        reclaim.market.status == MarketStatus::Resolved,
        reclaim.market.outcome.is_some(),
        reclaim.market.pool(reclaim.market.outcome.unwrap()) == 0,
    ensures
        claim_verdict(claim).is_err(),
        reclaim.bet.bettor == reclaim.bettor && reclaim.bet.market == reclaim.market_key
            && !reclaim.bet.claimed && reclaim.bet.amount <= reclaim.vault ==> reclaim_verdict(
            reclaim,
            now,
        ) == Ok::<u64, ClawBetsError>(reclaim.bet.amount),
{
}

/// The sum of the amounts of the bets that were neither paid nor refunded:
/// what the vault owes as principal.
pub open spec fn unclaimed_total(bets: Seq<Bet>) -> int
    decreases bets.len(),
{
    if bets.len() == 0 {
        0
    } else {
        unclaimed_total(bets.drop_last()) + if bets.last().claimed {
            0
        } else {
            bets.last().amount as int
        }
    }
}

/// An unclaimed bet among the bets is part of what is owed.
pub proof fn lemma_unclaimed_bet_is_owed(bets: Seq<Bet>, i: int)
    requires
        0 <= i < bets.len(),
        !bets[i].claimed,
    ensures
        bets[i].amount <= unclaimed_total(bets),
        unclaimed_total(bets.update(i, Bet { claimed: true, ..bets[i] })) == unclaimed_total(bets)
            - bets[i].amount,
    decreases bets.len(),
{
    lemma_unclaimed_total_nonnegative(bets.drop_last());
    let marked = bets.update(i, Bet { claimed: true, ..bets[i] });
    if i == bets.len() - 1 {
        assert(marked.drop_last() =~= bets.drop_last());
    } else {
        lemma_unclaimed_bet_is_owed(bets.drop_last(), i);
        assert(marked.drop_last() =~= bets.drop_last().update(
            i,
            Bet { claimed: true, ..bets[i] },
        ));
    }
}

/// What is owed is never negative.
pub proof fn lemma_unclaimed_total_nonnegative(bets: Seq<Bet>)
    ensures
        unclaimed_total(bets) >= 0,
    decreases bets.len(),
{
    if bets.len() > 0 {
        lemma_unclaimed_total_nonnegative(bets.drop_last());
    }
}

/// A wager keeps the vault equal to the principal owed: where the vault
/// holds what the market's bets are owed, it does so again once the new bet
/// has joined them.
pub proof fn lemma_wager_keeps_vault_backed(bets: Seq<Bet>, step: WagerStep)
    requires
        step.accepted(),
        step.ctx.vault == unclaimed_total(bets),
    ensures
        step.after().bet.is_some(),
        step.after().vault == unclaimed_total(bets.push(step.after().bet.unwrap())),
{
    let grown = bets.push(step.after().bet.unwrap());
    assert(grown.drop_last() =~= bets);
}

/// A refund keeps the vault equal to the principal owed, and a vault that
/// holds what is owed never lacks the funds for it: the refund of an
/// unclaimed bet of the market fails for no such reason.
pub proof fn lemma_refund_keeps_vault_backed(bets: Seq<Bet>, i: int, ctx: ReclaimBet, now: i64)
    requires
        0 <= i < bets.len(),
        bets[i] == ctx.bet,
        ctx.vault == unclaimed_total(bets),
    ensures
        !ctx.bet.claimed ==> ctx.bet.amount <= ctx.vault,
        reclaim_verdict(ctx, now) != Err::<u64, ClawBetsError>(ClawBetsError::Overflow),
        reclaim_verdict(ctx, now).is_ok() ==> reclaim_effect(ctx).vault == unclaimed_total(
            bets.update(i, reclaim_effect(ctx).bet),
        ),
{
    if !ctx.bet.claimed {
        lemma_unclaimed_bet_is_owed(bets, i);
    }
}

} // verus!
