//! Payout arithmetic: a winner's share of the losing pool, and the accuracy
//! ratio of a reputation record.

use vstd::prelude::*;

verus! {

/// Units of the accuracy ratio that make one whole.
pub const BPS_SCALE: u64 = 10000;

/// A winner's share of the losing pool: the stake's proportion of the winning
/// pool, applied to the losing pool and rounded down.
pub open spec fn share_of(amount: u64, winning_pool: u64, losing_pool: u64) -> int
    recommends
        winning_pool > 0,
{
    (amount * losing_pool) / (winning_pool as int)
}

/// What a winner is paid: the stake and the share.
pub open spec fn winnings_of(amount: u64, winning_pool: u64, losing_pool: u64) -> int
    recommends
        winning_pool > 0,
{
    amount + share_of(amount, winning_pool, losing_pool)
}

/// Whether a payout can be computed: somebody backed the winning side, and
/// the payout fits 64 bits.
pub open spec fn payout_defined(amount: u64, winning_pool: u64, losing_pool: u64) -> bool {
    winning_pool > 0 && winnings_of(amount, winning_pool, losing_pool) <= u64::MAX
}

/// Share of wins among wins and losses, in units of 1/10000, rounded down;
/// 0 without wins and losses.
pub open spec fn accuracy_of(wins: u32, losses: u32) -> int {
    if wins + losses == 0 {
        0
    } else {
        (wins * 10000) / (wins + losses)
    }
}

/// The accuracy ratio lies between 0 and 10000.
pub proof fn lemma_accuracy_bounded(wins: u32, losses: u32)
    ensures
        0 <= accuracy_of(wins, losses) <= 10000,
{
    if wins + losses > 0 {
        let n: int = wins as int;
        let d: int = wins + losses;
        assert(0 <= (n * 10000) / d <= 10000) by (nonlinear_arith)
            requires
                0 <= n <= d,
                d > 0,
        ;
    }
}

/// The payout for a stake of `amount` on the winning side, or `None` where
/// none is defined. The product of stake and pool is taken in 128 bits.
pub fn compute_winnings(amount: u64, winning_pool: u64, losing_pool: u64) -> (r: Option<u64>)
    ensures
        r.is_some() == payout_defined(amount, winning_pool, losing_pool),
        r.is_some() ==> r.unwrap() == winnings_of(amount, winning_pool, losing_pool),
{
    if winning_pool == 0 {
        return None;
    }
    let wide_amount: u128 = amount as u128;
    let wide_losing: u128 = losing_pool as u128;
    assert(wide_amount * wide_losing <= 0xffff_ffff_ffff_ffff * 0xffff_ffff_ffff_ffff)
        by (nonlinear_arith)
        requires
            wide_amount <= 0xffff_ffff_ffff_ffff,
            wide_losing <= 0xffff_ffff_ffff_ffff,
    ;
    let product: u128 = wide_amount * wide_losing;
    let share: u128 = product / (winning_pool as u128);
    assert(share <= product) by (nonlinear_arith)
        requires
            share == product / (winning_pool as u128),
            winning_pool >= 1,
    ;
    let total: u128 = wide_amount + share;
    if total > u64::MAX as u128 {
        return None;
    }
    Some(total as u64)
}

/// The accuracy ratio of a record with the given wins and losses.
pub fn compute_accuracy(wins: u32, losses: u32) -> (r: u16)
    ensures
        r == accuracy_of(wins, losses),
{
    let total: u64 = wins as u64 + losses as u64;
    if total == 0 {
        return 0;
    }
    proof {
        lemma_accuracy_bounded(wins, losses);
    }
    let ratio: u64 = (wins as u64 * BPS_SCALE) / total;
    ratio as u16
}

} // verus!
