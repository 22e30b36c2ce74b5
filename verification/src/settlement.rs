//! Pari-mutuel payout arithmetic and the stake-accounting law.

use vstd::arithmetic::div_mod::{lemma_div_is_ordered, lemma_div_multiples_vanish};
use vstd::arithmetic::mul::{lemma_mul_inequality, lemma_mul_is_commutative, lemma_mul_upper_bound};
use vstd::prelude::*;

verus! {

/// The pari-mutuel payout: the staker's pro-rata share of the whole pool,
/// `floor(stake * total / winning)`, and defensively zero when the winning
/// pool is empty (unreachable for an actual winning claim, whose own stake
/// makes the winning pool non-zero, but division by zero must never happen).
pub open spec fn payout_amount(stake: int, total_pool: int, winning_pool: int) -> int {
    if winning_pool == 0 {
        0
    } else {
        (stake * total_pool) / winning_pool
    }
}

/// Computes [`payout_amount`] exactly, widening the product to 128 bits so it
/// cannot overflow.
///
/// The caller's stake never exceeds the winning pool it is part of (its side's
/// running total), which keeps the payout within the total pool and so within
/// 64 bits.
pub fn compute_payout(stake: u64, winning_pool: u64, losing_pool: u64) -> (r: u64)
    requires
        winning_pool + losing_pool <= u64::MAX,
        stake <= winning_pool,
    ensures
        r == payout_amount(stake as int, winning_pool + losing_pool, winning_pool as int),
        r <= winning_pool + losing_pool,
{
    if winning_pool == 0 {
        0
    } else {
        let total: u64 = winning_pool + losing_pool;
        proof {
            lemma_mul_upper_bound(stake as int, u64::MAX as int, total as int, u64::MAX as int);
            lemma_mul_inequality(stake as int, winning_pool as int, total as int);
            lemma_div_is_ordered(
                stake as int * total as int,
                winning_pool as int * total as int,
                winning_pool as int,
            );
            lemma_mul_is_commutative(winning_pool as int, total as int);
            lemma_div_multiples_vanish(total as int, winning_pool as int);
        }
        let wide: u128 = (stake as u128) * (total as u128) / (winning_pool as u128);
        wide as u64
    }
}

/// The sum of a sequence of stakes.
pub open spec fn sum_stakes(stakes: Seq<int>) -> int
    decreases stakes.len(),
{
    if stakes.len() == 0 {
        0
    } else {
        sum_stakes(stakes.drop_last()) + stakes.last()
    }
}

/// Law of stake conservation, one step at a time: adding `amount` to a single
/// position's stake raises the sum of all positions' stakes by exactly
/// `amount`. Since an accepted stake placement adds the same `amount` to one
/// position and to that side's running total, and nothing else ever changes a
/// stake or a total, the totals a market carries always equal the sum of its
/// positions' stakes, side by side.
pub proof fn lemma_stake_sum_update(stakes: Seq<int>, i: int, amount: int)
    requires
        0 <= i < stakes.len(),
    ensures
        sum_stakes(stakes.update(i, stakes[i] + amount)) == sum_stakes(stakes) + amount,
    decreases stakes.len(),
{
    let updated = stakes.update(i, stakes[i] + amount);
    if i == stakes.len() - 1 {
        assert(updated.drop_last() =~= stakes.drop_last());
    } else {
        assert(updated.drop_last() =~= stakes.drop_last().update(i, stakes[i] + amount));
        lemma_stake_sum_update(stakes.drop_last(), i, amount);
    }
}

} // verus!
