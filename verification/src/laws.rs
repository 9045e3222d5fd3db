//! The ledger-wide laws of the reward scheme, stated and proved once over
//! the spec model that the operation contracts are written in.
//!
//! The operation handlers each promise, record by record, how they move the
//! pool and one position.  The proofs here lift those promises to the
//! properties a reader of the design cares about: the accumulator only ever
//! grows, the pool total tracks the sum of all recorded stakes, settling a
//! position is idempotent, and rounding never favors the participant.

use vstd::prelude::*;
use vstd::arithmetic::div_mod::{lemma_fundamental_div_mod, lemma_mod_bound};
use vstd::arithmetic::mul::lemma_mul_nonnegative;

use crate::state::{GlobalStakingState, UserStakingPosition, REWARD_SCALE};

verus! {

/// Sum of the principal recorded across a roster of positions.
pub open spec fn sum_staked(stakes: Seq<u64>) -> int
    decreases stakes.len(),
{
    if stakes.len() == 0 {
        0
    } else {
        sum_staked(stakes.drop_last()) + stakes.last()
    }
}

/// Replacing one entry of a roster moves its sum by exactly the difference
/// between the new and the old entry.
pub proof fn lemma_sum_staked_update(stakes: Seq<u64>, i: int, value: u64)
    requires
        0 <= i < stakes.len(),
    ensures
        sum_staked(stakes.update(i, value)) == sum_staked(stakes) - stakes[i] + value,
    decreases stakes.len(),
{
    let updated = stakes.update(i, value);
    if i == stakes.len() - 1 {
        assert(updated.drop_last() =~= stakes.drop_last());
    } else {
        assert(updated.drop_last() =~= stakes.drop_last().update(i, value));
        lemma_sum_staked_update(stakes.drop_last(), i, value);
    }
}

/// Law: the accumulator is monotone — an accrual advance, to any time at
/// all, never decreases it.  Every mutating operation advances through this
/// step and promises the same of its own result, so the accumulator is
/// non-decreasing over every sequence of operations.
pub proof fn lemma_accumulator_monotonic(pool: GlobalStakingState, now: i64)
    ensures
        pool.accumulator_after(now) >= pool.accumulated_rewards_per_token,
{
    if now > pool.last_update_time && pool.total_staked > 0 {
        lemma_mul_nonnegative(pool.reward_rate as int, now - pool.last_update_time);
    }
}

/// Law: conservation under a deposit.  If the pool total equals the sum of
/// every recorded stake, and a deposit raises one position's stake and the
/// pool total by the same amount — exactly what a successful `stake`
/// promises — then the total still equals the sum afterwards.
pub proof fn lemma_stake_preserves_conservation(
    stakes: Seq<u64>,
    i: int,
    amount: u64,
    total_before: u64,
    total_after: u64,
)
    requires
        0 <= i < stakes.len(),
        total_before == sum_staked(stakes),
        stakes[i] + amount <= u64::MAX,
        total_after == total_before + amount,
    ensures
        total_after == sum_staked(stakes.update(i, (stakes[i] + amount) as u64)),
{
    lemma_sum_staked_update(stakes, i, (stakes[i] + amount) as u64);
}

/// Law: conservation under a withdrawal.  If the pool total equals the sum
/// of every recorded stake, and a withdrawal lowers one position's stake
/// and the pool total by the same amount — exactly what a successful
/// `unstake` promises — then the total still equals the sum afterwards.
pub proof fn lemma_unstake_preserves_conservation(
    stakes: Seq<u64>,
    i: int,
    amount: u64,
    total_before: u64,
    total_after: u64,
)
    requires
        0 <= i < stakes.len(),
        total_before == sum_staked(stakes),
        amount <= stakes[i],
        total_after == total_before - amount,
    ensures
        total_after == sum_staked(stakes.update(i, (stakes[i] - amount) as u64)),
{
    lemma_sum_staked_update(stakes, i, (stakes[i] - amount) as u64);
}

/// Law: no double accrual.  A position that was just settled carries a
/// snapshot equal to the pool accumulator; if no time has elapsed since the
/// pool's last advance, advancing again leaves the accumulator as it is,
/// and settling the position again leaves its pending balance unchanged.
pub proof fn lemma_no_double_accrual(
    position: UserStakingPosition,
    pool: GlobalStakingState,
    now: i64,
)
    requires
        position.user_rewards_per_token == pool.accumulated_rewards_per_token,
        now <= pool.last_update_time,
    ensures
        pool.accumulator_after(now) == pool.accumulated_rewards_per_token,
        position.reconciled_pending(pool) == position.pending_rewards,
{
    assert(position.reward_delta(pool.accumulated_rewards_per_token) == 0);
    assert(position.staked_amount * 0 == 0);
    assert(0int / (REWARD_SCALE as int) == 0);
}

/// Law: rounding never favors the participant.  The reward a reconciliation
/// grants, multiplied back up by the fixed-point scale, never exceeds the
/// exact product of principal and accumulator delta: the grant is that
/// product truncated down, and the lost remainder is smaller than one
/// reward unit.
pub proof fn lemma_rounding_direction(position: UserStakingPosition, pool: GlobalStakingState)
    ensures
        (position.reconciled_pending(pool) - position.pending_rewards) * (REWARD_SCALE as int)
            <= position.staked_amount
                * position.reward_delta(pool.accumulated_rewards_per_token),
{
    let product =
        position.staked_amount * position.reward_delta(pool.accumulated_rewards_per_token);
    let scale = REWARD_SCALE as int;
    let granted = position.reconciled_pending(pool) - position.pending_rewards;
    lemma_mul_nonnegative(
        position.staked_amount as int,
        position.reward_delta(pool.accumulated_rewards_per_token),
    );
    let quotient = product / scale;
    let remainder = product % scale;
    lemma_fundamental_div_mod(product, scale);
    lemma_mod_bound(product, scale);
    assert(granted == quotient);
    assert(quotient * scale == scale * quotient) by (nonlinear_arith);
    assert(granted * scale == product - remainder);
}

} // verus!
