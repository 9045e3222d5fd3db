//! A staking ledger with lazy, accumulator-based reward distribution.
//!
//! Participants deposit a base asset into a shared pool, receive a receipt
//! balance one-for-one, accrue time-based rewards proportionally to their
//! deposited share, and later withdraw principal and rewards.  Rewards are
//! distributed with the classic reward-per-share accumulator: every mutating
//! operation first advances a single global accumulator by elapsed time,
//! then reconciles the one position it touches, so the cost per operation is
//! constant no matter how many participants exist.
//!
//! The library is pure ledger arithmetic.  Moving asset balances, issuing
//! and burning receipt tokens, persistence, identity checks, and the clock
//! belong to the host around it: every operation takes the current time and
//! the caller's external balances as plain arguments and reports what the
//! host must transfer.  Every operation is atomic: it either applies in
//! full or fails and leaves both ledger records exactly as they were.

use vstd::prelude::*;

pub mod errors;
pub mod state;
pub mod instructions;
pub mod laws;

use crate::errors::StakingError;
use crate::state::{GlobalStakingState, StakingStats};
use crate::instructions::initialize::Initialize;
use crate::instructions::stake::Stake;
use crate::instructions::unstake::Unstake;
use crate::instructions::claim_rewards::ClaimRewards;
use crate::instructions::update_staking_params::UpdateStakingParams;
use crate::instructions::distribute_lp_fees::DistributeLpFees;
use crate::instructions::emergency_pause::EmergencyPause;
use crate::instructions::get_staking_stats::GetStakingStats;

verus! {

/// Create the pool record from validated parameters, stamped with the
/// creation time.  Fails on any parameter outside its bounds and creates
/// nothing; keeping at most one pool record is the host's duty.
pub fn initialize(accounts: &Initialize, now: i64) -> (r: Result<GlobalStakingState, StakingError>)
    requires
        now >= 0,
    ensures
        r is Ok <==> accounts.check() is None,
        r is Ok ==> r->Ok_0 == accounts.created_pool(now) && r->Ok_0.wf(),
        r is Err ==> Some(r->Err_0) == accounts.check(),
{
    instructions::initialize::handler(accounts, now)
}

/// Deposit principal at time `now`; returns the receipt balance the host
/// must issue one-for-one.  On error both records are unchanged.
pub fn stake(accounts: &mut Stake, now: i64) -> (r: Result<u64, StakingError>)
    requires
        old(accounts).global_staking_state.wf(),
        now >= 0,
    ensures
        r is Ok <==> old(accounts).check_full(now) is None,
        r is Err ==> Some(r->Err_0) == old(accounts).check_full(now)
            && *final(accounts) == *old(accounts),
        r is Ok ==> r->Ok_0 == old(accounts).amount
            && *final(accounts) == (Stake {
                global_staking_state: old(accounts).pool_after(now),
                user_staking_position: old(accounts).position_after(now),
                ..*old(accounts)
            }),
        final(accounts).global_staking_state.accumulated_rewards_per_token
            >= old(accounts).global_staking_state.accumulated_rewards_per_token,
        final(accounts).global_staking_state.wf(),
{
    instructions::stake::handler(accounts, now)
}

/// Withdraw principal at time `now`; returns the base-asset amount the host
/// must move from the treasury back to the participant.  On error both
/// records are unchanged.
pub fn unstake(accounts: &mut Unstake, now: i64) -> (r: Result<u64, StakingError>)
    requires
        old(accounts).global_staking_state.wf(),
        now >= 0,
    ensures
        r is Ok <==> old(accounts).check_full(now) is None,
        r is Err ==> Some(r->Err_0) == old(accounts).check_full(now)
            && *final(accounts) == *old(accounts),
        r is Ok ==> r->Ok_0 == old(accounts).amount
            && *final(accounts) == (Unstake {
                global_staking_state: old(accounts).pool_after(now),
                user_staking_position: old(accounts).position_after(now),
                ..*old(accounts)
            }),
        final(accounts).global_staking_state.accumulated_rewards_per_token
            >= old(accounts).global_staking_state.accumulated_rewards_per_token,
        final(accounts).global_staking_state.wf(),
{
    instructions::unstake::handler(accounts, now)
}

/// Pay out reconciled rewards at time `now`; returns the amount the host
/// must move from the treasury to the participant.  On error both records
/// are unchanged.
pub fn claim_rewards(accounts: &mut ClaimRewards, now: i64) -> (r: Result<u64, StakingError>)
    requires
        old(accounts).global_staking_state.wf(),
        now >= 0,
    ensures
        r is Ok <==> old(accounts).check_full(now) is None,
        r is Err ==> Some(r->Err_0) == old(accounts).check_full(now)
            && *final(accounts) == *old(accounts),
        r is Ok ==> r->Ok_0 == old(accounts).payout(now)
            && *final(accounts) == (ClaimRewards {
                global_staking_state: old(accounts).pool_after(now),
                user_staking_position: old(accounts).position_after(now),
            }),
        final(accounts).global_staking_state.accumulated_rewards_per_token
            >= old(accounts).global_staking_state.accumulated_rewards_per_token,
        final(accounts).global_staking_state.wf(),
{
    instructions::claim_rewards::handler(accounts, now)
}

/// Adjust the pool parameters; fields passed as `None` are unchanged.  The
/// accumulator is settled under the old rate first, so the change is never
/// retroactive.  On error the pool record is unchanged.
pub fn update_staking_params(
    accounts: &mut UpdateStakingParams,
    reward_rate: Option<u64>,
    min_stake_amount: Option<u64>,
    max_stake_amount: Option<u64>,
    lock_period: Option<i64>,
    now: i64,
) -> (r: Result<(), StakingError>)
    requires
        old(accounts).global_staking_state.wf(),
        now >= 0,
    ensures
        r is Ok <==> old(accounts).check(
            reward_rate, min_stake_amount, max_stake_amount, lock_period) is None,
        r is Err ==> Some(r->Err_0) == old(accounts).check(
            reward_rate, min_stake_amount, max_stake_amount, lock_period)
            && *final(accounts) == *old(accounts),
        r is Ok ==> *final(accounts) == (UpdateStakingParams {
            global_staking_state: old(accounts).pool_after(
                reward_rate, min_stake_amount, max_stake_amount, lock_period, now),
            ..*old(accounts)
        }),
        final(accounts).global_staking_state.accumulated_rewards_per_token
            >= old(accounts).global_staking_state.accumulated_rewards_per_token,
        final(accounts).global_staking_state.wf(),
{
    instructions::update_staking_params::handler(
        accounts,
        reward_rate,
        min_stake_amount,
        max_stake_amount,
        lock_period,
        now,
    )
}

/// Record a fee injection of `amount` at time `now`; the assets themselves
/// were already moved into the treasury by the host.  On error the pool
/// record is unchanged.
pub fn distribute_lp_fees(accounts: &mut DistributeLpFees, amount: u64, now: i64)
    -> (r: Result<(), StakingError>)
    requires
        old(accounts).global_staking_state.wf(),
        now >= 0,
    ensures
        r is Ok <==> old(accounts).check(amount) is None,
        r is Err ==> Some(r->Err_0) == old(accounts).check(amount)
            && *final(accounts) == *old(accounts),
        r is Ok ==> *final(accounts) == (DistributeLpFees {
            global_staking_state: old(accounts).pool_after(amount, now),
        }),
        final(accounts).global_staking_state.accumulated_rewards_per_token
            >= old(accounts).global_staking_state.accumulated_rewards_per_token,
        final(accounts).global_staking_state.wf(),
{
    instructions::distribute_lp_fees::handler(accounts, amount, now)
}

/// Set the pool's pause flag; authority only, effective immediately for all
/// subsequent mutating participant operations.  On error the pool record is
/// unchanged.
pub fn emergency_pause(accounts: &mut EmergencyPause, pause: bool)
    -> (r: Result<(), StakingError>)
    ensures
        r is Ok <==> old(accounts).check() is None,
        r is Err ==> Some(r->Err_0) == old(accounts).check()
            && *final(accounts) == *old(accounts),
        r is Ok ==> *final(accounts) == (EmergencyPause {
            global_staking_state: (GlobalStakingState {
                is_paused: pause,
                ..old(accounts).global_staking_state
            }),
            ..*old(accounts)
        }),
{
    instructions::emergency_pause::handler(accounts, pause)
}

/// Project the pool totals as of time `now`, with the accumulator freshly
/// advanced but not persisted.
pub fn get_staking_stats(accounts: &GetStakingStats, now: i64)
    -> (r: Result<StakingStats, StakingError>)
    requires
        accounts.global_staking_state.wf(),
        now >= 0,
    ensures
        r is Ok,
        r->Ok_0 == accounts.stats_at(now),
{
    instructions::get_staking_stats::handler(accounts, now)
}

} // verus!
