//! Adjust the pool parameters.  Only the pool authority may call this, the
//! merged parameters must satisfy the same bounds as at creation, and the
//! accumulator is settled under the old rate before the new one takes
//! effect, so a rate change is never retroactive.

use vstd::prelude::*;

use crate::errors::StakingError;
use crate::state::{
    AccountId, GlobalStakingState, MAX_LOCK_PERIOD, MAX_REWARD_RATE, MIN_LOCK_PERIOD,
};

verus! {

/// Inputs of a parameter update: the pool record and the calling identity.
#[derive(Clone, Copy, Debug, PartialEq, Eq, Structural)]
pub struct UpdateStakingParams {
    /// The pool record being reconfigured.
    pub global_staking_state: GlobalStakingState,
    /// The account making the call; must be the pool authority.
    pub authority: AccountId,
}

impl UpdateStakingParams {
    /// The reward rate the update would leave in force.
    pub open spec fn merged_reward_rate(self, reward_rate: Option<u64>) -> u64 {
        if reward_rate is Some { reward_rate->0 } else { self.global_staking_state.reward_rate }
    }

    /// The minimum stake the update would leave in force.
    pub open spec fn merged_min_stake(self, min_stake_amount: Option<u64>) -> u64 {
        if min_stake_amount is Some {
            min_stake_amount->0
        } else {
            self.global_staking_state.min_stake_amount
        }
    }

    /// The maximum stake the update would leave in force.
    pub open spec fn merged_max_stake(self, max_stake_amount: Option<u64>) -> u64 {
        if max_stake_amount is Some {
            max_stake_amount->0
        } else {
            self.global_staking_state.max_stake_amount
        }
    }

    /// The lock period the update would leave in force.
    pub open spec fn merged_lock_period(self, lock_period: Option<i64>) -> i64 {
        if lock_period is Some { lock_period->0 } else { self.global_staking_state.lock_period }
    }

    /// The first failure of the update, if any: the caller must be the
    /// authority, and the merged parameters must satisfy the creation-time
    /// bounds.
    pub open spec fn check(
        self,
        reward_rate: Option<u64>,
        min_stake_amount: Option<u64>,
        max_stake_amount: Option<u64>,
        lock_period: Option<i64>,
    ) -> Option<StakingError> {
        if self.authority != self.global_staking_state.authority {
            Some(StakingError::Unauthorized)
        } else if self.merged_reward_rate(reward_rate) > MAX_REWARD_RATE {
            Some(StakingError::InvalidRewardRate)
        } else if self.merged_min_stake(min_stake_amount) == 0 {
            Some(StakingError::InvalidStakeAmount)
        } else if self.merged_max_stake(max_stake_amount) < self.merged_min_stake(min_stake_amount) {
            Some(StakingError::InvalidStakeAmount)
        } else if self.merged_lock_period(lock_period) < MIN_LOCK_PERIOD
            || self.merged_lock_period(lock_period) > MAX_LOCK_PERIOD {
            Some(StakingError::InvalidStakeAmount)
        } else {
            None
        }
    }

    /// The pool record a successful update leaves behind: accrual settled
    /// to `now` under the old rate, then the merged parameters installed.
    pub open spec fn pool_after(
        self,
        reward_rate: Option<u64>,
        min_stake_amount: Option<u64>,
        max_stake_amount: Option<u64>,
        lock_period: Option<i64>,
        now: i64,
    ) -> GlobalStakingState {
        GlobalStakingState {
            reward_rate: self.merged_reward_rate(reward_rate),
            min_stake_amount: self.merged_min_stake(min_stake_amount),
            max_stake_amount: self.merged_max_stake(max_stake_amount),
            lock_period: self.merged_lock_period(lock_period),
            accumulated_rewards_per_token: self.global_staking_state.accumulator_after(now),
            last_update_time: now,
            ..self.global_staking_state
        }
    }
}

/// Apply a parameter update at time `now`.  Parameters passed as `None` are
/// left as they are.  On error the pool record is unchanged.
pub fn handler(
    accounts: &mut UpdateStakingParams,
    reward_rate: Option<u64>,
    min_stake_amount: Option<u64>,
    max_stake_amount: Option<u64>,
    lock_period: Option<i64>,
    now: i64,
) -> (r: Result<(), StakingError>)
    requires
        old(accounts).global_staking_state.wf(),
        now >= 0,
    ensures
        r is Ok <==> old(accounts).check(
            reward_rate, min_stake_amount, max_stake_amount, lock_period) is None,
        r is Err ==> Some(r->Err_0) == old(accounts).check(
            reward_rate, min_stake_amount, max_stake_amount, lock_period)
            && *final(accounts) == *old(accounts),
        r is Ok ==> *final(accounts) == (UpdateStakingParams {
            global_staking_state: old(accounts).pool_after(
                reward_rate, min_stake_amount, max_stake_amount, lock_period, now),
            ..*old(accounts)
        }),
        final(accounts).global_staking_state.accumulated_rewards_per_token
            >= old(accounts).global_staking_state.accumulated_rewards_per_token,
        final(accounts).global_staking_state.wf(),
{
    if accounts.authority != accounts.global_staking_state.authority {
        return Err(StakingError::Unauthorized);
    }
    let new_reward_rate: u64 = match reward_rate {
        Some(value) => value,
        None => accounts.global_staking_state.reward_rate,
    };
    let new_min_stake: u64 = match min_stake_amount {
        Some(value) => value,
        None => accounts.global_staking_state.min_stake_amount,
    };
    let new_max_stake: u64 = match max_stake_amount {
        Some(value) => value,
        None => accounts.global_staking_state.max_stake_amount,
    };
    let new_lock_period: i64 = match lock_period {
        Some(value) => value,
        None => accounts.global_staking_state.lock_period,
    };
    if new_reward_rate > MAX_REWARD_RATE {
        return Err(StakingError::InvalidRewardRate);
    }
    if new_min_stake == 0 {
        return Err(StakingError::InvalidStakeAmount);
    }
    if new_max_stake < new_min_stake {
        return Err(StakingError::InvalidStakeAmount);
    }
    if new_lock_period < MIN_LOCK_PERIOD || new_lock_period > MAX_LOCK_PERIOD {
        return Err(StakingError::InvalidStakeAmount);
    }

    let mut pool = accounts.global_staking_state;
    pool.update_rewards(now);
    pool.reward_rate = new_reward_rate;
    pool.min_stake_amount = new_min_stake;
    pool.max_stake_amount = new_max_stake;
    pool.lock_period = new_lock_period;

    accounts.global_staking_state = pool;
    Ok(())
}

} // verus!
