//! Create the pool record.  Single-use: the host's persistence layer must
//! refuse a second creation; this module validates the parameters and
//! produces the initial record.

use vstd::prelude::*;

use crate::errors::StakingError;
use crate::state::{
    AccountId, GlobalStakingState, MAX_LOCK_PERIOD, MAX_REWARD_RATE, MIN_LOCK_PERIOD,
};

verus! {

/// Inputs of pool creation: the identities the pool will relate and the
/// reward and capacity parameters it will enforce.
#[derive(Clone, Copy, Debug, PartialEq, Eq, Structural)]
pub struct Initialize {
    /// Account permitted to run administrative operations afterwards.
    pub authority: AccountId,
    /// Mint of the staked base asset.
    pub leash_mint: AccountId,
    /// Mint of the receipt asset.
    pub xleash_mint: AccountId,
    /// Holding account for principal and reward float.
    pub treasury: AccountId,
    /// Reward units per second per staked unit, in accumulator ticks.
    pub reward_rate: u64,
    /// Smallest amount a single stake may deposit.
    pub min_stake_amount: u64,
    /// Largest single stake and the pool-wide capacity.
    pub max_stake_amount: u64,
    /// Mandatory holding period for locked deposits, in seconds.
    pub lock_period: i64,
}

impl Initialize {
    /// The first parameter bound these inputs violate, if any: the reward
    /// rate must stay under the sanity ceiling, the minimum stake must be
    /// positive and no larger than the maximum, and the lock period must
    /// lie between one day and four years.
    pub open spec fn check(self) -> Option<StakingError> {
        if self.reward_rate > MAX_REWARD_RATE {
            Some(StakingError::InvalidRewardRate)
        } else if self.min_stake_amount == 0 {
            Some(StakingError::InvalidStakeAmount)
        } else if self.max_stake_amount < self.min_stake_amount {
            Some(StakingError::InvalidStakeAmount)
        } else if self.lock_period < MIN_LOCK_PERIOD || self.lock_period > MAX_LOCK_PERIOD {
            Some(StakingError::InvalidStakeAmount)
        } else {
            None
        }
    }

    /// Check every parameter bound, reporting the first violation and
    /// touching nothing.
    pub fn validate(&self) -> (r: Result<(), StakingError>)
        ensures
            r is Ok <==> self.check() is None,
            r is Err ==> Some(r->Err_0) == self.check(),
    {
        if self.reward_rate > MAX_REWARD_RATE {
            return Err(StakingError::InvalidRewardRate);
        }
        if self.min_stake_amount == 0 {
            return Err(StakingError::InvalidStakeAmount);
        }
        if self.max_stake_amount < self.min_stake_amount {
            return Err(StakingError::InvalidStakeAmount);
        }
        if self.lock_period < MIN_LOCK_PERIOD || self.lock_period > MAX_LOCK_PERIOD {
            return Err(StakingError::InvalidStakeAmount);
        }
        Ok(())
    }

    /// The pool record a successful creation at time `now` yields: the
    /// given configuration with every counter zeroed.
    pub open spec fn created_pool(self, now: i64) -> GlobalStakingState {
        GlobalStakingState {
            authority: self.authority,
            leash_mint: self.leash_mint,
            xleash_mint: self.xleash_mint,
            treasury: self.treasury,
            reward_rate: self.reward_rate,
            min_stake_amount: self.min_stake_amount,
            max_stake_amount: self.max_stake_amount,
            lock_period: self.lock_period,
            total_staked: 0,
            total_xleash_minted: 0,
            accumulated_rewards_per_token: 0,
            last_update_time: now,
            total_rewards_distributed: 0,
            lp_fees_collected: 0,
            is_paused: false,
        }
    }
}

/// Validate the parameters and build the initial pool record, stamped with
/// the creation time.
pub fn handler(accounts: &Initialize, now: i64) -> (r: Result<GlobalStakingState, StakingError>)
    requires
        now >= 0,
    ensures
        r is Ok <==> accounts.check() is None,
        r is Ok ==> r->Ok_0 == accounts.created_pool(now) && r->Ok_0.wf(),
        r is Err ==> Some(r->Err_0) == accounts.check(),
{
    accounts.validate()?;
    let mut pool = GlobalStakingState {
        authority: AccountId(0),
        leash_mint: AccountId(0),
        xleash_mint: AccountId(0),
        treasury: AccountId(0),
        reward_rate: 0,
        min_stake_amount: 0,
        max_stake_amount: 0,
        lock_period: 0,
        total_staked: 0,
        total_xleash_minted: 0,
        accumulated_rewards_per_token: 0,
        last_update_time: 0,
        total_rewards_distributed: 0,
        lp_fees_collected: 0,
        is_paused: false,
    };
    pool.initialize(
        accounts.authority,
        accounts.leash_mint,
        accounts.xleash_mint,
        accounts.treasury,
        accounts.reward_rate,
        accounts.min_stake_amount,
        accounts.max_stake_amount,
        accounts.lock_period,
        now,
    );
    Ok(pool)
}

} // verus!
