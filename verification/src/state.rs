//! The two persistent ledger entities and the accrual arithmetic.
//!
//! `GlobalStakingState` is the process-wide pool record; `UserStakingPosition`
//! is the per-participant record, created on a participant's first stake and
//! never deleted.  Reward distribution follows the reward-per-share pattern:
//! the pool keeps a running accumulator of reward units per staked unit,
//! scaled by `REWARD_SCALE`; each position keeps a snapshot of that
//! accumulator from its last reconciliation.  Advancing the accumulator and
//! reconciling one position are both constant-time, so the scheme scales to
//! any number of participants.
//!
//! The host supplies the current time to every method that needs it; the
//! library never reads a clock.

use vstd::prelude::*;
use vstd::arithmetic::div_mod::lemma_div_is_ordered;

use crate::errors::StakingError;

verus! {

/// Fixed-point scale of the reward accumulator: one whole reward unit per
/// staked unit is `REWARD_SCALE` accumulator ticks.
pub const REWARD_SCALE: u128 = 1_000_000_000_000_000_000;

/// Sanity ceiling on the reward rate, so that realistic rate and duration
/// combinations cannot saturate the accumulator.
pub const MAX_REWARD_RATE: u64 = 1_000_000_000;

/// Shortest lock period a pool may be configured with: one day, in seconds.
pub const MIN_LOCK_PERIOD: i64 = 86_400;

/// Longest lock period a pool may be configured with: four years, in seconds.
pub const MAX_LOCK_PERIOD: i64 = 126_144_000;

/// An account identity, as the host's identity layer names it.  The library
/// only ever compares identities for equality; zero is reserved for "no
/// account" and marks a position record not yet initialized.
#[derive(Clone, Copy, Debug, PartialEq, Eq, Structural)]
pub struct AccountId(pub u64);

/// Process-wide staking pool record: parameters, totals, and the running
/// reward accumulator.  Created once by `initialize`; mutated by every
/// subsequent operation; never deleted.
#[derive(Clone, Copy, Debug, PartialEq, Eq, Structural)]
pub struct GlobalStakingState {
    /// Account permitted to run administrative operations.
    pub authority: AccountId,
    /// Mint of the staked base asset.
    pub leash_mint: AccountId,
    /// Mint of the receipt asset issued one-for-one against stakes.
    pub xleash_mint: AccountId,
    /// Holding account for principal and reward float.
    pub treasury: AccountId,
    /// Reward units accrued per second per staked unit, in accumulator ticks.
    pub reward_rate: u64,
    /// Smallest amount a single stake may deposit.
    pub min_stake_amount: u64,
    /// Largest single stake, and the pool-wide capacity.
    pub max_stake_amount: u64,
    /// Mandatory holding period applied to locked deposits, in seconds.
    pub lock_period: i64,
    /// Sum of all participants' principal.
    pub total_staked: u64,
    /// Sum of all receipt balances outstanding.
    pub total_xleash_minted: u64,
    /// Monotonically non-decreasing reward-per-staked-unit running total,
    /// scaled by `REWARD_SCALE`.
    pub accumulated_rewards_per_token: u128,
    /// Wall-clock time of the last accrual advance, in seconds.
    pub last_update_time: i64,
    /// Lifetime counter of rewards paid out.
    pub total_rewards_distributed: u64,
    /// Lifetime counter of injected external fee revenue.
    pub lp_fees_collected: u64,
    /// Global kill-switch for the mutating participant operations.
    pub is_paused: bool,
}

/// Per-participant ledger record.  Created with zeroed balances on the
/// participant's first stake; mutated by every operation that participant
/// performs; it may decay to a zero balance but is never deleted.
#[derive(Clone, Copy, Debug, PartialEq, Eq, Structural)]
pub struct UserStakingPosition {
    /// Participant this record belongs to; zero while uninitialized.
    pub owner: AccountId,
    /// Back-reference to the pool, as an identity, never an owning handle.
    pub global_staking_state: AccountId,
    /// Current principal.
    pub staked_amount: u64,
    /// Current receipt balance, tracked one-for-one with `staked_amount`.
    pub xleash_amount: u64,
    /// Pool accumulator value at this record's last reconciliation.
    pub user_rewards_per_token: u128,
    /// Rewards reconciled but not yet paid out.
    pub pending_rewards: u64,
    /// When the participant last added principal, in seconds.
    pub staking_start_time: i64,
    /// When the participant last claimed rewards, in seconds.
    pub last_claim_time: i64,
    /// Whether withdrawal is forbidden until `lock_end_time`.
    pub is_locked: bool,
    /// End of the lock window, in seconds, meaningful when `is_locked`.
    pub lock_end_time: i64,
}

/// Read-only projection of the pool totals, with the accumulator freshly
/// advanced to the query time but not persisted.
#[derive(Clone, Copy, Debug, PartialEq, Eq, Structural)]
pub struct StakingStats {
    pub total_staked: u64,
    pub total_xleash_minted: u64,
    pub reward_rate: u64,
    pub accumulated_rewards_per_token: u128,
    pub total_rewards_distributed: u64,
    pub lp_fees_collected: u64,
    pub active_stakers: u32,
    pub is_paused: bool,
    pub current_time: i64,
}

impl GlobalStakingState {
    /// Timestamps the pool carries are wall-clock seconds, never negative;
    /// this keeps elapsed-time subtraction free of overflow.
    pub open spec fn wf(self) -> bool {
        self.last_update_time >= 0
    }

    /// Reward ticks the accumulator earns between the last advance and
    /// `now`: rate times elapsed seconds, zero when no time has passed or
    /// nothing is staked.
    pub open spec fn accrual_increment(self, now: i64) -> int {
        if now > self.last_update_time && self.total_staked > 0 {
            self.reward_rate * (now - self.last_update_time)
        } else {
            0
        }
    }

    /// The accumulator value an advance to `now` yields.  An increment that
    /// would overflow the accumulator is dropped rather than wrapped: silent
    /// precision loss is preferred over corrupting the ledger.
    pub open spec fn accumulator_after(self, now: i64) -> u128 {
        if self.accumulated_rewards_per_token + self.accrual_increment(now) <= u128::MAX {
            (self.accumulated_rewards_per_token + self.accrual_increment(now)) as u128
        } else {
            self.accumulated_rewards_per_token
        }
    }

    /// Write the configuration of a freshly created pool and zero every
    /// counter.  Validation of the parameters is the caller's duty (see
    /// `instructions::initialize`).
    pub fn initialize(
        &mut self,
        authority: AccountId,
        leash_mint: AccountId,
        xleash_mint: AccountId,
        treasury: AccountId,
        reward_rate: u64,
        min_stake_amount: u64,
        max_stake_amount: u64,
        lock_period: i64,
        now: i64,
    )
        requires
            now >= 0,
        ensures
            *final(self) == (GlobalStakingState {
                authority,
                leash_mint,
                xleash_mint,
                treasury,
                reward_rate,
                min_stake_amount,
                max_stake_amount,
                lock_period,
                total_staked: 0,
                total_xleash_minted: 0,
                accumulated_rewards_per_token: 0,
                last_update_time: now,
                total_rewards_distributed: 0,
                lp_fees_collected: 0,
                is_paused: false,
            }),
            final(self).wf(),
    {
        self.authority = authority;
        self.leash_mint = leash_mint;
        self.xleash_mint = xleash_mint;
        self.treasury = treasury;
        self.reward_rate = reward_rate;
        self.min_stake_amount = min_stake_amount;
        self.max_stake_amount = max_stake_amount;
        self.lock_period = lock_period;
        self.total_staked = 0;
        self.total_xleash_minted = 0;
        self.accumulated_rewards_per_token = 0;
        self.last_update_time = now;
        self.total_rewards_distributed = 0;
        self.lp_fees_collected = 0;
        self.is_paused = false;
    }

    /// Advance the accumulator by the time elapsed since the last advance
    /// and stamp the pool with `now`.  The accumulator never decreases; an
    /// increment that would overflow it is treated as a no-op.
    pub fn update_rewards(&mut self, now: i64)
        requires
            old(self).wf(),
            now >= 0,
        ensures
            *final(self) == (GlobalStakingState {
                accumulated_rewards_per_token: old(self).accumulator_after(now),
                last_update_time: now,
                ..*old(self)
            }),
            final(self).accumulated_rewards_per_token
                >= old(self).accumulated_rewards_per_token,
            final(self).wf(),
    {
        if now > self.last_update_time && self.total_staked > 0 {
            let elapsed: i64 = now - self.last_update_time;
            proof {
                assert((self.reward_rate as int) * (elapsed as int) <= u128::MAX)
                    by (nonlinear_arith)
                    requires
                        self.reward_rate <= u64::MAX,
                        0 <= elapsed <= i64::MAX,
                ;
            }
            let increment: u128 = (self.reward_rate as u128) * (elapsed as u128);
            if increment <= u128::MAX - self.accumulated_rewards_per_token {
                self.accumulated_rewards_per_token =
                    self.accumulated_rewards_per_token + increment;
            }
        }
        self.last_update_time = now;
    }

    /// The accumulator as it would stand after an advance to `now`, without
    /// persisting the advance; the live value a query reports.
    pub fn accumulator_at(&self, now: i64) -> (acc: u128)
        requires
            self.wf(),
            now >= 0,
        ensures
            acc == self.accumulator_after(now),
    {
        let mut advanced = *self;
        advanced.update_rewards(now);
        advanced.accumulated_rewards_per_token
    }

    /// Record externally collected fee revenue; the asset itself was already
    /// moved into the treasury by the host's transfer layer.
    pub fn add_lp_fees(&mut self, amount: u64) -> (r: Result<(), StakingError>)
        ensures
            r is Ok <==> old(self).lp_fees_collected + amount <= u64::MAX,
            r is Ok ==> *final(self) == (GlobalStakingState {
                lp_fees_collected: (old(self).lp_fees_collected + amount) as u64,
                ..*old(self)
            }),
            r is Err ==> *final(self) == *old(self)
                && r->Err_0 == StakingError::MathOverflow,
    {
        if amount <= u64::MAX - self.lp_fees_collected {
            self.lp_fees_collected = self.lp_fees_collected + amount;
            Ok(())
        } else {
            Err(StakingError::MathOverflow)
        }
    }
}

impl UserStakingPosition {
    /// Accumulator ticks this position has not yet been credited for: the
    /// distance from its snapshot to the pool accumulator.  Non-negative by
    /// the snapshot invariant; a snapshot ahead of the accumulator counts
    /// as zero distance.
    pub open spec fn reward_delta(self, pool_accumulator: u128) -> int {
        if self.user_rewards_per_token <= pool_accumulator {
            pool_accumulator - self.user_rewards_per_token
        } else {
            0
        }
    }

    /// The pending-reward balance a reconciliation against `pool` yields:
    /// the old balance plus principal times the accumulator delta, truncated
    /// down to whole reward units.  Truncation never rounds in the
    /// participant's favor, so rounding can never under-fund the pool.
    pub open spec fn reconciled_pending(self, pool: GlobalStakingState) -> int {
        self.pending_rewards
            + (self.staked_amount * self.reward_delta(pool.accumulated_rewards_per_token))
                / (REWARD_SCALE as int)
    }

    /// Whether a reconciliation against `pool` stays within the machine
    /// bounds: the widened product fits in 128 bits and the new pending
    /// balance fits in 64.
    pub open spec fn reconcile_fits(self, pool: GlobalStakingState) -> bool {
        &&& self.staked_amount * self.reward_delta(pool.accumulated_rewards_per_token)
            <= u128::MAX
        &&& self.reconciled_pending(pool) <= u64::MAX
    }

    /// Write a freshly created position: owned by `owner`, related to the
    /// pool named `global_staking_state`, all balances zero, unlocked.
    pub fn initialize(
        &mut self,
        owner: AccountId,
        global_staking_state: AccountId,
        now: i64,
    )
        ensures
            *final(self) == (UserStakingPosition {
                owner,
                global_staking_state,
                staked_amount: 0,
                xleash_amount: 0,
                user_rewards_per_token: 0,
                pending_rewards: 0,
                staking_start_time: now,
                last_claim_time: now,
                is_locked: false,
                lock_end_time: 0,
            }),
    {
        self.owner = owner;
        self.global_staking_state = global_staking_state;
        self.staked_amount = 0;
        self.xleash_amount = 0;
        self.user_rewards_per_token = 0;
        self.pending_rewards = 0;
        self.staking_start_time = now;
        self.last_claim_time = now;
        self.is_locked = false;
        self.lock_end_time = 0;
    }

    /// The pending-reward balance this position would hold after settling
    /// against the pool accumulator, without mutating the record.  Fails
    /// with `MathOverflow` exactly when the settled balance cannot be
    /// represented.
    pub fn calculate_pending_rewards(
        &self,
        global_state: &GlobalStakingState,
    ) -> (r: Result<u64, StakingError>)
        ensures
            r is Ok <==> self.reconcile_fits(*global_state),
            r is Ok ==> r->Ok_0 == self.reconciled_pending(*global_state),
            r is Err ==> r->Err_0 == StakingError::MathOverflow,
    {
        let delta: u128 = if self.user_rewards_per_token
            <= global_state.accumulated_rewards_per_token
        {
            global_state.accumulated_rewards_per_token - self.user_rewards_per_token
        } else {
            0
        };
        let product: u128 = match (self.staked_amount as u128).checked_mul(delta) {
            Some(p) => p,
            None => {
                return Err(StakingError::MathOverflow);
            },
        };
        let earned: u128 = product / REWARD_SCALE;
        proof {
            lemma_div_is_ordered(product as int, u128::MAX as int, REWARD_SCALE as int);
            assert(u128::MAX / REWARD_SCALE + u64::MAX <= u128::MAX);
        }
        let settled: u128 = earned + (self.pending_rewards as u128);
        if settled <= u64::MAX as u128 {
            Ok(settled as u64)
        } else {
            Err(StakingError::MathOverflow)
        }
    }

    /// Settle this position's pending rewards against the pool accumulator
    /// and take a fresh snapshot, so the balance reflects all time up to the
    /// pool's last advance.  On error the record is unchanged.
    pub fn update_rewards(
        &mut self,
        global_state: &GlobalStakingState,
    ) -> (r: Result<(), StakingError>)
        ensures
            r is Ok <==> old(self).reconcile_fits(*global_state),
            r is Ok ==> *final(self) == (UserStakingPosition {
                pending_rewards: old(self).reconciled_pending(*global_state) as u64,
                user_rewards_per_token: global_state.accumulated_rewards_per_token,
                ..*old(self)
            }),
            r is Err ==> *final(self) == *old(self)
                && r->Err_0 == StakingError::MathOverflow,
    {
        match self.calculate_pending_rewards(global_state) {
            Ok(settled) => {
                self.pending_rewards = settled;
                self.user_rewards_per_token = global_state.accumulated_rewards_per_token;
                Ok(())
            },
            Err(e) => Err(e),
        }
    }

    /// Add freshly deposited principal and the receipt balance issued for
    /// it, and restart the staking clock.  On error the record is unchanged.
    pub fn stake(
        &mut self,
        amount: u64,
        xleash_amount: u64,
        now: i64,
    ) -> (r: Result<(), StakingError>)
        ensures
            r is Ok <==> old(self).staked_amount + amount <= u64::MAX
                && old(self).xleash_amount + xleash_amount <= u64::MAX,
            r is Ok ==> *final(self) == (UserStakingPosition {
                staked_amount: (old(self).staked_amount + amount) as u64,
                xleash_amount: (old(self).xleash_amount + xleash_amount) as u64,
                staking_start_time: now,
                ..*old(self)
            }),
            r is Err ==> *final(self) == *old(self)
                && r->Err_0 == StakingError::MathOverflow,
    {
        if amount <= u64::MAX - self.staked_amount
            && xleash_amount <= u64::MAX - self.xleash_amount
        {
            self.staked_amount = self.staked_amount + amount;
            self.xleash_amount = self.xleash_amount + xleash_amount;
            self.staking_start_time = now;
            Ok(())
        } else {
            Err(StakingError::MathOverflow)
        }
    }

    /// Remove withdrawn principal and the receipt balance burned for it.
    /// On error the record is unchanged.
    pub fn unstake(&mut self, amount: u64, xleash_amount: u64) -> (r: Result<(), StakingError>)
        ensures
            r is Ok <==> amount <= old(self).staked_amount
                && xleash_amount <= old(self).xleash_amount,
            r is Ok ==> *final(self) == (UserStakingPosition {
                staked_amount: (old(self).staked_amount - amount) as u64,
                xleash_amount: (old(self).xleash_amount - xleash_amount) as u64,
                ..*old(self)
            }),
            r is Err ==> *final(self) == *old(self)
                && r->Err_0 == StakingError::MathOverflow,
    {
        if amount <= self.staked_amount && xleash_amount <= self.xleash_amount {
            self.staked_amount = self.staked_amount - amount;
            self.xleash_amount = self.xleash_amount - xleash_amount;
            Ok(())
        } else {
            Err(StakingError::MathOverflow)
        }
    }

    /// Mark `amount` of reconciled rewards as paid out and stamp the claim
    /// time.  On error the record is unchanged.
    pub fn claim_rewards(&mut self, amount: u64, now: i64) -> (r: Result<(), StakingError>)
        ensures
            r is Ok <==> amount <= old(self).pending_rewards,
            r is Ok ==> *final(self) == (UserStakingPosition {
                pending_rewards: (old(self).pending_rewards - amount) as u64,
                last_claim_time: now,
                ..*old(self)
            }),
            r is Err ==> *final(self) == *old(self)
                && r->Err_0 == StakingError::MathOverflow,
    {
        if amount <= self.pending_rewards {
            self.pending_rewards = self.pending_rewards - amount;
            self.last_claim_time = now;
            Ok(())
        } else {
            Err(StakingError::MathOverflow)
        }
    }
}

} // verus!
