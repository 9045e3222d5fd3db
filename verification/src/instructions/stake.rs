//! Deposit principal.  The handler settles accrual, credits the position,
//! and raises the pool totals; the host moves the base asset into the
//! treasury and issues the receipt balance the handler reports.

use vstd::prelude::*;

use crate::errors::StakingError;
use crate::state::{AccountId, GlobalStakingState, UserStakingPosition};

verus! {

/// Inputs of a deposit: the two ledger records, the identities that relate
/// them, the participant's external base-asset balance, and the amount.
#[derive(Clone, Copy, Debug, PartialEq, Eq, Structural)]
pub struct Stake {
    /// The pool record the deposit goes into.
    pub global_staking_state: GlobalStakingState,
    /// The participant's position record; zero-owned when it was only just
    /// allocated and never used.
    pub user_staking_position: UserStakingPosition,
    /// Identity of the pool record, for the position's back-reference.
    pub pool_key: AccountId,
    /// The depositing participant.
    pub user: AccountId,
    /// The participant's external base-asset balance.
    pub user_leash_balance: u64,
    /// Principal to deposit.
    pub amount: u64,
}

impl Stake {
    /// The first precondition these inputs violate, if any: the pool must
    /// not be paused, the amount must lie within the stake bounds, the
    /// participant must hold the amount externally, and the pool must have
    /// capacity for it.
    pub open spec fn check(self) -> Option<StakingError> {
        let pool = self.global_staking_state;
        if pool.is_paused {
            Some(StakingError::StakingPaused)
        } else if self.amount < pool.min_stake_amount {
            Some(StakingError::InvalidStakeAmount)
        } else if self.amount > pool.max_stake_amount {
            Some(StakingError::InvalidStakeAmount)
        } else if self.user_leash_balance < self.amount {
            Some(StakingError::InsufficientBalance)
        } else if pool.total_staked + self.amount > u64::MAX {
            Some(StakingError::MathOverflow)
        } else if pool.total_staked + self.amount > pool.max_stake_amount {
            Some(StakingError::StakingPoolFull)
        } else {
            None
        }
    }

    /// The pool as it stands after the accrual advance to `now`, before the
    /// deposit itself is applied.
    pub open spec fn advanced_pool(self, now: i64) -> GlobalStakingState {
        GlobalStakingState {
            accumulated_rewards_per_token: self.global_staking_state.accumulator_after(now),
            last_update_time: now,
            ..self.global_staking_state
        }
    }

    /// The position the deposit reconciles against: the stored record, or a
    /// fresh zeroed one when the participant never staked before.
    pub open spec fn effective_position(self, now: i64) -> UserStakingPosition {
        if self.user_staking_position.owner == AccountId(0) {
            UserStakingPosition {
                owner: self.user,
                global_staking_state: self.pool_key,
                staked_amount: 0,
                xleash_amount: 0,
                user_rewards_per_token: 0,
                pending_rewards: 0,
                staking_start_time: now,
                last_claim_time: now,
                is_locked: false,
                lock_end_time: 0,
            }
        } else {
            self.user_staking_position
        }
    }

    /// The first failure of the whole operation, if any: a violated
    /// precondition, or a balance mutation that would not fit its field.
    pub open spec fn check_full(self, now: i64) -> Option<StakingError> {
        if self.check() is Some {
            self.check()
        } else {
            let pool = self.advanced_pool(now);
            let position = self.effective_position(now);
            if !position.reconcile_fits(pool) {
                Some(StakingError::MathOverflow)
            } else if position.staked_amount + self.amount > u64::MAX
                || position.xleash_amount + self.amount > u64::MAX {
                Some(StakingError::MathOverflow)
            } else if self.global_staking_state.total_xleash_minted + self.amount > u64::MAX {
                Some(StakingError::MathOverflow)
            } else {
                None
            }
        }
    }

    /// The pool record a successful deposit leaves behind: accrual settled
    /// to `now` and both totals raised by the amount.
    pub open spec fn pool_after(self, now: i64) -> GlobalStakingState {
        GlobalStakingState {
            total_staked: (self.global_staking_state.total_staked + self.amount) as u64,
            total_xleash_minted:
                (self.global_staking_state.total_xleash_minted + self.amount) as u64,
            ..self.advanced_pool(now)
        }
    }

    /// The position record a successful deposit leaves behind: rewards
    /// settled against the advanced accumulator, then principal and receipt
    /// balance raised by the amount and the staking clock restarted.
    pub open spec fn position_after(self, now: i64) -> UserStakingPosition {
        let pool = self.advanced_pool(now);
        let position = self.effective_position(now);
        UserStakingPosition {
            staked_amount: (position.staked_amount + self.amount) as u64,
            xleash_amount: (position.xleash_amount + self.amount) as u64,
            user_rewards_per_token: pool.accumulated_rewards_per_token,
            pending_rewards: position.reconciled_pending(pool) as u64,
            staking_start_time: now,
            ..position
        }
    }

    /// Check every precondition of the deposit, reporting the first
    /// violation and touching nothing.
    pub fn validate(&self) -> (r: Result<(), StakingError>)
        ensures
            r is Ok <==> self.check() is None,
            r is Err ==> Some(r->Err_0) == self.check(),
    {
        if self.global_staking_state.is_paused {
            return Err(StakingError::StakingPaused);
        }
        if self.amount < self.global_staking_state.min_stake_amount {
            return Err(StakingError::InvalidStakeAmount);
        }
        if self.amount > self.global_staking_state.max_stake_amount {
            return Err(StakingError::InvalidStakeAmount);
        }
        if self.user_leash_balance < self.amount {
            return Err(StakingError::InsufficientBalance);
        }
        if self.amount > u64::MAX - self.global_staking_state.total_staked {
            return Err(StakingError::MathOverflow);
        }
        if self.global_staking_state.total_staked + self.amount
            > self.global_staking_state.max_stake_amount
        {
            return Err(StakingError::StakingPoolFull);
        }
        Ok(())
    }
}

/// Apply a deposit at time `now`.  On success the returned value is the
/// receipt balance the host must issue to the participant (one-for-one with
/// the deposited principal), after moving the principal into the treasury.
/// On error both records are unchanged.
pub fn handler(accounts: &mut Stake, now: i64) -> (r: Result<u64, StakingError>)
    requires
        old(accounts).global_staking_state.wf(),
        now >= 0,
    ensures
        r is Ok <==> old(accounts).check_full(now) is None,
        r is Err ==> Some(r->Err_0) == old(accounts).check_full(now)
            && *final(accounts) == *old(accounts),
        r is Ok ==> r->Ok_0 == old(accounts).amount
            && *final(accounts) == (Stake {
                global_staking_state: old(accounts).pool_after(now),
                user_staking_position: old(accounts).position_after(now),
                ..*old(accounts)
            }),
        final(accounts).global_staking_state.accumulated_rewards_per_token
            >= old(accounts).global_staking_state.accumulated_rewards_per_token,
        final(accounts).global_staking_state.wf(),
{
    accounts.validate()?;

    let mut pool = accounts.global_staking_state;
    let mut position = accounts.user_staking_position;

    pool.update_rewards(now);
    if position.owner == AccountId(0) {
        position.initialize(accounts.user, accounts.pool_key, now);
    }
    if let Err(e) = position.update_rewards(&pool) {
        return Err(e);
    }
    if let Err(e) = position.stake(accounts.amount, accounts.amount, now) {
        return Err(e);
    }
    if accounts.amount > u64::MAX - pool.total_xleash_minted {
        return Err(StakingError::MathOverflow);
    }
    pool.total_staked = pool.total_staked + accounts.amount;
    pool.total_xleash_minted = pool.total_xleash_minted + accounts.amount;

    accounts.global_staking_state = pool;
    accounts.user_staking_position = position;
    Ok(accounts.amount)
}

} // verus!
