//! Withdraw principal.  The handler settles accrual, debits the position,
//! and lowers the pool totals; the host burns the receipt balance and moves
//! the base asset the handler reports back to the participant.

use vstd::prelude::*;

use crate::errors::StakingError;
use crate::state::{GlobalStakingState, UserStakingPosition};

verus! {

/// Inputs of a withdrawal: the two ledger records, the participant's
/// external receipt balance, and the amount.
#[derive(Clone, Copy, Debug, PartialEq, Eq, Structural)]
pub struct Unstake {
    /// The pool record the withdrawal comes out of.
    pub global_staking_state: GlobalStakingState,
    /// The participant's position record.
    pub user_staking_position: UserStakingPosition,
    /// The participant's external receipt-asset balance.
    pub user_xleash_balance: u64,
    /// Principal to withdraw.
    pub amount: u64,
}

impl Unstake {
    /// The first precondition these inputs violate at time `now`, if any:
    /// the pool must not be paused, the amount must be positive and covered
    /// by both the external receipt balance and the recorded stake, and a
    /// locked position must have reached the end of its lock window.
    pub open spec fn check(self, now: i64) -> Option<StakingError> {
        if self.global_staking_state.is_paused {
            Some(StakingError::StakingPaused)
        } else if self.amount == 0 {
            Some(StakingError::InvalidStakeAmount)
        } else if self.user_xleash_balance < self.amount {
            Some(StakingError::InsufficientBalance)
        } else if self.user_staking_position.staked_amount < self.amount {
            Some(StakingError::InsufficientBalance)
        } else if self.user_staking_position.is_locked
            && now < self.user_staking_position.lock_end_time {
            Some(StakingError::LockPeriodNotMet)
        } else {
            None
        }
    }

    /// The pool as it stands after the accrual advance to `now`, before the
    /// withdrawal itself is applied.
    pub open spec fn advanced_pool(self, now: i64) -> GlobalStakingState {
        GlobalStakingState {
            accumulated_rewards_per_token: self.global_staking_state.accumulator_after(now),
            last_update_time: now,
            ..self.global_staking_state
        }
    }

    /// The first failure of the whole operation, if any: a violated
    /// precondition, or a balance mutation that would not fit its field.
    pub open spec fn check_full(self, now: i64) -> Option<StakingError> {
        if self.check(now) is Some {
            self.check(now)
        } else {
            let pool = self.advanced_pool(now);
            let position = self.user_staking_position;
            if !position.reconcile_fits(pool) {
                Some(StakingError::MathOverflow)
            } else if position.xleash_amount < self.amount {
                Some(StakingError::MathOverflow)
            } else if self.global_staking_state.total_staked < self.amount
                || self.global_staking_state.total_xleash_minted < self.amount {
                Some(StakingError::MathOverflow)
            } else {
                None
            }
        }
    }

    /// The pool record a successful withdrawal leaves behind: accrual
    /// settled to `now` and both totals lowered by the amount.
    pub open spec fn pool_after(self, now: i64) -> GlobalStakingState {
        GlobalStakingState {
            total_staked: (self.global_staking_state.total_staked - self.amount) as u64,
            total_xleash_minted:
                (self.global_staking_state.total_xleash_minted - self.amount) as u64,
            ..self.advanced_pool(now)
        }
    }

    /// The position record a successful withdrawal leaves behind: rewards
    /// settled against the advanced accumulator, then principal and receipt
    /// balance lowered by the amount.
    pub open spec fn position_after(self, now: i64) -> UserStakingPosition {
        let pool = self.advanced_pool(now);
        let position = self.user_staking_position;
        UserStakingPosition {
            staked_amount: (position.staked_amount - self.amount) as u64,
            xleash_amount: (position.xleash_amount - self.amount) as u64,
            user_rewards_per_token: pool.accumulated_rewards_per_token,
            pending_rewards: position.reconciled_pending(pool) as u64,
            ..position
        }
    }

    /// Check every precondition of the withdrawal, reporting the first
    /// violation and touching nothing.
    pub fn validate(&self, now: i64) -> (r: Result<(), StakingError>)
        ensures
            r is Ok <==> self.check(now) is None,
            r is Err ==> Some(r->Err_0) == self.check(now),
    {
        if self.global_staking_state.is_paused {
            return Err(StakingError::StakingPaused);
        }
        if self.amount == 0 {
            return Err(StakingError::InvalidStakeAmount);
        }
        if self.user_xleash_balance < self.amount {
            return Err(StakingError::InsufficientBalance);
        }
        if self.user_staking_position.staked_amount < self.amount {
            return Err(StakingError::InsufficientBalance);
        }
        if self.user_staking_position.is_locked && now < self.user_staking_position.lock_end_time
        {
            return Err(StakingError::LockPeriodNotMet);
        }
        Ok(())
    }
}

/// Apply a withdrawal at time `now`.  On success the returned value is the
/// base-asset amount the host must move from the treasury back to the
/// participant (one-for-one with the burned receipt balance).  On error
/// both records are unchanged.
pub fn handler(accounts: &mut Unstake, now: i64) -> (r: Result<u64, StakingError>)
    requires
        old(accounts).global_staking_state.wf(),
        now >= 0,
    ensures
        r is Ok <==> old(accounts).check_full(now) is None,
        r is Err ==> Some(r->Err_0) == old(accounts).check_full(now)
            && *final(accounts) == *old(accounts),
        r is Ok ==> r->Ok_0 == old(accounts).amount
            && *final(accounts) == (Unstake {
                global_staking_state: old(accounts).pool_after(now),
                user_staking_position: old(accounts).position_after(now),
                ..*old(accounts)
            }),
        final(accounts).global_staking_state.accumulated_rewards_per_token
            >= old(accounts).global_staking_state.accumulated_rewards_per_token,
        final(accounts).global_staking_state.wf(),
{
    accounts.validate(now)?;

    let mut pool = accounts.global_staking_state;
    let mut position = accounts.user_staking_position;

    pool.update_rewards(now);
    if let Err(e) = position.update_rewards(&pool) {
        return Err(e);
    }
    if let Err(e) = position.unstake(accounts.amount, accounts.amount) {
        return Err(e);
    }
    if pool.total_staked < accounts.amount || pool.total_xleash_minted < accounts.amount {
        return Err(StakingError::MathOverflow);
    }
    pool.total_staked = pool.total_staked - accounts.amount;
    pool.total_xleash_minted = pool.total_xleash_minted - accounts.amount;

    accounts.global_staking_state = pool;
    accounts.user_staking_position = position;
    Ok(accounts.amount)
}

} // verus!
