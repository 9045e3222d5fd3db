//! Pay out reconciled rewards without touching principal.  The handler
//! settles accrual and zeroes the pending balance; the host moves the paid
//! amount from the treasury to the participant.

use vstd::prelude::*;

use crate::errors::StakingError;
use crate::state::{GlobalStakingState, UserStakingPosition};

verus! {

/// Inputs of a claim: the two ledger records.
#[derive(Clone, Copy, Debug, PartialEq, Eq, Structural)]
pub struct ClaimRewards {
    /// The pool record rewards are accounted against.
    pub global_staking_state: GlobalStakingState,
    /// The participant's position record.
    pub user_staking_position: UserStakingPosition,
}

impl ClaimRewards {
    /// The first precondition these inputs violate, if any: the pool must
    /// not be paused and the participant must hold staked principal.
    pub open spec fn check(self) -> Option<StakingError> {
        if self.global_staking_state.is_paused {
            Some(StakingError::StakingPaused)
        } else if self.user_staking_position.staked_amount == 0 {
            Some(StakingError::InsufficientBalance)
        } else {
            None
        }
    }

    /// The pool as it stands after the accrual advance to `now`, before the
    /// payout is recorded.
    pub open spec fn advanced_pool(self, now: i64) -> GlobalStakingState {
        GlobalStakingState {
            accumulated_rewards_per_token: self.global_staking_state.accumulator_after(now),
            last_update_time: now,
            ..self.global_staking_state
        }
    }

    /// The amount a successful claim pays out: the position's pending
    /// balance settled against the accumulator as of `now`.
    pub open spec fn payout(self, now: i64) -> int {
        self.user_staking_position.reconciled_pending(self.advanced_pool(now))
    }

    /// The first failure of the whole operation, if any: a violated
    /// precondition, a reconciliation that would not fit, a settled balance
    /// of zero, or a lifetime counter that would not fit.
    pub open spec fn check_full(self, now: i64) -> Option<StakingError> {
        if self.check() is Some {
            self.check()
        } else {
            let pool = self.advanced_pool(now);
            let position = self.user_staking_position;
            if !position.reconcile_fits(pool) {
                Some(StakingError::MathOverflow)
            } else if position.reconciled_pending(pool) == 0 {
                Some(StakingError::NoRewardsToClaim)
            } else if self.global_staking_state.total_rewards_distributed
                + position.reconciled_pending(pool) > u64::MAX {
                Some(StakingError::MathOverflow)
            } else {
                None
            }
        }
    }

    /// The pool record a successful claim leaves behind: accrual settled to
    /// `now` and the lifetime payout counter raised by the paid amount.
    pub open spec fn pool_after(self, now: i64) -> GlobalStakingState {
        GlobalStakingState {
            total_rewards_distributed:
                (self.global_staking_state.total_rewards_distributed + self.payout(now)) as u64,
            ..self.advanced_pool(now)
        }
    }

    /// The position record a successful claim leaves behind: snapshot taken,
    /// pending balance paid down to zero, claim time stamped.
    pub open spec fn position_after(self, now: i64) -> UserStakingPosition {
        UserStakingPosition {
            user_rewards_per_token: self.advanced_pool(now).accumulated_rewards_per_token,
            pending_rewards: 0,
            last_claim_time: now,
            ..self.user_staking_position
        }
    }

    /// Check the claim preconditions, reporting the first violation and
    /// touching nothing.
    pub fn validate(&self) -> (r: Result<(), StakingError>)
        ensures
            r is Ok <==> self.check() is None,
            r is Err ==> Some(r->Err_0) == self.check(),
    {
        if self.global_staking_state.is_paused {
            return Err(StakingError::StakingPaused);
        }
        if self.user_staking_position.staked_amount == 0 {
            return Err(StakingError::InsufficientBalance);
        }
        Ok(())
    }
}

/// Apply a claim at time `now`.  On success the returned value is the
/// reward amount the host must move from the treasury to the participant.
/// On error both records are unchanged.
pub fn handler(accounts: &mut ClaimRewards, now: i64) -> (r: Result<u64, StakingError>)
    requires
        old(accounts).global_staking_state.wf(),
        now >= 0,
    ensures
        r is Ok <==> old(accounts).check_full(now) is None,
        r is Err ==> Some(r->Err_0) == old(accounts).check_full(now)
            && *final(accounts) == *old(accounts),
        r is Ok ==> r->Ok_0 == old(accounts).payout(now)
            && *final(accounts) == (ClaimRewards {
                global_staking_state: old(accounts).pool_after(now),
                user_staking_position: old(accounts).position_after(now),
            }),
        final(accounts).global_staking_state.accumulated_rewards_per_token
            >= old(accounts).global_staking_state.accumulated_rewards_per_token,
        final(accounts).global_staking_state.wf(),
{
    accounts.validate()?;

    let mut pool = accounts.global_staking_state;
    let mut position = accounts.user_staking_position;

    pool.update_rewards(now);
    if let Err(e) = position.update_rewards(&pool) {
        return Err(e);
    }
    let claimable: u64 = position.pending_rewards;
    if claimable == 0 {
        return Err(StakingError::NoRewardsToClaim);
    }
    if claimable > u64::MAX - pool.total_rewards_distributed {
        return Err(StakingError::MathOverflow);
    }
    if let Err(e) = position.claim_rewards(claimable, now) {
        return Err(e);
    }
    pool.total_rewards_distributed = pool.total_rewards_distributed + claimable;

    accounts.global_staking_state = pool;
    accounts.user_staking_position = position;
    Ok(claimable)
}

} // verus!
