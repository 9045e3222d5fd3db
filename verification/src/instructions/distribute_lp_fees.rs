//! Inject externally collected fee revenue into the reward accounting.
//! The host's transfer layer has already moved the assets into the
//! treasury before this operation is accepted.

use vstd::prelude::*;

use crate::errors::StakingError;
use crate::state::GlobalStakingState;

verus! {

/// Inputs of a fee distribution: the pool record.
#[derive(Clone, Copy, Debug, PartialEq, Eq, Structural)]
pub struct DistributeLpFees {
    /// The pool record the fee revenue is credited to.
    pub global_staking_state: GlobalStakingState,
}

impl DistributeLpFees {
    /// The first failure of the distribution, if any: the pool must not be
    /// paused, the amount must be positive, and the lifetime fee counter
    /// must have room for it.
    pub open spec fn check(self, amount: u64) -> Option<StakingError> {
        if self.global_staking_state.is_paused {
            Some(StakingError::StakingPaused)
        } else if amount == 0 {
            Some(StakingError::InvalidLpFeeDistribution)
        } else if self.global_staking_state.lp_fees_collected + amount > u64::MAX {
            Some(StakingError::MathOverflow)
        } else {
            None
        }
    }

    /// The pool record a successful distribution leaves behind: accrual
    /// settled to `now` and the fee counter raised by the amount.
    pub open spec fn pool_after(self, amount: u64, now: i64) -> GlobalStakingState {
        GlobalStakingState {
            accumulated_rewards_per_token: self.global_staking_state.accumulator_after(now),
            last_update_time: now,
            lp_fees_collected: (self.global_staking_state.lp_fees_collected + amount) as u64,
            ..self.global_staking_state
        }
    }
}

/// Record a fee injection of `amount` at time `now`.  On error the pool
/// record is unchanged.
pub fn handler(accounts: &mut DistributeLpFees, amount: u64, now: i64)
    -> (r: Result<(), StakingError>)
    requires
        old(accounts).global_staking_state.wf(),
        now >= 0,
    ensures
        r is Ok <==> old(accounts).check(amount) is None,
        r is Err ==> Some(r->Err_0) == old(accounts).check(amount)
            && *final(accounts) == *old(accounts),
        r is Ok ==> *final(accounts) == (DistributeLpFees {
            global_staking_state: old(accounts).pool_after(amount, now),
        }),
        final(accounts).global_staking_state.accumulated_rewards_per_token
            >= old(accounts).global_staking_state.accumulated_rewards_per_token,
        final(accounts).global_staking_state.wf(),
{
    if accounts.global_staking_state.is_paused {
        return Err(StakingError::StakingPaused);
    }
    if amount == 0 {
        return Err(StakingError::InvalidLpFeeDistribution);
    }
    if amount > u64::MAX - accounts.global_staking_state.lp_fees_collected {
        return Err(StakingError::MathOverflow);
    }

    let mut pool = accounts.global_staking_state;
    pool.update_rewards(now);
    if let Err(e) = pool.add_lp_fees(amount) {
        return Err(e);
    }
    accounts.global_staking_state = pool;
    Ok(())
}

} // verus!
