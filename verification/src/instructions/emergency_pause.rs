//! Flip the global kill-switch.  Only the pool authority may call this; it
//! bypasses accrual math and takes effect for every subsequent mutating
//! participant operation.

use vstd::prelude::*;

use crate::errors::StakingError;
use crate::state::{AccountId, GlobalStakingState};

verus! {

/// Inputs of a pause toggle: the pool record and the calling identity.
#[derive(Clone, Copy, Debug, PartialEq, Eq, Structural)]
pub struct EmergencyPause {
    /// The pool record being paused or resumed.
    pub global_staking_state: GlobalStakingState,
    /// The account making the call; must be the pool authority.
    pub authority: AccountId,
}

impl EmergencyPause {
    /// The only failure of the toggle: a caller other than the authority.
    pub open spec fn check(self) -> Option<StakingError> {
        if self.authority != self.global_staking_state.authority {
            Some(StakingError::Unauthorized)
        } else {
            None
        }
    }
}

/// Set the pool's pause flag to `pause`.  On error the pool record is
/// unchanged.
pub fn handler(accounts: &mut EmergencyPause, pause: bool) -> (r: Result<(), StakingError>)
    ensures
        r is Ok <==> old(accounts).check() is None,
        r is Err ==> Some(r->Err_0) == old(accounts).check()
            && *final(accounts) == *old(accounts),
        r is Ok ==> *final(accounts) == (EmergencyPause {
            global_staking_state: (GlobalStakingState {
                is_paused: pause,
                ..old(accounts).global_staking_state
            }),
            ..*old(accounts)
        }),
{
    if accounts.authority != accounts.global_staking_state.authority {
        return Err(StakingError::Unauthorized);
    }
    let mut pool = accounts.global_staking_state;
    pool.is_paused = pause;
    accounts.global_staking_state = pool;
    Ok(())
}

} // verus!
