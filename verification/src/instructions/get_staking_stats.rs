//! Read-only projection of the pool totals.  The reported accumulator is
//! freshly advanced to the query time but the advance is not persisted, so
//! callers see live totals without mutating state.

use vstd::prelude::*;

use crate::errors::StakingError;
use crate::state::{GlobalStakingState, StakingStats};

verus! {

/// Inputs of a statistics query: the pool record and the participant count
/// the host's persistence layer reports.
#[derive(Clone, Copy, Debug, PartialEq, Eq, Structural)]
pub struct GetStakingStats {
    /// The pool record being projected.
    pub global_staking_state: GlobalStakingState,
    /// Number of positions holding a positive stake, counted by the host.
    pub active_stakers: u32,
}

impl GetStakingStats {
    /// The projection a query at time `now` yields.
    pub open spec fn stats_at(self, now: i64) -> StakingStats {
        StakingStats {
            total_staked: self.global_staking_state.total_staked,
            total_xleash_minted: self.global_staking_state.total_xleash_minted,
            reward_rate: self.global_staking_state.reward_rate,
            accumulated_rewards_per_token: self.global_staking_state.accumulator_after(now),
            total_rewards_distributed: self.global_staking_state.total_rewards_distributed,
            lp_fees_collected: self.global_staking_state.lp_fees_collected,
            active_stakers: self.active_stakers,
            is_paused: self.global_staking_state.is_paused,
            current_time: now,
        }
    }
}

/// Project the pool totals as of time `now` without mutating anything.
pub fn handler(accounts: &GetStakingStats, now: i64) -> (r: Result<StakingStats, StakingError>)
    requires
        accounts.global_staking_state.wf(),
        now >= 0,
    ensures
        r is Ok,
        r->Ok_0 == accounts.stats_at(now),
{
    let accumulator: u128 = accounts.global_staking_state.accumulator_at(now);
    Ok(StakingStats {
        total_staked: accounts.global_staking_state.total_staked,
        total_xleash_minted: accounts.global_staking_state.total_xleash_minted,
        reward_rate: accounts.global_staking_state.reward_rate,
        accumulated_rewards_per_token: accumulator,
        total_rewards_distributed: accounts.global_staking_state.total_rewards_distributed,
        lp_fees_collected: accounts.global_staking_state.lp_fees_collected,
        active_stakers: accounts.active_stakers,
        is_paused: accounts.global_staking_state.is_paused,
        current_time: now,
    })
}

} // verus!
