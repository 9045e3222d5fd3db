//! Error kinds reported by the staking operations.
//!
//! Every error is a local validation failure detected before any record is
//! mutated: a failed operation leaves the pool state and the position it
//! addressed exactly as they were.

use vstd::prelude::*;

verus! {

/// The reasons a staking operation can fail.
#[derive(Clone, Copy, Debug, PartialEq, Eq, Structural)]
pub enum StakingError {
    /// A stake or unstake amount is outside the configured bounds.
    InvalidStakeAmount,
    /// The caller's external balance or recorded stake is too small.
    InsufficientBalance,
    /// The global kill-switch is on.
    StakingPaused,
    /// The position is locked and the lock window has not elapsed.
    LockPeriodNotMet,
    /// The caller is not the pool authority.
    Unauthorized,
    /// A reward rate above the sanity ceiling.
    InvalidRewardRate,
    /// Accepting the stake would push the pool past its capacity.
    StakingPoolFull,
    /// A claim found no reconciled rewards to pay out.
    NoRewardsToClaim,
    /// A fee distribution of zero.
    InvalidLpFeeDistribution,
    /// A checked balance mutation would overflow or underflow.
    MathOverflow,
}

} // verus!
