//! One module per operation the pool exposes.  Each holds a record of the
//! plain inputs the operation reads, a `validate` that reports the first
//! violated precondition, and a `handler` that applies the full operation
//! atomically: every failure leaves the records exactly as they were.

pub mod initialize;
pub mod stake;
pub mod unstake;
pub mod claim_rewards;
pub mod update_staking_params;
pub mod distribute_lp_fees;
pub mod emergency_pause;
pub mod get_staking_stats;
