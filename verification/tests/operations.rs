//! Operation-level behavior: parameter validation, stake and unstake
//! bounds, the lock window, pausing, administration, fee injection, the
//! statistics view, and conservation of the pool total.

use leash_staking::errors::StakingError;
use leash_staking::instructions::distribute_lp_fees::DistributeLpFees;
use leash_staking::instructions::emergency_pause::EmergencyPause;
use leash_staking::instructions::get_staking_stats::GetStakingStats;
use leash_staking::instructions::initialize::Initialize;
use leash_staking::instructions::stake::Stake;
use leash_staking::instructions::unstake::Unstake;
use leash_staking::instructions::update_staking_params::UpdateStakingParams;
use leash_staking::state::{AccountId, GlobalStakingState, UserStakingPosition};
use leash_staking::{
    distribute_lp_fees, emergency_pause, get_staking_stats, initialize, stake, unstake,
    update_staking_params,
};

fn valid_init() -> Initialize {
    Initialize {
        authority: AccountId(1),
        leash_mint: AccountId(2),
        xleash_mint: AccountId(3),
        treasury: AccountId(4),
        reward_rate: 1_000,
        min_stake_amount: 100,
        max_stake_amount: 1_000,
        lock_period: 86_400,
    }
}

fn fresh_position() -> UserStakingPosition {
    UserStakingPosition {
        owner: AccountId(0),
        global_staking_state: AccountId(0),
        staked_amount: 0,
        xleash_amount: 0,
        user_rewards_per_token: 0,
        pending_rewards: 0,
        staking_start_time: 0,
        last_claim_time: 0,
        is_locked: false,
        lock_end_time: 0,
    }
}

fn stake_accounts(pool: GlobalStakingState, amount: u64) -> Stake {
    Stake {
        global_staking_state: pool,
        user_staking_position: fresh_position(),
        pool_key: AccountId(100),
        user: AccountId(7),
        user_leash_balance: amount,
        amount,
    }
}

#[test]
fn initialize_zeroes_counters_and_stamps_time() {
    let pool = initialize(&valid_init(), 42).expect("parameters are valid");
    assert_eq!(pool.authority, AccountId(1));
    assert_eq!(pool.treasury, AccountId(4));
    assert_eq!(pool.reward_rate, 1_000);
    assert_eq!(pool.min_stake_amount, 100);
    assert_eq!(pool.max_stake_amount, 1_000);
    assert_eq!(pool.lock_period, 86_400);
    assert_eq!(pool.total_staked, 0);
    assert_eq!(pool.total_xleash_minted, 0);
    assert_eq!(pool.accumulated_rewards_per_token, 0);
    assert_eq!(pool.last_update_time, 42);
    assert_eq!(pool.total_rewards_distributed, 0);
    assert_eq!(pool.lp_fees_collected, 0);
    assert!(!pool.is_paused);
}

#[test]
fn initialize_rejects_bad_parameters() {
    let mut init = valid_init();
    init.reward_rate = 1_000_000_001;
    assert_eq!(initialize(&init, 0), Err(StakingError::InvalidRewardRate));

    init = valid_init();
    init.min_stake_amount = 0;
    assert_eq!(initialize(&init, 0), Err(StakingError::InvalidStakeAmount));

    init = valid_init();
    init.max_stake_amount = 99;
    assert_eq!(initialize(&init, 0), Err(StakingError::InvalidStakeAmount));

    init = valid_init();
    init.lock_period = 86_399;
    assert_eq!(initialize(&init, 0), Err(StakingError::InvalidStakeAmount));

    init = valid_init();
    init.lock_period = 126_144_001;
    assert_eq!(initialize(&init, 0), Err(StakingError::InvalidStakeAmount));

    // the extremes of every bound are still accepted
    init = valid_init();
    init.reward_rate = 1_000_000_000;
    init.lock_period = 126_144_000;
    assert!(initialize(&init, 0).is_ok());
}

#[test]
fn stake_creates_the_position_and_moves_the_totals() {
    let pool = initialize(&valid_init(), 0).expect("parameters are valid");
    let mut accounts = stake_accounts(pool, 600);
    let issued = stake(&mut accounts, 5).expect("stake inputs are valid");
    assert_eq!(issued, 600);
    assert_eq!(accounts.global_staking_state.total_staked, 600);
    assert_eq!(accounts.global_staking_state.total_xleash_minted, 600);
    let position = accounts.user_staking_position;
    assert_eq!(position.owner, AccountId(7));
    assert_eq!(position.global_staking_state, AccountId(100));
    assert_eq!(position.staked_amount, 600);
    assert_eq!(position.xleash_amount, 600);
    assert_eq!(position.staking_start_time, 5);
    assert!(!position.is_locked);
}

#[test]
fn stake_outside_the_bounds_is_rejected() {
    let pool = initialize(&valid_init(), 0).expect("parameters are valid");

    // below the minimum
    let mut accounts = stake_accounts(pool, 50);
    assert_eq!(stake(&mut accounts, 0), Err(StakingError::InvalidStakeAmount));
    assert_eq!(accounts.global_staking_state.total_staked, 0);

    // above the per-stake maximum
    accounts = stake_accounts(pool, 1_001);
    assert_eq!(stake(&mut accounts, 0), Err(StakingError::InvalidStakeAmount));
    assert_eq!(accounts.global_staking_state.total_staked, 0);

    // not covered by the participant's external balance
    accounts = stake_accounts(pool, 600);
    accounts.user_leash_balance = 599;
    assert_eq!(stake(&mut accounts, 0), Err(StakingError::InsufficientBalance));

    // over the pool-wide capacity
    accounts = stake_accounts(pool, 600);
    stake(&mut accounts, 0).expect("first stake fits");
    let mut second = stake_accounts(accounts.global_staking_state, 600);
    second.user = AccountId(8);
    assert_eq!(stake(&mut second, 0), Err(StakingError::StakingPoolFull));
    assert_eq!(second.global_staking_state.total_staked, 600);
}

#[test]
fn stake_reports_overflow_of_the_pool_total() {
    let mut pool = initialize(&valid_init(), 0).expect("parameters are valid");
    pool.max_stake_amount = u64::MAX;
    pool.total_staked = u64::MAX - 100;
    let mut accounts = stake_accounts(pool, 101);
    assert_eq!(stake(&mut accounts, 0), Err(StakingError::MathOverflow));
    assert_eq!(accounts.global_staking_state.total_staked, u64::MAX - 100);
}

#[test]
fn unstake_returns_principal_and_lowers_the_totals() {
    let pool = initialize(&valid_init(), 0).expect("parameters are valid");
    let mut staked = stake_accounts(pool, 600);
    stake(&mut staked, 0).expect("stake inputs are valid");

    let mut accounts = Unstake {
        global_staking_state: staked.global_staking_state,
        user_staking_position: staked.user_staking_position,
        user_xleash_balance: 600,
        amount: 250,
    };
    let returned = unstake(&mut accounts, 10).expect("unstake inputs are valid");
    assert_eq!(returned, 250);
    assert_eq!(accounts.global_staking_state.total_staked, 350);
    assert_eq!(accounts.global_staking_state.total_xleash_minted, 350);
    assert_eq!(accounts.user_staking_position.staked_amount, 350);
    assert_eq!(accounts.user_staking_position.xleash_amount, 350);
}

#[test]
fn unstake_without_cover_is_rejected() {
    let pool = initialize(&valid_init(), 0).expect("parameters are valid");
    let mut staked = stake_accounts(pool, 600);
    stake(&mut staked, 0).expect("stake inputs are valid");

    // a zero amount
    let mut accounts = Unstake {
        global_staking_state: staked.global_staking_state,
        user_staking_position: staked.user_staking_position,
        user_xleash_balance: 600,
        amount: 0,
    };
    assert_eq!(unstake(&mut accounts, 1), Err(StakingError::InvalidStakeAmount));

    // more than the participant's receipt balance
    accounts.amount = 601;
    assert_eq!(unstake(&mut accounts, 1), Err(StakingError::InsufficientBalance));

    // receipt balance covers it, the recorded stake does not
    accounts.amount = 500;
    accounts.user_staking_position.staked_amount = 400;
    assert_eq!(unstake(&mut accounts, 1), Err(StakingError::InsufficientBalance));
    assert_eq!(accounts.global_staking_state.total_staked, 600);
}

#[test]
fn lock_window_blocks_unstake_until_it_ends() {
    let pool = initialize(&valid_init(), 0).expect("parameters are valid");
    let mut staked = stake_accounts(pool, 500);
    stake(&mut staked, 0).expect("stake inputs are valid");

    // a locked position with the lock ending at t=86400
    let mut position = staked.user_staking_position;
    position.is_locked = true;
    position.lock_end_time = 86_400;

    let mut accounts = Unstake {
        global_staking_state: staked.global_staking_state,
        user_staking_position: position,
        user_xleash_balance: 500,
        amount: 500,
    };
    let blocked = unstake(&mut accounts, 100);
    assert_eq!(blocked, Err(StakingError::LockPeriodNotMet));
    assert_eq!(accounts.user_staking_position.staked_amount, 500);
    assert_eq!(accounts.global_staking_state.total_staked, 500);

    // at the end of the window the same withdrawal goes through
    let returned = unstake(&mut accounts, 86_400).expect("lock has ended");
    assert_eq!(returned, 500);
    assert_eq!(accounts.user_staking_position.staked_amount, 0);
    assert_eq!(accounts.global_staking_state.total_staked, 0);
}

#[test]
fn paused_pool_refuses_the_participant_operations() {
    let pool = initialize(&valid_init(), 0).expect("parameters are valid");
    let mut pause = EmergencyPause {
        global_staking_state: pool,
        authority: AccountId(1),
    };
    emergency_pause(&mut pause, true).expect("authority may pause");
    let paused = pause.global_staking_state;
    assert!(paused.is_paused);

    let mut staking = stake_accounts(paused, 600);
    assert_eq!(stake(&mut staking, 0), Err(StakingError::StakingPaused));

    let mut unstaking = Unstake {
        global_staking_state: paused,
        user_staking_position: fresh_position(),
        user_xleash_balance: 600,
        amount: 100,
    };
    assert_eq!(unstake(&mut unstaking, 0), Err(StakingError::StakingPaused));

    let mut fees = DistributeLpFees {
        global_staking_state: paused,
    };
    assert_eq!(
        distribute_lp_fees(&mut fees, 10, 0),
        Err(StakingError::StakingPaused)
    );

    // resuming reopens the pool
    let mut resume = EmergencyPause {
        global_staking_state: paused,
        authority: AccountId(1),
    };
    emergency_pause(&mut resume, false).expect("authority may resume");
    assert!(!resume.global_staking_state.is_paused);
    let mut reopened = stake_accounts(resume.global_staking_state, 600);
    assert!(stake(&mut reopened, 0).is_ok());
}

#[test]
fn pause_requires_the_authority() {
    let pool = initialize(&valid_init(), 0).expect("parameters are valid");
    let mut pause = EmergencyPause {
        global_staking_state: pool,
        authority: AccountId(99),
    };
    assert_eq!(
        emergency_pause(&mut pause, true),
        Err(StakingError::Unauthorized)
    );
    assert!(!pause.global_staking_state.is_paused);
}

#[test]
fn update_params_requires_the_authority_and_revalidates() {
    let pool = initialize(&valid_init(), 0).expect("parameters are valid");

    let mut wrong_caller = UpdateStakingParams {
        global_staking_state: pool,
        authority: AccountId(99),
    };
    assert_eq!(
        update_staking_params(&mut wrong_caller, Some(5), None, None, None, 0),
        Err(StakingError::Unauthorized)
    );
    assert_eq!(wrong_caller.global_staking_state.reward_rate, 1_000);

    let mut accounts = UpdateStakingParams {
        global_staking_state: pool,
        authority: AccountId(1),
    };
    assert_eq!(
        update_staking_params(&mut accounts, Some(1_000_000_001), None, None, None, 0),
        Err(StakingError::InvalidRewardRate)
    );
    assert_eq!(
        update_staking_params(&mut accounts, None, Some(0), None, None, 0),
        Err(StakingError::InvalidStakeAmount)
    );
    // a new minimum above the unchanged maximum is caught against the
    // merged parameter set
    assert_eq!(
        update_staking_params(&mut accounts, None, Some(2_000), None, None, 0),
        Err(StakingError::InvalidStakeAmount)
    );
    assert_eq!(
        update_staking_params(&mut accounts, None, None, None, Some(10), 0),
        Err(StakingError::InvalidStakeAmount)
    );
    assert_eq!(accounts.global_staking_state, pool);

    update_staking_params(&mut accounts, Some(2_000), None, Some(5_000), Some(100_000), 7)
        .expect("merged parameters are valid");
    let updated = accounts.global_staking_state;
    assert_eq!(updated.reward_rate, 2_000);
    assert_eq!(updated.min_stake_amount, 100);
    assert_eq!(updated.max_stake_amount, 5_000);
    assert_eq!(updated.lock_period, 100_000);
    assert_eq!(updated.last_update_time, 7);
}

#[test]
fn update_params_settles_accrual_under_the_old_rate() {
    let pool = initialize(&valid_init(), 0).expect("parameters are valid");
    let mut staked = stake_accounts(pool, 600);
    stake(&mut staked, 0).expect("stake inputs are valid");

    let mut accounts = UpdateStakingParams {
        global_staking_state: staked.global_staking_state,
        authority: AccountId(1),
    };
    // 100 seconds at the old rate of 1000 ticks, then the rate drops to 1
    update_staking_params(&mut accounts, Some(1), None, None, None, 100)
        .expect("merged parameters are valid");
    assert_eq!(
        accounts.global_staking_state.accumulated_rewards_per_token,
        100_000
    );
    // from here on only the new rate accrues
    let mut later = accounts.global_staking_state;
    later.update_rewards(200);
    assert_eq!(later.accumulated_rewards_per_token, 100_100);
}

#[test]
fn distribute_fees_accrues_and_counts() {
    let pool = initialize(&valid_init(), 0).expect("parameters are valid");
    let mut accounts = DistributeLpFees {
        global_staking_state: pool,
    };
    assert_eq!(
        distribute_lp_fees(&mut accounts, 0, 5),
        Err(StakingError::InvalidLpFeeDistribution)
    );
    assert_eq!(accounts.global_staking_state.lp_fees_collected, 0);

    distribute_lp_fees(&mut accounts, 250, 5).expect("a positive amount");
    assert_eq!(accounts.global_staking_state.lp_fees_collected, 250);
    assert_eq!(accounts.global_staking_state.last_update_time, 5);

    accounts.global_staking_state.lp_fees_collected = u64::MAX;
    assert_eq!(
        distribute_lp_fees(&mut accounts, 1, 6),
        Err(StakingError::MathOverflow)
    );
    assert_eq!(accounts.global_staking_state.lp_fees_collected, u64::MAX);
}

#[test]
fn stats_report_live_totals_without_mutating() {
    let pool = initialize(&valid_init(), 0).expect("parameters are valid");
    let mut staked = stake_accounts(pool, 600);
    stake(&mut staked, 0).expect("stake inputs are valid");

    let accounts = GetStakingStats {
        global_staking_state: staked.global_staking_state,
        active_stakers: 1,
    };
    let stats = get_staking_stats(&accounts, 100).expect("the query cannot fail");
    assert_eq!(stats.total_staked, 600);
    assert_eq!(stats.total_xleash_minted, 600);
    assert_eq!(stats.reward_rate, 1_000);
    // the reported accumulator is advanced to the query time...
    assert_eq!(stats.accumulated_rewards_per_token, 100_000);
    assert_eq!(stats.active_stakers, 1);
    assert_eq!(stats.current_time, 100);
    assert!(!stats.is_paused);
    // ...but the record itself is not touched
    assert_eq!(accounts.global_staking_state.accumulated_rewards_per_token, 0);
    assert_eq!(accounts.global_staking_state.last_update_time, 0);
}

#[test]
fn pool_total_tracks_the_sum_of_positions() {
    let mut init = valid_init();
    init.max_stake_amount = 10_000;
    let pool = initialize(&init, 0).expect("parameters are valid");

    let mut a = stake_accounts(pool, 600);
    stake(&mut a, 0).expect("stake inputs are valid");
    let mut b = stake_accounts(a.global_staking_state, 900);
    b.user = AccountId(8);
    stake(&mut b, 0).expect("stake inputs are valid");

    let mut positions = [a.user_staking_position, b.user_staking_position];
    let mut pool_now = b.global_staking_state;
    let sum: u64 = positions.iter().map(|p| p.staked_amount).sum();
    assert_eq!(pool_now.total_staked, sum);

    // a partial withdrawal by one participant moves both sides equally
    let mut withdrawal = Unstake {
        global_staking_state: pool_now,
        user_staking_position: positions[0],
        user_xleash_balance: 600,
        amount: 200,
    };
    unstake(&mut withdrawal, 10).expect("unstake inputs are valid");
    positions[0] = withdrawal.user_staking_position;
    pool_now = withdrawal.global_staking_state;
    let sum: u64 = positions.iter().map(|p| p.staked_amount).sum();
    assert_eq!(pool_now.total_staked, sum);
    assert_eq!(pool_now.total_staked, 1_300);
}
