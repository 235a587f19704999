use revenue_engine::account::AccountId;
use revenue_engine::engine::EngineState;
use revenue_engine::errors::ErrorCode;

fn fresh_engine(staking_bps: u16, dao_bps: u16, dev_bps: u16) -> Result<EngineState, ErrorCode> {
    EngineState::initialize_engine_state(
        AccountId::new(1),
        staking_bps,
        dao_bps,
        dev_bps,
        AccountId::new(2),
        AccountId::new(3),
        AccountId::new(4),
        AccountId::new(5),
        AccountId::new(6),
    )
}

fn authority() -> AccountId {
    AccountId::new(1)
}

fn staking_program() -> AccountId {
    AccountId::new(6)
}

#[test]
fn initialize_accepts_ratios_up_to_the_whole() {
    let engine = fresh_engine(5000, 3000, 2000).unwrap();
    assert_eq!(engine.staking_ratio_bps, 5000);
    assert_eq!(engine.dao_ratio_bps, 3000);
    assert_eq!(engine.developer_ratio_bps, 2000);
    assert_eq!(engine.total_staked_amount, 0);
    assert_eq!(engine.reward_per_token_cumulative, 0);
    assert_eq!(engine.last_distribution_timestamp, 0);
    assert_eq!(engine.authority, AccountId::new(1));
    assert_eq!(engine.revenue_safe, AccountId::new(2));
    assert_eq!(engine.reward_pool_pda, AccountId::new(3));
    assert_eq!(engine.dao_treasury_pda, AccountId::new(4));
    assert_eq!(engine.developer_treasury_pda, AccountId::new(5));
    assert_eq!(engine.staking_program, AccountId::new(6));
    assert!(fresh_engine(10000, 0, 0).is_ok());
    assert!(fresh_engine(0, 0, 0).is_ok());
}

#[test]
fn initialize_rejects_ratios_beyond_the_whole() {
    assert_eq!(fresh_engine(5000, 3000, 2001), Err(ErrorCode::InvalidRatioSum));
    assert_eq!(fresh_engine(10001, 0, 0), Err(ErrorCode::InvalidRatioSum));
}

#[test]
fn initialize_rejects_ratio_sum_overflowing_checked_add() {
    assert_eq!(fresh_engine(65535, 1, 0), Err(ErrorCode::CalculationError));
    assert_eq!(fresh_engine(65535, 0, 65535), Err(ErrorCode::CalculationError));
}

#[test]
fn distribute_splits_by_the_example_ratios() {
    let mut engine = fresh_engine(5000, 3000, 2000).unwrap();
    let outcome = engine.distribute_revenue(1_000_000, 42).unwrap();
    assert_eq!(outcome.staker_share, 500_000);
    assert_eq!(outcome.dao_share, 300_000);
    assert_eq!(outcome.developer_share, 200_000);
    assert_eq!(outcome.remaining, 0);
    assert_eq!(engine.last_distribution_timestamp, 42);
}

#[test]
fn distribute_leaves_rounding_dust_in_the_safe() {
    let mut engine = fresh_engine(3333, 3333, 3333).unwrap();
    let outcome = engine.distribute_revenue(100, 1).unwrap();
    assert_eq!(outcome.staker_share, 33);
    assert_eq!(outcome.dao_share, 33);
    assert_eq!(outcome.developer_share, 33);
    assert_eq!(outcome.remaining, 1);
    let total: u64 = outcome.staker_share + outcome.dao_share + outcome.developer_share;
    assert!(total <= 100);
}

#[test]
fn distribute_on_empty_safe_is_a_noop() {
    let mut engine = fresh_engine(5000, 3000, 2000).unwrap();
    engine.distribute_revenue(1_000_000, 7).unwrap();
    let before = engine;
    // A second call that observes an emptied safe changes nothing.
    let outcome = engine.distribute_revenue(0, 99).unwrap();
    assert_eq!(outcome.staker_share, 0);
    assert_eq!(outcome.dao_share, 0);
    assert_eq!(outcome.developer_share, 0);
    assert_eq!(outcome.remaining, 0);
    assert_eq!(engine, before);
}

#[test]
fn distribute_with_no_staked_weight_parks_the_accumulator() {
    let mut engine = fresh_engine(5000, 3000, 2000).unwrap();
    assert_eq!(engine.total_staked_amount, 0);
    let outcome = engine.distribute_revenue(123_456_789, 5).unwrap();
    assert_eq!(outcome.staker_share, 61_728_394);
    assert_eq!(engine.reward_per_token_cumulative, 0);
}

#[test]
fn distribute_with_zero_staking_ratio_leaves_accumulator() {
    let mut engine = fresh_engine(0, 5000, 5000).unwrap();
    engine
        .increase_total_staked(staking_program(), 3)
        .unwrap();
    engine.distribute_revenue(1_000_000, 5).unwrap();
    assert_eq!(engine.reward_per_token_cumulative, 0);
}

#[test]
fn distribute_advances_accumulator_over_staked_weight() {
    let mut engine = fresh_engine(5000, 3000, 2000).unwrap();
    engine
        .increase_total_staked(staking_program(), 4)
        .unwrap();
    engine.distribute_revenue(2_000_000, 5).unwrap();
    // staker share 1,000,000 spread over 4 units at the 10^12 scale
    assert_eq!(engine.reward_per_token_cumulative, 250_000_000_000_000_000);
}

#[test]
fn distribute_fails_atomically_on_accumulator_overflow() {
    let mut engine = fresh_engine(5000, 3000, 2000).unwrap();
    engine
        .increase_total_staked(staking_program(), 1)
        .unwrap();
    engine.reward_per_token_cumulative = u128::MAX;
    let before = engine;
    assert_eq!(
        engine.distribute_revenue(1_000_000, 9),
        Err(ErrorCode::CalculationError)
    );
    assert_eq!(engine, before);
}

#[test]
fn increase_total_staked_rejects_unknown_callers() {
    let mut engine = fresh_engine(5000, 3000, 2000).unwrap();
    let before = engine;
    assert_eq!(
        engine.increase_total_staked(AccountId::new(999), 1),
        Err(ErrorCode::Unauthorized)
    );
    assert_eq!(engine, before);
    assert_eq!(engine.total_staked_amount, 0);
}

#[test]
fn decrease_total_staked_rejects_unknown_callers() {
    let mut engine = fresh_engine(5000, 3000, 2000).unwrap();
    engine.increase_total_staked(staking_program(), 2).unwrap();
    let before = engine;
    assert_eq!(
        engine.decrease_total_staked(AccountId::new(999), 1),
        Err(ErrorCode::Unauthorized)
    );
    assert_eq!(engine, before);
}

#[test]
fn total_staked_moves_only_by_the_trusted_caller() {
    let mut engine = fresh_engine(5000, 3000, 2000).unwrap();
    engine.increase_total_staked(staking_program(), 5).unwrap();
    assert_eq!(engine.total_staked_amount, 5);
    engine.decrease_total_staked(staking_program(), 2).unwrap();
    assert_eq!(engine.total_staked_amount, 3);
}

#[test]
fn increase_total_staked_checks_overflow() {
    let mut engine = fresh_engine(5000, 3000, 2000).unwrap();
    engine
        .increase_total_staked(staking_program(), u64::MAX)
        .unwrap();
    let before = engine;
    assert_eq!(
        engine.increase_total_staked(staking_program(), 1),
        Err(ErrorCode::CalculationError)
    );
    assert_eq!(engine, before);
}

#[test]
fn decrease_total_staked_checks_underflow() {
    let mut engine = fresh_engine(5000, 3000, 2000).unwrap();
    let before = engine;
    assert_eq!(
        engine.decrease_total_staked(staking_program(), 1),
        Err(ErrorCode::CalculationError)
    );
    assert_eq!(engine, before);
}

#[test]
fn update_ratios_replaces_all_three_atomically() {
    let mut engine = fresh_engine(5000, 3000, 2000).unwrap();
    engine.update_ratios(authority(), 1000, 2000, 3000).unwrap();
    assert_eq!(engine.staking_ratio_bps, 1000);
    assert_eq!(engine.dao_ratio_bps, 2000);
    assert_eq!(engine.developer_ratio_bps, 3000);
}

#[test]
fn update_ratios_rejects_non_authority() {
    let mut engine = fresh_engine(5000, 3000, 2000).unwrap();
    let before = engine;
    assert_eq!(
        engine.update_ratios(AccountId::new(77), 1, 2, 3),
        Err(ErrorCode::Unauthorized)
    );
    assert_eq!(engine, before);
}

#[test]
fn update_ratios_rejects_excessive_sums() {
    let mut engine = fresh_engine(5000, 3000, 2000).unwrap();
    let before = engine;
    assert_eq!(
        engine.update_ratios(authority(), 9000, 1000, 1),
        Err(ErrorCode::InvalidRatioSum)
    );
    assert_eq!(
        engine.update_ratios(authority(), 65535, 1000, 0),
        Err(ErrorCode::CalculationError)
    );
    assert_eq!(engine, before);
}
