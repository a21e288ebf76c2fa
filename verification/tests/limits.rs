use craps_pinocchio::circuit_breaker::{validate_treasury_operation, CircuitBreakerState, TreasuryOperation};
use craps_pinocchio::error::CrapsError;
use craps_pinocchio::state::game::GlobalGameState;
use craps_pinocchio::state::treasury::Treasury;

fn cb(deposits: u64, withdrawals: u64, payouts: u64) -> CircuitBreakerState {
    let avail = deposits.saturating_sub(withdrawals).saturating_sub(payouts);
    CircuitBreakerState {
        current_slot: 0,
        treasury_balance: avail,
        total_deposits: deposits,
        total_withdrawals: withdrawals,
        total_payouts: payouts,
        available_liquidity: avail,
    }
}

fn treasury(deposits: u64, withdrawals: u64, payouts: u64) -> Treasury {
    Treasury {
        authority: [0; 32],
        token_mint: [0; 32],
        vault: [0; 32],
        total_deposits: deposits.to_le_bytes(),
        total_withdrawals: withdrawals.to_le_bytes(),
        total_payouts: payouts.to_le_bytes(),
        total_bets_placed: [0; 8],
        total_bets_settled: [0; 8],
        last_update_slot: [0; 8],
        emergency_shutdown: 0,
        bump: 0,
        _padding: [0; 6],
    }
}

fn game() -> GlobalGameState {
    GlobalGameState {
        game_epoch: [0; 8],
        current_dice: 0,
        current_die1: 0,
        current_die2: 0,
        current_point: 0,
        game_phase: 0,
        _padding1: [0; 3],
        epoch_start_slot: [0; 8],
        next_roll_slot: [0; 8],
        shooter_established_epoch: [0; 8],
        total_active_bets: [0; 8],
        epoch_roll_count: [0; 4],
        _padding2: [0; 4],
        treasury: [0; 32],
        authority: [0; 32],
        rng_authority: [0; 32],
        crap_token_mint: [0; 32],
        dev_mode_enabled: 0,
        paused: 0,
        use_secure_rng: 0,
        bump: 0,
        _padding3: [0; 4],
    }
}

#[test]
fn snapshot_of_a_treasury() {
    let s = CircuitBreakerState::new(&treasury(1_000, 300, 800), &game(), 9).unwrap();
    assert_eq!(s.available_liquidity, 0);
    assert_eq!(s.current_slot, 9);
    let s = CircuitBreakerState::new(&treasury(1_000, 300, 200), &game(), 9).unwrap();
    assert_eq!(s.available_liquidity, 500);
    assert_eq!(s.treasury_balance, 500);
}

#[test]
fn payout_limits() {
    let s = cb(1_000_000, 0, 0);
    assert_eq!(s.get_max_safe_payout(), 800_000);
    assert_eq!(s.check_payout_limits(800_000), Ok(()));
    assert_eq!(s.check_payout_limits(800_001), Err(CrapsError::PayoutRatioExceeded));
    let huge = cb(1_000_000_000_000_000, 0, 0);
    assert_eq!(huge.get_max_safe_payout(), 50_000_000_000_000);
    assert_eq!(huge.check_payout_limits(50_000_000_000_001), Err(CrapsError::SinglePayoutTooLarge));
    let saturated = cb(u64::MAX, 0, 0);
    assert_eq!(saturated.check_payout_limits(1), Ok(()));
}

#[test]
fn withdrawal_and_deposit_limits() {
    let s = cb(1_000_000, 0, 0);
    assert_eq!(s.get_max_safe_withdrawal(), 800_000);
    assert_eq!(s.check_withdrawal_limits(800_000), Ok(()));
    assert_eq!(s.check_withdrawal_limits(850_000), Err(CrapsError::EmergencyReserveInsufficient));
    assert_eq!(s.check_withdrawal_limits(950_000), Err(CrapsError::LiquidityThresholdExceeded));
    assert_eq!(s.check_withdrawal_limits(100_000_000_000_001), Err(CrapsError::WithdrawalExceedsLimit));
    assert_eq!(s.check_deposit_limits(1_000_000_000_000_000), Ok(()));
    assert_eq!(s.check_deposit_limits(1_000_000_000_000_001), Err(CrapsError::DepositExceedsLimit));
}

#[test]
fn health_and_trips() {
    assert_eq!(cb(99_999_999_999, 0, 0).check_treasury_health(), Err(CrapsError::InsufficientTreasuryBalance));
    let committed = cb(2_000_000_000_000, 1_000_000_000_000, 850_000_000_000);
    assert_eq!(committed.get_liquidity_utilization(), 92);
    assert!(committed.should_trip());
    assert_eq!(committed.check_treasury_health(), Err(CrapsError::LiquidityThresholdExceeded));
    let fine = cb(2_000_000_000_000, 500_000_000_000, 0);
    assert_eq!(fine.get_liquidity_utilization(), 25);
    assert!(!fine.should_trip());
    assert_eq!(fine.check_treasury_health(), Ok(()));
    assert_eq!(cb(0, 0, 0).get_liquidity_utilization(), 0);
    assert_eq!(cb(100, 300, 0).get_liquidity_utilization(), 100);
}

#[test]
fn operations_against_the_breaker() {
    let g = game();
    let rich = treasury(1_000_000_000_000_000, 0, 0);
    assert_eq!(validate_treasury_operation(&rich, &g, TreasuryOperation::Deposit, 5, 0), Ok(()));
    assert_eq!(validate_treasury_operation(&rich, &g, TreasuryOperation::Payout, 5, 0), Ok(()));
    assert_eq!(
        validate_treasury_operation(&rich, &g, TreasuryOperation::Withdrawal, 100_000_000_000_001, 0),
        Err(CrapsError::WithdrawalExceedsLimit)
    );
    let drained = treasury(2_000_000_000_000, 1_000_000_000_000, 850_000_000_000);
    assert_eq!(
        validate_treasury_operation(&drained, &g, TreasuryOperation::Deposit, 5, 0),
        Err(CrapsError::CircuitBreakerTripped)
    );
    let poor = treasury(10, 0, 0);
    assert_eq!(
        validate_treasury_operation(&poor, &g, TreasuryOperation::Deposit, 5, 0),
        Err(CrapsError::InsufficientTreasuryBalance)
    );
}
