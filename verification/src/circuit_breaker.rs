//! Limits that protect the treasury from being drained: per-operation caps, a reserve
//! kept back for emergencies, and a trip switch on high utilization.
use vstd::prelude::*;
use crate::constants::{
    EMERGENCY_RESERVE_RATIO, LIQUIDITY_THRESHOLD, MAX_DEPOSIT_AMOUNT, MAX_PAYOUT_RATIO,
    MAX_SINGLE_PAYOUT, MAX_WITHDRAWAL_AMOUNT, MIN_TREASURY_BALANCE,
};
use crate::error::{CrapsError, ProgramError};
use crate::state::game::GlobalGameState;
use crate::state::treasury::Treasury;

verus! {

/// `x * y`, or the largest `u64` where the product does not fit.
pub open spec fn sat_mul(x: u64, y: u64) -> u64 {
    if x * y > u64::MAX { u64::MAX } else { (x * y) as u64 }
}

/// `x - y`, or 0 where `y` is larger.
pub open spec fn sat_sub(x: u64, y: u64) -> u64 {
    if x < y { 0 } else { (x - y) as u64 }
}

/// `percent` percent of `x`, the product saturating before the division.
pub open spec fn percent_of(x: u64, percent: u8) -> u64 {
    (sat_mul(x, percent as u64) / 100) as u64
}

fn saturating_mul(x: u64, y: u64) -> (r: u64)
    ensures
        r == sat_mul(x, y),
{
    match x.checked_mul(y) {
        Some(v) => v,
        None => u64::MAX,
    }
}

fn percent(x: u64, p: u8) -> (r: u64)
    ensures
        r == percent_of(x, p),
{
    saturating_mul(x, p as u64) / 100
}

/// A snapshot of the treasury's figures that the limits are checked against.
#[derive(Debug, Clone, Copy, PartialEq, Eq, Structural)]
pub struct CircuitBreakerState {
    /// Slot of the snapshot.
    pub current_slot: u64,
    /// The treasury's balance (the available liquidity).
    pub treasury_balance: u64,
    /// Total deposits.
    pub total_deposits: u64,
    /// Total withdrawals.
    pub total_withdrawals: u64,
    /// Total payouts.
    pub total_payouts: u64,
    /// Deposits less withdrawals less payouts, never below 0.
    pub available_liquidity: u64,
}

/// An operation on the treasury.
#[derive(Debug, Clone, Copy, PartialEq, Eq, Structural)]
pub enum TreasuryOperation {
    Payout,
    Deposit,
    Withdrawal,
}

/// Whether the utilization of a snapshot can be computed without overflow.
pub open spec fn utilization_computable(cb: CircuitBreakerState) -> bool {
    cb.total_deposits > 0 ==> (cb.total_withdrawals + cb.total_payouts) * 100 <= u64::MAX
}

/// Withdrawals and payouts as a percentage of deposits, capped at 100; 0 without deposits.
pub open spec fn utilization(cb: CircuitBreakerState) -> int {
    if cb.total_deposits == 0 {
        0
    } else {
        let u = ((cb.total_withdrawals + cb.total_payouts) * 100) / (cb.total_deposits as int);
        if u > 100 { 100 } else { u }
    }
}

/// The part of the liquidity that may be spent: the liquidity less its emergency reserve.
pub open spec fn reserve_limit(cb: CircuitBreakerState) -> u64 {
    sat_sub(cb.available_liquidity, percent_of(cb.available_liquidity, EMERGENCY_RESERVE_RATIO))
}

/// The least of three amounts.
pub open spec fn min3(a: u64, b: u64, c: u64) -> u64 {
    let m = if b < a { b } else { a };
    if c < m { c } else { m }
}

/// The largest payout that meets every payout limit.
pub open spec fn max_safe_payout(cb: CircuitBreakerState) -> u64 {
    min3(MAX_SINGLE_PAYOUT, percent_of(cb.available_liquidity, MAX_PAYOUT_RATIO), reserve_limit(cb))
}

/// The largest withdrawal that meets every withdrawal limit.
pub open spec fn max_safe_withdrawal(cb: CircuitBreakerState) -> u64 {
    min3(MAX_WITHDRAWAL_AMOUNT, percent_of(cb.available_liquidity, LIQUIDITY_THRESHOLD), reserve_limit(cb))
}

/// The error a payout meets: above the single payout cap, above 80% of the liquidity, or
/// into the emergency reserve.
pub open spec fn payout_limit_error(cb: CircuitBreakerState, amount: u64) -> Option<CrapsError> {
    if amount > MAX_SINGLE_PAYOUT {
        Some(CrapsError::SinglePayoutTooLarge)
    } else if amount > percent_of(cb.available_liquidity, MAX_PAYOUT_RATIO) {
        Some(CrapsError::PayoutRatioExceeded)
    } else if amount > reserve_limit(cb) {
        Some(CrapsError::EmergencyReserveInsufficient)
    } else {
        None
    }
}

/// The error a withdrawal meets: above the withdrawal cap, above 90% of the liquidity, or
/// into the emergency reserve.
pub open spec fn withdrawal_limit_error(cb: CircuitBreakerState, amount: u64) -> Option<CrapsError> {
    if amount > MAX_WITHDRAWAL_AMOUNT {
        Some(CrapsError::WithdrawalExceedsLimit)
    } else if amount > percent_of(cb.available_liquidity, LIQUIDITY_THRESHOLD) {
        Some(CrapsError::LiquidityThresholdExceeded)
    } else if amount > reserve_limit(cb) {
        Some(CrapsError::EmergencyReserveInsufficient)
    } else {
        None
    }
}

/// The error a healthy treasury does not meet: liquidity below the minimum, or
/// utilization above the threshold.
pub open spec fn health_error(cb: CircuitBreakerState) -> Option<CrapsError> {
    if cb.available_liquidity < MIN_TREASURY_BALANCE {
        Some(CrapsError::InsufficientTreasuryBalance)
    } else if cb.total_deposits > 0 && ((cb.total_withdrawals + cb.total_payouts) * 100) / (
    cb.total_deposits as int) > LIQUIDITY_THRESHOLD {
        Some(CrapsError::LiquidityThresholdExceeded)
    } else {
        None
    }
}

/// Whether the breaker trips: utilization above the threshold, or liquidity below its
/// own reserve.
pub open spec fn trips(cb: CircuitBreakerState) -> bool {
    utilization(cb) > LIQUIDITY_THRESHOLD || cb.available_liquidity < percent_of(cb.available_liquidity, EMERGENCY_RESERVE_RATIO)
}

/// The snapshot of a treasury at a slot.
pub open spec fn snapshot(treasury: Treasury, current_slot: u64) -> CircuitBreakerState {
    let d = treasury.total_deposits_value();
    let w = treasury.total_withdrawals_value();
    let p = treasury.total_payouts_value();
    let avail = sat_sub(sat_sub(d, w), p);
    CircuitBreakerState {
        current_slot,
        treasury_balance: avail,
        total_deposits: d,
        total_withdrawals: w,
        total_payouts: p,
        available_liquidity: avail,
    }
}

impl CircuitBreakerState {
    /// Takes a snapshot of the treasury at `current_slot`.
    pub fn new(treasury: &Treasury, _game_state: &GlobalGameState, current_slot: u64) -> (r: Result<Self, ProgramError>)
        ensures
            r == Ok::<Self, ProgramError>(snapshot(*treasury, current_slot)),
    {
        let total_deposits = treasury.get_total_deposits();
        let total_withdrawals = treasury.get_total_withdrawals();
        let total_payouts = treasury.get_total_payouts();
        let available_liquidity = total_deposits.saturating_sub(total_withdrawals).saturating_sub(total_payouts);
        Ok(CircuitBreakerState {
            current_slot,
            treasury_balance: available_liquidity,
            total_deposits,
            total_withdrawals,
            total_payouts,
            available_liquidity,
        })
    }

    /// Checks a payout against the limits.
    pub fn check_payout_limits(&self, payout_amount: u64) -> (r: Result<(), CrapsError>)
        ensures
            payout_limit_error(*self, payout_amount) matches Some(e) ==> r == Err::<(), CrapsError>(e),
            payout_limit_error(*self, payout_amount) is None ==> r == Ok::<(), CrapsError>(()),
    {
        if payout_amount > MAX_SINGLE_PAYOUT {
            return Err(CrapsError::SinglePayoutTooLarge);
        }
        let max_payout = percent(self.available_liquidity, MAX_PAYOUT_RATIO);
        if payout_amount > max_payout {
            return Err(CrapsError::PayoutRatioExceeded);
        }
        let emergency_reserve = percent(self.available_liquidity, EMERGENCY_RESERVE_RATIO);
        if payout_amount > self.available_liquidity.saturating_sub(emergency_reserve) {
            return Err(CrapsError::EmergencyReserveInsufficient);
        }
        Ok(())
    }

    /// Checks a deposit against the deposit cap.
    pub fn check_deposit_limits(&self, deposit_amount: u64) -> (r: Result<(), CrapsError>)
        ensures
            deposit_amount > MAX_DEPOSIT_AMOUNT ==> r == Err::<(), CrapsError>(CrapsError::DepositExceedsLimit),
            deposit_amount <= MAX_DEPOSIT_AMOUNT ==> r == Ok::<(), CrapsError>(()),
    {
        if deposit_amount > MAX_DEPOSIT_AMOUNT {
            return Err(CrapsError::DepositExceedsLimit);
        }
        Ok(())
    }

    /// Checks a withdrawal against the limits.
    pub fn check_withdrawal_limits(&self, withdrawal_amount: u64) -> (r: Result<(), CrapsError>)
        ensures
            withdrawal_limit_error(*self, withdrawal_amount) matches Some(e) ==> r == Err::<(), CrapsError>(e),
            withdrawal_limit_error(*self, withdrawal_amount) is None ==> r == Ok::<(), CrapsError>(()),
    {
        if withdrawal_amount > MAX_WITHDRAWAL_AMOUNT {
            return Err(CrapsError::WithdrawalExceedsLimit);
        }
        let liquidity_threshold = percent(self.available_liquidity, LIQUIDITY_THRESHOLD);
        if withdrawal_amount > liquidity_threshold {
            return Err(CrapsError::LiquidityThresholdExceeded);
        }
        let emergency_reserve = percent(self.available_liquidity, EMERGENCY_RESERVE_RATIO);
        if withdrawal_amount > self.available_liquidity.saturating_sub(emergency_reserve) {
            return Err(CrapsError::EmergencyReserveInsufficient);
        }
        Ok(())
    }

    /// Checks that the treasury holds its minimum and is not over-committed.
    pub fn check_treasury_health(&self) -> (r: Result<(), CrapsError>)
        requires
            self.available_liquidity >= MIN_TREASURY_BALANCE ==> self.total_withdrawals + self.total_payouts <= u64::MAX,
            self.available_liquidity >= MIN_TREASURY_BALANCE ==> utilization_computable(*self),
        ensures
            health_error(*self) matches Some(e) ==> r == Err::<(), CrapsError>(e),
            health_error(*self) is None ==> r == Ok::<(), CrapsError>(()),
    {
        if self.available_liquidity < MIN_TREASURY_BALANCE {
            return Err(CrapsError::InsufficientTreasuryBalance);
        }
        let total_committed = self.total_withdrawals + self.total_payouts;
        let utilization_ratio = if self.total_deposits > 0 {
            (total_committed * 100) / self.total_deposits
        } else {
            0
        };
        if utilization_ratio > LIQUIDITY_THRESHOLD as u64 {
            return Err(CrapsError::LiquidityThresholdExceeded);
        }
        Ok(())
    }

    /// Withdrawals and payouts as a percentage of deposits, capped at 100.
    pub fn get_liquidity_utilization(&self) -> (r: u8)
        requires
            utilization_computable(*self),
        ensures
            r == utilization(*self),
    {
        if self.total_deposits == 0 {
            return 0;
        }
        let total_committed = self.total_withdrawals + self.total_payouts;
        let utilization = (total_committed * 100) / self.total_deposits;
        if utilization < 100 {
            utilization as u8
        } else {
            100
        }
    }

    /// Whether the circuit breaker trips.
    pub fn should_trip(&self) -> (r: bool)
        requires
            utilization_computable(*self),
        ensures
            r == trips(*self),
    {
        if self.get_liquidity_utilization() > LIQUIDITY_THRESHOLD {
            return true;
        }
        let emergency_reserve = percent(self.available_liquidity, EMERGENCY_RESERVE_RATIO);
        if self.available_liquidity < emergency_reserve {
            return true;
        }
        false
    }

    /// The largest payout that meets every payout limit.
    pub fn get_max_safe_payout(&self) -> (r: u64)
        ensures
            r == max_safe_payout(*self),
    {
        let ratio_limit = percent(self.available_liquidity, MAX_PAYOUT_RATIO);
        let emergency_reserve = percent(self.available_liquidity, EMERGENCY_RESERVE_RATIO);
        let reserve_limit = self.available_liquidity.saturating_sub(emergency_reserve);
        let a = if ratio_limit < MAX_SINGLE_PAYOUT { ratio_limit } else { MAX_SINGLE_PAYOUT };
        if reserve_limit < a { reserve_limit } else { a }
    }

    /// The largest withdrawal that meets every withdrawal limit.
    pub fn get_max_safe_withdrawal(&self) -> (r: u64)
        ensures
            r == max_safe_withdrawal(*self),
    {
        let liquidity_limit = percent(self.available_liquidity, LIQUIDITY_THRESHOLD);
        let emergency_reserve = percent(self.available_liquidity, EMERGENCY_RESERVE_RATIO);
        let reserve_limit = self.available_liquidity.saturating_sub(emergency_reserve);
        let a = if liquidity_limit < MAX_WITHDRAWAL_AMOUNT { liquidity_limit } else { MAX_WITHDRAWAL_AMOUNT };
        if reserve_limit < a { reserve_limit } else { a }
    }
}

/// The error an operation of a kind and amount meets against the treasury's snapshot.
pub open spec fn treasury_operation_error(cb: CircuitBreakerState, operation_type: TreasuryOperation, amount: u64) -> Option<CrapsError> {
    if trips(cb) {
        Some(CrapsError::CircuitBreakerTripped)
    } else if health_error(cb) is Some {
        health_error(cb)
    } else {
        match operation_type {
            TreasuryOperation::Payout => payout_limit_error(cb, amount),
            TreasuryOperation::Deposit => if amount > MAX_DEPOSIT_AMOUNT {
                Some(CrapsError::DepositExceedsLimit)
            } else {
                None
            },
            TreasuryOperation::Withdrawal => withdrawal_limit_error(cb, amount),
        }
    }
}

/// Checks an operation on the treasury against the circuit breaker at `current_slot`.
pub fn validate_treasury_operation(treasury: &Treasury, game_state: &GlobalGameState, operation_type: TreasuryOperation, amount: u64, current_slot: u64) -> (r: Result<(), CrapsError>)
    requires
        utilization_computable(snapshot(*treasury, current_slot)),
    ensures
        treasury_operation_error(snapshot(*treasury, current_slot), operation_type, amount) matches Some(e) ==> r == Err::<(), CrapsError>(e),
        treasury_operation_error(snapshot(*treasury, current_slot), operation_type, amount) is None ==> r == Ok::<(), CrapsError>(()),
{
    let circuit_breaker = match CircuitBreakerState::new(treasury, game_state, current_slot) {
        Ok(cb) => cb,
        Err(_) => return Err(CrapsError::InvalidAccount),
    };
    if circuit_breaker.should_trip() {
        return Err(CrapsError::CircuitBreakerTripped);
    }
    match circuit_breaker.check_treasury_health() {
        Ok(()) => {},
        Err(e) => return Err(e),
    }
    match operation_type {
        TreasuryOperation::Payout => {
            match circuit_breaker.check_payout_limits(amount) {
                Ok(()) => {},
                Err(e) => return Err(e),
            }
        },
        TreasuryOperation::Deposit => {
            match circuit_breaker.check_deposit_limits(amount) {
                Ok(()) => {},
                Err(e) => return Err(e),
            }
        },
        TreasuryOperation::Withdrawal => {
            match circuit_breaker.check_withdrawal_limits(amount) {
                Ok(()) => {},
                Err(e) => return Err(e),
            }
        },
    }
    Ok(())
}

/// A payout passes the payout limits exactly when it is at most the largest safe payout.
pub proof fn lemma_payout_limits_match_max_safe_payout(cb: CircuitBreakerState, amount: u64)
    ensures
        payout_limit_error(cb, amount) is None <==> amount <= max_safe_payout(cb),
{
}

/// A withdrawal passes the withdrawal limits exactly when it is at most the largest safe
/// withdrawal.
pub proof fn lemma_withdrawal_limits_match_max_safe_withdrawal(cb: CircuitBreakerState, amount: u64)
    ensures
        withdrawal_limit_error(cb, amount) is None <==> amount <= max_safe_withdrawal(cb),
{
}

/// The emergency reserve never exceeds the liquidity, so the breaker trips only on
/// utilization above the threshold.
pub proof fn lemma_trips_only_on_utilization(cb: CircuitBreakerState)
    ensures
        trips(cb) <==> utilization(cb) > LIQUIDITY_THRESHOLD,
{
    let a = cb.available_liquidity;
    assert(sat_mul(a, 20) / 100 <= a) by (nonlinear_arith)
        requires
            sat_mul(a, 20) <= a * 20 || sat_mul(a, 20) == u64::MAX,
            sat_mul(a, 20) <= u64::MAX,
            a * 20 > u64::MAX ==> sat_mul(a, 20) == u64::MAX,
            a * 20 <= u64::MAX ==> sat_mul(a, 20) == a * 20,
    ;
}

} // verus!
