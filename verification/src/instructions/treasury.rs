//! The decisions of deposits and withdrawals: the checks against the player's state, the
//! circuit breaker and the treasury, and the bookkeeping once tokens move.
use vstd::prelude::*;
use crate::circuit_breaker::{TreasuryOperation, sat_sub, snapshot, treasury_operation_error, utilization_computable, validate_treasury_operation};
use crate::constants::MAX_WITHDRAWAL_AMOUNT;
use crate::error::{CrapsError, ProgramError};
use crate::keys::{Pubkey, keys_equal};
use crate::le_bytes::lemma_u64_roundtrip;
use crate::state::game::GlobalGameState;
use crate::state::player::ScalablePlayerState;
use crate::state::treasury::Treasury;

verus! {

/// Why a deposit is refused once its amount is valid: the player's tokens fall short,
/// the circuit breaker refuses it, the player state is another player's, or a counter
/// would overflow. The deposit is credited once to the balance.
pub open spec fn deposit_error(player_key: Pubkey, player: ScalablePlayerState, treasury: Treasury, amount: u64, player_token_balance: u64, current_slot: u64) -> Option<ProgramError> {
    if player_token_balance < amount {
        Some(ProgramError::Custom(CrapsError::InsufficientFunds))
    } else if treasury_operation_error(snapshot(treasury, current_slot), TreasuryOperation::Deposit, amount) is Some {
        Some(ProgramError::Custom(treasury_operation_error(snapshot(treasury, current_slot), TreasuryOperation::Deposit, amount)->0))
    } else if player.player@ != player_key@ {
        Some(ProgramError::Custom(CrapsError::InvalidPlayer))
    } else if player.balance_value() + amount > u64::MAX {
        Some(ProgramError::ArithmeticOverflow)
    } else if treasury.total_deposits_value() + amount > u64::MAX {
        Some(ProgramError::ArithmeticOverflow)
    } else {
        None
    }
}

/// Books a deposit of `amount` whose tokens the player holds: the balance grows by the
/// amount and the treasury's deposits with it; returns the new balance, the one the
/// deposit event reports. On an error nothing changes.
pub fn deposit_core(player_key: &Pubkey, player: &mut ScalablePlayerState, treasury: &mut Treasury, game_state: &GlobalGameState, amount: u64, player_token_balance: u64, current_slot: u64) -> (r: Result<u64, ProgramError>)
    requires
        player_token_balance >= amount ==> utilization_computable(snapshot(*old(treasury), current_slot)),
    ensures
        deposit_error(*player_key, *old(player), *old(treasury), amount, player_token_balance, current_slot) matches Some(e) ==> {
            &&& r == Err::<u64, ProgramError>(e)
            &&& *final(player) == *old(player)
            &&& *final(treasury) == *old(treasury)
        },
        deposit_error(*player_key, *old(player), *old(treasury), amount, player_token_balance, current_slot) is None ==> {
            &&& r == Ok::<u64, ProgramError>((old(player).balance_value() + amount) as u64)
            &&& *final(player) == (ScalablePlayerState { balance: final(player).balance, ..*old(player) })
            &&& final(player).balance_value() == old(player).balance_value() + amount
            &&& *final(treasury) == (Treasury { total_deposits: final(treasury).total_deposits, ..*old(treasury) })
            &&& final(treasury).total_deposits_value() == old(treasury).total_deposits_value() + amount
        },
{
    if player_token_balance < amount {
        return Err(ProgramError::Custom(CrapsError::InsufficientFunds));
    }
    match validate_treasury_operation(treasury, game_state, TreasuryOperation::Deposit, amount, current_slot) {
        Ok(()) => {},
        Err(e) => return Err(ProgramError::Custom(e)),
    }
    if !keys_equal(&player.player, player_key) {
        return Err(ProgramError::Custom(CrapsError::InvalidPlayer));
    }
    let new_balance = match player.get_balance().checked_add(amount) {
        Some(v) => v,
        None => return Err(ProgramError::ArithmeticOverflow),
    };
    let new_deposits = match treasury.get_total_deposits().checked_add(amount) {
        Some(v) => v,
        None => return Err(ProgramError::ArithmeticOverflow),
    };
    proof {
        lemma_u64_roundtrip(new_balance);
        lemma_u64_roundtrip(new_deposits);
    }
    player.set_balance(new_balance);
    treasury.set_total_deposits(new_deposits);
    Ok(new_balance)
}

/// Checks the amount of a withdrawal: not zero and within the withdrawal limit.
pub fn check_withdraw_amount(amount: u64) -> (r: Result<(), ProgramError>)
    ensures
        amount == 0 ==> r == Err::<(), ProgramError>(ProgramError::Custom(CrapsError::InvalidAmount)),
        amount > MAX_WITHDRAWAL_AMOUNT ==> r == Err::<(), ProgramError>(ProgramError::Custom(CrapsError::ExceedsWithdrawalLimit)),
        0 < amount <= MAX_WITHDRAWAL_AMOUNT ==> r == Ok::<(), ProgramError>(()),
{
    if amount == 0 {
        return Err(ProgramError::Custom(CrapsError::InvalidAmount));
    }
    if amount > MAX_WITHDRAWAL_AMOUNT {
        return Err(ProgramError::Custom(CrapsError::ExceedsWithdrawalLimit));
    }
    Ok(())
}

/// Why a withdrawal is refused once its amount is valid: the player state is another
/// player's, the balance falls short, the circuit breaker refuses it, the treasury's
/// deposits less withdrawals or its token account fall short, or a counter would
/// overflow. A withdrawal adds the amount to the balance record.
pub open spec fn withdraw_error(player_key: Pubkey, player: ScalablePlayerState, treasury: Treasury, amount: u64, treasury_token_balance: u64, current_slot: u64) -> Option<ProgramError> {
    if player.player@ != player_key@ {
        Some(ProgramError::Custom(CrapsError::InvalidPlayer))
    } else if player.balance_value() < amount {
        Some(ProgramError::Custom(CrapsError::InsufficientFunds))
    } else if treasury_operation_error(snapshot(treasury, current_slot), TreasuryOperation::Withdrawal, amount) is Some {
        Some(ProgramError::Custom(treasury_operation_error(snapshot(treasury, current_slot), TreasuryOperation::Withdrawal, amount)->0))
    } else if sat_sub(treasury.total_deposits_value(), treasury.total_withdrawals_value()) < amount {
        Some(ProgramError::Custom(CrapsError::InsufficientTreasuryFunds))
    } else if treasury_token_balance < amount {
        Some(ProgramError::Custom(CrapsError::InsufficientTreasuryFunds))
    } else if player.balance_value() + amount > u64::MAX {
        Some(ProgramError::ArithmeticOverflow)
    } else if treasury.total_withdrawals_value() + amount > u64::MAX {
        Some(ProgramError::ArithmeticOverflow)
    } else {
        None
    }
}

/// Books a withdrawal of `amount` against the player's state and the treasury: returns the
/// new balance. On an error nothing changes.
pub fn withdraw_core(player_key: &Pubkey, player: &mut ScalablePlayerState, treasury: &mut Treasury, game_state: &GlobalGameState, amount: u64, treasury_token_balance: u64, current_slot: u64) -> (r: Result<u64, ProgramError>)
    requires
        old(player).player@ == player_key@ && old(player).balance_value() >= amount ==> utilization_computable(
            snapshot(*old(treasury), current_slot),
        ),
    ensures
        withdraw_error(*player_key, *old(player), *old(treasury), amount, treasury_token_balance, current_slot) matches Some(e) ==> {
            &&& r == Err::<u64, ProgramError>(e)
            &&& *final(player) == *old(player)
            &&& *final(treasury) == *old(treasury)
        },
        withdraw_error(*player_key, *old(player), *old(treasury), amount, treasury_token_balance, current_slot) is None ==> {
            &&& r == Ok::<u64, ProgramError>((old(player).balance_value() + amount) as u64)
            &&& *final(player) == (ScalablePlayerState { balance: final(player).balance, ..*old(player) })
            &&& final(player).balance_value() == old(player).balance_value() + amount
            &&& *final(treasury) == (Treasury { total_withdrawals: final(treasury).total_withdrawals, ..*old(treasury) })
            &&& final(treasury).total_withdrawals_value() == old(treasury).total_withdrawals_value() + amount
        },
{
    if !keys_equal(&player.player, player_key) {
        return Err(ProgramError::Custom(CrapsError::InvalidPlayer));
    }
    let current_balance = player.get_balance();
    if current_balance < amount {
        return Err(ProgramError::Custom(CrapsError::InsufficientFunds));
    }
    match validate_treasury_operation(treasury, game_state, TreasuryOperation::Withdrawal, amount, current_slot) {
        Ok(()) => {},
        Err(e) => return Err(ProgramError::Custom(e)),
    }
    let total_deposits = treasury.get_total_deposits();
    let total_withdrawals = treasury.get_total_withdrawals();
    let available = total_deposits.saturating_sub(total_withdrawals);
    if available < amount {
        return Err(ProgramError::Custom(CrapsError::InsufficientTreasuryFunds));
    }
    if treasury_token_balance < amount {
        return Err(ProgramError::Custom(CrapsError::InsufficientTreasuryFunds));
    }
    let new_balance = match current_balance.checked_add(amount) {
        Some(v) => v,
        None => return Err(ProgramError::ArithmeticOverflow),
    };
    let new_total_withdrawals = match total_withdrawals.checked_add(amount) {
        Some(v) => v,
        None => return Err(ProgramError::ArithmeticOverflow),
    };
    proof {
        lemma_u64_roundtrip(new_balance);
        lemma_u64_roundtrip(new_total_withdrawals);
    }
    player.set_balance(new_balance);
    treasury.set_total_withdrawals(new_total_withdrawals);
    Ok(new_balance)
}

} // verus!
