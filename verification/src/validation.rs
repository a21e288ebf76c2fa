//! Validation of bet kinds, dice, amounts and the phase a bet may be placed in.
use vstd::prelude::*;
use crate::constants::{
    BET_BONUS_SMALL, BET_BONUS_SMALL_TALL, BET_BONUS_TALL, BET_COME, BET_DONT_COME, BET_DONT_PASS,
    BET_FIELD, BET_FIRE, BET_HOT_ROLLER, BET_NEXT_12, BET_NEXT_2, BET_NO_12, BET_NO_2,
    BET_ODDS_COME, BET_ODDS_DONT_COME, BET_ODDS_DONT_PASS, BET_ODDS_PASS, BET_PASS,
    BET_REPEATER_12, BET_REPEATER_2, BET_YES_12, BET_YES_2, CRAPS_THREE, CRAPS_TWELVE, CRAPS_TWO,
    DICE_MIN_VALUE, DICE_SIDES, MAX_BET_AMOUNT, MAX_DEPOSIT_AMOUNT, MAX_WITHDRAWAL_AMOUNT,
    MIN_BET_AMOUNT, NATURAL_ELEVEN, NATURAL_SEVEN, PHASE_COME_OUT, PHASE_POINT,
};
use crate::dice::{is_point_total, is_craps_total, is_natural_total};
use crate::error::{CrapsError, ProgramError};

verus! {

/// Validate a bet kind is one of the 64 kinds.
pub fn validate_bet_type(bet_type: u8) -> (r: Result<(), ProgramError>)
    ensures
        r is Ok <==> bet_type <= 63,
        r matches Err(e) ==> e == ProgramError::Custom(CrapsError::InvalidBetKind),
{
    if bet_type > BET_REPEATER_12 {
        return Err(ProgramError::Custom(CrapsError::InvalidBetKind));
    }
    Ok(())
}

/// Validate both dice are in 1..=6 and return their total.
pub fn validate_dice_roll(die1: u8, die2: u8) -> (r: Result<u8, ProgramError>)
    ensures
        r is Ok <==> 1 <= die1 <= 6 && 1 <= die2 <= 6,
        r matches Ok(t) ==> t == die1 + die2,
        r matches Err(e) ==> e == ProgramError::Custom(CrapsError::InvalidDiceTotal),
{
    if die1 < DICE_MIN_VALUE || die1 > DICE_SIDES {
        return Err(ProgramError::Custom(CrapsError::InvalidDiceTotal));
    }
    if die2 < DICE_MIN_VALUE || die2 > DICE_SIDES {
        return Err(ProgramError::Custom(CrapsError::InvalidDiceTotal));
    }
    let total = die1 + die2;
    if total < 2 || total > 12 {
        return Err(ProgramError::Custom(CrapsError::InvalidDiceTotal));
    }
    Ok(total)
}

/// The error, if any, of placing a bet of a kind in a phase with a point.
pub open spec fn bet_phase_error(bet_type: u8, game_phase: u8, current_point: u8) -> Option<CrapsError> {
    if bet_type == BET_PASS || bet_type == BET_DONT_PASS {
        if game_phase != PHASE_COME_OUT { Some(CrapsError::InvalidBetForPhase) } else { None }
    } else if bet_type == BET_COME || bet_type == BET_DONT_COME {
        if game_phase != PHASE_POINT || current_point == 0 {
            Some(CrapsError::InvalidBetForPhase)
        } else {
            None
        }
    } else if BET_ODDS_PASS <= bet_type <= BET_ODDS_DONT_COME {
        if game_phase != PHASE_POINT { Some(CrapsError::OddsBetRequiresBase) } else { None }
    } else if BET_BONUS_SMALL <= bet_type <= BET_BONUS_SMALL_TALL {
        if game_phase != PHASE_COME_OUT { Some(CrapsError::BonusOnlyComeOut) } else { None }
    } else if bet_type == BET_FIRE {
        if game_phase != PHASE_COME_OUT { Some(CrapsError::FireRequiresComeOut) } else { None }
    } else if bet_type == BET_HOT_ROLLER {
        if game_phase != PHASE_COME_OUT { Some(CrapsError::HotRollerRequiresComeOut) } else { None }
    } else if BET_REPEATER_2 <= bet_type <= BET_REPEATER_12 {
        if game_phase != PHASE_COME_OUT { Some(CrapsError::RepeaterRequiresComeOut) } else { None }
    } else {
        None
    }
}

/// Validate a bet may be placed in the current phase: line, bonus, fire, hot roller and repeater
/// bets only on the come-out, come bets and odds only once a point is set.
pub fn validate_bet_for_phase(bet_type: u8, game_phase: u8, current_point: u8) -> (r: Result<(), ProgramError>)
    ensures
        r is Ok <==> bet_phase_error(bet_type, game_phase, current_point) is None,
        r matches Err(e) ==> e == ProgramError::Custom(
            bet_phase_error(bet_type, game_phase, current_point)->0,
        ),
{
    if bet_type == BET_PASS || bet_type == BET_DONT_PASS {
        if game_phase != PHASE_COME_OUT {
            return Err(ProgramError::Custom(CrapsError::InvalidBetForPhase));
        }
    } else if bet_type == BET_COME || bet_type == BET_DONT_COME {
        if game_phase != PHASE_POINT || current_point == 0 {
            return Err(ProgramError::Custom(CrapsError::InvalidBetForPhase));
        }
    } else if bet_type == BET_ODDS_PASS || bet_type == BET_ODDS_DONT_PASS || bet_type == BET_ODDS_COME
        || bet_type == BET_ODDS_DONT_COME {
        if game_phase != PHASE_POINT {
            return Err(ProgramError::Custom(CrapsError::OddsBetRequiresBase));
        }
    } else if bet_type == BET_BONUS_SMALL || bet_type == BET_BONUS_TALL || bet_type
        == BET_BONUS_SMALL_TALL {
        if game_phase != PHASE_COME_OUT {
            return Err(ProgramError::Custom(CrapsError::BonusOnlyComeOut));
        }
    } else if bet_type == BET_FIRE {
        if game_phase != PHASE_COME_OUT {
            return Err(ProgramError::Custom(CrapsError::FireRequiresComeOut));
        }
    } else if bet_type == BET_HOT_ROLLER {
        if game_phase != PHASE_COME_OUT {
            return Err(ProgramError::Custom(CrapsError::HotRollerRequiresComeOut));
        }
    } else if bet_type >= BET_REPEATER_2 && bet_type <= BET_REPEATER_12 {
        if game_phase != PHASE_COME_OUT {
            return Err(ProgramError::Custom(CrapsError::RepeaterRequiresComeOut));
        }
    }
    Ok(())
}

/// Check if a number is a valid point (4, 5, 6, 8, 9, 10).
pub fn is_valid_point(num: u8) -> (r: bool)
    ensures
        r <==> is_point_total(num as int),
{
    num == 4 || num == 5 || num == 6 || num == 8 || num == 9 || num == 10
}

/// Check if a total is a natural (7 or 11).
pub fn is_natural(total: u8) -> (r: bool)
    ensures
        r <==> is_natural_total(total as int),
{
    total == NATURAL_SEVEN || total == NATURAL_ELEVEN
}

/// Check if a total is craps (2, 3 or 12).
pub fn is_craps(total: u8) -> (r: bool)
    ensures
        r <==> is_craps_total(total as int),
{
    total == CRAPS_TWO || total == CRAPS_THREE || total == CRAPS_TWELVE
}

/// Check if the dice show the same value.
pub fn is_hard_way(die1: u8, die2: u8) -> (r: bool)
    ensures
        r <==> die1 == die2,
{
    die1 == die2
}

/// Validate a bet amount is within the bet limits.
pub fn validate_bet_amount(amount: u64) -> (r: Result<(), ProgramError>)
    ensures
        r is Ok <==> MIN_BET_AMOUNT <= amount <= MAX_BET_AMOUNT,
        r matches Err(e) ==> e == ProgramError::Custom(CrapsError::InvalidBetAmount),
{
    if amount < MIN_BET_AMOUNT || amount > MAX_BET_AMOUNT {
        return Err(ProgramError::Custom(CrapsError::InvalidBetAmount));
    }
    Ok(())
}

/// Validate a deposit amount is positive and within the deposit limit.
pub fn validate_deposit_amount(amount: u64) -> (r: Result<(), ProgramError>)
    ensures
        r is Ok <==> 0 < amount <= MAX_DEPOSIT_AMOUNT,
        r matches Err(e) ==> e == ProgramError::Custom(CrapsError::InvalidDepositAmount),
{
    if amount == 0 || amount > MAX_DEPOSIT_AMOUNT {
        return Err(ProgramError::Custom(CrapsError::InvalidDepositAmount));
    }
    Ok(())
}

/// Validate a withdrawal: positive, within the limit, and covered by the balance.
pub fn validate_withdrawal_amount(amount: u64, balance: u64) -> (r: Result<(), ProgramError>)
    ensures
        amount == 0 ==> r == Err::<(), ProgramError>(
            ProgramError::Custom(CrapsError::InvalidWithdrawalAmount),
        ),
        amount != 0 && amount > MAX_WITHDRAWAL_AMOUNT ==> r == Err::<(), ProgramError>(
            ProgramError::Custom(CrapsError::WithdrawalExceedsLimit),
        ),
        amount != 0 && amount <= MAX_WITHDRAWAL_AMOUNT && amount > balance ==> r == Err::<
            (),
            ProgramError,
        >(ProgramError::Custom(CrapsError::InsufficientBalance)),
        r is Ok <==> 0 < amount <= MAX_WITHDRAWAL_AMOUNT && amount <= balance,
{
    if amount == 0 {
        return Err(ProgramError::Custom(CrapsError::InvalidWithdrawalAmount));
    }
    if amount > MAX_WITHDRAWAL_AMOUNT {
        return Err(ProgramError::Custom(CrapsError::WithdrawalExceedsLimit));
    }
    if amount > balance {
        return Err(ProgramError::Custom(CrapsError::InsufficientBalance));
    }
    Ok(())
}

/// The number a bet of a family targets: the kind's offset from the family's first kind
/// mapped onto the family's numbers.
pub open spec fn family_target(offset: int, with_seven: bool) -> u8 {
    if with_seven {
        (offset + 2) as u8
    } else if offset <= 4 {
        (offset + 2) as u8
    } else {
        (offset + 3) as u8
    }
}

/// The target number of a YES bet.
pub open spec fn spec_yes_target(bet_type: u8) -> Option<u8> {
    if BET_YES_2 <= bet_type <= BET_YES_12 {
        Some(family_target(bet_type - BET_YES_2, false))
    } else {
        None
    }
}

/// The target number of a NO bet.
pub open spec fn spec_no_target(bet_type: u8) -> Option<u8> {
    if BET_NO_2 <= bet_type <= BET_NO_12 {
        Some(family_target(bet_type - BET_NO_2, false))
    } else {
        None
    }
}

/// The target number of a NEXT bet.
pub open spec fn spec_next_target(bet_type: u8) -> Option<u8> {
    if BET_NEXT_2 <= bet_type <= BET_NEXT_12 {
        Some(family_target(bet_type - BET_NEXT_2, true))
    } else {
        None
    }
}

/// The target number of a REPEATER bet.
pub open spec fn spec_repeater_target(bet_type: u8) -> Option<u8> {
    if BET_REPEATER_2 <= bet_type <= BET_REPEATER_12 {
        Some(family_target(bet_type - BET_REPEATER_2, false))
    } else {
        None
    }
}

/// Get the target number of a YES bet.
pub fn get_yes_bet_target(bet_type: u8) -> (r: Option<u8>)
    ensures
        r == spec_yes_target(bet_type),
{
    match bet_type {
        5 => Some(2),
        6 => Some(3),
        7 => Some(4),
        8 => Some(5),
        9 => Some(6),
        10 => Some(8),
        11 => Some(9),
        12 => Some(10),
        13 => Some(11),
        14 => Some(12),
        _ => None,
    }
}

/// Get the target number of a NO bet.
pub fn get_no_bet_target(bet_type: u8) -> (r: Option<u8>)
    ensures
        r == spec_no_target(bet_type),
{
    match bet_type {
        15 => Some(2),
        16 => Some(3),
        17 => Some(4),
        18 => Some(5),
        19 => Some(6),
        20 => Some(8),
        21 => Some(9),
        22 => Some(10),
        23 => Some(11),
        24 => Some(12),
        _ => None,
    }
}

/// Get the target number of a NEXT bet.
pub fn get_next_bet_target(bet_type: u8) -> (r: Option<u8>)
    ensures
        r == spec_next_target(bet_type),
{
    match bet_type {
        43 => Some(2),
        44 => Some(3),
        45 => Some(4),
        46 => Some(5),
        47 => Some(6),
        48 => Some(7),
        49 => Some(8),
        50 => Some(9),
        51 => Some(10),
        52 => Some(11),
        53 => Some(12),
        _ => None,
    }
}

/// Get the target number of a REPEATER bet.
pub fn get_repeater_bet_target(bet_type: u8) -> (r: Option<u8>)
    ensures
        r == spec_repeater_target(bet_type),
{
    match bet_type {
        54 => Some(2),
        55 => Some(3),
        56 => Some(4),
        57 => Some(5),
        58 => Some(6),
        59 => Some(8),
        60 => Some(9),
        61 => Some(10),
        62 => Some(11),
        63 => Some(12),
        _ => None,
    }
}

/// Check if a bet is a YES bet.
pub fn is_yes_bet(bet_type: u8) -> (r: bool)
    ensures
        r <==> BET_YES_2 <= bet_type <= BET_YES_12,
{
    bet_type >= BET_YES_2 && bet_type <= BET_YES_12
}

/// Check if a bet is a NO bet.
pub fn is_no_bet(bet_type: u8) -> (r: bool)
    ensures
        r <==> BET_NO_2 <= bet_type <= BET_NO_12,
{
    bet_type >= BET_NO_2 && bet_type <= BET_NO_12
}

/// Check if a bet is a NEXT bet.
pub fn is_next_bet(bet_type: u8) -> (r: bool)
    ensures
        r <==> BET_NEXT_2 <= bet_type <= BET_NEXT_12,
{
    bet_type >= BET_NEXT_2 && bet_type <= BET_NEXT_12
}

/// Check if a bet is a REPEATER bet.
pub fn is_repeater_bet(bet_type: u8) -> (r: bool)
    ensures
        r <==> BET_REPEATER_2 <= bet_type <= BET_REPEATER_12,
{
    bet_type >= BET_REPEATER_2 && bet_type <= BET_REPEATER_12
}

/// Check if a bet is an odds bet.
pub fn is_odds_bet(bet_type: u8) -> (r: bool)
    ensures
        r <==> BET_ODDS_PASS <= bet_type <= BET_ODDS_DONT_COME,
{
    bet_type == BET_ODDS_PASS || bet_type == BET_ODDS_DONT_PASS || bet_type == BET_ODDS_COME
        || bet_type == BET_ODDS_DONT_COME
}

/// Check if a bet is a bonus bet.
pub fn is_bonus_bet(bet_type: u8) -> (r: bool)
    ensures
        r <==> BET_BONUS_SMALL <= bet_type <= BET_BONUS_SMALL_TALL,
{
    bet_type == BET_BONUS_SMALL || bet_type == BET_BONUS_TALL || bet_type == BET_BONUS_SMALL_TALL
}

/// Check if a bet lasts more than one roll: all but the field and the NEXT bets.
pub fn is_multi_roll_bet(bet_type: u8) -> (r: bool)
    ensures
        r <==> !(bet_type == BET_FIELD || BET_NEXT_2 <= bet_type <= BET_NEXT_12),
{
    if bet_type == BET_FIELD || (bet_type >= BET_NEXT_2 && bet_type <= BET_NEXT_12) {
        false
    } else {
        true
    }
}

} // verus!
