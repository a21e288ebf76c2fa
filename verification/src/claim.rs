//! Payouts of the 64 bet kinds against a roll, and the record of an epoch's outcome.
use vstd::prelude::*;
use vstd::bytes::*;
use crate::bet_encoding::{
    BetMetadata, decode_bet_from_batch, metadata_of, packed_at, spec_decode_amount,
};
use crate::keys::{Pubkey, keys_equal};
use crate::state::bet::{BetBatch, mask_bit};
use crate::state::player::ScalablePlayerState;
use crate::state::treasury::Treasury;
use crate::error::CrapsError;
use crate::le_bytes::{lemma_u16_roundtrip, lemma_u64_roundtrip};
use crate::validation::{
    get_yes_bet_target, get_no_bet_target, get_next_bet_target, get_repeater_bet_target,
    spec_yes_target, spec_no_target, spec_next_target, spec_repeater_target,
};
use crate::constants::PHASE_COME_OUT;
use crate::error::ProgramError;
use crate::le_bytes::read_u64;
use crate::state::bonus::{BonusState, ones_below, pass_win_slot};
use crate::dice::{is_craps_total, is_field_total, is_natural_total, is_point_total, spec_pass_odds};

verus! {

/// Instruction data of a claim.
#[derive(Clone, Copy)]
pub struct ClaimData {
    /// The epoch to claim payouts for.
    pub epoch: [u8; 8],
    /// Reserved.
    pub reserved: [u8; 8],
}

/// The outcome of an epoch, against which its bets are paid.
#[derive(Clone, Copy)]
pub struct EpochOutcome {
    /// The epoch number.
    pub epoch: [u8; 8],
    /// The dice of the roll.
    pub dice: [u8; 2],
    /// The game phase at the time of the roll.
    pub phase: u8,
    /// The point (0 on the come-out).
    pub point: u8,
    /// Non-zero once the outcome is resolved.
    pub resolved: u8,
    pub _padding: [u8; 3],
    /// Total payouts of the epoch.
    pub total_payouts: [u8; 8],
    /// Slot when the outcome was finalized.
    pub finalized_slot: [u8; 8],
    /// Reserved.
    pub _reserved: [u8; 32],
}

impl EpochOutcome {
    /// Length the program requires of an outcome account.
    pub const LEN: usize = 72;

    pub open spec fn epoch_value(&self) -> u64 {
        spec_u64_from_le_bytes(self.epoch@)
    }

    pub open spec fn total_payouts_value(&self) -> u64 {
        spec_u64_from_le_bytes(self.total_payouts@)
    }

    pub open spec fn finalized_slot_value(&self) -> u64 {
        spec_u64_from_le_bytes(self.finalized_slot@)
    }

    pub fn get_epoch(&self) -> (r: u64)
        ensures
            r == self.epoch_value(),
    {
        read_u64(&self.epoch)
    }

    pub fn get_total_payouts(&self) -> (r: u64)
        ensures
            r == self.total_payouts_value(),
    {
        read_u64(&self.total_payouts)
    }

    pub fn get_finalized_slot(&self) -> (r: u64)
        ensures
            r == self.finalized_slot_value(),
    {
        read_u64(&self.finalized_slot)
    }

    /// The total of the two dice.
    pub fn get_dice_total(&self) -> (r: u8)
        requires
            self.dice@[0] + self.dice@[1] <= u8::MAX,
        ensures
            r == self.dice@[0] + self.dice@[1],
    {
        self.dice[0] + self.dice[1]
    }
}

/// Whether a payout fits in 64 bits.
pub open spec fn fits(x: int) -> bool {
    x <= u64::MAX
}

/// Whether the roll ends a point phase with a seven.
pub open spec fn seven_out(dice_total: u8, phase: u8) -> bool {
    phase != PHASE_COME_OUT && dice_total == 7
}

// ---- Pass line and its relatives ----

/// Pass line: a natural wins on the come-out, the point wins after it; pays 2x.
pub open spec fn pass_line_value(amount: u64, dice_total: u8, phase: u8, point: u8) -> int {
    if phase == PHASE_COME_OUT {
        if dice_total == 7 || dice_total == 11 { 2 * amount } else { 0 }
    } else {
        if dice_total == point { 2 * amount } else { 0 }
    }
}

/// The pass line wins even money, returning twice its amount: on the come-out exactly on a
/// natural (craps and the point numbers pay nothing), and afterwards exactly when the point
/// is made (a seven pays nothing).
pub proof fn lemma_pass_line_wins(amount: u64, dice_total: u8, phase: u8, point: u8)
    ensures
        phase == PHASE_COME_OUT && is_natural_total(dice_total as int) ==> pass_line_value(amount, dice_total, phase, point)
            == 2 * amount,
        phase == PHASE_COME_OUT && !is_natural_total(dice_total as int) ==> pass_line_value(amount, dice_total, phase, point)
            == 0,
        phase != PHASE_COME_OUT && dice_total == point ==> pass_line_value(amount, dice_total, phase, point) == 2 * amount,
        phase != PHASE_COME_OUT && dice_total != point ==> pass_line_value(amount, dice_total, phase, point) == 0,
{
}

/// Evaluate a Pass Line bet.
pub fn evaluate_pass_line(amount: u64, dice_total: u8, phase: u8, point: u8) -> (r: Result<u64, ProgramError>)
    requires
        fits(pass_line_value(amount, dice_total, phase, point)),
    ensures
        r == Ok::<u64, ProgramError>(pass_line_value(amount, dice_total, phase, point) as u64),
{
    if phase == PHASE_COME_OUT {
        match dice_total {
            7 | 11 => Ok(amount * 2),
            2 | 3 | 12 => Ok(0),
            _ => Ok(0),
        }
    } else {
        if dice_total == point {
            Ok(amount * 2)
        } else if dice_total == 7 {
            Ok(0)
        } else {
            Ok(0)
        }
    }
}

/// Don't pass: 2 or 3 win and 12 pushes on the come-out; a seven wins after it.
pub open spec fn dont_pass_value(amount: u64, dice_total: u8, phase: u8, point: u8) -> int {
    if phase == PHASE_COME_OUT {
        if dice_total == 2 || dice_total == 3 {
            2 * amount
        } else if dice_total == 12 {
            amount as int
        } else {
            0
        }
    } else {
        if dice_total == 7 { 2 * amount } else { 0 }
    }
}

/// Don't pass on the come-out: 2 and 3 win even money (twice the amount back), 12 is a push
/// (the amount back), a natural or a point number pays nothing; afterwards a seven wins
/// even money and any other total pays nothing.
pub proof fn lemma_dont_pass_wins(amount: u64, dice_total: u8, phase: u8, point: u8)
    ensures
        phase == PHASE_COME_OUT && (dice_total == 2 || dice_total == 3) ==> dont_pass_value(amount, dice_total, phase, point)
            == 2 * amount,
        phase == PHASE_COME_OUT && dice_total == 12 ==> dont_pass_value(amount, dice_total, phase, point) == amount,
        phase == PHASE_COME_OUT && !is_craps_total(dice_total as int) ==> dont_pass_value(amount, dice_total, phase, point)
            == 0,
        phase != PHASE_COME_OUT && dice_total == 7 ==> dont_pass_value(amount, dice_total, phase, point) == 2 * amount,
        phase != PHASE_COME_OUT && dice_total != 7 ==> dont_pass_value(amount, dice_total, phase, point) == 0,
{
}

/// Evaluate a Don't Pass bet.
pub fn evaluate_dont_pass(amount: u64, dice_total: u8, phase: u8, point: u8) -> (r: Result<u64, ProgramError>)
    requires
        fits(dont_pass_value(amount, dice_total, phase, point)),
    ensures
        r == Ok::<u64, ProgramError>(dont_pass_value(amount, dice_total, phase, point) as u64),
{
    if phase == PHASE_COME_OUT {
        match dice_total {
            7 | 11 => Ok(0),
            2 | 3 => Ok(amount * 2),
            12 => Ok(amount),
            _ => Ok(0),
        }
    } else {
        if dice_total == 7 {
            Ok(amount * 2)
        } else if dice_total == point {
            Ok(0)
        } else {
            Ok(0)
        }
    }
}

/// Come: like the pass line on every roll; a natural pays 2x.
pub open spec fn come_value(amount: u64, dice_total: u8) -> int {
    if dice_total == 7 || dice_total == 11 { 2 * amount } else { 0 }
}

/// A Come bet wins exactly on a natural, 7 or 11, and then returns twice its amount;
/// on any other total it pays nothing.
pub proof fn lemma_come_pays_on_naturals(amount: u64, dice_total: u8)
    ensures
        is_natural_total(dice_total as int) ==> come_value(amount, dice_total) == 2 * amount,
        !is_natural_total(dice_total as int) ==> come_value(amount, dice_total) == 0,
        amount > 0 ==> (come_value(amount, dice_total) > 0 <==> is_natural_total(dice_total as int)),
{
}

/// Evaluate a Come bet.
pub fn evaluate_come(amount: u64, dice_total: u8, _phase: u8, _point: u8) -> (r: Result<u64, ProgramError>)
    requires
        fits(come_value(amount, dice_total)),
    ensures
        r == Ok::<u64, ProgramError>(come_value(amount, dice_total) as u64),
{
    match dice_total {
        7 | 11 => Ok(amount * 2),
        2 | 3 | 12 => Ok(0),
        _ => Ok(0),
    }
}

/// Don't come: like don't pass on every roll.
pub open spec fn dont_come_value(amount: u64, dice_total: u8) -> int {
    if dice_total == 2 || dice_total == 3 {
        2 * amount
    } else if dice_total == 12 {
        amount as int
    } else {
        0
    }
}

/// Don't come: 2 and 3 return twice the amount, 12 is a push returning the amount, and any
/// total that is not craps pays nothing.
pub proof fn lemma_dont_come_wins(amount: u64, dice_total: u8)
    ensures
        dice_total == 2 || dice_total == 3 ==> dont_come_value(amount, dice_total) == 2 * amount,
        dice_total == 12 ==> dont_come_value(amount, dice_total) == amount,
        !is_craps_total(dice_total as int) ==> dont_come_value(amount, dice_total) == 0,
{
}

/// Evaluate a Don't Come bet.
pub fn evaluate_dont_come(amount: u64, dice_total: u8, _phase: u8, _point: u8) -> (r: Result<u64, ProgramError>)
    requires
        fits(dont_come_value(amount, dice_total)),
    ensures
        r == Ok::<u64, ProgramError>(dont_come_value(amount, dice_total) as u64),
{
    match dice_total {
        7 | 11 => Ok(0),
        2 | 3 => Ok(amount * 2),
        12 => Ok(amount),
        _ => Ok(0),
    }
}

/// Field: 2 pays 3x, 12 pays 4x, 3, 4, 9, 10, 11 pay 2x.
pub open spec fn field_value(amount: u64, dice_total: u8) -> int {
    if dice_total == 2 {
        3 * amount
    } else if dice_total == 3 || dice_total == 4 || dice_total == 9 || dice_total == 10 || dice_total
        == 11 {
        2 * amount
    } else if dice_total == 12 {
        4 * amount
    } else {
        0
    }
}

/// A Field bet wins exactly on a field total, 2, 3, 4, 9, 10, 11 or 12: a 2 returns
/// three times the amount, a 12 four times, any other field total twice; the other
/// totals, 5 to 8, pay nothing.
pub proof fn lemma_field_pays_on_field_totals(amount: u64, dice_total: u8)
    ensures
        dice_total == 2 ==> field_value(amount, dice_total) == 3 * amount,
        dice_total == 12 ==> field_value(amount, dice_total) == 4 * amount,
        is_field_total(dice_total as int) && dice_total != 2 && dice_total != 12 ==> field_value(amount, dice_total)
            == 2 * amount,
        !is_field_total(dice_total as int) ==> field_value(amount, dice_total) == 0,
        amount > 0 ==> (field_value(amount, dice_total) > 0 <==> is_field_total(dice_total as int)),
{
}

/// Evaluate a Field bet.
pub fn evaluate_field(amount: u64, dice_total: u8) -> (r: Result<u64, ProgramError>)
    requires
        fits(field_value(amount, dice_total)),
    ensures
        r == Ok::<u64, ProgramError>(field_value(amount, dice_total) as u64),
{
    match dice_total {
        2 => Ok(amount * 3),
        3 | 4 | 9 | 10 | 11 => Ok(amount * 2),
        12 => Ok(amount * 4),
        _ => Ok(0),
    }
}

// ---- YES and NO bets ----

/// YES on a target hit: 2, 12 pay 7x; 3, 11 pay 4x; 4, 10 pay 3x; 5, 9 pay a + 3a/2;
/// 6, 8 pay a + 6a/5; any other target pays a.
pub open spec fn yes_value(amount: u64, dice_total: u8, target: u8) -> int {
    let a = amount as int;
    if dice_total != target {
        0
    } else if target == 2 || target == 12 {
        7 * a
    } else if target == 3 || target == 11 {
        4 * a
    } else if target == 4 || target == 10 {
        3 * a
    } else if target == 5 || target == 9 {
        a + (a * 3) / 2
    } else if target == 6 || target == 8 {
        a + (a * 6) / 5
    } else {
        a
    }
}

/// The arithmetic of a YES payout fits in 64 bits.
pub open spec fn yes_ok(amount: u64, dice_total: u8, target: u8) -> bool {
    dice_total == target ==> if target == 5 || target == 9 {
        fits(amount * 3)
    } else if target == 6 || target == 8 {
        fits(amount * 6)
    } else {
        fits(yes_value(amount, dice_total, target))
    }
}

/// A YES bet pays only when its target is rolled; on a point number it pays the true odds
/// of that number on top of the amount (the integer part of amount * num / den, for the
/// odds num : den of the point).
pub proof fn lemma_yes_pays_true_odds(amount: u64, dice_total: u8, target: u8)
    ensures
        dice_total != target ==> yes_value(amount, dice_total, target) == 0,
        dice_total == target && is_point_total(target as int) ==> yes_value(amount, dice_total, target) == amount
            + (amount * spec_pass_odds(target as int).0) as int / (spec_pass_odds(target as int).1 as int),
{
}

/// Evaluate a YES bet: the target before a 7.
pub fn evaluate_yes_bet(amount: u64, dice_total: u8, target: u8) -> (r: Result<u64, ProgramError>)
    requires
        yes_ok(amount, dice_total, target),
    ensures
        r == Ok::<u64, ProgramError>(yes_value(amount, dice_total, target) as u64),
{
    if dice_total == target {
        let payout: u64 = match target {
            2 | 12 => amount * 7,
            3 | 11 => amount * 4,
            4 | 10 => amount * 3,
            5 | 9 => amount + (amount * 3) / 2,
            6 | 8 => amount + (amount * 6) / 5,
            _ => amount,
        };
        Ok(payout)
    } else if dice_total == 7 {
        Ok(0)
    } else {
        Ok(0)
    }
}

/// NO on a seven: 2, 12 pay a + a/6; 3, 11 pay a + a/3; 4, 10 pay a + a/2; 5, 9 pay
/// a + 2a/3; 6, 8 pay a + 5a/6; any other target pays a.
pub open spec fn no_value(amount: u64, dice_total: u8, target: u8) -> int {
    let a = amount as int;
    if dice_total != 7 {
        0
    } else if target == 2 || target == 12 {
        a + a / 6
    } else if target == 3 || target == 11 {
        a + a / 3
    } else if target == 4 || target == 10 {
        a + a / 2
    } else if target == 5 || target == 9 {
        a + (a * 2) / 3
    } else if target == 6 || target == 8 {
        a + (a * 5) / 6
    } else {
        a
    }
}

/// The arithmetic of a NO payout fits in 64 bits.
pub open spec fn no_ok(amount: u64, dice_total: u8, target: u8) -> bool {
    dice_total == 7 ==> if target == 5 || target == 9 {
        fits(amount * 2)
    } else if target == 6 || target == 8 {
        fits(amount * 5)
    } else {
        fits(no_value(amount, dice_total, target))
    }
}

/// A NO bet pays only on a seven; against a point number it pays the inverse of that
/// number's true odds on top of the amount (amount * den / num for the odds num : den).
pub proof fn lemma_no_pays_inverse_odds(amount: u64, dice_total: u8, target: u8)
    ensures
        dice_total != 7 ==> no_value(amount, dice_total, target) == 0,
        dice_total == 7 && is_point_total(target as int) ==> no_value(amount, dice_total, target) == amount
            + (amount * spec_pass_odds(target as int).1) as int / (spec_pass_odds(target as int).0 as int),
{
}

/// Evaluate a NO bet: a 7 before the target.
pub fn evaluate_no_bet(amount: u64, dice_total: u8, target: u8) -> (r: Result<u64, ProgramError>)
    requires
        no_ok(amount, dice_total, target),
    ensures
        r == Ok::<u64, ProgramError>(no_value(amount, dice_total, target) as u64),
{
    if dice_total == 7 {
        let payout: u64 = match target {
            2 => amount + amount / 6,
            3 => amount + amount / 3,
            4 => amount + amount / 2,
            5 => amount + (amount * 2) / 3,
            6 => amount + (amount * 5) / 6,
            8 => amount + (amount * 5) / 6,
            9 => amount + (amount * 2) / 3,
            10 => amount + amount / 2,
            11 => amount + amount / 3,
            12 => amount + amount / 6,
            _ => amount,
        };
        Ok(payout)
    } else if dice_total == target {
        Ok(0)
    } else {
        Ok(0)
    }
}

// ---- Hard ways and odds ----

/// Hard way hit: 4, 10 pay 8x; 6, 8 pay 10x; any other target pays a.
pub open spec fn hard_way_value(amount: u64, dice_total: u8, target: u8, is_hard: bool) -> int {
    if dice_total == target && is_hard {
        if target == 4 || target == 10 {
            8 * amount
        } else if target == 6 || target == 8 {
            10 * amount
        } else {
            amount as int
        }
    } else {
        0
    }
}

/// A hard way pays only when its number comes up hard: hard 4 and hard 10 pay 7 to 1,
/// returning eight times the amount, hard 6 and hard 8 pay 9 to 1, returning ten times
/// it; the number rolled the easy way, or any other total, pays nothing.
pub proof fn lemma_hard_way_table(amount: u64, dice_total: u8, target: u8, is_hard: bool)
    ensures
        dice_total == target && is_hard && (target == 4 || target == 10) ==> hard_way_value(amount, dice_total, target, is_hard)
            == 8 * amount,
        dice_total == target && is_hard && (target == 6 || target == 8) ==> hard_way_value(amount, dice_total, target, is_hard)
            == 10 * amount,
        !(dice_total == target && is_hard) ==> hard_way_value(amount, dice_total, target, is_hard) == 0,
{
}

/// Evaluate a Hard Way bet.
pub fn evaluate_hard_way(amount: u64, dice_total: u8, target: u8, is_hard: bool) -> (r: Result<u64, ProgramError>)
    requires
        fits(hard_way_value(amount, dice_total, target, is_hard)),
    ensures
        r == Ok::<u64, ProgramError>(hard_way_value(amount, dice_total, target, is_hard) as u64),
{
    if dice_total == target && is_hard {
        let payout_multiplier: u64 = match target {
            4 => 8,
            6 => 10,
            8 => 10,
            10 => 8,
            _ => 1,
        };
        Ok(amount * payout_multiplier)
    } else if dice_total == target || dice_total == 7 {
        Ok(0)
    } else {
        Ok(0)
    }
}

/// Pass odds on the point made: 4, 10 pay 3x; 5, 9 pay a + 3a/2; 6, 8 pay a + 6a/5.
pub open spec fn odds_pass_value(amount: u64, dice_total: u8, phase: u8, point: u8) -> int {
    let a = amount as int;
    if phase != PHASE_COME_OUT && point != 0 && dice_total == point {
        if point == 4 || point == 10 {
            3 * a
        } else if point == 5 || point == 9 {
            a + (a * 3) / 2
        } else if point == 6 || point == 8 {
            a + (a * 6) / 5
        } else {
            a
        }
    } else {
        0
    }
}

/// The arithmetic of a pass odds payout fits in 64 bits.
pub open spec fn odds_pass_ok(amount: u64, dice_total: u8, phase: u8, point: u8) -> bool {
    (phase != PHASE_COME_OUT && point != 0 && dice_total == point) ==> if point == 5 || point == 9 {
        fits(amount * 3)
    } else if point == 6 || point == 8 {
        fits(amount * 6)
    } else {
        fits(odds_pass_value(amount, dice_total, phase, point))
    }
}

/// Pass odds pay only when a point phase ends with the point made, and then the true odds
/// of the point on top of the amount; on the come-out nothing is paid.
pub proof fn lemma_odds_pass_true_odds(amount: u64, dice_total: u8, phase: u8, point: u8)
    ensures
        phase == PHASE_COME_OUT || dice_total != point ==> odds_pass_value(amount, dice_total, phase, point) == 0,
        phase != PHASE_COME_OUT && dice_total == point && is_point_total(point as int) ==> odds_pass_value(
            amount,
            dice_total,
            phase,
            point,
        ) == amount + (amount * spec_pass_odds(point as int).0) as int / (spec_pass_odds(point as int).1 as int),
{
}

/// Evaluate an Odds Pass bet.
pub fn evaluate_odds_pass(amount: u64, dice_total: u8, phase: u8, point: u8) -> (r: Result<u64, ProgramError>)
    requires
        odds_pass_ok(amount, dice_total, phase, point),
    ensures
        r == Ok::<u64, ProgramError>(odds_pass_value(amount, dice_total, phase, point) as u64),
{
    if phase != PHASE_COME_OUT && point != 0 {
        if dice_total == point {
            let payout: u64 = match point {
                4 | 10 => amount * 3,
                5 | 9 => amount + (amount * 3) / 2,
                6 | 8 => amount + (amount * 6) / 5,
                _ => amount,
            };
            Ok(payout)
        } else if dice_total == 7 {
            Ok(0)
        } else {
            Ok(0)
        }
    } else {
        Ok(0)
    }
}

/// Don't pass odds on a seven-out: 4, 10 pay a + a/2; 5, 9 pay a + 2a/3; 6, 8 pay a + 5a/6.
pub open spec fn odds_dont_pass_value(amount: u64, dice_total: u8, phase: u8, point: u8) -> int {
    let a = amount as int;
    if phase != PHASE_COME_OUT && point != 0 && dice_total == 7 {
        if point == 4 || point == 10 {
            a + a / 2
        } else if point == 5 || point == 9 {
            a + (a * 2) / 3
        } else if point == 6 || point == 8 {
            a + (a * 5) / 6
        } else {
            a
        }
    } else {
        0
    }
}

/// The arithmetic of a don't pass odds payout fits in 64 bits.
pub open spec fn odds_dont_pass_ok(amount: u64, dice_total: u8, phase: u8, point: u8) -> bool {
    (phase != PHASE_COME_OUT && point != 0 && dice_total == 7) ==> if point == 5 || point == 9 {
        fits(amount * 2)
    } else if point == 6 || point == 8 {
        fits(amount * 5)
    } else {
        fits(odds_dont_pass_value(amount, dice_total, phase, point))
    }
}

/// Don't pass odds pay only on a seven-out, and then the inverse of the point's true odds
/// on top of the amount; on the come-out nothing is paid.
pub proof fn lemma_odds_dont_pass_inverse_odds(amount: u64, dice_total: u8, phase: u8, point: u8)
    ensures
        phase == PHASE_COME_OUT || dice_total != 7 ==> odds_dont_pass_value(amount, dice_total, phase, point) == 0,
        phase != PHASE_COME_OUT && dice_total == 7 && is_point_total(point as int) ==> odds_dont_pass_value(
            amount,
            dice_total,
            phase,
            point,
        ) == amount + (amount * spec_pass_odds(point as int).1) as int / (spec_pass_odds(point as int).0 as int),
{
}

/// Evaluate an Odds Don't Pass bet.
pub fn evaluate_odds_dont_pass(amount: u64, dice_total: u8, phase: u8, point: u8) -> (r: Result<u64, ProgramError>)
    requires
        odds_dont_pass_ok(amount, dice_total, phase, point),
    ensures
        r == Ok::<u64, ProgramError>(odds_dont_pass_value(amount, dice_total, phase, point) as u64),
{
    if phase != PHASE_COME_OUT && point != 0 {
        if dice_total == 7 {
            let payout: u64 = match point {
                4 | 10 => amount + amount / 2,
                5 | 9 => amount + (amount * 2) / 3,
                6 | 8 => amount + (amount * 5) / 6,
                _ => amount,
            };
            Ok(payout)
        } else if dice_total == point {
            Ok(0)
        } else {
            Ok(0)
        }
    } else {
        Ok(0)
    }
}

/// Evaluate an Odds Come bet: its come point is not tracked, so it pays nothing yet.
pub fn evaluate_odds_come(_amount: u64, _dice_total: u8, _phase: u8, _point: u8) -> (r: Result<u64, ProgramError>)
    ensures
        r == Ok::<u64, ProgramError>(0),
{
    Ok(0)
}

/// Evaluate an Odds Don't Come bet: its come point is not tracked, so it pays nothing yet.
pub fn evaluate_odds_dont_come(_amount: u64, _dice_total: u8, _phase: u8, _point: u8) -> (r: Result<u64, ProgramError>)
    ensures
        r == Ok::<u64, ProgramError>(0),
{
    Ok(0)
}

// ---- Bets settled at the seven-out from the bonus tracking ----

/// Hot roller multiplier at a seven-out by point numbers rolled: 2..=6 pay 5, 10, 20, 50, 200.
pub open spec fn hot_roller_mult(count: u8) -> int {
    if count == 6 {
        200
    } else if count == 5 {
        50
    } else if count == 4 {
        20
    } else if count == 3 {
        10
    } else if count == 2 {
        5
    } else {
        0
    }
}

/// Hot roller payout.
pub open spec fn hot_roller_value(amount: u64, dice_total: u8, phase: u8, bonus: BonusState) -> int {
    if seven_out(dice_total, phase) { hot_roller_mult(bonus.hot_roller_count) * amount } else { 0 }
}

/// Evaluate a Hot Roller bet.
pub fn evaluate_hot_roller(amount: u64, dice_total: u8, phase: u8, bonus: &BonusState) -> (r: Result<u64, ProgramError>)
    requires
        fits(hot_roller_value(amount, dice_total, phase, *bonus)),
    ensures
        r == Ok::<u64, ProgramError>(hot_roller_value(amount, dice_total, phase, *bonus) as u64),
{
    if phase != PHASE_COME_OUT && dice_total == 7 {
        let payout = match bonus.hot_roller_count {
            6 => amount * 200,
            5 => amount * 50,
            4 => amount * 20,
            3 => amount * 10,
            2 => amount * 5,
            _ => 0,
        };
        Ok(payout)
    } else {
        Ok(0)
    }
}

/// Fire multiplier by points won: 4, 5, 6 pay 25, 250, 1000.
pub open spec fn fire_mult(points: u8) -> int {
    if points == 4 {
        25
    } else if points == 5 {
        250
    } else if points == 6 {
        1000
    } else {
        0
    }
}

/// Fire bet payout.
pub open spec fn fire_value(amount: u64, dice_total: u8, phase: u8, bonus: BonusState) -> int {
    if seven_out(dice_total, phase) { fire_mult(bonus.fire_points) * amount } else { 0 }
}

/// Evaluate a Fire bet.
pub fn evaluate_fire_bet(amount: u64, dice_total: u8, phase: u8, bonus: &BonusState) -> (r: Result<u64, ProgramError>)
    requires
        fits(fire_value(amount, dice_total, phase, *bonus)),
    ensures
        r == Ok::<u64, ProgramError>(fire_value(amount, dice_total, phase, *bonus) as u64),
{
    if phase != PHASE_COME_OUT && dice_total == 7 {
        let payout = match bonus.fire_points {
            4 => amount * 25,
            5 => amount * 250,
            6 => amount * 1000,
            _ => 0,
        };
        Ok(payout)
    } else {
        Ok(0)
    }
}

/// Whether some double has been rolled at least twice.
pub open spec fn twice_hard_hit(bonus: BonusState) -> bool {
    exists|i: int| 0 <= i < 6 && #[trigger] bonus.doubles@[i] >= 2
}

/// Twice hard payout: 9x on any seven when some double came twice.
pub open spec fn twice_hard_value(amount: u64, dice_total: u8, bonus: BonusState) -> int {
    if dice_total == 7 && twice_hard_hit(bonus) { 9 * amount } else { 0 }
}

/// Evaluate a Twice Hard bet.
pub fn evaluate_twice_hard(amount: u64, dice_total: u8, is_hard: bool, bonus: &BonusState) -> (r: Result<u64, ProgramError>)
    requires
        fits(twice_hard_value(amount, dice_total, *bonus)),
    ensures
        r == Ok::<u64, ProgramError>(twice_hard_value(amount, dice_total, *bonus) as u64),
{
    if dice_total == 7 {
        if bonus.has_twice_hard() {
            Ok(amount * 9)
        } else {
            Ok(0)
        }
    } else if is_hard {
        Ok(0)
    } else {
        Ok(0)
    }
}

/// Ride line multiplier by pass wins in a row: 3..=10 pay 2, 3, 4, 5, 11, 16, 21, 31; 11+ pays 151.
pub open spec fn ride_line_mult(streak: u8) -> int {
    if streak == 3 {
        2
    } else if streak == 4 {
        3
    } else if streak == 5 {
        4
    } else if streak == 6 {
        5
    } else if streak == 7 {
        11
    } else if streak == 8 {
        16
    } else if streak == 9 {
        21
    } else if streak == 10 {
        31
    } else if streak >= 11 {
        151
    } else {
        0
    }
}

/// Ride line payout.
pub open spec fn ride_line_value(amount: u64, dice_total: u8, phase: u8, bonus: BonusState) -> int {
    if seven_out(dice_total, phase) { ride_line_mult(bonus.ride_line_streak) * amount } else { 0 }
}

/// Evaluate a Ride Line bet.
pub fn evaluate_ride_line(amount: u64, dice_total: u8, phase: u8, _point: u8, bonus: &BonusState) -> (r: Result<u64, ProgramError>)
    requires
        fits(ride_line_value(amount, dice_total, phase, *bonus)),
    ensures
        r == Ok::<u64, ProgramError>(ride_line_value(amount, dice_total, phase, *bonus) as u64),
{
    if phase != PHASE_COME_OUT && dice_total == 7 {
        let s = bonus.ride_line_streak;
        let payout = if s == 3 {
            amount * 2
        } else if s == 4 {
            amount * 3
        } else if s == 5 {
            amount * 4
        } else if s == 6 {
            amount * 5
        } else if s == 7 {
            amount * 11
        } else if s == 8 {
            amount * 16
        } else if s == 9 {
            amount * 21
        } else if s == 10 {
            amount * 31
        } else if s >= 11 {
            amount * 151
        } else {
            0
        };
        Ok(payout)
    } else {
        Ok(0)
    }
}

/// Muggsy's corner: a 7 pays 3x on the come-out and 4x after a point.
pub open spec fn muggsy_value(amount: u64, dice_total: u8, phase: u8) -> int {
    if dice_total == 7 {
        if phase == PHASE_COME_OUT { 3 * amount } else { 4 * amount }
    } else {
        0
    }
}

/// Evaluate a Muggsy's Corner bet.
pub fn evaluate_muggsy(amount: u64, dice_total: u8, phase: u8, _point: u8) -> (r: Result<u64, ProgramError>)
    requires
        fits(muggsy_value(amount, dice_total, phase)),
    ensures
        r == Ok::<u64, ProgramError>(muggsy_value(amount, dice_total, phase) as u64),
{
    if phase == PHASE_COME_OUT && dice_total == 7 {
        Ok(amount * 3)
    } else if phase != PHASE_COME_OUT && dice_total == 7 {
        Ok(amount * 4)
    } else {
        Ok(0)
    }
}

/// Bonus small payout: 37x at a seven-out when all small totals were rolled.
pub open spec fn bonus_small_value(amount: u64, dice_total: u8, phase: u8, bonus: BonusState) -> int {
    if seven_out(dice_total, phase) && bonus.small_rolled == 0x1f { 37 * amount } else { 0 }
}

/// Evaluate a Bonus Small bet.
pub fn evaluate_bonus_small(amount: u64, dice_total: u8, phase: u8, bonus: &BonusState) -> (r: Result<u64, ProgramError>)
    requires
        fits(bonus_small_value(amount, dice_total, phase, *bonus)),
    ensures
        r == Ok::<u64, ProgramError>(bonus_small_value(amount, dice_total, phase, *bonus) as u64),
{
    if phase != PHASE_COME_OUT && dice_total == 7 {
        if bonus.all_small_rolled() {
            Ok(amount * 37)
        } else {
            Ok(0)
        }
    } else {
        Ok(0)
    }
}

/// Bonus tall payout: 37x at a seven-out when all tall totals were rolled.
pub open spec fn bonus_tall_value(amount: u64, dice_total: u8, phase: u8, bonus: BonusState) -> int {
    if seven_out(dice_total, phase) && bonus.tall_rolled == 0x1f { 37 * amount } else { 0 }
}

/// Evaluate a Bonus Tall bet.
pub fn evaluate_bonus_tall(amount: u64, dice_total: u8, phase: u8, bonus: &BonusState) -> (r: Result<u64, ProgramError>)
    requires
        fits(bonus_tall_value(amount, dice_total, phase, *bonus)),
    ensures
        r == Ok::<u64, ProgramError>(bonus_tall_value(amount, dice_total, phase, *bonus) as u64),
{
    if phase != PHASE_COME_OUT && dice_total == 7 {
        if bonus.all_tall_rolled() {
            Ok(amount * 37)
        } else {
            Ok(0)
        }
    } else {
        Ok(0)
    }
}

/// Bonus small and tall payout: 181x at a seven-out when all small and tall totals were rolled.
pub open spec fn bonus_small_tall_value(amount: u64, dice_total: u8, phase: u8, bonus: BonusState) -> int {
    if seven_out(dice_total, phase) && bonus.small_rolled == 0x1f && bonus.tall_rolled == 0x1f {
        181 * amount
    } else {
        0
    }
}

/// Evaluate a Bonus Small and Tall bet.
pub fn evaluate_bonus_small_tall(amount: u64, dice_total: u8, phase: u8, bonus: &BonusState) -> (r: Result<u64, ProgramError>)
    requires
        fits(bonus_small_tall_value(amount, dice_total, phase, *bonus)),
    ensures
        r == Ok::<u64, ProgramError>(bonus_small_tall_value(amount, dice_total, phase, *bonus) as u64),
{
    if phase != PHASE_COME_OUT && dice_total == 7 {
        if bonus.all_small_rolled() && bonus.all_tall_rolled() {
            Ok(amount * 181)
        } else {
            Ok(0)
        }
    } else {
        Ok(0)
    }
}

/// The pass wins recorded for a point (0 for a non-point).
pub open spec fn pass_wins_of(bonus: BonusState, point: u8) -> u8 {
    if pass_win_slot(point as int) >= 0 { bonus.pass_wins@[pass_win_slot(point as int)] } else { 0 }
}

/// Replay multiplier by point and its wins: 3 wins pay 121, 96, 71 and 4+ pay 1001, 501, 101
/// for 4/10, 5/9, 6/8.
pub open spec fn replay_mult(point: u8, wins: u8) -> int {
    if point == 4 || point == 10 {
        if wins == 3 { 121 } else if wins >= 4 { 1001 } else { 0 }
    } else if point == 5 || point == 9 {
        if wins == 3 { 96 } else if wins >= 4 { 501 } else { 0 }
    } else if point == 6 || point == 8 {
        if wins == 3 { 71 } else if wins >= 4 { 101 } else { 0 }
    } else {
        0
    }
}

/// Replay payout.
pub open spec fn replay_value(amount: u64, dice_total: u8, phase: u8, point: u8, bonus: BonusState) -> int {
    if seven_out(dice_total, phase) {
        replay_mult(point, pass_wins_of(bonus, point)) * amount
    } else {
        0
    }
}

/// Evaluate a Replay bet.
pub fn evaluate_replay(amount: u64, dice_total: u8, phase: u8, point: u8, bonus: &BonusState) -> (r: Result<u64, ProgramError>)
    requires
        fits(replay_value(amount, dice_total, phase, point, *bonus)),
    ensures
        r == Ok::<u64, ProgramError>(replay_value(amount, dice_total, phase, point, *bonus) as u64),
{
    if phase != PHASE_COME_OUT && dice_total == 7 {
        let wins = bonus.get_pass_win_count(point);
        let payout = if (point == 4 || point == 10) && wins == 3 {
            amount * 121
        } else if (point == 4 || point == 10) && wins >= 4 {
            amount * 1001
        } else if (point == 5 || point == 9) && wins == 3 {
            amount * 96
        } else if (point == 5 || point == 9) && wins >= 4 {
            amount * 501
        } else if (point == 6 || point == 8) && wins == 3 {
            amount * 71
        } else if (point == 6 || point == 8) && wins >= 4 {
            amount * 101
        } else {
            0
        };
        Ok(payout)
    } else {
        Ok(0)
    }
}

/// Different doubles multiplier by distinct doubles rolled: 3..=6 pay 5, 9, 16, 101.
pub open spec fn different_doubles_mult(count: nat) -> int {
    if count == 3 {
        5
    } else if count == 4 {
        9
    } else if count == 5 {
        16
    } else if count == 6 {
        101
    } else {
        0
    }
}

/// Different doubles payout.
pub open spec fn different_doubles_value(amount: u64, dice_total: u8, phase: u8, bonus: BonusState) -> int {
    if seven_out(dice_total, phase) {
        different_doubles_mult(ones_below(bonus.doubles_rolled, 8)) * amount
    } else {
        0
    }
}

/// Evaluate a Different Doubles bet.
pub fn evaluate_different_doubles(amount: u64, dice_total: u8, is_hard: bool, phase: u8, bonus: &BonusState) -> (r: Result<u64, ProgramError>)
    requires
        fits(different_doubles_value(amount, dice_total, phase, *bonus)),
    ensures
        r == Ok::<u64, ProgramError>(different_doubles_value(amount, dice_total, phase, *bonus) as u64),
{
    if phase != PHASE_COME_OUT && dice_total == 7 {
        let unique_count = bonus.count_doubles_rolled();
        let payout = match unique_count {
            3 => amount * 5,
            4 => amount * 9,
            5 => amount * 16,
            6 => amount * 101,
            _ => 0,
        };
        Ok(payout)
    } else if is_hard {
        Ok(0)
    } else {
        Ok(0)
    }
}

// ---- One-roll and repeater bets ----

/// NEXT multiplier by target: 2, 12 pay 36; 3, 11 pay 18; 4, 10 pay 12; 5, 9 pay 9; 6, 8 pay 8;
/// 7 pays 5; any other target 1.
pub open spec fn next_mult(target: u8) -> int {
    if target == 2 || target == 12 {
        36
    } else if target == 3 || target == 11 {
        18
    } else if target == 4 || target == 10 {
        12
    } else if target == 5 || target == 9 {
        9
    } else if target == 6 || target == 8 {
        8
    } else if target == 7 {
        5
    } else {
        1
    }
}

/// NEXT payout: the target on this roll.
pub open spec fn next_value(amount: u64, dice_total: u8, target: u8) -> int {
    if dice_total == target { next_mult(target) * amount } else { 0 }
}

/// Evaluate a NEXT bet (one roll).
pub fn evaluate_next_bet(amount: u64, dice_total: u8, target: u8) -> (r: Result<u64, ProgramError>)
    requires
        fits(next_value(amount, dice_total, target)),
    ensures
        r == Ok::<u64, ProgramError>(next_value(amount, dice_total, target) as u64),
{
    if dice_total == target {
        let payout_multiplier: u64 = match target {
            2 => 36,
            3 => 18,
            4 => 12,
            5 => 9,
            6 => 8,
            7 => 5,
            8 => 8,
            9 => 9,
            10 => 12,
            11 => 18,
            12 => 36,
            _ => 1,
        };
        Ok(amount * payout_multiplier)
    } else {
        Ok(0)
    }
}

/// Hits a repeater target needs: 2, 12 need 2; 3, 11 need 3; 4, 10 need 4; 5, 9 need 5;
/// 6, 8 need 6; any other target 0.
pub open spec fn repeater_required(target: u8) -> int {
    if target == 2 || target == 12 {
        2
    } else if target == 3 || target == 11 {
        3
    } else if target == 4 || target == 10 {
        4
    } else if target == 5 || target == 9 {
        5
    } else if target == 6 || target == 8 {
        6
    } else {
        0
    }
}

/// Repeater multiplier: 2, 12 pay 41; 3, 11 pay 51; 4, 10 pay 66; 5, 9 pay 81; 6, 8 pay 91;
/// any other target 1.
pub open spec fn repeater_mult(target: u8) -> int {
    if target == 2 || target == 12 {
        41
    } else if target == 3 || target == 11 {
        51
    } else if target == 4 || target == 10 {
        66
    } else if target == 5 || target == 9 {
        81
    } else if target == 6 || target == 8 {
        91
    } else {
        1
    }
}

/// The hit count of a total (0 off 2..=12).
pub open spec fn hits_of(bonus: BonusState, num: u8) -> u8 {
    if 2 <= num <= 12 { bonus.hits@[num - 2] } else { 0 }
}

/// Repeater payout.
pub open spec fn repeater_value(amount: u64, dice_total: u8, target: u8, phase: u8, bonus: BonusState) -> int {
    if seven_out(dice_total, phase) && hits_of(bonus, target) >= repeater_required(target) {
        repeater_mult(target) * amount
    } else {
        0
    }
}

/// Evaluate a Repeater bet.
pub fn evaluate_repeater_bet(amount: u64, dice_total: u8, target: u8, phase: u8, bonus: &BonusState) -> (r: Result<u64, ProgramError>)
    requires
        fits(repeater_value(amount, dice_total, target, phase, *bonus)),
    ensures
        r == Ok::<u64, ProgramError>(repeater_value(amount, dice_total, target, phase, *bonus) as u64),
{
    if phase != PHASE_COME_OUT && dice_total == 7 {
        let hit_count = bonus.get_hit_count(target);
        let required_hits: u8 = match target {
            2 => 2,
            3 => 3,
            4 => 4,
            5 => 5,
            6 => 6,
            8 => 6,
            9 => 5,
            10 => 4,
            11 => 3,
            12 => 2,
            _ => 0,
        };
        if hit_count >= required_hits {
            let payout_multiplier: u64 = match target {
                2 => 41,
                3 => 51,
                4 => 66,
                5 => 81,
                6 => 91,
                8 => 91,
                9 => 81,
                10 => 66,
                11 => 51,
                12 => 41,
                _ => 1,
            };
            Ok(amount * payout_multiplier)
        } else {
            Ok(0)
        }
    } else {
        Ok(0)
    }
}

// ---- Dispatch on the bet kind ----

/// Whether a total counts as rolled the hard way when the dice are split as evenly
/// as the total allows (a total off 2..=12 is split as 1 and the rest).
pub open spec fn hard_split(dice_total: u8) -> bool {
    let d1 = if 2 <= dice_total <= 12 { dice_total / 2 } else { 1 };
    d1 == dice_total - d1
}

/// The payout of a bet of any kind against a roll; 0 for a kind past 63.
pub open spec fn bet_payout_value(bet_type: u8, amount: u64, dice_total: u8, phase: u8, point: u8, bonus: BonusState) -> int {
    if bet_type == 0 {
        pass_line_value(amount, dice_total, phase, point)
    } else if bet_type == 1 {
        dont_pass_value(amount, dice_total, phase, point)
    } else if bet_type == 2 {
        come_value(amount, dice_total)
    } else if bet_type == 3 {
        dont_come_value(amount, dice_total)
    } else if bet_type == 4 {
        field_value(amount, dice_total)
    } else if 5 <= bet_type <= 14 {
        yes_value(amount, dice_total, spec_yes_target(bet_type)->0)
    } else if 15 <= bet_type <= 24 {
        no_value(amount, dice_total, spec_no_target(bet_type)->0)
    } else if 25 <= bet_type <= 28 {
        hard_way_value(amount, dice_total, (4 + 2 * (bet_type - 25)) as u8, hard_split(dice_total))
    } else if bet_type == 29 {
        odds_pass_value(amount, dice_total, phase, point)
    } else if bet_type == 30 {
        odds_dont_pass_value(amount, dice_total, phase, point)
    } else if bet_type == 33 {
        hot_roller_value(amount, dice_total, phase, bonus)
    } else if bet_type == 34 {
        fire_value(amount, dice_total, phase, bonus)
    } else if bet_type == 35 {
        twice_hard_value(amount, dice_total, bonus)
    } else if bet_type == 36 {
        ride_line_value(amount, dice_total, phase, bonus)
    } else if bet_type == 37 {
        muggsy_value(amount, dice_total, phase)
    } else if bet_type == 38 {
        bonus_small_value(amount, dice_total, phase, bonus)
    } else if bet_type == 39 {
        bonus_tall_value(amount, dice_total, phase, bonus)
    } else if bet_type == 40 {
        bonus_small_tall_value(amount, dice_total, phase, bonus)
    } else if bet_type == 41 {
        replay_value(amount, dice_total, phase, point, bonus)
    } else if bet_type == 42 {
        different_doubles_value(amount, dice_total, phase, bonus)
    } else if 43 <= bet_type <= 53 {
        next_value(amount, dice_total, spec_next_target(bet_type)->0)
    } else if 54 <= bet_type <= 63 {
        repeater_value(amount, dice_total, spec_repeater_target(bet_type)->0, phase, bonus)
    } else {
        0
    }
}

/// The arithmetic of a bet's payout fits in 64 bits.
pub open spec fn bet_payout_ok(bet_type: u8, amount: u64, dice_total: u8, phase: u8, point: u8, bonus: BonusState) -> bool {
    if 5 <= bet_type <= 14 {
        yes_ok(amount, dice_total, spec_yes_target(bet_type)->0)
    } else if 15 <= bet_type <= 24 {
        no_ok(amount, dice_total, spec_no_target(bet_type)->0)
    } else if bet_type == 29 {
        odds_pass_ok(amount, dice_total, phase, point)
    } else if bet_type == 30 {
        odds_dont_pass_ok(amount, dice_total, phase, point)
    } else {
        fits(bet_payout_value(bet_type, amount, dice_total, phase, point, bonus))
    }
}

/// The payout of one bet against the roll of its epoch; a kind past 63 pays nothing.
pub fn calculate_bet_payout(bet: &BetMetadata, dice_total: u8, phase: u8, point: u8, bonus: &BonusState) -> (r: Result<u64, ProgramError>)
    requires
        dice_total >= 1,
        bet_payout_ok(bet.bet_type, bet.amount, dice_total, phase, point, *bonus),
    ensures
        r == Ok::<u64, ProgramError>(
            bet_payout_value(bet.bet_type, bet.amount, dice_total, phase, point, *bonus) as u64,
        ),
{
    let amount = bet.amount;
    let dice1 = if dice_total >= 2 && dice_total <= 12 { dice_total / 2 } else { 1 };
    let dice2 = dice_total - dice1;
    let is_hard = dice1 == dice2;
    let t = bet.bet_type;
    if t == 0 {
        evaluate_pass_line(amount, dice_total, phase, point)
    } else if t == 1 {
        evaluate_dont_pass(amount, dice_total, phase, point)
    } else if t == 2 {
        evaluate_come(amount, dice_total, phase, point)
    } else if t == 3 {
        evaluate_dont_come(amount, dice_total, phase, point)
    } else if t == 4 {
        evaluate_field(amount, dice_total)
    } else if let Some(target) = get_yes_bet_target(t) {
        evaluate_yes_bet(amount, dice_total, target)
    } else if let Some(target) = get_no_bet_target(t) {
        evaluate_no_bet(amount, dice_total, target)
    } else if t >= 25 && t <= 28 {
        let target = 4 + 2 * (t - 25);
        evaluate_hard_way(amount, dice_total, target, is_hard)
    } else if t == 29 {
        evaluate_odds_pass(amount, dice_total, phase, point)
    } else if t == 30 {
        evaluate_odds_dont_pass(amount, dice_total, phase, point)
    } else if t == 31 {
        evaluate_odds_come(amount, dice_total, phase, point)
    } else if t == 32 {
        evaluate_odds_dont_come(amount, dice_total, phase, point)
    } else if t == 33 {
        evaluate_hot_roller(amount, dice_total, phase, bonus)
    } else if t == 34 {
        evaluate_fire_bet(amount, dice_total, phase, bonus)
    } else if t == 35 {
        evaluate_twice_hard(amount, dice_total, is_hard, bonus)
    } else if t == 36 {
        evaluate_ride_line(amount, dice_total, phase, point, bonus)
    } else if t == 37 {
        evaluate_muggsy(amount, dice_total, phase, point)
    } else if t == 38 {
        evaluate_bonus_small(amount, dice_total, phase, bonus)
    } else if t == 39 {
        evaluate_bonus_tall(amount, dice_total, phase, bonus)
    } else if t == 40 {
        evaluate_bonus_small_tall(amount, dice_total, phase, bonus)
    } else if t == 41 {
        evaluate_replay(amount, dice_total, phase, point, bonus)
    } else if t == 42 {
        evaluate_different_doubles(amount, dice_total, is_hard, phase, bonus)
    } else if let Some(target) = get_next_bet_target(t) {
        evaluate_next_bet(amount, dice_total, target)
    } else if let Some(target) = get_repeater_bet_target(t) {
        evaluate_repeater_bet(amount, dice_total, target, phase, bonus)
    } else {
        Ok(0)
    }
}

/// The largest amount a packed bet can stand for: 100000 CRAP.
pub const MAX_DECODED_AMOUNT: u64 = 100_000_000_000_000;

proof fn lemma_mul_bound(m: int, a: int, bound: int)
    requires
        0 <= m <= bound,
        0 <= a,
    ensures
        0 <= m * a <= bound * a,
{
    assert(0 <= m * a <= bound * a) by (nonlinear_arith)
        requires
            0 <= m <= bound,
            0 <= a,
    ;
}

/// Every bet whose amount a packed bet can stand for has a payout that fits, is not
/// negative and is at most 1001 times its amount.
pub proof fn lemma_decoded_payout_bounds(bet_type: u8, amount: u64, dice_total: u8, phase: u8, point: u8, bonus: BonusState)
    requires
        amount <= MAX_DECODED_AMOUNT,
    ensures
        bet_payout_ok(bet_type, amount, dice_total, phase, point, bonus),
        0 <= bet_payout_value(bet_type, amount, dice_total, phase, point, bonus) <= 1001 * amount,
{
    let a = amount as int;
    lemma_mul_bound(hot_roller_mult(bonus.hot_roller_count), a, 200);
    lemma_mul_bound(fire_mult(bonus.fire_points), a, 1000);
    lemma_mul_bound(ride_line_mult(bonus.ride_line_streak), a, 151);
    lemma_mul_bound(replay_mult(point, pass_wins_of(bonus, point)), a, 1001);
    lemma_mul_bound(different_doubles_mult(ones_below(bonus.doubles_rolled, 8)), a, 101);
    if 43 <= bet_type <= 53 {
        lemma_mul_bound(next_mult(spec_next_target(bet_type)->0), a, 36);
    }
    if 54 <= bet_type <= 63 {
        lemma_mul_bound(repeater_mult(spec_repeater_target(bet_type)->0), a, 91);
    }
}

// ---- Claiming the payouts of an epoch ----

/// The payout of the bet at `index` of a batch against a roll.
pub open spec fn batch_bet_payout(batch: BetBatch, index: int, dice_total: u8, phase: u8, point: u8, bonus: BonusState) -> int {
    let m = metadata_of(packed_at(batch, index));
    bet_payout_value(m.bet_type, m.amount, dice_total, phase, point, bonus)
}

/// The sum of the payouts of the first `n` bets of a batch.
pub open spec fn claim_total(batch: BetBatch, dice_total: u8, phase: u8, point: u8, bonus: BonusState, n: nat) -> int
    decreases n,
{
    if n == 0 {
        0
    } else {
        claim_total(batch, dice_total, phase, point, bonus, (n - 1) as nat)
            + batch_bet_payout(batch, n - 1, dice_total, phase, point, bonus)
    }
}

/// The total of an outcome's dice.
pub open spec fn outcome_total(outcome: EpochOutcome) -> int {
    outcome.dice@[0] + outcome.dice@[1]
}

/// Whether a batch is paid already: its settled mask marks every bet placed in it (for
/// a batch of 1..=15 bets, their low bits; otherwise all sixteen bits).
pub open spec fn claimed_already(batch: BetBatch) -> bool {
    ||| batch.settled_mask_value() == 0xFFFF
    ||| 0 < batch.bet_count < 16 && batch.settled_mask_value() == low_bits_mask(batch.bet_count)
}

/// Why a claim is refused before anything is paid: the outcome or the batch belongs to
/// another epoch, the outcome is not resolved, the batch is paid already, or it belongs
/// to another player.
pub open spec fn claim_check_error(epoch: u64, player_key: Pubkey, outcome: EpochOutcome, batch: BetBatch) -> Option<CrapsError> {
    if outcome.epoch_value() != epoch {
        Some(CrapsError::InvalidEpoch)
    } else if outcome.resolved == 0 {
        Some(CrapsError::RngNotFinalized)
    } else if claimed_already(batch) {
        Some(CrapsError::AlreadyClaimed)
    } else if batch.player@ != player_key@ {
        Some(CrapsError::InvalidPlayer)
    } else if batch.epoch_value() != epoch {
        Some(CrapsError::InvalidEpoch)
    } else {
        None
    }
}

/// Whether a batch is paid already.
fn is_claimed_already(batch: &BetBatch) -> (r: bool)
    ensures
        r == claimed_already(*batch),
{
    let mask = batch.get_settled_mask();
    if mask == 0xFFFF {
        return true;
    }
    let n = batch.bet_count;
    if n == 0 || n >= 16 {
        return false;
    }
    let m = n as u16;
    assert(1u16 << m >= 1) by (bit_vector)
        requires
            m < 16,
    ;
    let all: u16 = (1u16 << m) - 1;
    mask == all
}

/// Checks a claim before anything is paid: the outcome and the batch are of the epoch,
/// the outcome is resolved, the batch not fully settled and the player's.
pub fn check_claim(epoch: u64, player_key: &Pubkey, outcome: &EpochOutcome, batch: &BetBatch) -> (r: Result<(), ProgramError>)
    ensures
        claim_check_error(epoch, *player_key, *outcome, *batch) matches Some(e) ==> r == Err::<(), ProgramError>(ProgramError::Custom(e)),
        claim_check_error(epoch, *player_key, *outcome, *batch) is None ==> r == Ok::<(), ProgramError>(()),
{
    if outcome.get_epoch() != epoch {
        return Err(ProgramError::Custom(CrapsError::InvalidEpoch));
    }
    if outcome.resolved == 0 {
        return Err(ProgramError::Custom(CrapsError::RngNotFinalized));
    }
    if is_claimed_already(batch) {
        return Err(ProgramError::Custom(CrapsError::AlreadyClaimed));
    }
    if !keys_equal(&batch.player, player_key) {
        return Err(ProgramError::Custom(CrapsError::InvalidPlayer));
    }
    if batch.get_epoch() != epoch {
        return Err(ProgramError::Custom(CrapsError::InvalidEpoch));
    }
    Ok(())
}

proof fn lemma_decoded_amount_bound(index: int)
    ensures
        0 <= spec_decode_amount(index) <= MAX_DECODED_AMOUNT,
{
}

proof fn lemma_claim_total_monotone(batch: BetBatch, dice_total: u8, phase: u8, point: u8, bonus: BonusState, i: nat, n: nat)
    requires
        i <= n,
    ensures
        0 <= claim_total(batch, dice_total, phase, point, bonus, i) <= claim_total(batch, dice_total, phase, point, bonus, n),
    decreases n,
{
    if n > 0 {
        let m = metadata_of(packed_at(batch, n - 1));
        lemma_decoded_amount_bound(packed_at(batch, n - 1) as int / 64);
        lemma_decoded_payout_bounds(m.bet_type, m.amount, dice_total, phase, point, bonus);
        if i < n {
            lemma_claim_total_monotone(batch, dice_total, phase, point, bonus, i, (n - 1) as nat);
        } else {
            lemma_claim_total_monotone(batch, dice_total, phase, point, bonus, (n - 1) as nat, (n - 1) as nat);
        }
    }
}

/// The total payout a player may claim for the bets of a batch against the outcome of
/// their epoch. The claim is refused as `claim_check_error` says, and with an overflow
/// where the total does not fit in 64 bits.
pub fn compute_claim_payout(epoch: u64, player_key: &Pubkey, outcome: &EpochOutcome, batch: &BetBatch, bonus: &BonusState) -> (r: Result<u64, ProgramError>)
    requires
        claim_check_error(epoch, *player_key, *outcome, *batch) is None ==> {
            &&& outcome_total(*outcome) <= u8::MAX
            &&& batch.bet_count > 0 ==> outcome_total(*outcome) >= 1
        },
    ensures
        claim_check_error(epoch, *player_key, *outcome, *batch) matches Some(e) ==> r == Err::<u64, ProgramError>(ProgramError::Custom(e)),
        claim_check_error(epoch, *player_key, *outcome, *batch) is None ==> {
            let total = claim_total(*batch, outcome_total(*outcome) as u8, outcome.phase, outcome.point, *bonus, batch.bet_count as nat);
            &&& total <= u64::MAX ==> r == Ok::<u64, ProgramError>(total as u64)
            &&& total > u64::MAX ==> r == Err::<u64, ProgramError>(ProgramError::ArithmeticOverflow)
        },
{
    if outcome.get_epoch() != epoch {
        return Err(ProgramError::Custom(CrapsError::InvalidEpoch));
    }
    if outcome.resolved == 0 {
        return Err(ProgramError::Custom(CrapsError::RngNotFinalized));
    }
    if is_claimed_already(batch) {
        return Err(ProgramError::Custom(CrapsError::AlreadyClaimed));
    }
    if !keys_equal(&batch.player, player_key) {
        return Err(ProgramError::Custom(CrapsError::InvalidPlayer));
    }
    if batch.get_epoch() != epoch {
        return Err(ProgramError::Custom(CrapsError::InvalidEpoch));
    }
    let dice_total = outcome.get_dice_total();
    let phase = outcome.phase;
    let point = outcome.point;
    let count = batch.bet_count as usize;
    let mut total_payout: u64 = 0;
    let mut i: usize = 0;
    while i < count
        invariant
            0 <= i <= count,
            count == batch.bet_count,
            count > 0 ==> dice_total >= 1,
            claim_check_error(epoch, *player_key, *outcome, *batch) is None,
            dice_total == outcome_total(*outcome),
            phase == outcome.phase,
            point == outcome.point,
            total_payout == claim_total(*batch, dice_total, phase, point, *bonus, i as nat),
        decreases count - i,
    {
        let bet = match decode_bet_from_batch(batch, i) {
            Ok(m) => m,
            Err(e) => return Err(e),
        };
        proof {
            lemma_decoded_amount_bound(packed_at(*batch, i as int) as int / 64);
            lemma_decoded_payout_bounds(bet.bet_type, bet.amount, dice_total, phase, point, *bonus);
        }
        let payout = match calculate_bet_payout(&bet, dice_total, phase, point, bonus) {
            Ok(p) => p,
            Err(e) => return Err(e),
        };
        match total_payout.checked_add(payout) {
            Some(t) => {
                total_payout = t;
            },
            None => {
                proof {
                    lemma_claim_total_monotone(*batch, dice_total, phase, point, *bonus, (i + 1) as nat, count as nat);
                }
                return Err(ProgramError::ArithmeticOverflow);
            },
        }
        i += 1;
    }
    Ok(total_payout)
}

/// Why the payouts of a claim cannot be booked: the treasury's token account holds less
/// than a non-zero total, or a counter would overflow.
pub open spec fn claim_apply_error(total: u64, token_balance: u64, batch: BetBatch, player: ScalablePlayerState, treasury: Treasury) -> Option<ProgramError> {
    if total > 0 && token_balance < total {
        Some(ProgramError::Custom(CrapsError::InsufficientTreasuryFunds))
    } else if player.balance_value() + total > u64::MAX {
        Some(ProgramError::ArithmeticOverflow)
    } else if player.total_won_value() + total > u64::MAX {
        Some(ProgramError::ArithmeticOverflow)
    } else if treasury.total_payouts_value() + total > u64::MAX {
        Some(ProgramError::ArithmeticOverflow)
    } else if treasury.total_bets_settled_value() + batch.bet_count > u64::MAX {
        Some(ProgramError::ArithmeticOverflow)
    } else {
        None
    }
}

/// The mask with the lowest `n` bits set.
pub open spec fn low_bits_mask(n: u8) -> u16 {
    ((1u16 << (n as u16)) - 1) as u16
}

/// A batch is paid at most once: once a claim has gone through, which marks every bet of
/// the batch settled and leaves the rest of the batch as it was, a second claim on it for
/// the same resolved outcome is refused as already claimed.
pub proof fn lemma_batch_paid_once(epoch: u64, player_key: Pubkey, outcome: EpochOutcome, batch: BetBatch, claimed: BetBatch)
    requires
        claim_check_error(epoch, player_key, outcome, batch) is None,
        batch.bet_count < 16,
        claimed == (BetBatch { settled_mask: claimed.settled_mask, ..batch }),
        claimed.settled_mask_value() == low_bits_mask(batch.bet_count),
    ensures
        batch.bet_count > 0 ==> claim_check_error(epoch, player_key, outcome, claimed) == Some(CrapsError::AlreadyClaimed),
{
}

/// Books a claimed total: marks every bet of the batch settled, credits the player's
/// balance and winnings, and adds the total and the settled bets to the treasury's
/// counters. On an error nothing is written.
pub fn apply_claim(total_payout: u64, treasury_token_balance: u64, batch: &mut BetBatch, player: &mut ScalablePlayerState, treasury: &mut Treasury) -> (r: Result<(), ProgramError>)
    requires
        !(total_payout > 0 && treasury_token_balance < total_payout) ==> old(batch).bet_count < 16,
    ensures
        claim_apply_error(total_payout, treasury_token_balance, *old(batch), *old(player), *old(treasury)) matches Some(e) ==> {
            &&& r == Err::<(), ProgramError>(e)
            &&& *final(batch) == *old(batch)
            &&& *final(player) == *old(player)
            &&& *final(treasury) == *old(treasury)
        },
        claim_apply_error(total_payout, treasury_token_balance, *old(batch), *old(player), *old(treasury)) is None ==> {
            &&& r == Ok::<(), ProgramError>(())
            &&& *final(batch) == (BetBatch { settled_mask: final(batch).settled_mask, ..*old(batch) })
            &&& final(batch).settled_mask_value() == low_bits_mask(old(batch).bet_count)
            &&& forall|i: int| 0 <= i < 16 ==> (mask_bit(final(batch).settled_mask_value(), i) <==> i < old(batch).bet_count)
            &&& *final(player) == (ScalablePlayerState {
                balance: final(player).balance,
                total_won: final(player).total_won,
                ..*old(player)
            })
            &&& final(player).balance_value() == old(player).balance_value() + total_payout
            &&& final(player).total_won_value() == old(player).total_won_value() + total_payout
            &&& *final(treasury) == (Treasury {
                total_payouts: final(treasury).total_payouts,
                total_bets_settled: final(treasury).total_bets_settled,
                ..*old(treasury)
            })
            &&& final(treasury).total_payouts_value() == old(treasury).total_payouts_value() + total_payout
            &&& final(treasury).total_bets_settled_value() == old(treasury).total_bets_settled_value() + old(batch).bet_count
        },
{
    if total_payout > 0 && treasury_token_balance < total_payout {
        return Err(ProgramError::Custom(CrapsError::InsufficientTreasuryFunds));
    }
    let new_balance = match player.get_balance().checked_add(total_payout) {
        Some(v) => v,
        None => return Err(ProgramError::ArithmeticOverflow),
    };
    let new_won = match player.get_total_won().checked_add(total_payout) {
        Some(v) => v,
        None => return Err(ProgramError::ArithmeticOverflow),
    };
    let new_payouts = match treasury.get_total_payouts().checked_add(total_payout) {
        Some(v) => v,
        None => return Err(ProgramError::ArithmeticOverflow),
    };
    let new_settled = match treasury.get_total_bets_settled().checked_add(batch.bet_count as u64) {
        Some(v) => v,
        None => return Err(ProgramError::ArithmeticOverflow),
    };
    let n = batch.bet_count as u16;
    assert(1u16 << n >= 1) by (bit_vector)
        requires
            n < 16,
    ;
    let all_bets_mask: u16 = (1u16 << n) - 1;
    proof {
        assert forall|i: int| 0 <= i < 16 implies (mask_bit(all_bets_mask, i) <==> i < n) by {
            let iu = i as u16;
            assert(all_bets_mask & (1u16 << iu) != 0 <==> iu < n) by (bit_vector)
                requires
                    n < 16,
                    iu < 16,
                    all_bets_mask == ((1u16 << n) - 1) as u16,
            ;
        }
        lemma_u16_roundtrip(all_bets_mask);
        lemma_u64_roundtrip(new_balance);
        lemma_u64_roundtrip(new_won);
        lemma_u64_roundtrip(new_payouts);
        lemma_u64_roundtrip(new_settled);
    }
    batch.set_settled_mask(all_bets_mask);
    player.set_balance(new_balance);
    player.set_total_won(new_won);
    treasury.set_total_payouts(new_payouts);
    treasury.set_total_bets_settled(new_settled);
    Ok(())
}

} // verus!
