//! Rules about two dice: totals, naturals, craps, points, hard ways and odds.
use vstd::prelude::*;
use crate::constants::{
    CRAPS_THREE, CRAPS_TWELVE, CRAPS_TWO, DICE_MIN_VALUE, DICE_SIDES, NATURAL_ELEVEN, NATURAL_SEVEN,
};

verus! {

/// Whether a total is a point number (4, 5, 6, 8, 9, 10).
pub open spec fn is_point_total(t: int) -> bool {
    t == 4 || t == 5 || t == 6 || t == 8 || t == 9 || t == 10
}

/// Whether a total is craps (2, 3, 12).
pub open spec fn is_craps_total(t: int) -> bool {
    t == 2 || t == 3 || t == 12
}

/// Whether a total is a natural (7, 11).
pub open spec fn is_natural_total(t: int) -> bool {
    t == 7 || t == 11
}

/// Whether a total wins a field bet (2, 3, 4, 9, 10, 11, 12).
pub open spec fn is_field_total(t: int) -> bool {
    t == 2 || t == 3 || t == 4 || t == 9 || t == 10 || t == 11 || t == 12
}

/// Calculate the total of two dice.
pub fn calculate_roll_total(die1: u8, die2: u8) -> (r: u8)
    requires
        die1 + die2 <= u8::MAX,
    ensures
        r == die1 + die2,
{
    die1 + die2
}

/// Check if a roll is a seven-out (total equals 7).
pub fn is_seven_out(die1: u8, die2: u8) -> (r: bool)
    requires
        die1 + die2 <= u8::MAX,
    ensures
        r <==> die1 + die2 == 7,
{
    calculate_roll_total(die1, die2) == NATURAL_SEVEN
}

/// Check if a roll is craps (2, 3 or 12).
pub fn is_craps(die1: u8, die2: u8) -> (r: bool)
    requires
        die1 + die2 <= u8::MAX,
    ensures
        r <==> is_craps_total(die1 + die2),
{
    let total = calculate_roll_total(die1, die2);
    total == CRAPS_TWO || total == CRAPS_THREE || total == CRAPS_TWELVE
}

/// Check if a roll makes the point (a point is set and the total equals it).
pub fn is_point_made(die1: u8, die2: u8, point: u8) -> (r: bool)
    requires
        die1 + die2 <= u8::MAX,
    ensures
        r <==> point != 0 && die1 + die2 == point,
{
    point != 0 && calculate_roll_total(die1, die2) == point
}

/// Check if a roll is a natural (7 or 11).
pub fn is_natural(die1: u8, die2: u8) -> (r: bool)
    requires
        die1 + die2 <= u8::MAX,
    ensures
        r <==> is_natural_total(die1 + die2),
{
    let total = calculate_roll_total(die1, die2);
    total == NATURAL_SEVEN || total == NATURAL_ELEVEN
}

/// Check if the dice form a hard way: a pair of 2s, 3s, 4s or 5s.
pub fn is_hard_way(die1: u8, die2: u8) -> (r: bool)
    ensures
        r <==> die1 == die2 && 2 <= die1 <= 5,
{
    die1 == die2 && die1 >= 2 && die1 <= 5
}

/// Check if a specific hard way was rolled: a pair whose total is `target`.
pub fn is_specific_hard_way(die1: u8, die2: u8, target: u8) -> (r: bool)
    requires
        die1 + die2 <= u8::MAX,
    ensures
        r <==> die1 == die2 && die1 + die2 == target,
{
    die1 == die2 && calculate_roll_total(die1, die2) == target
}

/// Check if a roll is a point number (4, 5, 6, 8, 9, 10).
pub fn is_valid_point_roll(die1: u8, die2: u8) -> (r: bool)
    requires
        die1 + die2 <= u8::MAX,
    ensures
        r <==> is_point_total(die1 + die2),
{
    let total = calculate_roll_total(die1, die2);
    total == 4 || total == 5 || total == 6 || total == 8 || total == 9 || total == 10
}

/// The name of a roll for display.
pub open spec fn roll_type_name(die1: int, die2: int) -> Seq<char> {
    let t = die1 + die2;
    if t == 2 {
        "Snake Eyes"@
    } else if t == 3 {
        "Ace Deuce"@
    } else if t == 7 {
        if die1 == die2 { "Hard Seven"@ } else { "Natural Seven"@ }
    } else if t == 11 {
        "Yo-leven"@
    } else if t == 12 {
        "Boxcars"@
    } else if t == 4 {
        if die1 == die2 { "Hard Four"@ } else { "Easy Four"@ }
    } else if t == 6 {
        if die1 == die2 { "Hard Six"@ } else { "Easy Six"@ }
    } else if t == 8 {
        if die1 == die2 { "Hard Eight"@ } else { "Easy Eight"@ }
    } else if t == 10 {
        if die1 == die2 { "Hard Ten"@ } else { "Easy Ten"@ }
    } else {
        "Roll"@
    }
}

/// Get the type of roll for logging and display.
pub fn get_roll_type(die1: u8, die2: u8) -> (r: &'static str)
    requires
        die1 + die2 <= u8::MAX,
    ensures
        r@ == roll_type_name(die1 as int, die2 as int),
{
    let total = calculate_roll_total(die1, die2);
    match total {
        2 => "Snake Eyes",
        3 => "Ace Deuce",
        7 => {
            if die1 == die2 {
                "Hard Seven"
            } else {
                "Natural Seven"
            }
        },
        11 => "Yo-leven",
        12 => "Boxcars",
        4 => {
            if die1 == die2 {
                "Hard Four"
            } else {
                "Easy Four"
            }
        },
        6 => {
            if die1 == die2 {
                "Hard Six"
            } else {
                "Easy Six"
            }
        },
        8 => {
            if die1 == die2 {
                "Hard Eight"
            } else {
                "Easy Eight"
            }
        },
        10 => {
            if die1 == die2 {
                "Hard Ten"
            } else {
                "Easy Ten"
            }
        },
        _ => "Roll",
    }
}

/// Check if a field bet wins (2, 3, 4, 9, 10, 11, 12).
pub fn is_field_winner(die1: u8, die2: u8) -> (r: bool)
    requires
        die1 + die2 <= u8::MAX,
    ensures
        r <==> is_field_total(die1 + die2),
{
    let total = calculate_roll_total(die1, die2);
    match total {
        2 | 3 | 4 | 9 | 10 | 11 | 12 => true,
        _ => false,
    }
}

/// Field multiplier: 2 pays double, 12 pays triple, anything else even money.
pub fn get_field_multiplier(die1: u8, die2: u8) -> (r: u8)
    requires
        die1 + die2 <= u8::MAX,
    ensures
        r == (if die1 + die2 == 2 {
            2int
        } else if die1 + die2 == 12 {
            3int
        } else {
            1int
        }),
{
    let total = calculate_roll_total(die1, die2);
    match total {
        2 => 2,
        12 => 3,
        _ => 1,
    }
}

/// Check if a big 6 or big 8 bet on `target` wins.
pub fn is_big_six_eight_winner(die1: u8, die2: u8, target: u8) -> (r: bool)
    requires
        die1 + die2 <= u8::MAX,
    ensures
        r <==> die1 + die2 == target && (target == 6 || target == 8),
{
    let total = calculate_roll_total(die1, die2);
    total == target && (target == 6 || target == 8)
}

/// The number of ordered dice pairs that make a total.
pub open spec fn spec_ways_to_roll(total: int) -> int {
    if total == 2 || total == 12 {
        1
    } else if total == 3 || total == 11 {
        2
    } else if total == 4 || total == 10 {
        3
    } else if total == 5 || total == 9 {
        4
    } else if total == 6 || total == 8 {
        5
    } else if total == 7 {
        6
    } else {
        0
    }
}

/// Calculate the number of ways to roll a specific total with two dice.
pub fn ways_to_roll(total: u8) -> (r: u8)
    ensures
        r == spec_ways_to_roll(total as int),
{
    match total {
        2 | 12 => 1,
        3 | 11 => 2,
        4 | 10 => 3,
        5 | 9 => 4,
        6 | 8 => 5,
        7 => 6,
        _ => 0,
    }
}

/// True odds of a pass odds bet on a point, as (numerator, denominator).
pub open spec fn spec_pass_odds(point: int) -> (u64, u64) {
    if point == 4 || point == 10 {
        (2, 1)
    } else if point == 5 || point == 9 {
        (3, 2)
    } else if point == 6 || point == 8 {
        (6, 5)
    } else {
        (0, 0)
    }
}

/// Get the true odds for a pass line odds bet on the point.
pub fn get_pass_odds_payout(point: u8) -> (r: (u64, u64))
    ensures
        r == spec_pass_odds(point as int),
{
    match point {
        4 | 10 => (2, 1),
        5 | 9 => (3, 2),
        6 | 8 => (6, 5),
        _ => (0, 0),
    }
}

/// Get the true odds for a don't pass odds bet on the point: the pass odds turned over.
pub fn get_dont_pass_odds_payout(point: u8) -> (r: (u64, u64))
    ensures
        r == (spec_pass_odds(point as int).1, spec_pass_odds(point as int).0),
{
    match point {
        4 | 10 => (1, 2),
        5 | 9 => (2, 3),
        6 | 8 => (5, 6),
        _ => (0, 0),
    }
}

/// Check if dice values are valid (1..=6 each).
pub fn are_dice_valid(die1: u8, die2: u8) -> (r: bool)
    ensures
        r <==> 1 <= die1 <= 6 && 1 <= die2 <= 6,
{
    die1 >= DICE_MIN_VALUE && die1 <= DICE_SIDES && die2 >= DICE_MIN_VALUE && die2 <= DICE_SIDES
}

/// The combination id of two dice: die1 in the high nibble (truncated to 8 bits), die2 or-ed in.
pub open spec fn spec_combination_id(die1: u8, die2: u8) -> u8 {
    (((die1 as int * 16) % 256) as u8) | die2
}

/// Get dice combination as one byte: high nibble die1, low nibble die2.
pub fn get_dice_combination_id(die1: u8, die2: u8) -> (r: u8)
    ensures
        r == spec_combination_id(die1, die2),
        die1 < 16 && die2 < 16 ==> r == die1 * 16 + die2,
{
    assert((die1 << 4u8) == ((die1 as int * 16) % 256) as u8) by (bit_vector);
    assert(die1 < 16 && die2 < 16 ==> ((die1 << 4u8) | die2) == die1 * 16 + die2) by (bit_vector);
    (die1 << 4u8) | die2
}

/// Extract the dice values from a combination id.
pub fn extract_dice_from_combination_id(combination_id: u8) -> (r: (u8, u8))
    ensures
        r == (combination_id / 16, combination_id % 16),
{
    assert((combination_id >> 4u8) & 0x0F == combination_id / 16) by (bit_vector);
    assert(combination_id & 0x0F == combination_id % 16) by (bit_vector);
    let die1 = (combination_id >> 4u8) & 0x0F;
    let die2 = combination_id & 0x0F;
    (die1, die2)
}

/// Dice below 16 come back unchanged from their combination id.
pub proof fn lemma_combination_roundtrip(die1: u8, die2: u8)
    requires
        die1 < 16,
        die2 < 16,
    ensures
        spec_combination_id(die1, die2) / 16 == die1,
        spec_combination_id(die1, die2) % 16 == die2,
{
    assert((((die1 as int * 16) % 256) as u8) == (die1 << 4u8)) by (bit_vector);
    assert(die1 < 16 && die2 < 16 ==> ((die1 << 4u8) | die2) / 16 == die1 && ((die1 << 4u8) | die2)
        % 16 == die2) by (bit_vector);
}

} // verus!
