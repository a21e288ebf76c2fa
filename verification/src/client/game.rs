//! The client's model of the game table and of the bets a player picks.
use vstd::prelude::*;
use crate::constants::{
    BET_COME, BET_DONT_COME, BET_DONT_PASS, BET_FIELD, BET_HARD10, BET_HARD4, BET_HARD6, BET_HARD8,
    BET_ODDS_COME, BET_ODDS_DONT_COME, BET_ODDS_DONT_PASS, BET_ODDS_PASS, BET_PASS, BET_YES_10,
    BET_YES_4, BET_YES_5, BET_YES_6, BET_YES_8, BET_YES_9,
};
use crate::dice::{is_craps_total, is_natural_total, is_point_total};
use crate::validation::spec_yes_target;

verus! {

/// The phase of the game as the client shows it.
#[derive(Debug, Clone, Copy, PartialEq, Eq, Structural)]
pub enum GamePhase {
    ComeOut,
    Point,
}

/// A bet as the player picks it.
#[derive(Debug, PartialEq, Eq)]
pub enum BetType {
    Pass,
    DontPass,
    Come,
    DontCome,
    Field,
    Number(u8),
    Hard4,
    Hard6,
    Hard8,
    Hard10,
    Odds(Box<BetType>),
    Repeater(u8),
}

impl BetType {
    /// A copy of this bet.
    pub fn cloned(&self) -> (r: BetType)
        ensures
            r == *self,
        decreases self,
    {
        match self {
            BetType::Pass => BetType::Pass,
            BetType::DontPass => BetType::DontPass,
            BetType::Come => BetType::Come,
            BetType::DontCome => BetType::DontCome,
            BetType::Field => BetType::Field,
            BetType::Number(n) => BetType::Number(*n),
            BetType::Hard4 => BetType::Hard4,
            BetType::Hard6 => BetType::Hard6,
            BetType::Hard8 => BetType::Hard8,
            BetType::Hard10 => BetType::Hard10,
            BetType::Odds(inner) => BetType::Odds(Box::new(inner.cloned())),
            BetType::Repeater(n) => BetType::Repeater(*n),
        }
    }
}

/// The program's kind of a picked bet, where the program has one: a number bet is a YES
/// bet on a point number, odds go on the four line bets, a repeater on 2..=6 or 8..=12.
pub open spec fn program_bet_type_of(b: BetType) -> Option<u8> {
    match b {
        BetType::Pass => Some(BET_PASS),
        BetType::DontPass => Some(BET_DONT_PASS),
        BetType::Come => Some(BET_COME),
        BetType::DontCome => Some(BET_DONT_COME),
        BetType::Field => Some(BET_FIELD),
        BetType::Number(n) => if n == 4 {
            Some(BET_YES_4)
        } else if n == 5 {
            Some(BET_YES_5)
        } else if n == 6 {
            Some(BET_YES_6)
        } else if n == 8 {
            Some(BET_YES_8)
        } else if n == 9 {
            Some(BET_YES_9)
        } else if n == 10 {
            Some(BET_YES_10)
        } else {
            None
        },
        BetType::Hard4 => Some(BET_HARD4),
        BetType::Hard6 => Some(BET_HARD6),
        BetType::Hard8 => Some(BET_HARD8),
        BetType::Hard10 => Some(BET_HARD10),
        BetType::Odds(inner) => match *inner {
            BetType::Pass => Some(BET_ODDS_PASS),
            BetType::DontPass => Some(BET_ODDS_DONT_PASS),
            BetType::Come => Some(BET_ODDS_COME),
            BetType::DontCome => Some(BET_ODDS_DONT_COME),
            _ => None,
        },
        BetType::Repeater(n) => if (2 <= n <= 6) || (8 <= n <= 12) {
            Some(if n <= 6 { (54 + n - 2) as u8 } else { (59 + n - 8) as u8 })
        } else {
            None
        },
    }
}

/// A number bet the player picks is the program's YES bet on that number: for each point
/// number the kind the client sends is the YES bet whose target is that number, and a
/// number that is no point number has no kind.
pub proof fn lemma_number_is_yes_bet(n: u8)
    ensures
        is_point_total(n as int) ==> (program_bet_type_of(BetType::Number(n)) matches Some(k) && spec_yes_target(k)
            == Some(n)),
        !is_point_total(n as int) ==> program_bet_type_of(BetType::Number(n)) is None,
{
}

impl BetType {
    /// The program's kind of this bet.
    pub fn to_program_bet_type(&self) -> (r: u8)
        requires
            program_bet_type_of(*self) is Some,
        ensures
            program_bet_type_of(*self) == Some(r),
    {
        match self {
            BetType::Pass => BET_PASS,
            BetType::DontPass => BET_DONT_PASS,
            BetType::Come => BET_COME,
            BetType::DontCome => BET_DONT_COME,
            BetType::Field => BET_FIELD,
            BetType::Number(n) => {
                if *n == 4 {
                    BET_YES_4
                } else if *n == 5 {
                    BET_YES_5
                } else if *n == 6 {
                    BET_YES_6
                } else if *n == 8 {
                    BET_YES_8
                } else if *n == 9 {
                    BET_YES_9
                } else {
                    BET_YES_10
                }
            },
            BetType::Hard4 => BET_HARD4,
            BetType::Hard6 => BET_HARD6,
            BetType::Hard8 => BET_HARD8,
            BetType::Hard10 => BET_HARD10,
            BetType::Odds(inner) => match &**inner {
                BetType::Pass => BET_ODDS_PASS,
                BetType::DontPass => BET_ODDS_DONT_PASS,
                BetType::Come => BET_ODDS_COME,
                _ => BET_ODDS_DONT_COME,
            },
            BetType::Repeater(n) => {
                if *n <= 6 {
                    54 + (*n - 2)
                } else {
                    59 + (*n - 8)
                }
            },
        }
    }
}

/// The game as the client last fetched it.
#[derive(Debug, Clone)]
pub struct GameState {
    pub epoch: u64,
    pub phase: GamePhase,
    pub point: Option<u8>,
    pub die1: Option<u8>,
    pub die2: Option<u8>,
    pub next_roll_slot: u64,
    pub active_bets: u64,
    pub treasury_balance: u64,
}

/// The total of the dice shown, when both are.
pub open spec fn shown_total(g: GameState) -> Option<int> {
    match (g.die1, g.die2) {
        (Some(d1), Some(d2)) => Some(d1 + d2),
        _ => None,
    }
}

impl GameState {
    /// A table before any roll: epoch 0, on the come-out, nothing shown.
    pub fn new() -> (r: Self)
        ensures
            r.epoch == 0,
            r.phase == GamePhase::ComeOut,
            r.point is None,
            r.die1 is None,
            r.die2 is None,
            r.next_roll_slot == 0,
            r.active_bets == 0,
            r.treasury_balance == 0,
    {
        GameState {
            epoch: 0,
            phase: GamePhase::ComeOut,
            point: None,
            die1: None,
            die2: None,
            next_roll_slot: 0,
            active_bets: 0,
            treasury_balance: 0,
        }
    }

    /// The total of the dice shown, when both are.
    pub fn dice_total(&self) -> (r: Option<u8>)
        requires
            shown_total(*self) matches Some(t) ==> t <= u8::MAX,
        ensures
            match shown_total(*self) {
                Some(t) => r == Some(t as u8),
                None => r is None,
            },
    {
        match (self.die1, self.die2) {
            (Some(d1), Some(d2)) => Some(d1 + d2),
            _ => None,
        }
    }

    /// Whether the dice shown total 7 or 11.
    pub fn is_natural(&self) -> (r: bool)
        requires
            shown_total(*self) matches Some(t) ==> t <= u8::MAX,
        ensures
            r == (shown_total(*self) matches Some(t) && is_natural_total(t)),
    {
        match self.dice_total() {
            Some(t) => t == 7 || t == 11,
            None => false,
        }
    }

    /// Whether the dice shown total 2, 3 or 12.
    pub fn is_craps(&self) -> (r: bool)
        requires
            shown_total(*self) matches Some(t) ==> t <= u8::MAX,
        ensures
            r == (shown_total(*self) matches Some(t) && is_craps_total(t)),
    {
        match self.dice_total() {
            Some(t) => t == 2 || t == 3 || t == 12,
            None => false,
        }
    }

    /// Whether a number is a point number: 4, 5, 6, 8, 9 or 10.
    pub fn is_point_number(n: u8) -> (r: bool)
        ensures
            r == is_point_total(n as int),
    {
        n == 4 || n == 5 || n == 6 || n == 8 || n == 9 || n == 10
    }
}

} // verus!
