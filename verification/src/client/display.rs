//! Text the client shows: the names of bets and the faces of the dice.
use vstd::prelude::*;
use crate::client::game::BetType;
use crate::events::{decimal, push_decimal};

verus! {

/// The name of a bet as the client shows it.
pub open spec fn bet_label(b: BetType) -> Seq<char>
    decreases b,
{
    match b {
        BetType::Pass => seq!['P', 'a', 's', 's', ' ', 'L', 'i', 'n', 'e'],
        BetType::DontPass => seq!['D', 'o', 'n', '\'', 't', ' ', 'P', 'a', 's', 's'],
        BetType::Come => seq!['C', 'o', 'm', 'e'],
        BetType::DontCome => seq!['D', 'o', 'n', '\'', 't', ' ', 'C', 'o', 'm', 'e'],
        BetType::Field => seq!['F', 'i', 'e', 'l', 'd'],
        BetType::Number(n) => seq!['N', 'u', 'm', 'b', 'e', 'r', ' '] + decimal(n as nat),
        BetType::Hard4 => seq!['H', 'a', 'r', 'd', ' ', '4'],
        BetType::Hard6 => seq!['H', 'a', 'r', 'd', ' ', '6'],
        BetType::Hard8 => seq!['H', 'a', 'r', 'd', ' ', '8'],
        BetType::Hard10 => seq!['H', 'a', 'r', 'd', ' ', '1', '0'],
        BetType::Odds(inner) => seq!['O', 'd', 'd', 's', ' ', 'o', 'n', ' '] + bet_label(*inner),
        BetType::Repeater(n) => seq!['R', 'e', 'p', 'e', 'a', 't', 'e', 'r', ' '] + decimal(n as nat),
    }
}

impl BetType {
    /// The name of the bet.
    pub fn label(&self) -> (r: String)
        ensures
            r@ == bet_label(*self),
        decreases self,
    {
        match self {
            BetType::Pass => {
                let s = String::from_str("Pass Line");
                proof {
                    reveal_strlit("Pass Line");
                }
                s
            },
            BetType::DontPass => {
                let s = String::from_str("Don't Pass");
                proof {
                    reveal_strlit("Don't Pass");
                }
                s
            },
            BetType::Come => {
                let s = String::from_str("Come");
                proof {
                    reveal_strlit("Come");
                }
                s
            },
            BetType::DontCome => {
                let s = String::from_str("Don't Come");
                proof {
                    reveal_strlit("Don't Come");
                }
                s
            },
            BetType::Field => {
                let s = String::from_str("Field");
                proof {
                    reveal_strlit("Field");
                }
                s
            },
            BetType::Number(n) => {
                let mut s = String::from_str("Number ");
                proof {
                    reveal_strlit("Number ");
                }
                push_decimal(&mut s, *n);
                s
            },
            BetType::Hard4 => {
                let s = String::from_str("Hard 4");
                proof {
                    reveal_strlit("Hard 4");
                }
                s
            },
            BetType::Hard6 => {
                let s = String::from_str("Hard 6");
                proof {
                    reveal_strlit("Hard 6");
                }
                s
            },
            BetType::Hard8 => {
                let s = String::from_str("Hard 8");
                proof {
                    reveal_strlit("Hard 8");
                }
                s
            },
            BetType::Hard10 => {
                let s = String::from_str("Hard 10");
                proof {
                    reveal_strlit("Hard 10");
                }
                s
            },
            BetType::Odds(inner) => {
                let mut s = String::from_str("Odds on ");
                proof {
                    reveal_strlit("Odds on ");
                }
                let rest = inner.label();
                s.append(rest.as_str());
                s
            },
            BetType::Repeater(n) => {
                let mut s = String::from_str("Repeater ");
                proof {
                    reveal_strlit("Repeater ");
                }
                push_decimal(&mut s, *n);
                s
            },
        }
    }
}

/// Row `i` (0..3) of the face of a die showing `d`, five characters wide.
pub open spec fn face_row(d: u8, i: int) -> Seq<char> {
    if i == 1 {
        if d == 1 || d == 3 || d == 5 {
            "  •  "@
        } else if d == 6 {
            "•   •"@
        } else {
            "     "@
        }
    } else if d == 1 {
        "     "@
    } else if d == 2 || d == 3 {
        if i == 0 { "•    "@ } else { "    •"@ }
    } else {
        "•   •"@
    }
}

/// Row `i` of the face of a die.
fn face_row_text(d: u8, i: usize) -> (r: &'static str)
    requires
        1 <= d <= 6,
        i < 3,
    ensures
        r@ == face_row(d, i as int),
{
    if i == 1 {
        if d == 1 || d == 3 || d == 5 {
            "  •  "
        } else if d == 6 {
            "•   •"
        } else {
            "     "
        }
    } else if d == 1 {
        "     "
    } else if d == 2 || d == 3 {
        if i == 0 { "•    " } else { "    •" }
    } else {
        "•   •"
    }
}

/// The lines that draw two dice: their faces in boxes, their values, and their total.
pub open spec fn dice_lines(d1: u8, d2: u8) -> Seq<Seq<char>> {
    seq![
        "┌─────┐ ┌─────┐"@,
        "│"@ + face_row(d1, 0) + "│ │"@ + face_row(d2, 0) + "│"@,
        "│"@ + face_row(d1, 1) + "│ │"@ + face_row(d2, 1) + "│"@,
        "│"@ + face_row(d1, 2) + "│ │"@ + face_row(d2, 2) + "│"@,
        "└─────┘ └─────┘"@,
        "   "@ + decimal(d1 as nat) + "       "@ + decimal(d2 as nat) + "   "@,
        "   Total: "@ + decimal((d1 + d2) as nat) + "   "@
    ]
}

/// Draws two dice as lines of text.
pub fn format_dice(d1: u8, d2: u8) -> (r: Vec<String>)
    requires
        1 <= d1 <= 6,
        1 <= d2 <= 6,
    ensures
        r@.len() == 7,
        forall|k: int| 0 <= k < 7 ==> #[trigger] r@[k]@ == dice_lines(d1, d2)[k],
{
    let mut result: Vec<String> = Vec::new();
    result.push(String::from_str("┌─────┐ ┌─────┐"));
    let mut i: usize = 0;
    while i < 3
        invariant
            0 <= i <= 3,
            1 <= d1 <= 6,
            1 <= d2 <= 6,
            result@.len() == i + 1,
            forall|k: int| 0 <= k < i + 1 ==> #[trigger] result@[k]@ == dice_lines(d1, d2)[k],
        decreases 3 - i,
    {
        let mut line = String::from_str("│");
        line.append(face_row_text(d1, i));
        line.append("│ │");
        line.append(face_row_text(d2, i));
        line.append("│");
        assert(line@ =~= dice_lines(d1, d2)[i + 1]);
        result.push(line);
        i += 1;
    }
    result.push(String::from_str("└─────┘ └─────┘"));
    let mut values = String::from_str("   ");
    push_decimal(&mut values, d1);
    values.append("       ");
    push_decimal(&mut values, d2);
    values.append("   ");
    result.push(values);
    let mut total = String::from_str("   Total: ");
    push_decimal(&mut total, d1 + d2);
    total.append("   ");
    result.push(total);
    result
}

} // verus!
