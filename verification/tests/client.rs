use craps_pinocchio::client::display::format_dice;
use craps_pinocchio::client::game::{BetType, GamePhase, GameState};

#[test]
fn fresh_table() {
    let g = GameState::new();
    assert_eq!(g.epoch, 0);
    assert_eq!(g.phase, GamePhase::ComeOut);
    assert_eq!(g.point, None);
    assert_eq!(g.dice_total(), None);
    assert!(!g.is_natural());
    assert!(!g.is_craps());
}

#[test]
fn shown_dice() {
    let mut g = GameState::new();
    g.die1 = Some(5);
    g.die2 = Some(6);
    assert_eq!(g.dice_total(), Some(11));
    assert!(g.is_natural());
    g.die1 = Some(6);
    assert!(g.is_craps());
    g.die2 = None;
    assert_eq!(g.dice_total(), None);
    assert!(GameState::is_point_number(4));
    assert!(!GameState::is_point_number(7));
}

#[test]
fn program_bet_kinds() {
    assert_eq!(BetType::Pass.to_program_bet_type(), 0);
    assert_eq!(BetType::Field.to_program_bet_type(), 4);
    assert_eq!(BetType::Number(4).to_program_bet_type(), 7);
    assert_eq!(BetType::Number(10).to_program_bet_type(), 12);
    assert_eq!(BetType::Hard8.to_program_bet_type(), 27);
    assert_eq!(BetType::Odds(Box::new(BetType::DontCome)).to_program_bet_type(), 32);
    assert_eq!(BetType::Repeater(2).to_program_bet_type(), 54);
    assert_eq!(BetType::Repeater(8).to_program_bet_type(), 59);
    assert_eq!(BetType::Repeater(12).to_program_bet_type(), 63);
}

#[test]
fn bet_labels() {
    assert_eq!(BetType::Pass.label(), "Pass Line");
    assert_eq!(BetType::DontCome.label(), "Don't Come");
    assert_eq!(BetType::Number(6).label(), "Number 6");
    assert_eq!(BetType::Hard10.label(), "Hard 10");
    assert_eq!(BetType::Odds(Box::new(BetType::Come)).label(), "Odds on Come");
    assert_eq!(BetType::Repeater(11).label(), "Repeater 11");
}

#[test]
fn dice_drawing() {
    let lines = format_dice(3, 6);
    assert_eq!(lines.len(), 7);
    assert_eq!(lines[0], "┌─────┐ ┌─────┐");
    assert_eq!(lines[1], "│•    │ │•   •│");
    assert_eq!(lines[2], "│  •  │ │•   •│");
    assert_eq!(lines[3], "│    •│ │•   •│");
    assert_eq!(lines[4], "└─────┘ └─────┘");
    assert_eq!(lines[5], "   3       6   ");
    assert_eq!(lines[6], "   Total: 9   ");
    let ones = format_dice(1, 1);
    assert_eq!(ones[1], "│     │ │     │");
    assert_eq!(ones[2], "│  •  │ │  •  │");
    assert_eq!(ones[6], "   Total: 2   ");
}
