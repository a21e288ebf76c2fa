use craps_pinocchio::events::{
    event_log_line, emit_bet_placed, emit_deposit, emit_dice_rolled, emit_emergency_action, emit_payout_claimed,
    emit_simple_event, emit_withdrawal, BetPlacedEvent, DepositEvent, DiceRolledEvent,
    EmergencyActionEvent, EventHeader, EventType, PayoutClaimedEvent, WithdrawalEvent,
};

#[test]
fn test_event_sizes() {
    assert!(core::mem::size_of::<BetPlacedEvent>() < 256);
    assert!(core::mem::size_of::<DiceRolledEvent>() < 256);
    assert!(core::mem::size_of::<PayoutClaimedEvent>() < 256);
    assert!(core::mem::size_of::<DepositEvent>() < 256);
    assert!(core::mem::size_of::<WithdrawalEvent>() < 256);
    assert!(core::mem::size_of::<EmergencyActionEvent>() < 256);
}

#[test]
fn test_event_header() {
    let header = EventHeader {
        event_type: EventType::BetPlaced.code(),
        timestamp: 1234567890i64.to_le_bytes(),
        epoch: 100u64.to_le_bytes(),
        slot: 50000u64.to_le_bytes(),
    };
    assert_eq!(header.event_type, 1);
    assert_eq!(i64::from_le_bytes(header.timestamp), 1234567890);
    assert_eq!(u64::from_le_bytes(header.epoch), 100);
    assert_eq!(u64::from_le_bytes(header.slot), 50000);
}

fn line_bytes(line: &str) -> Vec<u8> {
    let encoded = line.strip_prefix("EVENT:").expect("event prefix");
    bs58::decode(encoded).into_vec().expect("base58 text")
}

#[test]
fn event_codes() {
    assert_eq!(EventType::BetPlaced.code(), 1);
    assert_eq!(EventType::EpochEnded.code(), 8);
    assert_eq!(EventType::AuthorityChanged.code(), 10);
}

#[test]
fn bet_placed_line_carries_the_layout() {
    let player = [7u8; 32];
    let line = emit_bet_placed(&player, 5, 1_000, 3, 9, 77, -2);
    let bytes = line_bytes(&line);
    assert_eq!(bytes.len(), 73);
    assert_eq!(bytes[0], 1);
    assert_eq!(&bytes[1..9], &(-2i64).to_le_bytes());
    assert_eq!(&bytes[9..17], &9u64.to_le_bytes());
    assert_eq!(&bytes[17..25], &77u64.to_le_bytes());
    assert_eq!(&bytes[25..57], &player);
    assert_eq!(bytes[57], 5);
    assert_eq!(&bytes[58..66], &1_000u64.to_le_bytes());
    assert_eq!(&bytes[66..68], &3u16.to_le_bytes());
    assert_eq!(&bytes[68..73], &[0u8; 5]);
}

#[test]
fn dice_rolled_line() {
    let bytes = line_bytes(&emit_dice_rolled(3, 4, 0, 0, true, 1, 2, 3));
    assert_eq!(bytes.len(), 33);
    assert_eq!(bytes[0], 2);
    assert_eq!(&bytes[25..31], &[3, 4, 7, 0, 0, 1]);
}

#[test]
fn other_event_lines() {
    let who = [1u8; 32];
    let claimed = line_bytes(&emit_payout_claimed(&who, 500, 2, 1, 4, 6, 10, 11));
    assert_eq!(claimed.len(), 81);
    assert_eq!(claimed[0], 3);
    assert_eq!(&claimed[9..17], &6u64.to_le_bytes());
    assert_eq!(&claimed[69..77], &4u64.to_le_bytes());
    assert_eq!(&claimed[77..81], &[0u8; 4][..]);
    let deposit = line_bytes(&emit_deposit(&who, 10, 20, true, 1, 2, 3));
    assert_eq!(deposit.len(), 81);
    assert_eq!(deposit[0], 5);
    assert_eq!(deposit[73], 1);
    let withdrawal = line_bytes(&emit_withdrawal(&who, 10, 20, false, 1, 2, 3));
    assert_eq!(withdrawal[0], 6);
    assert_eq!(withdrawal[73], 0);
    let emergency = line_bytes(&emit_emergency_action(&who, 2, 0, 1, 1, 2, 3));
    assert_eq!(emergency.len(), 65);
    assert_eq!(emergency[0], 9);
    assert_eq!(&emergency[57..60], &[2, 0, 1]);
}

#[test]
fn simple_event_lines() {
    assert_eq!(emit_simple_event(EventType::DiceRolled, "hello"), "EVENT_2:hello");
    assert_eq!(emit_simple_event(EventType::AuthorityChanged, ""), "EVENT_10:");
}

#[test]
fn base58_lines() {
    assert_eq!(event_log_line(&[]), "EVENT:");
    assert_eq!(event_log_line(&[0, 0]), "EVENT:11");
    assert_eq!(event_log_line(&[58]), "EVENT:21");
    assert_eq!(event_log_line(&[0, 255]), "EVENT:15Q");
    assert_eq!(event_log_line(&[1, 0]), "EVENT:5R");
}
