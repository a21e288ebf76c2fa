use craps_pinocchio::bet_encoding::{
    decode_amount, decode_amount_safe, decode_bet, decode_bet_from_batch, encode_amount, encode_bet,
    get_amount_index, get_bet_type, BetMetadata,
};
use craps_pinocchio::error::{CrapsError, ProgramError};
use craps_pinocchio::state::bet::BetBatch;

#[test]
fn test_encode_decode_bet() {
    let test_cases = [
        (0u8, 1_000_000_000),
        (1, 100_000_000_000),
        (4, 500_000_000_000),
        (48, 1_000_000_000_000),
        (63, 10_000_000_000_000),
    ];
    for &(bet_type, amount) in test_cases.iter() {
        let encoded = encode_bet(bet_type, amount).unwrap();
        let (decoded_type, decoded_amount) = decode_bet(encoded);
        assert_eq!(bet_type, decoded_type, "Bet type mismatch");
        assert_eq!(amount, decoded_amount, "Amount mismatch");
    }
}

#[test]
fn test_amount_encoding_ranges() {
    let test_amounts = [
        1_000_000_000,
        100_000_000_000,
        105_000_000_000,
        500_000_000_000,
        510_000_000_000,
        1_500_000_000_000,
        1_525_000_000_000,
        5_000_000_000_000,
        5_050_000_000_000,
        10_000_000_000_000,
        20_000_000_000_000,
        40_000_000_000_000,
        60_000_000_000_000,
        80_000_000_000_000,
        100_000_000_000_000,
    ];
    for &amount in test_amounts.iter() {
        let index = encode_amount(amount).unwrap();
        let decoded = decode_amount(index);
        assert_eq!(amount, decoded, "Amount encoding/decoding failed for {}", amount);
    }
}

#[test]
fn test_invalid_amounts() {
    let invalid_amounts = [0, 999_999_999, 1_000_000_001, 103_000_000_000, 100_001_000_000_000];
    for &amount in invalid_amounts.iter() {
        assert!(encode_amount(amount).is_err(), "Should fail to encode amount {}", amount);
    }
}

#[test]
fn test_all_bet_types() {
    let amount = 1_000_000_000;
    for bet_type in 0..=63u8 {
        let encoded = encode_bet(bet_type, amount).unwrap();
        let (decoded_type, _) = decode_bet(encoded);
        assert_eq!(bet_type, decoded_type, "Failed for bet type {}", bet_type);
    }
}

#[test]
fn test_max_values() {
    let max_bet_type = 63u8;
    let max_amount = 100_000_000_000_000u64;
    let encoded = encode_bet(max_bet_type, max_amount).unwrap();
    let (decoded_type, decoded_amount) = decode_bet(encoded);
    assert_eq!(max_bet_type, decoded_type);
    assert_eq!(max_amount, decoded_amount);
}

#[test]
fn every_index_round_trips() {
    for index in 0..=767u16 {
        let amount = decode_amount(index);
        assert_eq!(encode_amount(amount), Ok(index));
        assert_eq!(decode_amount_safe(index), Ok(amount));
    }
    assert_eq!(decode_amount(768), 0);
    assert_eq!(decode_amount_safe(768), Err(ProgramError::Custom(CrapsError::InvalidBetAmount)));
}

#[test]
fn encoded_index_values() {
    assert_eq!(encode_amount(1_000_000_000), Ok(0));
    assert_eq!(encode_amount(100_000_000_000), Ok(99));
    assert_eq!(encode_amount(105_000_000_000), Ok(100));
    assert_eq!(encode_amount(100_000_000_000_000), Ok(767));
    assert_eq!(decode_amount(179), 500_000_000_000);
}

#[test]
fn encode_bet_errors() {
    assert_eq!(encode_bet(64, 1_000_000_000), Err(ProgramError::Custom(CrapsError::InvalidBetKind)));
    assert_eq!(encode_bet(3, 5), Err(ProgramError::Custom(CrapsError::InvalidBetAmount)));
}

#[test]
fn packed_bet_fields() {
    let packed = encode_bet(10, 2_000_000_000).unwrap();
    assert_eq!(packed, (1 << 6) | 10);
    assert_eq!(get_bet_type(packed), 10);
    assert_eq!(get_amount_index(packed), 1);
}

fn empty_batch() -> BetBatch {
    BetBatch {
        epoch: [0; 8],
        player: [0; 32],
        bet_count: 0,
        _padding1: [0; 7],
        total_amount: [0; 8],
        packed_bets: [0; 32],
        resolved_mask: [0; 2],
        realizable_mask: [0; 2],
        settled_mask: [0; 2],
        winning_mask: [0; 2],
        payout_total: [0; 8],
        individual_payouts: [0; 128],
        come_points: [0; 16],
        linked_bets: [0; 16],
        cached_outcomes: [0; 16],
        cache_epoch: [0; 8],
        bump: 0,
        _padding2: [0; 7],
    }
}

#[test]
fn decoding_bets_from_a_batch() {
    let mut batch = empty_batch();
    batch.set_packed_bet(0, encode_bet(4, 5_000_000_000).unwrap());
    batch.set_packed_bet(1, encode_bet(29, 1_000_000_000).unwrap());
    batch.bet_count = 2;
    assert_eq!(
        decode_bet_from_batch(&batch, 0),
        Ok(BetMetadata { bet_type: 4, amount: 5_000_000_000, base_bet_index: None })
    );
    assert_eq!(
        decode_bet_from_batch(&batch, 1),
        Ok(BetMetadata { bet_type: 29, amount: 1_000_000_000, base_bet_index: Some(0) })
    );
    assert_eq!(decode_bet_from_batch(&batch, 2), Err(ProgramError::Custom(CrapsError::InvalidBetData)));
}
