use craps_pinocchio::dice::{
    are_dice_valid, calculate_roll_total, extract_dice_from_combination_id, get_dice_combination_id,
    get_dont_pass_odds_payout, get_field_multiplier, get_pass_odds_payout, get_roll_type,
    is_big_six_eight_winner, is_craps, is_field_winner, is_hard_way, is_natural, is_point_made,
    is_seven_out, is_specific_hard_way, is_valid_point_roll, ways_to_roll,
};

#[test]
fn test_roll_calculations() {
    assert_eq!(calculate_roll_total(3, 4), 7);
    assert_eq!(calculate_roll_total(6, 6), 12);
    assert_eq!(calculate_roll_total(1, 1), 2);
}

#[test]
fn test_seven_out() {
    assert!(is_seven_out(3, 4));
    assert!(is_seven_out(1, 6));
    assert!(!is_seven_out(3, 3));
}

#[test]
fn test_craps() {
    assert!(is_craps(1, 1));
    assert!(is_craps(1, 2));
    assert!(is_craps(6, 6));
    assert!(!is_craps(3, 4));
}

#[test]
fn test_natural() {
    assert!(is_natural(3, 4));
    assert!(is_natural(5, 6));
    assert!(!is_natural(3, 3));
}

#[test]
fn test_hard_ways() {
    assert!(is_hard_way(2, 2));
    assert!(is_hard_way(3, 3));
    assert!(is_hard_way(4, 4));
    assert!(is_hard_way(5, 5));
    assert!(!is_hard_way(2, 3));
    assert!(!is_hard_way(1, 1));
    assert!(!is_hard_way(6, 6));
}

#[test]
fn test_field_bet() {
    assert!(is_field_winner(1, 1));
    assert!(is_field_winner(5, 6));
    assert!(!is_field_winner(3, 4));
    assert!(!is_field_winner(2, 3));
}

#[test]
fn test_point_validation() {
    assert!(is_valid_point_roll(2, 2));
    assert!(is_valid_point_roll(4, 6));
    assert!(!is_valid_point_roll(1, 1));
    assert!(!is_valid_point_roll(3, 4));
}

#[test]
fn test_dice_combination_id() {
    let id = get_dice_combination_id(3, 4);
    let (die1, die2) = extract_dice_from_combination_id(id);
    assert_eq!(die1, 3);
    assert_eq!(die2, 4);
}

#[test]
fn combination_id_packs_die1_high_die2_low() {
    assert_eq!(get_dice_combination_id(3, 4), 0x34);
    assert_eq!(get_dice_combination_id(6, 1), 0x61);
    for d1 in 1..=6u8 {
        for d2 in 1..=6u8 {
            let id = get_dice_combination_id(d1, d2);
            assert_eq!(extract_dice_from_combination_id(id), (d1, d2));
        }
    }
}

#[test]
fn point_made_needs_a_point() {
    assert!(is_point_made(2, 2, 4));
    assert!(!is_point_made(2, 2, 0));
    assert!(!is_point_made(3, 4, 4));
}

#[test]
fn specific_hard_ways() {
    assert!(is_specific_hard_way(3, 3, 6));
    assert!(!is_specific_hard_way(2, 4, 6));
    assert!(!is_specific_hard_way(3, 3, 8));
}

#[test]
fn roll_type_names() {
    assert_eq!(get_roll_type(3, 4), "Natural Seven");
    assert_eq!(get_roll_type(2, 2), "Hard Four");
    assert_eq!(get_roll_type(1, 3), "Easy Four");
    assert_eq!(get_roll_type(5, 6), "Yo-leven");
    assert_eq!(get_roll_type(1, 1), "Snake Eyes");
    assert_eq!(get_roll_type(6, 6), "Boxcars");
}

#[test]
fn field_multipliers_and_big_six_eight() {
    assert_eq!(get_field_multiplier(1, 1), 2);
    assert_eq!(get_field_multiplier(6, 6), 3);
    assert_eq!(get_field_multiplier(1, 2), 1);
    assert_eq!(get_field_multiplier(3, 4), 1);
    assert!(is_big_six_eight_winner(3, 3, 6));
    assert!(is_big_six_eight_winner(2, 6, 8));
    assert!(!is_big_six_eight_winner(3, 4, 7));
}

#[test]
fn ways_and_odds() {
    let total: u32 = (2..=12u8).map(|t| ways_to_roll(t) as u32).sum();
    assert_eq!(total, 36);
    assert_eq!(ways_to_roll(7), 6);
    assert_eq!(ways_to_roll(13), 0);
    assert_eq!(get_pass_odds_payout(4), (2, 1));
    assert_eq!(get_pass_odds_payout(5), (3, 2));
    assert_eq!(get_pass_odds_payout(6), (6, 5));
    assert_eq!(get_dont_pass_odds_payout(4), (1, 2));
    assert_eq!(get_dont_pass_odds_payout(8), (5, 6));
    assert!(are_dice_valid(1, 6));
    assert!(!are_dice_valid(0, 6));
    assert!(!are_dice_valid(1, 7));
}
