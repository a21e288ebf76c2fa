use craps_pinocchio::bet_encoding::{encode_bet, BetMetadata};
use craps_pinocchio::claim::{
    apply_claim, calculate_bet_payout, check_claim, compute_claim_payout, evaluate_dont_pass, evaluate_field,
    evaluate_fire_bet, evaluate_hard_way, evaluate_hot_roller, evaluate_muggsy, evaluate_next_bet,
    evaluate_no_bet, evaluate_odds_dont_pass, evaluate_odds_pass, evaluate_pass_line,
    evaluate_repeater_bet, evaluate_replay, evaluate_ride_line, evaluate_yes_bet, EpochOutcome,
};
use craps_pinocchio::error::{CrapsError, ProgramError};
use craps_pinocchio::state::bet::BetBatch;
use craps_pinocchio::state::bonus::BonusState;
use craps_pinocchio::state::player::ScalablePlayerState;
use craps_pinocchio::state::treasury::Treasury;

const CRAP: u64 = 1_000_000_000;

fn batch_for(player: [u8; 32], epoch: u64) -> BetBatch {
    BetBatch {
        epoch: epoch.to_le_bytes(),
        player,
        bet_count: 0,
        _padding1: [0; 7],
        total_amount: [0; 8],
        packed_bets: [0; 32],
        resolved_mask: [0; 2],
        realizable_mask: [0; 2],
        settled_mask: [0; 2],
        winning_mask: [0; 2],
        payout_total: [0; 8],
        individual_payouts: [0; 128],
        come_points: [0; 16],
        linked_bets: [0; 16],
        cached_outcomes: [0; 16],
        cache_epoch: [0; 8],
        bump: 0,
        _padding2: [0; 7],
    }
}

fn outcome(epoch: u64, d1: u8, d2: u8, phase: u8, point: u8) -> EpochOutcome {
    EpochOutcome {
        epoch: epoch.to_le_bytes(),
        dice: [d1, d2],
        phase,
        point,
        resolved: 1,
        _padding: [0; 3],
        total_payouts: [0; 8],
        finalized_slot: [0; 8],
        _reserved: [0; 32],
    }
}

fn player_state(player: [u8; 32], balance: u64) -> ScalablePlayerState {
    ScalablePlayerState {
        player,
        balance: balance.to_le_bytes(),
        active_tournament: [0; 32],
        current_epoch: [0; 8],
        total_wagered: [0; 8],
        total_won: [0; 8],
        last_bet_slot: [0; 8],
        last_claim_slot: [0; 8],
        last_tournament_update_slot: [0; 8],
        verification_tier: 0,
        bump: 0,
        _padding: [0; 6],
    }
}

fn treasury() -> Treasury {
    Treasury {
        authority: [0; 32],
        token_mint: [0; 32],
        vault: [0; 32],
        total_deposits: [0; 8],
        total_withdrawals: [0; 8],
        total_payouts: [0; 8],
        total_bets_placed: [0; 8],
        total_bets_settled: [0; 8],
        last_update_slot: [0; 8],
        emergency_shutdown: 0,
        bump: 0,
        _padding: [0; 6],
    }
}

#[test]
fn line_bets() {
    assert_eq!(evaluate_pass_line(10, 7, 0, 0), Ok(20));
    assert_eq!(evaluate_pass_line(10, 2, 0, 0), Ok(0));
    assert_eq!(evaluate_pass_line(10, 6, 1, 6), Ok(20));
    assert_eq!(evaluate_pass_line(10, 7, 1, 6), Ok(0));
    assert_eq!(evaluate_dont_pass(10, 12, 0, 0), Ok(10));
    assert_eq!(evaluate_dont_pass(10, 3, 0, 0), Ok(20));
    assert_eq!(evaluate_dont_pass(10, 7, 1, 6), Ok(20));
}

#[test]
fn field_yes_no_hard_next() {
    assert_eq!(evaluate_field(10, 2), Ok(30));
    assert_eq!(evaluate_field(10, 12), Ok(40));
    assert_eq!(evaluate_field(10, 9), Ok(20));
    assert_eq!(evaluate_field(10, 7), Ok(0));
    assert_eq!(evaluate_yes_bet(10, 2, 2), Ok(70));
    assert_eq!(evaluate_yes_bet(10, 5, 5), Ok(25));
    assert_eq!(evaluate_yes_bet(10, 6, 6), Ok(22));
    assert_eq!(evaluate_yes_bet(10, 7, 6), Ok(0));
    assert_eq!(evaluate_no_bet(12, 7, 2), Ok(14));
    assert_eq!(evaluate_no_bet(12, 7, 6), Ok(22));
    assert_eq!(evaluate_no_bet(12, 6, 6), Ok(0));
    assert_eq!(evaluate_hard_way(10, 8, 8, true), Ok(100));
    assert_eq!(evaluate_hard_way(10, 8, 8, false), Ok(0));
    assert_eq!(evaluate_next_bet(10, 7, 7), Ok(50));
    assert_eq!(evaluate_next_bet(10, 12, 12), Ok(360));
}

#[test]
fn odds_bets() {
    assert_eq!(evaluate_odds_pass(10, 4, 1, 4), Ok(30));
    assert_eq!(evaluate_odds_pass(10, 5, 1, 5), Ok(25));
    assert_eq!(evaluate_odds_pass(10, 8, 1, 8), Ok(22));
    assert_eq!(evaluate_odds_pass(10, 8, 0, 8), Ok(0));
    assert_eq!(evaluate_odds_dont_pass(12, 7, 1, 4), Ok(18));
    assert_eq!(evaluate_odds_dont_pass(12, 7, 1, 9), Ok(20));
}

#[test]
fn bonus_bets() {
    let mut bonus = BonusState::new();
    bonus.hot_roller_count = 4;
    bonus.fire_points = 5;
    bonus.ride_line_streak = 12;
    bonus.pass_wins = [4, 0, 0, 0, 0, 0];
    bonus.hits[0] = 2;
    assert_eq!(evaluate_hot_roller(2, 7, 1, &bonus), Ok(40));
    assert_eq!(evaluate_hot_roller(2, 7, 0, &bonus), Ok(0));
    assert_eq!(evaluate_fire_bet(2, 7, 1, &bonus), Ok(500));
    assert_eq!(evaluate_ride_line(2, 7, 1, 4, &bonus), Ok(302));
    assert_eq!(evaluate_replay(2, 7, 1, 4, &bonus), Ok(2002));
    assert_eq!(evaluate_repeater_bet(2, 7, 2, 1, &bonus), Ok(82));
    assert_eq!(evaluate_repeater_bet(2, 7, 3, 1, &bonus), Ok(0));
    assert_eq!(evaluate_muggsy(2, 7, 0, 0), Ok(6));
    assert_eq!(evaluate_muggsy(2, 7, 1, 5), Ok(8));
}

#[test]
fn dispatch_on_the_kind() {
    let bonus = BonusState::new();
    let bet = |bet_type: u8| BetMetadata { bet_type, amount: 10, base_bet_index: None };
    assert_eq!(calculate_bet_payout(&bet(0), 7, 0, 0, &bonus), Ok(20));
    assert_eq!(calculate_bet_payout(&bet(5), 2, 0, 0, &bonus), Ok(70));
    assert_eq!(calculate_bet_payout(&bet(19), 7, 0, 0, &bonus), Ok(18));
    assert_eq!(calculate_bet_payout(&bet(26), 6, 1, 4, &bonus), Ok(100));
    assert_eq!(calculate_bet_payout(&bet(31), 7, 1, 4, &bonus), Ok(0));
    assert_eq!(calculate_bet_payout(&bet(48), 7, 0, 0, &bonus), Ok(50));
    assert_eq!(calculate_bet_payout(&bet(64), 7, 0, 0, &bonus), Ok(0));
}

#[test]
fn claim_totals_and_books_a_batch() {
    let who = [9u8; 32];
    let mut batch = batch_for(who, 3);
    batch.set_packed_bet(0, encode_bet(0, 2 * CRAP).unwrap());
    batch.set_packed_bet(1, encode_bet(4, 5 * CRAP).unwrap());
    batch.set_packed_bet(2, encode_bet(1, CRAP).unwrap());
    batch.bet_count = 3;
    let out = outcome(3, 5, 6, 0, 0);
    let bonus = BonusState::new();
    let total = compute_claim_payout(3, &who, &out, &batch, &bonus).unwrap();
    assert_eq!(total, 4 * CRAP + 10 * CRAP);

    let mut player = player_state(who, 100);
    let mut t = treasury();
    apply_claim(total, total, &mut batch, &mut player, &mut t).unwrap();
    assert_eq!(player.get_balance(), 100 + total);
    assert_eq!(player.get_total_won(), total);
    assert_eq!(t.get_total_payouts(), total);
    assert_eq!(t.get_total_bets_settled(), 3);
    assert_eq!(batch.get_settled_mask(), 0b111);
    assert!(batch.is_bet_settled(2));
    assert!(!batch.is_bet_settled(3));
    // the batch is paid: a second claim is refused
    assert_eq!(
        compute_claim_payout(3, &who, &out, &batch, &bonus),
        Err(ProgramError::Custom(CrapsError::AlreadyClaimed))
    );
    assert_eq!(check_claim(3, &who, &out, &batch), Err(ProgramError::Custom(CrapsError::AlreadyClaimed)));
}

#[test]
fn claim_refusals() {
    let who = [9u8; 32];
    let batch = batch_for(who, 3);
    let bonus = BonusState::new();
    assert_eq!(
        compute_claim_payout(4, &who, &outcome(3, 1, 1, 0, 0), &batch, &bonus),
        Err(ProgramError::Custom(CrapsError::InvalidEpoch))
    );
    let mut unresolved = outcome(3, 1, 1, 0, 0);
    unresolved.resolved = 0;
    assert_eq!(
        compute_claim_payout(3, &who, &unresolved, &batch, &bonus),
        Err(ProgramError::Custom(CrapsError::RngNotFinalized))
    );
    assert_eq!(
        compute_claim_payout(3, &[1u8; 32], &outcome(3, 1, 1, 0, 0), &batch, &bonus),
        Err(ProgramError::Custom(CrapsError::InvalidPlayer))
    );
    let mut settled = batch;
    settled.set_settled_mask(0xFFFF);
    assert_eq!(
        compute_claim_payout(3, &who, &outcome(3, 1, 1, 0, 0), &settled, &bonus),
        Err(ProgramError::Custom(CrapsError::AlreadyClaimed))
    );
    let mut b = batch_for(who, 3);
    b.bet_count = 1;
    let mut p = player_state(who, 0);
    let mut t = treasury();
    assert_eq!(
        apply_claim(10, 9, &mut b, &mut p, &mut t),
        Err(ProgramError::Custom(CrapsError::InsufficientTreasuryFunds))
    );
    assert_eq!(b.get_settled_mask(), 0);
    let mut rich = player_state(who, u64::MAX);
    assert_eq!(apply_claim(1, 1, &mut b, &mut rich, &mut t), Err(ProgramError::ArithmeticOverflow));
    assert_eq!(rich.get_balance(), u64::MAX);
}

#[test]
fn outcome_getters() {
    let mut out = outcome(42, 2, 5, 1, 6);
    out.total_payouts = 77u64.to_le_bytes();
    out.finalized_slot = 88u64.to_le_bytes();
    assert_eq!(out.get_epoch(), 42);
    assert_eq!(out.get_dice_total(), 7);
    assert_eq!(out.get_total_payouts(), 77);
    assert_eq!(out.get_finalized_slot(), 88);
}
