use craps_pinocchio::error::{CrapsError, ProgramError};
use craps_pinocchio::instructions::game::{collect_block_hash, finalize_rng, secure_auto_roll, start_betting_phase};
use craps_pinocchio::rng::mix_entropy;
use craps_pinocchio::state::bonus::BonusState;
use craps_pinocchio::state::game::GlobalGameState;
use craps_pinocchio::state::rng::{RngPhase, RngState};

const ROLLER: [u8; 32] = [5u8; 32];

fn game(epoch: u64, phase: u8, point: u8) -> GlobalGameState {
    GlobalGameState {
        game_epoch: epoch.to_le_bytes(),
        current_dice: 0,
        current_die1: 0,
        current_die2: 0,
        current_point: point,
        game_phase: phase,
        _padding1: [0; 3],
        epoch_start_slot: [0; 8],
        next_roll_slot: [0; 8],
        shooter_established_epoch: [0; 8],
        total_active_bets: [0; 8],
        epoch_roll_count: [0; 4],
        _padding2: [0; 4],
        treasury: [0; 32],
        authority: [1; 32],
        rng_authority: ROLLER,
        crap_token_mint: [0; 32],
        dev_mode_enabled: 0,
        paused: 0,
        use_secure_rng: 0,
        bump: 0,
        _padding3: [0; 4],
    }
}

fn rng(epoch: u64, phase: u8, final_value: u64) -> RngState {
    RngState {
        epoch: epoch.to_le_bytes(),
        phase,
        hash_count: 0,
        _padding1: [0; 6],
        betting_start_slot: [0; 8],
        collection_start_slot: [0; 8],
        finalization_slot: [0; 8],
        block_hashes: [0; 320],
        final_value: final_value.to_le_bytes(),
        bump: 0,
        _padding2: [0; 7],
    }
}

/// A final value whose dice are `d1` and `d2`.
fn value_for(d1: u8, d2: u8) -> u64 {
    (d1 as u64 - 1) | ((d2 as u64 - 1) << 8)
}

#[test]
fn come_out_point_is_set() {
    let mut g = game(4, 0, 0);
    let mut bonus = BonusState::new();
    let r = rng(4, 2, value_for(2, 4));
    assert_eq!(secure_auto_roll(&mut g, &mut bonus, &r, &ROLLER, 1000), Ok((2, 4)));
    assert_eq!(g.game_phase, 1);
    assert_eq!(g.current_point, 6);
    assert_eq!(g.current_dice, 6);
    assert_eq!(g.get_next_roll_slot(), 1060);
    assert_eq!(g.get_epoch_roll_count(), 1);
    assert_eq!(g.get_game_epoch(), 4);
    assert_eq!(bonus.get_hit_count(6), 1);
    assert!(bonus.is_small_rolled(6));
}

#[test]
fn come_out_natural_and_craps_keep_the_phase() {
    let mut g = game(4, 0, 0);
    let mut bonus = BonusState::new();
    assert_eq!(secure_auto_roll(&mut g, &mut bonus, &rng(4, 2, value_for(5, 6)), &ROLLER, 1), Ok((5, 6)));
    assert_eq!(g.game_phase, 0);
    assert_eq!(secure_auto_roll(&mut g, &mut bonus, &rng(4, 2, value_for(1, 1)), &ROLLER, 2), Ok((1, 1)));
    assert_eq!(g.game_phase, 0);
    assert_eq!(g.current_point, 0);
    assert_eq!(g.get_epoch_roll_count(), 2);
}

#[test]
fn point_made_returns_to_come_out() {
    let mut g = game(4, 1, 8);
    let mut bonus = BonusState::new();
    assert_eq!(secure_auto_roll(&mut g, &mut bonus, &rng(4, 2, value_for(4, 4)), &ROLLER, 1), Ok((4, 4)));
    assert_eq!((g.game_phase, g.current_point), (0, 0));
    assert_eq!(g.get_game_epoch(), 4);
    assert_eq!(bonus.get_pass_win_count(8), 1);
    assert_eq!(bonus.fire_points, 1);
}

#[test]
fn seven_out_starts_the_next_epoch() {
    let mut g = game(4, 1, 8);
    g.set_epoch_roll_count(5);
    let mut bonus = BonusState::new();
    bonus.fire_points = 3;
    bonus.hits[3] = 2;
    assert_eq!(secure_auto_roll(&mut g, &mut bonus, &rng(4, 2, value_for(3, 4)), &ROLLER, 1), Ok((3, 4)));
    assert_eq!((g.game_phase, g.current_point), (0, 0));
    assert_eq!(g.get_game_epoch(), 5);
    assert_eq!(g.get_epoch_roll_count(), 0);
    assert_eq!(bonus.fire_points, 0);
    assert_eq!(bonus.get_hit_count(5), 0);
}

#[test]
fn auto_roll_refusals_change_nothing() {
    let mut g = game(4, 0, 0);
    let mut bonus = BonusState::new();
    let before = g;
    assert_eq!(
        secure_auto_roll(&mut g, &mut bonus, &rng(4, 2, 0), &[9u8; 32], 1),
        Err(ProgramError::Custom(CrapsError::InvalidAuthority))
    );
    assert_eq!(
        secure_auto_roll(&mut g, &mut bonus, &rng(3, 2, 0), &ROLLER, 1),
        Err(ProgramError::Custom(CrapsError::InvalidEpoch))
    );
    assert_eq!(
        secure_auto_roll(&mut g, &mut bonus, &rng(4, 1, 0), &ROLLER, 1),
        Err(ProgramError::Custom(CrapsError::InvalidRngPhase))
    );
    g.paused = 1;
    assert_eq!(
        secure_auto_roll(&mut g, &mut bonus, &rng(4, 2, 0), &ROLLER, 1),
        Err(ProgramError::Custom(CrapsError::GamePaused))
    );
    g.paused = 0;
    g.game_phase = 7;
    assert_eq!(
        secure_auto_roll(&mut g, &mut bonus, &rng(4, 2, 0), &ROLLER, 1),
        Err(ProgramError::Custom(CrapsError::InvalidPhase))
    );
    g.game_phase = 0;
    assert_eq!(g.get_epoch_roll_count(), before.get_epoch_roll_count());
    assert_eq!(bonus.get_hit_count(2), 0);
}

#[test]
fn collect_then_finalize() {
    let g = game(0, 0, 0);
    let mut r = rng(0, 1, 0);
    for i in 0..10u8 {
        assert_eq!(collect_block_hash(&mut r, &g, &ROLLER), Ok(()));
        assert_eq!(r.hash_count, i + 1);
        assert_eq!(r.get_block_hash(i as usize), Some([i + 1; 32]));
    }
    // the state holds ten hashes; an eleventh is refused and nothing changes
    let full = r;
    assert_eq!(collect_block_hash(&mut r, &g, &ROLLER), Err(ProgramError::Custom(CrapsError::MaxBlockHashesReached)));
    assert_eq!(r.hash_count, full.hash_count);
    assert_eq!(r.block_hashes, full.block_hashes);
    let hashes: Vec<[u8; 32]> = (1..=10u8).map(|b| [b; 32]).collect();
    let mixed = mix_entropy(&hashes, 10).unwrap();
    let expected = u64::from_le_bytes(mixed[0..8].try_into().unwrap());
    assert_eq!(finalize_rng(&mut r, 777), Ok(()));
    assert_eq!(r.get_final_value(), expected);
    assert_eq!(r.get_phase(), RngPhase::Finalized);
    assert_eq!(r.get_finalization_slot(), 777);
}

#[test]
fn collect_and_finalize_refusals() {
    let g = game(0, 0, 0);
    let mut r = rng(0, 0, 0);
    assert_eq!(collect_block_hash(&mut r, &g, &ROLLER), Err(ProgramError::Custom(CrapsError::InvalidRngPhase)));
    assert_eq!(collect_block_hash(&mut r, &g, &[0u8; 32]), Err(ProgramError::Custom(CrapsError::InvalidAuthority)));
    r.hash_count = 15;
    r.phase = 1;
    assert_eq!(collect_block_hash(&mut r, &g, &ROLLER), Err(ProgramError::Custom(CrapsError::MaxBlockHashesReached)));
    let mut few = rng(0, 1, 0);
    few.hash_count = 9;
    assert_eq!(finalize_rng(&mut few, 1), Err(ProgramError::Custom(CrapsError::InsufficientBlockHashes)));
    let mut wrong = rng(0, 2, 0);
    wrong.hash_count = 10;
    assert_eq!(finalize_rng(&mut wrong, 1), Err(ProgramError::Custom(CrapsError::InvalidRngPhase)));
}

#[test]
fn betting_phase_restarts() {
    let g = game(3, 0, 0);
    let mut finished = rng(3, 2, 99);
    finished.hash_count = 10;
    assert_eq!(start_betting_phase(&g, &mut finished, &ROLLER, 500), Ok(()));
    assert_eq!(finished.get_phase(), RngPhase::Betting);
    assert_eq!(finished.hash_count, 0);
    assert_eq!(finished.get_betting_start_slot(), 500);
    let spread = (3u64.wrapping_mul(0x9E3779B97F4A7C15) ^ 500) % 50;
    assert_eq!(finished.get_collection_start_slot(), 600 + spread);
    assert_eq!(finished.get_final_value(), 0);

    let mut old = rng(1, 0, 0);
    assert_eq!(start_betting_phase(&g, &mut old, &ROLLER, 10), Ok(()));
    assert_eq!(old.get_epoch(), 3);

    let mut current = rng(3, 1, 0);
    assert_eq!(start_betting_phase(&g, &mut current, &ROLLER, 10), Err(ProgramError::Custom(CrapsError::InvalidRngPhase)));
    assert_eq!(start_betting_phase(&g, &mut current, &[0u8; 32], 10), Err(ProgramError::Custom(CrapsError::InvalidAuthority)));
}

#[test]
fn fire_and_hot_roller_count_unique_marks() {
    let mut b = BonusState::new();
    // Point 4 already won once, and the combination 2-2 already hit.
    b.update_for_roll(2, 2, 4, 4);
    assert_eq!(b.get_pass_win_count(4), 1);
    assert_eq!(b.fire_points, 1);
    assert_eq!(b.hot_roller_count, 1);
    b.update_for_roll(2, 2, 4, 4);
    assert_eq!(b.get_pass_win_count(4), 2);
    assert_eq!(b.fire_points, 1);
    assert_eq!(b.hot_roller_count, 1);
    // 3-1 is another way to make 4; 1-3 is the same combination as 3-1.
    b.update_for_roll(3, 1, 4, 0);
    assert_eq!(b.hot_roller_count, 2);
    b.update_for_roll(1, 3, 4, 0);
    assert_eq!(b.hot_roller_count, 2);
    // A new point won counts once more; a seven or an eleven is no point combination.
    b.update_for_roll(5, 5, 10, 10);
    assert_eq!(b.fire_points, 2);
    assert_eq!(b.hot_roller_count, 3);
    b.update_for_roll(5, 6, 11, 0);
    assert_eq!(b.hot_roller_count, 3);
    b.reset_on_seven_out();
    assert_eq!((b.fire_points, b.hot_roller_count, b.hot_roller_combos), (0, 0, [0, 0]));
}
