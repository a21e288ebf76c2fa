use craps_pinocchio::error::{CrapsError, ProgramError};
use craps_pinocchio::instructions::admin::{
    check_cleanup_bet_batch, check_cleanup_old_epoch_outcome, check_close_player_account,
    clear_player_tournament, emergency_pause, emergency_shutdown, init_player_state, resume_game,
    resume_operations, settle_realizable_bets, update_authority, update_player_tournament,
    update_rng_authority, update_treasury_authority, update_treasury_parameters,
};
use craps_pinocchio::instructions::betting::{add_bet, check_place_bet, init_bet_batch, parse_place_bet};
use craps_pinocchio::instructions::data::{parse_amount, CreatePdaIxsData, PlaceBetData};
use craps_pinocchio::instructions::expanded;
use craps_pinocchio::instructions::treasury::{check_withdraw_amount, deposit_core, withdraw_core};
use craps_pinocchio::instructions::{
    route_instruction, AuthorityType, CrapsInstruction, EmergencyOperation, Handler,
};
use craps_pinocchio::bet_encoding::{decode_bet, decode_bet_from_batch};
use craps_pinocchio::claim::EpochOutcome;
use craps_pinocchio::state::bet::BetBatch;
use craps_pinocchio::state::game::GlobalGameState;
use craps_pinocchio::state::player::ScalablePlayerState;
use craps_pinocchio::state::treasury::Treasury;

const ADMIN: [u8; 32] = [1u8; 32];
const WHO: [u8; 32] = [9u8; 32];

fn game() -> GlobalGameState {
    GlobalGameState {
        game_epoch: 200u64.to_le_bytes(),
        current_dice: 0,
        current_die1: 0,
        current_die2: 0,
        current_point: 0,
        game_phase: 0,
        _padding1: [0; 3],
        epoch_start_slot: [0; 8],
        next_roll_slot: [0; 8],
        shooter_established_epoch: [0; 8],
        total_active_bets: [0; 8],
        epoch_roll_count: [0; 4],
        _padding2: [0; 4],
        treasury: [0; 32],
        authority: ADMIN,
        rng_authority: [5; 32],
        crap_token_mint: [0; 32],
        dev_mode_enabled: 0,
        paused: 0,
        use_secure_rng: 0,
        bump: 0,
        _padding3: [0; 4],
    }
}

fn player(balance: u64) -> ScalablePlayerState {
    ScalablePlayerState {
        player: WHO,
        balance: balance.to_le_bytes(),
        active_tournament: [0; 32],
        current_epoch: [0; 8],
        total_wagered: [0; 8],
        total_won: [0; 8],
        last_bet_slot: [0; 8],
        last_claim_slot: [0; 8],
        last_tournament_update_slot: [0; 8],
        verification_tier: 0,
        bump: 0,
        _padding: [0; 6],
    }
}

fn treasury(deposits: u64, withdrawals: u64, payouts: u64) -> Treasury {
    Treasury {
        authority: ADMIN,
        token_mint: [0; 32],
        vault: [0; 32],
        total_deposits: deposits.to_le_bytes(),
        total_withdrawals: withdrawals.to_le_bytes(),
        total_payouts: payouts.to_le_bytes(),
        total_bets_placed: [0; 8],
        total_bets_settled: [0; 8],
        last_update_slot: [0; 8],
        emergency_shutdown: 0,
        bump: 0,
        _padding: [0; 6],
    }
}

fn batch() -> BetBatch {
    BetBatch {
        epoch: [0; 8],
        player: [0; 32],
        bet_count: 0,
        _padding1: [0; 7],
        total_amount: [0; 8],
        packed_bets: [0; 32],
        resolved_mask: [0; 2],
        realizable_mask: [0; 2],
        settled_mask: [0; 2],
        winning_mask: [0; 2],
        payout_total: [0; 8],
        individual_payouts: [0; 128],
        come_points: [0; 16],
        linked_bets: [0; 16],
        cached_outcomes: [0; 16],
        cache_epoch: [0; 8],
        bump: 0,
        _padding2: [0; 7],
    }
}

#[test]
fn instruction_numbers() {
    assert_eq!(CrapsInstruction::try_from(&0), Ok(CrapsInstruction::InitializeSystem));
    assert_eq!(CrapsInstruction::try_from(&12), Ok(CrapsInstruction::ClaimEpochPayoutsUnified));
    assert_eq!(CrapsInstruction::try_from(&21), Ok(CrapsInstruction::UpdateTreasuryParameters));
    assert_eq!(CrapsInstruction::try_from(&22), Err(ProgramError::InvalidInstructionData));
    assert_eq!(expanded::CrapsInstruction::try_from(&4), Ok(expanded::CrapsInstruction::DepositV2));
    assert_eq!(expanded::CrapsInstruction::try_from(&33), Ok(expanded::CrapsInstruction::GetPda));
    assert_eq!(expanded::CrapsInstruction::try_from(&34), Err(ProgramError::InvalidInstructionData));
    assert_eq!(AuthorityType::try_from(&[4]), Ok(AuthorityType::Treasury));
    assert_eq!(AuthorityType::try_from(&[]), Err(ProgramError::InvalidInstructionData));
    assert_eq!(AuthorityType::try_from(&[5]), Err(ProgramError::InvalidInstructionData));
    assert_eq!(EmergencyOperation::try_from(&[2, 9]), Ok(EmergencyOperation::PauseGame));
    assert_eq!(EmergencyOperation::try_from(&[4]), Err(ProgramError::InvalidInstructionData));
}

#[test]
fn routing() {
    assert_eq!(route_instruction(false, Some(0), &[]), Err(ProgramError::IncorrectProgramId));
    assert_eq!(route_instruction(true, None, &[]), Err(ProgramError::InvalidInstructionData));
    assert_eq!(route_instruction(true, Some(99), &[]), Err(ProgramError::InvalidInstructionData));
    assert_eq!(route_instruction(true, Some(4), &[]), Ok(Handler::Deposit));
    assert_eq!(route_instruction(true, Some(4), &[1, 0]), Ok(Handler::DepositWithAutoClaim));
    assert_eq!(route_instruction(true, Some(5), &[0]), Ok(Handler::Withdraw));
    assert_eq!(route_instruction(true, Some(5), &[3]), Ok(Handler::WithdrawWithAutoClaim));
    assert_eq!(route_instruction(true, Some(15), &[1]), Ok(Handler::UpdateRngAuthority));
    assert_eq!(route_instruction(true, Some(15), &[]), Err(ProgramError::InvalidInstructionData));
    assert_eq!(route_instruction(true, Some(17), &[3]), Ok(Handler::ResumeGame));
    assert_eq!(route_instruction(true, Some(7), &[]), Ok(Handler::SecureAutoRoll));
}

fn bet_data(epoch: u64, kind: u8, amount: u64) -> Vec<u8> {
    let mut d = vec![0u8; 32];
    d[0..8].copy_from_slice(&epoch.to_le_bytes());
    d[8] = kind;
    d[16..24].copy_from_slice(&amount.to_le_bytes());
    d
}

#[test]
fn placing_a_bet() {
    assert_eq!(parse_place_bet(&bet_data(200, 4, 2_000_000)), Ok((200, 4, 2_000_000)));
    assert_eq!(parse_place_bet(&[0u8; 31]), Err(ProgramError::InvalidInstructionData));
    assert_eq!(parse_place_bet(&bet_data(200, 64, 2_000_000)), Err(ProgramError::Custom(CrapsError::InvalidBetKind)));
    assert_eq!(parse_place_bet(&bet_data(200, 4, 10)), Err(ProgramError::Custom(CrapsError::InvalidBetAmount)));
    let parsed = PlaceBetData::parse(&bet_data(7, 1, 3)).ok().unwrap();
    assert_eq!((parsed.get_epoch(), parsed.bet_kind, parsed.get_bet_amount()), (7, 1, 3));

    let g = game();
    let p = player(5_000_000);
    assert_eq!(check_place_bet(&g, &WHO, &p, 200, 2_000_000), Ok(()));
    assert_eq!(check_place_bet(&g, &WHO, &p, 199, 2_000_000), Err(ProgramError::Custom(CrapsError::InvalidEpoch)));
    assert_eq!(check_place_bet(&g, &[0; 32], &p, 200, 2_000_000), Err(ProgramError::Custom(CrapsError::InvalidPlayer)));
    assert_eq!(check_place_bet(&g, &WHO, &p, 200, 6_000_000), Err(ProgramError::Custom(CrapsError::InsufficientFunds)));
    let mut paused = g;
    paused.paused = 1;
    assert_eq!(check_place_bet(&paused, &WHO, &p, 200, 1), Err(ProgramError::Custom(CrapsError::GamePaused)));

    let mut b = batch();
    init_bet_batch(&mut b, &WHO, 200, 254);
    assert_eq!(b.player, WHO);
    assert_eq!(b.get_epoch(), 200);
    assert_eq!(b.bump, 254);
    let crap = 1_000_000_000u64;
    let mut p = player(5 * crap);
    assert_eq!(add_bet(&mut b, &mut p, 4, 2 * crap, 321), Ok(()));
    assert_eq!(b.bet_count, 1);
    // the slot holds the kind and the amount's grid index (2 CRAP is index 1)
    assert_eq!(b.get_packed_bet(0), (1u16 << 6) | 4);
    assert_eq!(decode_bet(b.get_packed_bet(0)), (4, 2 * crap));
    let m = decode_bet_from_batch(&b, 0).unwrap();
    assert_eq!((m.bet_type, m.amount), (4, 2 * crap));
    assert_eq!(b.get_total_amount(), 2 * crap);
    assert_eq!(p.get_balance(), 3 * crap);
    assert_eq!(p.get_total_wagered(), 2 * crap);
    assert_eq!(p.get_last_bet_slot(), 321);
    // 1 CRAP is index 0
    assert_eq!(add_bet(&mut b, &mut p, 7, crap, 322), Ok(()));
    assert_eq!(b.get_packed_bet(1), 7);
    assert_eq!(b.get_packed_bet(0), (1u16 << 6) | 4);
    // kinds past 63 are refused, nothing changes
    assert_eq!(add_bet(&mut b, &mut p, 64, crap, 1), Err(ProgramError::Custom(CrapsError::InvalidBetKind)));
    assert_eq!(b.bet_count, 2);
    // an amount off the grid is taken and packed as the largest grid amount at or below
    // it; under one CRAP, as the lowest
    let mut p = player(200 * crap);
    assert_eq!(add_bet(&mut b, &mut p, 2, 1_500_000, 330), Ok(()));
    assert_eq!(b.get_packed_bet(2), 2);
    assert_eq!(b.get_total_amount(), 3 * crap + 1_500_000);
    assert_eq!(p.get_balance(), 200 * crap - 1_500_000);
    assert_eq!(add_bet(&mut b, &mut p, 9, 103 * crap + 7, 331), Ok(()));
    assert_eq!(decode_bet(b.get_packed_bet(3)), (9, 100 * crap));
    assert_eq!(b.bet_count, 4);
    b.bet_count = 16;
    assert_eq!(add_bet(&mut b, &mut p, 4, 1, 1), Err(ProgramError::Custom(CrapsError::BatchFull)));
}

#[test]
fn deposits_and_withdrawals() {
    let g = game();
    let big = 1_000_000_000_000_000u64;
    let mut t = treasury(big, 0, 0);
    let mut p = player(100);
    assert_eq!(deposit_core(&WHO, &mut p, &mut t, &g, 50, 60, 0), Ok(150));
    assert_eq!(p.get_balance(), 150);
    assert_eq!(t.get_total_deposits(), big + 50);
    assert_eq!(
        deposit_core(&WHO, &mut p, &mut t, &g, 50, 49, 0),
        Err(ProgramError::Custom(CrapsError::InsufficientFunds))
    );
    assert_eq!(
        deposit_core(&[0; 32], &mut p, &mut t, &g, 50, 60, 0),
        Err(ProgramError::Custom(CrapsError::InvalidPlayer))
    );
    let mut empty = treasury(0, 0, 0);
    assert_eq!(
        deposit_core(&WHO, &mut p, &mut empty, &g, 50, 60, 0),
        Err(ProgramError::Custom(CrapsError::InsufficientTreasuryBalance))
    );

    assert_eq!(check_withdraw_amount(0), Err(ProgramError::Custom(CrapsError::InvalidAmount)));
    assert_eq!(check_withdraw_amount(100_000_000_000_001), Err(ProgramError::Custom(CrapsError::ExceedsWithdrawalLimit)));
    assert_eq!(check_withdraw_amount(5), Ok(()));

    let mut t = treasury(big, 0, 0);
    let mut p = player(100);
    assert_eq!(withdraw_core(&WHO, &mut p, &mut t, &g, 40, 1_000, 0), Ok(140));
    assert_eq!(t.get_total_withdrawals(), 40);
    assert_eq!(
        withdraw_core(&WHO, &mut p, &mut t, &g, 400, 1_000, 0),
        Err(ProgramError::Custom(CrapsError::InsufficientFunds))
    );
    assert_eq!(
        withdraw_core(&WHO, &mut p, &mut t, &g, 40, 39, 0),
        Err(ProgramError::Custom(CrapsError::InsufficientTreasuryFunds))
    );
    assert_eq!(parse_amount(&7u64.to_le_bytes()), Ok(7));
    assert_eq!(parse_amount(&[1, 2]), Err(ProgramError::InvalidInstructionData));
}

#[test]
fn authority_updates() {
    let mut g = game();
    let mut data = vec![3u8; 32];
    assert_eq!(update_authority(&mut g, &[0; 32], &data), Err(ProgramError::Custom(CrapsError::UnauthorizedAuthority)));
    assert_eq!(update_rng_authority(&mut g, &ADMIN, &data), Ok(()));
    assert_eq!(g.rng_authority, [3u8; 32]);
    assert_eq!(update_authority(&mut g, &ADMIN, &data[..31]), Err(ProgramError::InvalidInstructionData));
    data = vec![0u8; 32];
    assert_eq!(update_authority(&mut g, &ADMIN, &data), Err(ProgramError::Custom(CrapsError::InvalidAuthority)));
    assert_eq!(update_authority(&mut g, &ADMIN, &[8u8; 40]), Ok(()));
    assert_eq!(g.authority, [8u8; 32]);
    let mut t = treasury(0, 0, 0);
    assert_eq!(update_treasury_authority(&mut t, &ADMIN, &[6u8; 32], 55), Ok(()));
    assert_eq!(t.authority, [6u8; 32]);
    assert_eq!(t.get_last_update_slot(), 55);
}

#[test]
fn emergencies() {
    let mut g = game();
    let line = emergency_shutdown(&mut g, &ADMIN, 70, 5).unwrap();
    assert!(line.unwrap().starts_with("EVENT:"));
    assert_eq!(g.paused, 1);
    assert_eq!(g.get_epoch_start_slot(), 70);
    assert_eq!(emergency_shutdown(&mut g, &ADMIN, 71, 5), Ok(None));
    assert_eq!(emergency_shutdown(&mut g, &WHO, 71, 5), Err(ProgramError::Custom(CrapsError::UnauthorizedAuthority)));
    assert!(resume_operations(&mut g, &ADMIN, 100, 5).unwrap().is_some());
    assert_eq!(g.paused, 0);
    assert_eq!(g.get_next_roll_slot(), 160);
    assert_eq!(resume_game(&mut g, &ADMIN, 100, 5), Ok(None));
    assert!(emergency_pause(&mut g, &ADMIN, &30u64.to_le_bytes(), 200, 5).is_ok());
    assert_eq!(g.paused, 1);
    assert_eq!(g.get_next_roll_slot(), 230);
    assert!(emergency_pause(&mut g, &ADMIN, &[], 300, 5).is_ok());
    assert_eq!(g.get_next_roll_slot(), 230);
    assert_eq!(g.get_epoch_start_slot(), 300);
}

#[test]
fn tournaments() {
    let mut p = player(0);
    assert_eq!(update_player_tournament(&mut p, &[4u8; 32], 10), Ok(()));
    assert_eq!(p.get_active_tournament(), [4u8; 32]);
    assert_eq!(p.get_last_tournament_update_slot(), Some(10));
    assert_eq!(update_player_tournament(&mut p, &[4u8; 32], 11), Ok(()));
    assert_eq!(update_player_tournament(&mut p, &[5u8; 32], 12), Err(ProgramError::Custom(CrapsError::AlreadyInTournament)));
    assert_eq!(update_player_tournament(&mut p, &[0u8; 32], 12), Err(ProgramError::Custom(CrapsError::InvalidTournament)));
    assert_eq!(update_player_tournament(&mut p, &[1u8; 3], 12), Err(ProgramError::InvalidInstructionData));
    assert_eq!(check_close_player_account(&p, &WHO), Err(ProgramError::Custom(CrapsError::ActiveTournament)));
    assert_eq!(clear_player_tournament(&mut p, 20), Ok(()));
    assert_eq!(p.get_active_tournament(), [0u8; 32]);
    assert_eq!(p.get_last_tournament_update_slot(), Some(20));
    assert_eq!(check_close_player_account(&p, &WHO), Ok(()));
    assert_eq!(check_close_player_account(&player(1), &WHO), Err(ProgramError::Custom(CrapsError::InsufficientFunds)));
    assert_eq!(check_close_player_account(&p, &ADMIN), Err(ProgramError::Custom(CrapsError::InvalidPlayer)));
}

#[test]
fn cleanup_and_settlement() {
    let p = player(0);
    let mut b = batch();
    b.player = WHO;
    b.set_epoch(12);
    b.bet_count = 2;
    assert_eq!(check_cleanup_bet_batch(&p, &b, &WHO, &12u64.to_le_bytes()), Err(ProgramError::Custom(CrapsError::BetsNotSettled)));
    b.set_settled_mask(0b11);
    assert_eq!(check_cleanup_bet_batch(&p, &b, &WHO, &12u64.to_le_bytes()), Ok(()));
    assert_eq!(check_cleanup_bet_batch(&p, &b, &WHO, &13u64.to_le_bytes()), Err(ProgramError::Custom(CrapsError::EpochMismatch)));
    assert_eq!(check_cleanup_bet_batch(&p, &b, &ADMIN, &12u64.to_le_bytes()), Err(ProgramError::Custom(CrapsError::UnauthorizedPlayer)));

    let g = game();
    let out = EpochOutcome {
        epoch: 50u64.to_le_bytes(),
        dice: [1, 1],
        phase: 0,
        point: 0,
        resolved: 1,
        _padding: [0; 3],
        total_payouts: [0; 8],
        finalized_slot: 1_000u64.to_le_bytes(),
        _reserved: [0; 32],
    };
    assert_eq!(check_cleanup_old_epoch_outcome(&g, &out, &ADMIN, &100u64.to_le_bytes(), 1_100), Ok(()));
    assert_eq!(
        check_cleanup_old_epoch_outcome(&g, &out, &ADMIN, &101u64.to_le_bytes(), 1_100),
        Err(ProgramError::Custom(CrapsError::EpochTooRecent))
    );
    let mut young = out;
    young.epoch = 150u64.to_le_bytes();
    assert_eq!(
        check_cleanup_old_epoch_outcome(&g, &young, &ADMIN, &0u64.to_le_bytes(), 1_100),
        Err(ProgramError::Custom(CrapsError::EpochTooRecent))
    );

    let mut t = treasury(0, 0, 0);
    let mut range = 100u64.to_le_bytes().to_vec();
    range.extend_from_slice(&110u64.to_le_bytes());
    assert_eq!(settle_realizable_bets(&g, &mut t, &ADMIN, &range, 9), Ok(()));
    assert_eq!(t.get_last_update_slot(), 9);
    let mut wide = 100u64.to_le_bytes().to_vec();
    wide.extend_from_slice(&111u64.to_le_bytes());
    assert_eq!(settle_realizable_bets(&g, &mut t, &ADMIN, &wide, 9), Err(ProgramError::Custom(CrapsError::TooManyEpochsToSettle)));
    let mut late = 100u64.to_le_bytes().to_vec();
    late.extend_from_slice(&200u64.to_le_bytes());
    assert_eq!(settle_realizable_bets(&g, &mut t, &ADMIN, &late, 9), Err(ProgramError::Custom(CrapsError::EpochNotFinalized)));
    let mut backwards = 5u64.to_le_bytes().to_vec();
    backwards.extend_from_slice(&4u64.to_le_bytes());
    assert_eq!(settle_realizable_bets(&g, &mut t, &ADMIN, &backwards, 9), Err(ProgramError::Custom(CrapsError::InvalidEpochRange)));

    assert_eq!(update_treasury_parameters(&g, &mut t, &ADMIN, &[0u8; 23], 40), Ok(()));
    assert_eq!(t.get_last_update_slot(), 9);
    assert_eq!(update_treasury_parameters(&g, &mut t, &ADMIN, &[0u8; 24], 40), Ok(()));
    assert_eq!(t.get_last_update_slot(), 40);
}

#[test]
fn new_player_state() {
    let mut p = player(77);
    p.active_tournament = [3; 32];
    init_player_state(&mut p, &ADMIN, 250, 5);
    assert_eq!(p.player, ADMIN);
    assert_eq!(p.bump, 250);
    assert_eq!(p.get_balance(), 0);
    assert_eq!(p.get_active_tournament(), [0; 32]);
}

#[test]
fn favorites_data_is_exactly_309_bytes() {
    let mut data = vec![0u8; 309];
    data[0] = 42;
    data[8] = b'r';
    data[308] = 253;
    let d = CreatePdaIxsData::try_from(&data).ok().unwrap();
    assert_eq!(u64::from_le_bytes(d.number), 42);
    assert_eq!(d.color[0], b'r');
    assert_eq!(d.bump, 253);
    assert!(CreatePdaIxsData::try_from(&data[..308]).is_err());
}
