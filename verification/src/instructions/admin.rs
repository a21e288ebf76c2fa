//! The decisions of the administrative instructions: authority updates, emergency
//! operations, tournaments, cleanup, settlement, treasury parameters and the setup and
//! closing of accounts.
use vstd::prelude::*;
use vstd::bytes::*;
use crate::claim::{EpochOutcome, low_bits_mask};
use crate::constants::{PHASE_COME_OUT, SLOTS_PER_ROLL};
use crate::error::{CrapsError, ProgramError};
use crate::events::{emergency_action_bytes, emit_emergency_action, event_line};
use crate::instructions::data::{parse_amount, parse_key};
use crate::keys::{Pubkey, is_zero_key, keys_equal};
use crate::le_bytes::{lemma_u64_roundtrip, read_u64_at};
use crate::state::bet::BetBatch;
use crate::state::bonus::BonusState;
use crate::state::game::GlobalGameState;
use crate::state::player::ScalablePlayerState;
use crate::state::rng::RngState;
use crate::state::treasury::Treasury;

verus! {

/// Whether a key is all zeros, the default key.
pub open spec fn is_default_key(k: Seq<u8>) -> bool {
    forall|j: int| 0 <= j < 32 ==> k[j] == 0
}

/// Why a key update is refused: a signer other than the current authority, data shorter
/// than a key, or the default key as the new one.
pub open spec fn key_update_error(current: Pubkey, signer: Pubkey, data: Seq<u8>) -> Option<ProgramError> {
    if current@ != signer@ {
        Some(ProgramError::Custom(CrapsError::UnauthorizedAuthority))
    } else if data.len() < 32 {
        Some(ProgramError::InvalidInstructionData)
    } else if is_default_key(data.subrange(0, 32)) {
        Some(ProgramError::Custom(CrapsError::InvalidAuthority))
    } else {
        None
    }
}

/// The new key an update names, after checking the signer is the current authority.
fn new_authority_key(current: &Pubkey, signer: &Pubkey, data: &[u8]) -> (r: Result<Pubkey, ProgramError>)
    ensures
        key_update_error(*current, *signer, data@) matches Some(e) ==> r == Err::<Pubkey, ProgramError>(e),
        key_update_error(*current, *signer, data@) is None ==> (r matches Ok(k) && k@ == data@.subrange(0, 32)),
{
    if !keys_equal(current, signer) {
        return Err(ProgramError::Custom(CrapsError::UnauthorizedAuthority));
    }
    let new_authority = match parse_key(data) {
        Ok(k) => k,
        Err(e) => return Err(e),
    };
    if is_zero_key(&new_authority) {
        return Err(ProgramError::Custom(CrapsError::InvalidAuthority));
    }
    Ok(new_authority)
}

/// Replaces the program authority with the key at the start of the data; only the
/// current authority may.
pub fn update_authority(game_state: &mut GlobalGameState, signer: &Pubkey, data: &[u8]) -> (r: Result<(), ProgramError>)
    ensures
        key_update_error(old(game_state).authority, *signer, data@) matches Some(e) ==> r == Err::<(), ProgramError>(e)
            && *final(game_state) == *old(game_state),
        key_update_error(old(game_state).authority, *signer, data@) is None ==> r == Ok::<(), ProgramError>(())
            && *final(game_state) == (GlobalGameState { authority: final(game_state).authority, ..*old(game_state) })
            && final(game_state).authority@ == data@.subrange(0, 32),
{
    let new_authority = match new_authority_key(&game_state.authority, signer, data) {
        Ok(k) => k,
        Err(e) => return Err(e),
    };
    game_state.authority = new_authority;
    Ok(())
}

/// Replaces the roll authority with the key at the start of the data; only the program
/// authority may.
pub fn update_rng_authority(game_state: &mut GlobalGameState, signer: &Pubkey, data: &[u8]) -> (r: Result<(), ProgramError>)
    ensures
        key_update_error(old(game_state).authority, *signer, data@) matches Some(e) ==> r == Err::<(), ProgramError>(e)
            && *final(game_state) == *old(game_state),
        key_update_error(old(game_state).authority, *signer, data@) is None ==> r == Ok::<(), ProgramError>(())
            && *final(game_state) == (GlobalGameState { rng_authority: final(game_state).rng_authority, ..*old(game_state) })
            && final(game_state).rng_authority@ == data@.subrange(0, 32),
{
    let new_authority = match new_authority_key(&game_state.authority, signer, data) {
        Ok(k) => k,
        Err(e) => return Err(e),
    };
    game_state.rng_authority = new_authority;
    Ok(())
}

/// Replaces the treasury's authority with the key at the start of the data and records
/// the slot; only the treasury's current authority may.
pub fn update_treasury_authority(treasury: &mut Treasury, signer: &Pubkey, data: &[u8], current_slot: u64) -> (r: Result<(), ProgramError>)
    ensures
        key_update_error(old(treasury).authority, *signer, data@) matches Some(e) ==> r == Err::<(), ProgramError>(e)
            && *final(treasury) == *old(treasury),
        key_update_error(old(treasury).authority, *signer, data@) is None ==> r == Ok::<(), ProgramError>(())
            && *final(treasury) == (Treasury {
                authority: final(treasury).authority,
                last_update_slot: final(treasury).last_update_slot,
                ..*old(treasury)
            })
            && final(treasury).authority@ == data@.subrange(0, 32)
            && final(treasury).last_update_slot_value() == current_slot,
{
    let new_authority = match new_authority_key(&treasury.authority, signer, data) {
        Ok(k) => k,
        Err(e) => return Err(e),
    };
    treasury.authority = new_authority;
    proof {
        lemma_u64_roundtrip(current_slot);
    }
    treasury.set_last_update_slot(current_slot);
    Ok(())
}

/// The log line of an emergency action by a signer on a game state.
pub open spec fn emergency_line(signer: Pubkey, action: u8, prev_state: u8, new_state: u8, game_state: GlobalGameState, slot: u64, timestamp: i64) -> Seq<char> {
    event_line(emergency_action_bytes(signer@, action, prev_state, new_state, game_state.game_epoch_value(), slot, timestamp))
}

/// Shuts the game down (pauses it) and records the slot in the epoch start slot; an already
/// paused game is left as it is. Returns the event's log line when the game was paused now.
pub fn emergency_shutdown(game_state: &mut GlobalGameState, signer: &Pubkey, current_slot: u64, timestamp: i64) -> (r: Result<Option<String>, ProgramError>)
    ensures
        old(game_state).authority@ != signer@ ==> r == Err::<Option<String>, ProgramError>(ProgramError::Custom(CrapsError::UnauthorizedAuthority))
            && *final(game_state) == *old(game_state),
        old(game_state).authority@ == signer@ && old(game_state).paused != 0 ==> r == Ok::<Option<String>, ProgramError>(None)
            && *final(game_state) == *old(game_state),
        old(game_state).authority@ == signer@ && old(game_state).paused == 0 ==> {
            &&& *final(game_state) == (GlobalGameState { paused: 1, epoch_start_slot: final(game_state).epoch_start_slot, ..*old(game_state) })
            &&& final(game_state).epoch_start_slot_value() == current_slot
            &&& r matches Ok(Some(line)) && line@ == emergency_line(*signer, 0, 0, 1, *old(game_state), current_slot, timestamp)
        },
{
    if !keys_equal(&game_state.authority, signer) {
        return Err(ProgramError::Custom(CrapsError::UnauthorizedAuthority));
    }
    if game_state.paused != 0 {
        return Ok(None);
    }
    game_state.paused = 1;
    proof {
        lemma_u64_roundtrip(current_slot);
    }
    game_state.set_epoch_start_slot(current_slot);
    let current_epoch = game_state.get_game_epoch();
    Ok(Some(emit_emergency_action(signer, 0, 0, 1, current_epoch, current_slot, timestamp)))
}

/// Resumes a paused game with action code `action` and schedules the next roll one roll
/// interval on; a running game is left as it is.
fn resume(game_state: &mut GlobalGameState, signer: &Pubkey, current_slot: u64, timestamp: i64, action: u8) -> (r: Result<Option<String>, ProgramError>)
    requires
        old(game_state).authority@ == signer@ && old(game_state).paused != 0 ==> current_slot + SLOTS_PER_ROLL <= u64::MAX,
    ensures
        old(game_state).authority@ != signer@ ==> r == Err::<Option<String>, ProgramError>(ProgramError::Custom(CrapsError::UnauthorizedAuthority))
            && *final(game_state) == *old(game_state),
        old(game_state).authority@ == signer@ && old(game_state).paused == 0 ==> r == Ok::<Option<String>, ProgramError>(None)
            && *final(game_state) == *old(game_state),
        old(game_state).authority@ == signer@ && old(game_state).paused != 0 ==> {
            &&& *final(game_state) == (GlobalGameState { paused: 0, next_roll_slot: final(game_state).next_roll_slot, ..*old(game_state) })
            &&& final(game_state).next_roll_slot_value() == current_slot + SLOTS_PER_ROLL
            &&& r matches Ok(Some(line)) && line@ == emergency_line(*signer, action, 1, 0, *old(game_state), current_slot, timestamp)
        },
{
    if !keys_equal(&game_state.authority, signer) {
        return Err(ProgramError::Custom(CrapsError::UnauthorizedAuthority));
    }
    if game_state.paused == 0 {
        return Ok(None);
    }
    game_state.paused = 0;
    let next = current_slot + SLOTS_PER_ROLL;
    proof {
        lemma_u64_roundtrip(next);
    }
    game_state.set_next_roll_slot(next);
    let current_epoch = game_state.get_game_epoch();
    Ok(Some(emit_emergency_action(signer, action, 1, 0, current_epoch, current_slot, timestamp)))
}

/// Resumes operations after a shutdown.
pub fn resume_operations(game_state: &mut GlobalGameState, signer: &Pubkey, current_slot: u64, timestamp: i64) -> (r: Result<Option<String>, ProgramError>)
    requires
        old(game_state).authority@ == signer@ && old(game_state).paused != 0 ==> current_slot + SLOTS_PER_ROLL <= u64::MAX,
    ensures
        old(game_state).authority@ != signer@ ==> r == Err::<Option<String>, ProgramError>(ProgramError::Custom(CrapsError::UnauthorizedAuthority))
            && *final(game_state) == *old(game_state),
        old(game_state).authority@ == signer@ && old(game_state).paused == 0 ==> r == Ok::<Option<String>, ProgramError>(None)
            && *final(game_state) == *old(game_state),
        old(game_state).authority@ == signer@ && old(game_state).paused != 0 ==> {
            &&& *final(game_state) == (GlobalGameState { paused: 0, next_roll_slot: final(game_state).next_roll_slot, ..*old(game_state) })
            &&& final(game_state).next_roll_slot_value() == current_slot + SLOTS_PER_ROLL
            &&& r matches Ok(Some(line)) && line@ == emergency_line(*signer, 1, 1, 0, *old(game_state), current_slot, timestamp)
        },
{
    resume(game_state, signer, current_slot, timestamp, 1)
}

/// Resumes the game after a pause.
pub fn resume_game(game_state: &mut GlobalGameState, signer: &Pubkey, current_slot: u64, timestamp: i64) -> (r: Result<Option<String>, ProgramError>)
    requires
        old(game_state).authority@ == signer@ && old(game_state).paused != 0 ==> current_slot + SLOTS_PER_ROLL <= u64::MAX,
    ensures
        old(game_state).authority@ != signer@ ==> r == Err::<Option<String>, ProgramError>(ProgramError::Custom(CrapsError::UnauthorizedAuthority))
            && *final(game_state) == *old(game_state),
        old(game_state).authority@ == signer@ && old(game_state).paused == 0 ==> r == Ok::<Option<String>, ProgramError>(None)
            && *final(game_state) == *old(game_state),
        old(game_state).authority@ == signer@ && old(game_state).paused != 0 ==> {
            &&& *final(game_state) == (GlobalGameState { paused: 0, next_roll_slot: final(game_state).next_roll_slot, ..*old(game_state) })
            &&& final(game_state).next_roll_slot_value() == current_slot + SLOTS_PER_ROLL
            &&& r matches Ok(Some(line)) && line@ == emergency_line(*signer, 3, 1, 0, *old(game_state), current_slot, timestamp)
        },
{
    resume(game_state, signer, current_slot, timestamp, 3)
}

/// The length of a pause the data asks for: its first eight bytes, or 0 (indefinite)
/// when it is shorter.
pub open spec fn pause_duration(data: Seq<u8>) -> u64 {
    if data.len() >= 8 { spec_u64_from_le_bytes(data.subrange(0, 8)) } else { 0 }
}

/// Pauses the game, paused or not, and records the slot; a pause of a given length also
/// schedules the next roll after it.
pub fn emergency_pause(game_state: &mut GlobalGameState, signer: &Pubkey, data: &[u8], current_slot: u64, timestamp: i64) -> (r: Result<String, ProgramError>)
    requires
        old(game_state).authority@ == signer@ ==> current_slot + pause_duration(data@) <= u64::MAX,
    ensures
        old(game_state).authority@ != signer@ ==> r == Err::<String, ProgramError>(ProgramError::Custom(CrapsError::UnauthorizedAuthority))
            && *final(game_state) == *old(game_state),
        old(game_state).authority@ == signer@ ==> {
            &&& *final(game_state) == (GlobalGameState {
                paused: 1,
                epoch_start_slot: final(game_state).epoch_start_slot,
                next_roll_slot: final(game_state).next_roll_slot,
                ..*old(game_state)
            })
            &&& final(game_state).epoch_start_slot_value() == current_slot
            &&& final(game_state).next_roll_slot_value() == if pause_duration(data@) > 0 {
                (current_slot + pause_duration(data@)) as u64
            } else {
                old(game_state).next_roll_slot_value()
            }
            &&& r matches Ok(line) && line@ == emergency_line(*signer, 2, 0, 1, *old(game_state), current_slot, timestamp)
        },
{
    if !keys_equal(&game_state.authority, signer) {
        return Err(ProgramError::Custom(CrapsError::UnauthorizedAuthority));
    }
    let pause_duration_slots = if data.len() >= 8 { read_u64_at(data, 0) } else { 0 };
    game_state.paused = 1;
    proof {
        lemma_u64_roundtrip(current_slot);
    }
    game_state.set_epoch_start_slot(current_slot);
    if pause_duration_slots > 0 {
        let next = current_slot + pause_duration_slots;
        proof {
            lemma_u64_roundtrip(next);
        }
        game_state.set_next_roll_slot(next);
    }
    let current_epoch = game_state.get_game_epoch();
    Ok(emit_emergency_action(signer, 2, 0, 1, current_epoch, current_slot, timestamp))
}

/// Why a player cannot join a tournament: data shorter than a key, the default key, or
/// another tournament already joined.
pub open spec fn join_tournament_error(player: ScalablePlayerState, data: Seq<u8>) -> Option<ProgramError> {
    if data.len() < 32 {
        Some(ProgramError::InvalidInstructionData)
    } else if is_default_key(data.subrange(0, 32)) {
        Some(ProgramError::Custom(CrapsError::InvalidTournament))
    } else if !is_default_key(player.active_tournament@) && player.active_tournament@ != data.subrange(0, 32) {
        Some(ProgramError::Custom(CrapsError::AlreadyInTournament))
    } else {
        None
    }
}

/// Enters a player in the tournament named by the data and records the slot.
pub fn update_player_tournament(player: &mut ScalablePlayerState, data: &[u8], current_slot: u64) -> (r: Result<(), ProgramError>)
    ensures
        join_tournament_error(*old(player), data@) matches Some(e) ==> r == Err::<(), ProgramError>(e) && *final(player) == *old(player),
        join_tournament_error(*old(player), data@) is None ==> {
            &&& r == Ok::<(), ProgramError>(())
            &&& *final(player) == (ScalablePlayerState {
                active_tournament: final(player).active_tournament,
                last_tournament_update_slot: final(player).last_tournament_update_slot,
                ..*old(player)
            })
            &&& final(player).active_tournament@ == data@.subrange(0, 32)
            &&& final(player).last_tournament_update_slot@ == spec_u64_to_le_bytes(current_slot)
        },
{
    let tournament = match parse_key(data) {
        Ok(k) => k,
        Err(e) => return Err(e),
    };
    if is_zero_key(&tournament) {
        return Err(ProgramError::Custom(CrapsError::InvalidTournament));
    }
    let current = player.get_active_tournament();
    if !is_zero_key(&current) && !keys_equal(&current, &tournament) {
        return Err(ProgramError::Custom(CrapsError::AlreadyInTournament));
    }
    player.set_active_tournament(tournament);
    player.set_last_tournament_update_slot(Some(current_slot));
    Ok(())
}

/// Takes a player out of their tournament and records the slot; a player in none is left
/// as they are.
pub fn clear_player_tournament(player: &mut ScalablePlayerState, current_slot: u64) -> (r: Result<(), ProgramError>)
    ensures
        r == Ok::<(), ProgramError>(()),
        is_default_key(old(player).active_tournament@) ==> *final(player) == *old(player),
        !is_default_key(old(player).active_tournament@) ==> {
            &&& *final(player) == (ScalablePlayerState {
                active_tournament: final(player).active_tournament,
                last_tournament_update_slot: final(player).last_tournament_update_slot,
                ..*old(player)
            })
            &&& is_default_key(final(player).active_tournament@)
            &&& final(player).last_tournament_update_slot@ == spec_u64_to_le_bytes(current_slot)
        },
{
    let current = player.get_active_tournament();
    if is_zero_key(&current) {
        return Ok(());
    }
    player.set_active_tournament([0u8; 32]);
    player.set_last_tournament_update_slot(Some(current_slot));
    Ok(())
}

/// Why a batch cannot be cleaned up: a player state or a batch of another player, bets
/// not all settled, data shorter than an epoch, or a batch of another epoch.
pub open spec fn cleanup_batch_error(player: ScalablePlayerState, batch: BetBatch, player_key: Pubkey, data: Seq<u8>) -> Option<ProgramError> {
    if player.player@ != player_key@ || batch.player@ != player_key@ {
        Some(ProgramError::Custom(CrapsError::UnauthorizedPlayer))
    } else if batch.settled_mask_value() != low_bits_mask(batch.bet_count) {
        Some(ProgramError::Custom(CrapsError::BetsNotSettled))
    } else if data.len() < 8 {
        Some(ProgramError::InvalidInstructionData)
    } else if batch.epoch_value() != spec_u64_from_le_bytes(data.subrange(0, 8)) {
        Some(ProgramError::Custom(CrapsError::EpochMismatch))
    } else {
        None
    }
}

/// A batch whose claim went through can then be closed by its owner for its
/// epoch: the claim leaves the batch as it was but for a mask with every bet
/// settled, which is what closing asks for.
pub proof fn lemma_claimed_batch_closes(
    player: ScalablePlayerState,
    batch: BetBatch,
    claimed: BetBatch,
    player_key: Pubkey,
    data: Seq<u8>,
)
    requires
        claimed == (BetBatch { settled_mask: claimed.settled_mask, ..batch }),
        claimed.settled_mask_value() == low_bits_mask(batch.bet_count),
        player.player@ == player_key@,
        batch.player@ == player_key@,
        data.len() >= 8,
        spec_u64_from_le_bytes(data.subrange(0, 8)) == batch.epoch_value(),
    ensures
        cleanup_batch_error(player, claimed, player_key, data) is None,
{
}

/// Checks that a player may close a batch of theirs: every bet settled, for the epoch the
/// data names.
pub fn check_cleanup_bet_batch(player: &ScalablePlayerState, batch: &BetBatch, player_key: &Pubkey, data: &[u8]) -> (r: Result<(), ProgramError>)
    requires
        player.player@ == player_key@ && batch.player@ == player_key@ ==> batch.bet_count < 16,
    ensures
        cleanup_batch_error(*player, *batch, *player_key, data@) matches Some(e) ==> r == Err::<(), ProgramError>(e),
        cleanup_batch_error(*player, *batch, *player_key, data@) is None ==> r == Ok::<(), ProgramError>(()),
{
    if !keys_equal(&player.player, player_key) {
        return Err(ProgramError::Custom(CrapsError::UnauthorizedPlayer));
    }
    if !keys_equal(&batch.player, player_key) {
        return Err(ProgramError::Custom(CrapsError::UnauthorizedPlayer));
    }
    let n = batch.bet_count as u16;
    assert(1u16 << n >= 1) by (bit_vector)
        requires
            n < 16,
    ;
    let all_settled_mask: u16 = (1u16 << n) - 1;
    if batch.get_settled_mask() != all_settled_mask {
        return Err(ProgramError::Custom(CrapsError::BetsNotSettled));
    }
    let epoch = match parse_amount(data) {
        Ok(e) => e,
        Err(e) => return Err(e),
    };
    if batch.get_epoch() != epoch {
        return Err(ProgramError::Custom(CrapsError::EpochMismatch));
    }
    Ok(())
}

/// Epochs an outcome must lie behind the current epoch before it can be cleaned up.
pub const MIN_EPOCH_AGE: u64 = 100;

/// Why an epoch outcome cannot be cleaned up: a signer other than the authority, data
/// shorter than a slot count, an outcome finalized fewer slots ago than the data asks, or
/// fewer than 100 epochs ago.
pub open spec fn cleanup_outcome_error(game_state: GlobalGameState, outcome: EpochOutcome, admin_key: Pubkey, data: Seq<u8>, current_slot: u64) -> Option<ProgramError> {
    if game_state.authority@ != admin_key@ {
        Some(ProgramError::Custom(CrapsError::UnauthorizedAuthority))
    } else if data.len() < 8 {
        Some(ProgramError::InvalidInstructionData)
    } else if crate::circuit_breaker::sat_sub(current_slot, outcome.finalized_slot_value()) < spec_u64_from_le_bytes(data.subrange(0, 8)) {
        Some(ProgramError::Custom(CrapsError::EpochTooRecent))
    } else if crate::circuit_breaker::sat_sub(game_state.game_epoch_value(), outcome.epoch_value()) < MIN_EPOCH_AGE {
        Some(ProgramError::Custom(CrapsError::EpochTooRecent))
    } else {
        None
    }
}

/// Checks that the authority may close an epoch outcome: old enough in slots, as the
/// data asks, and in epochs.
pub fn check_cleanup_old_epoch_outcome(game_state: &GlobalGameState, outcome: &EpochOutcome, admin_key: &Pubkey, data: &[u8], current_slot: u64) -> (r: Result<(), ProgramError>)
    ensures
        cleanup_outcome_error(*game_state, *outcome, *admin_key, data@, current_slot) matches Some(e) ==> r == Err::<(), ProgramError>(e),
        cleanup_outcome_error(*game_state, *outcome, *admin_key, data@, current_slot) is None ==> r == Ok::<(), ProgramError>(()),
{
    if !keys_equal(&game_state.authority, admin_key) {
        return Err(ProgramError::Custom(CrapsError::UnauthorizedAuthority));
    }
    let minimum_age_slots = match parse_amount(data) {
        Ok(v) => v,
        Err(e) => return Err(e),
    };
    let outcome_age = current_slot.saturating_sub(outcome.get_finalized_slot());
    if outcome_age < minimum_age_slots {
        return Err(ProgramError::Custom(CrapsError::EpochTooRecent));
    }
    let current_epoch = game_state.get_game_epoch();
    let outcome_epoch = outcome.get_epoch();
    if current_epoch.saturating_sub(outcome_epoch) < MIN_EPOCH_AGE {
        return Err(ProgramError::Custom(CrapsError::EpochTooRecent));
    }
    Ok(())
}

/// Most epochs one settlement may span.
pub const MAX_EPOCHS_PER_SETTLE: u64 = 10;

/// Why a settlement is refused: a signer other than the authority, a paused game, a
/// treasury in emergency shutdown, data shorter than two epochs, a start after the end,
/// an end not before the current epoch, or more than 10 epochs between them.
pub open spec fn settle_error(game_state: GlobalGameState, treasury: Treasury, signer: Pubkey, data: Seq<u8>) -> Option<ProgramError> {
    let start = spec_u64_from_le_bytes(data.subrange(0, 8));
    let end = spec_u64_from_le_bytes(data.subrange(8, 16));
    if game_state.authority@ != signer@ {
        Some(ProgramError::Custom(CrapsError::UnauthorizedAuthority))
    } else if game_state.paused != 0 {
        Some(ProgramError::Custom(CrapsError::GamePaused))
    } else if treasury.emergency_shutdown != 0 {
        Some(ProgramError::Custom(CrapsError::EmergencyShutdown))
    } else if data.len() < 16 {
        Some(ProgramError::InvalidInstructionData)
    } else if start > end {
        Some(ProgramError::Custom(CrapsError::InvalidEpochRange))
    } else if end >= game_state.game_epoch_value() {
        Some(ProgramError::Custom(CrapsError::EpochNotFinalized))
    } else if end - start > MAX_EPOCHS_PER_SETTLE {
        Some(ProgramError::Custom(CrapsError::TooManyEpochsToSettle))
    } else {
        None
    }
}

/// Checks a settlement of a range of finalized epochs and records the slot in the
/// treasury.
pub fn settle_realizable_bets(game_state: &GlobalGameState, treasury: &mut Treasury, signer: &Pubkey, data: &[u8], current_slot: u64) -> (r: Result<(), ProgramError>)
    ensures
        settle_error(*game_state, *old(treasury), *signer, data@) matches Some(e) ==> r == Err::<(), ProgramError>(e)
            && *final(treasury) == *old(treasury),
        settle_error(*game_state, *old(treasury), *signer, data@) is None ==> r == Ok::<(), ProgramError>(())
            && *final(treasury) == (Treasury { last_update_slot: final(treasury).last_update_slot, ..*old(treasury) })
            && final(treasury).last_update_slot_value() == current_slot,
{
    if !keys_equal(&game_state.authority, signer) {
        return Err(ProgramError::Custom(CrapsError::UnauthorizedAuthority));
    }
    if game_state.paused != 0 {
        return Err(ProgramError::Custom(CrapsError::GamePaused));
    }
    if treasury.is_emergency_shutdown() {
        return Err(ProgramError::Custom(CrapsError::EmergencyShutdown));
    }
    if data.len() < 16 {
        return Err(ProgramError::InvalidInstructionData);
    }
    let start_epoch = read_u64_at(data, 0);
    let end_epoch = read_u64_at(data, 8);
    let current_epoch = game_state.get_game_epoch();
    if start_epoch > end_epoch {
        return Err(ProgramError::Custom(CrapsError::InvalidEpochRange));
    }
    if end_epoch >= current_epoch {
        return Err(ProgramError::Custom(CrapsError::EpochNotFinalized));
    }
    if end_epoch - start_epoch > MAX_EPOCHS_PER_SETTLE {
        return Err(ProgramError::Custom(CrapsError::TooManyEpochsToSettle));
    }
    proof {
        lemma_u64_roundtrip(current_slot);
    }
    treasury.set_last_update_slot(current_slot);
    Ok(())
}

/// Records an update of the treasury's parameters: the authority alone may, and data
/// shorter than the parameters leaves the treasury as it is.
pub fn update_treasury_parameters(game_state: &GlobalGameState, treasury: &mut Treasury, admin_key: &Pubkey, data: &[u8], current_slot: u64) -> (r: Result<(), ProgramError>)
    ensures
        game_state.authority@ != admin_key@ ==> r == Err::<(), ProgramError>(ProgramError::Custom(CrapsError::UnauthorizedAuthority))
            && *final(treasury) == *old(treasury),
        game_state.authority@ == admin_key@ && data@.len() < 24 ==> r == Ok::<(), ProgramError>(()) && *final(treasury) == *old(treasury),
        game_state.authority@ == admin_key@ && data@.len() >= 24 ==> r == Ok::<(), ProgramError>(())
            && *final(treasury) == (Treasury { last_update_slot: final(treasury).last_update_slot, ..*old(treasury) })
            && final(treasury).last_update_slot_value() == current_slot,
{
    if !keys_equal(&game_state.authority, admin_key) {
        return Err(ProgramError::Custom(CrapsError::UnauthorizedAuthority));
    }
    if data.len() < 24 {
        return Ok(());
    }
    proof {
        lemma_u64_roundtrip(current_slot);
    }
    treasury.set_last_update_slot(current_slot);
    Ok(())
}

/// Why a player account cannot be closed: another player's, a balance left, or a
/// tournament joined.
pub open spec fn close_player_error(player: ScalablePlayerState, player_key: Pubkey) -> Option<CrapsError> {
    if player.player@ != player_key@ {
        Some(CrapsError::InvalidPlayer)
    } else if player.balance_value() != 0 {
        Some(CrapsError::InsufficientFunds)
    } else if !is_default_key(player.active_tournament@) {
        Some(CrapsError::ActiveTournament)
    } else {
        None
    }
}

/// Checks that a player may close their account.
pub fn check_close_player_account(player: &ScalablePlayerState, player_key: &Pubkey) -> (r: Result<(), ProgramError>)
    ensures
        close_player_error(*player, *player_key) matches Some(e) ==> r == Err::<(), ProgramError>(ProgramError::Custom(e)),
        close_player_error(*player, *player_key) is None ==> r == Ok::<(), ProgramError>(()),
{
    if !keys_equal(&player.player, player_key) {
        return Err(ProgramError::Custom(CrapsError::InvalidPlayer));
    }
    if player.get_balance() != 0 {
        return Err(ProgramError::Custom(CrapsError::InsufficientFunds));
    }
    let active = player.get_active_tournament();
    if !is_zero_key(&active) {
        return Err(ProgramError::Custom(CrapsError::ActiveTournament));
    }
    Ok(())
}

/// Sets up a new player state: the player's key and bump, no balance, nothing wagered or
/// won, no tournament, no claim.
pub fn init_player_state(player: &mut ScalablePlayerState, player_key: &Pubkey, bump: u8, current_slot: u64)
    ensures
        *final(player) == (ScalablePlayerState {
            player: *player_key,
            bump: bump,
            balance: final(player).balance,
            total_wagered: final(player).total_wagered,
            total_won: final(player).total_won,
            active_tournament: final(player).active_tournament,
            last_claim_slot: final(player).last_claim_slot,
            ..*old(player)
        }),
        is_default_key(final(player).active_tournament@),
        final(player).balance_value() == 0,
        final(player).total_wagered_value() == 0,
        final(player).total_won_value() == 0,
        final(player).last_claim_slot_value() == 0,
{
    proof {
        lemma_u64_roundtrip(0);
    }
    player.player = *player_key;
    player.bump = bump;
    player.set_balance(0);
    player.set_total_deposited(0);
    player.set_total_withdrawn(0);
    player.set_total_wagered(0);
    player.set_total_won(0);
    player.set_active_tournament([0u8; 32]);
    player.set_last_claim_slot(0);
    player.set_games_played(0);
    player.set_bets_placed(0);
    player.set_bets_won(0);
    player.set_initialized_slot(current_slot);
}

/// Sets up the game's accounts once created: the authorities, epoch 0 on the come-out,
/// no active bets, unpaused, the treasury's authority, a fresh bonus state, and the
/// randomness at epoch 0 with no hashes.
pub fn init_system_accounts(game_state: &mut GlobalGameState, treasury: &mut Treasury, bonus: &mut BonusState, rng: &mut RngState, authority_key: &Pubkey, rng_authority: &Pubkey, current_slot: u64)
    ensures
        *final(game_state) == (GlobalGameState {
            authority: *authority_key,
            rng_authority: *rng_authority,
            game_epoch: final(game_state).game_epoch,
            game_phase: PHASE_COME_OUT,
            total_active_bets: final(game_state).total_active_bets,
            next_roll_slot: final(game_state).next_roll_slot,
            use_secure_rng: 0,
            paused: 0,
            ..*old(game_state)
        }),
        final(game_state).game_epoch_value() == 0,
        final(game_state).total_active_bets_value() == 0,
        final(game_state).next_roll_slot_value() == current_slot,
        *final(treasury) == (Treasury {
            authority: *authority_key,
            total_deposits: final(treasury).total_deposits,
            last_update_slot: final(treasury).last_update_slot,
            ..*old(treasury)
        }),
        final(treasury).total_deposits_value() == 0,
        final(treasury).last_update_slot_value() == current_slot,
        final(bonus).is_new(),
        *final(rng) == (RngState {
            epoch: final(rng).epoch,
            phase: 0,
            collection_start_slot: final(rng).collection_start_slot,
            hash_count: 0,
            finalization_slot: final(rng).finalization_slot,
            ..*old(rng)
        }),
        final(rng).epoch_value() == 0,
        final(rng).collection_start_slot_value() == 0,
        final(rng).finalization_slot_value() == current_slot,
{
    proof {
        lemma_u64_roundtrip(0);
        lemma_u64_roundtrip(current_slot);
    }
    game_state.authority = *authority_key;
    game_state.rng_authority = *rng_authority;
    game_state.set_current_epoch(0);
    game_state.set_current_phase(PHASE_COME_OUT);
    game_state.set_total_players(0);
    game_state.set_total_games_played(0);
    game_state.set_total_deposited(0);
    game_state.set_total_wagered(0);
    game_state.set_total_paid_out(0);
    game_state.set_last_updated_slot(current_slot);
    game_state.set_secure_rng_enabled(false);
    game_state.set_is_paused(false);
    game_state.set_is_emergency_shutdown(false);
    game_state.set_auto_roll_enabled(true);

    treasury.authority = *authority_key;
    treasury.set_total_balance(0);
    treasury.set_locked_amount(0);
    treasury.set_insurance_pool(0);
    treasury.set_total_fees_collected(0);
    treasury.set_total_refunded(0);
    treasury.set_last_reconciliation_slot(current_slot);
    treasury.set_safety_multiplier(crate::constants::TREASURY_SAFETY_MULTIPLIER);
    treasury.set_reserve_percentage(5);

    *bonus = BonusState::new();

    rng.set_epoch(0);
    rng.set_rng_phase(0);
    rng.set_collection_start_slot(0);
    rng.set_hash_count(0);
    rng.set_last_finalized_epoch(0);
    rng.set_last_update_slot(current_slot);
    rng.set_total_collections(0);
    rng.set_successful_finalizations(0);
    rng.set_failed_finalizations(0);
    rng.set_is_active(true);
}

} // verus!
