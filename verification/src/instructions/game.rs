//! The decisions of the game's instructions: the automatic roll and the randomness cycle
//! (collecting block hashes, finalizing, and opening a new betting phase).
use vstd::prelude::*;
use vstd::bytes::*;
use crate::constants::{SLOTS_PER_ROLL, PHASE_COME_OUT, PHASE_POINT, REQUIRED_BLOCK_HASHES};
use crate::dice::{calculate_roll_total, is_craps, is_natural, is_point_made, is_point_total, is_seven_out, is_valid_point_roll};
use crate::error::{CrapsError, ProgramError};
use crate::keys::{Pubkey, keys_equal};
use crate::le_bytes::{lemma_u32_roundtrip, lemma_u64_roundtrip, read_u64};
use crate::rng::{dice_of_value, generate_dice_from_final_value, mix_entropy, spec_mix_entropy, validate_dice_values, validate_rng_phase};
use crate::state::bet::splice;
use crate::state::bonus::{BonusState, bonus_after_roll};
use crate::state::game::GlobalGameState;
use crate::state::rng::{RngPhase, RngState, STORED_BLOCK_HASHES, phase_code, phase_of, timing_entropy};

verus! {

/// The phase and point after a roll of `total` from a phase and point, and whether the
/// roll was a seven-out. On the come-out a point number sets the point and anything else
/// leaves the phase; after the point, making it or a seven ends the phase.
pub open spec fn roll_transition(phase: u8, point: u8, total: int) -> (u8, u8, bool) {
    if phase == PHASE_COME_OUT {
        if is_point_total(total) { (PHASE_POINT, total as u8, false) } else { (phase, point, false) }
    } else {
        if point != 0 && total == point {
            (PHASE_COME_OUT, 0u8, false)
        } else if total == 7 {
            (PHASE_COME_OUT, 0u8, true)
        } else {
            (phase, point, false)
        }
    }
}

/// Why an automatic roll is refused: another signer than the roll authority, a paused
/// game, randomness of another epoch or not finalized, or an unknown game phase.
pub open spec fn auto_roll_error(game_state: GlobalGameState, rng: RngState, signer: Pubkey) -> Option<ProgramError> {
    if signer@ != game_state.rng_authority@ {
        Some(ProgramError::Custom(CrapsError::InvalidAuthority))
    } else if game_state.paused != 0 {
        Some(ProgramError::Custom(CrapsError::GamePaused))
    } else if rng.epoch_value() != game_state.game_epoch_value() {
        Some(ProgramError::Custom(CrapsError::InvalidEpoch))
    } else if phase_of(rng.phase) != RngPhase::Finalized {
        Some(ProgramError::Custom(CrapsError::InvalidRngPhase))
    } else if game_state.game_phase != PHASE_COME_OUT && game_state.game_phase != PHASE_POINT {
        Some(ProgramError::Custom(CrapsError::InvalidPhase))
    } else {
        None
    }
}

/// What an automatic roll would do, without doing it: the refusal the roll would give,
/// or the dice and whether they make a seven-out. A caller learns from it which counters
/// the roll will move before making the roll.
pub fn auto_roll_outcome(game_state: &GlobalGameState, rng: &RngState, signer: &Pubkey) -> (r: Result<(u8, u8, bool), ProgramError>)
    ensures
        auto_roll_error(*game_state, *rng, *signer) matches Some(e) ==> r == Err::<(u8, u8, bool), ProgramError>(e),
        auto_roll_error(*game_state, *rng, *signer) is None ==> {
            let (d1, d2) = dice_of_value(rng.final_value_value());
            r == Ok::<(u8, u8, bool), ProgramError>(
                (d1, d2, roll_transition(game_state.game_phase, game_state.current_point, d1 + d2).2),
            )
        },
{
    if !keys_equal(signer, &game_state.rng_authority) {
        return Err(ProgramError::Custom(CrapsError::InvalidAuthority));
    }
    if game_state.paused != 0 {
        return Err(ProgramError::Custom(CrapsError::GamePaused));
    }
    match validate_rng_phase(rng, RngPhase::Finalized, game_state.get_game_epoch()) {
        Ok(()) => {},
        Err(e) => return Err(e),
    }
    if game_state.game_phase != PHASE_COME_OUT && game_state.game_phase != PHASE_POINT {
        return Err(ProgramError::Custom(CrapsError::InvalidPhase));
    }
    let (dice1, dice2) = generate_dice_from_final_value(rng.get_final_value());
    let seven_out = game_state.game_phase == PHASE_POINT && !is_point_made(dice1, dice2, game_state.current_point)
        && is_seven_out(dice1, dice2);
    Ok((dice1, dice2, seven_out))
}

/// Whether a game state is consistent: on the come-out there is no point, after it the
/// point is a point number.
pub open spec fn game_consistent(g: GlobalGameState) -> bool {
    ||| g.game_phase == PHASE_COME_OUT && g.current_point == 0
    ||| g.game_phase == PHASE_POINT && is_point_total(g.current_point as int)
}

/// Rolls the dice from the finalized randomness of the current epoch: records the roll,
/// updates the bonus tracking, moves the phase and point, and on a seven-out clears the
/// bonus tracking and starts the next epoch. Returns the dice. On an error nothing changes.
pub fn secure_auto_roll(game_state: &mut GlobalGameState, bonus: &mut BonusState, rng: &RngState, signer: &Pubkey, current_slot: u64) -> (r: Result<(u8, u8), ProgramError>)
    requires
        auto_roll_error(*old(game_state), *rng, *signer) is None ==> {
            let (d1, d2) = dice_of_value(rng.final_value_value());
            &&& current_slot + SLOTS_PER_ROLL <= u64::MAX
            &&& !roll_transition(old(game_state).game_phase, old(game_state).current_point, d1 + d2).2
                ==> old(game_state).epoch_roll_count_value() < u32::MAX
            &&& roll_transition(old(game_state).game_phase, old(game_state).current_point, d1 + d2).2
                ==> old(game_state).game_epoch_value() < u64::MAX
        },
    ensures
        auto_roll_error(*old(game_state), *rng, *signer) matches Some(e) ==> {
            &&& r == Err::<(u8, u8), ProgramError>(e)
            &&& *final(game_state) == *old(game_state)
            &&& *final(bonus) == *old(bonus)
        },
        auto_roll_error(*old(game_state), *rng, *signer) is None ==> {
            let (d1, d2) = dice_of_value(rng.final_value_value());
            let total = d1 + d2;
            let (phase, point, seven_out) = roll_transition(old(game_state).game_phase, old(game_state).current_point, total);
            &&& r == Ok::<(u8, u8), ProgramError>((d1, d2))
            &&& *final(game_state) == (GlobalGameState {
                game_phase: phase,
                current_point: point,
                current_die1: d1,
                current_die2: d2,
                current_dice: total as u8,
                next_roll_slot: final(game_state).next_roll_slot,
                epoch_roll_count: final(game_state).epoch_roll_count,
                game_epoch: final(game_state).game_epoch,
                ..*old(game_state)
            })
            &&& final(game_state).next_roll_slot_value() == current_slot + SLOTS_PER_ROLL
            &&& final(game_state).epoch_roll_count_value() == (if seven_out { 0int } else { old(game_state).epoch_roll_count_value() + 1 })
            &&& final(game_state).game_epoch_value() == old(game_state).game_epoch_value() + (if seven_out { 1int } else { 0int })
            &&& seven_out ==> final(bonus).is_cleared() && final(bonus)._reserved == old(bonus)._reserved
            &&& !seven_out ==> bonus_after_roll(*old(bonus), *final(bonus), d1, d2, total as u8, old(game_state).current_point)
        },
{
    if !keys_equal(signer, &game_state.rng_authority) {
        return Err(ProgramError::Custom(CrapsError::InvalidAuthority));
    }
    if game_state.paused != 0 {
        return Err(ProgramError::Custom(CrapsError::GamePaused));
    }
    let current_epoch = game_state.get_game_epoch();
    match validate_rng_phase(rng, RngPhase::Finalized, current_epoch) {
        Ok(()) => {},
        Err(e) => return Err(e),
    }
    let final_value = rng.get_final_value();
    let (dice1, dice2) = generate_dice_from_final_value(final_value);
    match validate_dice_values(dice1, dice2) {
        Ok(()) => {},
        Err(e) => return Err(e),
    }
    let dice_sum = calculate_roll_total(dice1, dice2);
    let current_phase = game_state.game_phase;
    let current_point = game_state.current_point;
    if current_phase != PHASE_COME_OUT && current_phase != PHASE_POINT {
        return Err(ProgramError::Custom(CrapsError::InvalidPhase));
    }
    bonus.update_for_roll(dice1, dice2, dice_sum, current_point);
    let mut seven_out = false;
    if current_phase == PHASE_COME_OUT {
        if is_natural(dice1, dice2) {
        } else if is_craps(dice1, dice2) {
        } else if is_valid_point_roll(dice1, dice2) {
            game_state.game_phase = PHASE_POINT;
            game_state.current_point = dice_sum;
        } else {
            return Err(ProgramError::Custom(CrapsError::InvalidDiceTotal));
        }
    } else {
        if is_point_made(dice1, dice2, current_point) {
            game_state.game_phase = PHASE_COME_OUT;
            game_state.current_point = 0;
        } else if is_seven_out(dice1, dice2) {
            seven_out = true;
            game_state.game_phase = PHASE_COME_OUT;
            game_state.current_point = 0;
            bonus.reset_on_seven_out();
            let new_epoch = current_epoch + 1;
            proof {
                lemma_u64_roundtrip(new_epoch);
            }
            game_state.set_game_epoch(new_epoch);
        }
    }
    game_state.current_die1 = dice1;
    game_state.current_die2 = dice2;
    game_state.current_dice = dice_sum;
    let next_roll = current_slot + SLOTS_PER_ROLL;
    let roll_count: u32 = if seven_out {
        0
    } else {
        game_state.get_epoch_roll_count() + 1
    };
    proof {
        lemma_u64_roundtrip(next_roll);
        lemma_u32_roundtrip(roll_count);
        lemma_u64_roundtrip(current_epoch);
        assert(spec_u64_from_le_bytes(old(game_state).game_epoch@) == current_epoch);
    }
    game_state.set_next_roll_slot(next_roll);
    game_state.set_epoch_roll_count(roll_count);
    Ok((dice1, dice2))
}

/// A roll of two dice from a consistent game state leaves it consistent.
pub proof fn lemma_roll_keeps_game_consistent(phase: u8, point: u8, d1: u8, d2: u8)
    requires
        (phase == PHASE_COME_OUT && point == 0) || (phase == PHASE_POINT && is_point_total(point as int)),
        1 <= d1 <= 6,
        1 <= d2 <= 6,
    ensures
        ({
            let (p, q, _) = roll_transition(phase, point, d1 + d2);
            (p == PHASE_COME_OUT && q == 0) || (p == PHASE_POINT && is_point_total(q as int))
        }),
{
}

/// The bytes of a dummy block hash: 32 copies of one byte.
pub open spec fn filled(b: u8) -> Seq<u8> {
    Seq::new(32, |i: int| b)
}

/// Why a block hash is not collected: another signer than the roll authority, randomness
/// outside its collection phase, or the ten hashes the state holds already collected.
pub open spec fn collect_hash_error(rng: RngState, game_state: GlobalGameState, signer: Pubkey) -> Option<CrapsError> {
    if signer@ != game_state.rng_authority@ {
        Some(CrapsError::InvalidAuthority)
    } else if phase_of(rng.phase) != RngPhase::Collection {
        Some(CrapsError::InvalidRngPhase)
    } else if rng.hash_count >= STORED_BLOCK_HASHES {
        Some(CrapsError::MaxBlockHashesReached)
    } else {
        None
    }
}

/// Collects a block hash for the randomness: stands in for it with 32 copies of the new
/// hash count, stored after the hashes already collected.
pub fn collect_block_hash(rng: &mut RngState, game_state: &GlobalGameState, signer: &Pubkey) -> (r: Result<(), ProgramError>)
    ensures
        collect_hash_error(*old(rng), *game_state, *signer) matches Some(e) ==> {
            &&& r == Err::<(), ProgramError>(ProgramError::Custom(e))
            &&& *final(rng) == *old(rng)
        },
        collect_hash_error(*old(rng), *game_state, *signer) is None ==> {
            &&& r == Ok::<(), ProgramError>(())
            &&& *final(rng) == (RngState {
                block_hashes: final(rng).block_hashes,
                hash_count: (old(rng).hash_count + 1) as u8,
                ..*old(rng)
            })
            &&& final(rng).block_hashes@ == splice(
                old(rng).block_hashes@,
                32 * old(rng).hash_count,
                filled((old(rng).hash_count + 1) as u8),
            )
        },
{
    if !keys_equal(signer, &game_state.rng_authority) {
        return Err(ProgramError::Custom(CrapsError::InvalidAuthority));
    }
    if rng.get_phase() != RngPhase::Collection {
        return Err(ProgramError::Custom(CrapsError::InvalidRngPhase));
    }
    let hash_count = rng.hash_count;
    if hash_count >= STORED_BLOCK_HASHES {
        return Err(ProgramError::Custom(CrapsError::MaxBlockHashesReached));
    }
    let fill = hash_count + 1;
    let offset = (hash_count as usize) * 32;
    let ghost before = rng.block_hashes@;
    let mut i: usize = 0;
    while i < 32
        invariant
            0 <= i <= 32,
            offset == 32 * hash_count,
            hash_count < 10,
            fill == hash_count + 1,
            hash_count == old(rng).hash_count,
            before == old(rng).block_hashes@,
            *rng == (RngState { block_hashes: rng.block_hashes, ..*old(rng) }),
            forall|j: int| 0 <= j < 320 ==> #[trigger] rng.block_hashes@[j] == (if offset <= j < offset + i {
                fill
            } else {
                before[j]
            }),
        decreases 32 - i,
    {
        rng.block_hashes[offset + i] = fill;
        i += 1;
    }
    assert(rng.block_hashes@ =~= splice(before, offset as int, filled(fill)));
    rng.hash_count = fill;
    Ok(())
}

/// Byte `j` of the XOR of the first `n` hashes stored one after another in `bytes`.
pub open spec fn xor_stored(bytes: Seq<u8>, n: nat, j: int) -> u8
    decreases n,
{
    if n == 0 {
        0
    } else {
        xor_stored(bytes, (n - 1) as nat, j) ^ bytes[32 * (n - 1) + j]
    }
}

/// The entropy mixed from the hashes a randomness state has collected.
pub open spec fn stored_entropy(rng: RngState) -> Seq<u8> {
    crate::rng::mix_rounds(Seq::new(32, |j: int| xor_stored(rng.block_hashes@, rng.hash_count as nat, j)), 32)
}

proof fn lemma_xor_stored(hashes: Seq<[u8; 32]>, bytes: Seq<u8>, n: nat, j: int)
    requires
        n <= hashes.len(),
        forall|k: int| 0 <= k < n ==> #[trigger] hashes[k]@ == bytes.subrange(32 * k, 32 * k + 32),
        0 <= j < 32,
        32 * n <= bytes.len(),
    ensures
        crate::rng::xor_fold(hashes, n, j) == xor_stored(bytes, n, j),
    decreases n,
{
    if n > 0 {
        lemma_xor_stored(hashes, bytes, (n - 1) as nat, j);
        let k = n - 1;
        assert(hashes[k]@ == bytes.subrange(32 * k, 32 * k + 32));
        assert(hashes[k]@[j] == bytes[32 * k + j]);
    }
}

/// Why randomness is not finalized: fewer hashes than required, or not in its collection
/// phase.
pub open spec fn finalize_error(rng: RngState) -> Option<CrapsError> {
    if rng.hash_count < REQUIRED_BLOCK_HASHES {
        Some(CrapsError::InsufficientBlockHashes)
    } else if phase_of(rng.phase) != RngPhase::Collection {
        Some(CrapsError::InvalidRngPhase)
    } else {
        None
    }
}

/// Finalizes the randomness: mixes the collected hashes and keeps the first eight bytes
/// of the mix, read as a little-endian number, as the final value.
pub fn finalize_rng(rng: &mut RngState, current_slot: u64) -> (r: Result<(), ProgramError>)
    requires
        finalize_error(*old(rng)) is None ==> old(rng).hash_count <= 10,
    ensures
        finalize_error(*old(rng)) matches Some(e) ==> {
            &&& r == Err::<(), ProgramError>(ProgramError::Custom(e))
            &&& *final(rng) == *old(rng)
        },
        finalize_error(*old(rng)) is None ==> {
            &&& r == Ok::<(), ProgramError>(())
            &&& *final(rng) == (RngState {
                final_value: final(rng).final_value,
                phase: phase_code(RngPhase::Finalized),
                finalization_slot: final(rng).finalization_slot,
                ..*old(rng)
            })
            &&& final(rng).final_value_value() == spec_u64_from_le_bytes(stored_entropy(*old(rng)).subrange(0, 8))
            &&& final(rng).finalization_slot_value() == current_slot
        },
{
    if rng.hash_count < REQUIRED_BLOCK_HASHES {
        return Err(ProgramError::Custom(CrapsError::InsufficientBlockHashes));
    }
    if rng.get_phase() != RngPhase::Collection {
        return Err(ProgramError::Custom(CrapsError::InvalidRngPhase));
    }
    let n = rng.hash_count as usize;
    let mut hashes: Vec<[u8; 32]> = Vec::new();
    let mut i: usize = 0;
    while i < n
        invariant
            0 <= i <= n,
            n == rng.hash_count,
            n <= 10,
            hashes@.len() == i,
            forall|k: int| 0 <= k < i ==> #[trigger] hashes@[k]@ == rng.block_hashes@.subrange(32 * k, 32 * k + 32),
        decreases n - i,
    {
        match rng.get_block_hash(i) {
            Some(h) => hashes.push(h),
            None => {},
        }
        i += 1;
    }
    let mixed = match mix_entropy(hashes.as_slice(), rng.hash_count) {
        Ok(m) => m,
        Err(e) => return Err(e),
    };
    proof {
        assert forall|j: int| 0 <= j < 32 implies crate::rng::xor_fold(hashes@, n as nat, j) == xor_stored(rng.block_hashes@, n as nat, j) by {
            lemma_xor_stored(hashes@, rng.block_hashes@, n as nat, j);
        }
        assert(crate::rng::xor_all(hashes@, n as nat) =~= Seq::new(32, |j: int| xor_stored(rng.block_hashes@, n as nat, j)));
    }
    let first = [mixed[0], mixed[1], mixed[2], mixed[3], mixed[4], mixed[5], mixed[6], mixed[7]];
    assert(first@ =~= mixed@.subrange(0, 8));
    let final_value = read_u64(&first);
    proof {
        lemma_u64_roundtrip(final_value);
        lemma_u64_roundtrip(current_slot);
    }
    rng.set_final_value(final_value);
    rng.set_phase(RngPhase::Finalized);
    rng.set_finalization_slot(current_slot);
    Ok(())
}

/// Whether the randomness is reset for a new betting phase: of an earlier epoch, or of
/// the current epoch and finalized.
pub open spec fn betting_restarts(game_state: GlobalGameState, rng: RngState) -> bool {
    (rng.epoch_value() == game_state.game_epoch_value() && phase_of(rng.phase) == RngPhase::Finalized)
        || rng.epoch_value() < game_state.game_epoch_value()
}

/// Whether `new` is `old` reset for an epoch at a slot.
pub open spec fn reset_for(old: RngState, new: RngState, epoch: u64, slot: u64) -> bool {
    &&& new == (RngState {
        epoch: new.epoch,
        phase: 0u8,
        betting_start_slot: new.betting_start_slot,
        collection_start_slot: new.collection_start_slot,
        finalization_slot: new.finalization_slot,
        hash_count: 0u8,
        block_hashes: new.block_hashes,
        final_value: new.final_value,
        ..old
    })
    &&& new.epoch_value() == epoch
    &&& new.betting_start_slot_value() == slot
    &&& new.collection_start_slot_value() == slot + 100 + timing_entropy(epoch, slot)
    &&& new.finalization_slot_value() == 0
    &&& new.final_value_value() == 0
    &&& forall|j: int| 0 <= j < 320 ==> #[trigger] new.block_hashes@[j] == 0
}

/// Opens the betting phase of the current epoch: the roll authority resets the
/// randomness when it is finalized for this epoch or belongs to an earlier one.
pub fn start_betting_phase(game_state: &GlobalGameState, rng: &mut RngState, signer: &Pubkey, current_slot: u64) -> (r: Result<(), ProgramError>)
    requires
        signer@ == game_state.rng_authority@ && betting_restarts(*game_state, *old(rng)) ==> current_slot + 100
            + timing_entropy(game_state.game_epoch_value(), current_slot) <= u64::MAX,
    ensures
        signer@ != game_state.rng_authority@ ==> r == Err::<(), ProgramError>(ProgramError::Custom(CrapsError::InvalidAuthority))
            && *final(rng) == *old(rng),
        signer@ == game_state.rng_authority@ && !betting_restarts(*game_state, *old(rng)) ==> r == Err::<(), ProgramError>(
            ProgramError::Custom(CrapsError::InvalidRngPhase),
        ) && *final(rng) == *old(rng),
        signer@ == game_state.rng_authority@ && betting_restarts(*game_state, *old(rng)) ==> r == Ok::<(), ProgramError>(())
            && reset_for(*old(rng), *final(rng), game_state.game_epoch_value(), current_slot),
{
    if !keys_equal(signer, &game_state.rng_authority) {
        return Err(ProgramError::Custom(CrapsError::InvalidAuthority));
    }
    let current_epoch = game_state.get_game_epoch();
    if rng.get_epoch() == current_epoch && rng.is_finalized() {
        rng.reset_for_epoch(current_epoch, current_slot);
    } else if rng.get_epoch() < current_epoch {
        rng.reset_for_epoch(current_epoch, current_slot);
    } else {
        return Err(ProgramError::Custom(CrapsError::InvalidRngPhase));
    }
    Ok(())
}

} // verus!
