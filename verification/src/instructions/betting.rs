//! The decisions of placing a bet: the checks on the request and the state, and the
//! bookkeeping of the bet in the player's batch for the epoch.
use vstd::prelude::*;
use vstd::bytes::*;
use crate::error::{CrapsError, ProgramError};
use crate::instructions::data::PlaceBetData;
use crate::keys::{Pubkey, keys_equal};
use crate::le_bytes::{lemma_u16_roundtrip, lemma_u64_roundtrip};
use crate::state::bet::{BetBatch, MAX_BETS_PER_BATCH, splice};
use crate::state::game::GlobalGameState;
use crate::state::bonus::BonusState;
use crate::claim::{batch_bet_payout, bet_payout_value};
use crate::state::player::ScalablePlayerState;
use crate::validation::{validate_bet_amount, validate_bet_type};
use crate::constants::{MAX_BET_AMOUNT, MIN_BET_AMOUNT};
use crate::bet_encoding::{MAX_AMOUNT_INDEX, MAX_BET_KIND, floor_amount_index, is_encodable_amount, lemma_amount_roundtrip, lemma_floor_index, metadata_of, packed_at, spec_decode_amount, spec_floor_index, spec_pack};

verus! {

/// Reads the data of a bet and checks its kind and amount: returns the epoch, the kind
/// and the amount.
pub fn parse_place_bet(data: &[u8]) -> (r: Result<(u64, u8, u64), ProgramError>)
    ensures
        data@.len() < PlaceBetData::LEN ==> r == Err::<(u64, u8, u64), ProgramError>(ProgramError::InvalidInstructionData),
        data@.len() >= PlaceBetData::LEN ==> {
            let epoch = spec_u64_from_le_bytes(data@.subrange(0, 8));
            let kind = data@[8];
            let amount = spec_u64_from_le_bytes(data@.subrange(16, 24));
            &&& kind > 63 ==> r == Err::<(u64, u8, u64), ProgramError>(ProgramError::Custom(CrapsError::InvalidBetKind))
            &&& kind <= 63 && !(MIN_BET_AMOUNT <= amount <= MAX_BET_AMOUNT) ==> r == Err::<(u64, u8, u64), ProgramError>(
                ProgramError::Custom(CrapsError::InvalidBetAmount),
            )
            &&& kind <= 63 && MIN_BET_AMOUNT <= amount <= MAX_BET_AMOUNT ==> r == Ok::<(u64, u8, u64), ProgramError>(
                (epoch, kind, amount),
            )
        },
{
    let bet_data = match PlaceBetData::parse(data) {
        Ok(d) => d,
        Err(e) => return Err(e),
    };
    let epoch = bet_data.get_epoch();
    let bet_kind = bet_data.bet_kind;
    let bet_amount = bet_data.get_bet_amount();
    match validate_bet_type(bet_kind) {
        Ok(()) => {},
        Err(e) => return Err(e),
    }
    match validate_bet_amount(bet_amount) {
        Ok(()) => {},
        Err(e) => return Err(e),
    }
    Ok((epoch, bet_kind, bet_amount))
}

/// Why the state refuses a bet: a paused game, another epoch than the current one, a
/// player state of another player, or a balance below the amount.
pub open spec fn place_bet_state_error(game_state: GlobalGameState, player_key: Pubkey, player: ScalablePlayerState, epoch: u64, amount: u64) -> Option<CrapsError> {
    if game_state.paused != 0 {
        Some(CrapsError::GamePaused)
    } else if epoch != game_state.game_epoch_value() {
        Some(CrapsError::InvalidEpoch)
    } else if player.player@ != player_key@ {
        Some(CrapsError::InvalidPlayer)
    } else if player.balance_value() < amount {
        Some(CrapsError::InsufficientFunds)
    } else {
        None
    }
}

/// Checks a bet of `amount` for `epoch` against the game and the player's state.
pub fn check_place_bet(game_state: &GlobalGameState, player_key: &Pubkey, player: &ScalablePlayerState, epoch: u64, amount: u64) -> (r: Result<(), ProgramError>)
    ensures
        place_bet_state_error(*game_state, *player_key, *player, epoch, amount) matches Some(e) ==> r == Err::<(), ProgramError>(
            ProgramError::Custom(e),
        ),
        place_bet_state_error(*game_state, *player_key, *player, epoch, amount) is None ==> r == Ok::<(), ProgramError>(()),
{
    if game_state.get_is_paused() {
        return Err(ProgramError::Custom(CrapsError::GamePaused));
    }
    if game_state.get_is_emergency_shutdown() {
        return Err(ProgramError::Custom(CrapsError::EmergencyShutdown));
    }
    let current_epoch = game_state.get_current_epoch();
    if epoch != current_epoch {
        return Err(ProgramError::Custom(CrapsError::InvalidEpoch));
    }
    if !keys_equal(&player.player, player_key) {
        return Err(ProgramError::Custom(CrapsError::InvalidPlayer));
    }
    if player.get_balance() < amount {
        return Err(ProgramError::Custom(CrapsError::InsufficientFunds));
    }
    Ok(())
}

/// Sets up a new batch for a player and an epoch: no bets, nothing wagered, no masks.
pub fn init_bet_batch(batch: &mut BetBatch, player_key: &Pubkey, epoch: u64, bump: u8)
    ensures
        *final(batch) == (BetBatch {
            player: *player_key,
            epoch: final(batch).epoch,
            bet_count: 0,
            total_amount: final(batch).total_amount,
            bump: bump,
            resolved_mask: final(batch).resolved_mask,
            realizable_mask: final(batch).realizable_mask,
            settled_mask: final(batch).settled_mask,
            winning_mask: final(batch).winning_mask,
            ..*old(batch)
        }),
        final(batch).epoch_value() == epoch,
        final(batch).total_amount_value() == 0,
        final(batch).resolved_mask_value() == 0,
        final(batch).realizable_mask_value() == 0,
        final(batch).settled_mask_value() == 0,
        final(batch).winning_mask_value() == 0,
{
    proof {
        lemma_u64_roundtrip(epoch);
        lemma_u64_roundtrip(0);
        lemma_u16_roundtrip(0);
    }
    batch.player = *player_key;
    batch.set_epoch(epoch);
    batch.bet_count = 0;
    batch.set_total_amount(0);
    batch.bump = bump;
    batch.set_resolved_mask(0);
    batch.set_realizable_mask(0);
    batch.set_settled_mask(0);
    batch.set_winning_mask(0);
}

/// The packed form the program stores for a bet: the kind in the lower 6 bits and, in
/// the 10 bits above them, the grid index of the amount, that of the largest grid amount
/// at or below it (see `spec_floor_index`).
pub open spec fn packed_bet_of(kind: u8, amount: u64) -> u16 {
    spec_pack(kind as int, spec_floor_index(amount as int)) as u16
}

/// Why a bet cannot be added: the batch is full, or the kind is past 63.
pub open spec fn add_bet_error(batch: BetBatch, kind: u8, amount: u64) -> Option<ProgramError> {
    if batch.bet_count >= MAX_BETS_PER_BATCH {
        Some(ProgramError::Custom(CrapsError::BatchFull))
    } else if kind > MAX_BET_KIND {
        Some(ProgramError::Custom(CrapsError::InvalidBetKind))
    } else {
        None
    }
}

/// Adds a bet to the next slot of the batch and books it: the slot holds the bet packed
/// as its kind and its amount's grid index, so that it decodes back to the kind and to
/// the amount, or, for an amount off the grid, to the largest grid amount at or below
/// it; the batch's total and the player's wagered total grow by the amount, the
/// balance shrinks by it, and the slot of the bet is recorded. A full batch, or a kind
/// past 63, is refused and nothing changes.
pub fn add_bet(batch: &mut BetBatch, player: &mut ScalablePlayerState, kind: u8, amount: u64, current_slot: u64) -> (r: Result<(), ProgramError>)
    requires
        add_bet_error(*old(batch), kind, amount) is None ==> {
            &&& old(batch).total_amount_value() + amount <= u64::MAX
            &&& old(player).total_wagered_value() + amount <= u64::MAX
            &&& old(player).balance_value() >= amount
        },
    ensures
        add_bet_error(*old(batch), kind, amount) matches Some(e) ==> {
            &&& r == Err::<(), ProgramError>(e)
            &&& *final(batch) == *old(batch)
            &&& *final(player) == *old(player)
        },
        add_bet_error(*old(batch), kind, amount) is None ==> {
            &&& r == Ok::<(), ProgramError>(())
            &&& *final(batch) == (BetBatch {
                packed_bets: final(batch).packed_bets,
                bet_count: (old(batch).bet_count + 1) as u8,
                total_amount: final(batch).total_amount,
                ..*old(batch)
            })
            &&& final(batch).packed_bets@ == splice(
                old(batch).packed_bets@,
                2 * old(batch).bet_count,
                spec_u16_to_le_bytes(packed_bet_of(kind, amount)),
            )
            &&& final(batch).packed_bet_value(old(batch).bet_count as int) == packed_bet_of(kind, amount)
            &&& metadata_of(packed_at(*final(batch), old(batch).bet_count as int)).bet_type == kind
            &&& metadata_of(packed_at(*final(batch), old(batch).bet_count as int)).amount == spec_decode_amount(
                spec_floor_index(amount as int),
            )
            &&& is_encodable_amount(amount as int) ==> metadata_of(packed_at(*final(batch), old(batch).bet_count as int)).amount
                == amount
            &&& forall|j: int| 0 <= j < old(batch).bet_count ==> #[trigger] final(batch).packed_bet_value(j)
                == old(batch).packed_bet_value(j)
            &&& final(batch).total_amount_value() == old(batch).total_amount_value() + amount
            &&& *final(player) == (ScalablePlayerState {
                balance: final(player).balance,
                total_wagered: final(player).total_wagered,
                last_bet_slot: final(player).last_bet_slot,
                ..*old(player)
            })
            &&& final(player).balance_value() == old(player).balance_value() - amount
            &&& final(player).total_wagered_value() == old(player).total_wagered_value() + amount
            &&& final(player).last_bet_slot_value() == current_slot
        },
{
    let bet_count = batch.bet_count as usize;
    if bet_count >= MAX_BETS_PER_BATCH {
        return Err(ProgramError::Custom(CrapsError::BatchFull));
    }
    if kind > MAX_BET_KIND {
        return Err(ProgramError::Custom(CrapsError::InvalidBetKind));
    }
    let index = floor_amount_index(amount);
    let t = kind as u16;
    assert(((index & 0x3FF) << 6u16) | (t & 0x3F) == index * 64 + t) by (bit_vector)
        requires
            index <= 767,
            t <= 63,
    ;
    let packed_bet: u16 = ((index & 0x3FF) << 6u16) | (t & 0x3F);
    proof {
        lemma_placed_bet_decodes(kind, amount);
    }
    let ghost before = *batch;
    batch.set_packed_bet(bet_count, packed_bet);
    let ghost after_set = *batch;
    assert forall|j: int| 0 <= j < bet_count implies #[trigger] after_set.packed_bet_value(j) == before.packed_bet_value(j) by {
        assert(0 <= j < MAX_BETS_PER_BATCH && j != bet_count);
    }
    batch.bet_count = batch.bet_count + 1;
    let new_total = batch.get_total_amount() + amount;
    let new_balance = player.get_balance() - amount;
    let new_wagered = player.get_total_wagered() + amount;
    proof {
        lemma_u64_roundtrip(new_total);
        lemma_u64_roundtrip(new_balance);
        lemma_u64_roundtrip(new_wagered);
        lemma_u64_roundtrip(current_slot);
    }
    batch.set_total_amount(new_total);
    player.set_balance(new_balance);
    player.set_total_wagered(new_wagered);
    player.set_last_bet_slot(current_slot);
    assert(packed_bet == packed_bet_of(kind, amount));
    assert(batch.packed_bet_value(bet_count as int) == packed_bet_of(kind, amount));
    assert(packed_at(*batch, bet_count as int) == packed_bet_of(kind, amount));
    assert(batch.packed_bets == after_set.packed_bets);
    assert forall|j: int| 0 <= j < bet_count implies #[trigger] batch.packed_bet_value(j) == old(batch).packed_bet_value(j) by {
        assert(after_set.packed_bet_value(j) == before.packed_bet_value(j));
    }
    Ok(())
}

/// A bet is claimed on what was wagered: the packed form of a bet of kind 0..=63 decodes,
/// as a claim decodes it, back to that kind and to the grid amount it was packed as,
/// which is the amount itself when that is on the grid.
pub proof fn lemma_placed_bet_decodes(kind: u8, amount: u64)
    requires
        kind <= MAX_BET_KIND,
    ensures
        0 <= spec_pack(kind as int, spec_floor_index(amount as int)) < 65536,
        metadata_of(packed_bet_of(kind, amount)).bet_type == kind,
        metadata_of(packed_bet_of(kind, amount)).amount == spec_decode_amount(spec_floor_index(amount as int)),
        is_encodable_amount(amount as int) ==> metadata_of(packed_bet_of(kind, amount)).amount == amount,
{
    let i = spec_floor_index(amount as int);
    assert(0 <= i <= MAX_AMOUNT_INDEX);
    assert((i * 64 + kind) / 64 == i) by (nonlinear_arith)
        requires
            0 <= kind < 64,
            0 <= i,
    ;
    assert((i * 64 + kind) % 64 == kind as int) by (nonlinear_arith)
        requires
            0 <= kind < 64,
            0 <= i,
    ;
    if is_encodable_amount(amount as int) {
        lemma_floor_index(amount as int);
        lemma_amount_roundtrip(amount as int);
    }
}

/// A bet, once placed, is claimed on the kind and the amount the player wagered: where
/// a slot holds a bet as `add_bet` packs it, the claim pays that slot exactly what a bet
/// of that kind pays for the roll on the grid amount it was packed as, the amount itself
/// when that is on the grid.
pub proof fn lemma_claim_pays_wagered_bet(
    batch: BetBatch,
    n: int,
    kind: u8,
    amount: u64,
    dice_total: u8,
    phase: u8,
    point: u8,
    bonus: BonusState,
)
    requires
        0 <= n < MAX_BETS_PER_BATCH,
        kind <= MAX_BET_KIND,
        batch.packed_bet_value(n) == packed_bet_of(kind, amount),
    ensures
        batch_bet_payout(batch, n, dice_total, phase, point, bonus) == bet_payout_value(
            kind,
            spec_decode_amount(spec_floor_index(amount as int)) as u64,
            dice_total,
            phase,
            point,
            bonus,
        ),
        is_encodable_amount(amount as int) ==> batch_bet_payout(batch, n, dice_total, phase, point, bonus)
            == bet_payout_value(kind, amount, dice_total, phase, point, bonus),
{
    lemma_placed_bet_decodes(kind, amount);
}

} // verus!
