//! What the client reads out of the program's accounts and the instruction
//! data it sends. Fetching accounts and sending transactions is the caller's.
use vstd::prelude::*;
use vstd::bytes::spec_u64_from_le_bytes;
use vstd::bytes::spec_u64_to_le_bytes;
use crate::client::game::{BetType, GamePhase, GameState, program_bet_type_of};
use crate::le_bytes::{lemma_u64_roundtrip, read_u64_at, write_u64};

verus! {

/// The instruction tag of placing a bet.
pub const IX_PLACE_BET: u8 = 8;
/// The instruction tag of claiming an epoch's payouts.
pub const IX_CLAIM_EPOCH_PAYOUTS: u8 = 14;
/// The instruction tag of a withdrawal.
pub const IX_WITHDRAW: u8 = 5;
/// The instruction tag of a deposit.
pub const IX_DEPOSIT: u8 = 4;

/// Why account data could not be read.
#[derive(Debug, Clone, Copy, PartialEq, Eq, Structural)]
pub enum RpcDataError {
    /// The game state account holds fewer than 32 bytes.
    InvalidGameStateData,
}

/// A byte where zero stands for nothing.
pub open spec fn nonzero(b: u8) -> Option<u8> {
    if b == 0 {
        None
    } else {
        Some(b)
    }
}

/// The game as the client reads it from the game state account: the epoch in
/// the first eight bytes, then (after the dice total) die 1, die 2, the point
/// and the phase, a zero byte standing for none; the rest it does not read.
pub open spec fn game_state_of(data: Seq<u8>) -> GameState {
    GameState {
        epoch: spec_u64_from_le_bytes(data.subrange(0, 8)),
        phase: if data[12] == 0 {
            GamePhase::ComeOut
        } else {
            GamePhase::Point
        },
        point: nonzero(data[11]),
        die1: nonzero(data[9]),
        die2: nonzero(data[10]),
        next_roll_slot: 0,
        active_bets: 0,
        treasury_balance: 0,
    }
}

/// Reads the game from the game state account's data.
pub fn game_state_from_account_data(data: &[u8]) -> (r: Result<GameState, RpcDataError>)
    ensures
        data@.len() < 32 ==> r == Err::<GameState, RpcDataError>(RpcDataError::InvalidGameStateData),
        data@.len() >= 32 ==> r == Ok::<GameState, RpcDataError>(game_state_of(data@)),
{
    if data.len() < 32 {
        return Err(RpcDataError::InvalidGameStateData);
    }
    let epoch = read_u64_at(data, 0);
    let die1 = data[9];
    let die2 = data[10];
    let point = data[11];
    let phase = data[12];
    Ok(GameState {
        epoch,
        phase: if phase == 0 {
            GamePhase::ComeOut
        } else {
            GamePhase::Point
        },
        point: if point == 0 {
            None
        } else {
            Some(point)
        },
        die1: if die1 == 0 {
            None
        } else {
            Some(die1)
        },
        die2: if die2 == 0 {
            None
        } else {
            Some(die2)
        },
        next_roll_slot: 0,
        active_bets: 0,
        treasury_balance: 0,
    })
}

/// The player's balance as the client reads it from the player account: the
/// eight bytes at offset 32, or zero where the account is shorter.
pub fn player_balance_from_account_data(data: &[u8]) -> (r: u64)
    ensures
        r == (if data@.len() >= 40 {
            spec_u64_from_le_bytes(data@.subrange(32, 40))
        } else {
            0
        }),
{
    if data.len() >= 40 {
        read_u64_at(data, 32)
    } else {
        0
    }
}

/// `n` zero bytes.
pub open spec fn zeros(n: nat) -> Seq<u8> {
    Seq::new(n, |i: int| 0u8)
}

/// The data of a bet placement: the tag, the epoch, the program's kind of the
/// bet and seven bytes of padding, the amount and eight more bytes of padding.
pub open spec fn place_bet_data(epoch: u64, kind: u8, amount: u64) -> Seq<u8> {
    seq![IX_PLACE_BET] + spec_u64_to_le_bytes(epoch) + seq![kind] + zeros(7) + spec_u64_to_le_bytes(amount)
        + zeros(8)
}

/// The data of a claim: the tag, the epoch and eight reserved bytes.
pub open spec fn claim_data(epoch: u64) -> Seq<u8> {
    seq![IX_CLAIM_EPOCH_PAYOUTS] + spec_u64_to_le_bytes(epoch) + zeros(8)
}

/// The data of a bet placement is 33 bytes, and after the tag the epoch, the
/// kind and the amount read back from their places.
pub proof fn lemma_place_bet_data_reads_back(epoch: u64, kind: u8, amount: u64)
    ensures
        place_bet_data(epoch, kind, amount).len() == 33,
        place_bet_data(epoch, kind, amount)[0] == IX_PLACE_BET,
        spec_u64_from_le_bytes(place_bet_data(epoch, kind, amount).subrange(1, 9)) == epoch,
        place_bet_data(epoch, kind, amount)[9] == kind,
        spec_u64_from_le_bytes(place_bet_data(epoch, kind, amount).subrange(17, 25)) == amount,
{
    lemma_u64_roundtrip(epoch);
    lemma_u64_roundtrip(amount);
    let d = place_bet_data(epoch, kind, amount);
    assert(d.subrange(1, 9) =~= spec_u64_to_le_bytes(epoch));
    assert(d.subrange(17, 25) =~= spec_u64_to_le_bytes(amount));
}

/// The data of a claim is 17 bytes, and after the tag the epoch reads back.
pub proof fn lemma_claim_data_reads_back(epoch: u64)
    ensures
        claim_data(epoch).len() == 17,
        claim_data(epoch)[0] == IX_CLAIM_EPOCH_PAYOUTS,
        spec_u64_from_le_bytes(claim_data(epoch).subrange(1, 9)) == epoch,
{
    lemma_u64_roundtrip(epoch);
    assert(claim_data(epoch).subrange(1, 9) =~= spec_u64_to_le_bytes(epoch));
}

/// Appends `n` zero bytes.
fn push_zeros(v: &mut Vec<u8>, n: usize)
    ensures
        final(v)@ == old(v)@ + zeros(n as nat),
{
    let ghost start = v@;
    let mut i: usize = 0;
    while i < n
        invariant
            i <= n,
            v@ == start + zeros(i as nat),
        decreases n - i,
    {
        v.push(0);
        i += 1;
        assert(v@ =~= start + zeros(i as nat));
    }
}

/// Appends a `u64`'s little-endian bytes.
fn push_u64(v: &mut Vec<u8>, x: u64)
    ensures
        final(v)@ == old(v)@ + spec_u64_to_le_bytes(x),
{
    let b = write_u64(x);
    let ghost start = v@;
    let mut i: usize = 0;
    while i < 8
        invariant
            i <= 8,
            b@ == spec_u64_to_le_bytes(x),
            v@ == start + b@.subrange(0, i as int),
        decreases 8 - i,
    {
        v.push(b[i]);
        i += 1;
        assert(v@ =~= start + b@.subrange(0, i as int));
    }
    assert(b@.subrange(0, 8) =~= b@);
}

/// The instruction data that places a bet of `amount` for `epoch`.
pub fn place_bet_instruction_data(epoch: u64, bet_type: &BetType, amount: u64) -> (r: Vec<u8>)
    requires
        program_bet_type_of(*bet_type) is Some,
    ensures
        r@ == place_bet_data(epoch, program_bet_type_of(*bet_type)->0, amount),
{
    let mut data: Vec<u8> = Vec::new();
    data.push(IX_PLACE_BET);
    push_u64(&mut data, epoch);
    data.push(bet_type.to_program_bet_type());
    push_zeros(&mut data, 7);
    push_u64(&mut data, amount);
    push_zeros(&mut data, 8);
    assert(data@ =~= place_bet_data(epoch, program_bet_type_of(*bet_type)->0, amount));
    data
}

/// The instruction data that claims the payouts of `epoch`.
pub fn claim_instruction_data(epoch: u64) -> (r: Vec<u8>)
    ensures
        r@ == claim_data(epoch),
{
    let mut data: Vec<u8> = Vec::new();
    data.push(IX_CLAIM_EPOCH_PAYOUTS);
    push_u64(&mut data, epoch);
    push_zeros(&mut data, 8);
    assert(data@ =~= claim_data(epoch));
    data
}

} // verus!
