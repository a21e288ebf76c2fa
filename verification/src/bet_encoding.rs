//! Packing of a bet (its kind and its amount) into 16 bits.
//!
//! An amount is stored as a 10-bit index on a non-linear grid of whole CRAP
//! amounts: 1..=100 by 1, then up to 500 by 5, 1500 by 10, 5000 by 25,
//! 10000 by 50, 20000 by 100, 40000 by 250, 60000 by 500, 80000 by 1000 and
//! 100000 by 2500. The packed bet holds the index in its upper 10 bits and the
//! kind in its lower 6 bits.
use vstd::prelude::*;
use crate::error::{CrapsError, ProgramError};
use crate::state::bet::{BetBatch, MAX_BETS_PER_BATCH};

verus! {

/// One CRAP in base units (9 decimals).
pub const CRAP: u64 = 1_000_000_000;

/// Bits of a packed bet that hold the kind.
pub const BET_KIND_BITS: u8 = 6;
/// Bits of a packed bet that hold the amount index.
pub const AMOUNT_INDEX_BITS: u8 = 10;
/// Mask of the kind bits.
pub const BET_KIND_MASK_U16: u16 = 0x3F;
/// Largest bet kind.
pub const MAX_BET_KIND: u8 = 63;
/// Largest amount index that stands for an amount.
pub const MAX_AMOUNT_INDEX: u16 = 767;

/// Metadata of a decoded bet.
#[derive(Debug, Clone, Copy, PartialEq, Eq, Structural)]
pub struct BetMetadata {
    pub bet_type: u8,
    pub amount: u64,
    pub base_bet_index: Option<u8>,
}

/// The amount, in base units, that an index stands for; 0 for an index off the grid.
pub open spec fn spec_decode_amount(index: int) -> int {
    if 0 <= index <= 99 {
        (index + 1) * CRAP
    } else if 100 <= index <= 179 {
        ((index - 99) * 5 + 100) * CRAP
    } else if 180 <= index <= 279 {
        ((index - 179) * 10 + 500) * CRAP
    } else if 280 <= index <= 419 {
        ((index - 279) * 25 + 1500) * CRAP
    } else if 420 <= index <= 519 {
        ((index - 419) * 50 + 5000) * CRAP
    } else if 520 <= index <= 619 {
        ((index - 519) * 100 + 10000) * CRAP
    } else if 620 <= index <= 699 {
        ((index - 619) * 250 + 20000) * CRAP
    } else if 700 <= index <= 739 {
        ((index - 699) * 500 + 40000) * CRAP
    } else if 740 <= index <= 759 {
        ((index - 739) * 1000 + 60000) * CRAP
    } else if 760 <= index <= 767 {
        ((index - 759) * 2500 + 80000) * CRAP
    } else {
        0
    }
}

/// Whether a count of whole CRAP lies on the amount grid.
pub open spec fn on_crap_grid(c: int) -> bool {
    ||| 1 <= c <= 100
    ||| 101 <= c <= 500 && (c - 100) % 5 == 0
    ||| 501 <= c <= 1500 && (c - 500) % 10 == 0
    ||| 1501 <= c <= 5000 && (c - 1500) % 25 == 0
    ||| 5001 <= c <= 10000 && (c - 5000) % 50 == 0
    ||| 10001 <= c <= 20000 && (c - 10000) % 100 == 0
    ||| 20001 <= c <= 40000 && (c - 20000) % 250 == 0
    ||| 40001 <= c <= 60000 && (c - 40000) % 500 == 0
    ||| 60001 <= c <= 80000 && (c - 60000) % 1000 == 0
    ||| 80001 <= c <= 100000 && (c - 80000) % 2500 == 0
}

/// Whether an amount in base units can be encoded: whole CRAP on the grid.
pub open spec fn is_encodable_amount(amount: int) -> bool {
    amount % (CRAP as int) == 0 && on_crap_grid(amount / (CRAP as int))
}

/// The grid index of a count of whole CRAP.
pub open spec fn spec_crap_index(c: int) -> int {
    if c <= 100 {
        c - 1
    } else if c <= 500 {
        99 + (c - 100) / 5
    } else if c <= 1500 {
        179 + (c - 500) / 10
    } else if c <= 5000 {
        279 + (c - 1500) / 25
    } else if c <= 10000 {
        419 + (c - 5000) / 50
    } else if c <= 20000 {
        519 + (c - 10000) / 100
    } else if c <= 40000 {
        619 + (c - 20000) / 250
    } else if c <= 60000 {
        699 + (c - 40000) / 500
    } else if c <= 80000 {
        739 + (c - 60000) / 1000
    } else {
        759 + (c - 80000) / 2500
    }
}

/// The grid index of an encodable amount in base units.
pub open spec fn spec_encode_index(amount: int) -> int {
    spec_crap_index(amount / (CRAP as int))
}

/// The packed form of a bet kind and an amount index.
pub open spec fn spec_pack(bet_type: int, index: int) -> int {
    index * 64 + bet_type
}

/// Encodes an amount as a 10-bit grid index.
pub fn encode_amount(amount: u64) -> (r: Result<u16, ProgramError>)
    ensures
        r is Ok <==> is_encodable_amount(amount as int),
        r matches Ok(i) ==> {
            &&& i as int == spec_encode_index(amount as int)
            &&& i <= MAX_AMOUNT_INDEX
            &&& spec_decode_amount(i as int) == amount
        },
        r matches Err(e) ==> e == ProgramError::Custom(CrapsError::InvalidBetAmount),
{
    if amount == 0 || amount > 100_000 * CRAP {
        return Err(ProgramError::Custom(CrapsError::InvalidBetAmount));
    }
    if amount % CRAP != 0 {
        return Err(ProgramError::Custom(CrapsError::InvalidBetAmount));
    }
    let crap_amount = amount / CRAP;
    assert(crap_amount * CRAP == amount);
    let index: u64 = if 1 <= crap_amount && crap_amount <= 100 {
        crap_amount - 1
    } else if 101 <= crap_amount && crap_amount <= 500 {
        let offset = crap_amount - 100;
        if offset % 5 != 0 {
            return Err(ProgramError::Custom(CrapsError::InvalidBetAmount));
        }
        99 + offset / 5
    } else if 501 <= crap_amount && crap_amount <= 1500 {
        let offset = crap_amount - 500;
        if offset % 10 != 0 {
            return Err(ProgramError::Custom(CrapsError::InvalidBetAmount));
        }
        179 + offset / 10
    } else if 1501 <= crap_amount && crap_amount <= 5000 {
        let offset = crap_amount - 1500;
        if offset % 25 != 0 {
            return Err(ProgramError::Custom(CrapsError::InvalidBetAmount));
        }
        279 + offset / 25
    } else if 5001 <= crap_amount && crap_amount <= 10000 {
        let offset = crap_amount - 5000;
        if offset % 50 != 0 {
            return Err(ProgramError::Custom(CrapsError::InvalidBetAmount));
        }
        419 + offset / 50
    } else if 10001 <= crap_amount && crap_amount <= 20000 {
        let offset = crap_amount - 10000;
        if offset % 100 != 0 {
            return Err(ProgramError::Custom(CrapsError::InvalidBetAmount));
        }
        519 + offset / 100
    } else if 20001 <= crap_amount && crap_amount <= 40000 {
        let offset = crap_amount - 20000;
        if offset % 250 != 0 {
            return Err(ProgramError::Custom(CrapsError::InvalidBetAmount));
        }
        619 + offset / 250
    } else if 40001 <= crap_amount && crap_amount <= 60000 {
        let offset = crap_amount - 40000;
        if offset % 500 != 0 {
            return Err(ProgramError::Custom(CrapsError::InvalidBetAmount));
        }
        699 + offset / 500
    } else if 60001 <= crap_amount && crap_amount <= 80000 {
        let offset = crap_amount - 60000;
        if offset % 1000 != 0 {
            return Err(ProgramError::Custom(CrapsError::InvalidBetAmount));
        }
        739 + offset / 1000
    } else if 80001 <= crap_amount && crap_amount <= 100000 {
        let offset = crap_amount - 80000;
        if offset % 2500 != 0 {
            return Err(ProgramError::Custom(CrapsError::InvalidBetAmount));
        }
        759 + offset / 2500
    } else {
        return Err(ProgramError::Custom(CrapsError::InvalidBetAmount));
    };
    if index > 1023 {
        return Err(ProgramError::Custom(CrapsError::InvalidBetAmount));
    }
    Ok(index as u16)
}

/// Decodes a 10-bit grid index to base units; 0 for an index off the grid.
pub fn decode_amount(index: u16) -> (r: u64)
    ensures
        r == spec_decode_amount(index as int),
{
    let i = index as u64;
    if i <= 99 {
        (i + 1) * CRAP
    } else if i <= 179 {
        ((i - 99) * 5 + 100) * CRAP
    } else if i <= 279 {
        ((i - 179) * 10 + 500) * CRAP
    } else if i <= 419 {
        ((i - 279) * 25 + 1500) * CRAP
    } else if i <= 519 {
        ((i - 419) * 50 + 5000) * CRAP
    } else if i <= 619 {
        ((i - 519) * 100 + 10000) * CRAP
    } else if i <= 699 {
        ((i - 619) * 250 + 20000) * CRAP
    } else if i <= 739 {
        ((i - 699) * 500 + 40000) * CRAP
    } else if i <= 759 {
        ((i - 739) * 1000 + 60000) * CRAP
    } else if i <= 767 {
        ((i - 759) * 2500 + 80000) * CRAP
    } else {
        0
    }
}

/// Decodes an amount index, refusing one off the grid.
pub fn decode_amount_safe(index: u16) -> (r: Result<u64, ProgramError>)
    ensures
        r is Err <==> index > MAX_AMOUNT_INDEX,
        r matches Ok(a) ==> a == spec_decode_amount(index as int),
        r matches Err(e) ==> e == ProgramError::Custom(CrapsError::InvalidBetAmount),
{
    let amount = decode_amount(index);
    if amount == 0 && index != 0 {
        Err(ProgramError::Custom(CrapsError::InvalidBetAmount))
    } else {
        Ok(amount)
    }
}

/// The bet kind held in a packed bet: its lower 6 bits.
pub fn get_bet_type(packed: u16) -> (r: u8)
    ensures
        r == packed % 64,
{
    assert(packed & 0x3F == packed % 64) by (bit_vector);
    (packed & BET_KIND_MASK_U16) as u8
}

/// The amount index held in a packed bet: its upper 10 bits.
pub fn get_amount_index(packed: u16) -> (r: u16)
    ensures
        r == packed / 64,
{
    assert((packed >> 6u16) & 0x3FF == packed / 64) by (bit_vector);
    (packed >> 6u16) & 0x3FF
}

/// Packs a bet kind (0..=63) and an amount into 16 bits.
pub fn encode_bet(bet_type: u8, amount: u64) -> (r: Result<u16, ProgramError>)
    ensures
        r is Ok <==> bet_type <= MAX_BET_KIND && is_encodable_amount(amount as int),
        r matches Ok(p) ==> p == spec_pack(bet_type as int, spec_encode_index(amount as int)),
        bet_type > MAX_BET_KIND ==> r == Err::<u16, ProgramError>(
            ProgramError::Custom(CrapsError::InvalidBetKind),
        ),
        bet_type <= MAX_BET_KIND && !is_encodable_amount(amount as int) ==> r == Err::<
            u16,
            ProgramError,
        >(ProgramError::Custom(CrapsError::InvalidBetAmount)),
{
    if bet_type > MAX_BET_KIND {
        return Err(ProgramError::Custom(CrapsError::InvalidBetKind));
    }
    let amount_index = match encode_amount(amount) {
        Ok(i) => i,
        Err(e) => return Err(e),
    };
    let t = bet_type as u16;
    assert(((amount_index & 0x3FF) << 6u16) | (t & 0x3F) == amount_index * 64 + t) by (bit_vector)
        requires
            amount_index <= 767,
            t <= 63,
    ;
    Ok(((amount_index & 0x3FF) << 6u16) | (t & BET_KIND_MASK_U16))
}

/// Unpacks a bet into its kind and its amount in base units.
pub fn decode_bet(packed: u16) -> (r: (u8, u64))
    ensures
        r.0 == packed % 64,
        r.1 == spec_decode_amount(packed as int / 64),
{
    let bet_type = get_bet_type(packed);
    let amount_index = get_amount_index(packed);
    let amount = decode_amount(amount_index);
    (bet_type, amount)
}

/// The packed bet a batch holds at `index`: 0 past the last slot.
pub open spec fn packed_at(batch: BetBatch, index: int) -> u16 {
    if index < MAX_BETS_PER_BATCH { batch.packed_bet_value(index) } else { 0 }
}

/// The metadata of a packed bet: its kind and amount, and for an odds bet the
/// index of its base bet, which is always the first bet of the batch.
pub open spec fn metadata_of(packed: u16) -> BetMetadata {
    let bet_type = (packed % 64) as u8;
    BetMetadata {
        bet_type,
        amount: spec_decode_amount(packed as int / 64) as u64,
        base_bet_index: if 29 <= bet_type <= 32 { Some(0u8) } else { None },
    }
}

/// Decodes the bet at `index` of a batch; an index at or past the bet count is an error.
pub fn decode_bet_from_batch(batch: &BetBatch, index: usize) -> (r: Result<BetMetadata, ProgramError>)
    ensures
        index >= batch.bet_count ==> r == Err::<BetMetadata, ProgramError>(
            ProgramError::Custom(CrapsError::InvalidBetData),
        ),
        index < batch.bet_count ==> r == Ok::<BetMetadata, ProgramError>(
            metadata_of(packed_at(*batch, index as int)),
        ),
{
    if index >= batch.bet_count as usize {
        return Err(ProgramError::Custom(CrapsError::InvalidBetData));
    }
    let packed = batch.get_packed_bet(index);
    let (bet_type, amount) = decode_bet(packed);
    let base_bet_index = match bet_type {
        29..=32 => Some(0u8),
        _ => None,
    };
    Ok(BetMetadata { bet_type, amount, base_bet_index })
}

/// The grid index an amount is packed as: the index of the largest grid amount at or
/// below it. An amount under one CRAP, below the whole grid, takes the lowest index, and
/// one past the grid the highest.
pub open spec fn spec_floor_index(amount: int) -> int {
    let c = amount / (CRAP as int);
    if c < 1 {
        0
    } else if c > 100000 {
        MAX_AMOUNT_INDEX as int
    } else {
        spec_crap_index(c)
    }
}

/// The grid index an amount is packed as.
pub fn floor_amount_index(amount: u64) -> (r: u16)
    ensures
        r == spec_floor_index(amount as int),
        r <= MAX_AMOUNT_INDEX,
{
    let c = amount / CRAP;
    let i: u64 = if c < 1 {
        0
    } else if c > 100000 {
        MAX_AMOUNT_INDEX as u64
    } else if c <= 100 {
        c - 1
    } else if c <= 500 {
        99 + (c - 100) / 5
    } else if c <= 1500 {
        179 + (c - 500) / 10
    } else if c <= 5000 {
        279 + (c - 1500) / 25
    } else if c <= 10000 {
        419 + (c - 5000) / 50
    } else if c <= 20000 {
        519 + (c - 10000) / 100
    } else if c <= 40000 {
        619 + (c - 20000) / 250
    } else if c <= 60000 {
        699 + (c - 40000) / 500
    } else if c <= 80000 {
        739 + (c - 60000) / 1000
    } else {
        759 + (c - 80000) / 2500
    };
    i as u16
}

/// The index an amount is packed as stands for the largest grid amount at or below it:
/// that amount is at most the amount, and the next index's is above it. An amount on the
/// grid is packed as its own index.
pub proof fn lemma_floor_index(amount: int)
    requires
        CRAP <= amount,
        amount / (CRAP as int) <= 100000,
    ensures
        0 <= spec_floor_index(amount) <= MAX_AMOUNT_INDEX,
        spec_decode_amount(spec_floor_index(amount)) <= amount,
        spec_floor_index(amount) < MAX_AMOUNT_INDEX ==> amount < spec_decode_amount(spec_floor_index(amount) + 1),
        is_encodable_amount(amount) ==> spec_floor_index(amount) == spec_encode_index(amount),
{
    let c = amount / (CRAP as int);
    assert(c * CRAP <= amount < (c + 1) * CRAP);
}

/// Every encodable amount decodes back to itself from its index, and the index is on the grid.
pub proof fn lemma_amount_roundtrip(amount: int)
    requires
        is_encodable_amount(amount),
    ensures
        0 <= spec_encode_index(amount) <= MAX_AMOUNT_INDEX,
        spec_decode_amount(spec_encode_index(amount)) == amount,
{
    let c = amount / (CRAP as int);
    assert(c * CRAP == amount);
}

/// Every index on the grid stands for an encodable amount whose index it is.
pub proof fn lemma_index_roundtrip(index: int)
    requires
        0 <= index <= MAX_AMOUNT_INDEX,
    ensures
        is_encodable_amount(spec_decode_amount(index)),
        spec_encode_index(spec_decode_amount(index)) == index,
{
}

/// A packed bet unpacks to the kind and the amount it was packed from.
pub proof fn lemma_bet_roundtrip(bet_type: int, amount: int)
    requires
        0 <= bet_type <= MAX_BET_KIND,
        is_encodable_amount(amount),
    ensures
        spec_pack(bet_type, spec_encode_index(amount)) % 64 == bet_type,
        spec_decode_amount(spec_pack(bet_type, spec_encode_index(amount)) / 64) == amount,
        0 <= spec_pack(bet_type, spec_encode_index(amount)) < 65536,
{
    lemma_amount_roundtrip(amount);
    let i = spec_encode_index(amount);
    assert((i * 64 + bet_type) / 64 == i) by (nonlinear_arith)
        requires
            0 <= bet_type < 64,
            0 <= i,
    ;
    assert((i * 64 + bet_type) % 64 == bet_type) by (nonlinear_arith)
        requires
            0 <= bet_type < 64,
            0 <= i,
    ;
}

} // verus!
