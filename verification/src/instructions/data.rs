//! The data the instructions carry, laid out as the program reads it.
use vstd::prelude::*;
use vstd::bytes::*;
use crate::error::ProgramError;
use crate::le_bytes::{read_bytes32_at, read_bytes50_at, read_u64, read_u64_at};

verus! {

/// Data of a bet: the epoch, the kind and the amount.
#[derive(Clone, Copy)]
pub struct PlaceBetData {
    /// The epoch the bet is for.
    pub epoch: [u8; 8],
    /// The kind of bet (0..=63).
    pub bet_kind: u8,
    pub _padding1: [u8; 7],
    /// The amount.
    pub bet_amount: [u8; 8],
    pub _padding2: [u8; 8],
}

impl PlaceBetData {
    /// Bytes the data takes.
    pub const LEN: usize = 32;

    /// Reads the data from the start of the instruction data; shorter data is invalid.
    pub fn parse(data: &[u8]) -> (r: Result<Self, ProgramError>)
        ensures
            data@.len() < Self::LEN ==> r == Err::<Self, ProgramError>(ProgramError::InvalidInstructionData),
            data@.len() >= Self::LEN ==> (r matches Ok(d) && {
                &&& d.epoch@ == data@.subrange(0, 8)
                &&& d.bet_kind == data@[8]
                &&& d.bet_amount@ == data@.subrange(16, 24)
            }),
    {
        if data.len() < Self::LEN {
            return Err(ProgramError::InvalidInstructionData);
        }
        let epoch = [data[0], data[1], data[2], data[3], data[4], data[5], data[6], data[7]];
        let amount = [data[16], data[17], data[18], data[19], data[20], data[21], data[22], data[23]];
        assert(epoch@ =~= data@.subrange(0, 8));
        assert(amount@ =~= data@.subrange(16, 24));
        Ok(PlaceBetData {
            epoch,
            bet_kind: data[8],
            _padding1: [data[9], data[10], data[11], data[12], data[13], data[14], data[15]],
            bet_amount: amount,
            _padding2: [data[24], data[25], data[26], data[27], data[28], data[29], data[30], data[31]],
        })
    }

    /// The epoch.
    pub fn get_epoch(&self) -> (r: u64)
        ensures
            r == spec_u64_from_le_bytes(self.epoch@),
    {
        read_u64(&self.epoch)
    }

    /// The amount.
    pub fn get_bet_amount(&self) -> (r: u64)
        ensures
            r == spec_u64_from_le_bytes(self.bet_amount@),
    {
        read_u64(&self.bet_amount)
    }
}

/// Data of a deposit or withdrawal: the amount.
#[derive(Clone, Copy)]
pub struct AmountData {
    /// The amount.
    pub amount: [u8; 8],
}

/// Reads the amount from the start of instruction data; data shorter than eight bytes is
/// invalid.
pub fn parse_amount(data: &[u8]) -> (r: Result<u64, ProgramError>)
    ensures
        data@.len() < 8 ==> r == Err::<u64, ProgramError>(ProgramError::InvalidInstructionData),
        data@.len() >= 8 ==> r == Ok::<u64, ProgramError>(spec_u64_from_le_bytes(data@.subrange(0, 8))),
{
    if data.len() < 8 {
        return Err(ProgramError::InvalidInstructionData);
    }
    Ok(read_u64_at(data, 0))
}

/// Reads a key from the start of instruction data; data shorter than 32 bytes is invalid.
pub fn parse_key(data: &[u8]) -> (r: Result<[u8; 32], ProgramError>)
    ensures
        data@.len() < 32 ==> r == Err::<[u8; 32], ProgramError>(ProgramError::InvalidInstructionData),
        data@.len() >= 32 ==> (r matches Ok(k) && k@ == data@.subrange(0, 32)),
{
    if data.len() < 32 {
        return Err(ProgramError::InvalidInstructionData);
    }
    Ok(read_bytes32_at(data, 0))
}

/// Data of an authority transfer.
#[derive(Clone, Copy)]
pub struct AuthorityTransferData {
    /// The new authority.
    pub new_authority: [u8; 32],
    /// Which authority (0 system, 1 roll, 2 admin, 3 emergency).
    pub authority_type: u8,
    pub _padding: [u8; 7],
}

/// Data of a tournament update.
#[derive(Clone, Copy)]
pub struct TournamentUpdateData {
    /// The tournament's key.
    pub tournament_pubkey: [u8; 32],
    pub _reserved: [u8; 32],
}

/// Data of an update of the treasury's parameters.
#[derive(Clone, Copy)]
pub struct TreasuryParametersData {
    /// Minimum balance.
    pub min_balance: [u8; 8],
    /// Bet limit.
    pub max_bet_limit: [u8; 8],
    /// Fee in basis points.
    pub fee_bps: [u8; 2],
    pub _padding: [u8; 6],
}

/// Data of the system's initialization: the roll authority.
#[derive(Clone, Copy)]
pub struct InitializeSystemData {
    /// The roll authority.
    pub rng_authority: [u8; 32],
}

/// Data of the instruction that creates a favourites account.
#[derive(Clone, Copy)]
pub struct CreatePdaIxsData {
    /// Favourite number, little-endian.
    pub number: [u8; 8],
    /// Favourite colour.
    pub color: [u8; 50],
    pub hobby1: [u8; 50],
    pub hobby2: [u8; 50],
    pub hobby3: [u8; 50],
    pub hobby4: [u8; 50],
    pub hobby5: [u8; 50],
    /// PDA bump seed.
    pub bump: u8,
}

/// Whether favourites data is laid out in `data`: the number, the colour, five hobbies and
/// the bump, one after another.
pub open spec fn favorites_laid_out(d: CreatePdaIxsData, data: Seq<u8>) -> bool {
    &&& d.number@ == data.subrange(0, 8)
    &&& d.color@ == data.subrange(8, 58)
    &&& d.hobby1@ == data.subrange(58, 108)
    &&& d.hobby2@ == data.subrange(108, 158)
    &&& d.hobby3@ == data.subrange(158, 208)
    &&& d.hobby4@ == data.subrange(208, 258)
    &&& d.hobby5@ == data.subrange(258, 308)
    &&& d.bump == data[308]
}

impl CreatePdaIxsData {
    /// Size of the data in bytes.
    pub const LEN: usize = 309;

    /// Reads the data; anything but exactly `LEN` bytes is invalid instruction data.
    pub fn try_from(data: &[u8]) -> (r: Result<Self, ProgramError>)
        ensures
            data@.len() != Self::LEN ==> r == Err::<Self, ProgramError>(ProgramError::InvalidInstructionData),
            data@.len() == Self::LEN ==> (r matches Ok(d) && favorites_laid_out(d, data@)),
    {
        if data.len() != Self::LEN {
            return Err(ProgramError::InvalidInstructionData);
        }
        let number = [data[0], data[1], data[2], data[3], data[4], data[5], data[6], data[7]];
        assert(number@ =~= data@.subrange(0, 8));
        Ok(CreatePdaIxsData {
            number,
            color: read_bytes50_at(data, 8),
            hobby1: read_bytes50_at(data, 58),
            hobby2: read_bytes50_at(data, 108),
            hobby3: read_bytes50_at(data, 158),
            hobby4: read_bytes50_at(data, 208),
            hobby5: read_bytes50_at(data, 258),
            bump: data[308],
        })
    }
}

} // verus!
