//! Token accounts: their layout and the checks made on them before tokens move.
use vstd::prelude::*;
use vstd::bytes::*;
use crate::error::{CrapsError, ProgramError};
use crate::keys::{Pubkey, keys_equal};
use crate::le_bytes::read_u64;

verus! {

/// A token account, as the program lays it out.
#[derive(Clone, Copy)]
pub struct TokenAccount {
    /// The mint of the account's tokens.
    pub mint: [u8; 32],
    /// The account's owner.
    pub owner: [u8; 32],
    /// The amount of tokens held.
    pub amount: [u8; 8],
    /// Account state; 0 uninitialized.
    pub state: u8,
    /// Delegate.
    pub delegate: [u8; 32],
    /// Whether the account holds native tokens.
    pub is_native: u8,
    /// Delegated amount.
    pub delegated_amount: [u8; 8],
    /// Close authority.
    pub close_authority: [u8; 32],
}

/// Bytes the fields of a token account take, in order.
pub const TOKEN_ACCOUNT_FIELDS_LEN: usize = 146;

fn copy_32(data: &[u8], off: usize) -> (r: [u8; 32])
    requires
        off + 32 <= data@.len(),
        off <= TOKEN_ACCOUNT_FIELDS_LEN,
    ensures
        r@ == data@.subrange(off as int, off + 32),
{
    let mut out = [0u8; 32];
    let mut i: usize = 0;
    while i < 32
        invariant
            0 <= i <= 32,
            off + 32 <= data@.len(),
            off <= TOKEN_ACCOUNT_FIELDS_LEN,
            out@.len() == 32,
            forall|j: int| 0 <= j < i ==> out@[j] == data@[off + j],
        decreases 32 - i,
    {
        out[i] = data[off + i];
        i += 1;
    }
    assert(out@ =~= data@.subrange(off as int, off + 32));
    out
}

fn copy_8(data: &[u8], off: usize) -> (r: [u8; 8])
    requires
        off + 8 <= data@.len(),
        off <= TOKEN_ACCOUNT_FIELDS_LEN,
    ensures
        r@ == data@.subrange(off as int, off + 8),
{
    let out = [
        data[off],
        data[off + 1],
        data[off + 2],
        data[off + 3],
        data[off + 4],
        data[off + 5],
        data[off + 6],
        data[off + 7],
    ];
    assert(out@ =~= data@.subrange(off as int, off + 8));
    out
}

/// Whether a token account is the one laid out at the start of `data`.
pub open spec fn laid_out_in(t: TokenAccount, data: Seq<u8>) -> bool {
    &&& t.mint@ == data.subrange(0, 32)
    &&& t.owner@ == data.subrange(32, 64)
    &&& t.amount@ == data.subrange(64, 72)
    &&& t.state == data[72]
    &&& t.delegate@ == data.subrange(73, 105)
    &&& t.is_native == data[105]
    &&& t.delegated_amount@ == data.subrange(106, 114)
    &&& t.close_authority@ == data.subrange(114, 146)
}

impl TokenAccount {
    /// Length a token account's data must have.
    pub const LEN: usize = 165;

    /// Reads a token account from the start of its data.
    pub fn from_bytes(data: &[u8]) -> (r: TokenAccount)
        requires
            data@.len() >= TOKEN_ACCOUNT_FIELDS_LEN,
        ensures
            laid_out_in(r, data@),
    {
        TokenAccount {
            mint: copy_32(data, 0),
            owner: copy_32(data, 32),
            amount: copy_8(data, 64),
            state: data[72],
            delegate: copy_32(data, 73),
            is_native: data[105],
            delegated_amount: copy_8(data, 106),
            close_authority: copy_32(data, 114),
        }
    }

    /// The amount of tokens held.
    pub fn get_amount(&self) -> (r: u64)
        ensures
            r == spec_u64_from_le_bytes(self.amount@),
    {
        read_u64(&self.amount)
    }

    /// The mint.
    pub fn get_mint(&self) -> (r: Pubkey)
        ensures
            r == self.mint,
    {
        self.mint
    }

    /// The owner.
    pub fn get_owner(&self) -> (r: Pubkey)
        ensures
            r == self.owner,
    {
        self.owner
    }

    /// Whether the account is initialized.
    pub fn is_initialized(&self) -> (r: bool)
        ensures
            r == (self.state != 0),
    {
        self.state != 0
    }
}

/// Why the data of a token account does not hold the expected owner's tokens of the
/// expected mint: not owned by the token program, too short, uninitialized, another mint,
/// another owner.
pub open spec fn token_account_error(owned_by_token_program: bool, data: Seq<u8>, expected_owner: Pubkey, expected_mint: Pubkey) -> Option<CrapsError> {
    if !owned_by_token_program || data.len() < TokenAccount::LEN {
        Some(CrapsError::InvalidTokenAccount)
    } else if data[72] == 0 {
        Some(CrapsError::AccountNotInitialized)
    } else if data.subrange(0, 32) != expected_mint@ {
        Some(CrapsError::InvalidTokenMint)
    } else if data.subrange(32, 64) != expected_owner@ {
        Some(CrapsError::InvalidTokenAccount)
    } else {
        None
    }
}

/// Checks that token account data, owned by the token program or not, holds tokens of
/// `expected_mint` owned by `expected_owner`.
pub fn validate_token_data(owned_by_token_program: bool, data: &[u8], expected_owner: &Pubkey, expected_mint: &Pubkey) -> (r: Result<(), ProgramError>)
    ensures
        token_account_error(owned_by_token_program, data@, *expected_owner, *expected_mint) matches Some(e) ==> r == Err::<(), ProgramError>(ProgramError::Custom(e)),
        token_account_error(owned_by_token_program, data@, *expected_owner, *expected_mint) is None ==> r == Ok::<(), ProgramError>(()),
{
    if !owned_by_token_program {
        return Err(ProgramError::Custom(CrapsError::InvalidTokenAccount));
    }
    if data.len() < TokenAccount::LEN {
        return Err(ProgramError::Custom(CrapsError::InvalidTokenAccount));
    }
    let token_data = TokenAccount::from_bytes(data);
    if !token_data.is_initialized() {
        return Err(ProgramError::Custom(CrapsError::AccountNotInitialized));
    }
    if !keys_equal(&token_data.get_mint(), expected_mint) {
        return Err(ProgramError::Custom(CrapsError::InvalidTokenMint));
    }
    if !keys_equal(&token_data.get_owner(), expected_owner) {
        return Err(ProgramError::Custom(CrapsError::InvalidTokenAccount));
    }
    Ok(())
}

/// The balance held in token account data: an error where the data is not owned by the
/// token program, is too short or is uninitialized.
pub fn token_data_balance(owned_by_token_program: bool, data: &[u8]) -> (r: Result<u64, ProgramError>)
    ensures
        (!owned_by_token_program || data@.len() < TokenAccount::LEN) ==> r == Err::<u64, ProgramError>(
            ProgramError::Custom(CrapsError::InvalidTokenAccount),
        ),
        owned_by_token_program && data@.len() >= TokenAccount::LEN && data@[72] == 0 ==> r == Err::<u64, ProgramError>(
            ProgramError::Custom(CrapsError::AccountNotInitialized),
        ),
        owned_by_token_program && data@.len() >= TokenAccount::LEN && data@[72] != 0 ==> r == Ok::<u64, ProgramError>(
            spec_u64_from_le_bytes(data@.subrange(64, 72)),
        ),
{
    if !owned_by_token_program {
        return Err(ProgramError::Custom(CrapsError::InvalidTokenAccount));
    }
    if data.len() < TokenAccount::LEN {
        return Err(ProgramError::Custom(CrapsError::InvalidTokenAccount));
    }
    let token_data = TokenAccount::from_bytes(data);
    if !token_data.is_initialized() {
        return Err(ProgramError::Custom(CrapsError::AccountNotInitialized));
    }
    Ok(token_data.get_amount())
}

/// Checks that a mint account, owned by the token program or not, is the expected mint.
pub fn check_mint_account(owned_by_token_program: bool, mint_key: &Pubkey, expected_mint: &Pubkey) -> (r: Result<(), ProgramError>)
    ensures
        (owned_by_token_program && mint_key@ == expected_mint@) ==> r == Ok::<(), ProgramError>(()),
        !(owned_by_token_program && mint_key@ == expected_mint@) ==> r == Err::<(), ProgramError>(
            ProgramError::Custom(CrapsError::InvalidTokenMint),
        ),
{
    if !owned_by_token_program {
        return Err(ProgramError::Custom(CrapsError::InvalidTokenMint));
    }
    if !keys_equal(mint_key, expected_mint) {
        return Err(ProgramError::Custom(CrapsError::InvalidTokenMint));
    }
    Ok(())
}

} // verus!
