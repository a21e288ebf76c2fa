//! Account keys: 32-byte public keys compared byte by byte.
use vstd::prelude::*;

verus! {

/// A 32-byte public key.
pub type Pubkey = [u8; 32];

/// Whether two keys are the same.
pub fn keys_equal(a: &Pubkey, b: &Pubkey) -> (r: bool)
    ensures
        r == (a@ == b@),
{
    let mut i: usize = 0;
    while i < 32
        invariant
            0 <= i <= 32,
            a@.len() == 32,
            b@.len() == 32,
            forall|j: int| 0 <= j < i ==> a@[j] == b@[j],
        decreases 32 - i,
    {
        if a[i] != b[i] {
            return false;
        }
        i += 1;
    }
    assert(a@ =~= b@);
    true
}

/// Whether a key is all zeros.
pub fn is_zero_key(a: &Pubkey) -> (r: bool)
    ensures
        r == (forall|j: int| 0 <= j < 32 ==> a@[j] == 0),
{
    let mut i: usize = 0;
    while i < 32
        invariant
            0 <= i <= 32,
            a@.len() == 32,
            forall|j: int| 0 <= j < i ==> a@[j] == 0,
        decreases 32 - i,
    {
        if a[i] != 0 {
            return false;
        }
        i += 1;
    }
    true
}

} // verus!
