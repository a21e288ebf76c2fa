//! Little-endian integer fields stored as byte arrays, as the accounts lay them out.
use vstd::prelude::*;
use vstd::bytes::*;

verus! {

/// Reads a `u64` from its little-endian bytes.
pub fn read_u64(b: &[u8; 8]) -> (r: u64)
    ensures
        r == spec_u64_from_le_bytes(b@),
{
    u64_from_le_bytes(b.as_slice())
}

/// Writes a `u64` as little-endian bytes.
pub fn write_u64(v: u64) -> (r: [u8; 8])
    ensures
        r@ == spec_u64_to_le_bytes(v),
{
    let s = u64_to_le_bytes(v);
    let r = [s[0], s[1], s[2], s[3], s[4], s[5], s[6], s[7]];
    assert(r@ =~= s@);
    r
}

/// Reads a `u32` from its little-endian bytes.
pub fn read_u32(b: &[u8; 4]) -> (r: u32)
    ensures
        r == spec_u32_from_le_bytes(b@),
{
    u32_from_le_bytes(b.as_slice())
}

/// Writes a `u32` as little-endian bytes.
pub fn write_u32(v: u32) -> (r: [u8; 4])
    ensures
        r@ == spec_u32_to_le_bytes(v),
{
    let s = u32_to_le_bytes(v);
    let r = [s[0], s[1], s[2], s[3]];
    assert(r@ =~= s@);
    r
}

/// Reads a `u16` from its little-endian bytes.
pub fn read_u16(b: &[u8; 2]) -> (r: u16)
    ensures
        r == spec_u16_from_le_bytes(b@),
{
    u16_from_le_bytes(b.as_slice())
}

/// Writes a `u16` as little-endian bytes.
pub fn write_u16(v: u16) -> (r: [u8; 2])
    ensures
        r@ == spec_u16_to_le_bytes(v),
{
    let s = u16_to_le_bytes(v);
    let r = [s[0], s[1]];
    assert(r@ =~= s@);
    r
}

/// Reading back what was written gives the value.
pub proof fn lemma_u64_roundtrip(v: u64)
    ensures
        spec_u64_from_le_bytes(spec_u64_to_le_bytes(v)) == v,
        spec_u64_to_le_bytes(v).len() == 8,
{
    lemma_auto_spec_u64_to_from_le_bytes();
}

/// Reading back what was written gives the value.
pub proof fn lemma_u32_roundtrip(v: u32)
    ensures
        spec_u32_from_le_bytes(spec_u32_to_le_bytes(v)) == v,
        spec_u32_to_le_bytes(v).len() == 4,
{
    lemma_auto_spec_u32_to_from_le_bytes();
}

/// Reading back what was written gives the value.
pub proof fn lemma_u16_roundtrip(v: u16)
    ensures
        spec_u16_from_le_bytes(spec_u16_to_le_bytes(v)) == v,
        spec_u16_to_le_bytes(v).len() == 2,
{
    lemma_auto_spec_u16_to_from_le_bytes();
}

/// Reads a `u64` from the eight little-endian bytes of `data` at `off`.
pub fn read_u64_at(data: &[u8], off: usize) -> (r: u64)
    requires
        off + 8 <= data@.len(),
    ensures
        r == spec_u64_from_le_bytes(data@.subrange(off as int, off + 8)),
{
    let b = [
        data[off],
        data[off + 1],
        data[off + 2],
        data[off + 3],
        data[off + 4],
        data[off + 5],
        data[off + 6],
        data[off + 7],
    ];
    assert(b@ =~= data@.subrange(off as int, off + 8));
    read_u64(&b)
}

/// The 32 bytes of `data` at `off`.
pub fn read_bytes32_at(data: &[u8], off: usize) -> (r: [u8; 32])
    requires
        off + 32 <= data@.len(),
    ensures
        r@ == data@.subrange(off as int, off + 32),
{
    let len = data.len();
    assert(off + 32 <= len);
    let mut out = [0u8; 32];
    let mut i: usize = 0;
    while i < 32
        invariant
            0 <= i <= 32,
            off + 32 <= data@.len(),
            off + 32 <= usize::MAX,
            out@.len() == 32,
            forall|j: int| 0 <= j < i ==> out@[j] == data@[off + j],
        decreases 32 - i,
    {
        out[i] = data[off + i];
        i += 1;
    }
    assert(out@ =~= data@.subrange(off as int, off + 32));
    out
}

/// The 50 bytes of `data` at `off`.
pub fn read_bytes50_at(data: &[u8], off: usize) -> (r: [u8; 50])
    requires
        off + 50 <= data@.len(),
    ensures
        r@ == data@.subrange(off as int, off + 50),
{
    let len = data.len();
    assert(off + 50 <= len);
    let mut out = [0u8; 50];
    let mut i: usize = 0;
    while i < 50
        invariant
            0 <= i <= 50,
            off + 50 <= data@.len(),
            off + 50 <= usize::MAX,
            out@.len() == 50,
            forall|j: int| 0 <= j < i ==> out@[j] == data@[off + j],
        decreases 50 - i,
    {
        out[i] = data[off + i];
        i += 1;
    }
    assert(out@ =~= data@.subrange(off as int, off + 50));
    out
}

} // verus!
