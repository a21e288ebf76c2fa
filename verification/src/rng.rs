//! Dice from entropy: rejection sampling, mixing of collected block hashes, and the
//! checks around the randomness cycle.
use vstd::prelude::*;
use crate::constants::{BETTING_WINDOW_SLOTS, DICE_MIN_VALUE, DICE_SIDES};
use crate::error::{CrapsError, ProgramError};
use crate::state::rng::{RngPhase, RngState, phase_of};

verus! {

/// Fewest block hashes whose mix is accepted.
pub const MIN_MIX_HASHES: u8 = 5;

/// The die a slice of entropy gives from position `i` on: the first byte at most 251
/// taken modulo 6 plus 1, or, where every byte is above 251, the first byte of the slice.
pub open spec fn die_from(s: Seq<u8>, i: int) -> u8
    decreases s.len() - i,
{
    if i >= s.len() || i < 0 {
        (s[0] % 6 + 1) as u8
    } else if s[i] <= 251 {
        (s[i] % 6 + 1) as u8
    } else {
        die_from(s, i + 1)
    }
}

/// A sampled die is a face of a die.
pub proof fn lemma_die_from_range(s: Seq<u8>, i: int)
    ensures
        1 <= die_from(s, i) <= 6,
    decreases s.len() - i,
{
    if !(i >= s.len() || i < 0) && s[i] > 251 {
        lemma_die_from_range(s, i + 1);
    }
}

/// How many of the byte values below `n` a one-byte slice turns into face `f`.
pub open spec fn faces_among(n: nat, f: u8) -> nat
    decreases n,
{
    if n == 0 {
        0
    } else {
        faces_among((n - 1) as nat, f) + if die_from(seq![(n - 1) as u8], 0) == f { 1nat } else { 0nat }
    }
}

proof fn lemma_mod_six(base: nat, k: nat)
    requires
        base == 6 * k,
    ensures
        base % 6 == 0,
        (base + 1) % 6 == 1,
        (base + 2) % 6 == 2,
        (base + 3) % 6 == 3,
        (base + 4) % 6 == 4,
        (base + 5) % 6 == 5,
{
    assert(base % 6 == 0 && (base + 1) % 6 == 1 && (base + 2) % 6 == 2 && (base + 3) % 6 == 3
        && (base + 4) % 6 == 4 && (base + 5) % 6 == 5) by (nonlinear_arith)
        requires
            base == 6 * k,
    ;
}

proof fn lemma_faces_in_rounds(k: nat, f: u8)
    requires
        1 <= f <= 6,
        6 * k <= 252,
    ensures
        faces_among(6 * k, f) == k,
    decreases k,
{
    if k > 0 {
        let base: nat = (6 * (k - 1)) as nat;
        lemma_faces_in_rounds((k - 1) as nat, f);
        lemma_mod_six(base, (k - 1) as nat);
        assert(faces_among(base + 1, f) == faces_among(base, f) + if f == 1 { 1nat } else { 0nat });
        assert(faces_among(base + 2, f) == faces_among(base + 1, f) + if f == 2 { 1nat } else { 0nat });
        assert(faces_among(base + 3, f) == faces_among(base + 2, f) + if f == 3 { 1nat } else { 0nat });
        assert(faces_among(base + 4, f) == faces_among(base + 3, f) + if f == 4 { 1nat } else { 0nat });
        assert(faces_among(base + 5, f) == faces_among(base + 4, f) + if f == 5 { 1nat } else { 0nat });
        assert(faces_among(base + 6, f) == faces_among(base + 5, f) + if f == 6 { 1nat } else { 0nat });
        assert(base + 6 == 6 * k);
    }
}

/// Rejection sampling is even: of the 252 byte values it accepts, each face of
/// the die comes from exactly 42.
pub proof fn lemma_accepted_bytes_spread_evenly(f: u8)
    requires
        1 <= f <= 6,
    ensures
        faces_among(252, f) == 42,
{
    lemma_faces_in_rounds(42, f);
}

/// Samples a fair die from a slice of entropy by rejecting the bytes above 251.
pub fn rejection_sample_die(entropy_slice: &[u8]) -> (r: Result<u8, ProgramError>)
    requires
        entropy_slice@.len() >= 1,
    ensures
        r == Ok::<u8, ProgramError>(die_from(entropy_slice@, 0)),
        1 <= die_from(entropy_slice@, 0) <= 6,
{
    proof {
        lemma_die_from_range(entropy_slice@, 0);
    }
    let mut i: usize = 0;
    while i < entropy_slice.len()
        invariant
            0 <= i <= entropy_slice@.len(),
            die_from(entropy_slice@, i as int) == die_from(entropy_slice@, 0),
        decreases entropy_slice@.len() - i,
    {
        let byte = entropy_slice[i];
        if byte <= 251 {
            return Ok((byte % 6) + 1);
        }
        i += 1;
    }
    Ok((entropy_slice[0] % 6) + 1)
}

/// Sixteen bytes of an entropy value from `start` on.
fn half_of(entropy: &[u8; 32], start: usize) -> (r: [u8; 16])
    requires
        start == 0 || start == 16,
    ensures
        r@ == entropy@.subrange(start as int, start + 16),
{
    let mut h = [0u8; 16];
    let mut k: usize = 0;
    while k < 16
        invariant
            0 <= k <= 16,
            start == 0 || start == 16,
            h@.len() == 16,
            forall|j: int| 0 <= j < k ==> h@[j] == entropy@[start + j],
        decreases 16 - k,
    {
        h[k] = entropy[start + k];
        k += 1;
    }
    assert(h@ =~= entropy@.subrange(start as int, start + 16));
    h
}

/// The dice an entropy value gives: each die sampled from one half.
pub open spec fn fair_dice(entropy: Seq<u8>) -> (u8, u8) {
    (die_from(entropy.subrange(0, 16), 0), die_from(entropy.subrange(16, 32), 0))
}

/// Generates two fair dice from 32 bytes of entropy.
pub fn generate_fair_dice(entropy: &[u8; 32]) -> (r: Result<(u8, u8), ProgramError>)
    ensures
        r == Ok::<(u8, u8), ProgramError>(fair_dice(entropy@)),
        1 <= fair_dice(entropy@).0 <= 6,
        1 <= fair_dice(entropy@).1 <= 6,
{
    let first = half_of(entropy, 0);
    let second = half_of(entropy, 16);
    let die1 = match rejection_sample_die(&first) {
        Ok(d) => d,
        Err(e) => return Err(e),
    };
    let die2 = match rejection_sample_die(&second) {
        Ok(d) => d,
        Err(e) => return Err(e),
    };
    if die1 < DICE_MIN_VALUE || die1 > DICE_SIDES {
        return Err(ProgramError::Custom(CrapsError::InvalidDiceValues));
    }
    if die2 < DICE_MIN_VALUE || die2 > DICE_SIDES {
        return Err(ProgramError::Custom(CrapsError::InvalidDiceValues));
    }
    Ok((die1, die2))
}

/// Byte `j` of the XOR of the first `n` hashes.
pub open spec fn xor_fold(hashes: Seq<[u8; 32]>, n: nat, j: int) -> u8
    decreases n,
{
    if n == 0 {
        0
    } else {
        xor_fold(hashes, (n - 1) as nat, j) ^ hashes[n - 1]@[j]
    }
}

/// The XOR of the first `n` hashes.
pub open spec fn xor_all(hashes: Seq<[u8; 32]>, n: nat) -> Seq<u8> {
    Seq::new(32, |j: int| xor_fold(hashes, n, j))
}

/// One mixing step on a byte: add a byte 13 places on, multiply by 0x9E, XOR with a
/// byte 17 places on, all modulo 256.
pub open spec fn mix_byte(a: u8, b: u8, c: u8) -> u8 {
    vstd::wrapping::u8_specs::wrapping_mul(vstd::wrapping::u8_specs::wrapping_add(a, b), 0x9Eu8) ^ c
}

/// The first `k` mixing steps, applied in place one byte after another.
pub open spec fn mix_rounds(m: Seq<u8>, k: nat) -> Seq<u8>
    decreases k,
{
    if k == 0 {
        m
    } else {
        let p = mix_rounds(m, (k - 1) as nat);
        let i = k - 1;
        p.update(i, mix_byte(p[i], p[(i + 13) % 32], p[(i + 17) % 32]))
    }
}

/// The entropy mixed from the first `n` hashes.
pub open spec fn spec_mix_entropy(hashes: Seq<[u8; 32]>, n: nat) -> Seq<u8> {
    mix_rounds(xor_all(hashes, n), 32)
}

proof fn lemma_xor_swap(a: u8, b: u8, c: u8)
    ensures
        (a ^ b) ^ c == (a ^ c) ^ b,
{
    assert((a ^ b) ^ c == (a ^ c) ^ b) by (bit_vector);
}

/// The XOR of the first `n` hashes reads only those hashes.
proof fn lemma_xor_fold_reads_prefix(s: Seq<[u8; 32]>, t: Seq<[u8; 32]>, n: nat, j: int)
    requires
        n <= s.len(),
        n <= t.len(),
        forall|i: int| 0 <= i < n ==> s[i] == t[i],
    ensures
        xor_fold(s, n, j) == xor_fold(t, n, j),
    decreases n,
{
    if n > 0 {
        lemma_xor_fold_reads_prefix(s, t, (n - 1) as nat, j);
    }
}

/// Taking a hash out of a sequence takes its bytes out of the XOR.
proof fn lemma_xor_fold_remove(s: Seq<[u8; 32]>, k: int, j: int)
    requires
        0 <= k < s.len(),
    ensures
        xor_fold(s, s.len(), j) == xor_fold(s.remove(k), s.remove(k).len(), j) ^ s[k]@[j],
    decreases s.len(),
{
    let n = s.len();
    lemma_xor_fold_reads_prefix(s, s.drop_last(), (n - 1) as nat, j);
    if k == n - 1 {
        assert(s.remove(k) =~= s.drop_last());
    } else {
        let d = s.drop_last();
        lemma_xor_fold_remove(d, k, j);
        let r = s.remove(k);
        assert(r.drop_last() =~= d.remove(k));
        assert(r[r.len() - 1] == s[n - 1]);
        lemma_xor_fold_reads_prefix(r, r.drop_last(), (r.len() - 1) as nat, j);
        lemma_xor_swap(xor_fold(d.remove(k), d.remove(k).len(), j), s[k]@[j], s[n - 1]@[j]);
    }
}

/// Sequences of hashes that hold the same hashes, each as often, XOR to the same bytes.
proof fn lemma_xor_fold_multiset(s: Seq<[u8; 32]>, t: Seq<[u8; 32]>, j: int)
    requires
        s.to_multiset() == t.to_multiset(),
    ensures
        xor_fold(s, s.len(), j) == xor_fold(t, t.len(), j),
    decreases s.len(),
{
    broadcast use vstd::seq_lib::group_to_multiset_ensures;
    assert(s.to_multiset().len() == s.len());
    assert(t.to_multiset().len() == t.len());
    if s.len() == 0 {
        assert(t.len() == 0);
    } else {
        let n = s.len();
        let x = s[n - 1];
        assert(s.contains(x));
        assert(s.to_multiset().count(x) > 0);
        assert(t.to_multiset().count(x) > 0);
        assert(t.contains(x));
        let k = choose|k: int| 0 <= k < t.len() && t[k] == x;
        assert(s.remove(n - 1).to_multiset() == t.remove(k).to_multiset());
        lemma_xor_fold_multiset(s.remove(n - 1), t.remove(k), j);
        lemma_xor_fold_remove(s, n - 1, j);
        lemma_xor_fold_remove(t, k, j);
    }
}

/// The entropy mixed from the first `n` hashes depends on which hashes they are and not
/// on their order, nor on any hash after them: two hash lists whose first `n` hashes
/// are the same up to order mix to the same entropy.
pub proof fn lemma_mix_ignores_order(hs: Seq<[u8; 32]>, gs: Seq<[u8; 32]>, n: nat)
    requires
        n <= hs.len(),
        n <= gs.len(),
        hs.subrange(0, n as int).to_multiset() == gs.subrange(0, n as int).to_multiset(),
    ensures
        spec_mix_entropy(hs, n) == spec_mix_entropy(gs, n),
{
    let a = hs.subrange(0, n as int);
    let b = gs.subrange(0, n as int);
    assert forall|j: int| 0 <= j < 32 implies xor_fold(hs, n, j) == xor_fold(gs, n, j) by {
        lemma_xor_fold_reads_prefix(hs, a, n, j);
        lemma_xor_fold_reads_prefix(gs, b, n, j);
        lemma_xor_fold_multiset(a, b, j);
    }
    assert(xor_all(hs, n) =~= xor_all(gs, n));
}

/// Mixes the first `hash_count` block hashes into 32 bytes of entropy: their XOR, then
/// one mixing step per byte. No hashes, or fewer than `MIN_MIX_HASHES`, is an error.
pub fn mix_entropy(block_hashes: &[[u8; 32]], hash_count: u8) -> (r: Result<[u8; 32], ProgramError>)
    requires
        hash_count >= MIN_MIX_HASHES ==> hash_count <= block_hashes@.len(),
    ensures
        hash_count == 0 ==> r == Err::<[u8; 32], ProgramError>(ProgramError::Custom(CrapsError::NoHashesCollected)),
        0 < hash_count < MIN_MIX_HASHES ==> r == Err::<[u8; 32], ProgramError>(
            ProgramError::Custom(CrapsError::InsufficientBlockHashes),
        ),
        hash_count >= MIN_MIX_HASHES ==> (r matches Ok(m) && m@ == spec_mix_entropy(block_hashes@, hash_count as nat)),
{
    if hash_count == 0 {
        return Err(ProgramError::Custom(CrapsError::NoHashesCollected));
    }
    if hash_count < MIN_MIX_HASHES {
        return Err(ProgramError::Custom(CrapsError::InsufficientBlockHashes));
    }
    let mut mixed = [0u8; 32];
    let n = hash_count as usize;
    let mut i: usize = 0;
    while i < n
        invariant
            0 <= i <= n,
            n <= block_hashes@.len(),
            mixed@.len() == 32,
            forall|j: int| 0 <= j < 32 ==> mixed@[j] == xor_fold(block_hashes@, i as nat, j),
        decreases n - i,
    {
        let h = block_hashes[i];
        let mut j: usize = 0;
        while j < 32
            invariant
                0 <= j <= 32,
                i < n <= block_hashes@.len(),
                h == block_hashes@[i as int],
                mixed@.len() == 32,
                forall|k: int| 0 <= k < j ==> mixed@[k] == xor_fold(block_hashes@, (i + 1) as nat, k),
                forall|k: int| j <= k < 32 ==> mixed@[k] == xor_fold(block_hashes@, i as nat, k),
            decreases 32 - j,
        {
            mixed[j] = mixed[j] ^ h[j];
            j += 1;
        }
        i += 1;
    }
    let ghost start = mixed@;
    assert(start =~= xor_all(block_hashes@, n as nat));
    let mut k: usize = 0;
    while k < 32
        invariant
            0 <= k <= 32,
            mixed@.len() == 32,
            mixed@ == mix_rounds(start, k as nat),
        decreases 32 - k,
    {
        let rotated_index = (k + 13) % 32;
        let xor_index = (k + 17) % 32;
        mixed[k] = mixed[k].wrapping_add(mixed[rotated_index]).wrapping_mul(0x9E) ^ mixed[xor_index];
        k += 1;
    }
    Ok(mixed)
}

/// Checks that the randomness is for `current_epoch` and in `expected_phase`.
pub fn validate_rng_phase(rng_state: &RngState, expected_phase: RngPhase, current_epoch: u64) -> (r: Result<(), ProgramError>)
    ensures
        rng_state.epoch_value() != current_epoch ==> r == Err::<(), ProgramError>(ProgramError::Custom(CrapsError::InvalidEpoch)),
        rng_state.epoch_value() == current_epoch && phase_of(rng_state.phase) != expected_phase ==> r == Err::<(), ProgramError>(
            ProgramError::Custom(CrapsError::InvalidRngPhase),
        ),
        rng_state.epoch_value() == current_epoch && phase_of(rng_state.phase) == expected_phase ==> r == Ok::<(), ProgramError>(()),
{
    if rng_state.get_epoch() != current_epoch {
        return Err(ProgramError::Custom(CrapsError::InvalidEpoch));
    }
    let current_phase = rng_state.get_phase();
    if current_phase != expected_phase {
        return Err(ProgramError::Custom(CrapsError::InvalidRngPhase));
    }
    Ok(())
}

/// The dice a final random value gives: its lowest byte and its next byte, each taken
/// modulo 6 plus 1.
pub open spec fn dice_of_value(v: u64) -> (u8, u8) {
    ((v % 256 % 6 + 1) as u8, ((v / 256) % 256 % 6 + 1) as u8)
}

/// Generates the dice from the final random value.
pub fn generate_dice_from_final_value(final_value: u64) -> (r: (u8, u8))
    ensures
        r == dice_of_value(final_value),
        1 <= r.0 <= 6,
        1 <= r.1 <= 6,
{
    assert(final_value & 0xFF == final_value % 256) by (bit_vector);
    assert((final_value >> 8) & 0xFF == (final_value / 256) % 256) by (bit_vector);
    let die1 = ((final_value & 0xFF) % 6) + 1;
    let die2 = (((final_value >> 8) & 0xFF) % 6) + 1;
    (die1 as u8, die2 as u8)
}

/// Checks that both dice show a face of a die.
pub fn validate_dice_values(die1: u8, die2: u8) -> (r: Result<(), ProgramError>)
    ensures
        r is Ok <==> (1 <= die1 <= 6 && 1 <= die2 <= 6),
        r is Err ==> r == Err::<(), ProgramError>(ProgramError::Custom(CrapsError::InvalidDiceValues)),
{
    if die1 < DICE_MIN_VALUE || die1 > DICE_SIDES {
        return Err(ProgramError::Custom(CrapsError::InvalidDiceValues));
    }
    if die2 < DICE_MIN_VALUE || die2 > DICE_SIDES {
        return Err(ProgramError::Custom(CrapsError::InvalidDiceValues));
    }
    Ok(())
}

/// Whether block hashes may be collected now: in the collection phase, from its start slot.
pub fn is_collection_window_open(rng_state: &RngState, current_slot: u64) -> (r: bool)
    ensures
        r == (phase_of(rng_state.phase) == RngPhase::Collection && current_slot >= rng_state.collection_start_slot_value()),
{
    rng_state.get_phase() == RngPhase::Collection && current_slot >= rng_state.get_collection_start_slot()
}

/// Whether the betting window is over: collection has started and the window's slots
/// have passed since betting started.
pub fn is_betting_window_complete(betting_start_slot: u64, collection_start_slot: u64, current_slot: u64) -> (r: bool)
    requires
        current_slot >= collection_start_slot ==> betting_start_slot + BETTING_WINDOW_SLOTS <= u64::MAX,
    ensures
        r == (current_slot >= collection_start_slot && current_slot >= betting_start_slot + BETTING_WINDOW_SLOTS),
{
    current_slot >= collection_start_slot && current_slot >= betting_start_slot + BETTING_WINDOW_SLOTS
}

/// A mixing seed from an epoch and a slot: the epoch times a large odd constant, modulo
/// 2^64, XOR the slot.
pub fn calculate_entropy_seed(epoch: u64, slot: u64) -> (r: u64)
    ensures
        r == vstd::wrapping::u64_specs::wrapping_mul(epoch, 0x9E3779B97F4A7C15u64) ^ slot,
{
    let prime_multiplier: u64 = 0x9E3779B97F4A7C15;
    epoch.wrapping_mul(prime_multiplier) ^ slot
}

} // verus!
