//! The state of the commit-reveal randomness.
use vstd::prelude::*;
use vstd::bytes::*;
use crate::le_bytes::{read_u64, write_u64};
use crate::state::bet::splice;

verus! {

/// How many block hashes the state holds.
pub const STORED_BLOCK_HASHES: u8 = 10;

/// Phase of the randomness cycle.
#[derive(Clone, Copy, PartialEq, Eq, Structural, Debug)]
pub enum RngPhase {
    Betting,
    Collection,
    Finalized,
}

impl Default for RngPhase {
    fn default() -> (r: Self)
        ensures
            r == RngPhase::Betting,
    {
        RngPhase::Betting
    }
}

/// The byte that stands for a phase.
pub open spec fn phase_code(p: RngPhase) -> u8 {
    match p {
        RngPhase::Betting => 0,
        RngPhase::Collection => 1,
        RngPhase::Finalized => 2,
    }
}

/// The phase a byte stands for; any unknown byte reads as betting.
pub open spec fn phase_of(b: u8) -> RngPhase {
    if b == 1 {
        RngPhase::Collection
    } else if b == 2 {
        RngPhase::Finalized
    } else {
        RngPhase::Betting
    }
}

/// The spread added to the betting window: a hash of the epoch and the slot, below 50.
pub open spec fn timing_entropy(epoch: u64, slot: u64) -> u64 {
    ((vstd::wrapping::u64_specs::wrapping_mul(epoch, 0x9E3779B97F4A7C15u64) ^ slot) % 50) as u64
}

/// Randomness state: block hashes collected after the betting window, mixed into a final value.
#[derive(Clone, Copy)]
pub struct RngState {
    /// Epoch of this randomness cycle.
    pub epoch: [u8; 8],
    /// 0 betting, 1 collection, 2 finalized.
    pub phase: u8,
    /// Number of block hashes collected.
    pub hash_count: u8,
    pub _padding1: [u8; 6],
    /// Slot when betting started.
    pub betting_start_slot: [u8; 8],
    /// Slot from which hashes may be collected.
    pub collection_start_slot: [u8; 8],
    /// Slot of finalization.
    pub finalization_slot: [u8; 8],
    /// Up to ten collected block hashes of 32 bytes each.
    pub block_hashes: [u8; 320],
    /// The final random value.
    pub final_value: [u8; 8],
    /// PDA bump seed.
    pub bump: u8,
    pub _padding2: [u8; 7],
}

impl RngState {
    /// Size of the account in bytes.
    pub const LEN: usize = 376;

    pub open spec fn epoch_value(&self) -> u64 {
        spec_u64_from_le_bytes(self.epoch@)
    }

    pub open spec fn betting_start_slot_value(&self) -> u64 {
        spec_u64_from_le_bytes(self.betting_start_slot@)
    }

    pub open spec fn collection_start_slot_value(&self) -> u64 {
        spec_u64_from_le_bytes(self.collection_start_slot@)
    }

    pub open spec fn finalization_slot_value(&self) -> u64 {
        spec_u64_from_le_bytes(self.finalization_slot@)
    }

    pub open spec fn final_value_value(&self) -> u64 {
        spec_u64_from_le_bytes(self.final_value@)
    }

    pub fn get_epoch(&self) -> (r: u64)
        ensures
            r == self.epoch_value(),
    {
        read_u64(&self.epoch)
    }

    pub fn get_betting_start_slot(&self) -> (r: u64)
        ensures
            r == self.betting_start_slot_value(),
    {
        read_u64(&self.betting_start_slot)
    }

    pub fn get_collection_start_slot(&self) -> (r: u64)
        ensures
            r == self.collection_start_slot_value(),
    {
        read_u64(&self.collection_start_slot)
    }

    pub fn get_finalization_slot(&self) -> (r: u64)
        ensures
            r == self.finalization_slot_value(),
    {
        read_u64(&self.finalization_slot)
    }

    pub fn get_final_value(&self) -> (r: u64)
        ensures
            r == self.final_value_value(),
    {
        read_u64(&self.final_value)
    }

    pub fn set_epoch(&mut self, value: u64)
        ensures
            *final(self) == (RngState { epoch: final(self).epoch, ..*old(self) }),
            final(self).epoch@ == spec_u64_to_le_bytes(value),
            final(self).epoch_value() == value,
    {
        proof {
            crate::le_bytes::lemma_u64_roundtrip(value);
        }
        self.epoch = write_u64(value);
    }

    pub fn set_betting_start_slot(&mut self, value: u64)
        ensures
            *final(self) == (RngState { betting_start_slot: final(self).betting_start_slot, ..*old(self) }),
            final(self).betting_start_slot@ == spec_u64_to_le_bytes(value),
            final(self).betting_start_slot_value() == value,
    {
        proof {
            crate::le_bytes::lemma_u64_roundtrip(value);
        }
        self.betting_start_slot = write_u64(value);
    }

    pub fn set_collection_start_slot(&mut self, value: u64)
        ensures
            *final(self) == (RngState { collection_start_slot: final(self).collection_start_slot, ..*old(self) }),
            final(self).collection_start_slot@ == spec_u64_to_le_bytes(value),
            final(self).collection_start_slot_value() == value,
    {
        proof {
            crate::le_bytes::lemma_u64_roundtrip(value);
        }
        self.collection_start_slot = write_u64(value);
    }

    pub fn set_finalization_slot(&mut self, value: u64)
        ensures
            *final(self) == (RngState { finalization_slot: final(self).finalization_slot, ..*old(self) }),
            final(self).finalization_slot@ == spec_u64_to_le_bytes(value),
            final(self).finalization_slot_value() == value,
    {
        proof {
            crate::le_bytes::lemma_u64_roundtrip(value);
        }
        self.finalization_slot = write_u64(value);
    }

    pub fn set_final_value(&mut self, value: u64)
        ensures
            *final(self) == (RngState { final_value: final(self).final_value, ..*old(self) }),
            final(self).final_value@ == spec_u64_to_le_bytes(value),
            final(self).final_value_value() == value,
    {
        proof {
            crate::le_bytes::lemma_u64_roundtrip(value);
        }
        self.final_value = write_u64(value);
    }

    /// The current phase; an unknown byte reads as betting.
    pub fn get_phase(&self) -> (r: RngPhase)
        ensures
            r == phase_of(self.phase),
    {
        match self.phase {
            0 => RngPhase::Betting,
            1 => RngPhase::Collection,
            2 => RngPhase::Finalized,
            _ => RngPhase::Betting,
        }
    }

    /// Sets the phase.
    pub fn set_phase(&mut self, phase: RngPhase)
        ensures
            *final(self) == (RngState { phase: phase_code(phase), ..*old(self) }),
    {
        self.phase = match phase {
            RngPhase::Betting => 0,
            RngPhase::Collection => 1,
            RngPhase::Finalized => 2,
        };
    }

    /// Sets the phase byte.
    pub fn set_rng_phase(&mut self, phase: u8)
        ensures
            *final(self) == (RngState { phase: phase, ..*old(self) }),
    {
        self.phase = phase;
    }

    /// Sets the number of collected hashes.
    pub fn set_hash_count(&mut self, count: u8)
        ensures
            *final(self) == (RngState { hash_count: count, ..*old(self) }),
    {
        self.hash_count = count;
    }

    /// The last finalized epoch is kept in the epoch.
    pub fn set_last_finalized_epoch(&mut self, epoch: u64)
        ensures
            *final(self) == (RngState { epoch: final(self).epoch, ..*old(self) }),
            final(self).epoch@ == spec_u64_to_le_bytes(epoch),
    {
        self.set_epoch(epoch);
    }

    /// The last update slot is kept in the finalization slot.
    pub fn set_last_update_slot(&mut self, slot: u64)
        ensures
            *final(self) == (RngState { finalization_slot: final(self).finalization_slot, ..*old(self) }),
            final(self).finalization_slot@ == spec_u64_to_le_bytes(slot),
    {
        self.set_finalization_slot(slot);
    }

    /// The account keeps no collection count: nothing changes.
    pub fn set_total_collections(&mut self, _value: u64)
        ensures
            *final(self) == *old(self),
    {
    }

    /// The account keeps no finalization count: nothing changes.
    pub fn set_successful_finalizations(&mut self, _value: u64)
        ensures
            *final(self) == *old(self),
    {
    }

    /// The account keeps no failure count: nothing changes.
    pub fn set_failed_finalizations(&mut self, _value: u64)
        ensures
            *final(self) == *old(self),
    {
    }

    /// The account keeps no activity flag: nothing changes.
    pub fn set_is_active(&mut self, _active: bool)
        ensures
            *final(self) == *old(self),
    {
    }

    /// Collection is complete once five hashes are in or the cycle is finalized.
    pub fn is_collection_complete(&self) -> (r: bool)
        ensures
            r <==> self.hash_count >= 5 || phase_of(self.phase) == RngPhase::Finalized,
    {
        self.hash_count >= 5 || self.get_phase() == RngPhase::Finalized
    }

    /// Whether the cycle is finalized.
    pub fn is_finalized(&self) -> (r: bool)
        ensures
            r <==> phase_of(self.phase) == RngPhase::Finalized,
    {
        self.get_phase() == RngPhase::Finalized
    }

    /// A hash may be collected in the collection phase from its start slot on.
    pub fn can_collect_hash(&self, current_slot: u64) -> (r: bool)
        ensures
            r <==> phase_of(self.phase) == RngPhase::Collection && current_slot
                >= self.collection_start_slot_value(),
    {
        self.get_phase() == RngPhase::Collection && current_slot >= self.get_collection_start_slot()
    }

    /// Appends a block hash unless ten are stored; the fifth hash finalizes the cycle.
    /// Returns whether the cycle is finalized by this hash.
    pub fn add_hash(&mut self, hash: [u8; 32]) -> (r: bool)
        ensures
            old(self).hash_count >= 10 ==> *final(self) == *old(self) && !r,
            old(self).hash_count < 10 ==> {
                &&& *final(self) == (RngState {
                    block_hashes: final(self).block_hashes,
                    hash_count: (old(self).hash_count + 1) as u8,
                    phase: if old(self).hash_count + 1 >= 5 { 2u8 } else { old(self).phase },
                    ..*old(self)
                })
                &&& final(self).block_hashes@ == splice(
                    old(self).block_hashes@,
                    32 * old(self).hash_count,
                    hash@,
                )
                &&& r == (old(self).hash_count + 1 >= 5)
            },
    {
        if self.hash_count >= 10 {
            return false;
        }
        let offset = (self.hash_count as usize) * 32;
        let ghost before = self.block_hashes@;
        let mut i: usize = 0;
        while i < 32
            invariant
                0 <= i <= 32,
                offset == 32 * old(self).hash_count,
                old(self).hash_count < 10,
                before == old(self).block_hashes@,
                *self == (RngState { block_hashes: self.block_hashes, ..*old(self) }),
                forall|j: int| 0 <= j < 320 ==> #[trigger] self.block_hashes@[j] == (if offset <= j
                    < offset + i { hash@[j - offset] } else { before[j] }),
            decreases 32 - i,
        {
            self.block_hashes[offset + i] = hash[i];
            i = i + 1;
        }
        assert(self.block_hashes@ =~= splice(before, offset as int, hash@));
        self.hash_count = self.hash_count + 1;
        if self.hash_count >= 5 {
            self.set_phase(RngPhase::Finalized);
            return true;
        }
        false
    }

    /// Starts a new cycle for an epoch at a slot: betting from the slot, collection after a
    /// window of 100 slots plus a spread below 50, everything else cleared.
    pub fn reset_for_epoch(&mut self, epoch: u64, current_slot: u64)
        requires
            current_slot + 100 + timing_entropy(epoch, current_slot) <= u64::MAX,
        ensures
            *final(self) == (RngState {
                epoch: final(self).epoch,
                phase: 0u8,
                betting_start_slot: final(self).betting_start_slot,
                collection_start_slot: final(self).collection_start_slot,
                finalization_slot: final(self).finalization_slot,
                hash_count: 0u8,
                block_hashes: final(self).block_hashes,
                final_value: final(self).final_value,
                ..*old(self)
            }),
            final(self).epoch_value() == epoch,
            final(self).betting_start_slot_value() == current_slot,
            final(self).collection_start_slot_value() == current_slot + 100 + timing_entropy(epoch, current_slot),
            final(self).finalization_slot_value() == 0,
            final(self).final_value_value() == 0,
            forall|j: int| 0 <= j < 320 ==> #[trigger] final(self).block_hashes@[j] == 0,
    {
        proof {
            lemma_auto_spec_u64_to_from_le_bytes();
        }
        self.set_epoch(epoch);
        self.set_phase(RngPhase::Betting);
        self.set_betting_start_slot(current_slot);
        let base_betting_delay = 100u64;
        let entropy = (epoch.wrapping_mul(0x9E3779B97F4A7C15) ^ current_slot) % 50;
        let betting_window = base_betting_delay + entropy;
        self.set_collection_start_slot(current_slot + betting_window);
        self.set_finalization_slot(0);
        self.hash_count = 0;
        self.block_hashes = [0u8; 320];
        self.set_final_value(0);
    }

    /// The block hash at `index`, if it is below the count of collected hashes (at most ten).
    pub fn get_block_hash(&self, index: usize) -> (r: Option<[u8; 32]>)
        ensures
            (index >= 10 || index >= self.hash_count) ==> r is None,
            (index < 10 && index < self.hash_count) ==> (r matches Some(h) && h@
                == self.block_hashes@.subrange(32 * index, 32 * index + 32)),
    {
        if index >= 10 || index >= self.hash_count as usize {
            return None;
        }
        let offset = index * 32;
        let mut hash = [0u8; 32];
        let mut i: usize = 0;
        while i < 32
            invariant
                0 <= i <= 32,
                offset == 32 * index,
                index < 10,
                forall|j: int| 0 <= j < i ==> #[trigger] hash@[j] == self.block_hashes@[offset + j],
            decreases 32 - i,
        {
            hash[i] = self.block_hashes[offset + i];
            i = i + 1;
        }
        assert(hash@ =~= self.block_hashes@.subrange(32 * index, 32 * index + 32));
        Some(hash)
    }

    /// The dice of the final value: its low byte and its second byte, each taken mod 6, plus 1.
    pub fn get_dice_roll(&self) -> (r: (u8, u8))
        ensures
            r.0 == self.final_value_value() % 6 + 1,
            r.1 == (self.final_value_value() / 256) % 6 + 1,
    {
        let final_val = self.get_final_value();
        assert(final_val >> 8u64 == final_val / 256) by (bit_vector);
        let die1 = ((final_val % 6) + 1) as u8;
        let die2 = (((final_val >> 8u64) % 6) + 1) as u8;
        (die1, die2)
    }
}

} // verus!
