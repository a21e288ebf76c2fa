//! A batch of up to 16 bets of one player for one epoch, as one account.
use vstd::prelude::*;
use vstd::bytes::*;
use crate::le_bytes::{read_u16, read_u64, write_u16, write_u64};

verus! {

/// Maximum number of bets in a batch.
pub const MAX_BETS_PER_BATCH: usize = 16;

/// Bets of one player for one epoch, packed into one account.
#[derive(Clone, Copy)]
pub struct BetBatch {
    /// Which epoch these bets are for.
    pub epoch: [u8; 8],
    /// Player who owns all bets in this batch.
    pub player: [u8; 32],
    /// Number of bets in this batch (at most 16).
    pub bet_count: u8,
    pub _padding1: [u8; 7],
    /// Total amount wagered in this batch.
    pub total_amount: [u8; 8],
    /// Packed bets, two little-endian bytes each: kind in 6 bits, amount index in 10.
    pub packed_bets: [u8; 32],
    /// Bit i set: bet i has a known outcome.
    pub resolved_mask: [u8; 2],
    /// Bit i set: bet i has a final outcome.
    pub realizable_mask: [u8; 2],
    /// Bit i set: bet i has been paid out.
    pub settled_mask: [u8; 2],
    /// Bit i set: bet i won.
    pub winning_mask: [u8; 2],
    /// Total payout of the batch.
    pub payout_total: [u8; 8],
    /// Payout of each bet, eight little-endian bytes each.
    pub individual_payouts: [u8; 128],
    /// Come point of each bet (0 if none).
    pub come_points: [u8; 16],
    /// Index of the bet each odds bet is linked to (255 if none).
    pub linked_bets: [u8; 16],
    /// Cached outcome of each bet: 0 not computed, 1 loss, 2 win, 3 continue.
    pub cached_outcomes: [u8; 16],
    /// Epoch of the cached outcomes.
    pub cache_epoch: [u8; 8],
    /// PDA bump seed.
    pub bump: u8,
    pub _padding2: [u8; 7],
}

/// Whether bit `i` of a 16-bit mask is set.
pub open spec fn mask_bit(mask: u16, i: int) -> bool {
    0 <= i < 16 && (mask & (1u16 << (i as u16))) != 0
}

/// `s` with the bytes from `off` on replaced by `t`.
pub open spec fn splice(s: Seq<u8>, off: int, t: Seq<u8>) -> Seq<u8> {
    s.subrange(0, off) + t + s.subrange(off + t.len(), s.len() as int)
}

impl BetBatch {
    /// Size of the account in bytes.
    pub const LEN: usize = 296;

    pub open spec fn epoch_value(&self) -> u64 {
        spec_u64_from_le_bytes(self.epoch@)
    }

    pub open spec fn total_amount_value(&self) -> u64 {
        spec_u64_from_le_bytes(self.total_amount@)
    }

    pub open spec fn resolved_mask_value(&self) -> u16 {
        spec_u16_from_le_bytes(self.resolved_mask@)
    }

    pub open spec fn realizable_mask_value(&self) -> u16 {
        spec_u16_from_le_bytes(self.realizable_mask@)
    }

    pub open spec fn settled_mask_value(&self) -> u16 {
        spec_u16_from_le_bytes(self.settled_mask@)
    }

    pub open spec fn winning_mask_value(&self) -> u16 {
        spec_u16_from_le_bytes(self.winning_mask@)
    }

    pub open spec fn payout_total_value(&self) -> u64 {
        spec_u64_from_le_bytes(self.payout_total@)
    }

    pub open spec fn cache_epoch_value(&self) -> u64 {
        spec_u64_from_le_bytes(self.cache_epoch@)
    }

    /// The packed bet at `index`: two little-endian bytes.
    pub open spec fn packed_bet_value(&self, index: int) -> u16 {
        spec_u16_from_le_bytes(self.packed_bets@.subrange(2 * index, 2 * index + 2))
    }

    /// The payout of the bet at `index`: eight little-endian bytes.
    pub open spec fn individual_payout_value(&self, index: int) -> u64 {
        spec_u64_from_le_bytes(self.individual_payouts@.subrange(8 * index, 8 * index + 8))
    }

    pub fn get_epoch(&self) -> (r: u64)
        ensures
            r == self.epoch_value(),
    {
        read_u64(&self.epoch)
    }

    pub fn get_total_amount(&self) -> (r: u64)
        ensures
            r == self.total_amount_value(),
    {
        read_u64(&self.total_amount)
    }

    /// The packed bet at `index`, or 0 past the last slot.
    pub fn get_packed_bet(&self, index: usize) -> (r: u16)
        ensures
            index < MAX_BETS_PER_BATCH ==> r == self.packed_bet_value(index as int),
            index >= MAX_BETS_PER_BATCH ==> r == 0,
    {
        if index < MAX_BETS_PER_BATCH {
            let offset = index * 2;
            let b = [self.packed_bets[offset], self.packed_bets[offset + 1]];
            assert(b@ =~= self.packed_bets@.subrange(2 * index, 2 * index + 2));
            read_u16(&b)
        } else {
            0
        }
    }

    pub fn get_resolved_mask(&self) -> (r: u16)
        ensures
            r == self.resolved_mask_value(),
    {
        read_u16(&self.resolved_mask)
    }

    pub fn get_realizable_mask(&self) -> (r: u16)
        ensures
            r == self.realizable_mask_value(),
    {
        read_u16(&self.realizable_mask)
    }

    pub fn get_settled_mask(&self) -> (r: u16)
        ensures
            r == self.settled_mask_value(),
    {
        read_u16(&self.settled_mask)
    }

    pub fn get_winning_mask(&self) -> (r: u16)
        ensures
            r == self.winning_mask_value(),
    {
        read_u16(&self.winning_mask)
    }

    pub fn get_payout_total(&self) -> (r: u64)
        ensures
            r == self.payout_total_value(),
    {
        read_u64(&self.payout_total)
    }

    /// The payout of the bet at `index`, or 0 past the last slot.
    pub fn get_individual_payout(&self, index: usize) -> (r: u64)
        ensures
            index < MAX_BETS_PER_BATCH ==> r == self.individual_payout_value(index as int),
            index >= MAX_BETS_PER_BATCH ==> r == 0,
    {
        if index < MAX_BETS_PER_BATCH {
            let o = index * 8;
            let b = [
                self.individual_payouts[o],
                self.individual_payouts[o + 1],
                self.individual_payouts[o + 2],
                self.individual_payouts[o + 3],
                self.individual_payouts[o + 4],
                self.individual_payouts[o + 5],
                self.individual_payouts[o + 6],
                self.individual_payouts[o + 7],
            ];
            assert(b@ =~= self.individual_payouts@.subrange(8 * index, 8 * index + 8));
            read_u64(&b)
        } else {
            0
        }
    }

    pub fn get_cache_epoch(&self) -> (r: u64)
        ensures
            r == self.cache_epoch_value(),
    {
        read_u64(&self.cache_epoch)
    }

    pub fn set_epoch(&mut self, value: u64)
        ensures
            *final(self) == (BetBatch { epoch: final(self).epoch, ..*old(self) }),
            final(self).epoch@ == spec_u64_to_le_bytes(value),
            final(self).epoch_value() == value,
    {
        proof {
            crate::le_bytes::lemma_u64_roundtrip(value);
        }
        self.epoch = write_u64(value);
    }

    pub fn set_total_amount(&mut self, value: u64)
        ensures
            *final(self) == (BetBatch { total_amount: final(self).total_amount, ..*old(self) }),
            final(self).total_amount@ == spec_u64_to_le_bytes(value),
            final(self).total_amount_value() == value,
    {
        proof {
            crate::le_bytes::lemma_u64_roundtrip(value);
        }
        self.total_amount = write_u64(value);
    }

    /// Writes the packed bet at `index`; does nothing past the last slot.
    pub fn set_packed_bet(&mut self, index: usize, value: u16)
        ensures
            *final(self) == (BetBatch { packed_bets: final(self).packed_bets, ..*old(self) }),
            index < MAX_BETS_PER_BATCH ==> final(self).packed_bets@ == splice(
                old(self).packed_bets@,
                2 * index,
                spec_u16_to_le_bytes(value),
            ),
            index >= MAX_BETS_PER_BATCH ==> final(self).packed_bets == old(self).packed_bets,
            index < MAX_BETS_PER_BATCH ==> final(self).packed_bet_value(index as int) == value,
            forall|j: int| 0 <= j < MAX_BETS_PER_BATCH && j != index ==> #[trigger] final(self).packed_bet_value(j)
                == old(self).packed_bet_value(j),
    {
        if index < MAX_BETS_PER_BATCH {
            let offset = index * 2;
            let bytes = write_u16(value);
            proof {
                lemma_auto_spec_u16_to_from_le_bytes();
            }
            let ghost before = self.packed_bets@;
            self.packed_bets[offset] = bytes[0];
            self.packed_bets[offset + 1] = bytes[1];
            assert(self.packed_bets@ =~= splice(before, 2 * index, spec_u16_to_le_bytes(value)));
            assert(self.packed_bets@.subrange(2 * index, 2 * index + 2) =~= spec_u16_to_le_bytes(value));
            assert forall|j: int| 0 <= j < MAX_BETS_PER_BATCH && j != index implies #[trigger] self.packed_bets@.subrange(2 * j, 2 * j + 2)
                == before.subrange(2 * j, 2 * j + 2) by {
                assert(self.packed_bets@.subrange(2 * j, 2 * j + 2) =~= before.subrange(2 * j, 2 * j + 2));
            }
        }
    }

    pub fn set_resolved_mask(&mut self, value: u16)
        ensures
            *final(self) == (BetBatch { resolved_mask: final(self).resolved_mask, ..*old(self) }),
            final(self).resolved_mask@ == spec_u16_to_le_bytes(value),
            final(self).resolved_mask_value() == value,
    {
        proof {
            crate::le_bytes::lemma_u16_roundtrip(value);
        }
        self.resolved_mask = write_u16(value);
    }

    pub fn set_realizable_mask(&mut self, value: u16)
        ensures
            *final(self) == (BetBatch { realizable_mask: final(self).realizable_mask, ..*old(self) }),
            final(self).realizable_mask@ == spec_u16_to_le_bytes(value),
            final(self).realizable_mask_value() == value,
    {
        proof {
            crate::le_bytes::lemma_u16_roundtrip(value);
        }
        self.realizable_mask = write_u16(value);
    }

    pub fn set_settled_mask(&mut self, value: u16)
        ensures
            *final(self) == (BetBatch { settled_mask: final(self).settled_mask, ..*old(self) }),
            final(self).settled_mask@ == spec_u16_to_le_bytes(value),
            final(self).settled_mask_value() == value,
    {
        proof {
            crate::le_bytes::lemma_u16_roundtrip(value);
        }
        self.settled_mask = write_u16(value);
    }

    pub fn set_winning_mask(&mut self, value: u16)
        ensures
            *final(self) == (BetBatch { winning_mask: final(self).winning_mask, ..*old(self) }),
            final(self).winning_mask@ == spec_u16_to_le_bytes(value),
            final(self).winning_mask_value() == value,
    {
        proof {
            crate::le_bytes::lemma_u16_roundtrip(value);
        }
        self.winning_mask = write_u16(value);
    }

    pub fn set_payout_total(&mut self, value: u64)
        ensures
            *final(self) == (BetBatch { payout_total: final(self).payout_total, ..*old(self) }),
            final(self).payout_total@ == spec_u64_to_le_bytes(value),
            final(self).payout_total_value() == value,
    {
        proof {
            crate::le_bytes::lemma_u64_roundtrip(value);
        }
        self.payout_total = write_u64(value);
    }

    /// Writes the payout of the bet at `index`; does nothing past the last slot.
    pub fn set_individual_payout(&mut self, index: usize, value: u64)
        ensures
            *final(self) == (BetBatch {
                individual_payouts: final(self).individual_payouts,
                ..*old(self)
            }),
            index < MAX_BETS_PER_BATCH ==> final(self).individual_payouts@ == splice(
                old(self).individual_payouts@,
                8 * index,
                spec_u64_to_le_bytes(value),
            ),
            index >= MAX_BETS_PER_BATCH ==> final(self).individual_payouts == old(
                self,
            ).individual_payouts,
            index < MAX_BETS_PER_BATCH ==> final(self).individual_payout_value(index as int) == value,
            forall|j: int| 0 <= j < MAX_BETS_PER_BATCH && j != index ==> #[trigger] final(self).individual_payout_value(j)
                == old(self).individual_payout_value(j),
    {
        if index < MAX_BETS_PER_BATCH {
            let o = index * 8;
            let bytes = write_u64(value);
            proof {
                lemma_auto_spec_u64_to_from_le_bytes();
            }
            let ghost before = self.individual_payouts@;
            self.individual_payouts[o] = bytes[0];
            self.individual_payouts[o + 1] = bytes[1];
            self.individual_payouts[o + 2] = bytes[2];
            self.individual_payouts[o + 3] = bytes[3];
            self.individual_payouts[o + 4] = bytes[4];
            self.individual_payouts[o + 5] = bytes[5];
            self.individual_payouts[o + 6] = bytes[6];
            self.individual_payouts[o + 7] = bytes[7];
            assert(self.individual_payouts@ =~= splice(before, 8 * index, spec_u64_to_le_bytes(value)));
            assert(self.individual_payouts@.subrange(8 * index, 8 * index + 8) =~= spec_u64_to_le_bytes(value));
            assert forall|j: int| 0 <= j < MAX_BETS_PER_BATCH && j != index implies #[trigger] self.individual_payouts@.subrange(8 * j, 8 * j + 8)
                == before.subrange(8 * j, 8 * j + 8) by {
                assert(self.individual_payouts@.subrange(8 * j, 8 * j + 8) =~= before.subrange(8 * j, 8 * j + 8));
            }
        }
    }

    pub fn set_cache_epoch(&mut self, value: u64)
        ensures
            *final(self) == (BetBatch { cache_epoch: final(self).cache_epoch, ..*old(self) }),
            final(self).cache_epoch@ == spec_u64_to_le_bytes(value),
            final(self).cache_epoch_value() == value,
    {
        proof {
            crate::le_bytes::lemma_u64_roundtrip(value);
        }
        self.cache_epoch = write_u64(value);
    }

    /// Whether bet `index` has a known outcome.
    pub fn is_bet_resolved(&self, index: usize) -> (r: bool)
        ensures
            r == mask_bit(self.resolved_mask_value(), index as int),
    {
        if index >= MAX_BETS_PER_BATCH {
            return false;
        }
        let mask = self.get_resolved_mask();
        (mask & (1u16 << (index as u16))) != 0
    }

    /// Whether bet `index` has a final outcome.
    pub fn is_bet_realizable(&self, index: usize) -> (r: bool)
        ensures
            r == mask_bit(self.realizable_mask_value(), index as int),
    {
        if index >= MAX_BETS_PER_BATCH {
            return false;
        }
        let mask = self.get_realizable_mask();
        (mask & (1u16 << (index as u16))) != 0
    }

    /// Whether bet `index` has been paid out.
    pub fn is_bet_settled(&self, index: usize) -> (r: bool)
        ensures
            r == mask_bit(self.settled_mask_value(), index as int),
    {
        if index >= MAX_BETS_PER_BATCH {
            return false;
        }
        let mask = self.get_settled_mask();
        (mask & (1u16 << (index as u16))) != 0
    }

    /// Whether bet `index` won.
    pub fn is_bet_winner(&self, index: usize) -> (r: bool)
        ensures
            r == mask_bit(self.winning_mask_value(), index as int),
    {
        if index >= MAX_BETS_PER_BATCH {
            return false;
        }
        let mask = self.get_winning_mask();
        (mask & (1u16 << (index as u16))) != 0
    }
}

} // verus!
