//! The treasury's bookkeeping.
use vstd::prelude::*;
use vstd::bytes::*;
use crate::le_bytes::{read_u64, write_u64};

verus! {

/// Financial state of the treasury.
#[derive(Clone, Copy)]
pub struct Treasury {
    /// Authority that manages the treasury.
    pub authority: [u8; 32],
    /// Mint of the CRAP token.
    pub token_mint: [u8; 32],
    /// Token account holding the funds.
    pub vault: [u8; 32],
    /// Total deposits.
    pub total_deposits: [u8; 8],
    /// Total withdrawals.
    pub total_withdrawals: [u8; 8],
    /// Total payouts to players.
    pub total_payouts: [u8; 8],
    /// Number of bets placed.
    pub total_bets_placed: [u8; 8],
    /// Number of bets settled.
    pub total_bets_settled: [u8; 8],
    /// Slot of the last update.
    pub last_update_slot: [u8; 8],
    /// Non-zero in emergency shutdown.
    pub emergency_shutdown: u8,
    /// PDA bump seed.
    pub bump: u8,
    pub _padding: [u8; 6],
}

/// The value of a `u64` read as an `i64` (two's complement).
pub open spec fn as_signed(x: u64) -> int {
    if x <= i64::MAX { x as int } else { x as int - 0x1_0000_0000_0000_0000 }
}

/// Reads a `u64` as an `i64`, as `as` does.
pub fn u64_as_i64(x: u64) -> (r: i64)
    ensures
        r == as_signed(x),
{
    if x <= i64::MAX as u64 {
        x as i64
    } else {
        let high = (x - 0x8000_0000_0000_0000u64) as i64;
        high + i64::MIN
    }
}

impl Treasury {
    /// Size of the account in bytes.
    pub const LEN: usize = 152;

    pub open spec fn total_deposits_value(&self) -> u64 {
        spec_u64_from_le_bytes(self.total_deposits@)
    }

    pub open spec fn total_withdrawals_value(&self) -> u64 {
        spec_u64_from_le_bytes(self.total_withdrawals@)
    }

    pub open spec fn total_payouts_value(&self) -> u64 {
        spec_u64_from_le_bytes(self.total_payouts@)
    }

    pub open spec fn total_bets_placed_value(&self) -> u64 {
        spec_u64_from_le_bytes(self.total_bets_placed@)
    }

    pub open spec fn total_bets_settled_value(&self) -> u64 {
        spec_u64_from_le_bytes(self.total_bets_settled@)
    }

    pub open spec fn last_update_slot_value(&self) -> u64 {
        spec_u64_from_le_bytes(self.last_update_slot@)
    }

    pub fn get_total_deposits(&self) -> (r: u64)
        ensures
            r == self.total_deposits_value(),
    {
        read_u64(&self.total_deposits)
    }

    pub fn get_total_withdrawals(&self) -> (r: u64)
        ensures
            r == self.total_withdrawals_value(),
    {
        read_u64(&self.total_withdrawals)
    }

    pub fn get_total_payouts(&self) -> (r: u64)
        ensures
            r == self.total_payouts_value(),
    {
        read_u64(&self.total_payouts)
    }

    pub fn get_total_bets_placed(&self) -> (r: u64)
        ensures
            r == self.total_bets_placed_value(),
    {
        read_u64(&self.total_bets_placed)
    }

    pub fn get_total_bets_settled(&self) -> (r: u64)
        ensures
            r == self.total_bets_settled_value(),
    {
        read_u64(&self.total_bets_settled)
    }

    pub fn get_last_update_slot(&self) -> (r: u64)
        ensures
            r == self.last_update_slot_value(),
    {
        read_u64(&self.last_update_slot)
    }

    pub fn set_total_deposits(&mut self, value: u64)
        ensures
            *final(self) == (Treasury { total_deposits: final(self).total_deposits, ..*old(self) }),
            final(self).total_deposits@ == spec_u64_to_le_bytes(value),
            final(self).total_deposits_value() == value,
    {
        proof {
            crate::le_bytes::lemma_u64_roundtrip(value);
        }
        self.total_deposits = write_u64(value);
    }

    pub fn set_total_withdrawals(&mut self, value: u64)
        ensures
            *final(self) == (Treasury { total_withdrawals: final(self).total_withdrawals, ..*old(self) }),
            final(self).total_withdrawals@ == spec_u64_to_le_bytes(value),
            final(self).total_withdrawals_value() == value,
    {
        proof {
            crate::le_bytes::lemma_u64_roundtrip(value);
        }
        self.total_withdrawals = write_u64(value);
    }

    pub fn set_total_payouts(&mut self, value: u64)
        ensures
            *final(self) == (Treasury { total_payouts: final(self).total_payouts, ..*old(self) }),
            final(self).total_payouts@ == spec_u64_to_le_bytes(value),
            final(self).total_payouts_value() == value,
    {
        proof {
            crate::le_bytes::lemma_u64_roundtrip(value);
        }
        self.total_payouts = write_u64(value);
    }

    pub fn set_total_bets_placed(&mut self, value: u64)
        ensures
            *final(self) == (Treasury { total_bets_placed: final(self).total_bets_placed, ..*old(self) }),
            final(self).total_bets_placed@ == spec_u64_to_le_bytes(value),
            final(self).total_bets_placed_value() == value,
    {
        proof {
            crate::le_bytes::lemma_u64_roundtrip(value);
        }
        self.total_bets_placed = write_u64(value);
    }

    pub fn set_total_bets_settled(&mut self, value: u64)
        ensures
            *final(self) == (Treasury { total_bets_settled: final(self).total_bets_settled, ..*old(self) }),
            final(self).total_bets_settled@ == spec_u64_to_le_bytes(value),
            final(self).total_bets_settled_value() == value,
    {
        proof {
            crate::le_bytes::lemma_u64_roundtrip(value);
        }
        self.total_bets_settled = write_u64(value);
    }

    pub fn set_last_update_slot(&mut self, value: u64)
        ensures
            *final(self) == (Treasury { last_update_slot: final(self).last_update_slot, ..*old(self) }),
            final(self).last_update_slot@ == spec_u64_to_le_bytes(value),
            final(self).last_update_slot_value() == value,
    {
        proof {
            crate::le_bytes::lemma_u64_roundtrip(value);
        }
        self.last_update_slot = write_u64(value);
    }

    /// Net flow: deposits less withdrawals less payouts, each read as a signed number.
    pub fn calculate_net_flow(&self) -> (r: i64)
        requires
            i64::MIN <= as_signed(self.total_deposits_value()) - as_signed(self.total_withdrawals_value()) <= i64::MAX,
            i64::MIN <= as_signed(self.total_deposits_value()) - as_signed(self.total_withdrawals_value())
                - as_signed(self.total_payouts_value()) <= i64::MAX,
        ensures
            r == as_signed(self.total_deposits_value()) - as_signed(self.total_withdrawals_value())
                - as_signed(self.total_payouts_value()),
    {
        let deposits = u64_as_i64(self.get_total_deposits());
        let withdrawals = u64_as_i64(self.get_total_withdrawals());
        let payouts = u64_as_i64(self.get_total_payouts());
        deposits - withdrawals - payouts
    }

    /// Whether the treasury is in emergency shutdown.
    pub fn is_emergency_shutdown(&self) -> (r: bool)
        ensures
            r <==> self.emergency_shutdown != 0,
    {
        self.emergency_shutdown != 0
    }

    /// The total balance is kept in the deposit total.
    pub fn set_total_balance(&mut self, value: u64)
        ensures
            *final(self) == (Treasury { total_deposits: final(self).total_deposits, ..*old(self) }),
            final(self).total_deposits@ == spec_u64_to_le_bytes(value),
            final(self).total_deposits_value() == value,
    {
        proof {
            crate::le_bytes::lemma_u64_roundtrip(value);
        }
        self.set_total_deposits(value);
    }

    /// The reconciliation slot is kept in the last-update slot.
    pub fn set_last_reconciliation_slot(&mut self, value: u64)
        ensures
            *final(self) == (Treasury { last_update_slot: final(self).last_update_slot, ..*old(self) }),
            final(self).last_update_slot@ == spec_u64_to_le_bytes(value),
            final(self).last_update_slot_value() == value,
    {
        proof {
            crate::le_bytes::lemma_u64_roundtrip(value);
        }
        self.set_last_update_slot(value);
    }

    /// The account keeps no locked amount: nothing changes.
    pub fn set_locked_amount(&mut self, _value: u64)
        ensures
            *final(self) == *old(self),
    {
    }

    /// The account keeps no insurance pool: nothing changes.
    pub fn set_insurance_pool(&mut self, _value: u64)
        ensures
            *final(self) == *old(self),
    {
    }

    /// The account keeps no fee total: nothing changes.
    pub fn set_total_fees_collected(&mut self, _value: u64)
        ensures
            *final(self) == *old(self),
    {
    }

    /// The account keeps no refund total: nothing changes.
    pub fn set_total_refunded(&mut self, _value: u64)
        ensures
            *final(self) == *old(self),
    {
    }

    /// The account keeps no safety multiplier: nothing changes.
    pub fn set_safety_multiplier(&mut self, _value: u64)
        ensures
            *final(self) == *old(self),
    {
    }

    /// The account keeps no reserve percentage: nothing changes.
    pub fn set_reserve_percentage(&mut self, _value: u64)
        ensures
            *final(self) == *old(self),
    {
    }

}

} // verus!
