//! The state of one player.
use vstd::prelude::*;
use vstd::bytes::*;
use crate::le_bytes::{read_u64, write_u64};

verus! {

/// Minimal state of a player.
#[derive(Clone, Copy)]
pub struct ScalablePlayerState {
    /// Player key.
    pub player: [u8; 32],
    /// Current balance.
    pub balance: [u8; 8],
    /// Active tournament, all zeros if none.
    pub active_tournament: [u8; 32],
    /// Epoch the player is in.
    pub current_epoch: [u8; 8],
    /// Lifetime total wagered.
    pub total_wagered: [u8; 8],
    /// Lifetime total won.
    pub total_won: [u8; 8],
    /// Slot of the last bet.
    pub last_bet_slot: [u8; 8],
    /// Slot of the last daily claim.
    pub last_claim_slot: [u8; 8],
    /// Slot of the last tournament update, 0 if none.
    pub last_tournament_update_slot: [u8; 8],
    /// 0 unverified, 1 basic, 2 premium.
    pub verification_tier: u8,
    /// PDA bump seed.
    pub bump: u8,
    pub _padding: [u8; 6],
}

impl ScalablePlayerState {
    /// Size of the account in bytes.
    pub const LEN: usize = 128;

    pub open spec fn balance_value(&self) -> u64 {
        spec_u64_from_le_bytes(self.balance@)
    }

    pub open spec fn current_epoch_value(&self) -> u64 {
        spec_u64_from_le_bytes(self.current_epoch@)
    }

    pub open spec fn total_wagered_value(&self) -> u64 {
        spec_u64_from_le_bytes(self.total_wagered@)
    }

    pub open spec fn total_won_value(&self) -> u64 {
        spec_u64_from_le_bytes(self.total_won@)
    }

    pub open spec fn last_bet_slot_value(&self) -> u64 {
        spec_u64_from_le_bytes(self.last_bet_slot@)
    }

    pub open spec fn last_claim_slot_value(&self) -> u64 {
        spec_u64_from_le_bytes(self.last_claim_slot@)
    }

    pub open spec fn last_tournament_update_slot_value(&self) -> u64 {
        spec_u64_from_le_bytes(self.last_tournament_update_slot@)
    }

    pub fn get_balance(&self) -> (r: u64)
        ensures
            r == self.balance_value(),
    {
        read_u64(&self.balance)
    }

    pub fn get_current_epoch(&self) -> (r: u64)
        ensures
            r == self.current_epoch_value(),
    {
        read_u64(&self.current_epoch)
    }

    pub fn get_total_wagered(&self) -> (r: u64)
        ensures
            r == self.total_wagered_value(),
    {
        read_u64(&self.total_wagered)
    }

    pub fn get_total_won(&self) -> (r: u64)
        ensures
            r == self.total_won_value(),
    {
        read_u64(&self.total_won)
    }

    pub fn get_last_bet_slot(&self) -> (r: u64)
        ensures
            r == self.last_bet_slot_value(),
    {
        read_u64(&self.last_bet_slot)
    }

    pub fn get_last_claim_slot(&self) -> (r: u64)
        ensures
            r == self.last_claim_slot_value(),
    {
        read_u64(&self.last_claim_slot)
    }

    pub fn set_balance(&mut self, value: u64)
        ensures
            *final(self) == (ScalablePlayerState { balance: final(self).balance, ..*old(self) }),
            final(self).balance@ == spec_u64_to_le_bytes(value),
            final(self).balance_value() == value,
    {
        proof {
            crate::le_bytes::lemma_u64_roundtrip(value);
        }
        self.balance = write_u64(value);
    }

    pub fn set_current_epoch(&mut self, value: u64)
        ensures
            *final(self) == (ScalablePlayerState { current_epoch: final(self).current_epoch, ..*old(self) }),
            final(self).current_epoch@ == spec_u64_to_le_bytes(value),
            final(self).current_epoch_value() == value,
    {
        proof {
            crate::le_bytes::lemma_u64_roundtrip(value);
        }
        self.current_epoch = write_u64(value);
    }

    pub fn set_total_wagered(&mut self, value: u64)
        ensures
            *final(self) == (ScalablePlayerState { total_wagered: final(self).total_wagered, ..*old(self) }),
            final(self).total_wagered@ == spec_u64_to_le_bytes(value),
            final(self).total_wagered_value() == value,
    {
        proof {
            crate::le_bytes::lemma_u64_roundtrip(value);
        }
        self.total_wagered = write_u64(value);
    }

    pub fn set_total_won(&mut self, value: u64)
        ensures
            *final(self) == (ScalablePlayerState { total_won: final(self).total_won, ..*old(self) }),
            final(self).total_won@ == spec_u64_to_le_bytes(value),
            final(self).total_won_value() == value,
    {
        proof {
            crate::le_bytes::lemma_u64_roundtrip(value);
        }
        self.total_won = write_u64(value);
    }

    pub fn set_last_bet_slot(&mut self, value: u64)
        ensures
            *final(self) == (ScalablePlayerState { last_bet_slot: final(self).last_bet_slot, ..*old(self) }),
            final(self).last_bet_slot@ == spec_u64_to_le_bytes(value),
            final(self).last_bet_slot_value() == value,
    {
        proof {
            crate::le_bytes::lemma_u64_roundtrip(value);
        }
        self.last_bet_slot = write_u64(value);
    }

    pub fn set_last_claim_slot(&mut self, value: u64)
        ensures
            *final(self) == (ScalablePlayerState { last_claim_slot: final(self).last_claim_slot, ..*old(self) }),
            final(self).last_claim_slot@ == spec_u64_to_le_bytes(value),
            final(self).last_claim_slot_value() == value,
    {
        proof {
            crate::le_bytes::lemma_u64_roundtrip(value);
        }
        self.last_claim_slot = write_u64(value);
    }

    /// The slot of the last tournament update, none when it is 0.
    pub fn get_last_tournament_update_slot(&self) -> (r: Option<u64>)
        ensures
            r == (if self.last_tournament_update_slot_value() == 0 {
                None
            } else {
                Some(self.last_tournament_update_slot_value())
            }),
    {
        let value = read_u64(&self.last_tournament_update_slot);
        if value == 0 {
            None
        } else {
            Some(value)
        }
    }

    /// Sets the slot of the last tournament update; none is stored as 0.
    pub fn set_last_tournament_update_slot(&mut self, value: Option<u64>)
        ensures
            *final(self) == (ScalablePlayerState {
                last_tournament_update_slot: final(self).last_tournament_update_slot,
                ..*old(self)
            }),
            final(self).last_tournament_update_slot@ == spec_u64_to_le_bytes(
                match value {
                    Some(v) => v,
                    None => 0,
                },
            ),
    {
        let v = match value {
            Some(v) => v,
            None => 0,
        };
        self.last_tournament_update_slot = write_u64(v);
    }

    /// The deposit total is kept in the balance.
    pub fn get_total_deposited(&self) -> (r: u64)
        ensures
            r == self.balance_value(),
    {
        self.get_balance()
    }

    /// The deposit total is kept in the balance.
    pub fn set_total_deposited(&mut self, value: u64)
        ensures
            *final(self) == (ScalablePlayerState { balance: final(self).balance, ..*old(self) }),
            final(self).balance@ == spec_u64_to_le_bytes(value),
            final(self).balance_value() == value,
    {
        proof {
            crate::le_bytes::lemma_u64_roundtrip(value);
        }
        self.set_balance(value);
    }

    /// Sets the active tournament.
    pub fn set_active_tournament(&mut self, tournament: [u8; 32])
        ensures
            *final(self) == (ScalablePlayerState { active_tournament: tournament, ..*old(self) }),
    {
        self.active_tournament = tournament;
    }

    /// The active tournament.
    pub fn get_active_tournament(&self) -> (r: [u8; 32])
        ensures
            r == self.active_tournament,
    {
        self.active_tournament
    }

    /// The account keeps no withdrawal total: nothing changes.
    pub fn set_total_withdrawn(&mut self, _value: u64)
        ensures
            *final(self) == *old(self),
    {
    }

    /// The account keeps no games-played count: nothing changes.
    pub fn set_games_played(&mut self, _value: u64)
        ensures
            *final(self) == *old(self),
    {
    }

    /// The account keeps no bets-placed count: nothing changes.
    pub fn set_bets_placed(&mut self, _value: u64)
        ensures
            *final(self) == *old(self),
    {
    }

    /// The account keeps no bets-won count: nothing changes.
    pub fn set_bets_won(&mut self, _value: u64)
        ensures
            *final(self) == *old(self),
    {
    }

    /// The account keeps no initialization slot: nothing changes.
    pub fn set_initialized_slot(&mut self, _value: u64)
        ensures
            *final(self) == *old(self),
    {
    }

}

} // verus!
