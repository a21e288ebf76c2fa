//! The global game state: the single record of the dice, the phase and the point.
use vstd::prelude::*;
use vstd::bytes::*;
use crate::le_bytes::{read_u32, read_u64, write_u32, write_u64};

verus! {

/// Global game state.
#[derive(Clone, Copy)]
pub struct GlobalGameState {
    /// Current game epoch: a shooter's session; advances on a seven-out.
    pub game_epoch: [u8; 8],
    /// Total of the last roll.
    pub current_dice: u8,
    /// First die of the last roll.
    pub current_die1: u8,
    /// Second die of the last roll.
    pub current_die2: u8,
    /// Current point, or 0 on the come-out.
    pub current_point: u8,
    /// 0 on the come-out, 1 once a point is set.
    pub game_phase: u8,
    pub _padding1: [u8; 3],
    /// Slot when the current epoch started.
    pub epoch_start_slot: [u8; 8],
    /// Slot of the next automatic roll: one roll every 60 slots.
    pub next_roll_slot: [u8; 8],
    /// Epoch when the shooter was established.
    pub shooter_established_epoch: [u8; 8],
    /// Active bets over all players.
    pub total_active_bets: [u8; 8],
    /// Rolls in the current epoch; starts again from 0 on a seven-out.
    pub epoch_roll_count: [u8; 4],
    pub _padding2: [u8; 4],
    /// Treasury account.
    pub treasury: [u8; 32],
    /// Program authority.
    pub authority: [u8; 32],
    /// Authority allowed to roll.
    pub rng_authority: [u8; 32],
    /// Mint of the CRAP token.
    pub crap_token_mint: [u8; 32],
    /// Unused flag.
    pub dev_mode_enabled: u8,
    /// Non-zero while paused: no bets or withdrawals.
    pub paused: u8,
    /// Non-zero to enforce the secure randomness.
    pub use_secure_rng: u8,
    /// PDA bump seed.
    pub bump: u8,
    pub _padding3: [u8; 4],
}

impl GlobalGameState {
    /// Size of the account in bytes.
    pub const LEN: usize = 192;

    pub open spec fn game_epoch_value(&self) -> u64 {
        spec_u64_from_le_bytes(self.game_epoch@)
    }

    pub open spec fn epoch_start_slot_value(&self) -> u64 {
        spec_u64_from_le_bytes(self.epoch_start_slot@)
    }

    pub open spec fn next_roll_slot_value(&self) -> u64 {
        spec_u64_from_le_bytes(self.next_roll_slot@)
    }

    pub open spec fn shooter_established_epoch_value(&self) -> u64 {
        spec_u64_from_le_bytes(self.shooter_established_epoch@)
    }

    pub open spec fn total_active_bets_value(&self) -> u64 {
        spec_u64_from_le_bytes(self.total_active_bets@)
    }

    pub open spec fn epoch_roll_count_value(&self) -> u32 {
        spec_u32_from_le_bytes(self.epoch_roll_count@)
    }

    pub fn get_game_epoch(&self) -> (r: u64)
        ensures
            r == self.game_epoch_value(),
    {
        read_u64(&self.game_epoch)
    }

    pub fn get_epoch_start_slot(&self) -> (r: u64)
        ensures
            r == self.epoch_start_slot_value(),
    {
        read_u64(&self.epoch_start_slot)
    }

    pub fn get_next_roll_slot(&self) -> (r: u64)
        ensures
            r == self.next_roll_slot_value(),
    {
        read_u64(&self.next_roll_slot)
    }

    pub fn get_shooter_established_epoch(&self) -> (r: u64)
        ensures
            r == self.shooter_established_epoch_value(),
    {
        read_u64(&self.shooter_established_epoch)
    }

    pub fn get_total_active_bets(&self) -> (r: u64)
        ensures
            r == self.total_active_bets_value(),
    {
        read_u64(&self.total_active_bets)
    }

    pub fn get_epoch_roll_count(&self) -> (r: u32)
        ensures
            r == self.epoch_roll_count_value(),
    {
        read_u32(&self.epoch_roll_count)
    }

    pub fn set_game_epoch(&mut self, value: u64)
        ensures
            *final(self) == (GlobalGameState { game_epoch: final(self).game_epoch, ..*old(self) }),
            final(self).game_epoch@ == spec_u64_to_le_bytes(value),
            final(self).game_epoch_value() == value,
    {
        proof {
            crate::le_bytes::lemma_u64_roundtrip(value);
        }
        self.game_epoch = write_u64(value);
    }

    pub fn set_epoch_start_slot(&mut self, value: u64)
        ensures
            *final(self) == (GlobalGameState { epoch_start_slot: final(self).epoch_start_slot, ..*old(self) }),
            final(self).epoch_start_slot@ == spec_u64_to_le_bytes(value),
            final(self).epoch_start_slot_value() == value,
    {
        proof {
            crate::le_bytes::lemma_u64_roundtrip(value);
        }
        self.epoch_start_slot = write_u64(value);
    }

    pub fn set_next_roll_slot(&mut self, value: u64)
        ensures
            *final(self) == (GlobalGameState { next_roll_slot: final(self).next_roll_slot, ..*old(self) }),
            final(self).next_roll_slot@ == spec_u64_to_le_bytes(value),
            final(self).next_roll_slot_value() == value,
    {
        proof {
            crate::le_bytes::lemma_u64_roundtrip(value);
        }
        self.next_roll_slot = write_u64(value);
    }

    pub fn set_shooter_established_epoch(&mut self, value: u64)
        ensures
            *final(self) == (GlobalGameState { shooter_established_epoch: final(self).shooter_established_epoch, ..*old(self) }),
            final(self).shooter_established_epoch@ == spec_u64_to_le_bytes(value),
            final(self).shooter_established_epoch_value() == value,
    {
        proof {
            crate::le_bytes::lemma_u64_roundtrip(value);
        }
        self.shooter_established_epoch = write_u64(value);
    }

    pub fn set_total_active_bets(&mut self, value: u64)
        ensures
            *final(self) == (GlobalGameState { total_active_bets: final(self).total_active_bets, ..*old(self) }),
            final(self).total_active_bets@ == spec_u64_to_le_bytes(value),
            final(self).total_active_bets_value() == value,
    {
        proof {
            crate::le_bytes::lemma_u64_roundtrip(value);
        }
        self.total_active_bets = write_u64(value);
    }

    pub fn set_epoch_roll_count(&mut self, value: u32)
        ensures
            *final(self) == (GlobalGameState { epoch_roll_count: final(self).epoch_roll_count, ..*old(self) }),
            final(self).epoch_roll_count@ == spec_u32_to_le_bytes(value),
            final(self).epoch_roll_count_value() == value,
    {
        proof {
            crate::le_bytes::lemma_u32_roundtrip(value);
        }
        self.epoch_roll_count = write_u32(value);
    }

    /// Whether the game is paused.
    pub fn get_is_paused(&self) -> (r: bool)
        ensures
            r <==> self.paused != 0,
    {
        self.paused != 0
    }

    /// The account keeps no emergency flag: never in emergency shutdown.
    pub fn get_is_emergency_shutdown(&self) -> (r: bool)
        ensures
            !r,
    {
        false
    }

    /// The current epoch: the game epoch.
    pub fn get_current_epoch(&self) -> (r: u64)
        ensures
            r == self.game_epoch_value(),
    {
        self.get_game_epoch()
    }

    /// Sets the current epoch: the game epoch.
    pub fn set_current_epoch(&mut self, value: u64)
        ensures
            *final(self) == (GlobalGameState { game_epoch: final(self).game_epoch, ..*old(self) }),
            final(self).game_epoch@ == spec_u64_to_le_bytes(value),
            final(self).game_epoch_value() == value,
    {
        proof {
            crate::le_bytes::lemma_u64_roundtrip(value);
        }
        self.set_game_epoch(value);
    }

    /// Sets the game phase.
    pub fn set_current_phase(&mut self, value: u8)
        ensures
            *final(self) == (GlobalGameState { game_phase: value, ..*old(self) }),
    {
        self.game_phase = value;
    }

    /// The player count is kept in the active-bets field.
    pub fn set_total_players(&mut self, value: u64)
        ensures
            *final(self) == (GlobalGameState { total_active_bets: final(self).total_active_bets, ..*old(self) }),
            final(self).total_active_bets@ == spec_u64_to_le_bytes(value),
            final(self).total_active_bets_value() == value,
    {
        proof {
            crate::le_bytes::lemma_u64_roundtrip(value);
        }
        self.set_total_active_bets(value);
    }

    /// The player count is kept in the active-bets field.
    pub fn get_total_players(&self) -> (r: u64)
        ensures
            r == self.total_active_bets_value(),
    {
        self.get_total_active_bets()
    }

    /// The games-played count is kept in the game epoch.
    pub fn set_total_games_played(&mut self, value: u64)
        ensures
            *final(self) == (GlobalGameState { game_epoch: final(self).game_epoch, ..*old(self) }),
            final(self).game_epoch@ == spec_u64_to_le_bytes(value),
            final(self).game_epoch_value() == value,
    {
        proof {
            crate::le_bytes::lemma_u64_roundtrip(value);
        }
        self.set_game_epoch(value);
    }

    /// The account keeps no deposit total: nothing changes.
    pub fn set_total_deposited(&mut self, _value: u64)
        ensures
            *final(self) == *old(self),
    {
    }

    /// The account keeps no wager total: nothing changes.
    pub fn set_total_wagered(&mut self, _value: u64)
        ensures
            *final(self) == *old(self),
    {
    }

    /// The account keeps no payout total: nothing changes.
    pub fn set_total_paid_out(&mut self, _value: u64)
        ensures
            *final(self) == *old(self),
    {
    }

    /// The last-updated slot is kept in the next-roll slot.
    pub fn set_last_updated_slot(&mut self, value: u64)
        ensures
            *final(self) == (GlobalGameState { next_roll_slot: final(self).next_roll_slot, ..*old(self) }),
            final(self).next_roll_slot@ == spec_u64_to_le_bytes(value),
            final(self).next_roll_slot_value() == value,
    {
        proof {
            crate::le_bytes::lemma_u64_roundtrip(value);
        }
        self.set_next_roll_slot(value);
    }

    /// Enables or disables the secure randomness.
    pub fn set_secure_rng_enabled(&mut self, value: bool)
        ensures
            *final(self) == (GlobalGameState { use_secure_rng: if value { 1u8 } else { 0u8 }, ..*old(self) }),
    {
        self.use_secure_rng = if value { 1 } else { 0 };
    }

    /// Pauses or resumes the game.
    pub fn set_is_paused(&mut self, value: bool)
        ensures
            *final(self) == (GlobalGameState { paused: if value { 1u8 } else { 0u8 }, ..*old(self) }),
    {
        self.paused = if value { 1 } else { 0 };
    }

    /// The account keeps no emergency flag: nothing changes.
    pub fn set_is_emergency_shutdown(&mut self, _value: bool)
        ensures
            *final(self) == *old(self),
    {
    }

    /// The account keeps no auto-roll flag: nothing changes.
    pub fn set_auto_roll_enabled(&mut self, _value: bool)
        ensures
            *final(self) == *old(self),
    {
    }
}

} // verus!
