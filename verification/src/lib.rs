//! A verified core for an on-chain craps game: dice and bet rules, bet
//! encoding, payouts, account layouts and the state transitions of the
//! program's instructions, and the logic of the player's client.

pub mod le_bytes;
pub mod keys;

pub mod constants;
pub mod error;
pub mod bet_encoding;
pub mod dice;
pub mod validation;
pub mod state;
pub mod claim;
pub mod rng;
pub mod circuit_breaker;
pub mod events;
pub mod token;
pub mod instructions;
pub mod client;
pub mod address_info;
