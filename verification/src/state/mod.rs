//! The program's accounts: their byte layout and the accessors of their fields.
pub mod bet;
pub mod game;
pub mod player;
pub mod treasury;
pub mod rng;
pub mod bonus;
