//! The player's side: the client's model of the game and the bets it offers, its
//! statistics, hotkeys, settings and screens, and the bytes it reads and sends.
pub mod game;
pub mod settings;
pub mod display;
pub mod stats;
pub mod hotkeys;
pub mod app;
pub mod rpc;
