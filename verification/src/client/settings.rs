//! The client's settings and the states of its screens.
use vstd::prelude::*;

verus! {

/// The screen the client shows.
#[derive(Debug, Clone, Copy, PartialEq, Eq, Structural)]
pub enum AppMode {
    Dashboard,
    Betting,
    History,
    Statistics,
    Settings,
    Help,
}

/// The part of the betting screen in focus.
#[derive(Debug, Clone, Copy, PartialEq, Eq, Structural)]
pub enum BettingFocus {
    BetType,
    Amount,
    Confirm,
}

/// The kind of a message shown to the player.
#[derive(Debug, Clone, Copy, PartialEq, Eq, Structural)]
pub enum MessageType {
    Success,
    Error,
    Info,
    Warning,
}

/// The colours of the client.
#[derive(Debug, Clone, Copy, PartialEq, Eq, Structural)]
pub enum ColorScheme {
    Professional,
    HighContrast,
    Casino,
    Matrix,
}

/// Theme settings.
#[derive(Debug, Clone, Copy)]
pub struct ThemeConfig {
    pub color_scheme: ColorScheme,
    pub animations_enabled: bool,
    pub sound_enabled: bool,
}

/// Display settings.
#[derive(Debug, Clone, Copy)]
pub struct DisplayConfig {
    pub show_statistics_panel: bool,
    pub show_hot_numbers: bool,
    pub show_bet_history: bool,
    pub compact_mode: bool,
    /// 0..=10.
    pub dice_animation_speed: u8,
}

/// The keys bound to the main actions.
#[derive(Debug, Clone)]
pub struct HotkeyConfig {
    pub place_bet: String,
    pub repeat_last: String,
    pub double_bet: String,
    pub half_bet: String,
    pub max_bet: String,
    pub withdraw: String,
    pub statistics: String,
}

/// Advanced settings.
#[derive(Debug, Clone, Copy)]
pub struct AdvancedConfig {
    pub rpc_timeout_seconds: u64,
    pub auto_claim_wins: bool,
    pub bet_batch_size: u8,
    pub cache_duration_seconds: u64,
}

impl Default for ThemeConfig {
    /// The professional scheme, animations on, sound off.
    fn default() -> (r: Self)
        ensures
            r.color_scheme == ColorScheme::Professional,
            r.animations_enabled,
            !r.sound_enabled,
    {
        ThemeConfig { color_scheme: ColorScheme::Professional, animations_enabled: true, sound_enabled: false }
    }
}

impl Default for DisplayConfig {
    /// Every panel shown, the full layout, dice animated at middle speed.
    fn default() -> (r: Self)
        ensures
            r.show_statistics_panel,
            r.show_hot_numbers,
            r.show_bet_history,
            !r.compact_mode,
            r.dice_animation_speed == 5,
    {
        DisplayConfig {
            show_statistics_panel: true,
            show_hot_numbers: true,
            show_bet_history: true,
            compact_mode: false,
            dice_animation_speed: 5,
        }
    }
}

impl Default for HotkeyConfig {
    /// Enter places a bet; control with R, D, H, M, W and S repeats, doubles,
    /// halves, maxes, withdraws and shows the statistics.
    fn default() -> (r: Self)
        ensures
            r.place_bet@ == "Enter"@,
            r.repeat_last@ == "Ctrl+R"@,
            r.double_bet@ == "Ctrl+D"@,
            r.half_bet@ == "Ctrl+H"@,
            r.max_bet@ == "Ctrl+M"@,
            r.withdraw@ == "Ctrl+W"@,
            r.statistics@ == "Ctrl+S"@,
    {
        let place_bet = String::from_str("Enter");
        let repeat_last = String::from_str("Ctrl+R");
        let double_bet = String::from_str("Ctrl+D");
        let half_bet = String::from_str("Ctrl+H");
        let max_bet = String::from_str("Ctrl+M");
        let withdraw = String::from_str("Ctrl+W");
        let statistics = String::from_str("Ctrl+S");
        HotkeyConfig { place_bet, repeat_last, double_bet, half_bet, max_bet, withdraw, statistics }
    }
}

impl Default for AdvancedConfig {
    /// A 30 second timeout, wins claimed by themselves, batches of 16, a cache
    /// kept 5 seconds.
    fn default() -> (r: Self)
        ensures
            r.rpc_timeout_seconds == 30,
            r.auto_claim_wins,
            r.bet_batch_size == 16,
            r.cache_duration_seconds == 5,
    {
        AdvancedConfig { rpc_timeout_seconds: 30, auto_claim_wins: true, bet_batch_size: 16, cache_duration_seconds: 5 }
    }
}

} // verus!
