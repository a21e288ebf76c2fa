use craps_pinocchio::client::app::{App, KeyCommand};
use craps_pinocchio::client::game::{BetType, GamePhase, GameState};
use craps_pinocchio::client::hotkeys::{
    format_hotkey, key_number, key_of_number, Action, HotkeyManager, KeyCode, KeyEvent, KeyModifiers,
    MOD_ALT, MOD_CONTROL, MOD_NONE, MOD_SHIFT,
};
use craps_pinocchio::client::rpc::{
    claim_instruction_data, game_state_from_account_data, place_bet_instruction_data,
    player_balance_from_account_data, RpcDataError,
};
use craps_pinocchio::client::settings::{
    AdvancedConfig, AppMode, BettingFocus, ColorScheme, DisplayConfig, HotkeyConfig, ThemeConfig,
};
use craps_pinocchio::client::stats::{to_i64, Session, Statistics};

fn key(code: KeyCode) -> KeyEvent {
    KeyEvent { code, modifiers: KeyModifiers { bits: MOD_NONE } }
}

fn ctrl(code: KeyCode) -> KeyEvent {
    KeyEvent { code, modifiers: KeyModifiers { bits: MOD_CONTROL } }
}

fn table() -> GameState {
    let mut g = GameState::new();
    g.die1 = Some(3);
    g.die2 = Some(4);
    g
}

#[test]
fn session_tally() {
    let mut st = Statistics::new([7u8; 32]);
    st.record_bet(100);
    st.record_bet(250);
    assert_eq!(st.current_session.bets_placed, 2);
    assert_eq!(st.current_session.total_wagered, 350);
    assert_eq!(st.current_session.largest_bet, 250);
    assert_eq!(st.lifetime.total_bets, 2);
    assert_eq!(st.lifetime.total_wagered, 350);
    st.record_win(500);
    st.record_win(100);
    assert_eq!(st.current_session.bets_won, 2);
    assert_eq!(st.current_session.total_won, 600);
    assert_eq!(st.current_session.largest_win, 500);
    assert_eq!(st.current_session.current_streak, 2);
    assert_eq!(st.current_session.longest_win_streak, 2);
    assert_eq!(st.get_profit(), 250);
    st.record_loss();
    assert_eq!(st.current_session.current_streak, -1);
    assert_eq!(st.current_session.longest_loss_streak, 0);
    st.record_loss();
    assert_eq!(st.current_session.current_streak, -2);
    assert_eq!(st.current_session.longest_loss_streak, 2);
    // A win after losses starts a run of one without touching the longest run.
    st.record_win(10);
    assert_eq!(st.current_session.current_streak, 1);
    assert_eq!(st.current_session.longest_win_streak, 2);
    assert_eq!(st.lifetime.total_wins, 3);
}

#[test]
fn withdrawals_stop_at_zero() {
    let mut st = Statistics::new([0u8; 32]);
    st.current_balance = 300;
    st.record_withdrawal(120);
    assert_eq!(st.current_balance, 180);
    st.record_withdrawal(1000);
    assert_eq!(st.current_balance, 0);
}

#[test]
fn sessions_close_with_their_profit() {
    let mut st = Statistics::new([1u8; 32]);
    st.current_balance = 500;
    st.end_session();
    assert_eq!(st.sessions.len(), 1);
    assert_eq!(st.sessions[0].ending_balance, Some(500));
    assert_eq!(st.sessions[0].starting_balance, 0);
    assert_eq!(st.lifetime.total_sessions, 1);
    assert_eq!(st.lifetime.best_session_profit, 500);
    assert_eq!(st.lifetime.worst_session_loss, 0);
    assert_eq!(st.current_session.starting_balance, 500);
    st.current_balance = 200;
    st.end_session();
    assert_eq!(st.lifetime.best_session_profit, 500);
    assert_eq!(st.lifetime.worst_session_loss, -300);
    // The lifetime profit runs from the first session's start.
    st.record_bet(1);
    assert_eq!(st.lifetime.total_profit, 200);
}

#[test]
fn reading_amounts_as_signed() {
    assert_eq!(to_i64(5), 5);
    assert_eq!(to_i64(u64::MAX), -1);
    assert_eq!(to_i64(1u64 << 63), i64::MIN);
    let s = Session::new(9);
    assert_eq!(s.starting_balance, 9);
    assert_eq!(s.ending_balance, None);
}

#[test]
fn rolls_and_hot_numbers() {
    let mut st = Statistics::new([2u8; 32]);
    for t in [8u8, 6, 8, 5, 8, 6] {
        st.record_roll(t);
    }
    assert_eq!(st.hot_numbers.rolls.get(&8), Some(&3));
    assert_eq!(st.hot_numbers.last_100, vec![8, 6, 8, 5, 8, 6]);
    let hot = st.get_hot_numbers(2);
    assert_eq!(hot, vec![(8, 3), (6, 2)]);
    let all = st.get_hot_numbers(10);
    assert_eq!(all, vec![(8, 3), (6, 2), (5, 1)]);
    assert!(st.get_hot_numbers(0).is_empty());
}

#[test]
fn recent_rolls_keep_the_last_hundred() {
    let mut st = Statistics::new([3u8; 32]);
    for i in 0..105u32 {
        st.record_roll((i % 11 + 2) as u8);
    }
    assert_eq!(st.hot_numbers.last_100.len(), 100);
    assert_eq!(st.hot_numbers.last_100[0], (5 % 11 + 2) as u8);
    assert_eq!(*st.hot_numbers.last_100.last().unwrap(), (104 % 11 + 2) as u8);
}

#[test]
fn refresh_counts_the_dice_shown() {
    let mut st = Statistics::new([4u8; 32]);
    st.refresh(&table());
    assert_eq!(st.hot_numbers.rolls.get(&7), Some(&1));
    st.refresh(&GameState::new());
    assert_eq!(st.hot_numbers.last_100, vec![7]);
}

#[test]
fn default_hotkeys() {
    let h = HotkeyManager::default();
    assert_eq!(h.get_action(key(KeyCode::Up)), Some(Action::NavigateUp));
    assert_eq!(h.get_action(key(KeyCode::Char('k'))), Some(Action::NavigateUp));
    // Later bindings replace earlier ones of the same key.
    assert_eq!(h.get_action(ctrl(KeyCode::Char('h'))), Some(Action::HalfBet));
    assert_eq!(h.get_action(key(KeyCode::Char('c'))), Some(Action::SelectCome));
    assert_eq!(h.get_action(key(KeyCode::Char('0'))), Some(Action::SelectNumber(10)));
    assert_eq!(h.get_action(key(KeyCode::Char('='))), Some(Action::SelectNumber(12)));
    assert_eq!(h.get_action(key(KeyCode::Char('7'))), None);
    assert_eq!(h.get_action(ctrl(KeyCode::Char('0'))), Some(Action::SelectHard(10)));
    assert_eq!(
        h.get_action(KeyEvent { code: KeyCode::Char('d'), modifiers: KeyModifiers { bits: MOD_ALT } }),
        Some(Action::Deposit)
    );
    assert_eq!(
        h.get_action(KeyEvent { code: KeyCode::Char('Q'), modifiers: KeyModifiers { bits: MOD_SHIFT } }),
        Some(Action::Quit)
    );
    assert_eq!(h.get_action(key(KeyCode::F(6))), Some(Action::QuickBet10000));
    assert_eq!(h.get_hotkey_for_action(Action::HalfBet), Some("Ctrl+H".to_string()));
    assert_eq!(h.get_hotkey_for_action(Action::SwitchToHistory), None);
    let help = h.get_hotkey_for_action(Action::ShowHelp).unwrap();
    assert!(help == "F1" || help == "?");
}

#[test]
fn customized_hotkeys() {
    let mut h = HotkeyManager::default();
    h.customize_binding(KeyCode::Char('x'), KeyModifiers { bits: MOD_CONTROL }, Action::Quit);
    assert_eq!(h.get_action(ctrl(KeyCode::Char('x'))), Some(Action::Quit));
    assert_eq!(h.get_action(key(KeyCode::Char('q'))), None);
    assert_eq!(h.get_hotkey_for_action(Action::Quit), Some("Ctrl+X".to_string()));
    // Taking a key from another action leaves that action its other keys.
    h.customize_binding(KeyCode::Up, KeyModifiers { bits: MOD_NONE }, Action::Withdraw);
    assert_eq!(h.get_action(key(KeyCode::Up)), Some(Action::Withdraw));
    assert_eq!(h.get_action(key(KeyCode::Char('k'))), Some(Action::NavigateUp));
    assert_eq!(h.get_action(ctrl(KeyCode::Char('w'))), None);
}

#[test]
fn hotkey_text() {
    assert_eq!(format_hotkey(KeyCode::Char('r'), KeyModifiers { bits: MOD_CONTROL }), "Ctrl+R");
    assert_eq!(
        format_hotkey(KeyCode::Char('d'), KeyModifiers { bits: MOD_CONTROL | MOD_ALT | MOD_SHIFT }),
        "Ctrl+Alt+Shift+D"
    );
    assert_eq!(format_hotkey(KeyCode::F(12), KeyModifiers { bits: MOD_NONE }), "F12");
    assert_eq!(format_hotkey(KeyCode::Left, KeyModifiers { bits: MOD_NONE }), "←");
    assert_eq!(format_hotkey(KeyCode::Backspace, KeyModifiers { bits: MOD_ALT }), "Alt+Backspace");
    assert_eq!(format_hotkey(KeyCode::Home, KeyModifiers { bits: MOD_NONE }), "?");
    assert_eq!(format_hotkey(KeyCode::Char('ß'), KeyModifiers { bits: MOD_NONE }), "SS");
}

#[test]
fn key_numbers_decode() {
    for (code, bits) in [
        (KeyCode::Char('a'), MOD_NONE),
        (KeyCode::Char('\u{10FFFF}'), MOD_CONTROL | MOD_SHIFT),
        (KeyCode::F(0), MOD_ALT),
        (KeyCode::KeypadBegin, 0xFF),
        (KeyCode::Media(7), MOD_NONE),
        (KeyCode::Modifier(255), MOD_NONE),
    ] {
        let m = KeyModifiers { bits };
        let n = key_number(code, m);
        assert_eq!(key_of_number(n), Some(KeyEvent { code, modifiers: m }));
    }
    assert_eq!(key_of_number(0xD800), None);
    assert_eq!(key_of_number(0x11_0117), None);
    assert_eq!(key_of_number(1u64 << 40), None);
}

#[test]
fn screens_follow_keys() {
    let mut app = App::new(table(), Statistics::new([5u8; 32]));
    assert_eq!(app.mode, AppMode::Dashboard);
    assert_eq!(app.bet_amount, "100");
    assert_eq!(app.quick_bets, vec![100, 500, 1000, 5000, 10000]);
    assert!(app.should_quit());
    assert_eq!(app.on_key(key(KeyCode::Char('b'))), KeyCommand::Nothing);
    assert_eq!(app.mode, AppMode::Betting);
    app.on_key(key(KeyCode::Char('d')));
    assert_eq!(app.selected_bet_type, BetType::DontPass);
    app.on_key(ctrl(KeyCode::Char('o')));
    assert_eq!(app.selected_bet_type, BetType::Odds(Box::new(BetType::DontPass)));
    app.on_key(key(KeyCode::Char('6')));
    assert_eq!(app.selected_bet_type, BetType::Number(6));
    app.on_key(key(KeyCode::Char('1')));
    assert_eq!(app.selected_bet_type, BetType::Number(6));
    app.on_key(key(KeyCode::Right));
    assert_eq!(app.betting_focus, BettingFocus::Amount);
    app.on_key(key(KeyCode::Char('5')));
    app.on_key(key(KeyCode::Char('.')));
    app.on_key(key(KeyCode::Char('2')));
    app.on_key(key(KeyCode::Char('.')));
    assert_eq!(app.bet_amount, "1005.2");
    app.on_key(key(KeyCode::Backspace));
    assert_eq!(app.bet_amount, "1005.");
    app.on_key(key(KeyCode::F(3)));
    assert_eq!(app.bet_amount, "500");
    app.on_key(key(KeyCode::Enter));
    assert!(app.show_confirm_dialog);
    assert_eq!(app.on_key(key(KeyCode::Char('y'))), KeyCommand::PlaceBet);
    assert!(!app.show_confirm_dialog);
    app.on_key(key(KeyCode::Char('h')));
    assert_eq!(app.betting_focus, BettingFocus::BetType);
    app.on_key(key(KeyCode::Esc));
    assert_eq!(app.mode, AppMode::Dashboard);
    assert_eq!(app.on_key(ctrl(KeyCode::Char('R'))), KeyCommand::RepeatLastBet);
    assert_eq!(app.on_key(key(KeyCode::Char('r'))), KeyCommand::Nothing);
    assert_eq!(app.on_key(key(KeyCode::Char('W'))), KeyCommand::Withdraw);
    app.on_key(key(KeyCode::Tab));
    app.on_key(key(KeyCode::Tab));
    app.on_key(key(KeyCode::Tab));
    assert_eq!(app.mode, AppMode::Statistics);
    assert_eq!(app.on_key(key(KeyCode::Char('r'))), KeyCommand::Nothing);
    assert_eq!(app.statistics.hot_numbers.rolls.get(&7), Some(&1));
    assert_eq!(app.on_key(key(KeyCode::Char('E'))), KeyCommand::ExportStatistics);
    app.on_key(key(KeyCode::Tab));
    assert_eq!(app.on_key(key(KeyCode::Char('s'))), KeyCommand::SaveSettings);
    app.on_key(key(KeyCode::F(1)));
    assert_eq!(app.mode, AppMode::Help);
    app.on_key(key(KeyCode::Tab));
    assert_eq!(app.mode, AppMode::Dashboard);
}

#[test]
fn confirmation_can_be_declined() {
    let mut app = App::new(GameState::new(), Statistics::new([6u8; 32]));
    app.on_key(key(KeyCode::Char('b')));
    app.on_key(key(KeyCode::Char('l')));
    app.on_key(key(KeyCode::Char('l')));
    assert!(app.show_confirm_dialog);
    assert_eq!(app.on_key(key(KeyCode::Char('N'))), KeyCommand::Nothing);
    assert!(!app.show_confirm_dialog);
    assert_eq!(app.mode, AppMode::Betting);
}

#[test]
fn reading_accounts() {
    let mut data = vec![0u8; 32];
    data[0..8].copy_from_slice(&42u64.to_le_bytes());
    data[9] = 2;
    data[10] = 5;
    data[11] = 7;
    data[12] = 1;
    let g = game_state_from_account_data(&data).unwrap();
    assert_eq!(g.epoch, 42);
    assert_eq!(g.die1, Some(2));
    assert_eq!(g.die2, Some(5));
    assert_eq!(g.point, Some(7));
    assert_eq!(g.phase, GamePhase::Point);
    data[11] = 0;
    data[12] = 0;
    let g = game_state_from_account_data(&data).unwrap();
    assert_eq!(g.point, None);
    assert_eq!(g.phase, GamePhase::ComeOut);
    assert_eq!(
        game_state_from_account_data(&data[..31]).unwrap_err(),
        RpcDataError::InvalidGameStateData
    );
    let mut player = vec![0u8; 40];
    player[32..40].copy_from_slice(&9_000u64.to_le_bytes());
    assert_eq!(player_balance_from_account_data(&player), 9_000);
    assert_eq!(player_balance_from_account_data(&player[..39]), 0);
}

#[test]
fn instruction_bytes() {
    let d = place_bet_instruction_data(3, &BetType::Hard8, 1_000);
    assert_eq!(d.len(), 33);
    assert_eq!(d[0], 8);
    assert_eq!(&d[1..9], &3u64.to_le_bytes());
    assert_eq!(d[9], 27);
    assert_eq!(&d[10..17], &[0u8; 7]);
    assert_eq!(&d[17..25], &1_000u64.to_le_bytes());
    assert_eq!(&d[25..33], &[0u8; 8]);
    let c = claim_instruction_data(77);
    assert_eq!(c.len(), 17);
    assert_eq!(c[0], 14);
    assert_eq!(&c[1..9], &77u64.to_le_bytes());
    assert_eq!(&c[9..], &[0u8; 8]);
}

#[test]
fn default_settings() {
    let t = ThemeConfig::default();
    assert_eq!(t.color_scheme, ColorScheme::Professional);
    assert!(t.animations_enabled && !t.sound_enabled);
    let d = DisplayConfig::default();
    assert_eq!(d.dice_animation_speed, 5);
    assert!(!d.compact_mode);
    let h = HotkeyConfig::default();
    assert_eq!(h.place_bet, "Enter");
    assert_eq!(h.statistics, "Ctrl+S");
    let a = AdvancedConfig::default();
    assert_eq!(a.rpc_timeout_seconds, 30);
    assert_eq!(a.bet_batch_size, 16);
    assert_eq!(a.cache_duration_seconds, 5);
    assert!(a.auto_claim_wins);
}

#[test]
fn placed_bets_are_booked() {
    let mut app = App::new(table(), Statistics::new([8u8; 32]));
    app.game_state.epoch = 12;
    app.selected_bet_type = BetType::Field;
    app.record_placed_bet(2_000, [9u8; 64]);
    assert_eq!(app.last_bets.len(), 1);
    assert_eq!(app.last_bets[0].bet_type, BetType::Field);
    assert_eq!(app.last_bets[0].amount, 2_000);
    assert_eq!(app.last_bets[0].epoch, 12);
    assert_eq!(app.last_bets[0].signature, [9u8; 64]);
    assert_eq!(app.statistics.current_session.bets_placed, 1);
    assert_eq!(app.statistics.lifetime.total_wagered, 2_000);
    let (msg, kind) = app.message.clone().unwrap();
    assert_eq!(msg, "Bet placed successfully");
    assert!(matches!(kind, craps_pinocchio::client::settings::MessageType::Success));
}

#[test]
fn new_epochs_are_noticed() {
    let mut app = App::new(GameState::new(), Statistics::new([9u8; 32]));
    let mut next = GameState::new();
    assert!(!app.take_game_state(GameState::new()));
    next.epoch = 1;
    assert!(app.take_game_state(next));
    assert_eq!(app.game_state.epoch, 1);
}

#[test]
fn repeating_the_last_bet() {
    let mut app = App::new(GameState::new(), Statistics::new([10u8; 32]));
    assert_eq!(app.repeat_last_bet(), None);
    let (msg, _) = app.message.clone().unwrap();
    assert_eq!(msg, "No previous bet to repeat");
    app.selected_bet_type = BetType::Hard4;
    app.record_placed_bet(700, [1u8; 64]);
    app.selected_bet_type = BetType::Pass;
    assert_eq!(app.repeat_last_bet(), Some(700));
    assert_eq!(app.selected_bet_type, BetType::Hard4);
}
