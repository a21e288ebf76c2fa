//! The client's screens and how key presses move between them. What a key
//! asks of the outside (placing a bet, withdrawing, saving) comes back as a
//! command for the caller to carry out.
use vstd::prelude::*;
use vstd::string::StrSliceExecFns;
use crate::client::game::{BetType, GameState, shown_total};
use crate::client::hotkeys::{HotkeyManager, KeyCode, KeyEvent, KeyModifiers, MOD_CONTROL, default_bindings};
use crate::client::settings::{AppMode, BettingFocus, MessageType};
use crate::client::stats::{Statistics, profit_fits, session_after_bet, window_after};

verus! {

/// `String::push`: appends a character.
#[verifier::external_body]
fn push_char(s: &mut String, c: char)
    ensures
        final(s)@ == old(s)@.push(c),
{
    s.push(c);
}

/// `String::pop`: takes off the last character, if there is one.
#[verifier::external_body]
fn pop_char(s: &mut String) -> (r: Option<char>)
    ensures
        old(s)@.len() == 0 ==> r is None && final(s)@ == old(s)@,
        old(s)@.len() > 0 ==> r == Some(old(s)@.last()) && final(s)@ == old(s)@.drop_last(),
{
    s.pop()
}

/// Whether a string holds a given character.
fn holds_char(s: &String, c: char) -> (r: bool)
    ensures
        r == s@.contains(c),
{
    let text = s.as_str();
    let n = text.unicode_len();
    let mut i: usize = 0;
    while i < n
        invariant
            text@ == s@,
            n == s@.len(),
            i <= n,
            forall|j: int| 0 <= j < i ==> s@[j] != c,
        decreases n - i,
    {
        if text.get_char(i) == c {
            return true;
        }
        i += 1;
    }
    false
}

/// What a key press asks the caller to do.
#[derive(Debug, Clone, Copy, PartialEq, Eq, Structural)]
pub enum KeyCommand {
    /// Nothing beyond the change of screen.
    Nothing,
    /// Place the selected bet for the amount typed.
    PlaceBet,
    /// Place the last bet again.
    RepeatLastBet,
    /// Withdraw the winnings.
    Withdraw,
    /// Write the statistics out.
    ExportStatistics,
    /// Save the settings.
    SaveSettings,
}

/// The screen a tab press moves to.
pub open spec fn cycled_mode(mode: AppMode) -> AppMode {
    match mode {
        AppMode::Dashboard => AppMode::Betting,
        AppMode::Betting => AppMode::History,
        AppMode::History => AppMode::Statistics,
        AppMode::Statistics => AppMode::Settings,
        AppMode::Settings => AppMode::Dashboard,
        AppMode::Help => AppMode::Dashboard,
    }
}

/// Whether a character is a decimal digit.
pub open spec fn is_decimal_digit(c: char) -> bool {
    '0' <= c <= '9'
}

/// The value of a decimal digit.
pub open spec fn digit_value(c: char) -> int {
    c as int - '0' as int
}

/// The part of the client's state that key presses change: the screen, the
/// part of the betting screen in focus, whether a bet waits for confirmation,
/// the bet selected and the amount typed.
pub type ScreenState = (AppMode, BettingFocus, bool, BetType, Seq<char>);

/// A key press on the betting screen.
pub open spec fn betting_step(s: ScreenState, key: KeyEvent) -> (ScreenState, KeyCommand) {
    let (mode, focus, confirming, bet, amount) = s;
    let code = key.code;
    if confirming {
        if code == KeyCode::Char('y') || code == KeyCode::Char('Y') || code == KeyCode::Enter {
            ((mode, focus, false, bet, amount), KeyCommand::PlaceBet)
        } else if code == KeyCode::Char('n') || code == KeyCode::Char('N') || code == KeyCode::Esc {
            ((mode, focus, false, bet, amount), KeyCommand::Nothing)
        } else {
            (s, KeyCommand::Nothing)
        }
    } else {
        match focus {
            BettingFocus::BetType => {
                let picked: Option<BetType> = match code {
                    KeyCode::Char(c) => if c == 'p' {
                        Some(BetType::Pass)
                    } else if c == 'd' {
                        Some(BetType::DontPass)
                    } else if c == 'f' {
                        Some(BetType::Field)
                    } else if c == 'c' {
                        Some(BetType::Come)
                    } else if c == 'o' && key.modifiers.has(KeyModifiers { bits: MOD_CONTROL }) {
                        Some(BetType::Odds(Box::new(bet)))
                    } else if c == 'k' || c == 'j' || c == 'l' {
                        None
                    } else if is_decimal_digit(c) && digit_value(c) >= 2 {
                        Some(BetType::Number(digit_value(c) as u8))
                    } else {
                        None
                    },
                    _ => None,
                };
                if code == KeyCode::Right || code == KeyCode::Char('l') {
                    ((mode, BettingFocus::Amount, confirming, bet, amount), KeyCommand::Nothing)
                } else {
                    match picked {
                        Some(b) => ((mode, focus, confirming, b, amount), KeyCommand::Nothing),
                        None => (s, KeyCommand::Nothing),
                    }
                }
            },
            BettingFocus::Amount => {
                let typed: Seq<char> = match code {
                    KeyCode::Char(c) => if is_decimal_digit(c) {
                        amount.push(c)
                    } else if c == '.' && !amount.contains('.') {
                        amount.push('.')
                    } else {
                        amount
                    },
                    KeyCode::Backspace => if amount.len() > 0 { amount.drop_last() } else { amount },
                    KeyCode::F(n) => if n == 2 {
                        seq!['1', '0', '0']
                    } else if n == 3 {
                        seq!['5', '0', '0']
                    } else if n == 4 {
                        seq!['1', '0', '0', '0']
                    } else if n == 5 {
                        seq!['5', '0', '0', '0']
                    } else {
                        amount
                    },
                    _ => amount,
                };
                if code == KeyCode::Left || code == KeyCode::Char('h') {
                    ((mode, BettingFocus::BetType, confirming, bet, amount), KeyCommand::Nothing)
                } else if code == KeyCode::Right || code == KeyCode::Char('l') || code == KeyCode::Enter {
                    ((mode, focus, true, bet, amount), KeyCommand::Nothing)
                } else {
                    ((mode, focus, confirming, bet, typed), KeyCommand::Nothing)
                }
            },
            BettingFocus::Confirm => (s, KeyCommand::Nothing),
        }
    }
}

/// A key press on the dashboard.
pub open spec fn dashboard_step(s: ScreenState, key: KeyEvent) -> (ScreenState, KeyCommand) {
    let (mode, focus, confirming, bet, amount) = s;
    let code = key.code;
    if code == KeyCode::Char('b') || code == KeyCode::Char('B') {
        ((AppMode::Betting, focus, confirming, bet, amount), KeyCommand::Nothing)
    } else if code == KeyCode::Char('h') || code == KeyCode::Char('H') {
        ((AppMode::History, focus, confirming, bet, amount), KeyCommand::Nothing)
    } else if code == KeyCode::Char('s') || code == KeyCode::Char('S') {
        ((AppMode::Statistics, focus, confirming, bet, amount), KeyCommand::Nothing)
    } else if code == KeyCode::Char('c') || code == KeyCode::Char('C') {
        ((AppMode::Settings, focus, confirming, bet, amount), KeyCommand::Nothing)
    } else if (code == KeyCode::Char('r') || code == KeyCode::Char('R')) && key.modifiers.has(
        KeyModifiers { bits: MOD_CONTROL },
    ) {
        (s, KeyCommand::RepeatLastBet)
    } else if code == KeyCode::Char('w') || code == KeyCode::Char('W') {
        (s, KeyCommand::Withdraw)
    } else {
        (s, KeyCommand::Nothing)
    }
}

/// What a key press does to the screens: escape goes back to the dashboard
/// (closing any confirmation), F1 opens the help, tab moves on to the next
/// screen; any other key is the current screen's.
pub open spec fn next_screen(s: ScreenState, key: KeyEvent) -> (ScreenState, KeyCommand) {
    let (mode, focus, confirming, bet, amount) = s;
    let code = key.code;
    if code == KeyCode::Esc {
        ((AppMode::Dashboard, focus, false, bet, amount), KeyCommand::Nothing)
    } else if code == KeyCode::F(1) {
        ((AppMode::Help, focus, confirming, bet, amount), KeyCommand::Nothing)
    } else if code == KeyCode::Tab {
        ((cycled_mode(mode), focus, confirming, bet, amount), KeyCommand::Nothing)
    } else {
        match mode {
            AppMode::Dashboard => dashboard_step(s, key),
            AppMode::Betting => betting_step(s, key),
            AppMode::Statistics => if code == KeyCode::Char('e') || code == KeyCode::Char('E') {
                (s, KeyCommand::ExportStatistics)
            } else {
                (s, KeyCommand::Nothing)
            },
            AppMode::Settings => if code == KeyCode::Char('s') || code == KeyCode::Char('S') {
                (s, KeyCommand::SaveSettings)
            } else {
                (s, KeyCommand::Nothing)
            },
            _ => (s, KeyCommand::Nothing),
        }
    }
}

/// The number of decimal points in an amount typed.
pub open spec fn points_in(s: Seq<char>) -> nat
    decreases s.len(),
{
    if s.len() == 0 {
        0
    } else {
        points_in(s.drop_last()) + if s.last() == '.' { 1nat } else { 0nat }
    }
}

proof fn lemma_points_push(s: Seq<char>, c: char)
    ensures
        points_in(s.push(c)) == points_in(s) + if c == '.' { 1nat } else { 0nat },
{
    assert(s.push(c).drop_last() =~= s);
}

proof fn lemma_no_point(s: Seq<char>)
    requires
        !s.contains('.'),
    ensures
        points_in(s) == 0,
    decreases s.len(),
{
    if s.len() > 0 {
        assert(!s.drop_last().contains('.')) by {
            if s.drop_last().contains('.') {
                let i = choose|i: int| 0 <= i < s.drop_last().len() && s.drop_last()[i] == '.';
                assert(s[i] == '.');
            }
        }
        lemma_no_point(s.drop_last());
        assert(s.last() == s[s.len() - 1]);
    }
}

/// An amount typed never holds more than one decimal point: no key press
/// takes it past one.
pub proof fn lemma_amount_keeps_one_point(s: ScreenState, key: KeyEvent)
    requires
        points_in(s.4) <= 1,
    ensures
        points_in(next_screen(s, key).0.4) <= 1,
{
    let amount = s.4;
    if amount.len() > 0 {
        assert(amount.drop_last().push(amount.last()) =~= amount);
        lemma_points_push(amount.drop_last(), amount.last());
    }
    match key.code {
        KeyCode::Char(c) => {
            lemma_points_push(amount, c);
            if c == '.' && !amount.contains('.') {
                lemma_no_point(amount);
            }
        },
        _ => {},
    }
    reveal_with_fuel(points_in, 5);
}

/// Five presses of tab bring any of the five main screens back, and from the
/// help screen the first press goes to the dashboard.
pub proof fn lemma_tab_cycles_back(mode: AppMode)
    ensures
        mode != AppMode::Help ==> cycled_mode(cycled_mode(cycled_mode(cycled_mode(cycled_mode(mode))))) == mode,
        cycled_mode(AppMode::Help) == AppMode::Dashboard,
{
}

/// Escape, from any screen, goes back to the dashboard and closes a pending
/// confirmation, keeping the bet and the amount picked.
pub proof fn lemma_escape_goes_home(s: ScreenState, modifiers: KeyModifiers)
    ensures
        next_screen(s, KeyEvent { code: KeyCode::Esc, modifiers }) == (
            (AppMode::Dashboard, s.1, false, s.3, s.4),
            KeyCommand::Nothing,
        ),
{
}

/// Whether a key press asks for the statistics to take in the roll shown.
pub open spec fn asks_refresh(mode: AppMode, key: KeyEvent) -> bool {
    mode == AppMode::Statistics && (key.code == KeyCode::Char('r') || key.code == KeyCode::Char('R'))
}

/// A bet the player placed.
#[derive(Debug)]
pub struct PlacedBet {
    pub bet_type: BetType,
    pub amount: u64,
    pub epoch: u64,
    /// The signature of the transaction that placed it.
    pub signature: [u8; 64],
}

/// How a placed bet came out.
#[derive(Debug)]
pub struct BetOutcome {
    pub bet: PlacedBet,
    pub won: bool,
    pub payout: u64,
    pub claimed: bool,
}

/// The client: the screen shown, the game and statistics it keeps, and what
/// the player is picking.
pub struct App {
    pub mode: AppMode,
    pub game_state: GameState,
    pub statistics: Statistics,
    pub hotkey_manager: HotkeyManager,
    pub selected_bet_type: BetType,
    pub bet_amount: String,
    pub betting_focus: BettingFocus,
    pub message: Option<(String, MessageType)>,
    pub show_confirm_dialog: bool,
    pub active_bets: Vec<PlacedBet>,
    pub bet_history: Vec<BetOutcome>,
    pub quick_bets: Vec<u64>,
    pub last_bets: Vec<PlacedBet>,
}

/// Whether two clients differ at most in the parts key presses change.
pub open spec fn same_but_screen(a: App, b: App) -> bool {
    &&& a.game_state == b.game_state
    &&& a.hotkey_manager == b.hotkey_manager
    &&& a.message == b.message
    &&& a.active_bets == b.active_bets
    &&& a.bet_history == b.bet_history
    &&& a.quick_bets == b.quick_bets
    &&& a.last_bets == b.last_bets
}

impl App {
    /// The part of the client that key presses change.
    pub open spec fn screen(self) -> ScreenState {
        (self.mode, self.betting_focus, self.show_confirm_dialog, self.selected_bet_type, self.bet_amount@)
    }

    /// A client on the dashboard, the pass line selected for 100, nothing placed.
    pub fn new(game_state: GameState, statistics: Statistics) -> (r: Self)
        ensures
            r.mode == AppMode::Dashboard,
            r.game_state == game_state,
            r.statistics == statistics,
            r.hotkey_manager@ == default_bindings(),
            r.selected_bet_type == BetType::Pass,
            r.bet_amount@ == seq!['1', '0', '0'],
            r.betting_focus == BettingFocus::BetType,
            r.message is None,
            !r.show_confirm_dialog,
            r.active_bets@.len() == 0,
            r.bet_history@.len() == 0,
            r.quick_bets@ == seq![100u64, 500, 1000, 5000, 10000],
            r.last_bets@.len() == 0,
    {
        let amount = String::from_str("100");
        proof {
            reveal_strlit("100");
        }
        App {
            mode: AppMode::Dashboard,
            game_state,
            statistics,
            hotkey_manager: HotkeyManager::default(),
            selected_bet_type: BetType::Pass,
            bet_amount: amount,
            betting_focus: BettingFocus::BetType,
            message: None,
            show_confirm_dialog: false,
            active_bets: Vec::new(),
            bet_history: Vec::new(),
            quick_bets: vec![100, 500, 1000, 5000, 10000],
            last_bets: Vec::new(),
        }
    }

    /// Whether the client may close.
    pub fn should_quit(&self) -> (r: bool)
        ensures
            r,
    {
        true
    }

    /// Moves on to the next screen.
    fn cycle_mode(&mut self)
        ensures
            final(self).mode == cycled_mode(old(self).mode),
            final(self).betting_focus == old(self).betting_focus,
            final(self).show_confirm_dialog == old(self).show_confirm_dialog,
            final(self).selected_bet_type == old(self).selected_bet_type,
            final(self).bet_amount == old(self).bet_amount,
            final(self).statistics == old(self).statistics,
            same_but_screen(*final(self), *old(self)),
    {
        self.mode = match self.mode {
            AppMode::Dashboard => AppMode::Betting,
            AppMode::Betting => AppMode::History,
            AppMode::History => AppMode::Statistics,
            AppMode::Statistics => AppMode::Settings,
            AppMode::Settings => AppMode::Dashboard,
            AppMode::Help => AppMode::Dashboard,
        };
    }

    /// Handles a key press: changes the screen as `next_screen` says, takes in
    /// the roll shown where the statistics screen asks for it, and returns what
    /// is left for the caller to do.
    pub fn on_key(&mut self, key: KeyEvent) -> (r: KeyCommand)
        requires
            asks_refresh(old(self).mode, key) ==> (shown_total(old(self).game_state) matches Some(t) ==> t <= u8::MAX
                && (old(self).statistics.hot_numbers.rolls@.contains_key(t as u8)
                ==> old(self).statistics.hot_numbers.rolls@[t as u8] < u32::MAX)),
        ensures
            (final(self).screen(), r) == next_screen(old(self).screen(), key),
            same_but_screen(*final(self), *old(self)),
            !asks_refresh(old(self).mode, key) ==> final(self).statistics == old(self).statistics,
            asks_refresh(old(self).mode, key) ==> match shown_total(old(self).game_state) {
                Some(t) => {
                    &&& final(self).statistics.hot_numbers.rolls@ == old(self).statistics.hot_numbers.rolls@.insert(
                        t as u8,
                        (if old(self).statistics.hot_numbers.rolls@.contains_key(t as u8) {
                            old(self).statistics.hot_numbers.rolls@[t as u8] + 1
                        } else {
                            1
                        }) as u32,
                    )
                    &&& final(self).statistics.hot_numbers.last_100@ == window_after(
                        old(self).statistics.hot_numbers.last_100@,
                        t as u8,
                    )
                },
                None => final(self).statistics == old(self).statistics,
            },
    {
        match key.code {
            KeyCode::Esc => {
                self.mode = AppMode::Dashboard;
                self.show_confirm_dialog = false;
                return KeyCommand::Nothing;
            },
            KeyCode::F(1) => {
                self.mode = AppMode::Help;
                return KeyCommand::Nothing;
            },
            KeyCode::Tab => {
                self.cycle_mode();
                return KeyCommand::Nothing;
            },
            _ => {},
        }
        match self.mode {
            AppMode::Dashboard => self.handle_dashboard_keys(key),
            AppMode::Betting => self.handle_betting_keys(key),
            AppMode::History => KeyCommand::Nothing,
            AppMode::Statistics => self.handle_statistics_keys(key),
            AppMode::Settings => Self::handle_settings_keys(key),
            AppMode::Help => KeyCommand::Nothing,
        }
    }

    /// A key press on the dashboard.
    fn handle_dashboard_keys(&mut self, key: KeyEvent) -> (r: KeyCommand)
        requires
            old(self).mode == AppMode::Dashboard,
            key.code != KeyCode::Esc && key.code != KeyCode::F(1) && key.code != KeyCode::Tab,
        ensures
            (final(self).screen(), r) == dashboard_step(old(self).screen(), key),
            same_but_screen(*final(self), *old(self)),
            final(self).statistics == old(self).statistics,
    {
        match key.code {
            KeyCode::Char('b') | KeyCode::Char('B') => {
                self.mode = AppMode::Betting;
                KeyCommand::Nothing
            },
            KeyCode::Char('h') | KeyCode::Char('H') => {
                self.mode = AppMode::History;
                KeyCommand::Nothing
            },
            KeyCode::Char('s') | KeyCode::Char('S') => {
                self.mode = AppMode::Statistics;
                KeyCommand::Nothing
            },
            KeyCode::Char('c') | KeyCode::Char('C') => {
                self.mode = AppMode::Settings;
                KeyCommand::Nothing
            },
            KeyCode::Char('r') | KeyCode::Char('R') => {
                if key.modifiers.contains(KeyModifiers { bits: MOD_CONTROL }) {
                    KeyCommand::RepeatLastBet
                } else {
                    KeyCommand::Nothing
                }
            },
            KeyCode::Char('w') | KeyCode::Char('W') => KeyCommand::Withdraw,
            _ => KeyCommand::Nothing,
        }
    }

    /// A key press on the statistics screen.
    fn handle_statistics_keys(&mut self, key: KeyEvent) -> (r: KeyCommand)
        requires
            old(self).mode == AppMode::Statistics,
            asks_refresh(old(self).mode, key) ==> (shown_total(old(self).game_state) matches Some(t) ==> t <= u8::MAX
                && (old(self).statistics.hot_numbers.rolls@.contains_key(t as u8)
                ==> old(self).statistics.hot_numbers.rolls@[t as u8] < u32::MAX)),
        ensures
            final(self).screen() == old(self).screen(),
            r == (if key.code == KeyCode::Char('e') || key.code == KeyCode::Char('E') {
                KeyCommand::ExportStatistics
            } else {
                KeyCommand::Nothing
            }),
            same_but_screen(*final(self), *old(self)),
            !asks_refresh(old(self).mode, key) ==> final(self).statistics == old(self).statistics,
            asks_refresh(old(self).mode, key) ==> match shown_total(old(self).game_state) {
                Some(t) => {
                    &&& final(self).statistics.hot_numbers.rolls@ == old(self).statistics.hot_numbers.rolls@.insert(
                        t as u8,
                        (if old(self).statistics.hot_numbers.rolls@.contains_key(t as u8) {
                            old(self).statistics.hot_numbers.rolls@[t as u8] + 1
                        } else {
                            1
                        }) as u32,
                    )
                    &&& final(self).statistics.hot_numbers.last_100@ == window_after(
                        old(self).statistics.hot_numbers.last_100@,
                        t as u8,
                    )
                },
                None => final(self).statistics == old(self).statistics,
            },
    {
        match key.code {
            KeyCode::Char('r') | KeyCode::Char('R') => {
                self.statistics.refresh(&self.game_state);
                KeyCommand::Nothing
            },
            KeyCode::Char('e') | KeyCode::Char('E') => KeyCommand::ExportStatistics,
            _ => KeyCommand::Nothing,
        }
    }
    /// A key press on the betting screen.
    fn handle_betting_keys(&mut self, key: KeyEvent) -> (r: KeyCommand)
        requires
            old(self).mode == AppMode::Betting,
            key.code != KeyCode::Esc && key.code != KeyCode::F(1) && key.code != KeyCode::Tab,
        ensures
            (final(self).screen(), r) == betting_step(old(self).screen(), key),
            same_but_screen(*final(self), *old(self)),
            final(self).statistics == old(self).statistics,
    {
        if self.show_confirm_dialog {
            match key.code {
                KeyCode::Char('y') | KeyCode::Char('Y') | KeyCode::Enter => {
                    self.show_confirm_dialog = false;
                    return KeyCommand::PlaceBet;
                },
                KeyCode::Char('n') | KeyCode::Char('N') | KeyCode::Esc => {
                    self.show_confirm_dialog = false;
                },
                _ => {},
            }
            return KeyCommand::Nothing;
        }
        match self.betting_focus {
            BettingFocus::BetType => self.handle_bet_type_keys(key),
            BettingFocus::Amount => self.handle_amount_keys(key),
            BettingFocus::Confirm => {},
        }
        KeyCommand::Nothing
    }
    /// A key press while the kind of bet is in focus.
    fn handle_bet_type_keys(&mut self, key: KeyEvent)
        requires
            old(self).mode == AppMode::Betting,
            !old(self).show_confirm_dialog,
            old(self).betting_focus == BettingFocus::BetType,
        ensures
            (final(self).screen(), KeyCommand::Nothing) == betting_step(old(self).screen(), key),
            same_but_screen(*final(self), *old(self)),
            final(self).statistics == old(self).statistics,
    {
        let picked: Option<BetType> = match key.code {
            KeyCode::Char('p') => Some(BetType::Pass),
            KeyCode::Char('d') => Some(BetType::DontPass),
            KeyCode::Char('f') => Some(BetType::Field),
            KeyCode::Char('c') => Some(BetType::Come),
            KeyCode::Char('o') if key.modifiers.contains(KeyModifiers { bits: MOD_CONTROL }) => {
                Some(BetType::Odds(Box::new(self.selected_bet_type.cloned())))
            },
            KeyCode::Up | KeyCode::Char('k') => None,
            KeyCode::Down | KeyCode::Char('j') => None,
            KeyCode::Right | KeyCode::Char('l') => {
                self.betting_focus = BettingFocus::Amount;
                None
            },
            KeyCode::Char(c) if '0' <= c && c <= '9' => {
                let num: u8 = (c as u32 - '0' as u32) as u8;
                if num >= 2 {
                    Some(BetType::Number(num))
                } else {
                    None
                }
            },
            _ => None,
        };
        if let Some(b) = picked {
            self.selected_bet_type = b;
        }
    }

    /// A key press while the amount is in focus.
    fn handle_amount_keys(&mut self, key: KeyEvent)
        requires
            old(self).mode == AppMode::Betting,
            !old(self).show_confirm_dialog,
            old(self).betting_focus == BettingFocus::Amount,
        ensures
            (final(self).screen(), KeyCommand::Nothing) == betting_step(old(self).screen(), key),
            same_but_screen(*final(self), *old(self)),
            final(self).statistics == old(self).statistics,
    {
        match key.code {
            KeyCode::Char(c) if '0' <= c && c <= '9' => {
                push_char(&mut self.bet_amount, c);
            },
            KeyCode::Backspace => {
                pop_char(&mut self.bet_amount);
            },
            KeyCode::Char('.') => {
                if !holds_char(&self.bet_amount, '.') {
                    push_char(&mut self.bet_amount, '.');
                }
            },
            KeyCode::F(2) => {
                self.bet_amount = String::from_str("100");
                proof {
                    reveal_strlit("100");
                }
            },
            KeyCode::F(3) => {
                self.bet_amount = String::from_str("500");
                proof {
                    reveal_strlit("500");
                }
            },
            KeyCode::F(4) => {
                self.bet_amount = String::from_str("1000");
                proof {
                    reveal_strlit("1000");
                }
            },
            KeyCode::F(5) => {
                self.bet_amount = String::from_str("5000");
                proof {
                    reveal_strlit("5000");
                }
            },
            KeyCode::Left | KeyCode::Char('h') => {
                self.betting_focus = BettingFocus::BetType;
            },
            KeyCode::Right | KeyCode::Char('l') | KeyCode::Enter => {
                self.show_confirm_dialog = true;
            },
            _ => {},
        }
    }
    /// A key press on the settings screen: `s` asks for the settings to be saved.
    fn handle_settings_keys(key: KeyEvent) -> (r: KeyCommand)
        ensures
            r == (if key.code == KeyCode::Char('s') || key.code == KeyCode::Char('S') {
                KeyCommand::SaveSettings
            } else {
                KeyCommand::Nothing
            }),
    {
        match key.code {
            KeyCode::Char('s') | KeyCode::Char('S') => KeyCommand::SaveSettings,
            _ => KeyCommand::Nothing,
        }
    }
    /// Shows a message.
    pub fn set_message(&mut self, msg: &str, msg_type: MessageType)
        ensures
            final(self).message matches Some((m, t)) && m@ == msg@ && t == msg_type,
            *final(self) == (App { message: final(self).message, ..*old(self) }),
    {
        self.message = Some((String::from_str(msg), msg_type));
    }

    /// Books a bet the program took: it becomes the last bet placed, counts in
    /// the statistics, and the player is told it went through.
    pub fn record_placed_bet(&mut self, amount: u64, signature: [u8; 64])
        requires
            old(self).statistics.current_session.bets_placed < u32::MAX,
            old(self).statistics.current_session.total_wagered + amount <= u64::MAX,
            old(self).statistics.lifetime.total_bets < u64::MAX,
            old(self).statistics.lifetime.total_wagered + amount <= u64::MAX,
            profit_fits(old(self).statistics),
        ensures
            final(self).last_bets@.len() == old(self).last_bets@.len() + 1,
            final(self).last_bets@.drop_last() == old(self).last_bets@,
            final(self).last_bets@.last() == (PlacedBet {
                bet_type: old(self).selected_bet_type,
                amount,
                epoch: old(self).game_state.epoch,
                signature,
            }),
            final(self).statistics.current_session == session_after_bet(old(self).statistics.current_session, amount),
            final(self).statistics.lifetime.total_bets == old(self).statistics.lifetime.total_bets + 1,
            final(self).statistics.lifetime.total_wagered == old(self).statistics.lifetime.total_wagered + amount,
            final(self).message matches Some((m, t)) && m@ == "Bet placed successfully"@ && t == MessageType::Success,
            final(self).screen() == old(self).screen(),
            final(self).game_state == old(self).game_state,
    {
        self.last_bets.push(PlacedBet {
            bet_type: self.selected_bet_type.cloned(),
            amount,
            epoch: self.game_state.epoch,
            signature,
        });
        self.statistics.record_bet(amount);
        self.set_message("Bet placed successfully", MessageType::Success);
    }

    /// Takes in the game as last fetched; says whether a new epoch began, in
    /// which case the previous epoch's wins are due.
    pub fn take_game_state(&mut self, new_state: GameState) -> (r: bool)
        ensures
            r == (new_state.epoch != old(self).game_state.epoch),
            final(self).game_state == new_state,
            final(self).screen() == old(self).screen(),
            final(self).statistics == old(self).statistics,
            final(self).message == old(self).message,
            final(self).last_bets == old(self).last_bets,
    {
        let new_epoch = new_state.epoch != self.game_state.epoch;
        self.game_state = new_state;
        new_epoch
    }
    /// Picks the last bet placed again: its kind becomes the selected bet and
    /// its amount is returned for the caller to type in and place. With no bet
    /// placed yet, the player is warned and nothing is picked.
    pub fn repeat_last_bet(&mut self) -> (r: Option<u64>)
        ensures
            old(self).last_bets@.len() == 0 ==> {
                &&& r is None
                &&& final(self).message matches Some((m, t)) && m@ == "No previous bet to repeat"@ && t == MessageType::Warning
                &&& final(self).selected_bet_type == old(self).selected_bet_type
            },
            old(self).last_bets@.len() > 0 ==> {
                &&& r == Some(old(self).last_bets@.last().amount)
                &&& final(self).selected_bet_type == old(self).last_bets@.last().bet_type
                &&& final(self).message == old(self).message
            },
            final(self).mode == old(self).mode,
            final(self).betting_focus == old(self).betting_focus,
            final(self).show_confirm_dialog == old(self).show_confirm_dialog,
            final(self).bet_amount == old(self).bet_amount,
            final(self).statistics == old(self).statistics,
            final(self).game_state == old(self).game_state,
            final(self).last_bets == old(self).last_bets,
    {
        let n = self.last_bets.len();
        if n == 0 {
            self.set_message("No previous bet to repeat", MessageType::Warning);
            return None;
        }
        let bet_type = self.last_bets[n - 1].bet_type.cloned();
        let amount = self.last_bets[n - 1].amount;
        self.selected_bet_type = bet_type;
        Some(amount)
    }
}

} // verus!
