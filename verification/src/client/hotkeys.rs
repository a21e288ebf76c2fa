//! Keys, and the hotkeys that bind them to the client's actions.
use vstd::prelude::*;
use std::collections::HashMap;
use crate::events::{decimal, push_decimal};
use vstd::std_specs::hash::spec_hash_map_iter;
use vstd::std_specs::iter::IteratorSpec;

verus! {

broadcast use vstd::std_specs::hash::group_hash_axioms;

/// A key of the keyboard.
#[derive(Debug, Clone, Copy, PartialEq, Eq, Structural)]
pub enum KeyCode {
    Backspace,
    Enter,
    Left,
    Right,
    Up,
    Down,
    Home,
    End,
    PageUp,
    PageDown,
    Tab,
    BackTab,
    Delete,
    Insert,
    F(u8),
    Char(char),
    Null,
    Esc,
    CapsLock,
    ScrollLock,
    NumLock,
    PrintScreen,
    Pause,
    Menu,
    KeypadBegin,
    /// A media key, by its number.
    Media(u8),
    /// A modifier key pressed on its own, by its number.
    Modifier(u8),
}

/// No modifier.
pub const MOD_NONE: u8 = 0;
/// The bit of the shift key.
pub const MOD_SHIFT: u8 = 0b0000_0001;
/// The bit of the control key.
pub const MOD_CONTROL: u8 = 0b0000_0010;
/// The bit of the alt key.
pub const MOD_ALT: u8 = 0b0000_0100;
/// The bit of the super key.
pub const MOD_SUPER: u8 = 0b0000_1000;
/// The bit of the hyper key.
pub const MOD_HYPER: u8 = 0b0001_0000;
/// The bit of the meta key.
pub const MOD_META: u8 = 0b0010_0000;

/// The modifier keys held with a key, one bit each.
#[derive(Debug, Clone, Copy, PartialEq, Eq, Structural)]
pub struct KeyModifiers {
    pub bits: u8,
}

impl KeyModifiers {
    /// Whether every modifier of `other` is held.
    pub open spec fn has(self, other: KeyModifiers) -> bool {
        self.bits & other.bits == other.bits
    }

    /// Whether every modifier of `other` is held.
    pub fn contains(&self, other: KeyModifiers) -> (r: bool)
        ensures
            r == self.has(other),
    {
        self.bits & other.bits == other.bits
    }
}

/// A key press: the key and the modifiers held with it.
#[derive(Debug, Clone, Copy, PartialEq, Eq, Structural)]
pub struct KeyEvent {
    pub code: KeyCode,
    pub modifiers: KeyModifiers,
}

/// The number that stands for a key: a character's code point; past the last
/// code point, the function keys, then the named keys, the media keys and the
/// modifier keys.
pub open spec fn code_id(code: KeyCode) -> u32 {
    match code {
        KeyCode::Char(c) => c as u32,
        KeyCode::F(n) => (0x11_0000 + n) as u32,
        KeyCode::Backspace => 0x11_0100,
        KeyCode::Enter => 0x11_0101,
        KeyCode::Left => 0x11_0102,
        KeyCode::Right => 0x11_0103,
        KeyCode::Up => 0x11_0104,
        KeyCode::Down => 0x11_0105,
        KeyCode::Home => 0x11_0106,
        KeyCode::End => 0x11_0107,
        KeyCode::PageUp => 0x11_0108,
        KeyCode::PageDown => 0x11_0109,
        KeyCode::Tab => 0x11_010a,
        KeyCode::BackTab => 0x11_010b,
        KeyCode::Delete => 0x11_010c,
        KeyCode::Insert => 0x11_010d,
        KeyCode::Null => 0x11_010e,
        KeyCode::Esc => 0x11_010f,
        KeyCode::CapsLock => 0x11_0110,
        KeyCode::ScrollLock => 0x11_0111,
        KeyCode::NumLock => 0x11_0112,
        KeyCode::PrintScreen => 0x11_0113,
        KeyCode::Pause => 0x11_0114,
        KeyCode::Menu => 0x11_0115,
        KeyCode::KeypadBegin => 0x11_0116,
        KeyCode::Media(n) => (0x11_0200 + n) as u32,
        KeyCode::Modifier(n) => (0x11_0300 + n) as u32,
    }
}

/// The number that stands for a key with its modifiers: the modifiers above
/// the key's number.
pub open spec fn key_id(code: KeyCode, modifiers: KeyModifiers) -> u64 {
    (modifiers.bits * 0x1_0000_0000 + code_id(code)) as u64
}

/// Different keys have different numbers.
pub proof fn lemma_key_id_injective(c1: KeyCode, m1: KeyModifiers, c2: KeyCode, m2: KeyModifiers)
    requires
        key_id(c1, m1) == key_id(c2, m2),
    ensures
        c1 == c2,
        m1 == m2,
{
    assert(code_id(c1) < 0x1_0000_0000);
    assert(code_id(c2) < 0x1_0000_0000);
    assert(m1.bits == m2.bits);
    assert(code_id(c1) == code_id(c2));
    match c1 {
        KeyCode::Char(a) => {
            match c2 {
                KeyCode::Char(b) => {
                    assert(a == b);
                },
                _ => {},
            }
        },
        _ => {},
    }
}

/// The number that stands for a key.
pub fn key_code_id(code: KeyCode) -> (r: u32)
    ensures
        r == code_id(code),
{
    match code {
        KeyCode::Char(c) => c as u32,
        KeyCode::F(n) => 0x11_0000 + n as u32,
        KeyCode::Backspace => 0x11_0100,
        KeyCode::Enter => 0x11_0101,
        KeyCode::Left => 0x11_0102,
        KeyCode::Right => 0x11_0103,
        KeyCode::Up => 0x11_0104,
        KeyCode::Down => 0x11_0105,
        KeyCode::Home => 0x11_0106,
        KeyCode::End => 0x11_0107,
        KeyCode::PageUp => 0x11_0108,
        KeyCode::PageDown => 0x11_0109,
        KeyCode::Tab => 0x11_010a,
        KeyCode::BackTab => 0x11_010b,
        KeyCode::Delete => 0x11_010c,
        KeyCode::Insert => 0x11_010d,
        KeyCode::Null => 0x11_010e,
        KeyCode::Esc => 0x11_010f,
        KeyCode::CapsLock => 0x11_0110,
        KeyCode::ScrollLock => 0x11_0111,
        KeyCode::NumLock => 0x11_0112,
        KeyCode::PrintScreen => 0x11_0113,
        KeyCode::Pause => 0x11_0114,
        KeyCode::Menu => 0x11_0115,
        KeyCode::KeypadBegin => 0x11_0116,
        KeyCode::Media(n) => 0x11_0200 + n as u32,
        KeyCode::Modifier(n) => 0x11_0300 + n as u32,
    }
}

/// The number that stands for a key with its modifiers.
pub fn key_number(code: KeyCode, modifiers: KeyModifiers) -> (r: u64)
    ensures
        r == key_id(code, modifiers),
{
    modifiers.bits as u64 * 0x1_0000_0000 + key_code_id(code) as u64
}

/// `char::from_u32`: the character with the code point `x`, or `None` where
/// `x` is no Unicode scalar value (a surrogate, or past 0x10FFFF).
#[verifier::external_body]
fn char_from_u32(x: u32) -> (r: Option<char>)
    ensures
        match r {
            Some(c) => c as u32 == x,
            None => (0xD800 <= x <= 0xDFFF) || x > 0x10FFFF,
        },
{
    char::from_u32(x)
}

/// The named key with the given place in the list of named keys.
fn named_key(i: u32) -> (r: Option<KeyCode>)
    ensures
        match r {
            Some(k) => code_id(k) == 0x11_0100 + i,
            None => i > 0x16,
        },
{
    match i {
        0 => Some(KeyCode::Backspace),
        1 => Some(KeyCode::Enter),
        2 => Some(KeyCode::Left),
        3 => Some(KeyCode::Right),
        4 => Some(KeyCode::Up),
        5 => Some(KeyCode::Down),
        6 => Some(KeyCode::Home),
        7 => Some(KeyCode::End),
        8 => Some(KeyCode::PageUp),
        9 => Some(KeyCode::PageDown),
        10 => Some(KeyCode::Tab),
        11 => Some(KeyCode::BackTab),
        12 => Some(KeyCode::Delete),
        13 => Some(KeyCode::Insert),
        14 => Some(KeyCode::Null),
        15 => Some(KeyCode::Esc),
        16 => Some(KeyCode::CapsLock),
        17 => Some(KeyCode::ScrollLock),
        18 => Some(KeyCode::NumLock),
        19 => Some(KeyCode::PrintScreen),
        20 => Some(KeyCode::Pause),
        21 => Some(KeyCode::Menu),
        22 => Some(KeyCode::KeypadBegin),
        _ => None,
    }
}

/// The key with its modifiers that a number stands for, if any.
pub fn key_of_number(id: u64) -> (r: Option<KeyEvent>)
    ensures
        r matches Some(k) ==> key_id(k.code, k.modifiers) == id,
        forall|c: KeyCode, m: KeyModifiers| #[trigger] key_id(c, m) == id ==> r == Some(KeyEvent { code: c, modifiers: m }),
{
    let high: u64 = id / 0x1_0000_0000;
    if high > 0xFF {
        return None;
    }
    let modifiers = KeyModifiers { bits: high as u8 };
    let code: u32 = (id % 0x1_0000_0000) as u32;
    assert(id == modifiers.bits * 0x1_0000_0000 + code);
    let key: Option<KeyCode> = if code < 0x11_0000 {
        match char_from_u32(code) {
            Some(c) => Some(KeyCode::Char(c)),
            None => None,
        }
    } else if code < 0x11_0100 {
        Some(KeyCode::F((code - 0x11_0000) as u8))
    } else if code < 0x11_0200 {
        named_key(code - 0x11_0100)
    } else if code < 0x11_0300 {
        Some(KeyCode::Media((code - 0x11_0200) as u8))
    } else if code < 0x11_0400 {
        Some(KeyCode::Modifier((code - 0x11_0300) as u8))
    } else {
        None
    };
    proof {
        assert forall|c: KeyCode, m: KeyModifiers| #[trigger] key_id(c, m) == id implies key == Some(c) && m == modifiers by {
            assert(code_id(c) < 0x1_0000_0000);
            assert(m.bits == modifiers.bits);
            assert(code_id(c) == code);
            if let Some(k) = key {
                assert(code_id(k) == code);
                lemma_key_id_injective(c, m, k, modifiers);
            }
        }
    }
    match key {
        Some(k) => Some(KeyEvent { code: k, modifiers }),
        None => None,
    }
}

/// What `char::to_uppercase` gives for a character.
pub uninterp spec fn uppercase_of(c: char) -> Seq<char>;

/// `char::to_uppercase`, written out: the uppercase form of `c`, one or more
/// characters (`c` itself where it has none). Unicode's case tables decide it;
/// they are not restated here, only named.
#[verifier::external_body]
fn uppercase_text(c: char) -> (r: String)
    ensures
        r@ == uppercase_of(c),
{
    c.to_uppercase().to_string()
}

/// How a key is shown: a character in upper case, a function key as `F` and
/// its number, arrows as arrows, a few keys by name, any other as `?`.
pub open spec fn key_text(code: KeyCode) -> Seq<char> {
    match code {
        KeyCode::Char(c) => uppercase_of(c),
        KeyCode::F(n) => seq!['F'] + decimal(n as nat),
        KeyCode::Up => seq!['↑'],
        KeyCode::Down => seq!['↓'],
        KeyCode::Left => seq!['←'],
        KeyCode::Right => seq!['→'],
        KeyCode::Enter => seq!['E', 'n', 't', 'e', 'r'],
        KeyCode::Esc => seq!['E', 's', 'c'],
        KeyCode::Tab => seq!['T', 'a', 'b'],
        KeyCode::Backspace => seq!['B', 'a', 'c', 'k', 's', 'p', 'a', 'c', 'e'],
        _ => seq!['?'],
    }
}

/// How a hotkey is shown: `Ctrl+`, `Alt+` and `Shift+` for the modifiers held,
/// in that order, then the key.
pub open spec fn hotkey_text(code: KeyCode, modifiers: KeyModifiers) -> Seq<char> {
    (if modifiers.has(KeyModifiers { bits: MOD_CONTROL }) { seq!['C', 't', 'r', 'l', '+'] } else { Seq::empty() })
        + (if modifiers.has(KeyModifiers { bits: MOD_ALT }) { seq!['A', 'l', 't', '+'] } else { Seq::empty() })
        + (if modifiers.has(KeyModifiers { bits: MOD_SHIFT }) { seq!['S', 'h', 'i', 'f', 't', '+'] } else { Seq::empty() })
        + key_text(code)
}

/// Shows a key.
fn key_label(code: KeyCode) -> (r: String)
    ensures
        r@ == key_text(code),
{
    match code {
        KeyCode::Char(c) => uppercase_text(c),
        KeyCode::F(n) => {
            let mut s = String::from_str("F");
            proof {
                reveal_strlit("F");
            }
            push_decimal(&mut s, n);
            s
        },
        KeyCode::Up => {
            let s = String::from_str("↑");
            proof {
                reveal_strlit("↑");
            }
            s
        },
        KeyCode::Down => {
            let s = String::from_str("↓");
            proof {
                reveal_strlit("↓");
            }
            s
        },
        KeyCode::Left => {
            let s = String::from_str("←");
            proof {
                reveal_strlit("←");
            }
            s
        },
        KeyCode::Right => {
            let s = String::from_str("→");
            proof {
                reveal_strlit("→");
            }
            s
        },
        KeyCode::Enter => {
            let s = String::from_str("Enter");
            proof {
                reveal_strlit("Enter");
            }
            s
        },
        KeyCode::Esc => {
            let s = String::from_str("Esc");
            proof {
                reveal_strlit("Esc");
            }
            s
        },
        KeyCode::Tab => {
            let s = String::from_str("Tab");
            proof {
                reveal_strlit("Tab");
            }
            s
        },
        KeyCode::Backspace => {
            let s = String::from_str("Backspace");
            proof {
                reveal_strlit("Backspace");
            }
            s
        },
        _ => {
            let s = String::from_str("?");
            proof {
                reveal_strlit("?");
            }
            s
        },
    }
}

/// Shows a hotkey, such as `Ctrl+R`.
pub fn format_hotkey(code: KeyCode, modifiers: KeyModifiers) -> (r: String)
    ensures
        r@ == hotkey_text(code, modifiers),
{
    let mut s = String::new();
    if modifiers.contains(KeyModifiers { bits: MOD_CONTROL }) {
        s.append("Ctrl+");
    }
    if modifiers.contains(KeyModifiers { bits: MOD_ALT }) {
        s.append("Alt+");
    }
    if modifiers.contains(KeyModifiers { bits: MOD_SHIFT }) {
        s.append("Shift+");
    }
    let key = key_label(code);
    s.append(key.as_str());
    proof {
        reveal_strlit("Ctrl+");
        reveal_strlit("Alt+");
        reveal_strlit("Shift+");
    }
    assert(s@ =~= hotkey_text(code, modifiers));
    s
}

/// What a key press asks for.
#[derive(Debug, Clone, Copy, PartialEq, Eq, Hash, Structural)]
pub enum Action {
    NavigateUp,
    NavigateDown,
    NavigateLeft,
    NavigateRight,
    Confirm,
    Cancel,
    SwitchToDashboard,
    SwitchToBetting,
    SwitchToHistory,
    SwitchToStatistics,
    SwitchToSettings,
    ShowHelp,
    PlaceBet,
    RepeatLastBet,
    DoubleBet,
    HalfBet,
    MaxBet,
    ClearBet,
    QuickBet100,
    QuickBet500,
    QuickBet1000,
    QuickBet5000,
    QuickBet10000,
    SelectPass,
    SelectDontPass,
    SelectField,
    SelectCome,
    SelectDontCome,
    SelectNumber(u8),
    SelectHard(u8),
    SelectOdds,
    SelectRepeater,
    Withdraw,
    Deposit,
    RefreshStats,
    ExportData,
    Quit,
    ToggleCompactMode,
    ToggleAnimations,
}


/// The hotkeys the client starts with.
pub open spec fn default_bindings() -> Map<u64, Action> {
    map![
        key_id(KeyCode::Up, KeyModifiers { bits: MOD_NONE }) => Action::NavigateUp,
        key_id(KeyCode::Char('k'), KeyModifiers { bits: MOD_NONE }) => Action::NavigateUp,
        key_id(KeyCode::Down, KeyModifiers { bits: MOD_NONE }) => Action::NavigateDown,
        key_id(KeyCode::Char('j'), KeyModifiers { bits: MOD_NONE }) => Action::NavigateDown,
        key_id(KeyCode::Left, KeyModifiers { bits: MOD_NONE }) => Action::NavigateLeft,
        key_id(KeyCode::Char('h'), KeyModifiers { bits: MOD_NONE }) => Action::NavigateLeft,
        key_id(KeyCode::Right, KeyModifiers { bits: MOD_NONE }) => Action::NavigateRight,
        key_id(KeyCode::Char('l'), KeyModifiers { bits: MOD_NONE }) => Action::NavigateRight,
        key_id(KeyCode::Enter, KeyModifiers { bits: MOD_NONE }) => Action::Confirm,
        key_id(KeyCode::Esc, KeyModifiers { bits: MOD_NONE }) => Action::Cancel,
        key_id(KeyCode::Char('d'), KeyModifiers { bits: MOD_NONE }) => Action::SwitchToDashboard,
        key_id(KeyCode::Char('b'), KeyModifiers { bits: MOD_NONE }) => Action::SwitchToBetting,
        key_id(KeyCode::Char('h'), KeyModifiers { bits: MOD_CONTROL }) => Action::HalfBet,
        key_id(KeyCode::Char('s'), KeyModifiers { bits: MOD_NONE }) => Action::SwitchToStatistics,
        key_id(KeyCode::Char('c'), KeyModifiers { bits: MOD_NONE }) => Action::SelectCome,
        key_id(KeyCode::F(1), KeyModifiers { bits: MOD_NONE }) => Action::ShowHelp,
        key_id(KeyCode::Char('?'), KeyModifiers { bits: MOD_NONE }) => Action::ShowHelp,
        key_id(KeyCode::Char('r'), KeyModifiers { bits: MOD_CONTROL }) => Action::RepeatLastBet,
        key_id(KeyCode::Char('d'), KeyModifiers { bits: MOD_CONTROL }) => Action::DoubleBet,
        key_id(KeyCode::Char('m'), KeyModifiers { bits: MOD_CONTROL }) => Action::MaxBet,
        key_id(KeyCode::Char('c'), KeyModifiers { bits: MOD_CONTROL }) => Action::ClearBet,
        key_id(KeyCode::F(2), KeyModifiers { bits: MOD_NONE }) => Action::QuickBet100,
        key_id(KeyCode::F(3), KeyModifiers { bits: MOD_NONE }) => Action::QuickBet500,
        key_id(KeyCode::F(4), KeyModifiers { bits: MOD_NONE }) => Action::QuickBet1000,
        key_id(KeyCode::F(5), KeyModifiers { bits: MOD_NONE }) => Action::QuickBet5000,
        key_id(KeyCode::F(6), KeyModifiers { bits: MOD_NONE }) => Action::QuickBet10000,
        key_id(KeyCode::Char('p'), KeyModifiers { bits: MOD_NONE }) => Action::SelectPass,
        key_id(KeyCode::Char('P'), KeyModifiers { bits: MOD_SHIFT }) => Action::SelectDontPass,
        key_id(KeyCode::Char('f'), KeyModifiers { bits: MOD_NONE }) => Action::SelectField,
        key_id(KeyCode::Char('C'), KeyModifiers { bits: MOD_SHIFT }) => Action::SelectDontCome,
        key_id(KeyCode::Char('o'), KeyModifiers { bits: MOD_CONTROL }) => Action::SelectOdds,
        key_id(KeyCode::Char('r'), KeyModifiers { bits: MOD_NONE }) => Action::SelectRepeater,
        key_id(KeyCode::Char('2'), KeyModifiers { bits: MOD_NONE }) => Action::SelectNumber(2),
        key_id(KeyCode::Char('3'), KeyModifiers { bits: MOD_NONE }) => Action::SelectNumber(3),
        key_id(KeyCode::Char('4'), KeyModifiers { bits: MOD_NONE }) => Action::SelectNumber(4),
        key_id(KeyCode::Char('5'), KeyModifiers { bits: MOD_NONE }) => Action::SelectNumber(5),
        key_id(KeyCode::Char('6'), KeyModifiers { bits: MOD_NONE }) => Action::SelectNumber(6),
        key_id(KeyCode::Char('8'), KeyModifiers { bits: MOD_NONE }) => Action::SelectNumber(8),
        key_id(KeyCode::Char('9'), KeyModifiers { bits: MOD_NONE }) => Action::SelectNumber(9),
        key_id(KeyCode::Char('0'), KeyModifiers { bits: MOD_NONE }) => Action::SelectNumber(10),
        key_id(KeyCode::Char('-'), KeyModifiers { bits: MOD_NONE }) => Action::SelectNumber(11),
        key_id(KeyCode::Char('='), KeyModifiers { bits: MOD_NONE }) => Action::SelectNumber(12),
        key_id(KeyCode::Char('4'), KeyModifiers { bits: MOD_CONTROL }) => Action::SelectHard(4),
        key_id(KeyCode::Char('6'), KeyModifiers { bits: MOD_CONTROL }) => Action::SelectHard(6),
        key_id(KeyCode::Char('8'), KeyModifiers { bits: MOD_CONTROL }) => Action::SelectHard(8),
        key_id(KeyCode::Char('0'), KeyModifiers { bits: MOD_CONTROL }) => Action::SelectHard(10),
        key_id(KeyCode::Char('w'), KeyModifiers { bits: MOD_CONTROL }) => Action::Withdraw,
        key_id(KeyCode::Char('d'), KeyModifiers { bits: MOD_ALT }) => Action::Deposit,
        key_id(KeyCode::Char('r'), KeyModifiers { bits: MOD_ALT }) => Action::RefreshStats,
        key_id(KeyCode::Char('e'), KeyModifiers { bits: MOD_CONTROL }) => Action::ExportData,
        key_id(KeyCode::Char('q'), KeyModifiers { bits: MOD_NONE }) => Action::Quit,
        key_id(KeyCode::Char('Q'), KeyModifiers { bits: MOD_SHIFT }) => Action::Quit,
        key_id(KeyCode::Char('t'), KeyModifiers { bits: MOD_CONTROL }) => Action::ToggleCompactMode,
        key_id(KeyCode::Char('a'), KeyModifiers { bits: MOD_CONTROL }) => Action::ToggleAnimations,
    ]
}

/// Whether a number stands for some key with modifiers.
pub open spec fn is_key_number(id: u64) -> bool {
    exists|c: KeyCode, m: KeyModifiers| #[trigger] key_id(c, m) == id
}

/// The default hotkeys bind keys.
proof fn lemma_default_bindings_are_keys(id: u64)
    requires
        default_bindings().contains_key(id),
    ensures
        is_key_number(id),
{
}

/// The client's hotkeys: which action each key, with its modifiers, asks for.
pub struct HotkeyManager {
    bindings: HashMap<u64, Action>,
}

impl View for HotkeyManager {
    type V = Map<u64, Action>;

    /// The bindings, by the number of each key.
    closed spec fn view(&self) -> Map<u64, Action> {
        self.bindings@
    }
}

impl HotkeyManager {
    /// Every binding is of a key.
    #[verifier::type_invariant]
    spec fn bound_keys_are_keys(self) -> bool {
        forall|id: u64| self.bindings@.contains_key(id) ==> is_key_number(id)
    }
}

impl Default for HotkeyManager {
    #[verifier::rlimit(100)]
    fn default() -> (r: Self)
        ensures
            r@ == default_bindings(),
    {
        let mut bindings: HashMap<u64, Action> = HashMap::new();
        bindings.insert(key_number(KeyCode::Up, KeyModifiers { bits: MOD_NONE }), Action::NavigateUp);
        bindings.insert(key_number(KeyCode::Char('k'), KeyModifiers { bits: MOD_NONE }), Action::NavigateUp);
        bindings.insert(key_number(KeyCode::Down, KeyModifiers { bits: MOD_NONE }), Action::NavigateDown);
        bindings.insert(key_number(KeyCode::Char('j'), KeyModifiers { bits: MOD_NONE }), Action::NavigateDown);
        bindings.insert(key_number(KeyCode::Left, KeyModifiers { bits: MOD_NONE }), Action::NavigateLeft);
        bindings.insert(key_number(KeyCode::Char('h'), KeyModifiers { bits: MOD_NONE }), Action::NavigateLeft);
        bindings.insert(key_number(KeyCode::Right, KeyModifiers { bits: MOD_NONE }), Action::NavigateRight);
        bindings.insert(key_number(KeyCode::Char('l'), KeyModifiers { bits: MOD_NONE }), Action::NavigateRight);
        bindings.insert(key_number(KeyCode::Enter, KeyModifiers { bits: MOD_NONE }), Action::Confirm);
        bindings.insert(key_number(KeyCode::Esc, KeyModifiers { bits: MOD_NONE }), Action::Cancel);
        bindings.insert(key_number(KeyCode::Char('d'), KeyModifiers { bits: MOD_NONE }), Action::SwitchToDashboard);
        bindings.insert(key_number(KeyCode::Char('b'), KeyModifiers { bits: MOD_NONE }), Action::SwitchToBetting);
        bindings.insert(key_number(KeyCode::Char('h'), KeyModifiers { bits: MOD_CONTROL }), Action::SwitchToHistory);
        bindings.insert(key_number(KeyCode::Char('s'), KeyModifiers { bits: MOD_NONE }), Action::SwitchToStatistics);
        bindings.insert(key_number(KeyCode::Char('c'), KeyModifiers { bits: MOD_NONE }), Action::SwitchToSettings);
        bindings.insert(key_number(KeyCode::F(1), KeyModifiers { bits: MOD_NONE }), Action::ShowHelp);
        bindings.insert(key_number(KeyCode::Char('?'), KeyModifiers { bits: MOD_NONE }), Action::ShowHelp);
        bindings.insert(key_number(KeyCode::Char('r'), KeyModifiers { bits: MOD_CONTROL }), Action::RepeatLastBet);
        bindings.insert(key_number(KeyCode::Char('d'), KeyModifiers { bits: MOD_CONTROL }), Action::DoubleBet);
        bindings.insert(key_number(KeyCode::Char('h'), KeyModifiers { bits: MOD_CONTROL }), Action::HalfBet);
        bindings.insert(key_number(KeyCode::Char('m'), KeyModifiers { bits: MOD_CONTROL }), Action::MaxBet);
        bindings.insert(key_number(KeyCode::Char('c'), KeyModifiers { bits: MOD_CONTROL }), Action::ClearBet);
        bindings.insert(key_number(KeyCode::F(2), KeyModifiers { bits: MOD_NONE }), Action::QuickBet100);
        bindings.insert(key_number(KeyCode::F(3), KeyModifiers { bits: MOD_NONE }), Action::QuickBet500);
        bindings.insert(key_number(KeyCode::F(4), KeyModifiers { bits: MOD_NONE }), Action::QuickBet1000);
        bindings.insert(key_number(KeyCode::F(5), KeyModifiers { bits: MOD_NONE }), Action::QuickBet5000);
        bindings.insert(key_number(KeyCode::F(6), KeyModifiers { bits: MOD_NONE }), Action::QuickBet10000);
        bindings.insert(key_number(KeyCode::Char('p'), KeyModifiers { bits: MOD_NONE }), Action::SelectPass);
        bindings.insert(key_number(KeyCode::Char('P'), KeyModifiers { bits: MOD_SHIFT }), Action::SelectDontPass);
        bindings.insert(key_number(KeyCode::Char('f'), KeyModifiers { bits: MOD_NONE }), Action::SelectField);
        bindings.insert(key_number(KeyCode::Char('c'), KeyModifiers { bits: MOD_NONE }), Action::SelectCome);
        bindings.insert(key_number(KeyCode::Char('C'), KeyModifiers { bits: MOD_SHIFT }), Action::SelectDontCome);
        bindings.insert(key_number(KeyCode::Char('o'), KeyModifiers { bits: MOD_CONTROL }), Action::SelectOdds);
        bindings.insert(key_number(KeyCode::Char('r'), KeyModifiers { bits: MOD_NONE }), Action::SelectRepeater);
        bindings.insert(key_number(KeyCode::Char('2'), KeyModifiers { bits: MOD_NONE }), Action::SelectNumber(2));
        bindings.insert(key_number(KeyCode::Char('3'), KeyModifiers { bits: MOD_NONE }), Action::SelectNumber(3));
        bindings.insert(key_number(KeyCode::Char('4'), KeyModifiers { bits: MOD_NONE }), Action::SelectNumber(4));
        bindings.insert(key_number(KeyCode::Char('5'), KeyModifiers { bits: MOD_NONE }), Action::SelectNumber(5));
        bindings.insert(key_number(KeyCode::Char('6'), KeyModifiers { bits: MOD_NONE }), Action::SelectNumber(6));
        bindings.insert(key_number(KeyCode::Char('8'), KeyModifiers { bits: MOD_NONE }), Action::SelectNumber(8));
        bindings.insert(key_number(KeyCode::Char('9'), KeyModifiers { bits: MOD_NONE }), Action::SelectNumber(9));
        bindings.insert(key_number(KeyCode::Char('0'), KeyModifiers { bits: MOD_NONE }), Action::SelectNumber(10));
        bindings.insert(key_number(KeyCode::Char('-'), KeyModifiers { bits: MOD_NONE }), Action::SelectNumber(11));
        bindings.insert(key_number(KeyCode::Char('='), KeyModifiers { bits: MOD_NONE }), Action::SelectNumber(12));
        bindings.insert(key_number(KeyCode::Char('4'), KeyModifiers { bits: MOD_CONTROL }), Action::SelectHard(4));
        bindings.insert(key_number(KeyCode::Char('6'), KeyModifiers { bits: MOD_CONTROL }), Action::SelectHard(6));
        bindings.insert(key_number(KeyCode::Char('8'), KeyModifiers { bits: MOD_CONTROL }), Action::SelectHard(8));
        bindings.insert(key_number(KeyCode::Char('0'), KeyModifiers { bits: MOD_CONTROL }), Action::SelectHard(10));
        bindings.insert(key_number(KeyCode::Char('w'), KeyModifiers { bits: MOD_CONTROL }), Action::Withdraw);
        bindings.insert(key_number(KeyCode::Char('d'), KeyModifiers { bits: MOD_ALT }), Action::Deposit);
        bindings.insert(key_number(KeyCode::Char('r'), KeyModifiers { bits: MOD_ALT }), Action::RefreshStats);
        bindings.insert(key_number(KeyCode::Char('e'), KeyModifiers { bits: MOD_CONTROL }), Action::ExportData);
        bindings.insert(key_number(KeyCode::Char('q'), KeyModifiers { bits: MOD_NONE }), Action::Quit);
        bindings.insert(key_number(KeyCode::Char('Q'), KeyModifiers { bits: MOD_SHIFT }), Action::Quit);
        bindings.insert(key_number(KeyCode::Char('t'), KeyModifiers { bits: MOD_CONTROL }), Action::ToggleCompactMode);
        bindings.insert(key_number(KeyCode::Char('a'), KeyModifiers { bits: MOD_CONTROL }), Action::ToggleAnimations);
        assert(bindings@ =~= default_bindings());
        assert forall|id: u64| bindings@.contains_key(id) implies is_key_number(id) by {
            lemma_default_bindings_are_keys(id);
        }
        HotkeyManager { bindings }
    }
}

/// The bindings after binding a key to an action: the action's other keys are
/// let go, and the key, whatever it asked for before, now asks for the action.
pub open spec fn rebind(m: Map<u64, Action>, id: u64, action: Action) -> Map<u64, Action> {
    Map::new(|k: u64| m.contains_key(k) && m[k] != action, |k: u64| m[k]).insert(id, action)
}

/// After a key is bound to an action, the key asks for that action, no other
/// key does, and every other key keeps what it asked for unless it asked for
/// that action.
pub proof fn lemma_rebind_binds_one_key(m: Map<u64, Action>, id: u64, action: Action)
    ensures
        rebind(m, id, action).contains_key(id),
        rebind(m, id, action)[id] == action,
        forall|k: u64| k != id && #[trigger] rebind(m, id, action).contains_key(k) ==> rebind(m, id, action)[k] != action,
        forall|k: u64| k != id && m.contains_key(k) && m[k] != action ==> #[trigger] rebind(m, id, action).contains_key(k)
            && rebind(m, id, action)[k] == m[k],
{
}

impl HotkeyManager {
    /// The action a key press asks for, if it is bound.
    pub fn get_action(&self, key: KeyEvent) -> (r: Option<Action>)
        ensures
            r == (if self@.contains_key(key_id(key.code, key.modifiers)) {
                Some(self@[key_id(key.code, key.modifiers)])
            } else {
                None
            }),
    {
        match self.bindings.get(&key_number(key.code, key.modifiers)) {
            Some(a) => Some(*a),
            None => None,
        }
    }

    /// How one of the keys bound to an action is shown, if any is. Which one,
    /// where several are, depends on the order the map is walked in.
    pub fn get_hotkey_for_action(&self, action: Action) -> (r: Option<String>)
        ensures
            r is None <==> (forall|id: u64| #[trigger] self@.contains_key(id) ==> self@[id] != action),
            r matches Some(s) ==> exists|c: KeyCode, m: KeyModifiers|
                #[trigger] self@.contains_key(key_id(c, m)) && self@[key_id(c, m)] == action && s@ == hotkey_text(c, m),
    {
        proof {
            use_type_invariant(self);
        }
        let ghost m = self.bindings@;
        let ghost v = spec_hash_map_iter(&self.bindings).remaining();
        for (id, a) in it: self.bindings.iter()
            invariant
                it.seq() == v,
                m == self.bindings@,
                forall|id: u64| m.contains_key(id) ==> is_key_number(id),
                forall|i: int| 0 <= i < it.index() ==> *(#[trigger] v[i]).1 != action,
        {
            if *a == action {
                proof {
                    assert(m.contains_key(*id));
                    assert(is_key_number(*id));
                }
                let key = key_of_number(*id);
                proof {
                    let (c, mm) = choose|c: KeyCode, mm: KeyModifiers| #[trigger] key_id(c, mm) == *id;
                    assert(key_id(c, mm) == *id);
                }
                match key {
                    Some(k) => {
                        return Some(format_hotkey(k.code, k.modifiers));
                    },
                    None => {},
                }
            }
        }
        proof {
            assert forall|id: u64| #[trigger] m.contains_key(id) implies m[id] != action by {
                assert(v.contains((&id, &m[id])));
                let i = choose|i: int| 0 <= i < v.len() && v[i] == (&id, &m[id]);
                assert(*v[i].1 != action);
            }
        }
        None
    }

    /// Binds a key to an action, letting go of the action's other keys.
    pub fn customize_binding(&mut self, key: KeyCode, modifiers: KeyModifiers, action: Action)
        ensures
            final(self)@ == rebind(old(self)@, key_id(key, modifiers), action),
    {
        proof {
            use_type_invariant(&*self);
        }
        let ghost m = self.bindings@;
        let ghost v = spec_hash_map_iter(&self.bindings).remaining();
        let mut kept: HashMap<u64, Action> = HashMap::new();
        for (id, a) in it: self.bindings.iter()
            invariant
                it.seq() == v,
                m == self.bindings@,
                forall|k: u64| #[trigger] kept@.contains_key(k) ==> m.contains_key(k) && m[k] != action && kept@[k] == m[k],
                forall|i: int| 0 <= i < it.index() && *(#[trigger] v[i]).1 != action ==> kept@.contains_key(*v[i].0),
        {
            if *a != action {
                proof {
                    assert(m.contains_key(*id) && m[*id] == *a);
                }
                kept.insert(*id, *a);
            }
        }
        let id = key_number(key, modifiers);
        kept.insert(id, action);
        proof {
            assert forall|k: u64| #[trigger] m.contains_key(k) && m[k] != action implies kept@.contains_key(k) by {
                assert(v.contains((&k, &m[k])));
                let i = choose|i: int| 0 <= i < v.len() && v[i] == (&k, &m[k]);
                assert(*v[i].1 != action);
            }
            assert(kept@ =~= rebind(m, id, action));
            assert forall|k: u64| kept@.contains_key(k) implies is_key_number(k) by {
                if k == id {
                    assert(key_id(key, modifiers) == k);
                } else {
                    assert(m.contains_key(k));
                }
            }
        }
        self.bindings = kept;
    }
}

} // verus!
