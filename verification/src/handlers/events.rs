//! Terminal input events as plain values.
//!
//! The terminal backend's own event types are converted into these by the
//! program around the library; every decision below is taken on them.

use vstd::prelude::*;

verus! {

/// Modifier keys held during an event, as the terminal backend's bit set.
#[derive(Debug, Clone, Copy, PartialEq, Eq, Hash, Structural)]
pub struct KeyModifiers {
    pub bits: u8,
}

pub const SHIFT_BIT: u8 = 1;
pub const CONTROL_BIT: u8 = 2;
pub const ALT_BIT: u8 = 4;
pub const SUPER_BIT: u8 = 8;
pub const HYPER_BIT: u8 = 16;
pub const META_BIT: u8 = 32;

/// Every bit of `other` is set in `bits`.
pub open spec fn spec_bits_contain(bits: u8, other: u8) -> bool {
    bits & other == other
}

impl KeyModifiers {
    /// No modifier.
    pub fn none() -> (r: KeyModifiers)
        ensures
            r.bits == 0,
    {
        KeyModifiers { bits: 0 }
    }

    /// Shift alone.
    pub fn shift() -> (r: KeyModifiers)
        ensures
            r.bits == 1,
    {
        KeyModifiers { bits: 1 }
    }

    /// Control alone.
    pub fn control() -> (r: KeyModifiers)
        ensures
            r.bits == 2,
    {
        KeyModifiers { bits: 2 }
    }

    /// Alt alone.
    pub fn alt() -> (r: KeyModifiers)
        ensures
            r.bits == 4,
    {
        KeyModifiers { bits: 4 }
    }

    /// Super alone.
    pub fn super_key() -> (r: KeyModifiers)
        ensures
            r.bits == 8,
    {
        KeyModifiers { bits: 8 }
    }

    /// Hyper alone.
    pub fn hyper() -> (r: KeyModifiers)
        ensures
            r.bits == 16,
    {
        KeyModifiers { bits: 16 }
    }

    /// Meta alone.
    pub fn meta() -> (r: KeyModifiers)
        ensures
            r.bits == 32,
    {
        KeyModifiers { bits: 32 }
    }

    /// Every modifier of `other` is held.
    pub fn contains(self, other: KeyModifiers) -> (r: bool)
        ensures
            r == spec_bits_contain(self.bits, other.bits),
    {
        self.bits & other.bits == other.bits
    }

    /// The union of two modifier sets.
    pub fn union(self, other: KeyModifiers) -> (r: KeyModifiers)
        ensures
            r.bits == self.bits | other.bits,
    {
        KeyModifiers { bits: self.bits | other.bits }
    }
}

/// A key, as the terminal backend names it. Media and modifier keys carry
/// the position of their name in the backend's list.
#[derive(Debug, Clone, Copy, PartialEq, Eq, Hash, Structural)]
pub enum KeyCode {
    Backspace,
    Enter,
    Left,
    Right,
    Up,
    Down,
    Home,
    End,
    PageUp,
    PageDown,
    Tab,
    BackTab,
    Delete,
    Insert,
    F(u8),
    Char(char),
    Null,
    Esc,
    CapsLock,
    ScrollLock,
    NumLock,
    PrintScreen,
    Pause,
    Menu,
    KeypadBegin,
    Media(u8),
    Modifier(u8),
}

/// Whether a key was pressed, repeated or released.
#[derive(Debug, Clone, Copy, PartialEq, Eq, Hash, Structural)]
pub enum KeyEventKind {
    Press,
    Repeat,
    Release,
}

/// A key event.
#[derive(Debug, Clone, Copy, PartialEq, Eq, Hash, Structural)]
pub struct KeyEvent {
    pub code: KeyCode,
    pub modifiers: KeyModifiers,
    pub kind: KeyEventKind,
    /// Keypad, caps-lock and num-lock flags, as the backend's bit set.
    pub state: u8,
}

impl KeyEvent {
    /// A key press with the given modifiers and no extra state.
    pub fn new(code: KeyCode, modifiers: KeyModifiers) -> (r: KeyEvent)
        ensures
            r == (KeyEvent { code, modifiers, kind: KeyEventKind::Press, state: 0 }),
    {
        KeyEvent { code, modifiers, kind: KeyEventKind::Press, state: 0 }
    }
}

/// `c` is an ASCII capital letter.
pub open spec fn spec_is_ascii_upper(c: char) -> bool {
    'A' <= c <= 'Z'
}

/// ASCII capital of `c`; any other character is left as it is.
pub open spec fn spec_ascii_upper(c: char) -> char {
    if 'a' <= c <= 'z' {
        ((c as u32) - 32) as char
    } else {
        c
    }
}

/// The backend's case normalisation before two key events are compared: a
/// capital letter implies Shift, and Shift on a letter gives its capital.
pub open spec fn spec_normalize_case(k: KeyEvent) -> KeyEvent {
    match k.code {
        KeyCode::Char(c) => {
            if spec_is_ascii_upper(c) {
                KeyEvent { modifiers: KeyModifiers { bits: k.modifiers.bits | SHIFT_BIT }, ..k }
            } else if spec_bits_contain(k.modifiers.bits, SHIFT_BIT) {
                KeyEvent { code: KeyCode::Char(spec_ascii_upper(c)), ..k }
            } else {
                k
            }
        },
        _ => k,
    }
}

/// Two key events are the same key in the backend's sense: equal after case
/// normalisation.
pub open spec fn spec_same_key(a: KeyEvent, b: KeyEvent) -> bool {
    spec_normalize_case(a) == spec_normalize_case(b)
}

fn ascii_upper(c: char) -> (r: char)
    ensures
        r == spec_ascii_upper(c),
{
    if 'a' <= c && c <= 'z' {
        let u: u32 = (c as u32) - 32;
        proof {
            assert(0x41 <= u <= 0x5a);
        }
        char_from_ascii(u)
    } else {
        c
    }
}

fn char_from_ascii(u: u32) -> (r: char)
    requires
        u < 128,
    ensures
        r == u as char,
{
    (u as u8) as char
}

fn normalize_case(k: KeyEvent) -> (r: KeyEvent)
    ensures
        r == spec_normalize_case(k),
{
    match k.code {
        KeyCode::Char(c) => {
            if 'A' <= c && c <= 'Z' {
                KeyEvent { modifiers: KeyModifiers { bits: k.modifiers.bits | SHIFT_BIT }, ..k }
            } else if k.modifiers.contains(KeyModifiers::shift()) {
                KeyEvent { code: KeyCode::Char(ascii_upper(c)), ..k }
            } else {
                k
            }
        },
        _ => k,
    }
}

/// Whether two key events are the same key in the backend's sense.
pub fn same_key(a: &KeyEvent, b: &KeyEvent) -> (r: bool)
    ensures
        r == spec_same_key(*a, *b),
{
    normalize_case(*a) == normalize_case(*b)
}

/// A mouse button, as the terminal backend reports it.
#[derive(Debug, Clone, Copy, PartialEq, Eq, Hash, Structural)]
pub enum PointerButton {
    Left,
    Right,
    Middle,
}

/// What a mouse event reports.
#[derive(Debug, Clone, Copy, PartialEq, Eq, Hash, Structural)]
pub enum MouseEventKind {
    Down(PointerButton),
    Up(PointerButton),
    Drag(PointerButton),
    Moved,
    ScrollDown,
    ScrollUp,
    ScrollLeft,
    ScrollRight,
}

/// A mouse event.
#[derive(Debug, Clone, Copy, PartialEq, Eq, Hash, Structural)]
pub struct MouseEvent {
    pub kind: MouseEventKind,
    pub column: u16,
    pub row: u16,
    pub modifiers: KeyModifiers,
}

} // verus!
