//! Key bindings and the first decision on raw input events.

use vstd::prelude::*;

use crate::handlers::events::{
    KeyCode, KeyEvent, KeyEventKind, KeyModifiers, MouseEvent, MouseEventKind, PointerButton,
};

verus! {

/// Input events the terminal delivers.
#[derive(Debug, Clone, PartialEq, Eq)]
pub enum InputEvent {
    Key(KeyEvent),
    Mouse(MouseEvent),
    Paste(String),
    Resize(u16, u16),
    FocusGained,
    FocusLost,
}

/// Key binding configuration.
#[derive(Debug, Clone, PartialEq, Eq)]
pub struct KeyBindings {
    pub quit: Vec<KeyEvent>,
    pub submit: Vec<KeyEvent>,
    pub command_mode: Vec<KeyEvent>,
    pub exit_command_mode: Vec<KeyEvent>,
    pub history_up: Vec<KeyEvent>,
    pub history_down: Vec<KeyEvent>,
    pub new_session: Vec<KeyEvent>,
    pub resume_session: Vec<KeyEvent>,
    pub list_sessions: Vec<KeyEvent>,
    pub scroll_up: Vec<KeyEvent>,
    pub scroll_down: Vec<KeyEvent>,
}

/// A key matches a binding when code and modifiers agree.
pub open spec fn spec_key_matches(a: KeyEvent, b: KeyEvent) -> bool {
    a.code == b.code && a.modifiers == b.modifiers
}

/// A key matches some binding of the list.
pub open spec fn spec_matches_any(key: KeyEvent, bindings: Seq<KeyEvent>) -> bool {
    exists|i: int| 0 <= i < bindings.len() && spec_key_matches(key, #[trigger] bindings[i])
}

fn press(code: KeyCode, modifiers: KeyModifiers) -> (r: KeyEvent)
    ensures
        r == (KeyEvent { code, modifiers, kind: KeyEventKind::Press, state: 0 }),
{
    KeyEvent::new(code, modifiers)
}

/// A key press with the given code and modifier bits, as a specification.
pub open spec fn spec_press(code: KeyCode, bits: u8) -> KeyEvent {
    KeyEvent { code, modifiers: KeyModifiers { bits }, kind: KeyEventKind::Press, state: 0 }
}

/// The default bindings: Ctrl+C, Ctrl+Q and Esc quit, Enter submits, `/`
/// enters command mode, Esc leaves it, Up and Down walk the history, Ctrl+N,
/// Ctrl+R and Ctrl+L create, resume and list sessions, Ctrl+U or PageUp and
/// Ctrl+D or PageDown scroll.
pub open spec fn spec_is_default_bindings(r: KeyBindings) -> bool {
    &&& r.quit@ == seq![
        spec_press(KeyCode::Char('c'), 2),
        spec_press(KeyCode::Char('q'), 2),
        spec_press(KeyCode::Esc, 0),
    ]
    &&& r.submit@ == seq![spec_press(KeyCode::Enter, 0)]
    &&& r.command_mode@ == seq![spec_press(KeyCode::Char('/'), 0)]
    &&& r.exit_command_mode@ == seq![spec_press(KeyCode::Esc, 0)]
    &&& r.history_up@ == seq![spec_press(KeyCode::Up, 0)]
    &&& r.history_down@ == seq![spec_press(KeyCode::Down, 0)]
    &&& r.new_session@ == seq![spec_press(KeyCode::Char('n'), 2)]
    &&& r.resume_session@ == seq![spec_press(KeyCode::Char('r'), 2)]
    &&& r.list_sessions@ == seq![spec_press(KeyCode::Char('l'), 2)]
    &&& r.scroll_up@ == seq![spec_press(KeyCode::Char('u'), 2), spec_press(KeyCode::PageUp, 0)]
    &&& r.scroll_down@ == seq![spec_press(KeyCode::Char('d'), 2), spec_press(KeyCode::PageDown, 0)]
}

impl Default for KeyBindings {
    fn default() -> (r: Self)
        ensures
            spec_is_default_bindings(r),
    {
        let none = KeyModifiers::none();
        let ctrl = KeyModifiers::control();
        let r = KeyBindings {
            quit: vec![
                press(KeyCode::Char('c'), ctrl),
                press(KeyCode::Char('q'), ctrl),
                press(KeyCode::Esc, none),
            ],
            submit: vec![press(KeyCode::Enter, none)],
            command_mode: vec![press(KeyCode::Char('/'), none)],
            exit_command_mode: vec![press(KeyCode::Esc, none)],
            history_up: vec![press(KeyCode::Up, none)],
            history_down: vec![press(KeyCode::Down, none)],
            new_session: vec![press(KeyCode::Char('n'), ctrl)],
            resume_session: vec![press(KeyCode::Char('r'), ctrl)],
            list_sessions: vec![press(KeyCode::Char('l'), ctrl)],
            scroll_up: vec![press(KeyCode::Char('u'), ctrl), press(KeyCode::PageUp, none)],
            scroll_down: vec![press(KeyCode::Char('d'), ctrl), press(KeyCode::PageDown, none)],
        };
        proof {
            assert(r.quit@ =~= seq![
                spec_press(KeyCode::Char('c'), 2),
                spec_press(KeyCode::Char('q'), 2),
                spec_press(KeyCode::Esc, 0),
            ]);
            assert(r.scroll_up@ =~= seq![spec_press(KeyCode::Char('u'), 2), spec_press(KeyCode::PageUp, 0)]);
            assert(r.scroll_down@ =~= seq![spec_press(KeyCode::Char('d'), 2), spec_press(KeyCode::PageDown, 0)]);
            assert(r.submit@ =~= seq![spec_press(KeyCode::Enter, 0)]);
            assert(r.command_mode@ =~= seq![spec_press(KeyCode::Char('/'), 0)]);
            assert(r.exit_command_mode@ =~= seq![spec_press(KeyCode::Esc, 0)]);
            assert(r.history_up@ =~= seq![spec_press(KeyCode::Up, 0)]);
            assert(r.history_down@ =~= seq![spec_press(KeyCode::Down, 0)]);
            assert(r.new_session@ =~= seq![spec_press(KeyCode::Char('n'), 2)]);
            assert(r.resume_session@ =~= seq![spec_press(KeyCode::Char('r'), 2)]);
            assert(r.list_sessions@ =~= seq![spec_press(KeyCode::Char('l'), 2)]);
        }
        r
    }
}

impl KeyBindings {
    /// Whether `key` matches one of `bindings` by code and modifiers.
    pub fn matches_any(&self, key: &KeyEvent, bindings: &[KeyEvent]) -> (r: bool)
        ensures
            r == spec_matches_any(*key, bindings@),
    {
        let mut i: usize = 0;
        while i < bindings.len()
            invariant
                i <= bindings@.len(),
                forall|j: int| 0 <= j < i ==> !spec_key_matches(*key, #[trigger] bindings@[j]),
            decreases bindings@.len() - i,
        {
            if self.key_matches(key, &bindings[i]) {
                return true;
            }
            i = i + 1;
        }
        false
    }

    /// Whether two keys agree in code and modifiers.
    pub fn key_matches(&self, a: &KeyEvent, b: &KeyEvent) -> (r: bool)
        ensures
            r == spec_key_matches(*a, *b),
    {
        a.code == b.code && a.modifiers == b.modifiers
    }

    pub fn is_quit(&self, key: &KeyEvent) -> (r: bool)
        ensures
            r == spec_matches_any(*key, self.quit@),
    {
        self.matches_any(key, self.quit.as_slice())
    }

    pub fn is_submit(&self, key: &KeyEvent) -> (r: bool)
        ensures
            r == spec_matches_any(*key, self.submit@),
    {
        self.matches_any(key, self.submit.as_slice())
    }

    pub fn is_command_mode(&self, key: &KeyEvent) -> (r: bool)
        ensures
            r == spec_matches_any(*key, self.command_mode@),
    {
        self.matches_any(key, self.command_mode.as_slice())
    }

    pub fn is_exit_command_mode(&self, key: &KeyEvent) -> (r: bool)
        ensures
            r == spec_matches_any(*key, self.exit_command_mode@),
    {
        self.matches_any(key, self.exit_command_mode.as_slice())
    }

    pub fn is_history_up(&self, key: &KeyEvent) -> (r: bool)
        ensures
            r == spec_matches_any(*key, self.history_up@),
    {
        self.matches_any(key, self.history_up.as_slice())
    }

    pub fn is_history_down(&self, key: &KeyEvent) -> (r: bool)
        ensures
            r == spec_matches_any(*key, self.history_down@),
    {
        self.matches_any(key, self.history_down.as_slice())
    }

    pub fn is_new_session(&self, key: &KeyEvent) -> (r: bool)
        ensures
            r == spec_matches_any(*key, self.new_session@),
    {
        self.matches_any(key, self.new_session.as_slice())
    }

    pub fn is_resume_session(&self, key: &KeyEvent) -> (r: bool)
        ensures
            r == spec_matches_any(*key, self.resume_session@),
    {
        self.matches_any(key, self.resume_session.as_slice())
    }

    pub fn is_list_sessions(&self, key: &KeyEvent) -> (r: bool)
        ensures
            r == spec_matches_any(*key, self.list_sessions@),
    {
        self.matches_any(key, self.list_sessions.as_slice())
    }

    pub fn is_scroll_up(&self, key: &KeyEvent) -> (r: bool)
        ensures
            r == spec_matches_any(*key, self.scroll_up@),
    {
        self.matches_any(key, self.scroll_up.as_slice())
    }

    pub fn is_scroll_down(&self, key: &KeyEvent) -> (r: bool)
        ensures
            r == spec_matches_any(*key, self.scroll_down@),
    {
        self.matches_any(key, self.scroll_down.as_slice())
    }
}

/// Mouse button as the application distinguishes it.
#[derive(Debug, Clone, Copy, PartialEq, Eq, Structural)]
pub enum MouseButton {
    Left,
    Right,
    Middle,
    Unknown,
}

impl MouseButton {
    /// The application's name for a backend mouse button.
    pub fn from_pointer(button: PointerButton) -> (r: MouseButton)
        ensures
            r == match button {
                PointerButton::Left => MouseButton::Left,
                PointerButton::Right => MouseButton::Right,
                PointerButton::Middle => MouseButton::Middle,
            },
    {
        match button {
            PointerButton::Left => MouseButton::Left,
            PointerButton::Right => MouseButton::Right,
            PointerButton::Middle => MouseButton::Middle,
        }
    }
}

/// Kind of mouse event as the application distinguishes it.
#[derive(Debug, Clone, Copy, PartialEq, Eq, Structural)]
pub enum MouseKind {
    Down,
    Up,
    Drag,
    Moved,
    Scroll,
    Unknown,
}

/// The application's kind for a backend mouse event kind.
pub open spec fn spec_mouse_kind(kind: MouseEventKind) -> MouseKind {
    match kind {
        MouseEventKind::Down(_) => MouseKind::Down,
        MouseEventKind::Up(_) => MouseKind::Up,
        MouseEventKind::Drag(_) => MouseKind::Drag,
        MouseEventKind::Moved => MouseKind::Moved,
        MouseEventKind::ScrollDown => MouseKind::Scroll,
        MouseEventKind::ScrollUp => MouseKind::Scroll,
        _ => MouseKind::Unknown,
    }
}

impl MouseKind {
    /// The application's kind for a backend mouse event kind.
    pub fn from_event_kind(kind: MouseEventKind) -> (r: MouseKind)
        ensures
            r == spec_mouse_kind(kind),
    {
        match kind {
            MouseEventKind::Down(_) => MouseKind::Down,
            MouseEventKind::Up(_) => MouseKind::Up,
            MouseEventKind::Drag(_) => MouseKind::Drag,
            MouseEventKind::Moved => MouseKind::Moved,
            MouseEventKind::ScrollDown => MouseKind::Scroll,
            MouseEventKind::ScrollUp => MouseKind::Scroll,
            _ => MouseKind::Unknown,
        }
    }
}

/// A mouse event with its position and kind.
#[derive(Debug, Clone, Copy, PartialEq, Eq, Structural)]
pub struct ParsedMouseEvent {
    pub column: u16,
    pub row: u16,
    pub kind: MouseKind,
    pub modifiers: KeyModifiers,
}

impl ParsedMouseEvent {
    /// Position, kind and modifiers of a backend mouse event.
    pub fn from_event(event: &MouseEvent) -> (r: ParsedMouseEvent)
        ensures
            r.column == event.column,
            r.row == event.row,
            r.kind == spec_mouse_kind(event.kind),
            r.modifiers == event.modifiers,
    {
        ParsedMouseEvent {
            column: event.column,
            row: event.row,
            kind: MouseKind::from_event_kind(event.kind),
            modifiers: event.modifiers,
        }
    }
}

/// Action to take on a key event.
#[derive(Debug, Clone, Copy, PartialEq, Eq, Structural)]
pub enum InputAction {
    Quit,
    Submit,
    EnterCommandMode,
    ExitCommandMode,
    HistoryUp,
    HistoryDown,
    NewSession,
    ResumeSession,
    ListSessions,
    ScrollUp,
    ScrollDown,
    PassThrough(KeyEvent),
    Nothing,
}

/// Action to take on a mouse event.
#[derive(Debug, Clone, Copy, PartialEq, Eq, Structural)]
pub enum MouseAction {
    ScrollUp(u16, u16),
    ScrollDown(u16, u16),
    LeftClick(u16, u16),
    RightClick(u16, u16),
    PassThrough,
    Nothing,
}

/// The action for a key under the given bindings: the first matching list
/// in the order quit, submit, command mode, leave command mode, history up,
/// history down, new session, resume session, list sessions, scroll up,
/// scroll down; otherwise the key is passed through.
pub open spec fn spec_process_key(b: KeyBindings, key: KeyEvent) -> InputAction {
    if spec_matches_any(key, b.quit@) {
        InputAction::Quit
    } else if spec_matches_any(key, b.submit@) {
        InputAction::Submit
    } else if spec_matches_any(key, b.command_mode@) {
        InputAction::EnterCommandMode
    } else if spec_matches_any(key, b.exit_command_mode@) {
        InputAction::ExitCommandMode
    } else if spec_matches_any(key, b.history_up@) {
        InputAction::HistoryUp
    } else if spec_matches_any(key, b.history_down@) {
        InputAction::HistoryDown
    } else if spec_matches_any(key, b.new_session@) {
        InputAction::NewSession
    } else if spec_matches_any(key, b.resume_session@) {
        InputAction::ResumeSession
    } else if spec_matches_any(key, b.list_sessions@) {
        InputAction::ListSessions
    } else if spec_matches_any(key, b.scroll_up@) {
        InputAction::ScrollUp
    } else if spec_matches_any(key, b.scroll_down@) {
        InputAction::ScrollDown
    } else {
        InputAction::PassThrough(key)
    }
}

/// The action for a mouse event: wheel scrolls and left or right presses
/// carry the position; everything else is passed through.
pub open spec fn spec_process_mouse(m: MouseEvent) -> MouseAction {
    match m.kind {
        MouseEventKind::ScrollUp => MouseAction::ScrollUp(m.column, m.row),
        MouseEventKind::ScrollDown => MouseAction::ScrollDown(m.column, m.row),
        MouseEventKind::Down(PointerButton::Left) => MouseAction::LeftClick(m.column, m.row),
        MouseEventKind::Down(PointerButton::Right) => MouseAction::RightClick(m.column, m.row),
        _ => MouseAction::PassThrough,
    }
}

/// Turns raw input events into actions under a set of key bindings.
#[derive(Debug, Clone, PartialEq, Eq)]
pub struct InputProcessor {
    key_bindings: KeyBindings,
}

impl InputProcessor {
    /// The bindings in use.
    pub closed spec fn bindings(&self) -> KeyBindings {
        self.key_bindings
    }

    /// A processor with the default bindings.
    pub fn new() -> (r: Self)
        ensures
            spec_is_default_bindings(r.bindings()),
    {
        InputProcessor { key_bindings: KeyBindings::default() }
    }

    /// A processor with the given bindings.
    pub fn with_bindings(bindings: KeyBindings) -> (r: Self)
        ensures
            r.bindings() == bindings,
    {
        InputProcessor { key_bindings: bindings }
    }

    /// The action for a key event.
    pub fn process_key(&self, key: KeyEvent) -> (r: InputAction)
        ensures
            r == spec_process_key(self.bindings(), key),
    {
        let b = &self.key_bindings;
        if b.is_quit(&key) {
            return InputAction::Quit;
        }
        if b.is_submit(&key) {
            return InputAction::Submit;
        }
        if b.is_command_mode(&key) {
            return InputAction::EnterCommandMode;
        }
        if b.is_exit_command_mode(&key) {
            return InputAction::ExitCommandMode;
        }
        if b.is_history_up(&key) {
            return InputAction::HistoryUp;
        }
        if b.is_history_down(&key) {
            return InputAction::HistoryDown;
        }
        if b.is_new_session(&key) {
            return InputAction::NewSession;
        }
        if b.is_resume_session(&key) {
            return InputAction::ResumeSession;
        }
        if b.is_list_sessions(&key) {
            return InputAction::ListSessions;
        }
        if b.is_scroll_up(&key) {
            return InputAction::ScrollUp;
        }
        if b.is_scroll_down(&key) {
            return InputAction::ScrollDown;
        }
        InputAction::PassThrough(key)
    }

    /// The action for a mouse event.
    pub fn process_mouse(&self, mouse: &MouseEvent) -> (r: MouseAction)
        ensures
            r == spec_process_mouse(*mouse),
    {
        let parsed = ParsedMouseEvent::from_event(mouse);
        match mouse.kind {
            MouseEventKind::ScrollUp => MouseAction::ScrollUp(parsed.column, parsed.row),
            MouseEventKind::ScrollDown => MouseAction::ScrollDown(parsed.column, parsed.row),
            MouseEventKind::Down(button) => match button {
                PointerButton::Left => MouseAction::LeftClick(parsed.column, parsed.row),
                PointerButton::Right => MouseAction::RightClick(parsed.column, parsed.row),
                _ => MouseAction::PassThrough,
            },
            _ => MouseAction::PassThrough,
        }
    }

    /// The bindings in use.
    pub fn key_bindings(&self) -> (r: &KeyBindings)
        ensures
            *r == self.bindings(),
    {
        &self.key_bindings
    }

    /// The bindings in use, for changing them.
    pub fn key_bindings_mut(&mut self) -> (r: &mut KeyBindings)
        ensures
            *r == old(self).bindings(),
            final(self).bindings() == *final(r),
    {
        &mut self.key_bindings
    }
}

impl Default for InputProcessor {
    fn default() -> (r: Self)
        ensures
            spec_is_default_bindings(r.bindings()),
    {
        InputProcessor::new()
    }
}

} // verus!
