//! Keyboard handlers for the chat transcript and the text input, a registry
//! of custom shortcuts and the modifier state.

use vstd::prelude::*;
use vstd::string::StringSliceAdditionalSpecFns;

use crate::handlers::events::{same_key, spec_bits_contain, spec_same_key, KeyCode, KeyEvent, KeyModifiers};

verus! {

/// The signed value a height reads as once reinterpreted in 16 bits.
pub open spec fn spec_as_signed16(h: u16) -> int {
    if h < 32768 { h as int } else { h as int - 65536 }
}

/// Half of a signed value, rounded toward zero.
pub open spec fn spec_half_toward_zero(v: int) -> int {
    if v >= 0 { v / 2 } else { -((-v) / 2) }
}

/// Scroll amount the chat transcript asks for on a key (positive is down):
/// Ctrl+U and Ctrl+D half a page, PageUp and PageDown the page step, Up and
/// Down one line, Home and End the far top and bottom markers, otherwise 0.
pub open spec fn spec_chat_scroll(page_step: u16, key: KeyEvent, visible_height: u16) -> int {
    let half = spec_half_toward_zero(spec_as_signed16(visible_height));
    if key.modifiers.bits == 2 && key.code == KeyCode::Char('u') {
        -half
    } else if key.modifiers.bits == 2 && key.code == KeyCode::Char('d') {
        half
    } else if key.code == KeyCode::PageUp {
        -spec_as_signed16(page_step)
    } else if key.code == KeyCode::PageDown {
        spec_as_signed16(page_step)
    } else if key.code == KeyCode::Up {
        -1
    } else if key.code == KeyCode::Down {
        1
    } else if key.code == KeyCode::Home {
        i16::MIN + 1
    } else if key.code == KeyCode::End {
        i16::MAX - 1
    } else {
        0
    }
}

fn as_signed16(h: u16) -> (r: i32)
    ensures
        r == spec_as_signed16(h),
{
    if h < 32768 {
        h as i32
    } else {
        h as i32 - 65536
    }
}

fn half_toward_zero(v: i32) -> (r: i32)
    requires
        -32768 <= v <= 32767,
    ensures
        r == spec_half_toward_zero(v as int),
        -16384 <= r <= 16383,
{
    if v >= 0 {
        v / 2
    } else {
        let p: i32 = -v;
        -(p / 2)
    }
}

/// Keyboard navigation for the chat transcript.
#[derive(Debug, Clone, Copy, PartialEq, Eq, Structural)]
pub struct ChatKeyboardHandler {
    scroll_step: u16,
    page_step: u16,
}

impl ChatKeyboardHandler {
    pub closed spec fn spec_scroll_step(&self) -> u16 {
        self.scroll_step
    }

    pub closed spec fn spec_page_step(&self) -> u16 {
        self.page_step
    }

    /// One line per scroll step, ten lines per page.
    pub fn new() -> (r: Self)
        ensures
            r.spec_scroll_step() == 1,
            r.spec_page_step() == 10,
    {
        ChatKeyboardHandler { scroll_step: 1, page_step: 10 }
    }

    /// Custom scroll and page steps.
    pub fn with_steps(scroll_step: u16, page_step: u16) -> (r: Self)
        ensures
            r.spec_scroll_step() == scroll_step,
            r.spec_page_step() == page_step,
    {
        ChatKeyboardHandler { scroll_step, page_step }
    }

    /// The scroll amount for a key (positive is down).
    pub fn handle_key(&self, key: &KeyEvent, visible_height: u16) -> (r: i16)
        requires
            key.code == KeyCode::PageUp ==> self.spec_page_step() != 32768,
        ensures
            r as int == spec_chat_scroll(self.spec_page_step(), *key, visible_height),
    {
        let code = key.code;
        let modifiers = key.modifiers;
        if modifiers.bits == 2 && code == KeyCode::Char('u') {
            let half = half_toward_zero(as_signed16(visible_height));
            return (-half) as i16;
        }
        if modifiers.bits == 2 && code == KeyCode::Char('d') {
            let half = half_toward_zero(as_signed16(visible_height));
            return half as i16;
        }
        if code == KeyCode::PageUp {
            let p = as_signed16(self.page_step);
            return (-p) as i16;
        }
        if code == KeyCode::PageDown {
            return as_signed16(self.page_step) as i16;
        }
        if code == KeyCode::Up {
            return -1;
        }
        if code == KeyCode::Down {
            return 1;
        }
        if code == KeyCode::Home {
            return i16::MIN + 1;
        }
        if code == KeyCode::End {
            return i16::MAX - 1;
        }
        0
    }

    /// The scroll step.
    pub fn scroll_step(&self) -> (r: u16)
        ensures
            r == self.spec_scroll_step(),
    {
        self.scroll_step
    }

    /// The page step.
    pub fn page_step(&self) -> (r: u16)
        ensures
            r == self.spec_page_step(),
    {
        self.page_step
    }
}

impl Default for ChatKeyboardHandler {
    fn default() -> (r: Self)
        ensures
            r.spec_scroll_step() == 1,
            r.spec_page_step() == 10,
    {
        ChatKeyboardHandler::new()
    }
}

/// Action on the text being edited.
#[derive(Debug, Clone, Copy, PartialEq, Eq, Structural)]
pub enum TextInputAction {
    InsertChar(char),
    DeleteBeforeCursor,
    DeleteAfterCursor,
    MoveCursorLeft,
    MoveCursorRight,
    MoveToStart,
    MoveToEnd,
    MoveToPreviousWord,
    MoveToNextWord,
    SelectToStart,
    SelectToEnd,
    Indent(usize),
    Unindent,
    Nothing,
}

/// The text action for a key, given the input's length in bytes and the
/// cursor position.
pub open spec fn spec_text_action(tab_width: usize, key: KeyEvent, input_len: usize, cursor_pos: usize)
    -> TextInputAction
{
    let ctrl = spec_bits_contain(key.modifiers.bits, 2);
    let shift = spec_bits_contain(key.modifiers.bits, 1);
    match key.code {
        KeyCode::Backspace => if cursor_pos > 0 {
            TextInputAction::DeleteBeforeCursor
        } else {
            TextInputAction::Nothing
        },
        KeyCode::Delete => if cursor_pos < input_len {
            TextInputAction::DeleteAfterCursor
        } else {
            TextInputAction::Nothing
        },
        KeyCode::Left => if ctrl {
            TextInputAction::MoveToPreviousWord
        } else if cursor_pos > 0 {
            TextInputAction::MoveCursorLeft
        } else {
            TextInputAction::Nothing
        },
        KeyCode::Right => if ctrl {
            TextInputAction::MoveToNextWord
        } else if cursor_pos < input_len {
            TextInputAction::MoveCursorRight
        } else {
            TextInputAction::Nothing
        },
        KeyCode::Home => if shift {
            TextInputAction::SelectToStart
        } else {
            TextInputAction::MoveToStart
        },
        KeyCode::End => if shift {
            TextInputAction::SelectToEnd
        } else {
            TextInputAction::MoveToEnd
        },
        KeyCode::Tab => if shift {
            TextInputAction::Unindent
        } else {
            TextInputAction::Indent(tab_width)
        },
        KeyCode::BackTab => TextInputAction::Unindent,
        KeyCode::Char(c) => TextInputAction::InsertChar(c),
        _ => TextInputAction::Nothing,
    }
}

/// Keyboard handler for the input composer.
#[derive(Debug, Clone, Copy, PartialEq, Eq, Structural)]
pub struct InputKeyboardHandler {
    tab_width: usize,
}

impl InputKeyboardHandler {
    pub closed spec fn spec_tab_width(&self) -> usize {
        self.tab_width
    }

    /// A handler whose tab inserts nothing.
    pub fn new() -> (r: Self)
        ensures
            r.spec_tab_width() == 0,
    {
        InputKeyboardHandler { tab_width: 0 }
    }

    /// A handler with the given tab width.
    pub fn with_tab_width(tab_width: usize) -> (r: Self)
        ensures
            r.spec_tab_width() == tab_width,
    {
        InputKeyboardHandler { tab_width }
    }

    /// The text action for a key on `input` with the cursor at `cursor_pos`
    /// (the input's length counts bytes, as the composer's cursor does).
    pub fn handle_input_key(&self, key: KeyEvent, input: &str, cursor_pos: usize) -> (r: TextInputAction)
        ensures
            r == spec_text_action(self.spec_tab_width(), key, input.spec_bytes().len() as usize, cursor_pos),
    {
        let code = key.code;
        let modifiers = key.modifiers;
        if code == KeyCode::Backspace {
            if cursor_pos > 0 {
                return TextInputAction::DeleteBeforeCursor;
            }
            return TextInputAction::Nothing;
        }
        if code == KeyCode::Delete {
            if cursor_pos < input.len() {
                return TextInputAction::DeleteAfterCursor;
            }
            return TextInputAction::Nothing;
        }
        if code == KeyCode::Left {
            if modifiers.contains(KeyModifiers::control()) {
                return TextInputAction::MoveToPreviousWord;
            }
            if cursor_pos > 0 {
                return TextInputAction::MoveCursorLeft;
            }
            return TextInputAction::Nothing;
        }
        if code == KeyCode::Right {
            if modifiers.contains(KeyModifiers::control()) {
                return TextInputAction::MoveToNextWord;
            }
            if cursor_pos < input.len() {
                return TextInputAction::MoveCursorRight;
            }
            return TextInputAction::Nothing;
        }
        if code == KeyCode::Home {
            if modifiers.contains(KeyModifiers::shift()) {
                return TextInputAction::SelectToStart;
            }
            return TextInputAction::MoveToStart;
        }
        if code == KeyCode::End {
            if modifiers.contains(KeyModifiers::shift()) {
                return TextInputAction::SelectToEnd;
            }
            return TextInputAction::MoveToEnd;
        }
        if code == KeyCode::Tab {
            if modifiers.contains(KeyModifiers::shift()) {
                return TextInputAction::Unindent;
            }
            return TextInputAction::Indent(self.tab_width);
        }
        if code == KeyCode::BackTab {
            return TextInputAction::Unindent;
        }
        if let KeyCode::Char(c) = code {
            return TextInputAction::InsertChar(c);
        }
        TextInputAction::Nothing
    }

    /// The tab width.
    pub fn tab_width(&self) -> (r: usize)
        ensures
            r == self.spec_tab_width(),
    {
        self.tab_width
    }
}

impl Default for InputKeyboardHandler {
    fn default() -> (r: Self)
        ensures
            r.spec_tab_width() == 0,
    {
        InputKeyboardHandler::new()
    }
}

/// A keyboard shortcut definition.
#[derive(Debug, Clone, PartialEq, Eq)]
pub struct Shortcut {
    pub key: KeyEvent,
    pub action: String,
    pub description: String,
    pub priority: u8,
}

impl Shortcut {
    /// A shortcut of priority 0.
    pub fn new(key: KeyEvent, action: String, description: String) -> (r: Self)
        ensures
            r.key == key,
            r.action == action,
            r.description == description,
            r.priority == 0,
    {
        Shortcut { key, action, description, priority: 0 }
    }

    /// A shortcut with the given priority.
    pub fn with_priority(key: KeyEvent, action: String, description: String, priority: u8) -> (r: Self)
        ensures
            r.key == key,
            r.action == action,
            r.description == description,
            r.priority == priority,
    {
        Shortcut { key, action, description, priority }
    }
}

/// Registry of custom shortcuts, in registration order.
#[derive(Debug, Clone, PartialEq, Eq)]
pub struct ShortcutRegistry {
    shortcuts: Vec<Shortcut>,
}

/// `i` is the shortcut that answers `key`: bound to that key, of the
/// greatest priority among those bound to it, and the first registered of
/// that priority.
pub open spec fn spec_is_best_by_key(s: Seq<Shortcut>, key: KeyEvent, i: int) -> bool {
    &&& 0 <= i < s.len()
    &&& spec_same_key(s[i].key, key)
    &&& forall|j: int| 0 <= j < s.len() && spec_same_key(#[trigger] s[j].key, key) ==> s[j].priority <= s[i].priority
    &&& forall|j: int| 0 <= j < i && spec_same_key(#[trigger] s[j].key, key) ==> s[j].priority < s[i].priority
}

impl ShortcutRegistry {
    pub closed spec fn spec_shortcuts(&self) -> Seq<Shortcut> {
        self.shortcuts@
    }

    /// An empty registry.
    pub fn new() -> (r: Self)
        ensures
            r.spec_shortcuts() == Seq::<Shortcut>::empty(),
    {
        ShortcutRegistry { shortcuts: Vec::new() }
    }

    /// Add a shortcut at the end.
    pub fn register(&mut self, shortcut: Shortcut)
        ensures
            final(self).spec_shortcuts() == old(self).spec_shortcuts().push(shortcut),
    {
        self.shortcuts.push(shortcut);
    }

    /// Add several shortcuts at the end, in order.
    pub fn register_many(&mut self, shortcuts: Vec<Shortcut>)
        ensures
            final(self).spec_shortcuts() == old(self).spec_shortcuts() + shortcuts@,
    {
        let mut more = shortcuts;
        self.shortcuts.append(&mut more);
    }

    /// The shortcut that answers `key`: of the shortcuts bound to that key,
    /// the one of greatest priority (higher priorities are checked first),
    /// the first registered where several share it.
    pub fn find_by_key(&self, key: &KeyEvent) -> (r: Option<&Shortcut>)
        ensures
            match r {
                Some(s) => exists|i: int| spec_is_best_by_key(self.spec_shortcuts(), *key, i) && self.spec_shortcuts()[i] == *s,
                None => forall|i: int| 0 <= i < self.spec_shortcuts().len()
                    ==> !spec_same_key(#[trigger] self.spec_shortcuts()[i].key, *key),
            },
    {
        let ghost s = self.spec_shortcuts();
        let mut best: Option<usize> = None;
        let mut i: usize = 0;
        while i < self.shortcuts.len()
            invariant
                i <= s.len(),
                s == self.shortcuts@,
                match best {
                    None => forall|j: int| 0 <= j < i ==> !spec_same_key(#[trigger] s[j].key, *key),
                    Some(b) => {
                        &&& b < i
                        &&& spec_same_key(s[b as int].key, *key)
                        &&& forall|j: int| 0 <= j < i && spec_same_key(#[trigger] s[j].key, *key) ==> s[j].priority <= s[b as int].priority
                        &&& forall|j: int| 0 <= j < b && spec_same_key(#[trigger] s[j].key, *key) ==> s[j].priority < s[b as int].priority
                    },
                },
            decreases s.len() - i,
        {
            if same_key(&self.shortcuts[i].key, key) {
                let better = match best {
                    None => true,
                    Some(b) => self.shortcuts[i].priority > self.shortcuts[b].priority,
                };
                if better {
                    best = Some(i);
                }
            }
            i = i + 1;
        }
        match best {
            Some(b) => {
                proof {
                    assert(spec_is_best_by_key(s, *key, b as int));
                }
                Some(&self.shortcuts[b])
            },
            None => None,
        }
    }

    /// All shortcuts with the given action name, in registration order.
    pub fn find_by_action(&self, action: &str) -> (r: Vec<&Shortcut>)
        ensures
            r@.len() <= self.spec_shortcuts().len(),
            r@.map_values(|s: &Shortcut| *s) == self.spec_shortcuts().filter(|s: Shortcut| s.action@ == action@),
    {
        let mut out: Vec<&Shortcut> = Vec::new();
        let mut i: usize = 0;
        while i < self.shortcuts.len()
            invariant
                i <= self.shortcuts@.len(),
                out@.len() <= i,
                out@.map_values(|s: &Shortcut| *s) == self.shortcuts@.take(i as int).filter(|s: Shortcut| s.action@ == action@),
            decreases self.shortcuts@.len() - i,
        {
            proof {
                reveal_with_fuel(Seq::<_>::filter, 1);
                assert(self.shortcuts@.take(i + 1).drop_last() =~= self.shortcuts@.take(i as int));
            }
            if crate::text::str_eq(self.shortcuts[i].action.as_str(), action) {
                out.push(&self.shortcuts[i]);
                proof {
                    assert(out@.map_values(|s: &Shortcut| *s) =~= self.shortcuts@.take(i + 1).filter(|s: Shortcut| s.action@ == action@));
                }
            }
            i = i + 1;
        }
        proof {
            assert(self.shortcuts@.take(self.shortcuts@.len() as int) =~= self.shortcuts@);
        }
        out
    }

    /// All shortcuts, in registration order.
    pub fn all(&self) -> (r: &[Shortcut])
        ensures
            r@ == self.spec_shortcuts(),
    {
        self.shortcuts.as_slice()
    }

    /// Remove every shortcut.
    pub fn clear(&mut self)
        ensures
            final(self).spec_shortcuts() == Seq::<Shortcut>::empty(),
    {
        self.shortcuts.clear();
    }
}

impl Default for ShortcutRegistry {
    fn default() -> (r: Self)
        ensures
            r.spec_shortcuts() == Seq::<Shortcut>::empty(),
    {
        ShortcutRegistry::new()
    }
}

/// Modifier keys and lock state.
#[derive(Debug, Clone, Copy, PartialEq, Eq, Structural)]
pub struct KeyboardState {
    pub active_modifiers: KeyModifiers,
    pub caps_lock: bool,
    pub num_lock: bool,
}

impl KeyboardState {
    /// No modifier held, no lock on.
    pub fn new() -> (r: Self)
        ensures
            r == (KeyboardState { active_modifiers: KeyModifiers { bits: 0 }, caps_lock: false, num_lock: false }),
    {
        KeyboardState { active_modifiers: KeyModifiers::none(), caps_lock: false, num_lock: false }
    }

    /// Take the modifiers of a key event.
    pub fn update_from_key(&mut self, key: &KeyEvent)
        ensures
            *final(self) == (KeyboardState { active_modifiers: key.modifiers, ..*old(self) }),
    {
        self.active_modifiers = key.modifiers;
    }

    /// Whether every modifier of `modifier` is held.
    pub fn has_modifier(&self, modifier: KeyModifiers) -> (r: bool)
        ensures
            r == spec_bits_contain(self.active_modifiers.bits, modifier.bits),
    {
        self.active_modifiers.contains(modifier)
    }

    /// Back to no modifier and no lock.
    pub fn reset(&mut self)
        ensures
            *final(self) == (KeyboardState { active_modifiers: KeyModifiers { bits: 0 }, caps_lock: false, num_lock: false }),
    {
        self.active_modifiers = KeyModifiers::none();
        self.caps_lock = false;
        self.num_lock = false;
    }
}

impl Default for KeyboardState {
    fn default() -> (r: Self)
        ensures
            r == (KeyboardState { active_modifiers: KeyModifiers { bits: 0 }, caps_lock: false, num_lock: false }),
    {
        KeyboardState::new()
    }
}

} // verus!
