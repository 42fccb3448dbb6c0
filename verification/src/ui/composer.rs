//! The input composer: the text being typed, its cursor, its mode and the
//! history of what was sent.
//!
//! The cursor is a character index into the text.

use vstd::prelude::*;
use crate::chars::copy_range;
use crate::handlers::events::{KeyCode, KeyEvent};
use crate::state::config::{ChatColorsRgb, InputMode};
use crate::text::{chars_of, concat, owned, str_eq, string_of};

verus! {

/// Most entries the history keeps.
pub const HISTORY_LIMIT: usize = 100;

/// The input composer.
#[derive(Debug, Clone)]
pub struct InputComposer {
    input: String,
    cursor_pos: usize,
    input_mode: InputMode,
    colors: ChatColorsRgb,
    prompt: String,
    active: bool,
    history: Vec<String>,
    history_index: isize,
    saved_input: String,
}

/// The view of the composer.
pub ghost struct ComposerView {
    pub input: Seq<char>,
    pub cursor: usize,
    pub mode: InputMode,
    pub colors: ChatColorsRgb,
    pub prompt: Seq<char>,
    pub active: bool,
    pub history: Seq<Seq<char>>,
    pub history_index: isize,
    pub saved: Seq<char>,
}

impl View for InputComposer {
    type V = ComposerView;

    closed spec fn view(&self) -> ComposerView {
        ComposerView {
            input: self.input@,
            cursor: self.cursor_pos,
            mode: self.input_mode,
            colors: self.colors,
            prompt: self.prompt@,
            active: self.active,
            history: self.history@.map_values(|h: String| h@),
            history_index: self.history_index,
            saved: self.saved_input@,
        }
    }
}

/// The prompt shown for each mode.
pub open spec fn spec_mode_prompt(m: InputMode) -> Seq<char> {
    match m {
        InputMode::Normal => ">> "@,
        InputMode::Insert => ": "@,
        InputMode::Command => "/ "@,
    }
}

/// The placeholder shown for each mode while nothing is typed.
pub open spec fn spec_placeholder(m: InputMode) -> Seq<char> {
    match m {
        InputMode::Normal => "Type your message..."@,
        InputMode::Insert => "Insert text..."@,
        InputMode::Command => "Enter command (e.g., /help)..."@,
    }
}

/// Well-formed: a browsed history entry exists, and the cursor lies within
/// the text.
pub open spec fn spec_composer_wf(v: ComposerView) -> bool {
    &&& -1 <= v.history_index < v.history.len()
    &&& v.history.len() <= HISTORY_LIMIT
    &&& v.cursor <= v.input.len()
}

/// Whether a key's edit fits the machine: typing needs room for one more
/// character.
pub open spec fn spec_key_edit_ok(v: ComposerView, code: KeyCode) -> bool {
    code is Char ==> v.input.len() < usize::MAX
}

/// The composer with the history browsing forgotten.
pub open spec fn spec_cancel_history(v: ComposerView) -> ComposerView {
    ComposerView { history_index: -1isize, saved: Seq::empty(), ..v }
}

/// The composer with its text replaced and the cursor at the end.
pub open spec fn spec_set_input(v: ComposerView, s: Seq<char>) -> ComposerView {
    ComposerView { input: s, cursor: s.len() as usize, ..v }
}

/// The history after sending `t`: empty texts and repeats of the newest
/// entry are not kept; the oldest entry leaves beyond the limit.
pub open spec fn spec_add_history(v: ComposerView, t: Seq<char>) -> ComposerView {
    if t.len() == 0 || (v.history.len() > 0 && v.history.last() == t) {
        v
    } else {
        let h = v.history.push(t);
        ComposerView {
            history: if h.len() > HISTORY_LIMIT { h.drop_first() } else { h },
            history_index: -1isize,
            saved: Seq::empty(),
            ..v
        }
    }
}

/// The composer after stepping back in the history.
pub open spec fn spec_history_previous(v: ComposerView) -> ComposerView {
    if v.history.len() == 0 {
        v
    } else {
        let (idx, saved) = if v.history_index < 0 {
            ((v.history.len() - 1) as isize, v.input)
        } else if v.history_index > 0 {
            ((v.history_index - 1) as isize, v.saved)
        } else {
            (v.history_index, v.saved)
        };
        spec_set_input(ComposerView { history_index: idx, saved, ..v }, v.history[idx as int])
    }
}

/// The composer after stepping forward in the history; past the newest
/// entry the text typed before browsing comes back.
pub open spec fn spec_history_next(v: ComposerView) -> ComposerView {
    if v.history_index < 0 {
        v
    } else if v.history_index < v.history.len() - 1 {
        let idx = (v.history_index + 1) as isize;
        spec_set_input(ComposerView { history_index: idx, ..v }, v.history[idx as int])
    } else {
        ComposerView { history_index: -1isize, input: v.saved, cursor: v.saved.len() as usize, saved: Seq::empty(), ..v }
    }
}

/// The composer after a key, and whether the key was taken.
pub open spec fn spec_composer_key(v: ComposerView, code: KeyCode) -> (ComposerView, bool) {
    let n = v.input.len();
    if !v.active {
        (v, false)
    } else {
        match code {
            KeyCode::Char(c) => {
                let p = if v.cursor < n { v.cursor as int } else { n as int };
                (spec_cancel_history(ComposerView {
                    input: v.input.take(p).push(c) + v.input.skip(p),
                    cursor: (p + 1) as usize,
                    ..v
                }), true)
            },
            KeyCode::Backspace => if v.cursor > 0 {
                let p = v.cursor - 1;
                (spec_cancel_history(ComposerView {
                    input: v.input.take(p) + v.input.skip(p + 1),
                    cursor: p as usize,
                    ..v
                }), true)
            } else {
                (v, true)
            },
            KeyCode::Delete => if v.cursor < n {
                let p = v.cursor as int;
                (spec_cancel_history(ComposerView {
                    input: v.input.take(p) + v.input.skip(p + 1),
                    ..v
                }), true)
            } else {
                (v, true)
            },
            KeyCode::Left => (if v.cursor > 0 { ComposerView { cursor: (v.cursor - 1) as usize, ..v } } else { v }, true),
            KeyCode::Right => (if v.cursor < n { ComposerView { cursor: (v.cursor + 1) as usize, ..v } } else { v }, true),
            KeyCode::Home => (ComposerView { cursor: 0, ..v }, true),
            KeyCode::End => (ComposerView { cursor: n as usize, ..v }, true),
            KeyCode::Enter => {
                let w = spec_add_history(v, v.input);
                (ComposerView { saved: v.input, input: Seq::empty(), cursor: 0, ..w }, true)
            },
            KeyCode::Esc => (spec_cancel_history(ComposerView { input: Seq::empty(), cursor: 0, ..v }), true),
            KeyCode::Up => (spec_history_previous(v), true),
            KeyCode::Down => (spec_history_next(v), true),
            _ => (v, false),
        }
    }
}

/// `cs` with the characters from `from` up to `to` replaced by `mid`.
fn splice(cs: &[char], from: usize, to: usize, mid: &[char]) -> (r: String)
    requires
        from <= to <= cs@.len(),
    ensures
        r@ == cs@.take(from as int) + mid@ + cs@.skip(to as int),
{
    let mut out = copy_range(cs, 0, from);
    let mut i: usize = 0;
    while i < mid.len()
        invariant
            i <= mid@.len(),
            out@ == cs@.take(from as int) + mid@.take(i as int),
        decreases mid@.len() - i,
    {
        out.push(mid[i]);
        proof {
            assert(mid@.take(i + 1) =~= mid@.take(i as int).push(mid@[i as int]));
            assert(out@ =~= cs@.take(from as int) + mid@.take(i + 1));
        }
        i = i + 1;
    }
    let tail = copy_range(cs, to, cs.len());
    let mut j: usize = 0;
    let ghost head = out@;
    while j < tail.len()
        invariant
            j <= tail@.len(),
            out@ == head + tail@.take(j as int),
        decreases tail@.len() - j,
    {
        out.push(tail[j]);
        proof {
            assert(tail@.take(j + 1) =~= tail@.take(j as int).push(tail@[j as int]));
            assert(out@ =~= head + tail@.take(j + 1));
        }
        j = j + 1;
    }
    proof {
        assert(mid@.take(mid@.len() as int) =~= mid@);
        assert(tail@.take(tail@.len() as int) =~= tail@);
        assert(cs@.take(from as int) =~= cs@.subrange(0, from as int));
        assert(cs@.skip(to as int) =~= cs@.subrange(to as int, cs@.len() as int));
    }
    string_of(&out)
}

impl InputComposer {
    /// An empty, active composer in normal mode.
    pub fn new(colors: ChatColorsRgb) -> (r: Self)
        ensures
            spec_composer_wf(r@),
            r@ == (ComposerView {
                input: Seq::empty(),
                cursor: 0,
                mode: InputMode::Normal,
                colors,
                prompt: ">> "@,
                active: true,
                history: Seq::empty(),
                history_index: -1isize,
                saved: Seq::empty(),
            }),
    {
        let r = InputComposer {
            input: String::new(),
            cursor_pos: 0,
            input_mode: InputMode::Normal,
            colors,
            prompt: owned(">> "),
            active: true,
            history: Vec::new(),
            history_index: -1isize,
            saved_input: String::new(),
        };
        assert(r@.input =~= Seq::<char>::empty());
        assert(r@.saved =~= Seq::<char>::empty());
        assert(r@.history =~= Seq::<Seq<char>>::empty());
        r
    }

    /// An empty composer with the default colours.
    pub fn with_defaults() -> (r: Self)
        ensures
            spec_composer_wf(r@),
            r@ == (ComposerView {
                input: Seq::empty(),
                cursor: 0,
                mode: InputMode::Normal,
                colors: crate::state::config::spec_chat_colors_rgb(crate::state::config::spec_default_chat_colors()),
                prompt: ">> "@,
                active: true,
                history: Seq::empty(),
                history_index: -1isize,
                saved: Seq::empty(),
            }),
    {
        InputComposer::new(ChatColorsRgb::default())
    }

    /// Set the mode; the prompt follows it.
    pub fn set_input_mode(&mut self, mode: InputMode)
        ensures
            final(self)@ == (ComposerView { mode, prompt: spec_mode_prompt(mode), ..old(self)@ }),
    {
        self.input_mode = mode;
        self.prompt = match mode {
            InputMode::Normal => owned(">> "),
            InputMode::Insert => owned(": "),
            InputMode::Command => owned("/ "),
        };
    }

    /// Handle a key while active; returns whether the key was taken.
    pub fn handle_key_event(&mut self, key: KeyEvent) -> (r: bool)
        requires
            spec_composer_wf(old(self)@),
            spec_key_edit_ok(old(self)@, key.code),
        ensures
            spec_composer_wf(final(self)@),
            (final(self)@, r) == spec_composer_key(old(self)@, key.code),
    {
        if !self.active {
            return false;
        }
        let cs = chars_of(self.input.as_str());
        let n = cs.len();
        match key.code {
            KeyCode::Char(c) => {
                let p = if self.cursor_pos < n { self.cursor_pos } else { n };
                let t = splice(&cs, p, p, &[c]);
                proof {
                    assert(seq![c] =~= Seq::<char>::empty().push(c));
                    assert(t@ =~= old(self)@.input.take(p as int).push(c) + old(self)@.input.skip(p as int));
                }
                self.input = t;
                self.cursor_pos = p + 1;
                self.cancel_history();
                true
            },
            KeyCode::Backspace => {
                if self.cursor_pos > 0 {
                    let p = self.cursor_pos - 1;
                    let t = splice(&cs, p, p + 1, &[]);
                    proof {
                        assert(t@ =~= old(self)@.input.take(p as int) + old(self)@.input.skip(p + 1));
                    }
                    self.input = t;
                    self.cursor_pos = p;
                    self.cancel_history();
                }
                true
            },
            KeyCode::Delete => {
                if self.cursor_pos < n {
                    let p = self.cursor_pos;
                    let t = splice(&cs, p, p + 1, &[]);
                    proof {
                        assert(t@ =~= old(self)@.input.take(p as int) + old(self)@.input.skip(p + 1));
                    }
                    self.input = t;
                    self.cancel_history();
                }
                true
            },
            KeyCode::Left => {
                if self.cursor_pos > 0 {
                    self.cursor_pos = self.cursor_pos - 1;
                }
                true
            },
            KeyCode::Right => {
                if self.cursor_pos < n {
                    self.cursor_pos = self.cursor_pos + 1;
                }
                true
            },
            KeyCode::Home => {
                self.cursor_pos = 0;
                true
            },
            KeyCode::End => {
                self.cursor_pos = n;
                true
            },
            KeyCode::Enter => {
                let text = self.input.clone();
                if !text.as_str().is_empty() {
                    self.add_to_history(text.clone());
                }
                proof {
                    if text@.len() == 0 {
                        assert(spec_add_history(old(self)@, text@) == old(self)@);
                    }
                }
                self.saved_input = text;
                self.input = String::new();
                self.cursor_pos = 0;
                assert(self@.input =~= Seq::<char>::empty());
                true
            },
            KeyCode::Esc => {
                self.clear();
                true
            },
            KeyCode::Up => {
                self.history_previous();
                true
            },
            KeyCode::Down => {
                self.history_next();
                true
            },
            _ => false,
        }
    }

    /// The text typed.
    pub fn get_input(&self) -> (r: &str)
        ensures
            r@ == self@.input,
    {
        self.input.as_str()
    }

    /// The cursor, as a character index.
    pub fn cursor_pos(&self) -> (r: usize)
        ensures
            r == self@.cursor,
    {
        self.cursor_pos
    }

    /// The prompt shown before the text.
    pub fn prompt(&self) -> (r: &str)
        ensures
            r@ == self@.prompt,
    {
        self.prompt.as_str()
    }

    /// Replace the text; the cursor goes to its end.
    pub fn set_input(&mut self, text: &str)
        ensures
            final(self)@ == spec_set_input(old(self)@, text@),
    {
        let cs = chars_of(text);
        self.input = owned(text);
        self.cursor_pos = cs.len();
    }

    /// Insert text at the cursor, which moves past it.
    pub fn insert_text(&mut self, text: &str)
        requires
            old(self)@.input.len() + text@.len() <= usize::MAX,
        ensures
            ({
                let n = old(self)@.input.len();
                let p = if old(self)@.cursor < n { old(self)@.cursor as int } else { n as int };
                final(self)@ == (ComposerView {
                    input: old(self)@.input.take(p) + text@ + old(self)@.input.skip(p),
                    cursor: (p + text@.len()) as usize,
                    ..old(self)@
                })
            }),
    {
        let cs = chars_of(self.input.as_str());
        let n = cs.len();
        let p = if self.cursor_pos < n { self.cursor_pos } else { n };
        let ts = chars_of(text);
        let k = ts.len();
        let t = splice(&cs, p, p, &ts);
        self.input = t;
        self.cursor_pos = p + k;
    }

    /// Clear the text and forget the history browsing.
    pub fn clear(&mut self)
        ensures
            final(self)@ == spec_cancel_history(ComposerView { input: Seq::empty(), cursor: 0, ..old(self)@ }),
    {
        self.input = String::new();
        self.cursor_pos = 0;
        self.cancel_history();
        assert(self@.input =~= Seq::<char>::empty());
    }

    /// Record a sent text in the history.
    pub fn add_to_history(&mut self, text: String)
        requires
            spec_composer_wf(old(self)@),
        ensures
            spec_composer_wf(final(self)@),
            final(self)@ == spec_add_history(old(self)@, text@),
    {
        if text.as_str().is_empty() {
            return;
        }
        let n = self.history.len();
        if n > 0 && str_eq(self.history[n - 1].as_str(), text.as_str()) {
            return;
        }
        let ghost t = text@;
        let ghost before = self@.history;
        self.history.push(text);
        if self.history.len() > HISTORY_LIMIT {
            self.history.remove(0);
        }
        self.history_index = -1;
        self.saved_input = String::new();
        proof {
            let h = before.push(t);
            assert(self@.history =~= if h.len() > HISTORY_LIMIT { h.drop_first() } else { h });
            assert(self@.saved =~= Seq::<char>::empty());
        }
    }

    /// Step back in the history.
    pub fn history_previous(&mut self)
        requires
            spec_composer_wf(old(self)@),
        ensures
            spec_composer_wf(final(self)@),
            final(self)@ == spec_history_previous(old(self)@),
    {
        let n = self.history.len();
        if n == 0 {
            return;
        }
        if self.history_index < 0 {
            self.saved_input = self.input.clone();
            self.history_index = (n - 1) as isize;
        } else if self.history_index > 0 {
            self.history_index = self.history_index - 1;
        }
        let index = self.history_index as usize;
        let entry = self.history[index].clone();
        self.set_input(entry.as_str());
    }

    /// Step forward in the history; past the newest entry the text typed
    /// before browsing comes back.
    pub fn history_next(&mut self)
        requires
            spec_composer_wf(old(self)@),
        ensures
            spec_composer_wf(final(self)@),
            final(self)@ == spec_history_next(old(self)@),
    {
        if self.history_index < 0 {
            return;
        }
        let n = self.history.len();
        if self.history_index < (n - 1) as isize {
            self.history_index = self.history_index + 1;
            let index = self.history_index as usize;
            let entry = self.history[index].clone();
            self.set_input(entry.as_str());
        } else {
            self.history_index = -1;
            let saved = self.saved_input.clone();
            self.set_input(saved.as_str());
            self.saved_input = String::new();
            assert(self@.saved =~= Seq::<char>::empty());
        }
    }

    /// Forget the history browsing.
    pub fn cancel_history(&mut self)
        ensures
            final(self)@ == spec_cancel_history(old(self)@),
    {
        self.history_index = -1;
        self.saved_input = String::new();
        assert(self@.saved =~= Seq::<char>::empty());
    }

    pub fn set_active(&mut self, active: bool)
        ensures
            final(self)@ == (ComposerView { active, ..old(self)@ }),
    {
        self.active = active;
    }

    pub fn is_active(&self) -> (r: bool)
        ensures
            r == self@.active,
    {
        self.active
    }

    pub fn input_mode(&self) -> (r: InputMode)
        ensures
            r == self@.mode,
    {
        self.input_mode
    }

    pub fn set_colors(&mut self, colors: ChatColorsRgb)
        ensures
            final(self)@ == (ComposerView { colors, ..old(self)@ }),
    {
        self.colors = colors;
    }

    pub fn colors(&self) -> (r: &ChatColorsRgb)
        ensures
            *r == self@.colors,
    {
        &self.colors
    }

    /// The history, oldest first.
    pub fn history(&self) -> (r: &[String])
        ensures
            r@.map_values(|h: String| h@) == self@.history,
    {
        self.history.as_slice()
    }

    /// Forget the history.
    pub fn clear_history(&mut self)
        ensures
            spec_composer_wf(old(self)@) ==> spec_composer_wf(final(self)@),
            final(self)@ == (ComposerView { history: Seq::empty(), history_index: -1isize, saved: Seq::empty(), ..old(self)@ }),
    {
        self.history.clear();
        self.history_index = -1;
        self.saved_input = String::new();
        assert(self@.history =~= Seq::<Seq<char>>::empty());
        assert(self@.saved =~= Seq::<char>::empty());
    }

    /// What the composer shows: the prompt, then the text or, when nothing
    /// is typed, the mode's placeholder.
    pub fn display_text(&self) -> (r: String)
        ensures
            r@ == self@.prompt + if self@.input.len() == 0 { spec_placeholder(self@.mode) } else { self@.input },
    {
        if self.input.as_str().is_empty() {
            let placeholder = match self.input_mode {
                InputMode::Normal => "Type your message...",
                InputMode::Insert => "Insert text...",
                InputMode::Command => "Enter command (e.g., /help)...",
            };
            concat(self.prompt.as_str(), placeholder)
        } else {
            concat(self.prompt.as_str(), self.input.as_str())
        }
    }
}


/// Stepping back into the history and forward again out of it gives back
/// the text that was being typed, wherever there is a history and no
/// browsing was under way.
pub proof fn lemma_history_round_trip(v: ComposerView)
    requires
        spec_composer_wf(v),
        v.history.len() > 0,
        v.history_index == -1,
    ensures
        spec_history_next(spec_history_previous(v)).input == v.input,
        spec_history_next(spec_history_previous(v)).history_index == -1,
        spec_history_next(spec_history_previous(v)).history == v.history,
{
}


/// Law: typing a character with the cursor at `p` puts it at `p` — the text
/// before the cursor, the character, then the text after — and the cursor
/// moves just past it.
pub proof fn lemma_typing_inserts_at_cursor(v: ComposerView, c: char)
    requires
        spec_composer_wf(v),
        v.active,
        v.input.len() < usize::MAX,
    ensures
        spec_composer_key(v, KeyCode::Char(c)).0.input
            == v.input.subrange(0, v.cursor as int) + seq![c] + v.input.subrange(v.cursor as int, v.input.len() as int),
        spec_composer_key(v, KeyCode::Char(c)).0.cursor == v.cursor + 1,
        spec_composer_key(v, KeyCode::Char(c)).0.input.len() == v.input.len() + 1,
        spec_composer_key(v, KeyCode::Char(c)).0.input[v.cursor as int] == c,
{
    let p = v.cursor as int;
    let r = spec_composer_key(v, KeyCode::Char(c)).0;
    assert(v.input.take(p).push(c) + v.input.skip(p)
        =~= v.input.subrange(0, p) + seq![c] + v.input.subrange(p, v.input.len() as int));
    assert(r.input[p] == c);
}


/// Law: Backspace removes the character just before the cursor and moves
/// the cursor onto its place; Delete removes the character at the cursor
/// and leaves the cursor; at the start (or the end) they change nothing.
pub proof fn lemma_erasing_at_cursor(v: ComposerView)
    requires
        spec_composer_wf(v),
        v.active,
    ensures
        v.cursor > 0 ==> spec_composer_key(v, KeyCode::Backspace).0.input
            == v.input.subrange(0, v.cursor - 1) + v.input.subrange(v.cursor as int, v.input.len() as int)
            && spec_composer_key(v, KeyCode::Backspace).0.cursor == v.cursor - 1,
        v.cursor == 0 ==> spec_composer_key(v, KeyCode::Backspace).0 == v,
        v.cursor < v.input.len() ==> spec_composer_key(v, KeyCode::Delete).0.input
            == v.input.subrange(0, v.cursor as int) + v.input.subrange(v.cursor + 1, v.input.len() as int)
            && spec_composer_key(v, KeyCode::Delete).0.cursor == v.cursor,
        v.cursor == v.input.len() ==> spec_composer_key(v, KeyCode::Delete).0 == v,
{
    let p = v.cursor as int;
    if p > 0 {
        assert(v.input.take(p - 1) + v.input.skip(p - 1 + 1)
            =~= v.input.subrange(0, p - 1) + v.input.subrange(p, v.input.len() as int));
    }
    if p < v.input.len() {
        assert(v.input.take(p) + v.input.skip(p + 1)
            =~= v.input.subrange(0, p) + v.input.subrange(p + 1, v.input.len() as int));
    }
}

/// Law: Left and Right move the cursor one character within the text, Home
/// and End to its ends; none of them changes the text.
pub proof fn lemma_cursor_moves(v: ComposerView)
    requires
        spec_composer_wf(v),
        v.active,
        v.input.len() <= usize::MAX,
    ensures
        spec_composer_key(v, KeyCode::Left).0.cursor == if v.cursor > 0 { v.cursor - 1 } else { 0 },
        spec_composer_key(v, KeyCode::Right).0.cursor == if v.cursor < v.input.len() { v.cursor + 1 } else { v.cursor as int },
        spec_composer_key(v, KeyCode::Home).0.cursor == 0,
        spec_composer_key(v, KeyCode::End).0.cursor == v.input.len(),
        spec_composer_key(v, KeyCode::Left).0.input == v.input,
        spec_composer_key(v, KeyCode::Right).0.input == v.input,
        spec_composer_key(v, KeyCode::Home).0.input == v.input,
        spec_composer_key(v, KeyCode::End).0.input == v.input,
{
}

} // verus!
