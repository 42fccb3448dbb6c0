//! The status bar: what it shows and the thinking animation's state.

use vstd::prelude::*;

use crate::chars::{spec_split_once, spec_trim, split_once, trim};
use crate::state::color::Color;
use crate::state::config::{
    spec_chat_colors_rgb, spec_default_chat_colors, ChatColorsRgb, FocusPane, InputMode,
    ThemeColorsRgb,
};
use crate::text::{chars_of, concat, decimal, owned, spec_decimal, str_eq, string_of};

verus! {

/// One piece of text of the status bar.
#[derive(Debug, Clone, PartialEq, Eq)]
pub struct ToolbarItem {
    /// The text shown.
    pub text: String,
}

impl ToolbarItem {
    /// An item showing `text`.
    pub fn new(text: &str) -> (r: Self)
        ensures
            r.text@ == text@,
    {
        ToolbarItem { text: owned(text) }
    }

    /// The text shown.
    pub fn text(&self) -> (r: &str)
        ensures
            r@ == self.text@,
    {
        self.text.as_str()
    }
}

impl Default for ChatColorsRgb {
    fn default() -> (r: Self)
        ensures
            r == spec_chat_colors_rgb(spec_default_chat_colors()),
    {
        ChatColorsRgb {
            user_bg: Color::Indexed(238),
            user_text: Color::Indexed(252),
            assistant_bg: Color::Indexed(236),
            assistant_text: Color::Indexed(248),
            system_bg: Color::Indexed(235),
            system_text: Color::Indexed(245),
            tool_bg: Color::Indexed(237),
            tool_text: Color::Indexed(243),
            code_bg: Color::Indexed(233),
            code_text: Color::Indexed(252),
            border: Color::Indexed(240),
            timestamp: Color::Indexed(246),
        }
    }
}

/// The name shown for an input mode.
pub open spec fn spec_mode_name(m: InputMode) -> Seq<char> {
    match m {
        InputMode::Normal => "Normal"@,
        InputMode::Insert => "Insert"@,
        InputMode::Command => "Command"@,
    }
}

/// The items the status bar shows for a given status, in order: the
/// connection dot, the model, the provider, the session, the message count
/// (when there are messages) and the input mode.
pub open spec fn spec_status_items(
    connected: bool,
    model: Option<Seq<char>>,
    provider: Option<Seq<char>>,
    session: Option<Seq<char>>,
    count: nat,
    mode: InputMode,
) -> Seq<Seq<char>> {
    seq![if connected { "●"@ } else { "○"@ }]
        + (match model { Some(m) => seq!["Model: "@ + m], None => Seq::empty() })
        + (match provider { Some(p) => seq!["Provider: "@ + p], None => Seq::empty() })
        + (match session { Some(n) => seq!["Session: "@ + n], None => Seq::empty() })
        + (if count > 0 { seq!["Msgs: "@ + spec_decimal(count)] } else { Seq::empty() })
        + seq!["Mode: "@ + spec_mode_name(mode)]
}

/// The faces of the thinking animation.
pub open spec fn spec_faces() -> Seq<Seq<char>> {
    seq!["(≡)"@, "(≌)"@, "(‿)"@, "(◈)"@, "(Ψ)"@, "(🦑)"@]
}

/// The verbs of the thinking animation.
pub open spec fn spec_verbs() -> Seq<Seq<char>> {
    seq![
        "stirring the abyss"@,
        "unfurling tentacles"@,
        "charting deep currents"@,
        "inking the void"@,
        "tangling with the unknown"@,
        "sounding the trench"@,
        "coiling for strike"@,
        "reading pressure ridges"@,
        "glowing in the dark"@,
        "shedding a bioluminescent tear"@,
        "befriending a gulper eel"@,
        "counting jellyfish"@,
        "spiraling downward"@,
        "mapping the sea floor"@,
        "teasing the leviathan"@,
        "whispering to barnacles"@,
    ]
}

/// The thinking label for a spinner position and verb position.
pub open spec fn spec_thinking_label(spinner: usize, verb: usize) -> Seq<char> {
    " "@ + spec_faces()[((spinner / 10) % 6) as int] + " "@ + spec_verbs()[(verb % 16) as int] + "... "@
}

/// A label of the status bar, with its value where the item has one
/// (`label: value`).
#[derive(Debug, Clone, PartialEq, Eq)]
pub struct StatusSegment {
    pub label: String,
    pub value: Option<String>,
}

/// The view of a segment.
pub open spec fn spec_segment_view(s: StatusSegment) -> (Seq<char>, Option<Seq<char>>) {
    (s.label@, match s.value { Some(v) => Some(v@), None => None })
}

/// The segments the items make: each item trimmed; connection dots and empty
/// items left out; an item split at its first ": " into label and value.
pub open spec fn spec_segments(items: Seq<Seq<char>>) -> Seq<(Seq<char>, Option<Seq<char>>)>
    decreases items.len(),
{
    if items.len() == 0 {
        Seq::empty()
    } else {
        let prev = spec_segments(items.drop_last());
        let t = spec_trim(items.last());
        if t == "●"@ || t == "○"@ || t.len() == 0 {
            prev
        } else {
            match spec_split_once(t, ": "@) {
                Some((l, v)) => prev.push((l, Some(v))),
                None => prev.push((t, None)),
            }
        }
    }
}

fn face(i: usize) -> (r: &'static str)
    requires
        i < 6,
    ensures
        r@ == spec_faces()[i as int],
{
    match i {
        0 => "(≡)",
        1 => "(≌)",
        2 => "(‿)",
        3 => "(◈)",
        4 => "(Ψ)",
        _ => "(🦑)",
    }
}

fn verb(i: usize) -> (r: &'static str)
    requires
        i < 16,
    ensures
        r@ == spec_verbs()[i as int],
{
    match i {
        0 => "stirring the abyss",
        1 => "unfurling tentacles",
        2 => "charting deep currents",
        3 => "inking the void",
        4 => "tangling with the unknown",
        5 => "sounding the trench",
        6 => "coiling for strike",
        7 => "reading pressure ridges",
        8 => "glowing in the dark",
        9 => "shedding a bioluminescent tear",
        10 => "befriending a gulper eel",
        11 => "counting jellyfish",
        12 => "spiraling downward",
        13 => "mapping the sea floor",
        14 => "teasing the leviathan",
        _ => "whispering to barnacles",
    }
}

/// The status bar.
#[derive(Debug, Clone)]
pub struct Toolbar {
    items: Vec<ToolbarItem>,
    theme_colors: ThemeColorsRgb,
    chat_colors: ChatColorsRgb,
    input_mode: InputMode,
    is_thinking: bool,
    spinner_idx: usize,
    verb_idx: usize,
    prefix_mode: bool,
}

impl Toolbar {
    /// The texts of the items, in order.
    pub closed spec fn item_texts(&self) -> Seq<Seq<char>> {
        self.items@.map_values(|i: ToolbarItem| i.text@)
    }

    pub closed spec fn mode(&self) -> InputMode {
        self.input_mode
    }

    pub closed spec fn thinking(&self) -> bool {
        self.is_thinking
    }

    pub closed spec fn spinner(&self) -> usize {
        self.spinner_idx
    }

    pub closed spec fn verb_index(&self) -> usize {
        self.verb_idx
    }

    pub closed spec fn prefix(&self) -> bool {
        self.prefix_mode
    }

    pub closed spec fn themes(&self) -> (ThemeColorsRgb, ChatColorsRgb) {
        (self.theme_colors, self.chat_colors)
    }

    /// An empty status bar in normal mode.
    pub fn new(theme_colors: ThemeColorsRgb, chat_colors: ChatColorsRgb) -> (r: Self)
        ensures
            r.item_texts() == Seq::<Seq<char>>::empty(),
            r.themes() == (theme_colors, chat_colors),
            r.mode() == InputMode::Normal,
            !r.thinking() && !r.prefix(),
            r.spinner() == 0 && r.verb_index() == 0,
    {
        let r = Toolbar {
            items: Vec::new(),
            theme_colors,
            chat_colors,
            input_mode: InputMode::Normal,
            is_thinking: false,
            spinner_idx: 0,
            verb_idx: 0,
            prefix_mode: false,
        };
        assert(r.item_texts() =~= Seq::<Seq<char>>::empty());
        r
    }

    /// An empty status bar with the default colours.
    pub fn with_defaults() -> (r: Self)
        ensures
            r.item_texts() == Seq::<Seq<char>>::empty(),
            r.themes().0 == (ThemeColorsRgb {
                background: Color::Reset,
                text: Color::Reset,
                primary: Color::Indexed(13),
                secondary: Color::Indexed(14),
                accent: Color::Indexed(11),
                error: Color::Red,
                success: Color::Green,
                warning: Color::Yellow,
            }),
            r.themes().1 == spec_chat_colors_rgb(spec_default_chat_colors()),
            r.mode() == InputMode::Normal,
            !r.thinking() && !r.prefix(),
            r.spinner() == 0 && r.verb_index() == 0,
    {
        Toolbar::new(
            ThemeColorsRgb {
                background: Color::Reset,
                text: Color::Reset,
                primary: Color::Indexed(13),
                secondary: Color::Indexed(14),
                accent: Color::Indexed(11),
                error: Color::Red,
                success: Color::Green,
                warning: Color::Yellow,
            },
            ChatColorsRgb::default(),
        )
    }

    /// Set the input mode.
    pub fn set_input_mode(&mut self, mode: InputMode)
        ensures
            final(self).mode() == mode,
            final(self).item_texts() == old(self).item_texts(),
            final(self).prefix() == old(self).prefix(),
            final(self).thinking() == old(self).thinking(),
    {
        self.input_mode = mode;
    }

    /// Set whether the prefix indicator shows.
    pub fn set_prefix_mode(&mut self, active: bool)
        ensures
            final(self).prefix() == active,
            final(self).mode() == old(self).mode(),
            final(self).item_texts() == old(self).item_texts(),
    {
        self.prefix_mode = active;
    }

    /// Note the focused pane; the status bar shows nothing of it.
    pub fn set_focus_pane(&mut self, pane: FocusPane)
        ensures
            *final(self) == *old(self),
    {
    }

    /// Set the chrome colours.
    pub fn set_theme_colors(&mut self, colors: ThemeColorsRgb)
        ensures
            final(self).themes() == (colors, old(self).themes().1),
            final(self).item_texts() == old(self).item_texts(),
    {
        self.theme_colors = colors;
    }

    /// Set the chat colours.
    pub fn set_chat_colors(&mut self, colors: ChatColorsRgb)
        ensures
            final(self).themes() == (old(self).themes().0, colors),
            final(self).item_texts() == old(self).item_texts(),
    {
        self.chat_colors = colors;
    }

    /// Add an item at the end.
    pub fn add_item(&mut self, item: ToolbarItem)
        ensures
            final(self).item_texts() == old(self).item_texts().push(item.text@),
            final(self).mode() == old(self).mode(),
    {
        self.items.push(item);
        assert(self.item_texts() =~= old(self).item_texts().push(item.text@));
    }

    /// Add a text item at the end.
    pub fn add_text(&mut self, text: &str)
        ensures
            final(self).item_texts() == old(self).item_texts().push(text@),
            final(self).mode() == old(self).mode(),
    {
        self.add_item(ToolbarItem::new(text));
    }

    /// Add a text item at the end.
    pub fn add_default_text(&mut self, text: &str)
        ensures
            final(self).item_texts() == old(self).item_texts().push(text@),
            final(self).mode() == old(self).mode(),
    {
        self.add_text(text);
    }

    /// Remove every item.
    pub fn clear(&mut self)
        ensures
            final(self).item_texts() == Seq::<Seq<char>>::empty(),
            final(self).mode() == old(self).mode(),
    {
        self.items.clear();
        assert(self.item_texts() =~= Seq::<Seq<char>>::empty());
    }

    /// The input mode.
    pub fn input_mode(&self) -> (r: InputMode)
        ensures
            r == self.mode(),
    {
        self.input_mode
    }

    /// The items, in order.
    pub fn items(&self) -> (r: &Vec<ToolbarItem>)
        ensures
            r@.map_values(|i: ToolbarItem| i.text@) == self.item_texts(),
    {
        &self.items
    }

    /// Note whether the gateway is thinking; while it thinks the spinner
    /// advances, and every two hundred steps the verb changes.
    pub fn tick(&mut self, is_thinking: bool)
        ensures
            final(self).thinking() == is_thinking,
            !is_thinking ==> final(self).spinner() == old(self).spinner()
                && final(self).verb_index() == old(self).verb_index(),
            is_thinking ==> final(self).spinner() == old(self).spinner().wrapping_add(1),
            is_thinking ==> final(self).verb_index() == if final(self).spinner() % 200 == 0 {
                old(self).verb_index().wrapping_add(1)
            } else {
                old(self).verb_index()
            },
            final(self).item_texts() == old(self).item_texts(),
            final(self).mode() == old(self).mode(),
    {
        self.is_thinking = is_thinking;
        if is_thinking {
            self.spinner_idx = self.spinner_idx.wrapping_add(1);
            if self.spinner_idx % 200 == 0 {
                self.verb_idx = self.verb_idx.wrapping_add(1);
            }
        }
    }

    /// Show the given status.
    pub fn update_status(
        &mut self,
        connected: bool,
        model: Option<&str>,
        provider: Option<&str>,
        session_name: Option<&str>,
        message_count: usize,
    )
        ensures
            final(self).item_texts() == spec_status_items(
                connected,
                match model { Some(m) => Some(m@), None => None },
                match provider { Some(p) => Some(p@), None => None },
                match session_name { Some(n) => Some(n@), None => None },
                message_count as nat,
                old(self).mode(),
            ),
            final(self).mode() == old(self).mode(),
    {
        self.clear();
        if connected {
            self.add_text("●");
        } else {
            self.add_text("○");
        }
        if let Some(m) = model {
            let t = concat("Model: ", m);
            self.add_text(t.as_str());
        }
        if let Some(p) = provider {
            let t = concat("Provider: ", p);
            self.add_text(t.as_str());
        }
        if let Some(n) = session_name {
            let t = concat("Session: ", n);
            self.add_text(t.as_str());
        }
        if message_count > 0 {
            let d = decimal(message_count as u64);
            let t = concat("Msgs: ", d.as_str());
            self.add_text(t.as_str());
        }
        let mode_text = match self.input_mode {
            InputMode::Normal => "Normal",
            InputMode::Insert => "Insert",
            InputMode::Command => "Command",
        };
        let t = concat("Mode: ", mode_text);
        self.add_text(t.as_str());
        proof {
            assert(self.item_texts() =~= spec_status_items(
                connected,
                match model { Some(m) => Some(m@), None => None },
                match provider { Some(p) => Some(p@), None => None },
                match session_name { Some(n) => Some(n@), None => None },
                message_count as nat,
                old(self).mode(),
            ));
        }
    }

    /// Whether the gateway is shown as connected: some item is the filled
    /// dot.
    pub fn is_connected(&self) -> (r: bool)
        ensures
            r == exists|i: int| 0 <= i < self.item_texts().len() && #[trigger] self.item_texts()[i] == "●"@,
    {
        let mut i: usize = 0;
        while i < self.items.len()
            invariant
                i <= self.items@.len(),
                forall|k: int| 0 <= k < i ==> #[trigger] self.item_texts()[k] != "●"@,
            decreases self.items@.len() - i,
        {
            if str_eq(self.items[i].text.as_str(), "●") {
                assert(self.item_texts()[i as int] == "●"@);
                return true;
            }
            i = i + 1;
        }
        false
    }

    /// Whether the prefix indicator shows.
    pub fn is_prefix_mode(&self) -> (r: bool)
        ensures
            r == self.prefix(),
    {
        self.prefix_mode
    }

    /// Whether the gateway is thinking.
    pub fn is_thinking(&self) -> (r: bool)
        ensures
            r == self.thinking(),
    {
        self.is_thinking
    }

    /// The chrome colours.
    pub fn theme_colors(&self) -> (r: ThemeColorsRgb)
        ensures
            r == self.themes().0,
    {
        self.theme_colors
    }

    /// The chat colours.
    pub fn chat_colors(&self) -> (r: ChatColorsRgb)
        ensures
            r == self.themes().1,
    {
        self.chat_colors
    }

    /// The thinking label: a face that changes every ten spinner steps and
    /// the current verb.
    pub fn thinking_label(&self) -> (r: String)
        ensures
            r@ == spec_thinking_label(self.spinner(), self.verb_index()),
    {
        let f = face((self.spinner_idx / 10) % 6);
        let v = verb(self.verb_idx % 16);
        let a = concat(" ", f);
        let b = concat(a.as_str(), " ");
        let c = concat(b.as_str(), v);
        concat(c.as_str(), "... ")
    }

    /// The labelled segments the status bar shows after its dot.
    pub fn status_segments(&self) -> (r: Vec<StatusSegment>)
        ensures
            r@.map_values(|s: StatusSegment| spec_segment_view(s))
                == spec_segments(self.item_texts()),
    {
        let mut out: Vec<StatusSegment> = Vec::new();
        let mut i: usize = 0;
        while i < self.items.len()
            invariant
                i <= self.items@.len(),
                out@.map_values(|s: StatusSegment| spec_segment_view(s))
                    == spec_segments(self.item_texts().take(i as int)),
            decreases self.items@.len() - i,
        {
            let cs = chars_of(self.items[i].text.as_str());
            let t = trim(cs.as_slice());
            let ts = string_of(t.as_slice());
            proof {
                assert(self.item_texts().take(i + 1).drop_last() =~= self.item_texts().take(i as int));
                assert(self.item_texts().take(i + 1).last() == self.items@[i as int].text@);
            }
            let ghost prev = out@;
            if str_eq(ts.as_str(), "●") || str_eq(ts.as_str(), "○") || t.len() == 0 {
            } else {
                match split_once(t.as_slice(), ": ") {
                    Some((l, v)) => {
                        out.push(StatusSegment { label: string_of(l.as_slice()), value: Some(string_of(v.as_slice())) });
                    },
                    None => {
                        out.push(StatusSegment { label: ts, value: None });
                    },
                }
                proof {
                    assert(out@.map_values(|s: StatusSegment| spec_segment_view(s))
                        =~= prev.map_values(|s: StatusSegment| spec_segment_view(s)).push(spec_segment_view(out@.last())));
                }
            }
            i = i + 1;
        }
        proof {
            assert(self.item_texts().take(self.items@.len() as int) =~= self.item_texts());
        }
        out
    }
}

} // verus!
