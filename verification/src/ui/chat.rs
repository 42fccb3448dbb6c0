//! The chat transcript: its messages, the scroll and selection state, the
//! rows each message takes on screen, and the actions offered on a message.

use vstd::prelude::*;

use vstd::utf8::encode_utf8;

use crate::chars::{
    byte_len, copy_range, display_width, spec_truncated_to, truncate_to_cells, split_lines, spec_char_vec_views, spec_display_width, spec_lines,
    spec_min, spec_starts_with, starts_with,
};
use crate::protocol::types::MessageRole;
use crate::state::capabilities::Capabilities;
use crate::state::config::{spec_chat_colors_rgb, spec_default_chat_colors, ChatColorsRgb};
use crate::clock::now_micros;
use crate::state::color::Color;
use crate::state::messages::{spec_contains_id, spec_has_message_id, spec_is_first_with_id, Message};
use crate::text::{chars_of, concat, decimal, owned, signed_decimal, spec_decimal, spec_signed_decimal, str_eq, string_of};
use crate::ui::cards::{spec_card_pos, spec_has_card, CardManager, CardView};
use crate::ui::subagent::{spec_status_style, IconStyle, SubagentInfo};

verus! {

/// The largest row count a message or the transcript is given.
pub const MAX_ROWS: u16 = 65535;

/// The mutable state of the chat view: scroll position and selection.
#[derive(Debug, Clone)]
pub struct ChatState {
    /// First transcript row shown.
    pub scroll_position: u16,
    /// Rows the chat area shows.
    pub visible_height: u16,
    /// Columns the chat area has, used for word wrap.
    pub inner_width: u16,
    /// The selected message, in normal mode.
    pub selected_index: Option<usize>,
    /// Identifiers of the system messages shown in full.
    pub expanded_systems: Vec<String>,
    /// Messages that arrived while the view was scrolled up.
    pub pending_new_count: u16,
    /// Whether the view follows the newest message.
    pub at_bottom: bool,
}

impl ChatState {
    /// A view at the top, with nothing selected or expanded.
    pub fn new() -> (r: Self)
        ensures
            r.scroll_position == 0,
            r.visible_height == 0,
            r.inner_width == 0,
            r.selected_index is None,
            r.expanded_systems@.len() == 0,
            r.pending_new_count == 0,
            !r.at_bottom,
    {
        ChatState {
            scroll_position: 0,
            visible_height: 0,
            inner_width: 0,
            selected_index: None,
            expanded_systems: Vec::new(),
            pending_new_count: 0,
            at_bottom: false,
        }
    }
}

impl Default for ChatState {
    fn default() -> (r: Self)
        ensures
            r.scroll_position == 0,
            r.visible_height == 0,
            r.inner_width == 0,
            r.selected_index is None,
            r.expanded_systems@.len() == 0,
            r.pending_new_count == 0,
            !r.at_bottom,
    {
        ChatState::new()
    }
}

/// Whether some text of `v` is `x`.
pub open spec fn spec_holds_text(v: Seq<String>, x: Seq<char>) -> bool {
    exists|i: int| 0 <= i < v.len() && (#[trigger] v[i])@ == x
}

/// `after` holds `id` exactly where `before` did not, and every other text
/// exactly where `before` did.
pub open spec fn spec_toggled(before: Seq<String>, after: Seq<String>, id: Seq<char>) -> bool {
    forall|x: Seq<char>| #[trigger] spec_holds_text(after, x) == if x == id {
        !spec_holds_text(before, x)
    } else {
        spec_holds_text(before, x)
    }
}

/// Expanding a system message twice leaves every message as it was.
pub proof fn lemma_toggle_twice(a: Seq<String>, b: Seq<String>, c: Seq<String>, id: Seq<char>)
    requires
        spec_toggled(a, b, id),
        spec_toggled(b, c, id),
    ensures
        forall|x: Seq<char>| #[trigger] spec_holds_text(c, x) == spec_holds_text(a, x),
{
    assert forall|x: Seq<char>| #[trigger] spec_holds_text(c, x) == spec_holds_text(a, x) by {
        assert(spec_holds_text(b, x) == if x == id { !spec_holds_text(a, x) } else { spec_holds_text(a, x) });
    }
}

/// `a` rounded up after division by `b`.
pub open spec fn spec_ceil_div(a: nat, b: nat) -> nat {
    if b == 0 { a } else { ((a + b - 1) as nat) / b }
}

/// `n`, held at the largest row count.
pub open spec fn spec_cap_rows(n: nat) -> nat {
    spec_min(n, MAX_ROWS as nat)
}

/// `a - b`, or zero where `b` is larger.
pub open spec fn spec_sat_sub(a: nat, b: nat) -> nat {
    if a >= b { (a - b) as nat } else { 0 }
}

/// The larger of two numbers.
pub open spec fn spec_max(a: nat, b: nat) -> nat {
    if a >= b { a } else { b }
}

/// Rows one line of a message takes in a column `width` cells wide: one for
/// an empty line, else its cells divided by the width, rounded up.
pub open spec fn spec_line_rows(l: Seq<char>, width: nat) -> nat {
    if l.len() == 0 {
        1
    } else {
        spec_max(spec_cap_rows(spec_ceil_div(spec_display_width(l), width)), 1)
    }
}

/// Rows all the lines take together.
pub open spec fn spec_text_rows(lines: Seq<Seq<char>>, width: nat) -> nat
    decreases lines.len(),
{
    if lines.len() == 0 {
        0
    } else {
        spec_text_rows(lines.drop_last(), width) + spec_line_rows(lines.last(), width)
    }
}

/// Rows one line of an expanded tool card takes: its UTF-8 length divided
/// by the width, rounded up.
pub open spec fn spec_card_line_rows(l: Seq<char>, width: nat) -> nat {
    spec_cap_rows(spec_ceil_div(encode_utf8(l).len(), width))
}

/// Rows all the lines of a tool card take together.
pub open spec fn spec_card_text_rows(lines: Seq<Seq<char>>, width: nat) -> nat
    decreases lines.len(),
{
    if lines.len() == 0 {
        0
    } else {
        spec_card_text_rows(lines.drop_last(), width) + spec_card_line_rows(lines.last(), width)
    }
}

/// The prefix that marks the identifier of a subagent's line.
pub open spec fn spec_subagent_prefix() -> Seq<char> {
    "subagent:"@
}

/// Whether a message shows a subagent inline.
pub open spec fn spec_is_subagent_message(m: Message) -> bool {
    &&& m.role == MessageRole::System
    &&& m.message_id matches Some(id) && spec_starts_with(id@, spec_subagent_prefix())
}

/// Whether a message shows a tool card inline.
pub open spec fn spec_has_inline_card(m: Message, cards: Seq<CardView>) -> bool {
    &&& m.role == MessageRole::Tool
    &&& m.message_id matches Some(id) && spec_has_card(cards, id@)
}

/// The card a tool message shows inline.
pub open spec fn spec_inline_card(m: Message, cards: Seq<CardView>) -> CardView {
    cards[spec_card_pos(cards, m.message_id.unwrap()@)]
}

/// The columns a message's text wraps at: user messages lose two for their
/// border, others four for the gutter, and neither goes below its floor.
pub open spec fn spec_content_width(role: MessageRole, inner_width: u16) -> nat {
    if role == MessageRole::User {
        spec_max(spec_sat_sub(inner_width as nat, 2), 10)
    } else {
        spec_max(spec_sat_sub(inner_width as nat, 4), 6)
    }
}

/// The rows a message takes in a chat area `inner_width` columns wide: an
/// expanded tool card its wrapped lines and three, a collapsed one four, a
/// subagent line two, a user message its wrapped lines and three (border and
/// spacing), any other its wrapped lines and one; a streaming message with
/// no text yet counts one line. Each count is held at `MAX_ROWS`.
pub open spec fn spec_message_height(m: Message, cards: Seq<CardView>, inner_width: u16) -> nat {
    if spec_has_inline_card(m, cards) {
        let c = spec_inline_card(m, cards);
        if c.expanded {
            let w = spec_max(spec_sat_sub(inner_width as nat, 4), 1);
            spec_cap_rows(spec_max(spec_cap_rows(spec_card_text_rows(spec_lines(c.content), w)), 1) + 3)
        } else {
            4
        }
    } else if spec_is_subagent_message(m) {
        2
    } else {
        let t = spec_cap_rows(spec_text_rows(spec_lines(m.content@), spec_content_width(m.role, inner_width)));
        let t1: nat = if t == 0 && m.streaming { 1 } else { t };
        spec_cap_rows(t1 + if m.role == MessageRole::User { 3nat } else { 1nat })
    }
}

/// The rows of all messages together.
pub open spec fn spec_heights_sum(ms: Seq<Message>, cards: Seq<CardView>, inner_width: u16) -> nat
    decreases ms.len(),
{
    if ms.len() == 0 {
        0
    } else {
        spec_heights_sum(ms.drop_last(), cards, inner_width) + spec_message_height(ms.last(), cards, inner_width)
    }
}

/// The last row the view can scroll to.
pub open spec fn spec_max_scroll(ms: Seq<Message>, cards: Seq<CardView>, st: ChatState) -> nat {
    spec_sat_sub(spec_cap_rows(spec_heights_sum(ms, cards, st.inner_width)), st.visible_height as nat)
}

/// Rows the lines of a message's text take, held at `MAX_ROWS`.
fn text_rows(content: &str, width: u16) -> (r: u16)
    requires
        width > 0,
    ensures
        r == spec_cap_rows(spec_text_rows(spec_lines(content@), width as nat)),
{
    let chars = chars_of(content);
    let lines = split_lines(&chars);
    let ghost views = spec_char_vec_views(lines@);
    let mut total: u32 = 0;
    let mut i: usize = 0;
    while i < lines.len()
        invariant
            i <= lines@.len(),
            views == spec_lines(content@),
            views == lines@.map_values(|x: Vec<char>| x@),
            width > 0,
            total == spec_cap_rows(spec_text_rows(views.take(i as int), width as nat)),
        decreases lines@.len() - i,
    {
        let line = &lines[i];
        let rows: u32 = if line.len() == 0 {
            1
        } else {
            let n = line.len();
            let cells = display_width(line);
            assert(cells <= 2 * (n as u128));
            let up = (cells + (width as u128 - 1)) / width as u128;
            let capped: u32 = if up > 65535 { 65535 } else { up as u32 };
            if capped == 0 { 1 } else { capped }
        };
        proof {
            assert(views.take(i + 1).drop_last() =~= views.take(i as int));
            assert(views[i as int] == line@);
        }
        total = if total + rows > 65535 { 65535 } else { total + rows };
        i = i + 1;
    }
    proof {
        assert(views.take(lines@.len() as int) =~= views);
    }
    total as u16
}

/// Rows the lines of an expanded tool card take, held at `MAX_ROWS`.
fn card_text_rows(content: &str, width: u16) -> (r: u16)
    requires
        width > 0,
    ensures
        r == spec_cap_rows(spec_card_text_rows(spec_lines(content@), width as nat)),
{
    let chars = chars_of(content);
    let lines = split_lines(&chars);
    let ghost views = spec_char_vec_views(lines@);
    let mut total: u32 = 0;
    let mut i: usize = 0;
    while i < lines.len()
        invariant
            i <= lines@.len(),
            views == spec_lines(content@),
            views == lines@.map_values(|x: Vec<char>| x@),
            width > 0,
            total == spec_cap_rows(spec_card_text_rows(views.take(i as int), width as nat)),
        decreases lines@.len() - i,
    {
        let text = string_of(&lines[i]);
        let bytes = byte_len(&text);
        let up = (bytes as u128 + (width as u128 - 1)) / width as u128;
        let rows: u32 = if up > 65535 { 65535 } else { up as u32 };
        proof {
            assert(views.take(i + 1).drop_last() =~= views.take(i as int));
            assert(views[i as int] == text@);
        }
        total = if total + rows > 65535 { 65535 } else { total + rows };
        i = i + 1;
    }
    proof {
        assert(views.take(lines@.len() as int) =~= views);
    }
    total as u16
}

/// Whether a message shows a subagent inline.
fn is_subagent_message(m: &Message) -> (r: bool)
    ensures
        r == spec_is_subagent_message(*m),
{
    match m.role {
        MessageRole::System => {},
        _ => return false,
    }
    match &m.message_id {
        Some(id) => {
            let cs = chars_of(id.as_str());
            starts_with(&cs, "subagent:")
        },
        None => false,
    }
}


/// Heights of the messages, kept between renders.
#[derive(Debug)]
struct HeightCache {
    version: u64,
    width: u16,
    heights: Vec<u16>,
    total: u64,
}

/// The chat transcript component.
#[derive(Debug)]
pub struct ChatComponent {
    messages: Vec<Message>,
    colors: ChatColorsRgb,
    show_timestamps: bool,
    show_logo_on_empty: bool,
    height_version: u64,
    height_cache: HeightCache,
    capabilities: Capabilities,
}

/// The heights of the messages, in order.
pub open spec fn spec_heights(ms: Seq<Message>, cards: Seq<CardView>, inner_width: u16) -> Seq<u16> {
    ms.map_values(|m: Message| spec_message_height(m, cards, inner_width) as u16)
}

/// The sum of the first `i` heights.
pub open spec fn spec_rows_before(h: Seq<u16>, i: int) -> nat
    decreases i,
{
    if i <= 0 || h.len() == 0 {
        0
    } else if i > h.len() {
        spec_rows_before(h, h.len() as int)
    } else {
        spec_rows_before(h, i - 1) + h[i - 1] as nat
    }
}

impl ChatComponent {
    /// The messages shown.
    pub closed spec fn msgs(&self) -> Seq<Message> {
        self.messages@
    }

    /// The version of the messages, changed by every change of them.
    pub closed spec fn version(&self) -> u64 {
        self.height_version
    }

    /// The colours of the transcript.
    pub closed spec fn palette(&self) -> ChatColorsRgb {
        self.colors
    }

    /// Whether timestamps are shown.
    pub closed spec fn timestamps_shown(&self) -> bool {
        self.show_timestamps
    }

    /// Whether the logo is shown while the transcript is empty.
    pub closed spec fn logo_shown(&self) -> bool {
        self.show_logo_on_empty
    }

    /// The capabilities shown while the transcript is empty.
    pub closed spec fn caps(&self) -> Capabilities {
        self.capabilities
    }

    /// The version of the messages the kept heights were computed for.
    pub closed spec fn cache_version(&self) -> u64 {
        self.height_cache.version
    }

    /// The width the kept heights were computed for.
    pub closed spec fn cache_width(&self) -> u16 {
        self.height_cache.width
    }

    /// The kept heights.
    pub closed spec fn cache_heights(&self) -> Seq<u16> {
        self.height_cache.heights@
    }

    /// The kept total of the heights.
    pub closed spec fn cache_total(&self) -> u64 {
        self.height_cache.total
    }

    /// An empty transcript with the given colours.
    pub fn new(colors: ChatColorsRgb, show_timestamps: bool) -> (r: Self)
        ensures
            r.msgs().len() == 0,
            r.palette() == colors,
            r.timestamps_shown() == show_timestamps,
            r.logo_shown(),
            r.version() == 0,
            r.cache_version() == 0,
            r.cache_width() == 0,
            r.cache_heights().len() == 0,
            r.cache_total() == 0,
            r.caps().tool_count == 0,
            r.caps().skill_count == 0,
    {
        ChatComponent {
            messages: Vec::new(),
            colors,
            show_timestamps,
            show_logo_on_empty: true,
            height_version: 0,
            height_cache: HeightCache { version: 0, width: 0, heights: Vec::new(), total: 0 },
            capabilities: Capabilities::new(0, 0),
        }
    }

    /// An empty transcript with the default colours, showing timestamps.
    pub fn with_defaults() -> (r: Self)
        ensures
            r.msgs().len() == 0,
            r.palette() == spec_chat_colors_rgb(spec_default_chat_colors()),
            r.timestamps_shown(),
            r.logo_shown(),
            r.version() == 0,
            r.cache_heights().len() == 0,
    {
        ChatComponent::new(ChatColorsRgb::default(), true)
    }

    /// The transcript holding `messages`.
    pub fn with_messages(self, messages: Vec<Message>) -> (r: Self)
        ensures
            r.msgs() == messages@,
            r.version() == self.version().wrapping_add(1),
            r.palette() == self.palette(),
            r.timestamps_shown() == self.timestamps_shown(),
            r.logo_shown() == self.logo_shown(),
            r.caps() == self.caps(),
            r.cache_version() == self.cache_version(),
            r.cache_width() == self.cache_width(),
            r.cache_heights() == self.cache_heights(),
            r.cache_total() == self.cache_total(),
    {
        let mut c = self;
        c.messages = messages;
        c.height_version = c.height_version.wrapping_add(1);
        c
    }

    /// The rows `message` takes in a chat area `inner_width` columns wide.
    pub fn message_height(&self, message: &Message, card_manager: &CardManager, inner_width: u16) -> (r: u16)
        ensures
            r == spec_message_height(*message, card_manager.all(), inner_width),
    {
        match message.role {
            MessageRole::Tool => {
                match &message.message_id {
                    Some(id) => {
                        match card_manager.find_by_call_id(id.as_str()) {
                            Some(card) => {
                                if card.is_expanded() {
                                    let w: u16 = if inner_width > 4 { inner_width - 4 } else { 1 };
                                    let lines = card_text_rows(card.content(), w);
                                    let at_least_one: u16 = if lines == 0 { 1 } else { lines };
                                    return if at_least_one > 65532 { 65535 } else { at_least_one + 3 };
                                }
                                return 4;
                            },
                            None => {},
                        }
                    },
                    None => {},
                }
            },
            _ => {},
        }
        if is_subagent_message(message) {
            return 2;
        }
        let is_user = match message.role {
            MessageRole::User => true,
            _ => false,
        };
        let width: u16 = if is_user {
            if inner_width >= 12 { inner_width - 2 } else { 10 }
        } else {
            if inner_width >= 10 { inner_width - 4 } else { 6 }
        };
        let t = text_rows(message.content.as_str(), width);
        let t1: u16 = if t == 0 && message.streaming { 1 } else { t };
        let extra: u16 = if is_user { 3 } else { 1 };
        if t1 > 65535 - extra { 65535 } else { t1 + extra }
    }

    /// The rows of all messages together, held at `MAX_ROWS`.
    fn total_rows(&self, card_manager: &CardManager, inner_width: u16) -> (r: u16)
        ensures
            r == spec_cap_rows(spec_heights_sum(self.msgs(), card_manager.all(), inner_width)),
    {
        let mut total: u32 = 0;
        let mut i: usize = 0;
        while i < self.messages.len()
            invariant
                i <= self.msgs().len(),
                total == spec_cap_rows(spec_heights_sum(self.msgs().take(i as int), card_manager.all(), inner_width)),
            decreases self.msgs().len() - i,
        {
            let h = self.message_height(&self.messages[i], card_manager, inner_width);
            proof {
                assert(self.msgs().take(i + 1).drop_last() =~= self.msgs().take(i as int));
            }
            total = if total + h as u32 > 65535 { 65535 } else { total + h as u32 };
            i = i + 1;
        }
        proof {
            assert(self.msgs().take(self.msgs().len() as int) =~= self.msgs());
        }
        total as u16
    }

    /// The last row the view can scroll to: the rows of all messages less
    /// the rows shown.
    pub fn max_scroll_position(&self, state: &ChatState, card_manager: &CardManager) -> (r: u16)
        ensures
            r == spec_max_scroll(self.msgs(), card_manager.all(), *state),
    {
        let total = self.total_rows(card_manager, state.inner_width);
        if total > state.visible_height { total - state.visible_height } else { 0 }
    }

    /// Scrolls down by `amount` rows, no further than the last row.
    pub fn scroll_down(&self, state: &mut ChatState, amount: u16, card_manager: &CardManager)
        ensures
            final(state).scroll_position == spec_min(
                spec_min((old(state).scroll_position + amount) as nat, MAX_ROWS as nat),
                spec_max_scroll(self.msgs(), card_manager.all(), *old(state)),
            ),
            *final(state) == (ChatState { scroll_position: final(state).scroll_position, ..*old(state) }),
    {
        let max = self.max_scroll_position(state, card_manager);
        let up = state.scroll_position.saturating_add(amount);
        state.scroll_position = if up < max { up } else { max };
    }

    /// Scrolls up by `amount` rows, no further than the top, and stops
    /// following new messages.
    pub fn scroll_up(&self, state: &mut ChatState, amount: u16)
        ensures
            final(state).scroll_position == spec_sat_sub(old(state).scroll_position as nat, amount as nat),
            *final(state) == (ChatState {
                scroll_position: final(state).scroll_position,
                at_bottom: false,
                ..*old(state)
            }),
    {
        state.scroll_position = state.scroll_position.saturating_sub(amount);
        self.mark_user_scrolled(state);
    }

    /// Scrolls to the last row, follows new messages again and clears the
    /// count of unseen ones.
    pub fn scroll_to_bottom(&self, state: &mut ChatState, card_manager: &CardManager)
        ensures
            *final(state) == (ChatState {
                scroll_position: spec_max_scroll(self.msgs(), card_manager.all(), *old(state)) as u16,
                at_bottom: true,
                pending_new_count: 0,
                ..*old(state)
            }),
    {
        state.scroll_position = self.max_scroll_position(state, card_manager);
        state.at_bottom = true;
        state.pending_new_count = 0;
    }

    /// Scrolls to the first row and stops following new messages.
    pub fn scroll_to_top(&self, state: &mut ChatState)
        ensures
            *final(state) == (ChatState { scroll_position: 0, at_bottom: false, ..*old(state) }),
    {
        state.scroll_position = 0;
        self.mark_user_scrolled(state);
    }

    /// Jumps to the newest message, as `scroll_to_bottom`.
    pub fn jump_to_bottom(&self, state: &mut ChatState, card_manager: &CardManager)
        ensures
            *final(state) == (ChatState {
                scroll_position: spec_max_scroll(self.msgs(), card_manager.all(), *old(state)) as u16,
                at_bottom: true,
                pending_new_count: 0,
                ..*old(state)
            }),
    {
        self.scroll_to_bottom(state, card_manager);
    }

    /// Stops following new messages, after the user scrolled.
    pub fn mark_user_scrolled(&self, state: &mut ChatState)
        ensures
            *final(state) == (ChatState { at_bottom: false, ..*old(state) }),
    {
        state.at_bottom = false;
    }
}


/// Whether two optional identifiers are equal.
pub open spec fn spec_same_id(a: Option<String>, b: Option<String>) -> bool {
    match (a, b) {
        (Some(x), Some(y)) => x@ == y@,
        (None, None) => true,
        _ => false,
    }
}

/// `i` is the first position of a message whose identifier equals `id`.
pub open spec fn spec_is_first_same_id(s: Seq<Message>, id: Option<String>, i: int) -> bool {
    &&& 0 <= i < s.len()
    &&& spec_same_id(s[i].message_id, id)
    &&& forall|j: int| 0 <= j < i ==> !spec_same_id(#[trigger] s[j].message_id, id)
}

/// Two components differ at most in their messages, version and kept heights.
pub open spec fn spec_same_settings(a: ChatComponent, b: ChatComponent) -> bool {
    &&& a.palette() == b.palette()
    &&& a.timestamps_shown() == b.timestamps_shown()
    &&& a.logo_shown() == b.logo_shown()
    &&& a.caps() == b.caps()
}

/// Two components keep the same heights.
pub open spec fn spec_same_cache(a: ChatComponent, b: ChatComponent) -> bool {
    &&& a.cache_version() == b.cache_version()
    &&& a.cache_width() == b.cache_width()
    &&& a.cache_heights() == b.cache_heights()
    &&& a.cache_total() == b.cache_total()
}

/// The view after a new message arrived: following the newest message it
/// scrolls to the last row, else it counts one more unseen message.
pub open spec fn spec_after_arrival(ms: Seq<Message>, cards: Seq<CardView>, st: ChatState) -> ChatState {
    if st.at_bottom {
        ChatState { scroll_position: spec_max_scroll(ms, cards, st) as u16, at_bottom: true, pending_new_count: 0, ..st }
    } else {
        ChatState { pending_new_count: spec_min((st.pending_new_count + 1) as nat, 65535) as u16, ..st }
    }
}

/// The selection after moving down: the next message, from the last back
/// to the first, the first where nothing was selected.
pub open spec fn spec_next_selection(sel: Option<usize>, len: nat) -> Option<usize> {
    if len == 0 {
        None
    } else {
        let next: nat = match sel { Some(i) => (i + 1) as nat, None => 0 };
        Some(if next >= len { 0usize } else { next as usize })
    }
}

/// The selection after moving up: the previous message, from the first
/// round to the last, the last where nothing was selected.
pub open spec fn spec_prev_selection(sel: Option<usize>, len: nat) -> Option<usize> {
    if len == 0 {
        None
    } else {
        Some(match sel {
            Some(i) => if i == 0 { (len - 1) as usize } else { (i - 1) as usize },
            None => (len - 1) as usize,
        })
    }
}

/// The first position of a message whose identifier equals `id`.
pub open spec fn spec_same_id_pos(s: Seq<Message>, id: Option<String>) -> Option<int> {
    if exists|i: int| spec_is_first_same_id(s, id, i) {
        Some(choose|i: int| spec_is_first_same_id(s, id, i))
    } else {
        None
    }
}

proof fn lemma_first_same_id(s: Seq<Message>, id: Option<String>, i: int)
    requires
        spec_is_first_same_id(s, id, i),
    ensures
        spec_same_id_pos(s, id) == Some(i),
{
    let j = choose|j: int| spec_is_first_same_id(s, id, j);
    assert(spec_is_first_same_id(s, id, j));
    if j < i {
        assert(!spec_same_id(s[j].message_id, id));
    } else if j > i {
        assert(!spec_same_id(s[i].message_id, id));
    }
}

proof fn lemma_no_same_id(s: Seq<Message>, id: Option<String>)
    requires
        forall|j: int| 0 <= j < s.len() ==> !spec_same_id(#[trigger] s[j].message_id, id),
    ensures
        spec_same_id_pos(s, id) is None,
{
    if exists|i: int| spec_is_first_same_id(s, id, i) {
        let i = choose|i: int| spec_is_first_same_id(s, id, i);
        assert(spec_same_id(s[i].message_id, id));
    }
}

impl ChatComponent {
    /// The messages shown.
    pub fn messages(&self) -> (r: &[Message])
        ensures
            r@ == self.msgs(),
    {
        self.messages.as_slice()
    }

    /// The version of the messages, changed by every change of them.
    pub fn height_version(&self) -> (r: u64)
        ensures
            r == self.version(),
    {
        self.height_version
    }

    /// The colours of the transcript.
    pub fn colors(&self) -> (r: ChatColorsRgb)
        ensures
            r == self.palette(),
    {
        self.colors
    }

    /// Whether timestamps are shown.
    pub fn show_timestamps(&self) -> (r: bool)
        ensures
            r == self.timestamps_shown(),
    {
        self.show_timestamps
    }

    /// Adds a message; following the newest message the view scrolls to it,
    /// else it counts one more unseen message.
    pub fn add_message(&mut self, message: Message, state: &mut ChatState, card_manager: &CardManager)
        ensures
            final(self).msgs() == old(self).msgs().push(message),
            final(self).version() == old(self).version().wrapping_add(1),
            spec_same_settings(*final(self), *old(self)),
            spec_same_cache(*final(self), *old(self)),
            *final(state) == spec_after_arrival(final(self).msgs(), card_manager.all(), *old(state)),
    {
        self.messages.push(message);
        self.bump_height_version();
        if state.at_bottom {
            self.scroll_to_bottom(state, card_manager);
        } else {
            state.pending_new_count = state.pending_new_count.saturating_add(1);
        }
    }

    /// Replaces the first message whose identifier equals that of
    /// `updated_message` (both absent counts as equal); nothing changes
    /// where there is none.
    pub fn update_message(&mut self, updated_message: Message)
        ensures
            spec_same_settings(*final(self), *old(self)),
            spec_same_cache(*final(self), *old(self)),
            match spec_same_id_pos(old(self).msgs(), updated_message.message_id) {
                Some(i) => final(self).msgs() == old(self).msgs().update(i, updated_message)
                    && final(self).version() == old(self).version().wrapping_add(1),
                None => final(self).msgs() == old(self).msgs() && final(self).version() == old(self).version(),
            },
    {
        let mut i: usize = 0;
        while i < self.messages.len()
            invariant
                i <= self.messages@.len(),
                self.messages@ == old(self).messages@,
                *self == *old(self),
                forall|j: int| 0 <= j < i ==> !spec_same_id(#[trigger] self.msgs()[j].message_id, updated_message.message_id),
            decreases self.messages@.len() - i,
        {
            let same = match (&self.messages[i].message_id, &updated_message.message_id) {
                (Some(x), Some(y)) => str_eq(x.as_str(), y.as_str()),
                (None, None) => true,
                _ => false,
            };
            if same {
                proof {
                    lemma_first_same_id(old(self).msgs(), updated_message.message_id, i as int);
                }
                self.messages.set(i, updated_message);
                self.bump_height_version();
                return;
            }
            i = i + 1;
        }
        proof {
            lemma_no_same_id(old(self).msgs(), updated_message.message_id);
        }
    }

    /// Removes every message, forgets the kept heights and scrolls to the top.
    pub fn clear_messages(&mut self, state: &mut ChatState)
        ensures
            final(self).msgs().len() == 0,
            final(self).version() == old(self).version().wrapping_add(1),
            spec_same_settings(*final(self), *old(self)),
            final(self).cache_version() == 0,
            final(self).cache_width() == 0,
            final(self).cache_heights().len() == 0,
            final(self).cache_total() == 0,
            *final(state) == (ChatState { scroll_position: 0, ..*old(state) }),
    {
        self.messages.clear();
        self.bump_height_version();
        self.height_cache = HeightCache { version: 0, width: 0, heights: Vec::new(), total: 0 };
        state.scroll_position = 0;
    }

    /// Replaces every message and scrolls to the last row.
    pub fn set_messages(&mut self, messages: Vec<Message>, state: &mut ChatState, card_manager: &CardManager)
        ensures
            final(self).msgs() == messages@,
            final(self).version() == old(self).version().wrapping_add(1),
            spec_same_settings(*final(self), *old(self)),
            spec_same_cache(*final(self), *old(self)),
            *final(state) == (ChatState {
                scroll_position: spec_max_scroll(messages@, card_manager.all(), *old(state)) as u16,
                at_bottom: true,
                pending_new_count: 0,
                ..*old(state)
            }),
    {
        self.messages = messages;
        self.bump_height_version();
        self.scroll_to_bottom(state, card_manager);
    }

    fn bump_height_version(&mut self)
        ensures
            final(self).version() == old(self).version().wrapping_add(1),
            final(self).msgs() == old(self).msgs(),
            spec_same_settings(*final(self), *old(self)),
            spec_same_cache(*final(self), *old(self)),
    {
        self.height_version = self.height_version.wrapping_add(1);
    }

    /// Makes the kept heights those of the current messages at
    /// `inner_width`, unless they were computed for this version and width
    /// and hold one height per message, in which case they are kept.
    pub fn ensure_heights(&mut self, inner_width: u16, card_manager: &CardManager)
        ensures
            final(self).msgs() == old(self).msgs(),
            final(self).version() == old(self).version(),
            spec_same_settings(*final(self), *old(self)),
            ({
                let fresh = old(self).cache_version() == old(self).version() && old(self).cache_width() == inner_width
                    && old(self).cache_heights().len() == old(self).msgs().len();
                if fresh {
                    spec_same_cache(*final(self), *old(self))
                } else {
                    &&& final(self).cache_version() == old(self).version()
                    &&& final(self).cache_width() == inner_width
                    &&& final(self).cache_heights() == spec_heights(old(self).msgs(), card_manager.all(), inner_width)
                    &&& final(self).cache_total() == spec_min(
                        spec_heights_sum(old(self).msgs(), card_manager.all(), inner_width),
                        u64::MAX as nat,
                    )
                }
            }),
    {
        if self.height_cache.version == self.height_version && self.height_cache.width == inner_width
            && self.height_cache.heights.len() == self.messages.len() {
            return;
        }
        let ghost ms = self.msgs();
        let ghost cards = card_manager.all();
        let mut heights: Vec<u16> = Vec::new();
        let mut total: u64 = 0;
        let mut i: usize = 0;
        while i < self.messages.len()
            invariant
                i <= ms.len(),
                ms == self.msgs(),
                cards == card_manager.all(),
                heights@ == spec_heights(ms.take(i as int), cards, inner_width),
                total == spec_min(spec_heights_sum(ms.take(i as int), cards, inner_width), u64::MAX as nat),
            decreases ms.len() - i,
        {
            let h = self.message_height(&self.messages[i], card_manager, inner_width);
            proof {
                assert(ms.take(i + 1).drop_last() =~= ms.take(i as int));
                assert(spec_heights(ms.take(i + 1), cards, inner_width) =~= spec_heights(ms.take(i as int), cards, inner_width).push(h));
            }
            heights.push(h);
            total = total.saturating_add(h as u64);
            i = i + 1;
        }
        proof {
            assert(ms.take(ms.len() as int) =~= ms);
        }
        self.height_cache = HeightCache { version: self.height_version, width: inner_width, heights, total };
    }

    /// The kept heights.
    pub fn cached_heights(&self) -> (r: &Vec<u16>)
        ensures
            r@ == self.cache_heights(),
    {
        &self.height_cache.heights
    }

    /// The kept total of the heights.
    pub fn cached_total(&self) -> (r: u64)
        ensures
            r == self.cache_total(),
    {
        self.height_cache.total
    }

    /// Sets whether the logo is shown while the transcript is empty.
    pub fn set_show_logo_on_empty(&mut self, show: bool)
        ensures
            final(self).logo_shown() == show,
            final(self).msgs() == old(self).msgs(),
            final(self).version() == old(self).version(),
            final(self).palette() == old(self).palette(),
            final(self).timestamps_shown() == old(self).timestamps_shown(),
            final(self).caps() == old(self).caps(),
            spec_same_cache(*final(self), *old(self)),
    {
        self.show_logo_on_empty = show;
    }

    /// Whether the logo is shown while the transcript is empty.
    pub fn show_logo_on_empty(&self) -> (r: bool)
        ensures
            r == self.logo_shown(),
    {
        self.show_logo_on_empty
    }

    /// Sets the capabilities shown while the transcript is empty.
    pub fn set_capabilities(&mut self, capabilities: Capabilities)
        ensures
            final(self).caps() == capabilities,
            final(self).msgs() == old(self).msgs(),
            final(self).version() == old(self).version(),
            final(self).palette() == old(self).palette(),
            final(self).timestamps_shown() == old(self).timestamps_shown(),
            final(self).logo_shown() == old(self).logo_shown(),
            spec_same_cache(*final(self), *old(self)),
    {
        self.capabilities = capabilities;
    }

    /// The capabilities shown while the transcript is empty.
    pub fn capabilities(&self) -> (r: &Capabilities)
        ensures
            *r == self.caps(),
    {
        &self.capabilities
    }

    /// Shows a system message in full, or shortened again if it was.
    pub fn toggle_system_expanded(&self, state: &mut ChatState, message_id: &str)
        ensures
            spec_toggled(old(state).expanded_systems@, final(state).expanded_systems@, message_id@),
            *final(state) == (ChatState { expanded_systems: final(state).expanded_systems, ..*old(state) }),
    {
        let ghost before = state.expanded_systems@;
        let mut kept: Vec<String> = Vec::new();
        let mut found = false;
        let mut i: usize = 0;
        while i < state.expanded_systems.len()
            invariant
                i <= before.len(),
                before == state.expanded_systems@,
                found == spec_holds_text(before.take(i as int), message_id@),
                !spec_holds_text(kept@, message_id@),
                forall|x: Seq<char>| x != message_id@ ==> (#[trigger] spec_holds_text(kept@, x)
                    == spec_holds_text(before.take(i as int), x)),
            decreases before.len() - i,
        {
            let e = &state.expanded_systems[i];
            let ghost prefix = before.take(i as int);
            let ghost next = before.take(i + 1);
            proof {
                assert(next =~= prefix.push(before[i as int]));
                assert forall|x: Seq<char>| spec_holds_text(next, x) == (spec_holds_text(prefix, x) || before[i as int]@ == x) by {
                    if spec_holds_text(next, x) {
                        let j = choose|j: int| 0 <= j < next.len() && (#[trigger] next[j])@ == x;
                        if j < i {
                            assert(prefix[j] == next[j]);
                        }
                    }
                    if spec_holds_text(prefix, x) {
                        let j = choose|j: int| 0 <= j < prefix.len() && (#[trigger] prefix[j])@ == x;
                        assert(next[j] == prefix[j]);
                    }
                    if before[i as int]@ == x {
                        assert(next[i as int] == before[i as int]);
                    }
                }
            }
            if str_eq(e.as_str(), message_id) {
                found = true;
                proof {
                    assert forall|x: Seq<char>| x != message_id@ implies (#[trigger] spec_holds_text(kept@, x)
                        == spec_holds_text(next, x)) by {
                        assert(spec_holds_text(kept@, x) == spec_holds_text(prefix, x));
                    }
                }
            } else {
                let ghost old_kept = kept@;
                kept.push(owned(e.as_str()));
                proof {
                    assert forall|x: Seq<char>| spec_holds_text(kept@, x) == (spec_holds_text(old_kept, x) || before[i as int]@ == x) by {
                        if spec_holds_text(kept@, x) {
                            let j = choose|j: int| 0 <= j < kept@.len() && (#[trigger] kept@[j])@ == x;
                            if j < old_kept.len() {
                                assert(old_kept[j] == kept@[j]);
                            }
                        }
                        if spec_holds_text(old_kept, x) {
                            let j = choose|j: int| 0 <= j < old_kept.len() && (#[trigger] old_kept[j])@ == x;
                            assert(kept@[j] == old_kept[j]);
                        }
                        if before[i as int]@ == x {
                            assert(kept@[old_kept.len() as int]@ == x);
                        }
                    }
                    assert forall|x: Seq<char>| x != message_id@ implies (#[trigger] spec_holds_text(kept@, x)
                        == spec_holds_text(next, x)) by {
                        assert(spec_holds_text(old_kept, x) == spec_holds_text(prefix, x));
                    }
                    assert(!spec_holds_text(kept@, message_id@)) by {
                        assert(!spec_holds_text(old_kept, message_id@));
                    }
                }
            }
            i = i + 1;
        }
        proof {
            assert(before.take(before.len() as int) =~= before);
            assert forall|x: Seq<char>| x != message_id@ implies (#[trigger] spec_holds_text(kept@, x)
                == spec_holds_text(before, x)) by {
                assert(spec_holds_text(kept@, x) == spec_holds_text(before.take(before.len() as int), x));
            }
        }
        let ghost exit_kept = kept@;
        if !found {
            let ghost old_kept = kept@;
            kept.push(owned(message_id));
            proof {
                assert forall|x: Seq<char>| spec_holds_text(kept@, x) == (spec_holds_text(old_kept, x) || message_id@ == x) by {
                    if spec_holds_text(kept@, x) {
                        let j = choose|j: int| 0 <= j < kept@.len() && (#[trigger] kept@[j])@ == x;
                        if j < old_kept.len() {
                            assert(old_kept[j] == kept@[j]);
                        }
                    }
                    if spec_holds_text(old_kept, x) {
                        let j = choose|j: int| 0 <= j < old_kept.len() && (#[trigger] old_kept[j])@ == x;
                        assert(kept@[j] == old_kept[j]);
                    }
                    if message_id@ == x {
                        assert(kept@[old_kept.len() as int]@ == x);
                    }
                }
            }
        }
        proof {
            assert forall|x: Seq<char>| #[trigger] spec_holds_text(kept@, x) == if x == message_id@ {
                !spec_holds_text(before, x)
            } else {
                spec_holds_text(before, x)
            } by {
                if x != message_id@ {
                    assert(spec_holds_text(exit_kept, x) == spec_holds_text(before, x));
                }
            }
        }
        state.expanded_systems = kept;
    }

    /// The selected message.
    pub fn get_selected_index(&self, state: &ChatState) -> (r: Option<usize>)
        ensures
            r == state.selected_index,
    {
        state.selected_index
    }

    /// Selects the next message, going round from the last to the first.
    pub fn select_next(&self, state: &mut ChatState, card_manager: &CardManager)
        ensures
            *final(state) == (ChatState {
                selected_index: spec_next_selection(old(state).selected_index, self.msgs().len()),
                ..*old(state)
            }),
    {
        let len = self.messages.len();
        if len == 0 {
            state.selected_index = None;
            return;
        }
        let next: usize = match state.selected_index {
            Some(i) => if i >= len { len } else { i + 1 },
            None => 0,
        };
        state.selected_index = Some(if next >= len { 0 } else { next });
    }

    /// Selects the previous message, going round from the first to the last.
    pub fn select_prev(&self, state: &mut ChatState, card_manager: &CardManager)
        ensures
            *final(state) == (ChatState {
                selected_index: spec_prev_selection(old(state).selected_index, self.msgs().len()),
                ..*old(state)
            }),
    {
        let len = self.messages.len();
        if len == 0 {
            state.selected_index = None;
            return;
        }
        let prev = match state.selected_index {
            Some(i) => if i == 0 { len - 1 } else { i - 1 },
            None => len - 1,
        };
        state.selected_index = Some(prev);
    }
}


/// What a message action asks of the application.
#[derive(Debug, Clone, Copy, PartialEq, Eq)]
pub enum ChatAction {
    /// Copy the message's text to the clipboard.
    Copy,
    /// Put the message's text in the composer.
    YankToComposer,
    /// Cut the session at the message and submit again.
    Regenerate,
    /// Edit a user message and submit it again.
    Edit,
    /// Drop the message and everything after it.
    Delete,
    /// Start a new session from the message.
    Branch,
}

/// What the chat component asks the application to do.
#[derive(Debug, Clone, PartialEq, Eq)]
pub enum ChatCommand {
    /// Put this text in the composer.
    Yank(String),
    /// Copy this text to the clipboard.
    Copy(String),
    /// Replace a message's text and submit again.
    Edit { message_id: String, new_content: String },
    /// Cut the session at this position and submit again.
    Regenerate { from_index: usize },
    /// Drop everything from this position on.
    Delete { from_index: usize },
    /// Start a new session from this message, with this text.
    Branch { from_message_id: String, content: String },
    /// Nothing.
    Noop,
}

/// The actions offered on a message of each role, with their labels.
pub open spec fn spec_actions(role: MessageRole) -> Seq<(ChatAction, Seq<char>)> {
    match role {
        MessageRole::User => seq![
            (ChatAction::Copy, "Copy"@),
            (ChatAction::YankToComposer, "Yank to composer"@),
            (ChatAction::Edit, "Edit"@),
            (ChatAction::Delete, "Delete"@),
            (ChatAction::Branch, "Branch from here"@),
        ],
        MessageRole::Assistant => seq![
            (ChatAction::Copy, "Copy"@),
            (ChatAction::YankToComposer, "Yank to composer"@),
            (ChatAction::Regenerate, "Regenerate"@),
            (ChatAction::Delete, "Delete"@),
            (ChatAction::Branch, "Branch from here"@),
        ],
        _ => seq![
            (ChatAction::Copy, "Copy"@),
            (ChatAction::YankToComposer, "Yank to composer"@),
            (ChatAction::Delete, "Delete"@),
        ],
    }
}

/// The actions with their labels as views.
pub open spec fn spec_action_views(v: Seq<(ChatAction, &'static str)>) -> Seq<(ChatAction, Seq<char>)> {
    v.map_values(|p: (ChatAction, &'static str)| (p.0, p.1@))
}

/// `c` is what `action` on message `m` at position `idx` asks: its text for
/// copy and yank, its identifier and text for edit and branch (nothing
/// where it has no identifier), its position for regenerate and delete.
pub open spec fn spec_command_for(c: ChatCommand, m: Message, action: ChatAction, idx: usize) -> bool {
    match action {
        ChatAction::Copy => c matches ChatCommand::Copy(t) && t@ == m.content@,
        ChatAction::YankToComposer => c matches ChatCommand::Yank(t) && t@ == m.content@,
        ChatAction::Edit => match m.message_id {
            Some(id) => c matches ChatCommand::Edit { message_id, new_content }
                && message_id@ == id@ && new_content@ == m.content@,
            None => c is Noop,
        },
        ChatAction::Regenerate => c == ChatCommand::Regenerate { from_index: idx },
        ChatAction::Delete => c == ChatCommand::Delete { from_index: idx },
        ChatAction::Branch => match m.message_id {
            Some(id) => c matches ChatCommand::Branch { from_message_id, content }
                && from_message_id@ == id@ && content@ == m.content@,
            None => c is Noop,
        },
    }
}

/// The label of each role.
pub open spec fn spec_role_display(role: MessageRole) -> Seq<char> {
    match role {
        MessageRole::User => " User "@,
        MessageRole::Assistant => " ≡ Hermes "@,
        MessageRole::System => " System "@,
        MessageRole::Tool => " Tool "@,
    }
}

/// The background and text colour of each role.
pub open spec fn spec_role_colors(c: ChatColorsRgb, role: MessageRole) -> (Color, Color) {
    match role {
        MessageRole::User => (c.user_bg, c.user_text),
        MessageRole::Assistant => (c.assistant_bg, c.assistant_text),
        MessageRole::System => (c.system_bg, c.system_text),
        MessageRole::Tool => (c.tool_bg, c.tool_text),
    }
}

/// Whole seconds between two instants given in microseconds, rounded
/// toward zero.
pub open spec fn spec_elapsed_seconds(now: int, then: int) -> int {
    let d = now - then;
    if d >= 0 { d / 1_000_000 } else { -((-d) / 1_000_000) }
}

/// How long ago something happened, from the whole seconds since: seconds
/// under a minute (negative ones too), then whole minutes under an hour,
/// whole hours under a day, whole days.
pub open spec fn spec_relative_time(secs: int) -> Seq<char> {
    if secs < 60 {
        spec_signed_decimal(secs) + "s ago"@
    } else if secs / 60 < 60 {
        spec_decimal((secs / 60) as nat) + "m ago"@
    } else if secs / 3600 < 24 {
        spec_decimal((secs / 3600) as nat) + "h ago"@
    } else {
        spec_decimal((secs / 86400) as nat) + "d ago"@
    }
}

/// The number of characters past which a system message is shortened.
pub const SYSTEM_PREVIEW_LIMIT: usize = 400;

/// The characters a shortened system message keeps.
pub const SYSTEM_PREVIEW_KEEP: usize = 397;

/// Whether a system message is shown shortened: it is longer than the limit
/// and not expanded.
pub open spec fn spec_is_shortened(m: Message, st: ChatState) -> bool {
    &&& m.role == MessageRole::System
    &&& m.content@.len() > SYSTEM_PREVIEW_LIMIT
    &&& !(m.message_id matches Some(id) && spec_holds_text(st.expanded_systems@, id@))
}

/// The text a message is shown with.
pub open spec fn spec_display_content(m: Message, st: ChatState) -> Seq<char> {
    if spec_is_shortened(m, st) {
        m.content@.take(SYSTEM_PREVIEW_KEEP as int) + "...\n (press Enter to expand)"@
    } else {
        m.content@
    }
}

/// The texts of a subagent's inline line: its status icon and style,
/// whether it has a parent, its identifier, its goal and, once it has one,
/// its summary, the last two shortened to fit.
#[derive(Debug, Clone, PartialEq, Eq)]
pub struct SubagentLines {
    pub icon: String,
    pub icon_style: IconStyle,
    pub nested: bool,
    pub id: String,
    pub goal: String,
    pub summary: Option<String>,
}

/// Moving the selection down and then up returns to the message selected
/// before, wherever a message was selected.
pub proof fn lemma_select_next_then_prev(i: usize, len: nat)
    requires
        i < len,
        len <= usize::MAX,
    ensures
        spec_prev_selection(spec_next_selection(Some(i), len), len) == Some(i),
{
}

/// Moving the selection up and then down returns to the message selected
/// before, wherever a message was selected.
pub proof fn lemma_select_prev_then_next(i: usize, len: nat)
    requires
        i < len,
        len <= usize::MAX,
    ensures
        spec_next_selection(spec_prev_selection(Some(i), len), len) == Some(i),
{
}

/// The first message row in view when the view starts at row `scroll`, and
/// the rows of it above the view.
pub open spec fn spec_is_first_visible(h: Seq<u16>, scroll: nat, i: int) -> bool {
    &&& 0 <= i < h.len()
    &&& spec_rows_before(h, i + 1) > scroll
    &&& forall|j: int| 0 < j <= i ==> #[trigger] spec_rows_before(h, j) <= scroll
}

proof fn lemma_rows_before_step(h: Seq<u16>, i: int)
    requires
        0 <= i < h.len(),
    ensures
        spec_rows_before(h, i + 1) == spec_rows_before(h, i) + h[i] as nat,
{
}

impl ChatComponent {
    /// Scrolls so the selected message is in view: up to its first row where
    /// it starts above the view, down to its last where it ends below.
    pub fn ensure_selected_in_view(&self, state: &mut ChatState, card_manager: &CardManager)
        requires
            old(state).selected_index matches Some(i) ==> i < self.msgs().len(),
        ensures
            match old(state).selected_index {
                None => *final(state) == *old(state),
                Some(idx) => {
                    let off = spec_cap_rows(spec_heights_sum(self.msgs().take(idx as int), card_manager.all(), old(state).inner_width));
                    let h = spec_message_height(self.msgs()[idx as int], card_manager.all(), old(state).inner_width);
                    let pos = old(state).scroll_position as nat;
                    let vis = old(state).visible_height as nat;
                    let new_pos: nat = if off < pos {
                        off
                    } else if off + h > pos + vis {
                        spec_cap_rows((off + h - vis) as nat)
                    } else {
                        pos
                    };
                    *final(state) == (ChatState { scroll_position: new_pos as u16, ..*old(state) })
                },
            },
    {
        let idx = match state.selected_index {
            Some(i) => i,
            None => return,
        };
        let ghost ms = self.msgs();
        let mut offset: u32 = 0;
        let mut i: usize = 0;
        while i < idx
            invariant
                i <= idx < ms.len(),
                ms == self.msgs(),
                offset == spec_cap_rows(spec_heights_sum(ms.take(i as int), card_manager.all(), state.inner_width)),
            decreases idx - i,
        {
            let h = self.message_height(&self.messages[i], card_manager, state.inner_width);
            proof {
                assert(ms.take(i + 1).drop_last() =~= ms.take(i as int));
            }
            offset = if offset + h as u32 > 65535 { 65535 } else { offset + h as u32 };
            i = i + 1;
        }
        let msg_height = self.message_height(&self.messages[idx], card_manager, state.inner_width);
        let pos = state.scroll_position as u32;
        let vis = state.visible_height as u32;
        if offset < pos {
            state.scroll_position = offset as u16;
        } else if offset + msg_height as u32 > pos + vis {
            let target = offset + msg_height as u32 - vis;
            state.scroll_position = if target > 65535 { 65535 } else { target as u16 };
        }
    }

    /// Prepares a render into an area `width` by `height`: records the area,
    /// brings the kept heights up to date, and returns the row to scroll to,
    /// the scroll position held at the last row; the view follows new
    /// messages where that row is within two of the end.
    pub fn update_viewport(&mut self, state: &mut ChatState, width: u16, height: u16, card_manager: &CardManager) -> (r: u16)
        ensures
            final(self).msgs() == old(self).msgs(),
            final(self).version() == old(self).version(),
            spec_same_settings(*final(self), *old(self)),
            ({
                let fresh = old(self).cache_version() == old(self).version() && old(self).cache_width() == width
                    && old(self).cache_heights().len() == old(self).msgs().len();
                if fresh {
                    spec_same_cache(*final(self), *old(self))
                } else {
                    &&& final(self).cache_version() == old(self).version()
                    &&& final(self).cache_width() == width
                    &&& final(self).cache_heights() == spec_heights(old(self).msgs(), card_manager.all(), width)
                    &&& final(self).cache_total() == spec_min(
                        spec_heights_sum(old(self).msgs(), card_manager.all(), width),
                        u64::MAX as nat,
                    )
                }
            }),
            ({
                let total = spec_cap_rows(final(self).cache_total() as nat);
                &&& r as nat == spec_min(old(state).scroll_position as nat, spec_sat_sub(total, height as nat))
                &&& *final(state) == (ChatState {
                    inner_width: width,
                    visible_height: height,
                    at_bottom: r + height + 2 >= total,
                    ..*old(state)
                })
            }),
    {
        state.inner_width = width;
        state.visible_height = height;
        self.ensure_heights(width, card_manager);
        let total: u16 = if self.height_cache.total > 65535 { 65535 } else { self.height_cache.total as u16 };
        let max_scroll: u16 = if total > height { total - height } else { 0 };
        let target: u16 = if state.scroll_position < max_scroll { state.scroll_position } else { max_scroll };
        state.at_bottom = target as u32 + height as u32 + 2 >= total as u32;
        target
    }

    /// The first message in view when the view starts at row `scroll`, by
    /// the kept heights, and how many of its rows are above the view; the
    /// first message and none where the view starts past the end.
    pub fn first_visible(&self, scroll: u16) -> (r: (usize, u16))
        ensures
            (exists|i: int| spec_is_first_visible(self.cache_heights(), scroll as nat, i)) ==> {
                &&& spec_is_first_visible(self.cache_heights(), scroll as nat, r.0 as int)
                &&& r.1 as nat == scroll as nat - spec_rows_before(self.cache_heights(), r.0 as int)
            },
            !(exists|i: int| spec_is_first_visible(self.cache_heights(), scroll as nat, i)) ==> r == (0usize, 0u16),
    {
        let ghost h = self.cache_heights();
        let mut current: u32 = 0;
        let mut i: usize = 0;
        while i < self.height_cache.heights.len()
            invariant
                i <= h.len(),
                h == self.cache_heights(),
                current as nat == spec_rows_before(h, i as int),
                current <= scroll,
                forall|j: int| 0 < j <= i ==> #[trigger] spec_rows_before(h, j) <= scroll,
            decreases h.len() - i,
        {
            let step = self.height_cache.heights[i];
            proof {
                lemma_rows_before_step(h, i as int);
            }
            if current + step as u32 > scroll as u32 {
                proof {
                    assert(spec_is_first_visible(h, scroll as nat, i as int));
                }
                return (i, (scroll as u32 - current) as u16);
            }
            current = current + step as u32;
            i = i + 1;
        }
        proof {
            if exists|k: int| spec_is_first_visible(h, scroll as nat, k) {
                let k = choose|k: int| spec_is_first_visible(h, scroll as nat, k);
                assert(spec_rows_before(h, k + 1) <= scroll);
            }
        }
        (0, 0)
    }

    /// The text a message is shown with: a system message longer than the
    /// limit and not expanded keeps its first characters and a hint.
    pub fn display_content(&self, message: &Message, state: &ChatState) -> (r: String)
        ensures
            r@ == spec_display_content(*message, *state),
    {
        let is_system = match message.role {
            MessageRole::System => true,
            _ => false,
        };
        let chars = chars_of(message.content.as_str());
        if !is_system || chars.len() <= SYSTEM_PREVIEW_LIMIT {
            return owned(message.content.as_str());
        }
        let expanded = match &message.message_id {
            Some(id) => holds_text(&state.expanded_systems, id.as_str()),
            None => false,
        };
        if expanded {
            return owned(message.content.as_str());
        }
        let head = string_of(&copy_range(&chars, 0, SYSTEM_PREVIEW_KEEP));
        concat(head.as_str(), "...\n (press Enter to expand)")
    }

    /// The texts of a subagent's inline line in `max_width` columns: goal
    /// and summary are shortened to twenty columns less, and the goal is
    /// left out where no column remains.
    pub fn subagent_line_parts(&self, agent: &SubagentInfo, max_width: u16) -> (r: SubagentLines)
        ensures
            (r.icon@, r.icon_style) == spec_status_style(agent.status),
            r.nested == agent.parent_id is Some,
            r.id@ == agent.id@,
            max_width <= 20 ==> r.goal@.len() == 0,
            max_width > 20 ==> spec_truncated_to(agent.goal@, (max_width - 20) as nat, r.goal@),
            match agent.summary {
                Some(s) => r.summary matches Some(t) && spec_truncated_to(s@, spec_sat_sub(max_width as nat, 20), t@),
                None => r.summary is None,
            },
    {
        let (icon, icon_style) = agent.status_style();
        let max_goal: u16 = if max_width > 20 { max_width - 20 } else { 0 };
        let goal = if max_goal == 0 {
            String::new()
        } else {
            let g = chars_of(agent.goal.as_str());
            string_of(&truncate_to_cells(&g, max_goal as usize))
        };
        let summary = match &agent.summary {
            Some(s) => {
                let cs = chars_of(s.as_str());
                Some(string_of(&truncate_to_cells(&cs, max_goal as usize)))
            },
            None => None,
        };
        SubagentLines {
            icon: owned(icon),
            icon_style,
            nested: agent.parent_id.is_some(),
            id: owned(agent.id.as_str()),
            goal,
            summary,
        }
    }

    /// The label of a role.
    pub fn get_role_display(&self, role: MessageRole) -> (r: &'static str)
        ensures
            r@ == spec_role_display(role),
    {
        match role {
            MessageRole::User => " User ",
            MessageRole::Assistant => " ≡ Hermes ",
            MessageRole::System => " System ",
            MessageRole::Tool => " Tool ",
        }
    }

    /// The background and text colour of a role.
    pub fn get_role_style(&self, role: MessageRole) -> (r: (Color, Color))
        ensures
            r == spec_role_colors(self.palette(), role),
    {
        match role {
            MessageRole::User => (self.colors.user_bg, self.colors.user_text),
            MessageRole::Assistant => (self.colors.assistant_bg, self.colors.assistant_text),
            MessageRole::System => (self.colors.system_bg, self.colors.system_text),
            MessageRole::Tool => (self.colors.tool_bg, self.colors.tool_text),
        }
    }

    /// How long ago `timestamp` (microseconds since the epoch) was, by the
    /// clock now.
    pub fn format_timestamp(&self, timestamp: i64) -> (r: String)
        ensures
            exists|now: i64| r@ == spec_relative_time(spec_elapsed_seconds(now as int, timestamp as int)),
    {
        let now = now_micros();
        relative_time(elapsed_seconds(now, timestamp))
    }

    /// The actions offered on the message at `idx`, with their labels; none
    /// where there is no such message.
    pub fn available_actions(&self, idx: usize) -> (r: Vec<(ChatAction, &'static str)>)
        ensures
            idx < self.msgs().len() ==> spec_action_views(r@) == spec_actions(self.msgs()[idx as int].role),
            idx >= self.msgs().len() ==> r@.len() == 0,
    {
        if idx >= self.messages.len() {
            return Vec::new();
        }
        let mut v: Vec<(ChatAction, &'static str)> = Vec::new();
        match self.messages[idx].role {
            MessageRole::User => {
                v.push((ChatAction::Copy, "Copy"));
                v.push((ChatAction::YankToComposer, "Yank to composer"));
                v.push((ChatAction::Edit, "Edit"));
                v.push((ChatAction::Delete, "Delete"));
                v.push((ChatAction::Branch, "Branch from here"));
            },
            MessageRole::Assistant => {
                v.push((ChatAction::Copy, "Copy"));
                v.push((ChatAction::YankToComposer, "Yank to composer"));
                v.push((ChatAction::Regenerate, "Regenerate"));
                v.push((ChatAction::Delete, "Delete"));
                v.push((ChatAction::Branch, "Branch from here"));
            },
            _ => {
                v.push((ChatAction::Copy, "Copy"));
                v.push((ChatAction::YankToComposer, "Yank to composer"));
                v.push((ChatAction::Delete, "Delete"));
            },
        }
        proof {
            assert(spec_action_views(v@) =~= spec_actions(self.msgs()[idx as int].role));
        }
        v
    }

    /// What `action` on the message at `idx` asks of the application;
    /// nothing where there is no such message.
    pub fn perform_action(&self, action: ChatAction, idx: usize) -> (r: ChatCommand)
        ensures
            idx >= self.msgs().len() ==> r is Noop,
            idx < self.msgs().len() ==> spec_command_for(r, self.msgs()[idx as int], action, idx),
    {
        if idx >= self.messages.len() {
            return ChatCommand::Noop;
        }
        let message = &self.messages[idx];
        match action {
            ChatAction::Copy => ChatCommand::Copy(owned(message.content.as_str())),
            ChatAction::YankToComposer => ChatCommand::Yank(owned(message.content.as_str())),
            ChatAction::Edit => match &message.message_id {
                Some(id) => ChatCommand::Edit {
                    message_id: owned(id.as_str()),
                    new_content: owned(message.content.as_str()),
                },
                None => ChatCommand::Noop,
            },
            ChatAction::Regenerate => ChatCommand::Regenerate { from_index: idx },
            ChatAction::Delete => ChatCommand::Delete { from_index: idx },
            ChatAction::Branch => match &message.message_id {
                Some(id) => ChatCommand::Branch {
                    from_message_id: owned(id.as_str()),
                    content: owned(message.content.as_str()),
                },
                None => ChatCommand::Noop,
            },
        }
    }

    /// The position of the first message with identifier `id`.
    pub fn index_of_message_id(&self, id: &str) -> (r: Option<usize>)
        ensures
            match r {
                Some(i) => spec_is_first_with_id(self.msgs(), id@, i as int),
                None => !spec_contains_id(self.msgs(), id@),
            },
    {
        let mut i: usize = 0;
        while i < self.messages.len()
            invariant
                i <= self.messages@.len(),
                forall|j: int| 0 <= j < i ==> !spec_has_message_id(#[trigger] self.msgs()[j], id@),
            decreases self.messages@.len() - i,
        {
            let found = match &self.messages[i].message_id {
                Some(x) => str_eq(x.as_str(), id),
                None => false,
            };
            if found {
                return Some(i);
            }
            i = i + 1;
        }
        None
    }
}

/// Whether some text of `v` is `x`.
fn holds_text(v: &Vec<String>, x: &str) -> (r: bool)
    ensures
        r == spec_holds_text(v@, x@),
{
    let mut i: usize = 0;
    while i < v.len()
        invariant
            i <= v@.len(),
            forall|j: int| 0 <= j < i ==> (#[trigger] v@[j])@ != x@,
        decreases v@.len() - i,
    {
        if str_eq(v[i].as_str(), x) {
            return true;
        }
        i = i + 1;
    }
    false
}

/// Whole seconds from `then` to `now`, both in microseconds, rounded
/// toward zero.
pub fn elapsed_seconds(now: i64, then: i64) -> (r: i64)
    ensures
        r as int == spec_elapsed_seconds(now as int, then as int),
{
    let d: i128 = now as i128 - then as i128;
    if d >= 0 {
        (d / 1_000_000) as i64
    } else {
        let up: i128 = -d;
        (-(up / 1_000_000)) as i64
    }
}

/// How long ago something happened, from the whole seconds since.
pub fn relative_time(secs: i64) -> (r: String)
    ensures
        r@ == spec_relative_time(secs as int),
{
    if secs < 60 {
        concat(signed_decimal(secs).as_str(), "s ago")
    } else if secs / 60 < 60 {
        concat(decimal((secs / 60) as u64).as_str(), "m ago")
    } else if secs / 3600 < 24 {
        concat(decimal((secs / 3600) as u64).as_str(), "h ago")
    } else {
        concat(decimal((secs / 86400) as u64).as_str(), "d ago")
    }
}

/// The label of the pill that counts unseen messages.
pub fn pending_label(count: u16) -> (r: String)
    ensures
        r@ == " ↓ "@ + spec_decimal(count as nat) + " new ⏎ "@,
{
    let head = concat(" ↓ ", decimal(count as u64).as_str());
    concat(head.as_str(), " new ⏎ ")
}

} // verus!
