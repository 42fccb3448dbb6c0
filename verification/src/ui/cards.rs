//! Cards: tool results, errors, warnings and other messages shown as
//! boxes, and the manager that keeps them.

use vstd::prelude::*;
use vstd::utf8::{encode_utf8, is_char_boundary};

use crate::chars::{byte_len, byte_prefix, spec_byte_prefix};
use crate::state::color::Color;
use crate::state::config::ChatColorsRgb;
use crate::text::{concat, owned, str_eq};

verus! {

/// Kind of card; it decides the colours.
#[derive(Debug, Clone, Copy, PartialEq, Eq, Structural)]
pub enum CardType {
    Info,
    Success,
    Warning,
    Error,
    Tool,
}

/// Where a tool call stands.
#[derive(Debug, Clone, Copy, PartialEq, Eq, Structural)]
pub enum ToolStatus {
    Running,
    Completed,
    Failed,
    Pending,
}

/// What is known of one tool call.
#[derive(Debug, Clone, PartialEq, Eq)]
pub struct ToolCardData {
    pub tool_name: String,
    pub call_id: String,
    pub status: ToolStatus,
    pub duration_ms: Option<u64>,
    pub arguments: Option<String>,
    pub result: Option<String>,
    pub error: Option<String>,
}

/// The view of an optional text.
pub open spec fn spec_opt(o: Option<String>) -> Option<Seq<char>> {
    match o {
        Some(s) => Some(s@),
        None => None,
    }
}

/// The view of tool call data.
pub ghost struct ToolCardDataView {
    pub tool_name: Seq<char>,
    pub call_id: Seq<char>,
    pub status: ToolStatus,
    pub duration_ms: Option<u64>,
    pub arguments: Option<Seq<char>>,
    pub result: Option<Seq<char>>,
    pub error: Option<Seq<char>>,
}

impl View for ToolCardData {
    type V = ToolCardDataView;

    open spec fn view(&self) -> ToolCardDataView {
        ToolCardDataView {
            tool_name: self.tool_name@,
            call_id: self.call_id@,
            status: self.status,
            duration_ms: self.duration_ms,
            arguments: spec_opt(self.arguments),
            result: spec_opt(self.result),
            error: spec_opt(self.error),
        }
    }
}

impl ToolCardData {
    /// A running call of `tool_name`, with no identifier yet.
    pub fn running(tool_name: &str) -> (r: Self)
        ensures
            r@ == (ToolCardDataView {
                tool_name: tool_name@,
                call_id: Seq::empty(),
                status: ToolStatus::Running,
                duration_ms: None,
                arguments: None,
                result: None,
                error: None,
            }),
    {
        let r = ToolCardData {
            tool_name: owned(tool_name),
            call_id: String::new(),
            status: ToolStatus::Running,
            duration_ms: None,
            arguments: None,
            result: None,
            error: None,
        };
        assert(r@.call_id =~= Seq::<char>::empty());
        r
    }

    /// This call with identifier `call_id`.
    pub fn with_call_id(self, call_id: &str) -> (r: Self)
        ensures
            r@ == (ToolCardDataView { call_id: call_id@, ..self@ }),
    {
        let mut s = self;
        s.call_id = owned(call_id);
        s
    }

    /// Mark the call completed with `result`.
    pub fn completed(&mut self, result: &str)
        ensures
            final(self)@ == (ToolCardDataView { status: ToolStatus::Completed, result: Some(result@), ..old(self)@ }),
    {
        self.status = ToolStatus::Completed;
        self.result = Some(owned(result));
    }

    /// Mark the call failed with `error`.
    pub fn failed(&mut self, error: &str)
        ensures
            final(self)@ == (ToolCardDataView { status: ToolStatus::Failed, error: Some(error@), ..old(self)@ }),
    {
        self.status = ToolStatus::Failed;
        self.error = Some(owned(error));
    }

    /// This call with the given arguments.
    pub fn with_arguments(self, arguments: &str) -> (r: Self)
        ensures
            r@ == (ToolCardDataView { arguments: Some(arguments@), ..self@ }),
    {
        let mut s = self;
        s.arguments = Some(owned(arguments));
        s
    }

    /// This call with the given duration.
    pub fn with_duration(self, duration_ms: u64) -> (r: Self)
        ensures
            r@ == (ToolCardDataView { duration_ms: Some(duration_ms), ..self@ }),
    {
        let mut s = self;
        s.duration_ms = Some(duration_ms);
        s
    }
}

/// The frames of the running spinner.
pub open spec fn spec_spinner_frames() -> Seq<Seq<char>> {
    seq!["⠋"@, "⠙"@, "⠹"@, "⠸"@, "⠼"@, "⠴"@, "⠦"@, "⠧"@, "⠇"@, "⠏"@]
}

/// The running label for a spinner frame.
pub open spec fn spec_running_spinner(frame: u32) -> Seq<char> {
    spec_spinner_frames()[(frame % 10) as int] + " Running..."@
}

/// The icon of a tool status.
pub open spec fn spec_status_icon(s: ToolStatus) -> Seq<char> {
    match s {
        ToolStatus::Running => " ◈ "@,
        ToolStatus::Completed => " ✓ "@,
        ToolStatus::Failed => " ✗ "@,
        ToolStatus::Pending => " ○ "@,
    }
}

/// The title of a tool card: icon, name and, where the duration is known,
/// the duration in seconds as `seconds` spells it.
pub open spec fn spec_tool_card_title(d: ToolCardDataView, seconds: Seq<char>) -> Seq<char> {
    spec_status_icon(d.status) + " "@ + d.tool_name + match d.duration_ms {
        Some(_) => " ("@ + seconds + "s)"@,
        None => Seq::empty(),
    }
}

/// Results longer than this many bytes are shortened in a card's summary.
pub const RESULT_PREVIEW_LIMIT: usize = 120;

/// The number of bytes kept of a shortened result.
pub const RESULT_PREVIEW_KEEP: usize = 117;

/// The summary line for a tool call's result.
pub open spec fn spec_result_summary(d: ToolCardDataView, spinner_frame: u32) -> Seq<char> {
    match d.status {
        ToolStatus::Running => spec_running_spinner(spinner_frame / 10),
        ToolStatus::Completed => match d.result {
            Some(r) => if encode_utf8(r).len() > RESULT_PREVIEW_LIMIT {
                "Result: "@ + spec_byte_prefix(r, RESULT_PREVIEW_KEEP as int) + "..."@
            } else {
                "Result: "@ + r
            },
            None => "Completed"@,
        },
        ToolStatus::Failed => match d.error {
            Some(e) => "Error: "@ + e,
            None => "Failed (no error message)"@,
        },
        ToolStatus::Pending => "Waiting..."@,
    }
}

/// The content of a tool card: the arguments line, where there are
/// arguments, then the result summary.
pub open spec fn spec_tool_card_content(d: ToolCardDataView, spinner_frame: u32) -> Seq<char> {
    match d.arguments {
        Some(a) => "Args: "@ + a + "\n"@ + spec_result_summary(d, spinner_frame),
        None => spec_result_summary(d, spinner_frame),
    }
}

/// Whether a tool call's result can be shortened where the summary needs:
/// a long completed result must have a character boundary at the cut.
pub open spec fn spec_summary_ok(d: ToolCardDataView) -> bool {
    d.status == ToolStatus::Completed && d.result is Some && encode_utf8(d.result.unwrap()).len() > RESULT_PREVIEW_LIMIT
        ==> is_char_boundary(encode_utf8(d.result.unwrap()), RESULT_PREVIEW_KEEP as int)
}

fn spinner_frame_text(i: u32) -> (r: &'static str)
    requires
        i < 10,
    ensures
        r@ == spec_spinner_frames()[i as int],
{
    match i {
        0 => "⠋",
        1 => "⠙",
        2 => "⠹",
        3 => "⠸",
        4 => "⠼",
        5 => "⠴",
        6 => "⠦",
        7 => "⠧",
        8 => "⠇",
        _ => "⠏",
    }
}

/// A card.
#[derive(Debug, Clone)]
pub struct CardComponent {
    card_type: CardType,
    title: String,
    content: String,
    call_id: String,
    tool_name: String,
    expanded: bool,
    spinner_frame: u32,
    status: Option<ToolStatus>,
    colors: ChatColorsRgb,
    arguments: Option<String>,
    result: Option<String>,
    error: Option<String>,
}

/// The view of a card.
pub ghost struct CardView {
    pub card_type: CardType,
    pub title: Seq<char>,
    pub content: Seq<char>,
    pub call_id: Seq<char>,
    pub tool_name: Seq<char>,
    pub expanded: bool,
    pub spinner_frame: u32,
    pub status: Option<ToolStatus>,
    pub colors: ChatColorsRgb,
    pub arguments: Option<Seq<char>>,
    pub result: Option<Seq<char>>,
    pub error: Option<Seq<char>>,
}

impl View for CardComponent {
    type V = CardView;

    closed spec fn view(&self) -> CardView {
        CardView {
            card_type: self.card_type,
            title: self.title@,
            content: self.content@,
            call_id: self.call_id@,
            tool_name: self.tool_name@,
            expanded: self.expanded,
            spinner_frame: self.spinner_frame,
            status: self.status,
            colors: self.colors,
            arguments: spec_opt(self.arguments),
            result: spec_opt(self.result),
            error: spec_opt(self.error),
        }
    }
}

/// A plain card of the given kind, title and content.
pub open spec fn spec_plain_card(t: CardType, title: Seq<char>, content: Seq<char>, colors: ChatColorsRgb) -> CardView {
    CardView {
        card_type: t,
        title,
        content,
        call_id: Seq::empty(),
        tool_name: Seq::empty(),
        expanded: false,
        spinner_frame: 0,
        status: None,
        colors,
        arguments: None,
        result: None,
        error: None,
    }
}

/// A new tool card for a tool call, its content drawn at `spinner_frame`.
pub open spec fn spec_new_tool_card(d: ToolCardDataView, seconds: Seq<char>, spinner_frame: u32, colors: ChatColorsRgb) -> CardView {
    CardView {
        card_type: CardType::Tool,
        title: spec_tool_card_title(d, seconds),
        content: spec_tool_card_content(d, spinner_frame),
        call_id: d.call_id,
        tool_name: d.tool_name,
        expanded: false,
        spinner_frame: 0,
        status: Some(d.status),
        colors,
        arguments: d.arguments,
        result: d.result,
        error: d.error,
    }
}

/// `c` brought up to date with `d`: its expansion, identifier, kind,
/// colours and spinner are kept.
pub open spec fn spec_card_updated(c: CardView, d: ToolCardDataView, seconds: Seq<char>) -> CardView {
    CardView {
        title: spec_tool_card_title(d, seconds),
        content: spec_tool_card_content(d, c.spinner_frame),
        tool_name: d.tool_name,
        status: Some(d.status),
        arguments: d.arguments,
        result: d.result,
        error: d.error,
        ..c
    }
}

/// The background colour of a card.
pub open spec fn spec_card_bg(c: CardView) -> Color {
    match c.card_type {
        CardType::Tool => c.colors.tool_bg,
        _ => c.colors.code_bg,
    }
}

/// The text colour of a card.
pub open spec fn spec_card_text(c: CardView) -> Color {
    match c.card_type {
        CardType::Info => c.colors.assistant_text,
        CardType::Success => Color::Green,
        CardType::Warning => Color::Yellow,
        CardType::Error => Color::Red,
        CardType::Tool => c.colors.tool_text,
    }
}

fn copy_opt(o: &Option<String>) -> (r: Option<String>)
    ensures
        spec_opt(r) == spec_opt(*o),
{
    match o {
        Some(s) => Some(s.clone()),
        None => None,
    }
}

impl CardComponent {
    /// A card of the given kind.
    pub fn new(card_type: CardType, title: &str, content: &str, colors: ChatColorsRgb) -> (r: Self)
        ensures
            r@ == spec_plain_card(card_type, title@, content@, colors),
    {
        let r = CardComponent {
            card_type,
            title: owned(title),
            content: owned(content),
            call_id: String::new(),
            tool_name: String::new(),
            expanded: false,
            spinner_frame: 0,
            status: None,
            colors,
            arguments: None,
            result: None,
            error: None,
        };
        assert(r@.call_id =~= Seq::<char>::empty());
        assert(r@.tool_name =~= Seq::<char>::empty());
        r
    }

    pub fn info(title: &str, content: &str, colors: ChatColorsRgb) -> (r: Self)
        ensures
            r@ == spec_plain_card(CardType::Info, title@, content@, colors),
    {
        CardComponent::new(CardType::Info, title, content, colors)
    }

    pub fn success(title: &str, content: &str, colors: ChatColorsRgb) -> (r: Self)
        ensures
            r@ == spec_plain_card(CardType::Success, title@, content@, colors),
    {
        CardComponent::new(CardType::Success, title, content, colors)
    }

    pub fn warning(title: &str, content: &str, colors: ChatColorsRgb) -> (r: Self)
        ensures
            r@ == spec_plain_card(CardType::Warning, title@, content@, colors),
    {
        CardComponent::new(CardType::Warning, title, content, colors)
    }

    pub fn error(title: &str, content: &str, colors: ChatColorsRgb) -> (r: Self)
        ensures
            r@ == spec_plain_card(CardType::Error, title@, content@, colors),
    {
        CardComponent::new(CardType::Error, title, content, colors)
    }

    pub fn tool(title: &str, content: &str, colors: ChatColorsRgb) -> (r: Self)
        ensures
            r@ == spec_plain_card(CardType::Tool, title@, content@, colors),
    {
        CardComponent::new(CardType::Tool, title, content, colors)
    }

    /// A tool card for a tool call; `seconds` spells the call's duration in
    /// seconds where it is known.
    pub fn tool_card(data: &ToolCardData, colors: ChatColorsRgb, spinner_frame: u32, seconds: &str) -> (r: Self)
        requires
            spec_summary_ok(data@),
        ensures
            r@ == spec_new_tool_card(data@, seconds@, spinner_frame, colors),
    {
        let title = CardComponent::tool_card_title(data, seconds);
        let content = CardComponent::tool_card_content(data, spinner_frame);
        CardComponent {
            card_type: CardType::Tool,
            title,
            content,
            call_id: data.call_id.clone(),
            tool_name: data.tool_name.clone(),
            expanded: false,
            spinner_frame: 0,
            status: Some(data.status),
            colors,
            arguments: copy_opt(&data.arguments),
            result: copy_opt(&data.result),
            error: copy_opt(&data.error),
        }
    }

    /// Bring this card up to date with a tool call (its expansion is kept).
    pub fn update_from_data(&mut self, data: &ToolCardData, seconds: &str)
        requires
            spec_summary_ok(data@),
        ensures
            final(self)@ == spec_card_updated(old(self)@, data@, seconds@),
    {
        self.title = CardComponent::tool_card_title(data, seconds);
        self.content = CardComponent::tool_card_content(data, self.spinner_frame);
        self.tool_name = data.tool_name.clone();
        self.status = Some(data.status);
        self.arguments = copy_opt(&data.arguments);
        self.result = copy_opt(&data.result);
        self.error = copy_opt(&data.error);
    }

    pub fn toggle_expanded(&mut self)
        ensures
            final(self)@ == (CardView { expanded: !old(self)@.expanded, ..old(self)@ }),
    {
        self.expanded = !self.expanded;
    }

    pub fn set_spinner_frame(&mut self, frame: u32)
        ensures
            final(self)@ == (CardView { spinner_frame: frame, ..old(self)@ }),
    {
        self.spinner_frame = frame;
    }

    pub fn spinner_frame(&self) -> (r: u32)
        ensures
            r == self@.spinner_frame,
    {
        self.spinner_frame
    }

    pub fn call_id(&self) -> (r: &str)
        ensures
            r@ == self@.call_id,
    {
        self.call_id.as_str()
    }

    pub fn tool_name(&self) -> (r: &str)
        ensures
            r@ == self@.tool_name,
    {
        self.tool_name.as_str()
    }

    pub fn arguments(&self) -> (r: Option<&String>)
        ensures
            match r { Some(a) => self@.arguments == Some(a@), None => self@.arguments is None },
    {
        self.arguments.as_ref()
    }

    pub fn result(&self) -> (r: Option<&String>)
        ensures
            match r { Some(a) => self@.result == Some(a@), None => self@.result is None },
    {
        self.result.as_ref()
    }

    pub fn error_text(&self) -> (r: Option<&String>)
        ensures
            match r { Some(a) => self@.error == Some(a@), None => self@.error is None },
    {
        self.error.as_ref()
    }

    pub fn status(&self) -> (r: Option<ToolStatus>)
        ensures
            r == self@.status,
    {
        self.status
    }

    pub fn is_expanded(&self) -> (r: bool)
        ensures
            r == self@.expanded,
    {
        self.expanded
    }

    /// The running label for a spinner frame.
    pub fn running_spinner(frame: u32) -> (r: String)
        ensures
            r@ == spec_running_spinner(frame),
    {
        concat(spinner_frame_text(frame % 10), " Running...")
    }

    /// The title of a tool card.
    pub fn tool_card_title(data: &ToolCardData, seconds: &str) -> (r: String)
        ensures
            r@ == spec_tool_card_title(data@, seconds@),
    {
        let icon = match data.status {
            ToolStatus::Running => " ◈ ",
            ToolStatus::Completed => " ✓ ",
            ToolStatus::Failed => " ✗ ",
            ToolStatus::Pending => " ○ ",
        };
        let a = concat(icon, " ");
        let b = concat(a.as_str(), data.tool_name.as_str());
        match data.duration_ms {
            Some(_) => {
                let c = concat(b.as_str(), " (");
                let d = concat(c.as_str(), seconds);
                let r = concat(d.as_str(), "s)");
                proof {
                    assert(r@ =~= spec_tool_card_title(data@, seconds@));
                }
                r
            },
            None => {
                proof {
                    assert(b@ =~= spec_tool_card_title(data@, seconds@));
                }
                b
            },
        }
    }

    fn result_summary(data: &ToolCardData, spinner_frame: u32) -> (r: String)
        requires
            spec_summary_ok(data@),
        ensures
            r@ == spec_result_summary(data@, spinner_frame),
    {
        match data.status {
            ToolStatus::Running => {
                let r = CardComponent::running_spinner(spinner_frame / 10);
                assert(r@ == spec_running_spinner(spinner_frame / 10));
                r
            },
            ToolStatus::Completed => match &data.result {
                Some(result) => {
                    if byte_len(result.as_str()) > RESULT_PREVIEW_LIMIT {
                        let head = byte_prefix(result.as_str(), RESULT_PREVIEW_KEEP);
                        let a = concat("Result: ", head);
                        concat(a.as_str(), "...")
                    } else {
                        let r = concat("Result: ", result.as_str());
                        assert(r@ == "Result: "@ + result@);
                        r
                    }
                },
                None => owned("Completed"),
            },
            ToolStatus::Failed => match &data.error {
                Some(e) => concat("Error: ", e.as_str()),
                None => owned("Failed (no error message)"),
            },
            ToolStatus::Pending => owned("Waiting..."),
        }
    }

    /// The content of a tool card.
    pub fn tool_card_content(data: &ToolCardData, spinner_frame: u32) -> (r: String)
        requires
            spec_summary_ok(data@),
        ensures
            r@ == spec_tool_card_content(data@, spinner_frame),
    {
        let summary = CardComponent::result_summary(data, spinner_frame);
        match &data.arguments {
            Some(args) => {
                let a = concat("Args: ", args.as_str());
                let b = concat(a.as_str(), "\n");
                let r = concat(b.as_str(), summary.as_str());
                proof {
                    assert(r@ =~= spec_tool_card_content(data@, spinner_frame));
                }
                r
            },
            None => summary,
        }
    }

    pub fn card_type(&self) -> (r: CardType)
        ensures
            r == self@.card_type,
    {
        self.card_type
    }

    pub fn set_card_type(&mut self, card_type: CardType)
        ensures
            final(self)@ == (CardView { card_type, ..old(self)@ }),
    {
        self.card_type = card_type;
    }

    pub fn title(&self) -> (r: &str)
        ensures
            r@ == self@.title,
    {
        self.title.as_str()
    }

    pub fn set_title(&mut self, title: &str)
        ensures
            final(self)@ == (CardView { title: title@, ..old(self)@ }),
    {
        self.title = owned(title);
    }

    pub fn content(&self) -> (r: &str)
        ensures
            r@ == self@.content,
    {
        self.content.as_str()
    }

    pub fn set_content(&mut self, content: &str)
        ensures
            final(self)@ == (CardView { content: content@, ..old(self)@ }),
    {
        self.content = owned(content);
    }

    pub fn set_colors(&mut self, colors: ChatColorsRgb)
        ensures
            final(self)@ == (CardView { colors, ..old(self)@ }),
    {
        self.colors = colors;
    }

    pub fn colors(&self) -> (r: ChatColorsRgb)
        ensures
            r == self@.colors,
    {
        self.colors
    }

    /// The background colour: the tool background for tool cards, the code
    /// background otherwise.
    pub fn bg_color(&self) -> (r: Color)
        ensures
            r == spec_card_bg(self@),
    {
        match self.card_type {
            CardType::Tool => self.colors.tool_bg,
            _ => self.colors.code_bg,
        }
    }

    /// The text colour of the card's kind.
    pub fn text_color(&self) -> (r: Color)
        ensures
            r == spec_card_text(self@),
    {
        match self.card_type {
            CardType::Info => self.colors.assistant_text,
            CardType::Success => Color::Green,
            CardType::Warning => Color::Yellow,
            CardType::Error => Color::Red,
            CardType::Tool => self.colors.tool_text,
        }
    }
}

/// The cards shown, in order, and the colours new cards get.
#[derive(Debug, Clone)]
pub struct CardManager {
    cards: Vec<CardComponent>,
    colors: ChatColorsRgb,
}

/// `i` is the first position of a card with identifier `id`.
pub open spec fn spec_is_first_card(s: Seq<CardView>, id: Seq<char>, i: int) -> bool {
    &&& 0 <= i < s.len()
    &&& s[i].call_id == id
    &&& forall|j: int| 0 <= j < i ==> (#[trigger] s[j]).call_id != id
}

/// Whether some card has identifier `id`.
pub open spec fn spec_has_card(s: Seq<CardView>, id: Seq<char>) -> bool {
    exists|i: int| 0 <= i < s.len() && (#[trigger] s[i]).call_id == id
}

/// The first position of a card with identifier `id`, where there is one.
pub open spec fn spec_card_pos(s: Seq<CardView>, id: Seq<char>) -> int {
    choose|i: int| spec_is_first_card(s, id, i)
}

proof fn lemma_first_card_unique(s: Seq<CardView>, id: Seq<char>, i: int)
    requires
        spec_is_first_card(s, id, i),
    ensures
        spec_has_card(s, id),
        spec_card_pos(s, id) == i,
{
    assert(s[i].call_id == id);
    let j = spec_card_pos(s, id);
    assert(spec_is_first_card(s, id, j));
    if j < i {
        assert(s[j].call_id != id);
    } else if j > i {
        assert(s[i].call_id != id);
    }
}

/// The new status of a card's tool call: its name and arguments are kept.
pub open spec fn spec_status_data(c: CardView, id: Seq<char>, status: ToolStatus, result: Option<Seq<char>>, error: Option<Seq<char>>) -> ToolCardDataView {
    ToolCardDataView { tool_name: c.tool_name, call_id: id, status, duration_ms: None, arguments: c.arguments, result, error }
}

/// A card after one spinner step: tool cards advance, others stay.
pub open spec fn spec_ticked(c: CardView) -> CardView {
    if c.card_type == CardType::Tool {
        CardView { spinner_frame: c.spinner_frame.wrapping_add(1), ..c }
    } else {
        c
    }
}

impl CardManager {
    /// The cards, in order.
    pub closed spec fn all(&self) -> Seq<CardView> {
        self.cards@.map_values(|c: CardComponent| c@)
    }

    /// The colours new cards get.
    pub closed spec fn palette(&self) -> ChatColorsRgb {
        self.colors
    }

    /// A manager with no card.
    pub fn new(colors: ChatColorsRgb) -> (r: Self)
        ensures
            r.all() == Seq::<CardView>::empty(),
            r.palette() == colors,
    {
        let r = CardManager { cards: Vec::new(), colors };
        assert(r.all() =~= Seq::<CardView>::empty());
        r
    }

    /// A manager with no card and the default colours.
    pub fn with_defaults() -> (r: Self)
        ensures
            r.all() == Seq::<CardView>::empty(),
            r.palette() == crate::state::config::spec_chat_colors_rgb(crate::state::config::spec_default_chat_colors()),
    {
        CardManager::new(ChatColorsRgb::default())
    }

    /// Add a card at the end.
    pub fn add_card(&mut self, card: CardComponent)
        ensures
            final(self).all() == old(self).all().push(card@),
            final(self).palette() == old(self).palette(),
    {
        self.cards.push(card);
        assert(self.all() =~= old(self).all().push(card@));
    }

    /// Remove and return the card at `index`, where there is one.
    pub fn remove_card(&mut self, index: usize) -> (r: Option<CardComponent>)
        ensures
            final(self).palette() == old(self).palette(),
            index < old(self).all().len() ==> (r matches Some(c) && c@ == old(self).all()[index as int]
                && final(self).all() == old(self).all().remove(index as int)),
            index >= old(self).all().len() ==> r is None && final(self).all() == old(self).all(),
    {
        if index < self.cards.len() {
            let c = self.cards.remove(index);
            assert(self.all() =~= old(self).all().remove(index as int));
            Some(c)
        } else {
            None
        }
    }

    /// Remove every card.
    pub fn clear(&mut self)
        ensures
            final(self).all() == Seq::<CardView>::empty(),
            final(self).palette() == old(self).palette(),
    {
        self.cards.clear();
        assert(self.all() =~= Seq::<CardView>::empty());
    }

    pub fn len(&self) -> (r: usize)
        ensures
            r == self.all().len(),
    {
        self.cards.len()
    }

    pub fn is_empty(&self) -> (r: bool)
        ensures
            r == (self.all().len() == 0),
    {
        self.cards.len() == 0
    }

    /// The cards, in order.
    pub fn cards(&self) -> (r: &[CardComponent])
        ensures
            r@.map_values(|c: CardComponent| c@) == self.all(),
    {
        self.cards.as_slice()
    }

    pub fn add_info(&mut self, title: &str, content: &str)
        ensures
            final(self).all() == old(self).all().push(spec_plain_card(CardType::Info, title@, content@, old(self).palette())),
            final(self).palette() == old(self).palette(),
    {
        let c = CardComponent::info(title, content, self.colors);
        self.add_card(c);
    }

    pub fn add_success(&mut self, title: &str, content: &str)
        ensures
            final(self).all() == old(self).all().push(spec_plain_card(CardType::Success, title@, content@, old(self).palette())),
            final(self).palette() == old(self).palette(),
    {
        let c = CardComponent::success(title, content, self.colors);
        self.add_card(c);
    }

    pub fn add_warning(&mut self, title: &str, content: &str)
        ensures
            final(self).all() == old(self).all().push(spec_plain_card(CardType::Warning, title@, content@, old(self).palette())),
            final(self).palette() == old(self).palette(),
    {
        let c = CardComponent::warning(title, content, self.colors);
        self.add_card(c);
    }

    pub fn add_error(&mut self, title: &str, content: &str)
        ensures
            final(self).all() == old(self).all().push(spec_plain_card(CardType::Error, title@, content@, old(self).palette())),
            final(self).palette() == old(self).palette(),
    {
        let c = CardComponent::error(title, content, self.colors);
        self.add_card(c);
    }

    pub fn add_tool(&mut self, title: &str, content: &str)
        ensures
            final(self).all() == old(self).all().push(spec_plain_card(CardType::Tool, title@, content@, old(self).palette())),
            final(self).palette() == old(self).palette(),
    {
        let c = CardComponent::tool(title, content, self.colors);
        self.add_card(c);
    }

    /// Add a tool card for a tool call, with its spinner at frame zero.
    pub fn add_tool_card(&mut self, data: ToolCardData, seconds: &str)
        requires
            spec_summary_ok(data@),
        ensures
            final(self).palette() == old(self).palette(),
            final(self).all().len() == old(self).all().len() + 1,
            final(self).all().drop_last() == old(self).all(),
            final(self).all().last() == spec_new_tool_card(data@, seconds@, 0, old(self).palette()),
    {
        let c = CardComponent::tool_card(&data, self.colors, 0, seconds);
        self.add_card(c);
        assert(self.all().drop_last() =~= old(self).all());
    }

    /// The first position of the card with identifier `call_id`.
    fn position(&self, call_id: &str) -> (r: Option<usize>)
        ensures
            match r {
                Some(i) => spec_is_first_card(self.all(), call_id@, i as int)
                    && spec_card_pos(self.all(), call_id@) == i && spec_has_card(self.all(), call_id@),
                None => !spec_has_card(self.all(), call_id@),
            },
    {
        let mut i: usize = 0;
        while i < self.cards.len()
            invariant
                i <= self.cards@.len(),
                forall|j: int| 0 <= j < i ==> (#[trigger] self.all()[j]).call_id != call_id@,
            decreases self.cards@.len() - i,
        {
            if str_eq(self.cards[i].call_id(), call_id) {
                proof {
                    lemma_first_card_unique(self.all(), call_id@, i as int);
                }
                return Some(i);
            }
            i = i + 1;
        }
        None
    }

    /// Set the status of the tool call `call_id`: its card is brought up to
    /// date, keeping the tool's name and arguments. False when there is no
    /// such card.
    pub fn update_tool_status(&mut self, call_id: &str, status: ToolStatus, result: Option<String>, error: Option<String>) -> (r: bool)
        requires
            spec_summary_ok(ToolCardDataView {
                tool_name: Seq::empty(),
                call_id: call_id@,
                status,
                duration_ms: None,
                arguments: None,
                result: spec_opt(result),
                error: spec_opt(error),
            }),
        ensures
            final(self).palette() == old(self).palette(),
            r == spec_has_card(old(self).all(), call_id@),
            !r ==> final(self).all() == old(self).all(),
            r ==> ({
                let p = spec_card_pos(old(self).all(), call_id@);
                let c = old(self).all()[p];
                final(self).all() == old(self).all().update(p,
                    spec_card_updated(c, spec_status_data(c, call_id@, status, spec_opt(result), spec_opt(error)), Seq::empty()))
            }),
    {
        match self.position(call_id) {
            Some(i) => {
                let ghost before = self.all();
                let mut card = self.cards.remove(i);
                let data = ToolCardData {
                    tool_name: owned(card.tool_name()),
                    call_id: owned(call_id),
                    status,
                    duration_ms: None,
                    arguments: copy_opt_ref(card.arguments()),
                    result,
                    error,
                };
                card.update_from_data(&data, "");
                self.cards.insert(i, card);
                proof {
                    assert(self.all() =~= before.update(i as int, card@));
                }
                true
            },
            None => false,
        }
    }

    /// The first card with identifier `call_id`.
    pub fn find_by_call_id(&self, call_id: &str) -> (r: Option<&CardComponent>)
        ensures
            spec_has_card(self.all(), call_id@) ==> (r matches Some(c) && c@ == self.all()[spec_card_pos(self.all(), call_id@)]),
            !spec_has_card(self.all(), call_id@) ==> r is None,
    {
        match self.position(call_id) {
            Some(i) => Some(&self.cards[i]),
            None => None,
        }
    }

    /// The first card with identifier `call_id`, for changing in place.
    pub fn find_by_call_id_mut(&mut self, call_id: &str) -> (r: Option<&mut CardComponent>)
        ensures
            final(self).palette() == old(self).palette(),
            spec_has_card(old(self).all(), call_id@) ==> (r matches Some(c)
                && c@ == old(self).all()[spec_card_pos(old(self).all(), call_id@)]
                && final(self).all() == old(self).all().update(spec_card_pos(old(self).all(), call_id@), final(c)@)),
            !spec_has_card(old(self).all(), call_id@) ==> r is None && final(self).all() == old(self).all(),
    {
        match self.position(call_id) {
            Some(i) => Some(&mut self.cards[i]),
            None => None,
        }
    }

    /// Bring the card `call_id` up to date with a tool call. False when there
    /// is no such card.
    pub fn update_by_call_id(&mut self, call_id: &str, data: &ToolCardData, seconds: &str) -> (r: bool)
        requires
            spec_summary_ok(data@),
        ensures
            final(self).palette() == old(self).palette(),
            r == spec_has_card(old(self).all(), call_id@),
            !r ==> final(self).all() == old(self).all(),
            r ==> ({
                let p = spec_card_pos(old(self).all(), call_id@);
                final(self).all() == old(self).all().update(p, spec_card_updated(old(self).all()[p], data@, seconds@))
            }),
    {
        match self.position(call_id) {
            Some(i) => {
                let ghost before = self.all();
                let mut card = self.cards.remove(i);
                card.update_from_data(data, seconds);
                self.cards.insert(i, card);
                proof {
                    assert(self.all() =~= before.update(i as int, card@));
                }
                true
            },
            None => false,
        }
    }

    /// Expand or fold the card `call_id`. False when there is no such card.
    pub fn toggle_expanded(&mut self, call_id: &str) -> (r: bool)
        ensures
            final(self).palette() == old(self).palette(),
            r == spec_has_card(old(self).all(), call_id@),
            !r ==> final(self).all() == old(self).all(),
            r ==> ({
                let p = spec_card_pos(old(self).all(), call_id@);
                final(self).all() == old(self).all().update(p, CardView { expanded: !old(self).all()[p].expanded, ..old(self).all()[p] })
            }),
    {
        match self.position(call_id) {
            Some(i) => {
                let ghost before = self.all();
                let mut card = self.cards.remove(i);
                card.toggle_expanded();
                self.cards.insert(i, card);
                proof {
                    assert(self.all() =~= before.update(i as int, card@));
                }
                true
            },
            None => false,
        }
    }

    /// Advance the spinner of every tool card by one frame.
    pub fn tick_spinners(&mut self)
        ensures
            final(self).palette() == old(self).palette(),
            final(self).all() == old(self).all().map_values(|c: CardView| spec_ticked(c)),
    {
        let ghost start = self.all();
        let mut i: usize = 0;
        while i < self.cards.len()
            invariant
                i <= self.cards@.len(),
                self.cards@.len() == start.len(),
                self.palette() == old(self).palette(),
                start == old(self).all(),
                forall|k: int| 0 <= k < i ==> self.all()[k] == spec_ticked(start[k]),
                forall|k: int| i <= k < start.len() ==> self.all()[k] == start[k],
            decreases self.cards@.len() - i,
        {
            let ghost before = self.all();
            let mut card = self.cards.remove(i);
            if card.card_type() == CardType::Tool {
                let f = card.spinner_frame().wrapping_add(1);
                card.set_spinner_frame(f);
            }
            self.cards.insert(i, card);
            proof {
                assert(self.all() =~= before.update(i as int, card@));
            }
            i = i + 1;
        }
        assert(self.all() =~= old(self).all().map_values(|c: CardView| spec_ticked(c)));
    }

    /// Set the colours new cards get.
    pub fn set_colors(&mut self, colors: ChatColorsRgb)
        ensures
            final(self).palette() == colors,
            final(self).all() == old(self).all(),
    {
        self.colors = colors;
    }

    /// Set the colours of new cards and of every card shown.
    pub fn update_colors(&mut self, colors: ChatColorsRgb)
        ensures
            final(self).palette() == colors,
            final(self).all() == old(self).all().map_values(|c: CardView| CardView { colors, ..c }),
    {
        self.colors = colors;
        let ghost start = self.all();
        let mut i: usize = 0;
        while i < self.cards.len()
            invariant
                i <= self.cards@.len(),
                self.cards@.len() == start.len(),
                self.palette() == colors,
                start == old(self).all(),
                forall|k: int| 0 <= k < i ==> self.all()[k] == (CardView { colors, ..start[k] }),
                forall|k: int| i <= k < start.len() ==> self.all()[k] == start[k],
            decreases self.cards@.len() - i,
        {
            let ghost before = self.all();
            let mut card = self.cards.remove(i);
            card.set_colors(colors);
            self.cards.insert(i, card);
            proof {
                assert(self.all() =~= before.update(i as int, card@));
            }
            i = i + 1;
        }
        assert(self.all() =~= old(self).all().map_values(|c: CardView| CardView { colors, ..c }));
    }
}

fn copy_opt_ref(o: Option<&String>) -> (r: Option<String>)
    ensures
        spec_opt(r) == match o { Some(s) => Some(s@), None => None },
{
    match o {
        Some(s) => Some(s.clone()),
        None => None,
    }
}


/// The cards after the card `id` is expanded or folded.
pub open spec fn spec_toggled_cards(s: Seq<CardView>, id: Seq<char>) -> Seq<CardView> {
    let p = spec_card_pos(s, id);
    s.update(p, CardView { expanded: !s[p].expanded, ..s[p] })
}

/// Expanding or folding a card twice leaves every card as it was.
pub proof fn lemma_toggle_card_twice(s: Seq<CardView>, id: Seq<char>)
    requires
        spec_has_card(s, id),
    ensures
        spec_has_card(spec_toggled_cards(s, id), id),
        spec_toggled_cards(spec_toggled_cards(s, id), id) == s,
{
    let p = spec_card_pos(s, id);
    let w = choose|i: int| 0 <= i < s.len() && (#[trigger] s[i]).call_id == id;
    assert(s[w].call_id == id);
    lemma_first_card_exists(s, id, w);
    let t = spec_toggled_cards(s, id);
    assert(spec_is_first_card(s, id, p));
    assert forall|j: int| 0 <= j < t.len() implies (#[trigger] t[j]).call_id == s[j].call_id by {}
    assert(spec_is_first_card(t, id, p));
    lemma_first_card_unique(t, id, p);
    assert(spec_toggled_cards(t, id) =~= s);
}

/// Where some card has identifier `id`, the first one with it is found.
proof fn lemma_first_card_exists(s: Seq<CardView>, id: Seq<char>, w: int)
    requires
        0 <= w < s.len(),
        s[w].call_id == id,
    ensures
        spec_is_first_card(s, id, spec_card_pos(s, id)),
    decreases w,
{
    if exists|j: int| 0 <= j < w && (#[trigger] s[j]).call_id == id {
        let j = choose|j: int| 0 <= j < w && (#[trigger] s[j]).call_id == id;
        lemma_first_card_exists(s, id, j);
    } else {
        assert(spec_is_first_card(s, id, w));
    }
}

} // verus!
