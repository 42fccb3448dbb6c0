//! The decisions the application makes around the gateway: what a submitted
//! line asks for, how slash commands are handled, what the chat actions do
//! to the history, when to ask for completions, and the requests and notices
//! that go with sessions, models and reconnection.

use vstd::prelude::*;

use crate::chars::{copy_range, is_whitespace, spec_is_whitespace, spec_starts_with, starts_with};
use crate::protocol::types::{
    GatewayTranscriptMessage, MessageRole, PromptSubmitRequest, SessionCreateRequest, SessionCreateResponse,
    SessionListItem, SessionResumeRequest, SessionResumeResponse, SlashExecRequest, SlashExecResponse, TuiRequest,
};
use crate::state::config::{FocusPane, InputMode};
use crate::state::keymap::ViewState;
use crate::state::messages::{
    opt_view, spec_contains_id, spec_is_first_with_id, spec_plain_message, spec_push_bounded, Message, MessageHistory,
};
use crate::state::session::{
    spec_fresh_session, spec_has_session, spec_is_current, spec_session_pos, Session, SessionManager,
};
use crate::text::{chars_of, concat, decimal, owned, spec_decimal, string_of};
use crate::ui::chat::{ChatCommand, ChatComponent};

verus! {

/// What a submitted input line asks for.
#[derive(Debug, Clone, PartialEq, Eq)]
pub enum Submission {
    /// Nothing: the line was empty.
    Nothing,
    /// A slash command, without its slash.
    Slash(String),
    /// A prompt for the agent.
    Prompt(String),
}

/// `r` is what the line `input` asks for in `mode`: an empty line nothing;
/// a line starting with a slash, or any line in command mode, a slash
/// command (its leading slash removed); any other line a prompt.
pub open spec fn spec_submission(input: Seq<char>, mode: InputMode, r: Submission) -> bool {
    if input.len() == 0 {
        r is Nothing
    } else if input[0] == '/' {
        r matches Submission::Slash(c) && c@ == input.drop_first()
    } else if mode == InputMode::Command {
        r matches Submission::Slash(c) && c@ == input
    } else {
        r matches Submission::Prompt(p) && p@ == input
    }
}

/// What the line `input` asks for in `mode`.
pub fn classify_submission(input: &str, mode: InputMode) -> (r: Submission)
    ensures
        spec_submission(input@, mode, r),
{
    let chars = chars_of(input);
    if chars.len() == 0 {
        return Submission::Nothing;
    }
    if chars[0] == '/' {
        let rest = copy_range(&chars, 1, chars.len());
        proof {
            assert(rest@ =~= input@.drop_first());
        }
        return Submission::Slash(string_of(&rest));
    }
    match mode {
        InputMode::Command => Submission::Slash(owned(input)),
        _ => Submission::Prompt(owned(input)),
    }
}

/// How a slash command is handled.
#[derive(Debug, Clone, PartialEq, Eq)]
pub enum SlashPlan {
    /// Open the model picker and ask the gateway for the models.
    OpenModelPicker,
    /// Clear the transcript and the tool cards here.
    ClearTranscript,
    /// Send the command to the gateway and show it in the transcript.
    Exec { request: TuiRequest, echo: String },
}

/// Whether a slash command opens the model picker.
pub open spec fn spec_is_model_command(command: Seq<char>) -> bool {
    command == "model"@ || spec_starts_with(command, "model "@)
}

/// `r` is how `command` is handled in session `session_id`: `model` (with
/// or without arguments) opens the picker, `clear` clears the transcript,
/// anything else is sent to the gateway and shown with its slash.
pub open spec fn spec_slash_plan(command: Seq<char>, session_id: Seq<char>, r: SlashPlan) -> bool {
    if spec_is_model_command(command) {
        r is OpenModelPicker
    } else if command == "clear"@ {
        r is ClearTranscript
    } else {
        r matches SlashPlan::Exec { request, echo }
            && request matches TuiRequest::SlashExec(x)
            && x.session_id@ == session_id && x.command@ == command
            && echo@ == seq!['/'] + command
    }
}

/// How `command` is handled in session `session_id`.
pub fn plan_slash_command(command: &str, session_id: &str) -> (r: SlashPlan)
    ensures
        spec_slash_plan(command@, session_id@, r),
{
    let chars = chars_of(command);
    if crate::text::str_eq(command, "model") || starts_with(&chars, "model ") {
        return SlashPlan::OpenModelPicker;
    }
    if crate::text::str_eq(command, "clear") {
        return SlashPlan::ClearTranscript;
    }
    let echo = concat("/", command);
    proof {
        reveal_strlit("/");
        assert(echo@ =~= seq!['/'] + command@);
    }
    SlashPlan::Exec {
        request: TuiRequest::SlashExec(SlashExecRequest { session_id: owned(session_id), command: owned(command) }),
        echo,
    }
}

/// `r` submits `text` as a prompt in session `session_id`, with no image
/// and no truncation.
pub open spec fn spec_prompt_request(r: TuiRequest, session_id: Seq<char>, text: Seq<char>) -> bool {
    r matches TuiRequest::PromptSubmit(p) && p.session_id@ == session_id && p.text@ == text
        && p.images is None && p.truncate_before_user_ordinal is None
}

/// The request that submits `text` as a prompt in session `session_id`.
pub fn prompt_request(session_id: &str, text: &str) -> (r: TuiRequest)
    ensures
        spec_prompt_request(r, session_id@, text@),
{
    TuiRequest::PromptSubmit(PromptSubmitRequest {
        session_id: owned(session_id),
        text: owned(text),
        images: None,
        truncate_before_user_ordinal: None,
    })
}

/// `i` is the last user message before position `limit`.
pub open spec fn spec_is_last_user_before(s: Seq<Message>, limit: int, i: int) -> bool {
    &&& 0 <= i < limit
    &&& i < s.len()
    &&& s[i].role == MessageRole::User
    &&& forall|j: int| i < j < limit && j < s.len() ==> (#[trigger] s[j]).role != MessageRole::User
}

/// The text of the last user message before position `from_index`: the
/// prompt that a regenerate from there submits again.
pub fn regenerate_prompt(history: &MessageHistory, from_index: usize) -> (r: Option<String>)
    ensures
        match r {
            Some(t) => exists|i: int| spec_is_last_user_before(history.msgs(), from_index as int, i)
                && t@ == history.msgs()[i].content@,
            None => forall|j: int| 0 <= j < from_index && j < history.msgs().len()
                ==> (#[trigger] history.msgs()[j]).role != MessageRole::User,
        },
{
    let ms = history.messages();
    let limit = if from_index < ms.len() { from_index } else { ms.len() };
    let mut k: usize = limit;
    while k > 0
        invariant
            k <= limit <= ms@.len(),
            limit == (if from_index < ms@.len() { from_index as int } else { ms@.len() as int }),
            ms@ == history.msgs(),
            forall|j: int| k <= j < limit ==> (#[trigger] ms@[j]).role != MessageRole::User,
        decreases k,
    {
        let m = &ms[k - 1];
        let is_user = match m.role {
            MessageRole::User => true,
            _ => false,
        };
        if is_user {
            proof {
                assert(spec_is_last_user_before(history.msgs(), from_index as int, k - 1));
            }
            return Some(owned(m.content.as_str()));
        }
        k = k - 1;
    }
    None
}

/// What the application does after a chat command.
#[derive(Debug, Clone, PartialEq, Eq)]
pub enum ChatEffect {
    /// Nothing.
    Nothing,
    /// Put this text in the composer and start typing.
    Compose(String),
    /// Copy this text to the clipboard.
    Clipboard(String),
    /// The history changed: show it again.
    Resync,
    /// The history changed: show it again and submit this prompt.
    Resubmit(String),
}

/// The history cut at `idx`.
pub open spec fn spec_cut(s: Seq<Message>, idx: usize) -> Seq<Message> {
    if idx < s.len() { s.take(idx as int) } else { s }
}

/// Carries out a chat command on the history: an edit drops the edited
/// message and all after it, a regenerate drops everything from its position
/// and submits the last user prompt before it again (nothing happens where
/// there is none), a delete drops everything from its position; yank and
/// copy hand their text on; branch and no-op do nothing.
pub fn apply_chat_command(history: &mut MessageHistory, chat: &ChatComponent, cmd: ChatCommand) -> (r: ChatEffect)
    ensures
        final(history).capacity() == old(history).capacity(),
        final(history).sid() == old(history).sid(),
        match cmd {
            ChatCommand::Yank(t) => r == ChatEffect::Compose(t) && final(history).msgs() == old(history).msgs(),
            ChatCommand::Copy(t) => r == ChatEffect::Clipboard(t) && final(history).msgs() == old(history).msgs(),
            ChatCommand::Edit { message_id, new_content } => if spec_contains_id(chat.msgs(), message_id@) {
                exists|i: int| spec_is_first_with_id(chat.msgs(), message_id@, i)
                    && final(history).msgs() == spec_cut(old(history).msgs(), i as usize)
                    && r is Resync
            } else {
                r is Nothing && final(history).msgs() == old(history).msgs()
            },
            ChatCommand::Regenerate { from_index } => match r {
                ChatEffect::Resubmit(p) => (exists|i: int| spec_is_last_user_before(old(history).msgs(), from_index as int, i)
                    && p@ == old(history).msgs()[i].content@)
                    && final(history).msgs() == spec_cut(old(history).msgs(), from_index),
                ChatEffect::Nothing => (forall|j: int| 0 <= j < from_index && j < old(history).msgs().len()
                    ==> (#[trigger] old(history).msgs()[j]).role != MessageRole::User)
                    && final(history).msgs() == old(history).msgs(),
                _ => false,
            },
            ChatCommand::Delete { from_index } => r is Resync
                && final(history).msgs() == spec_cut(old(history).msgs(), from_index),
            _ => r is Nothing && final(history).msgs() == old(history).msgs(),
        },
{
    match cmd {
        ChatCommand::Noop => ChatEffect::Nothing,
        ChatCommand::Yank(t) => ChatEffect::Compose(t),
        ChatCommand::Copy(t) => ChatEffect::Clipboard(t),
        ChatCommand::Edit { message_id, new_content } => {
            match chat.index_of_message_id(message_id.as_str()) {
                Some(idx) => {
                    history.truncate_from(idx);
                    ChatEffect::Resync
                },
                None => ChatEffect::Nothing,
            }
        },
        ChatCommand::Regenerate { from_index } => {
            match regenerate_prompt(history, from_index) {
                Some(p) => {
                    history.truncate_from(from_index);
                    ChatEffect::Resubmit(p)
                },
                None => ChatEffect::Nothing,
            }
        },
        ChatCommand::Delete { from_index } => {
            history.truncate_from(from_index);
            ChatEffect::Resync
        },
        ChatCommand::Branch { .. } => ChatEffect::Nothing,
    }
}


/// The last word of `q`: what follows its last whitespace.
pub open spec fn spec_last_word(q: Seq<char>) -> Seq<char>
    decreases q.len(),
{
    if q.len() == 0 || spec_is_whitespace(q.last()) {
        Seq::empty()
    } else {
        spec_last_word(q.drop_last()).push(q.last())
    }
}

/// Whether a word reads as a path.
pub open spec fn spec_is_path_word(w: Seq<char>) -> bool {
    spec_starts_with(w, "./"@) || spec_starts_with(w, "../"@) || spec_starts_with(w, "~/"@) || spec_starts_with(w, "/"@)
}

/// `r` is the completion request for the query `q`: a query that starts
/// with a slash completes a slash command; otherwise a last word that reads
/// as a path completes that path; otherwise there is none.
pub open spec fn spec_completion_request(q: Seq<char>, r: Option<TuiRequest>) -> bool {
    if q.len() > 0 && q[0] == '/' {
        r matches Some(TuiRequest::CompleteSlash { text }) && text@ == q
    } else if spec_is_path_word(spec_last_word(q)) {
        r matches Some(TuiRequest::CompletePath { word }) && word@ == spec_last_word(q)
    } else {
        r is None
    }
}

/// The last word of `q`.
fn last_word(q: &[char]) -> (r: Vec<char>)
    ensures
        r@ == spec_last_word(q@),
{
    let mut k: usize = q.len();
    proof {
        assert(q@.take(k as int) =~= q@);
        assert(q@.subrange(k as int, q@.len() as int) =~= Seq::<char>::empty());
        assert(spec_last_word(q@) =~= spec_last_word(q@.take(k as int)) + q@.subrange(k as int, q@.len() as int));
    }
    while k > 0 && !is_whitespace(q[k - 1])
        invariant
            k <= q@.len(),
            spec_last_word(q@) == spec_last_word(q@.take(k as int)) + q@.subrange(k as int, q@.len() as int),
        decreases k,
    {
        proof {
            assert(q@.take(k as int).drop_last() =~= q@.take(k - 1));
            assert(q@.subrange(k - 1, q@.len() as int) =~= seq![q@[k - 1]] + q@.subrange(k as int, q@.len() as int));
            assert(spec_last_word(q@.take(k as int)) == spec_last_word(q@.take(k - 1)).push(q@[k - 1]));
            assert(spec_last_word(q@.take(k - 1)).push(q@[k - 1]) + q@.subrange(k as int, q@.len() as int)
                =~= spec_last_word(q@.take(k - 1)) + q@.subrange(k - 1, q@.len() as int));
        }
        k = k - 1;
    }
    proof {
        assert(spec_last_word(q@.take(k as int)) =~= Seq::<char>::empty());
        assert(spec_last_word(q@) =~= q@.subrange(k as int, q@.len() as int));
    }
    copy_range(q, k, q.len())
}

/// The completion request for the query `q`, if any.
pub fn completion_request_for_input(q: &str) -> (r: Option<TuiRequest>)
    ensures
        spec_completion_request(q@, r),
{
    let chars = chars_of(q);
    if chars.len() > 0 && chars[0] == '/' {
        return Some(TuiRequest::CompleteSlash { text: owned(q) });
    }
    let w = last_word(&chars);
    if starts_with(&w, "./") || starts_with(&w, "../") || starts_with(&w, "~/") || starts_with(&w, "/") {
        Some(TuiRequest::CompletePath { word: string_of(&w) })
    } else {
        None
    }
}

/// The query completions are asked for: in command mode the line gets the
/// slash it is typed without.
pub open spec fn spec_completion_query(input: Seq<char>, mode: InputMode) -> Seq<char> {
    if mode == InputMode::Command { seq!['/'] + input } else { input }
}

/// What to do about completions after the input changed.
#[derive(Debug, Clone, PartialEq, Eq)]
pub enum CompletionStep {
    /// The same query is already shown: nothing.
    Unchanged,
    /// Send this request.
    Send(TuiRequest),
    /// No completion applies: close the popup.
    ClosePopup,
    /// No completion applies and none is shown.
    Idle,
}

/// Decides whether to ask for completions of `input`: nothing where the
/// same query was asked last and the popup shows; otherwise the query is
/// remembered and its request sent, or, where it has none, a shown popup is
/// closed and the remembered query forgotten.
pub fn completion_step(last_query: &mut Option<String>, input: &str, mode: InputMode, popup_visible: bool) -> (r: CompletionStep)
    ensures
        ({
            let q = spec_completion_query(input@, mode);
            if ((*old(last_query)) matches Some(l) && l@ == q) && popup_visible {
                r is Unchanged && *final(last_query) == *old(last_query)
            } else {
                exists|req: Option<TuiRequest>| spec_completion_request(q, req) && match req {
                    Some(x) => r == CompletionStep::Send(x) && ((*final(last_query)) matches Some(l) && l@ == q),
                    None => if popup_visible {
                        r is ClosePopup && (*final(last_query)) is None
                    } else {
                        r is Idle && ((*final(last_query)) matches Some(l) && l@ == q)
                    },
                }
            }
        }),
{
    let query = match mode {
        InputMode::Command => concat("/", input),
        _ => owned(input),
    };
    proof {
        reveal_strlit("/");
        assert(query@ =~= spec_completion_query(input@, mode));
    }
    let same = match last_query {
        Some(l) => crate::text::str_eq(l.as_str(), query.as_str()),
        None => false,
    };
    if same && popup_visible {
        return CompletionStep::Unchanged;
    }
    let req = completion_request_for_input(query.as_str());
    *last_query = Some(query);
    match req {
        Some(x) => CompletionStep::Send(x),
        None => {
            if popup_visible {
                *last_query = None;
                CompletionStep::ClosePopup
            } else {
                CompletionStep::Idle
            }
        },
    }
}

/// Where a slash completion replaces the input from: in command mode one
/// before the gateway's position (the line has no slash), else the
/// gateway's position; by default the start of the command.
pub fn slash_replace_from(mode: InputMode, replace_from: Option<usize>) -> (r: usize)
    ensures
        mode == InputMode::Command ==> r == match replace_from {
            Some(p) => if p > 0 { (p - 1) as usize } else { 0usize },
            None => 0usize,
        },
        mode != InputMode::Command ==> r == match replace_from {
            Some(p) => p,
            None => 1usize,
        },
{
    match mode {
        InputMode::Command => match replace_from {
            Some(p) => p.saturating_sub(1),
            None => 0,
        },
        _ => match replace_from {
            Some(p) => p,
            None => 1,
        },
    }
}

/// The request that creates a session with the gateway's defaults.
pub fn new_session_request() -> (r: TuiRequest)
    ensures
        r matches TuiRequest::SessionCreate(c) && c.model is None && c.provider is None
            && c.toolsets is None && c.skills is None && c.worktree is None,
{
    TuiRequest::SessionCreate(SessionCreateRequest { model: None, provider: None, toolsets: None, skills: None, worktree: None })
}

/// What to do once the gateway is ready: resume the first listed session,
/// or create one where none is listed.
pub fn ready_request(sessions: &Option<Vec<SessionListItem>>) -> (r: TuiRequest)
    ensures
        match sessions {
            Some(v) if v@.len() > 0 => r matches TuiRequest::SessionResume(x) && x.session_id@ == v@[0].id@,
            _ => r matches TuiRequest::SessionCreate(c) && c.model is None && c.provider is None
                && c.toolsets is None && c.skills is None && c.worktree is None,
        },
{
    match sessions {
        Some(v) => {
            if v.len() > 0 {
                TuiRequest::SessionResume(SessionResumeRequest { session_id: owned(v[0].id.as_str()) })
            } else {
                new_session_request()
            }
        },
        None => new_session_request(),
    }
}

/// The request that switches to `model`, and the notice that says so; none
/// for an empty name.
pub fn model_switch(model: &str) -> (r: Option<(TuiRequest, String)>)
    ensures
        model@.len() == 0 ==> r is None,
        model@.len() > 0 ==> (r matches Some((req, notice))
            && (req matches TuiRequest::ConfigSet { key, value } && key@ == "model"@ && value@ == model@)
            && notice@ == "Model switched to: "@ + model@),
{
    let cs = chars_of(model);
    if cs.len() == 0 {
        return None;
    }
    Some((TuiRequest::ConfigSet { key: owned("model"), value: owned(model) }, concat("Model switched to: ", model)))
}

/// The notices a slash command's output gives: the output, then the
/// warning after "Warning: ".
pub fn slash_exec_notices(response: &SlashExecResponse) -> (r: Vec<String>)
    ensures
        r@.len() == (if response.output is Some { 1int } else { 0int }) + (if response.warning is Some { 1int } else { 0int }),
        response.output matches Some(o) ==> r@[0]@ == o@,
        response.warning matches Some(w) ==> r@.last()@ == "Warning: "@ + w@,
{
    let mut out: Vec<String> = Vec::new();
    match &response.output {
        Some(o) => out.push(owned(o.as_str())),
        None => {},
    }
    match &response.warning {
        Some(w) => out.push(concat("Warning: ", w.as_str())),
        None => {},
    }
    out
}

/// The notice that says which session is being resumed.
pub open spec fn spec_resume_notice(name: Option<String>) -> Seq<char> {
    "Resuming session: "@ + match name {
        Some(n) => n@,
        None => "Unnamed"@,
    }
}

/// Resuming the most recent session: its request and the notice, or, where
/// there is no other session, no request and a notice that says so.
pub fn resume_plan(sessions: &SessionManager) -> (r: (Option<TuiRequest>, String))
    ensures
        (forall|k: int| 0 <= k < sessions.all().len() ==> spec_is_current(sessions.current(), #[trigger] sessions.all()[k]))
            ==> r.0 is None && r.1@ == "No previous sessions to resume"@,
        r.0 is Some ==> exists|x: Session| #![trigger sessions.all().contains(x)]
            sessions.all().contains(x) && !spec_is_current(sessions.current(), x)
            && (forall|k: int| 0 <= k < sessions.all().len() && !spec_is_current(sessions.current(), #[trigger] sessions.all()[k])
                ==> sessions.all()[k].updated_at <= x.updated_at)
            && (r.0 matches Some(TuiRequest::SessionResume(q)) && q.session_id@ == x.id@)
            && r.1@ == spec_resume_notice(x.name),
        r.0 is None ==> r.1@ == "No previous sessions to resume"@,
{
    match sessions.most_recent_session() {
        Some(s) => {
            let name: &str = match &s.name {
                Some(n) => n.as_str(),
                None => "Unnamed",
            };
            let notice = concat("Resuming session: ", name);
            (Some(TuiRequest::SessionResume(SessionResumeRequest { session_id: owned(s.id.as_str()) })), notice)
        },
        None => (None, owned("No previous sessions to resume")),
    }
}

/// A copy of an optional text.
fn copy_opt(o: &Option<String>) -> (r: Option<String>)
    ensures
        opt_view(r) == opt_view(*o),
{
    match o {
        Some(s) => Some(owned(s.as_str())),
        None => None,
    }
}

/// Takes up a session the gateway created: it is added where it is not
/// known, titled with the gateway's title, and made current. Returns the
/// model the gateway reports and the provider the session has.
pub fn adopt_created_session(sessions: &mut SessionManager, response: &SessionCreateResponse) -> (r: (Option<String>, Option<String>))
    ensures
        final(sessions).current() matches Some(c) && c@ == response.session_id@,
        final(sessions).next_id() == old(sessions).next_id(),
        spec_has_session(old(sessions).all(), response.session_id@) ==> final(sessions).all() == old(sessions).all(),
        !spec_has_session(old(sessions).all(), response.session_id@) ==> exists|s: Session|
            final(sessions).all() == old(sessions).all().push(s)
            && spec_fresh_session(Session { name: None, ..s }, response.session_id@)
            && opt_view(s.name) == match response.info {
                Some(info) => opt_view(info.title),
                None => None,
            },
        opt_view(r.0) == match response.info {
            Some(info) => opt_view(info.model),
            None => None,
        },
        spec_has_session(final(sessions).all(), response.session_id@),
        opt_view(r.1) == opt_view(final(sessions).all()[spec_session_pos(final(sessions).all(), response.session_id@)].provider),
{
    let id = response.session_id.as_str();
    if !sessions.contains_session(id) {
        let mut session = Session::new(id);
        match &response.info {
            Some(info) => match &info.title {
                Some(t) => {
                    session.name = Some(owned(t.as_str()));
                },
                None => {},
            },
            None => {},
        }
        let ghost before = sessions.all();
        sessions.add_session(session);
        proof {
            let p = before.len() as int;
            assert(sessions.all()[p].id@ == id@);
            lemma_has_session_at(sessions.all(), id@, p);
        }
    }
    sessions.set_current_session(id);
    let model = match &response.info {
        Some(info) => copy_opt(&info.model),
        None => None,
    };
    let provider = match sessions.current_session() {
        Some(s) => copy_opt(&s.provider),
        None => None,
    };
    (model, provider)
}

/// Some session of `s` at `p` has identifier `id`.
proof fn lemma_has_session_at(s: Seq<Session>, id: Seq<char>, p: int)
    requires
        0 <= p < s.len(),
        s[p].id@ == id,
    ensures
        spec_has_session(s, id),
{
    assert(s[p].id@ == id);
}

/// `s` after each of `ms` was added in turn.
pub open spec fn spec_push_all(s: Seq<Message>, max: usize, ms: Seq<Message>) -> Seq<Message>
    decreases ms.len(),
{
    if ms.len() == 0 {
        s
    } else {
        spec_push_bounded(spec_push_all(s, max, ms.drop_last()), max, ms.last())
    }
}

/// The text of a transcript message, empty where it has none.
pub open spec fn spec_transcript_text(m: GatewayTranscriptMessage) -> Seq<char> {
    match m.text {
        Some(t) => t@,
        None => Seq::empty(),
    }
}

/// Takes up a session the gateway resumed: it is added where it is not
/// known and made current; the history is replaced by the session's
/// transcript, where the gateway sent one. Returns the model the gateway
/// reports, the provider the session has, and whether a transcript came.
pub fn adopt_resumed_session(
    sessions: &mut SessionManager,
    history: &mut MessageHistory,
    response: &SessionResumeResponse,
) -> (r: (Option<String>, Option<String>, bool))
    ensures
        final(sessions).current() matches Some(c) && c@ == response.session_id@,
        final(sessions).next_id() == old(sessions).next_id(),
        spec_has_session(old(sessions).all(), response.session_id@) ==> final(sessions).all() == old(sessions).all(),
        !spec_has_session(old(sessions).all(), response.session_id@) ==> exists|s: Session|
            final(sessions).all() == old(sessions).all().push(s) && spec_fresh_session(s, response.session_id@),
        opt_view(r.0) == match response.info {
            Some(info) => opt_view(info.model),
            None => None,
        },
        spec_has_session(final(sessions).all(), response.session_id@),
        opt_view(r.1) == opt_view(final(sessions).all()[spec_session_pos(final(sessions).all(), response.session_id@)].provider),
        r.2 == response.messages is Some,
        final(history).capacity() == old(history).capacity(),
        final(history).sid() == old(history).sid(),
        match response.messages {
            Some(items) => exists|ms: Seq<Message>| {
                &&& ms.len() == items@.len()
                &&& forall|i: int| 0 <= i < ms.len() ==> spec_plain_message(#[trigger] ms[i], items@[i].role, spec_transcript_text(items@[i]))
                &&& final(history).msgs() == spec_push_all(Seq::empty(), old(history).capacity(), ms)
            },
            None => final(history).msgs().len() == 0,
        },
{
    let id = response.session_id.as_str();
    if !sessions.contains_session(id) {
        let ghost before = sessions.all();
        sessions.add_session(Session::new(id));
        proof {
            let p = before.len() as int;
            lemma_has_session_at(sessions.all(), id@, p);
        }
    }
    sessions.set_current_session(id);
    let model = match &response.info {
        Some(info) => copy_opt(&info.model),
        None => None,
    };
    let provider = match sessions.current_session() {
        Some(s) => copy_opt(&s.provider),
        None => None,
    };
    history.clear();
    let loaded = match &response.messages {
        Some(items) => {
            append_transcript(history, items);
            true
        },
        None => false,
    };
    (model, provider, loaded)
}

/// The notice shown when the gateway connection is lost.
pub open spec fn spec_reconnect_notice(attempt: u32) -> Seq<char> {
    "Connection lost. Reconnecting (attempt "@ + spec_decimal(attempt as nat) + ")..."@
}

/// The attempts after which a failed reconnection gives up.
pub const MAX_RECONNECT_ATTEMPTS: u32 = 5;

/// Reconnection bookkeeping: whether a reconnection is under way and how
/// many were started.
#[derive(Debug, Clone, Copy, PartialEq, Eq)]
pub struct Reconnect {
    pub reconnecting: bool,
    pub attempts: u32,
}

impl Reconnect {
    /// No reconnection yet.
    pub fn new() -> (r: Self)
        ensures
            !r.reconnecting,
            r.attempts == 0,
    {
        Reconnect { reconnecting: false, attempts: 0 }
    }

    /// Starts a reconnection and returns the notice to show; nothing where
    /// one is already under way.
    pub fn begin(&mut self) -> (r: Option<String>)
        ensures
            old(self).reconnecting ==> r is None && *final(self) == *old(self),
            !old(self).reconnecting ==> {
                &&& final(self).reconnecting
                &&& final(self).attempts as nat == spec_min_u32(old(self).attempts as nat + 1)
                &&& r matches Some(t) && t@ == spec_reconnect_notice(final(self).attempts)
            },
    {
        if self.reconnecting {
            return None;
        }
        self.reconnecting = true;
        self.attempts = self.attempts.saturating_add(1);
        let head = concat("Connection lost. Reconnecting (attempt ", decimal(self.attempts as u64).as_str());
        Some(concat(head.as_str(), ")..."))
    }

    /// Records how a reconnection attempt went: a success ends it; a
    /// failure after the last allowed attempt ends it too and returns the
    /// notice to show; an earlier failure leaves it under way.
    pub fn finish(&mut self, connected: bool) -> (r: Option<String>)
        ensures
            final(self).attempts == old(self).attempts,
            connected ==> !final(self).reconnecting && r is None,
            !connected && old(self).attempts >= MAX_RECONNECT_ATTEMPTS ==> !final(self).reconnecting
                && (r matches Some(t) && t@ == "Failed to reconnect after multiple attempts. Restart the TUI or press Ctrl+C to exit."@),
            !connected && old(self).attempts < MAX_RECONNECT_ATTEMPTS ==> final(self).reconnecting == old(self).reconnecting && r is None,
    {
        if connected {
            self.reconnecting = false;
            return None;
        }
        if self.attempts >= MAX_RECONNECT_ATTEMPTS {
            self.reconnecting = false;
            return Some(owned("Failed to reconnect after multiple attempts. Restart the TUI or press Ctrl+C to exit."));
        }
        None
    }
}

/// `n`, held at `u32::MAX`.
pub open spec fn spec_min_u32(n: nat) -> nat {
    if n > u32::MAX { u32::MAX as nat } else { n }
}

/// What is known of the gateway's process.
#[derive(Debug, Clone, Copy, PartialEq, Eq)]
pub enum ProcessState {
    /// It runs.
    Running,
    /// It has exited.
    Exited,
    /// Its state could not be read.
    Unknown,
    /// There is none.
    Absent,
}

/// Whether the gateway needs reconnecting: not while a reconnection is
/// under way; else where its process exited or cannot be read, or where
/// there is none but the client reports a connection.
pub fn needs_reconnect(reconnecting: bool, process: ProcessState, client_connected: bool) -> (r: bool)
    ensures
        r == (!reconnecting && match process {
            ProcessState::Running => false,
            ProcessState::Exited => true,
            ProcessState::Unknown => true,
            ProcessState::Absent => client_connected,
        }),
{
    if reconnecting {
        return false;
    }
    match process {
        ProcessState::Running => false,
        ProcessState::Exited => true,
        ProcessState::Unknown => true,
        ProcessState::Absent => client_connected,
    }
}

/// The most samples a telemetry history keeps.
pub const MAX_SAMPLES: usize = 1000;

/// Adds a sample to a telemetry history, dropping the oldest beyond the
/// limit.
pub fn push_sample(history: &mut Vec<u64>, value: u64)
    requires
        old(history)@.len() <= MAX_SAMPLES,
    ensures
        final(history)@ == if old(history)@.len() < MAX_SAMPLES {
            old(history)@.push(value)
        } else {
            old(history)@.push(value).drop_first()
        },
        final(history)@.len() <= MAX_SAMPLES,
{
    history.push(value);
    if history.len() > MAX_SAMPLES {
        history.remove(0);
        proof {
            assert(final(history)@ =~= old(history)@.push(value).drop_first());
        }
    }
}

/// The token speed shown while the agent thinks: a value that moves with
/// the frame; nothing otherwise.
pub fn token_speed(thinking: bool, frame: u64) -> (r: u64)
    ensures
        r == if thinking { (frame % 50 + 20) as u64 } else { 0 },
{
    if thinking { frame % 50 + 20 } else { 0 }
}

/// The log level a line of the gateway's error output is written at.
#[derive(Debug, Clone, Copy, PartialEq, Eq)]
pub enum StderrLevel {
    Warn,
    Debug,
    Info,
}

/// The level of a gateway error-output line by its reported level:
/// errors and warnings as warnings, debug as debug, the rest (and none) as
/// information.
pub fn stderr_level(level: Option<&str>) -> (r: StderrLevel)
    ensures
        r == match level {
            Some(l) => if l@ == "ERROR"@ || l@ == "WARNING"@ || l@ == "WARN"@ {
                StderrLevel::Warn
            } else if l@ == "DEBUG"@ {
                StderrLevel::Debug
            } else {
                StderrLevel::Info
            },
            None => StderrLevel::Info,
        },
{
    match level {
        Some(l) => {
            if crate::text::str_eq(l, "ERROR") || crate::text::str_eq(l, "WARNING") || crate::text::str_eq(l, "WARN") {
                StderrLevel::Warn
            } else if crate::text::str_eq(l, "DEBUG") {
                StderrLevel::Debug
            } else {
                StderrLevel::Info
            }
        },
        None => StderrLevel::Info,
    }
}


/// Switching the main view: the view to remember as the previous one, or
/// nothing where the view does not change.
pub fn switch_view(current: ViewState, new_view: ViewState) -> (r: Option<ViewState>)
    ensures
        r == if current == new_view { None } else { Some(current) },
{
    if current == new_view { None } else { Some(current) }
}


/// The input mode a focused pane puts the client in, and whether the
/// composer takes keys: typing in the composer, normal mode elsewhere.
pub fn pane_focus(pane: FocusPane) -> (r: (InputMode, bool))
    ensures
        r == match pane {
            FocusPane::Composer => (InputMode::Insert, true),
            _ => (InputMode::Normal, false),
        },
{
    match pane {
        FocusPane::Composer => (InputMode::Insert, true),
        _ => (InputMode::Normal, false),
    }
}

/// Takes up a session the gateway activated: it is added where it is not
/// known and made current; the transcript the gateway sent, if any, is
/// added to the history after what it holds. Returns whether a transcript
/// came.
pub fn adopt_activated_session(
    sessions: &mut SessionManager,
    history: &mut MessageHistory,
    session_id: &str,
    messages: &Option<Vec<GatewayTranscriptMessage>>,
) -> (r: bool)
    ensures
        final(sessions).current() matches Some(c) && c@ == session_id@,
        final(sessions).next_id() == old(sessions).next_id(),
        spec_has_session(old(sessions).all(), session_id@) ==> final(sessions).all() == old(sessions).all(),
        !spec_has_session(old(sessions).all(), session_id@) ==> exists|s: Session|
            final(sessions).all() == old(sessions).all().push(s) && spec_fresh_session(s, session_id@),
        r == messages is Some,
        final(history).capacity() == old(history).capacity(),
        final(history).sid() == old(history).sid(),
        match messages {
            Some(items) => exists|ms: Seq<Message>| {
                &&& ms.len() == items@.len()
                &&& forall|i: int| 0 <= i < ms.len() ==> spec_plain_message(#[trigger] ms[i], items@[i].role, spec_transcript_text(items@[i]))
                &&& final(history).msgs() == spec_push_all(old(history).msgs(), old(history).capacity(), ms)
            },
            None => final(history).msgs() == old(history).msgs(),
        },
{
    if !sessions.contains_session(session_id) {
        let ghost before = sessions.all();
        sessions.add_session(Session::new(session_id));
        proof {
            let p = before.len() as int;
            lemma_has_session_at(sessions.all(), session_id@, p);
        }
    }
    sessions.set_current_session(session_id);
    match messages {
        Some(items) => {
            append_transcript(history, items);
            true
        },
        None => false,
    }
}

/// Adds each transcript message to the history, in order.
fn append_transcript(history: &mut MessageHistory, items: &Vec<GatewayTranscriptMessage>)
    ensures
        final(history).capacity() == old(history).capacity(),
        final(history).sid() == old(history).sid(),
        exists|ms: Seq<Message>| {
            &&& ms.len() == items@.len()
            &&& forall|i: int| 0 <= i < ms.len() ==> spec_plain_message(#[trigger] ms[i], items@[i].role, spec_transcript_text(items@[i]))
            &&& final(history).msgs() == spec_push_all(old(history).msgs(), old(history).capacity(), ms)
        },
{
    let ghost start = history.msgs();
    let ghost mut ms: Seq<Message> = Seq::empty();
    let mut i: usize = 0;
    while i < items.len()
        invariant
            i <= items@.len(),
            ms.len() == i,
            forall|k: int| 0 <= k < i ==> spec_plain_message(#[trigger] ms[k], items@[k].role, spec_transcript_text(items@[k])),
            history.msgs() == spec_push_all(start, history.capacity(), ms),
            history.capacity() == old(history).capacity(),
            history.sid() == old(history).sid(),
            start == old(history).msgs(),
        decreases items@.len() - i,
    {
        let item = &items[i];
        let text: &str = match &item.text {
            Some(t) => t.as_str(),
            None => {
                proof {
                    reveal_strlit("");
                    assert(""@ =~= Seq::<char>::empty());
                }
                ""
            },
        };
        assert(text@ == spec_transcript_text(items@[i as int]));
        let m = Message::new(item.role, text);
        proof {
            let next = ms.push(m);
            assert(next.drop_last() =~= ms);
            assert forall|k: int| 0 <= k < i + 1 implies spec_plain_message(#[trigger] next[k], items@[k].role, spec_transcript_text(items@[k])) by {
                if k < i {
                    assert(next[k] == ms[k]);
                }
            }
            ms = next;
        }
        history.add_message(m);
        i = i + 1;
    }
}

} // verus!
