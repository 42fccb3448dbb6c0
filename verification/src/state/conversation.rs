//! The conversation as the gateway's events shape it: messages, tool
//! cards, subagents and the state of the answer being streamed.

use vstd::prelude::*;
use vstd::utf8::encode_utf8;

use crate::protocol::types::{
    ApprovalResponse, ClarifyResponse, MessageRole, SecretResponse, SudoResponse, TokenUsage,
    TuiRequest,
};
use crate::state::messages::{
    spec_contains_id, spec_first_with_id, spec_push_bounded, Message, MessageHistory,
};
use crate::text::{concat, decimal, owned, spec_decimal, str_eq};
use crate::state::messages::{lemma_first_exists, spec_has_message_id, spec_is_first_with_id};
use crate::ui::subagent::{spec_scroll_latest, spec_upsert_agent, SubagentStatus};
use crate::ui::cards::{
    spec_card_pos, spec_card_updated, spec_has_card, spec_new_tool_card, spec_opt,
    spec_summary_ok, CardManager, CardView, ToolCardData, ToolCardDataView, ToolStatus,
};
use crate::ui::prompts::PromptKeyOutcome;
use crate::ui::subagent::{SubagentInfo, SubagentList};

verus! {

/// How the chat view must follow a change of the conversation.
#[derive(Debug, Clone, PartialEq, Eq)]
pub enum ChatUpdate {
    /// A message was added.
    Added(Message),
    /// A message already shown was changed.
    Updated(Message),
}

/// The message content a finished tool call gets.
pub open spec fn spec_tool_done_text(result: Seq<char>, duration_ms: Option<u64>, error: Option<Seq<char>>) -> Seq<char> {
    "Tool completed: "@ + match error {
        Some(e) => "Error: "@ + e,
        None => result,
    } + match duration_ms {
        Some(ms) => " ("@ + spec_decimal(ms as nat) + "ms)"@,
        None => Seq::empty(),
    }
}

/// How an optional duration is written in the debugging form.
pub open spec fn spec_debug_duration(d: Option<u64>) -> Seq<char> {
    match d {
        Some(ms) => "Some("@ + spec_decimal(ms as nat) + ")"@,
        None => "None"@,
    }
}

/// The identifier of the message being streamed in a session.
pub open spec fn spec_streaming_id(session_id: Option<Seq<char>>) -> Seq<char> {
    (match session_id {
        Some(s) => s,
        None => Seq::empty(),
    }) + ":streaming"@
}

/// The data of a tool call brought to a new status; the card's tool name
/// and arguments are kept.
pub open spec fn spec_tool_done_data(c: CardView, call_id: Seq<char>, result: Seq<char>, duration_ms: Option<u64>, error: Option<Seq<char>>) -> ToolCardDataView {
    ToolCardDataView {
        tool_name: c.tool_name,
        call_id,
        status: if error is Some { ToolStatus::Failed } else { ToolStatus::Completed },
        duration_ms,
        arguments: c.arguments,
        result: Some(result),
        error,
    }
}

/// The conversation's state.
/// `after` is `before` with the entry `x` put in, as `SubagentList::upsert`
/// does it.
pub open spec fn spec_agents_upserted(before: SubagentList, after: SubagentList, x: SubagentInfo) -> bool {
    &&& after.all() == spec_upsert_agent(before.all(), x)
    &&& after.height() == before.height()
    &&& after.follows() == before.follows()
    &&& after.scroll() == if before.follows() {
        spec_scroll_latest(after.all(), before.scroll(), before.height())
    } else {
        before.scroll()
    }
}

#[derive(Debug, Clone)]
pub struct Conversation {
    messages: MessageHistory,
    cards: CardManager,
    subagents: SubagentList,
    thinking: bool,
    streaming_reasoning: String,
    streaming_message_id: Option<String>,
}

impl Conversation {
    pub closed spec fn history(&self) -> MessageHistory {
        self.messages
    }

    pub closed spec fn card_list(&self) -> CardManager {
        self.cards
    }

    pub closed spec fn agents(&self) -> SubagentList {
        self.subagents
    }

    /// Whether the gateway is working on an answer.
    pub closed spec fn is_busy(&self) -> bool {
        self.thinking
    }

    /// The reasoning streamed so far for the current answer.
    pub closed spec fn reasoning(&self) -> Seq<char> {
        self.streaming_reasoning@
    }

    /// The identifier of the message being streamed.
    pub closed spec fn streaming_id(&self) -> Option<Seq<char>> {
        match self.streaming_message_id {
            Some(s) => Some(s@),
            None => None,
        }
    }

    /// A conversation with the given parts, idle, streaming nothing.
    pub fn new(messages: MessageHistory, cards: CardManager, subagents: SubagentList) -> (r: Self)
        ensures
            r.history() == messages,
            r.card_list() == cards,
            r.agents() == subagents,
            !r.is_busy(),
            r.reasoning() == Seq::<char>::empty(),
            r.streaming_id() is None,
    {
        let r = Conversation {
            messages,
            cards,
            subagents,
            thinking: false,
            streaming_reasoning: String::new(),
            streaming_message_id: None,
        };
        assert(r.reasoning() =~= Seq::<char>::empty());
        r
    }

    pub fn messages(&self) -> (r: &MessageHistory)
        ensures
            *r == self.history(),
    {
        &self.messages
    }

    pub fn messages_mut(&mut self) -> (r: &mut MessageHistory)
        ensures
            *r == old(self).history(),
            final(self).history() == *final(r),
            final(self).card_list() == old(self).card_list(),
            final(self).agents() == old(self).agents(),
            final(self).is_busy() == old(self).is_busy(),
            final(self).reasoning() == old(self).reasoning(),
            final(self).streaming_id() == old(self).streaming_id(),
    {
        &mut self.messages
    }

    pub fn cards(&self) -> (r: &CardManager)
        ensures
            *r == self.card_list(),
    {
        &self.cards
    }

    pub fn cards_mut(&mut self) -> (r: &mut CardManager)
        ensures
            *r == old(self).card_list(),
            final(self).card_list() == *final(r),
            final(self).history() == old(self).history(),
            final(self).agents() == old(self).agents(),
            final(self).is_busy() == old(self).is_busy(),
            final(self).reasoning() == old(self).reasoning(),
            final(self).streaming_id() == old(self).streaming_id(),
    {
        &mut self.cards
    }

    pub fn subagents(&self) -> (r: &SubagentList)
        ensures
            *r == self.agents(),
    {
        &self.subagents
    }

    pub fn subagents_mut(&mut self) -> (r: &mut SubagentList)
        ensures
            *r == old(self).agents(),
            final(self).agents() == *final(r),
            final(self).history() == old(self).history(),
            final(self).card_list() == old(self).card_list(),
            final(self).is_busy() == old(self).is_busy(),
            final(self).reasoning() == old(self).reasoning(),
            final(self).streaming_id() == old(self).streaming_id(),
    {
        &mut self.subagents
    }

    /// Whether the gateway is working on an answer.
    pub fn is_thinking(&self) -> (r: bool)
        ensures
            r == self.is_busy(),
    {
        self.thinking
    }

    /// Note whether the gateway is working on an answer.
    pub fn set_thinking(&mut self, thinking: bool)
        ensures
            final(self).is_busy() == thinking,
            final(self).history() == old(self).history(),
            final(self).card_list() == old(self).card_list(),
            final(self).agents() == old(self).agents(),
            final(self).reasoning() == old(self).reasoning(),
            final(self).streaming_id() == old(self).streaming_id(),
    {
        self.thinking = thinking;
    }

    /// The reasoning streamed so far for the current answer.
    pub fn streaming_reasoning(&self) -> (r: &str)
        ensures
            r@ == self.reasoning(),
    {
        self.streaming_reasoning.as_str()
    }

    /// A tool call started: the gateway is busy; a running card and a tool
    /// message, identified by the call, are added. Returns the message.
    pub fn tool_start(&mut self, tool_name: &str, call_id: &str, arguments: Option<&str>) -> (r: Message)
        ensures
            final(self).is_busy(),
            r.role == MessageRole::Tool,
            r.content@ == "Tool '"@ + tool_name@ + "' started..."@,
            r.name matches Some(n) && n@ == tool_name@,
            r.message_id matches Some(id) && id@ == call_id@,
            !r.streaming && r.complete,
            r.context is None && r.usage is None && r.reasoning is None && r.warning is None,
            final(self).history().msgs() == spec_push_bounded(old(self).history().msgs(), old(self).history().capacity(), r),
            final(self).history().capacity() == old(self).history().capacity(),
            final(self).history().sid() == old(self).history().sid(),
            final(self).card_list().palette() == old(self).card_list().palette(),
            final(self).card_list().all() == old(self).card_list().all().push(spec_new_tool_card(
                ToolCardDataView {
                    tool_name: tool_name@,
                    call_id: call_id@,
                    status: ToolStatus::Running,
                    duration_ms: None,
                    arguments: Some(match arguments { Some(a) => a@, None => Seq::empty() }),
                    result: None,
                    error: None,
                },
                Seq::empty(),
                0,
                old(self).card_list().palette(),
            )),
            final(self).agents() == old(self).agents(),
            final(self).reasoning() == old(self).reasoning(),
            final(self).streaming_id() == old(self).streaming_id(),
    {
        self.thinking = true;
        let args = match arguments {
            Some(a) => a,
            None => "",
        };
        proof {
            reveal_strlit("");
            assert(args@ =~= match arguments { Some(a) => a@, None => Seq::<char>::empty() });
        }
        let data = ToolCardData::running(tool_name).with_call_id(call_id).with_arguments(args);
        let ghost dv = data@;
        assert(dv == ToolCardDataView {
            tool_name: tool_name@,
            call_id: call_id@,
            status: ToolStatus::Running,
            duration_ms: None,
            arguments: Some(match arguments { Some(a) => a@, None => Seq::empty() }),
            result: None,
            error: None,
        });
        self.cards.add_tool_card(data, "");
        proof {
            assert(self.cards.all().last() == spec_new_tool_card(dv, Seq::empty(), 0, old(self).card_list().palette()));
            assert(self.cards.all() =~= old(self).card_list().all().push(self.cards.all().last()));
        }
        let a = concat("Tool '", tool_name);
        let text = concat(a.as_str(), "' started...");
        let mut message = Message::tool(text.as_str(), tool_name);
        message.message_id = Some(owned(call_id));
        let copy = message.duplicate();
        self.messages.add_message(message);
        copy
    }

    /// A tool call reported progress: its card, if any, shows the output as
    /// its result while running. Returns whether there was such a card.
    pub fn tool_progress(&mut self, call_id: &str, output: &str) -> (r: bool)
        ensures
            r == spec_has_card(old(self).card_list().all(), call_id@),
            final(self).card_list().palette() == old(self).card_list().palette(),
            !r ==> final(self).card_list().all() == old(self).card_list().all(),
            r ==> ({
                let s = old(self).card_list().all();
                let p = spec_card_pos(s, call_id@);
                final(self).card_list().all() == s.update(p, spec_card_updated(s[p], ToolCardDataView {
                    tool_name: s[p].tool_name,
                    call_id: call_id@,
                    status: ToolStatus::Running,
                    duration_ms: None,
                    arguments: s[p].arguments,
                    result: Some(output@),
                    error: None,
                }, Seq::empty()))
            }),
            final(self).history() == old(self).history(),
            final(self).agents() == old(self).agents(),
            final(self).is_busy() == old(self).is_busy(),
            final(self).reasoning() == old(self).reasoning(),
            final(self).streaming_id() == old(self).streaming_id(),
    {
        self.cards.update_tool_status(call_id, ToolStatus::Running, Some(owned(output)), None)
    }

    /// A tool call finished, with the given result (or error): the gateway is
    /// no longer busy; the call's card shows the outcome; the call's message
    /// is updated in place, or a new tool message is added when there was
    /// none. `seconds` spells the duration in seconds for the card's title.
    pub fn tool_complete(&mut self, call_id: &str, result: &str, duration_ms: Option<u64>, error: Option<String>, seconds: &str) -> (r: ChatUpdate)
        requires
            spec_has_card(old(self).card_list().all(), call_id@) ==> spec_summary_ok(ToolCardDataView {
                tool_name: Seq::empty(),
                call_id: call_id@,
                status: if error is Some { ToolStatus::Failed } else { ToolStatus::Completed },
                duration_ms,
                arguments: None,
                result: Some(result@),
                error: spec_opt(error),
            }),
        ensures
            !final(self).is_busy(),
            final(self).card_list().palette() == old(self).card_list().palette(),
            ({
                let s = old(self).card_list().all();
                if spec_has_card(s, call_id@) {
                    let p = spec_card_pos(s, call_id@);
                    final(self).card_list().all() == s.update(p, spec_card_updated(s[p],
                        spec_tool_done_data(s[p], call_id@, result@, duration_ms, spec_opt(error)), seconds@))
                } else {
                    final(self).card_list().all() == s
                }
            }),
            ({
                let h = old(self).history().msgs();
                let text = spec_tool_done_text(result@, duration_ms, spec_opt(error));
                if spec_contains_id(h, call_id@) {
                    let i = spec_first_with_id(h, call_id@);
                    let updated = Message { content: final(self).history().msgs()[i].content, ..h[i] };
                    &&& final(self).history().msgs()[i].content@ == text
                    &&& final(self).history().msgs() == h.update(i, updated)
                    &&& r == ChatUpdate::Updated(updated)
                } else {
                    &&& r matches ChatUpdate::Added(m)
                    &&& m.role == MessageRole::Tool && m.content@ == text
                    &&& m.name matches Some(n) && n@ == call_id@ + " ("@ + spec_debug_duration(duration_ms) + "ms)"@
                    &&& m.message_id is None && !m.streaming && m.complete
                    &&& final(self).history().msgs() == spec_push_bounded(h, old(self).history().capacity(), m)
                }
            }),
            final(self).history().capacity() == old(self).history().capacity(),
            final(self).history().sid() == old(self).history().sid(),
            final(self).agents() == old(self).agents(),
            final(self).reasoning() == old(self).reasoning(),
            final(self).streaming_id() == old(self).streaming_id(),
    {
        self.thinking = false;
        let status = if error.is_some() { ToolStatus::Failed } else { ToolStatus::Completed };
        let ghost cards0 = self.cards.all();
        let found = match self.cards.find_by_call_id(call_id) {
            Some(card) => Some((owned(card.tool_name()), copy_opt_ref(card.arguments()))),
            None => None,
        };
        match found {
            Some((tool_name, arguments)) => {
                let data = ToolCardData {
                    tool_name,
                    call_id: owned(call_id),
                    status,
                    duration_ms,
                    arguments,
                    result: Some(owned(result)),
                    error: copy_opt(&error),
                };
                self.cards.update_by_call_id(call_id, &data, seconds);
            },
            None => {},
        }
        let shown = match &error {
            Some(e) => concat("Error: ", e.as_str()),
            None => owned(result),
        };
        let head = concat("Tool completed: ", shown.as_str());
        let content = match duration_ms {
            Some(ms) => {
                let d = decimal(ms);
                let a = concat(head.as_str(), " (");
                let b = concat(a.as_str(), d.as_str());
                concat(b.as_str(), "ms)")
            },
            None => head,
        };
        proof {
            assert(content@ =~= spec_tool_done_text(result@, duration_ms, spec_opt(error)));
        }
        let text = content.clone();
        let ghost h = self.messages.msgs();
        match self.messages.update_message_by_id(call_id, content) {
            Some(updated) => {
                proof {
                    let w = choose|k: int| 0 <= k < h.len() && crate::state::messages::spec_has_message_id(#[trigger] h[k], call_id@);
                    crate::state::messages::lemma_first_exists(h, call_id@, w);
                    let i = spec_first_with_id(h, call_id@);
                    assert(self.messages.msgs()[i] == updated);
                    assert(updated == (Message { content: self.messages.msgs()[i].content, ..h[i] }));
                }
                ChatUpdate::Updated(updated)
            },
            None => {
                let dur = match duration_ms {
                    Some(ms) => {
                        let d = decimal(ms);
                        let a = concat("Some(", d.as_str());
                        concat(a.as_str(), ")")
                    },
                    None => owned("None"),
                };
                let a = concat(call_id, " (");
                let b = concat(a.as_str(), dur.as_str());
                let name = concat(b.as_str(), "ms)");
                proof {
                    assert(name@ =~= call_id@ + " ("@ + spec_debug_duration(duration_ms) + "ms)"@);
                }
                let message = Message::tool(text.as_str(), name.as_str());
                let copy = message.duplicate();
                self.messages.add_message(message);
                ChatUpdate::Added(copy)
            },
        }
    }

    /// A new answer starts: the reasoning and the streaming marker are
    /// forgotten.
    pub fn message_start(&mut self)
        ensures
            final(self).reasoning() == Seq::<char>::empty(),
            final(self).streaming_id() is None,
            final(self).history() == old(self).history(),
            final(self).card_list() == old(self).card_list(),
            final(self).agents() == old(self).agents(),
            final(self).is_busy() == old(self).is_busy(),
    {
        self.streaming_reasoning = String::new();
        self.streaming_message_id = None;
        assert(self.reasoning() =~= Seq::<char>::empty());
    }

    /// A piece of the answer arrived for a session. The streamed message of
    /// that session is `<session>:streaming`; a new marker forgets the
    /// reasoning. The text extends the newest message when it is the streamed
    /// one, and starts a new streaming assistant message otherwise.
    pub fn message_delta(&mut self, session_id: Option<&str>, text: &str) -> (r: ChatUpdate)
        ensures
            ({
                let id = spec_streaming_id(match session_id { Some(s) => Some(s@), None => None });
                let h = old(self).history().msgs();
                &&& final(self).streaming_id() == Some(id)
                &&& final(self).reasoning() == if old(self).streaming_id() == Some(id) { old(self).reasoning() } else { Seq::<char>::empty() }
                &&& if h.len() > 0 && spec_opt(h.last().message_id) == Some(id) {
                        let m = final(self).history().msgs().last();
                        &&& m.content@ == h.last().content@ + text@
                        &&& final(self).history().msgs() == h.update(h.len() - 1, Message { content: m.content, ..h.last() })
                        &&& r == ChatUpdate::Updated(m)
                    } else {
                        &&& r matches ChatUpdate::Added(m)
                        &&& m.role == MessageRole::Assistant && m.content@ == text@
                        &&& m.message_id matches Some(x) && x@ == id
                        &&& m.streaming && !m.complete
                        &&& final(self).history().msgs() == spec_push_bounded(h, old(self).history().capacity(), m)
                    }
            }),
            final(self).history().capacity() == old(self).history().capacity(),
            final(self).history().sid() == old(self).history().sid(),
            final(self).card_list() == old(self).card_list(),
            final(self).agents() == old(self).agents(),
            final(self).is_busy() == old(self).is_busy(),
    {
        let sid = match session_id {
            Some(s) => s,
            None => "",
        };
        proof {
            reveal_strlit("");
            assert(sid@ =~= match session_id { Some(s) => s@, None => Seq::<char>::empty() });
        }
        let message_id = concat(sid, ":streaming");
        let same = match &self.streaming_message_id {
            Some(cur) => str_eq(cur.as_str(), message_id.as_str()),
            None => false,
        };
        if !same {
            self.streaming_reasoning = String::new();
            self.streaming_message_id = Some(message_id.clone());
            assert(self.reasoning() =~= Seq::<char>::empty());
        }
        let last_is_streamed = match self.messages.last() {
            Some(m) => match &m.message_id {
                Some(x) => str_eq(x.as_str(), message_id.as_str()),
                None => false,
            },
            None => false,
        };
        if last_is_streamed {
            let ghost h = self.messages.msgs();
            self.messages.append_to_last(text);
            let n = self.messages.len();
            let updated = match self.messages.get(n - 1) {
                Some(m) => m.duplicate(),
                None => Message::new(MessageRole::Assistant, ""),
            };
            ChatUpdate::Updated(updated)
        } else {
            let message = Message::streaming_delta(MessageRole::Assistant, text, Some(message_id));
            let copy = message.duplicate();
            self.messages.add_message(message);
            ChatUpdate::Added(copy)
        }
    }

    /// The answer is complete: the gateway is no longer busy; an assistant
    /// message with the text, usage, warning and the reasoning (the one given,
    /// or else what was streamed) is added; the reasoning and streaming
    /// marker are forgotten. Returns the message.
    pub fn message_complete(&mut self, text: &str, usage: Option<TokenUsage>, reasoning: Option<String>, warning: Option<String>) -> (r: Message)
        ensures
            !final(self).is_busy(),
            r.role == MessageRole::Assistant,
            r.content@ == text@,
            r.usage == usage,
            r.warning == warning,
            spec_opt(r.reasoning) == match reasoning {
                Some(x) => Some(x@),
                None => if old(self).reasoning().len() > 0 { Some(old(self).reasoning()) } else { None },
            },
            r.message_id is None && r.name is None && r.context is None,
            !r.streaming && r.complete,
            final(self).history().msgs() == spec_push_bounded(old(self).history().msgs(), old(self).history().capacity(), r),
            final(self).history().capacity() == old(self).history().capacity(),
            final(self).history().sid() == old(self).history().sid(),
            final(self).reasoning() == Seq::<char>::empty(),
            final(self).streaming_id() is None,
            final(self).card_list() == old(self).card_list(),
            final(self).agents() == old(self).agents(),
    {
        self.thinking = false;
        let mut message = Message::new(MessageRole::Assistant, text);
        message.usage = usage;
        message.reasoning = match reasoning {
            Some(x) => Some(x),
            None => if !self.streaming_reasoning.as_str().is_empty() {
                Some(self.streaming_reasoning.clone())
            } else {
                None
            },
        };
        message.warning = warning;
        let copy = message.duplicate();
        self.messages.add_message(message);
        self.message_start();
        copy
    }

    /// Reasoning arrived: it is appended to the streamed reasoning, and the
    /// message being streamed, where there is one, carries the reasoning so
    /// far. Returns that message as updated.
    pub fn append_reasoning(&mut self, text: &str) -> (r: Option<Message>)
        ensures
            text@.len() == 0 ==> r is None && *final(self) == *old(self),
            text@.len() > 0 ==> final(self).reasoning() == old(self).reasoning() + text@,
            final(self).streaming_id() == old(self).streaming_id(),
            final(self).history().capacity() == old(self).history().capacity(),
            final(self).history().sid() == old(self).history().sid(),
            final(self).card_list() == old(self).card_list(),
            final(self).agents() == old(self).agents(),
            final(self).is_busy() == old(self).is_busy(),
            text@.len() > 0 ==> ({
                let h = old(self).history().msgs();
                match old(self).streaming_id() {
                    Some(id) => if id.len() > 0 && spec_contains_id(h, id) {
                        let i = spec_first_with_id(h, id);
                        let updated = Message { reasoning: final(self).history().msgs()[i].reasoning, ..h[i] };
                        &&& spec_opt(updated.reasoning) == Some(old(self).reasoning() + text@)
                        &&& final(self).history().msgs() == h.update(i, updated)
                        &&& r == Some(updated)
                    } else {
                        r is None && final(self).history().msgs() == h
                    },
                    None => r is None && final(self).history().msgs() == h,
                }
            }),
    {
        if text.is_empty() {
            return None;
        }
        self.streaming_reasoning.append(text);
        let id = match &self.streaming_message_id {
            Some(x) => x.clone(),
            None => String::new(),
        };
        if id.as_str().is_empty() {
            return None;
        }
        let snapshot = self.streaming_reasoning.clone();
        let ghost h = self.messages.msgs();
        match self.messages.position_of_id(id.as_str()) {
            Some(i) => {
                proof {
                    crate::state::messages::lemma_first_with_id_unique_pub(h, id@, i as int);
                }
                match self.messages.get_mut(i) {
                    Some(m) => {
                        m.reasoning = Some(snapshot);
                        Some(m.duplicate())
                    },
                    None => None,
                }
            },
            None => None,
        }
    }

    /// A subagent started: it joins the list as running (named
    /// `agent-<task>` when the gateway gave no identifier) and a system
    /// message identified by `subagent:<id>` is added. Returns the message.
    pub fn subagent_start(&mut self, subagent_id: Option<&str>, task_index: usize, goal: &str, parent_id: Option<String>) -> (r: Message)
        ensures
            ({
                let id = match subagent_id {
                    Some(s) => s@,
                    None => "agent-"@ + spec_decimal(task_index as nat),
                };
                &&& r.role == MessageRole::System
                &&& r.content@ == "Subagent '"@ + id + "' started: "@ + goal@
                &&& r.message_id matches Some(m) && m@ == "subagent:"@ + id
                &&& final(self).history().msgs() == spec_push_bounded(old(self).history().msgs(), old(self).history().capacity(), r)
                &&& exists|x: SubagentInfo| #[trigger] spec_agents_upserted(old(self).agents(), final(self).agents(), x)
                    && x.id@ == id && x.goal@ == goal@ && x.status == SubagentStatus::Running
                    && x.summary is None && x.parent_id == parent_id
            }),
            final(self).history().capacity() == old(self).history().capacity(),
            final(self).card_list() == old(self).card_list(),
            final(self).is_busy() == old(self).is_busy(),
            final(self).reasoning() == old(self).reasoning(),
            final(self).streaming_id() == old(self).streaming_id(),
    {
        let agent_id = match subagent_id {
            Some(s) => owned(s),
            None => {
                let d = decimal(task_index as u64);
                concat("agent-", d.as_str())
            },
        };
        let info = SubagentInfo::new(agent_id.as_str(), goal, parent_id);
        let ghost g = info;
        self.subagents.upsert(info);
        assert(spec_agents_upserted(old(self).agents(), self.agents(), g));
        let a = concat("Subagent '", agent_id.as_str());
        let b = concat(a.as_str(), "' started: ");
        let text = concat(b.as_str(), goal);
        let mut msg = Message::system(text.as_str());
        msg.message_id = Some(concat("subagent:", agent_id.as_str()));
        let copy = msg.duplicate();
        self.messages.add_message(msg);
        assert(spec_agents_upserted(old(self).agents(), self.agents(), g));
        assert(g.id@ == agent_id@ && g.goal@ == goal@);
        copy
    }

    /// A subagent runs a tool: where both are named, the subagent's entry
    /// shows the tool as its goal.
    pub fn subagent_tool(&mut self, subagent_id: Option<&str>, tool_name: Option<&str>, parent_id: Option<String>)
        ensures
            final(self).history() == old(self).history(),
            final(self).card_list() == old(self).card_list(),
            final(self).is_busy() == old(self).is_busy(),
            final(self).reasoning() == old(self).reasoning(),
            final(self).streaming_id() == old(self).streaming_id(),
            (subagent_id is None || tool_name is None) ==> final(self).agents() == old(self).agents(),
            (subagent_id matches Some(id) && tool_name matches Some(tool)) ==> exists|x: SubagentInfo|
                #[trigger] spec_agents_upserted(old(self).agents(), final(self).agents(), x)
                && x.id@ == subagent_id.unwrap()@ && x.goal@ == "Running tool '"@ + tool_name.unwrap()@ + "'..."@
                && x.status == SubagentStatus::Running && x.summary is None && x.parent_id == parent_id,
    {
        if let Some(agent_id) = subagent_id {
            if let Some(tool) = tool_name {
                let a = concat("Running tool '", tool);
                let goal = concat(a.as_str(), "'...");
                let info = SubagentInfo::new(agent_id, goal.as_str(), parent_id);
                let ghost g = info;
                self.subagents.upsert(info);
                assert(spec_agents_upserted(old(self).agents(), self.agents(), g));
            }
        }
    }

    /// A subagent finished: its entry shows it completed with the summary, or
    /// failed when the status says "failed" or "error"; its message
    /// `subagent:<id>` is updated. Returns the message as updated, if any.
    pub fn subagent_complete(
        &mut self,
        subagent_id: Option<&str>,
        goal: &str,
        parent_id: Option<String>,
        status: Option<&str>,
        summary: Option<&str>,
    ) -> (r: Option<Message>)
        ensures
            final(self).card_list() == old(self).card_list(),
            final(self).is_busy() == old(self).is_busy(),
            final(self).reasoning() == old(self).reasoning(),
            final(self).streaming_id() == old(self).streaming_id(),
            final(self).history().capacity() == old(self).history().capacity(),
            subagent_id is None ==> r is None && final(self).history() == old(self).history()
                && final(self).agents() == old(self).agents(),
            subagent_id matches Some(id) ==> ({
                let failed = status matches Some(st) && (st@ == "failed"@ || st@ == "error"@);
                let sum = match summary { Some(x) => x@, None => Seq::<char>::empty() };
                let text = "Subagent '"@ + id@ + "' "@ + (if failed { "Failed"@ } else { "Completed"@ }) + ": "@ + sum;
                let key = "subagent:"@ + id@;
                let h = old(self).history().msgs();
                &&& exists|x: SubagentInfo| #[trigger] spec_agents_upserted(old(self).agents(), final(self).agents(), x)
                    && x.id@ == id@ && x.goal@ == goal@ && x.parent_id == parent_id
                    && (failed ==> x.status == SubagentStatus::Failed && x.summary is None)
                    && (!failed ==> x.status == SubagentStatus::Completed && (x.summary matches Some(t) && t@ == sum))
                &&& (if spec_contains_id(h, key) {
                    let i = spec_first_with_id(h, key);
                    let updated = Message { content: final(self).history().msgs()[i].content, ..h[i] };
                    &&& final(self).history().msgs()[i].content@ == text
                    &&& final(self).history().msgs() == h.update(i, updated)
                    &&& r == Some(updated)
                } else {
                    r is None && final(self).history().msgs() == h
                })
            }),
    {
        match subagent_id {
            None => None,
            Some(agent_id) => {
                let sum = match summary {
                    Some(x) => owned(x),
                    None => String::new(),
                };
                let failed = match status {
                    Some(st) => str_eq(st, "failed") || str_eq(st, "error"),
                    None => false,
                };
                let mut info = SubagentInfo::new(agent_id, goal, parent_id);
                if failed {
                    info.mark_failed();
                } else {
                    info.mark_completed(sum.as_str());
                }
                let ghost g = info;
                self.subagents.upsert(info);
                assert(spec_agents_upserted(old(self).agents(), self.agents(), g));
                let word = if failed { "Failed" } else { "Completed" };
                let a = concat("Subagent '", agent_id);
                let b = concat(a.as_str(), "' ");
                let c = concat(b.as_str(), word);
                let d = concat(c.as_str(), ": ");
                let content = concat(d.as_str(), sum.as_str());
                let key = concat("subagent:", agent_id);
                proof {
                    reveal_strlit("");
                    assert(sum@ =~= match summary { Some(x) => x@, None => Seq::<char>::empty() });
                }
                let ghost h = self.messages.msgs();
                let r = self.messages.update_message_by_id(key.as_str(), content);
                proof {
                    if spec_contains_id(h, key@) {
                        let w = choose|k: int| 0 <= k < h.len() && spec_has_message_id(#[trigger] h[k], key@);
                        lemma_first_exists(h, key@, w);
                    }
                }
                assert(spec_agents_upserted(old(self).agents(), self.agents(), g));
                assert(g.id@ == agent_id@ && g.goal@ == goal@);
                r
            },
        }
    }
}

fn copy_opt(o: &Option<String>) -> (r: Option<String>)
    ensures
        r == *o,
{
    match o {
        Some(s) => Some(s.clone()),
        None => None,
    }
}

fn copy_opt_ref(o: Option<&String>) -> (r: Option<String>)
    ensures
        spec_opt(r) == match o { Some(s) => Some(s@), None => None },
{
    match o {
        Some(s) => Some(s.clone()),
        None => None,
    }
}


/// Law: a tool call that failed shows its error after "Error: " and not its
/// result: the notice names the error wherever it stands, is the same
/// whatever the result was, and differs for different errors. Without an
/// error the notice shows the result.
pub proof fn lemma_tool_done_shows_error(r1: Seq<char>, r2: Seq<char>, d: Option<u64>, e: Seq<char>, e2: Seq<char>)
    ensures
        spec_tool_done_text(r1, d, Some(e)).subrange(16, 16 + 7 + e.len() as int) == "Error: "@ + e,
        spec_tool_done_text(r1, d, Some(e)) == spec_tool_done_text(r2, d, Some(e)),
        e != e2 ==> spec_tool_done_text(r1, d, Some(e)) != spec_tool_done_text(r1, d, Some(e2)),
        spec_tool_done_text(r1, d, None).subrange(16, 16 + r1.len() as int) == r1,
        d matches Some(ms) ==> spec_tool_done_text(r1, d, None) == "Tool completed: "@ + r1 + " ("@ + spec_decimal(ms as nat) + "ms)"@,
        d is None ==> spec_tool_done_text(r1, d, None) == "Tool completed: "@ + r1,
{
    reveal_strlit("Tool completed: ");
    reveal_strlit("Error: ");
    let suffix = match d {
        Some(ms) => " ("@ + spec_decimal(ms as nat) + "ms)"@,
        None => Seq::<char>::empty(),
    };
    let head = "Tool completed: "@;
    assert(head.len() == 16);
    let t1 = spec_tool_done_text(r1, d, Some(e));
    assert(t1 =~= head + ("Error: "@ + e) + suffix);
    assert(t1.subrange(16, 16 + 7 + e.len() as int) =~= "Error: "@ + e);
    let t0 = spec_tool_done_text(r1, d, None);
    assert(t0 =~= head + r1 + suffix);
    assert(t0.subrange(16, 16 + r1.len() as int) =~= r1);
    if e != e2 {
        let t2 = spec_tool_done_text(r1, d, Some(e2));
        assert(t2 =~= head + ("Error: "@ + e2) + suffix);
        assert(t2.subrange(16, 16 + 7 + e2.len() as int) =~= "Error: "@ + e2);
        if t1 == t2 {
            assert(e.len() == e2.len());
            let a = t1.subrange(16, 16 + 7 + e.len() as int);
            let b = t2.subrange(16, 16 + 7 + e2.len() as int);
            assert(a == b);
            assert forall|k: int| 0 <= k < e.len() implies e[k] == e2[k] by {
                assert(("Error: "@ + e)[7 + k] == e[k]);
                assert(("Error: "@ + e2)[7 + k] == e2[k]);
            }
            assert(e =~= e2);
        }
    }
}

} // verus!
