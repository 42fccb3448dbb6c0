//! The conversation's messages and a bounded history of them.

use vstd::prelude::*;

use crate::chars::{contains_str, spec_contains_seq};
use crate::clock::now_micros;
use crate::protocol::types::{MessageRole, TokenUsage};
use crate::text::{chars_of, owned, spec_to_lowercase, str_eq, to_lowercase};

verus! {

/// Maximum number of messages a history keeps by default.
pub const MAX_MESSAGE_HISTORY: usize = 1000;

/// A message of the conversation.
#[derive(Debug, Clone, PartialEq, Eq)]
pub struct Message {
    /// Who wrote it.
    pub role: MessageRole,
    /// Its text.
    pub content: String,
    /// When it was made, in microseconds since the Unix epoch (UTC).
    pub timestamp: i64,
    /// Identifier assigned by the gateway.
    pub message_id: Option<String>,
    /// Context, such as the tool a tool message belongs to.
    pub context: Option<String>,
    /// Name, such as the tool's name.
    pub name: Option<String>,
    /// Whether it is part of a streaming response.
    pub streaming: bool,
    /// Whether it is complete.
    pub complete: bool,
    /// Token usage.
    pub usage: Option<TokenUsage>,
    /// Reasoning from the model.
    pub reasoning: Option<String>,
    /// Warning from the model.
    pub warning: Option<String>,
}

/// The view of an optional text.
pub open spec fn opt_view(o: Option<String>) -> Option<Seq<char>> {
    match o {
        Some(s) => Some(s@),
        None => None,
    }
}

fn copy_opt(o: &Option<String>) -> (r: Option<String>)
    ensures
        r == *o,
{
    match o {
        Some(s) => Some(s.clone()),
        None => None,
    }
}

/// A fresh message made at `timestamp`: complete, not streaming, with no
/// identifier, context, name, usage, reasoning or warning.
pub open spec fn spec_plain_message(m: Message, role: MessageRole, content: Seq<char>) -> bool {
    &&& m.role == role
    &&& m.content@ == content
    &&& m.message_id is None
    &&& m.context is None
    &&& m.name is None
    &&& !m.streaming
    &&& m.complete
    &&& m.usage is None
    &&& m.reasoning is None
    &&& m.warning is None
}

/// Whether a lowercase tool name names a tool that edits files.
pub open spec fn spec_is_edit_tool_name(lower: Seq<char>) -> bool {
    spec_contains_seq(lower, "edit"@) || spec_contains_seq(lower, "write"@) || spec_contains_seq(lower, "patch"@)
}

/// Whether a message is a tool message of a tool that edits files.
pub open spec fn spec_is_edit_tool_message(m: Message) -> bool {
    &&& m.role == MessageRole::Tool
    &&& m.name matches Some(n) && spec_is_edit_tool_name(spec_to_lowercase(n@))
}

impl Message {
    /// A complete message made at the given time.
    pub fn new_at(role: MessageRole, content: &str, timestamp: i64) -> (r: Self)
        ensures
            spec_plain_message(r, role, content@),
            r.timestamp == timestamp,
    {
        Message {
            role,
            content: owned(content),
            timestamp,
            message_id: None,
            context: None,
            name: None,
            streaming: false,
            complete: true,
            usage: None,
            reasoning: None,
            warning: None,
        }
    }

    /// A complete message made now.
    pub fn new(role: MessageRole, content: &str) -> (r: Self)
        ensures
            spec_plain_message(r, role, content@),
    {
        Message::new_at(role, content, now_micros())
    }

    /// A user message.
    pub fn user(content: &str) -> (r: Self)
        ensures
            spec_plain_message(r, MessageRole::User, content@),
    {
        Message::new(MessageRole::User, content)
    }

    /// An assistant message.
    pub fn assistant(content: &str) -> (r: Self)
        ensures
            spec_plain_message(r, MessageRole::Assistant, content@),
    {
        Message::new(MessageRole::Assistant, content)
    }

    /// A system message.
    pub fn system(content: &str) -> (r: Self)
        ensures
            spec_plain_message(r, MessageRole::System, content@),
    {
        Message::new(MessageRole::System, content)
    }

    /// An error message, shown with the system role.
    pub fn error(content: &str) -> (r: Self)
        ensures
            spec_plain_message(r, MessageRole::System, content@),
    {
        Message::new(MessageRole::System, content)
    }

    /// A tool message carrying the tool's name.
    pub fn tool(content: &str, name: &str) -> (r: Self)
        ensures
            r.role == MessageRole::Tool,
            r.content@ == content@,
            r.name matches Some(n) && n@ == name@,
            r.message_id is None && r.context is None && r.usage is None,
            r.reasoning is None && r.warning is None,
            !r.streaming && r.complete,
    {
        let mut m = Message::new(MessageRole::Tool, content);
        m.name = Some(owned(name));
        m
    }

    /// A message still being streamed.
    pub fn streaming_delta(role: MessageRole, content: &str, message_id: Option<String>) -> (r: Self)
        ensures
            r.role == role,
            r.content@ == content@,
            r.message_id == message_id,
            r.context is None && r.name is None && r.usage is None,
            r.reasoning is None && r.warning is None,
            r.streaming && !r.complete,
    {
        let mut m = Message::new(role, content);
        m.message_id = message_id;
        m.streaming = true;
        m.complete = false;
        m
    }

    /// A copy of this message.
    pub fn duplicate(&self) -> (r: Self)
        ensures
            r == *self,
    {
        Message {
            role: self.role,
            content: self.content.clone(),
            timestamp: self.timestamp,
            message_id: copy_opt(&self.message_id),
            context: copy_opt(&self.context),
            name: copy_opt(&self.name),
            streaming: self.streaming,
            complete: self.complete,
            usage: self.usage,
            reasoning: copy_opt(&self.reasoning),
            warning: copy_opt(&self.warning),
        }
    }

    /// Mark this message complete: no longer streaming.
    pub fn mark_complete(&mut self)
        ensures
            *final(self) == (Message { complete: true, streaming: false, ..*old(self) }),
    {
        self.complete = true;
        self.streaming = false;
    }

    pub fn is_user(&self) -> (r: bool)
        ensures
            r == (self.role == MessageRole::User),
    {
        self.role == MessageRole::User
    }

    pub fn is_assistant(&self) -> (r: bool)
        ensures
            r == (self.role == MessageRole::Assistant),
    {
        self.role == MessageRole::Assistant
    }

    pub fn is_system(&self) -> (r: bool)
        ensures
            r == (self.role == MessageRole::System),
    {
        self.role == MessageRole::System
    }

    pub fn is_tool(&self) -> (r: bool)
        ensures
            r == (self.role == MessageRole::Tool),
    {
        self.role == MessageRole::Tool
    }

    /// Whether this is a tool message of a tool that edits files: its name,
    /// lowered, holds "edit", "write" or "patch".
    pub fn is_edit_tool_message(&self) -> (r: bool)
        ensures
            r == spec_is_edit_tool_message(*self),
    {
        if !self.is_tool() {
            return false;
        }
        match &self.name {
            Some(n) => {
                let lower = to_lowercase(n.as_str());
                let cs = chars_of(lower.as_str());
                contains_str(cs.as_slice(), "edit") || contains_str(cs.as_slice(), "write")
                    || contains_str(cs.as_slice(), "patch")
            },
            None => false,
        }
    }

    pub fn is_streaming(&self) -> (r: bool)
        ensures
            r == self.streaming,
    {
        self.streaming
    }

    /// The message's text.
    pub fn content(&self) -> (r: &str)
        ensures
            r@ == self.content@,
    {
        self.content.as_str()
    }

    /// Set the message identifier.
    pub fn set_message_id(&mut self, id: &str)
        ensures
            final(self).message_id matches Some(m) && m@ == id@,
            *final(self) == (Message { message_id: final(self).message_id, ..*old(self) }),
    {
        self.message_id = Some(owned(id));
    }

    /// Append streamed text to the message.
    pub fn append_content(&mut self, delta: &str)
        ensures
            final(self).content@ == old(self).content@ + delta@,
            *final(self) == (Message { content: final(self).content, ..*old(self) }),
    {
        self.content.append(delta);
    }
}

/// Whether a message carries the identifier `id`.
pub open spec fn spec_has_message_id(m: Message, id: Seq<char>) -> bool {
    m.message_id matches Some(x) && x@ == id
}

/// `i` is the first position of a message with identifier `id`.
pub open spec fn spec_is_first_with_id(s: Seq<Message>, id: Seq<char>, i: int) -> bool {
    &&& 0 <= i < s.len()
    &&& spec_has_message_id(s[i], id)
    &&& forall|j: int| 0 <= j < i ==> !spec_has_message_id(#[trigger] s[j], id)
}

/// Whether some message carries the identifier `id`.
pub open spec fn spec_contains_id(s: Seq<Message>, id: Seq<char>) -> bool {
    exists|i: int| 0 <= i < s.len() && spec_has_message_id(#[trigger] s[i], id)
}

/// The first position of a message with identifier `id`, where there is one.
pub open spec fn spec_first_with_id(s: Seq<Message>, id: Seq<char>) -> int {
    choose|i: int| spec_is_first_with_id(s, id, i)
}

/// The messages after `m` is added to `s` with room for `max`: the oldest
/// message leaves first when the history is full.
pub open spec fn spec_push_bounded(s: Seq<Message>, max: usize, m: Message) -> Seq<Message> {
    if s.len() >= max && s.len() > 0 {
        s.subrange(1, s.len() as int).push(m)
    } else {
        s.push(m)
    }
}

/// The most messages a history with room for `max` holds.
pub open spec fn spec_history_bound(max: usize) -> nat {
    if max == 0 { 1 } else { max as nat }
}

/// The messages after an insert-or-update of `m`: where `m` has an
/// identifier already present, the first message with it is replaced;
/// otherwise `m` is added.
pub open spec fn spec_upsert(s: Seq<Message>, max: usize, m: Message) -> Seq<Message> {
    match m.message_id {
        Some(id) if spec_contains_id(s, id@) => s.update(spec_first_with_id(s, id@), m),
        _ => spec_push_bounded(s, max, m),
    }
}

/// The conversation's messages, oldest first, with a bound on how many are
/// kept.
#[derive(Debug, Clone)]
pub struct MessageHistory {
    messages: Vec<Message>,
    max_messages: usize,
    session_id: Option<String>,
}

impl MessageHistory {
    /// The messages, oldest first.
    pub closed spec fn msgs(&self) -> Seq<Message> {
        self.messages@
    }

    /// How many messages are kept.
    pub closed spec fn capacity(&self) -> usize {
        self.max_messages
    }

    /// The session the messages belong to.
    pub closed spec fn sid(&self) -> Option<String> {
        self.session_id
    }

    /// An empty history keeping the default number of messages.
    pub fn new() -> (r: Self)
        ensures
            r.msgs() == Seq::<Message>::empty(),
            r.capacity() == MAX_MESSAGE_HISTORY,
            r.sid() is None,
    {
        MessageHistory::with_capacity(MAX_MESSAGE_HISTORY)
    }

    /// An empty history keeping at most `max_messages` messages.
    pub fn with_capacity(max_messages: usize) -> (r: Self)
        ensures
            r.msgs() == Seq::<Message>::empty(),
            r.capacity() == max_messages,
            r.sid() is None,
    {
        MessageHistory { messages: Vec::new(), max_messages, session_id: None }
    }

    /// Set the session the messages belong to.
    pub fn set_session_id(&mut self, session_id: &str)
        ensures
            final(self).sid() matches Some(s) && s@ == session_id@,
            final(self).msgs() == old(self).msgs(),
            final(self).capacity() == old(self).capacity(),
    {
        self.session_id = Some(owned(session_id));
    }

    /// The session the messages belong to.
    pub fn session_id(&self) -> (r: Option<&String>)
        ensures
            match self.sid() {
                Some(s) => r matches Some(x) && *x == s,
                None => r is None,
            },
    {
        self.session_id.as_ref()
    }

    /// Add a message; when the history is full the oldest message leaves.
    pub fn push(&mut self, message: Message)
        ensures
            final(self).msgs() == spec_push_bounded(old(self).msgs(), old(self).capacity(), message),
            final(self).capacity() == old(self).capacity(),
            final(self).sid() == old(self).sid(),
    {
        if self.messages.len() >= self.max_messages && self.messages.len() > 0 {
            self.messages.remove(0);
        }
        self.messages.push(message);
        proof {
            assert(self.messages@ =~= spec_push_bounded(old(self).msgs(), old(self).capacity(), message));
        }
    }

    /// Add a message (same as `push`).
    pub fn add_message(&mut self, message: Message)
        ensures
            final(self).msgs() == spec_push_bounded(old(self).msgs(), old(self).capacity(), message),
            final(self).capacity() == old(self).capacity(),
            final(self).sid() == old(self).sid(),
    {
        self.push(message);
    }

    /// Copies of all messages, oldest first.
    pub fn all_messages(&self) -> (r: Vec<Message>)
        ensures
            r@ == self.msgs(),
    {
        let mut out: Vec<Message> = Vec::new();
        let mut i: usize = 0;
        while i < self.messages.len()
            invariant
                i <= self.messages@.len(),
                out@ == self.messages@.take(i as int),
            decreases self.messages@.len() - i,
        {
            out.push(self.messages[i].duplicate());
            proof {
                assert(out@ =~= self.messages@.take(i + 1));
            }
            i = i + 1;
        }
        proof {
            assert(self.messages@.take(i as int) =~= self.messages@);
        }
        out
    }

    /// Append streamed text to the newest message; false when there is none.
    pub fn append_to_last(&mut self, delta: &str) -> (r: bool)
        ensures
            r == (old(self).msgs().len() > 0),
            r ==> final(self).msgs().len() == old(self).msgs().len(),
            r ==> final(self).msgs().last().content@ == old(self).msgs().last().content@ + delta@,
            r ==> final(self).msgs() == old(self).msgs().update(old(self).msgs().len() - 1,
                Message { content: final(self).msgs().last().content, ..old(self).msgs().last() }),
            !r ==> final(self).msgs() == old(self).msgs(),
            final(self).capacity() == old(self).capacity(),
            final(self).sid() == old(self).sid(),
    {
        let n = self.messages.len();
        if n == 0 {
            return false;
        }
        let mut last = self.messages.remove(n - 1);
        last.append_content(delta);
        self.messages.push(last);
        proof {
            assert(self.messages@ =~= old(self).msgs().update(n - 1, last));
        }
        true
    }

    /// Mark the newest message complete; false when there is none.
    pub fn mark_last_complete(&mut self) -> (r: bool)
        ensures
            r == (old(self).msgs().len() > 0),
            r ==> final(self).msgs() == old(self).msgs().update(old(self).msgs().len() - 1,
                Message { complete: true, streaming: false, ..old(self).msgs().last() }),
            !r ==> final(self).msgs() == old(self).msgs(),
            final(self).capacity() == old(self).capacity(),
            final(self).sid() == old(self).sid(),
    {
        let n = self.messages.len();
        if n == 0 {
            return false;
        }
        let mut last = self.messages.remove(n - 1);
        last.mark_complete();
        self.messages.push(last);
        proof {
            assert(self.messages@ =~= old(self).msgs().update(n - 1, last));
        }
        true
    }

    /// The message at `index`, oldest first.
    pub fn get(&self, index: usize) -> (r: Option<&Message>)
        ensures
            index < self.msgs().len() ==> (r matches Some(m) && *m == self.msgs()[index as int]),
            index >= self.msgs().len() ==> r is None,
    {
        if index < self.messages.len() {
            Some(&self.messages[index])
        } else {
            None
        }
    }

    /// The newest message.
    pub fn last(&self) -> (r: Option<&Message>)
        ensures
            self.msgs().len() > 0 ==> (r matches Some(m) && *m == self.msgs().last()),
            self.msgs().len() == 0 ==> r is None,
    {
        let n = self.messages.len();
        if n > 0 {
            Some(&self.messages[n - 1])
        } else {
            None
        }
    }

    /// The message at `index`, for changing in place.
    pub fn get_mut(&mut self, index: usize) -> (r: Option<&mut Message>)
        ensures
            index >= old(self).msgs().len() ==> r is None && final(self).msgs() == old(self).msgs(),
            index < old(self).msgs().len() ==> (r matches Some(m) && *m == old(self).msgs()[index as int]
                && final(self).msgs() == old(self).msgs().update(index as int, *final(m))),
            final(self).capacity() == old(self).capacity(),
            final(self).sid() == old(self).sid(),
    {
        if index < self.messages.len() {
            Some(&mut self.messages[index])
        } else {
            None
        }
    }

    /// The newest message, for changing in place.
    pub fn last_mut(&mut self) -> (r: Option<&mut Message>)
        ensures
            old(self).msgs().len() == 0 ==> r is None && final(self).msgs() == old(self).msgs(),
            old(self).msgs().len() > 0 ==> (r matches Some(m) && *m == old(self).msgs().last()
                && final(self).msgs() == old(self).msgs().update(old(self).msgs().len() - 1, *final(m))),
            final(self).capacity() == old(self).capacity(),
            final(self).sid() == old(self).sid(),
    {
        let n = self.messages.len();
        if n == 0 {
            None
        } else {
            Some(&mut self.messages[n - 1])
        }
    }

    /// Whether the newest message is still streaming.
    pub fn has_streaming_message(&self) -> (r: bool)
        ensures
            r == (self.msgs().len() > 0 && self.msgs().last().streaming),
    {
        match self.last() {
            Some(m) => m.is_streaming(),
            None => false,
        }
    }

    /// The messages, oldest first.
    pub fn messages(&self) -> (r: &Vec<Message>)
        ensures
            r@ == self.msgs(),
    {
        &self.messages
    }

    /// References to the messages, oldest first.
    pub fn to_vec(&self) -> (r: Vec<&Message>)
        ensures
            r@.len() == self.msgs().len(),
            forall|i: int| 0 <= i < r@.len() ==> *r@[i] == self.msgs()[i],
    {
        self.range(0, self.messages.len())
    }

    /// Number of messages.
    pub fn len(&self) -> (r: usize)
        ensures
            r == self.msgs().len(),
    {
        self.messages.len()
    }

    /// Whether there is no message.
    pub fn is_empty(&self) -> (r: bool)
        ensures
            r == (self.msgs().len() == 0),
    {
        self.messages.len() == 0
    }

    /// Remove every message.
    pub fn clear(&mut self)
        ensures
            final(self).msgs() == Seq::<Message>::empty(),
            final(self).capacity() == old(self).capacity(),
            final(self).sid() == old(self).sid(),
    {
        self.messages.clear();
    }

    /// Drop the message at `index` and every later one; nothing changes
    /// where `index` is past the end.
    pub fn truncate_from(&mut self, index: usize)
        ensures
            final(self).msgs() == if index < old(self).msgs().len() {
                old(self).msgs().take(index as int)
            } else {
                old(self).msgs()
            },
            final(self).capacity() == old(self).capacity(),
            final(self).sid() == old(self).sid(),
    {
        self.messages.truncate(index);
    }

    /// Remove and return the newest message.
    pub fn pop_last(&mut self) -> (r: Option<Message>)
        ensures
            old(self).msgs().len() > 0 ==> r == Some(old(self).msgs().last())
                && final(self).msgs() == old(self).msgs().drop_last(),
            old(self).msgs().len() == 0 ==> r is None && final(self).msgs() == old(self).msgs(),
            final(self).capacity() == old(self).capacity(),
            final(self).sid() == old(self).sid(),
    {
        self.messages.pop()
    }

    /// References to the messages from `start` up to `end` (or the end of
    /// the history, whichever comes first).
    pub fn range(&self, start: usize, end: usize) -> (r: Vec<&Message>)
        requires
            start <= end,
            start <= self.msgs().len(),
        ensures
            r@.len() == (if end < self.msgs().len() { end as int } else { self.msgs().len() as int }) - start,
            forall|i: int| 0 <= i < r@.len() ==> *r@[i] == self.msgs()[start + i],
    {
        let stop = if end < self.messages.len() { end } else { self.messages.len() };
        let mut out: Vec<&Message> = Vec::new();
        let mut i: usize = start;
        while i < stop
            invariant
                start <= stop <= self.messages@.len(),
                start <= i <= stop,
                out@.len() == i - start,
                forall|k: int| 0 <= k < out@.len() ==> *out@[k] == self.msgs()[start + k],
            decreases stop - i,
        {
            out.push(&self.messages[i]);
            i = i + 1;
        }
        out
    }

    /// References to the newest `n` messages, oldest first.
    pub fn last_n(&self, n: usize) -> (r: Vec<&Message>)
        ensures
            r@.len() == (if n < self.msgs().len() { n as int } else { self.msgs().len() as int }),
            forall|i: int| 0 <= i < r@.len() ==> *r@[i] == self.msgs()[self.msgs().len() - r@.len() + i],
    {
        let len = self.messages.len();
        let start = len.saturating_sub(n);
        self.range(start, len)
    }

    /// The first position of a message with identifier `id`.
    pub fn position_of_id(&self, id: &str) -> (r: Option<usize>)
        ensures
            match r {
                Some(i) => spec_is_first_with_id(self.msgs(), id@, i as int),
                None => !spec_contains_id(self.msgs(), id@),
            },
    {
        let mut i: usize = 0;
        while i < self.messages.len()
            invariant
                i <= self.messages@.len(),
                forall|j: int| 0 <= j < i ==> !spec_has_message_id(#[trigger] self.msgs()[j], id@),
            decreases self.messages@.len() - i,
        {
            let found = match &self.messages[i].message_id {
                Some(x) => str_eq(x.as_str(), id),
                None => false,
            };
            if found {
                return Some(i);
            }
            i = i + 1;
        }
        None
    }

    /// The first message with identifier `id`.
    pub fn find_by_id(&self, message_id: &str) -> (r: Option<&Message>)
        ensures
            spec_contains_id(self.msgs(), message_id@) ==> (r matches Some(m)
                && *m == self.msgs()[spec_first_with_id(self.msgs(), message_id@)]),
            !spec_contains_id(self.msgs(), message_id@) ==> r is None,
    {
        match self.position_of_id(message_id) {
            Some(i) => {
                proof {
                    lemma_first_with_id_unique(self.msgs(), message_id@, i as int);
                }
                Some(&self.messages[i])
            },
            None => None,
        }
    }

    /// Replace the first message with the same identifier as `message`, or
    /// add `message` when it has none or no message carries it.
    pub fn upsert_by_id(&mut self, message: Message)
        ensures
            final(self).msgs() == spec_upsert(old(self).msgs(), old(self).capacity(), message),
            final(self).capacity() == old(self).capacity(),
            final(self).sid() == old(self).sid(),
    {
        let pos = match &message.message_id {
            Some(id) => self.position_of_id(id.as_str()),
            None => None,
        };
        match pos {
            Some(i) => {
                proof {
                    let id = message.message_id.unwrap();
                    lemma_first_with_id_unique(old(self).msgs(), id@, i as int);
                }
                self.messages.set(i, message);
            },
            None => {
                self.push(message);
            },
        }
    }

    /// Whether some message carries identifier `id`.
    pub fn contains_id(&self, message_id: &str) -> (r: bool)
        ensures
            r == spec_contains_id(self.msgs(), message_id@),
    {
        self.position_of_id(message_id).is_some()
    }

    /// Replace the text of the first message with identifier `id`, and
    /// return a copy of it as updated.
    pub fn update_message_by_id(&mut self, message_id: &str, content: String) -> (r: Option<Message>)
        ensures
            final(self).capacity() == old(self).capacity(),
            final(self).sid() == old(self).sid(),
            !spec_contains_id(old(self).msgs(), message_id@) ==> r is None && final(self).msgs() == old(self).msgs(),
            spec_contains_id(old(self).msgs(), message_id@) ==> {
                let i = spec_first_with_id(old(self).msgs(), message_id@);
                let updated = Message { content, ..old(self).msgs()[i] };
                r == Some(updated) && final(self).msgs() == old(self).msgs().update(i, updated)
            },
    {
        match self.position_of_id(message_id) {
            Some(i) => {
                proof {
                    lemma_first_with_id_unique(self.msgs(), message_id@, i as int);
                }
                let mut m = self.messages[i].duplicate();
                m.content = content;
                let copy = m.duplicate();
                self.messages.set(i, m);
                Some(copy)
            },
            None => None,
        }
    }
}

/// The first position of an identifier is unique.
pub(crate) proof fn lemma_first_with_id_unique_pub(s: Seq<Message>, id: Seq<char>, i: int)
    requires
        spec_is_first_with_id(s, id, i),
    ensures
        spec_contains_id(s, id),
        spec_first_with_id(s, id) == i,
{
    lemma_first_with_id_unique(s, id, i);
}

proof fn lemma_first_with_id_unique(s: Seq<Message>, id: Seq<char>, i: int)
    requires
        spec_is_first_with_id(s, id, i),
    ensures
        spec_contains_id(s, id),
        spec_first_with_id(s, id) == i,
{
    assert(spec_has_message_id(s[i], id));
    let j = spec_first_with_id(s, id);
    assert(spec_is_first_with_id(s, id, j));
    if j < i {
        assert(!spec_has_message_id(s[j], id));
    } else if j > i {
        assert(!spec_has_message_id(s[i], id));
    }
}

impl Default for MessageHistory {
    fn default() -> (r: Self)
        ensures
            r.msgs() == Seq::<Message>::empty(),
            r.capacity() == MAX_MESSAGE_HISTORY,
            r.sid() is None,
    {
        MessageHistory::new()
    }
}

/// Law: adding a message never takes a history beyond its bound, and a
/// history with room keeps every message it had.
pub proof fn lemma_push_bounded(s: Seq<Message>, max: usize, m: Message)
    requires
        s.len() <= spec_history_bound(max),
    ensures
        spec_push_bounded(s, max, m).len() <= spec_history_bound(max),
        spec_push_bounded(s, max, m).last() == m,
        s.len() < max ==> spec_push_bounded(s, max, m) == s.push(m),
{
}

/// Law: after an insert-or-update of a message with an identifier, the
/// first message with that identifier is that message.
pub proof fn lemma_upsert_then_find(s: Seq<Message>, max: usize, m: Message)
    requires
        m.message_id is Some,
        s.len() <= spec_history_bound(max),
    ensures
        spec_contains_id(spec_upsert(s, max, m), m.message_id.unwrap()@),
        spec_upsert(s, max, m)[spec_first_with_id(spec_upsert(s, max, m), m.message_id.unwrap()@)] == m,
{
    let id = m.message_id.unwrap()@;
    let t = spec_upsert(s, max, m);
    if spec_contains_id(s, id) {
        let i = spec_first_with_id(s, id);
        let w = choose|k: int| 0 <= k < s.len() && spec_has_message_id(#[trigger] s[k], id);
        lemma_first_exists(s, id, w);
        assert(spec_is_first_with_id(t, id, i));
        lemma_first_with_id_unique(t, id, i);
    } else {
        let last = t.len() - 1;
        assert(spec_has_message_id(t[last], id));
        lemma_first_exists(t, id, last);
        let f = spec_first_with_id(t, id);
        if f < last {
            assert(spec_has_message_id(t[f], id));
            if s.len() >= max && s.len() > 0 {
                assert(t[f] == s[f + 1]);
                assert(spec_has_message_id(s[f + 1], id));
            } else {
                assert(t[f] == s[f]);
            }
        }
    }
}

/// Where some message carries `id`, a first one does.
pub(crate) proof fn lemma_first_exists(s: Seq<Message>, id: Seq<char>, w: int)
    requires
        0 <= w < s.len(),
        spec_has_message_id(s[w], id),
    ensures
        spec_is_first_with_id(s, id, spec_first_with_id(s, id)),
    decreases w,
{
    if forall|j: int| 0 <= j < w ==> !spec_has_message_id(#[trigger] s[j], id) {
        assert(spec_is_first_with_id(s, id, w));
    } else {
        let v = choose|j: int| 0 <= j < w && spec_has_message_id(#[trigger] s[j], id);
        lemma_first_exists(s, id, v);
    }
}

} // verus!
