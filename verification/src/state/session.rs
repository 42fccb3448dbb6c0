//! Chat sessions and the manager that keeps them.

use vstd::prelude::*;

use crate::clock::now_micros;
use crate::protocol::types::SessionListItem;
use crate::state::messages::{spec_push_bounded, Message, MessageHistory, MAX_MESSAGE_HISTORY};
use crate::text::{chars_of, concat, decimal, owned, spec_decimal, str_eq, string_of};

verus! {

/// Length, in characters, of a session's preview.
pub const PREVIEW_CHARS: usize = 50;

/// A chat session.
#[derive(Debug, Clone)]
pub struct Session {
    /// Unique session identifier.
    pub id: String,
    /// Title, if any.
    pub name: Option<String>,
    /// The session's messages.
    pub messages: MessageHistory,
    /// When it was created, in microseconds since the Unix epoch (UTC).
    pub created_at: i64,
    /// When it last changed, in microseconds since the Unix epoch (UTC).
    pub updated_at: i64,
    /// Whether it is the active session.
    pub is_active: bool,
    /// Whether the agent is running in it.
    pub is_running: bool,
    /// Model used in it.
    pub model: Option<String>,
    /// Provider used in it.
    pub provider: Option<String>,
    /// The first characters of its first message.
    pub preview: Option<String>,
}

/// The first `n` characters of `s` (all of it when shorter).
pub open spec fn spec_prefix(s: Seq<char>, n: nat) -> Seq<char> {
    if s.len() <= n { s } else { s.take(n as int) }
}

/// A session just made with identifier `id`: no title, no message, idle,
/// created and updated at the same moment.
pub open spec fn spec_fresh_session(s: Session, id: Seq<char>) -> bool {
    &&& s.id@ == id
    &&& s.name is None
    &&& s.messages.msgs() == Seq::<Message>::empty()
    &&& s.messages.capacity() == MAX_MESSAGE_HISTORY
    &&& s.messages.sid() is None
    &&& s.created_at == s.updated_at
    &&& !s.is_active
    &&& !s.is_running
    &&& s.model is None
    &&& s.provider is None
    &&& s.preview is None
}

/// The preview of a session after it is refreshed from its messages.
pub open spec fn spec_refreshed_preview(s: Session) -> Option<Seq<char>> {
    if s.messages.msgs().len() > 0 {
        Some(spec_prefix(s.messages.msgs()[0].content@, PREVIEW_CHARS as nat))
    } else {
        match s.preview {
            Some(p) => Some(p@),
            None => None,
        }
    }
}

/// The view of an optional text.
pub open spec fn spec_opt_chars(o: Option<String>) -> Option<Seq<char>> {
    match o {
        Some(s) => Some(s@),
        None => None,
    }
}

/// `b` is `a` with the active flag set to `active` and a new update time.
pub open spec fn spec_touched(a: Session, b: Session, active: bool) -> bool {
    b == (Session { is_active: active, updated_at: b.updated_at, ..a })
}

fn prefix_string(s: &str, n: usize) -> (r: String)
    ensures
        r@ == spec_prefix(s@, n as nat),
{
    let cs = chars_of(s);
    if cs.len() <= n {
        string_of(cs.as_slice())
    } else {
        let part = crate::chars::copy_range(cs.as_slice(), 0, n);
        proof {
            assert(part@ =~= s@.take(n as int));
        }
        string_of(part.as_slice())
    }
}

impl Session {
    /// A session with identifier `id`, made now.
    pub fn new(id: &str) -> (r: Self)
        ensures
            spec_fresh_session(r, id@),
    {
        let now = now_micros();
        Session {
            id: owned(id),
            name: None,
            messages: MessageHistory::new(),
            created_at: now,
            updated_at: now,
            is_active: false,
            is_running: false,
            model: None,
            provider: None,
            preview: None,
        }
    }

    /// A session with identifier `id` and title `name`, made now.
    pub fn with_name(id: &str, name: &str) -> (r: Self)
        ensures
            spec_fresh_session(Session { name: None, ..r }, id@),
            r.name matches Some(n) && n@ == name@,
    {
        let mut session = Session::new(id);
        session.name = Some(owned(name));
        session.update_preview();
        session
    }

    /// Add a message, note the time and refresh the preview.
    pub fn add_message(&mut self, message: Message)
        ensures
            final(self).messages.msgs() == spec_push_bounded(old(self).messages.msgs(), old(self).messages.capacity(), message),
            final(self).messages.capacity() == old(self).messages.capacity(),
            final(self).messages.sid() == old(self).messages.sid(),
            spec_opt_chars(final(self).preview) == spec_refreshed_preview(Session { messages: final(self).messages, ..*old(self) }),
            *final(self) == (Session { messages: final(self).messages, updated_at: final(self).updated_at, preview: final(self).preview, ..*old(self) }),
    {
        self.messages.push(message);
        self.updated_at = now_micros();
        self.update_preview();
    }

    /// Refresh the preview from the first message, where there is one.
    pub fn update_preview(&mut self)
        ensures
            spec_opt_chars(final(self).preview) == spec_refreshed_preview(*old(self)),
            *final(self) == (Session { preview: final(self).preview, ..*old(self) }),
    {
        if let Some(first) = self.messages.get(0) {
            let p = prefix_string(first.content(), PREVIEW_CHARS);
            self.preview = Some(p);
        }
    }

    /// Number of messages.
    pub fn message_count(&self) -> (r: usize)
        ensures
            r == self.messages.msgs().len(),
    {
        self.messages.len()
    }

    /// Remove every message and the preview.
    pub fn clear_messages(&mut self)
        ensures
            final(self).messages.msgs() == Seq::<Message>::empty(),
            final(self).messages.capacity() == old(self).messages.capacity(),
            final(self).messages.sid() == old(self).messages.sid(),
            *final(self) == (Session { messages: final(self).messages, preview: None, ..*old(self) }),
    {
        self.messages.clear();
        self.preview = None;
    }

    /// Mark this session active and note the time.
    pub fn activate(&mut self)
        ensures
            spec_touched(*old(self), *final(self), true),
    {
        self.is_active = true;
        self.updated_at = now_micros();
    }

    /// Mark this session inactive and note the time.
    pub fn deactivate(&mut self)
        ensures
            spec_touched(*old(self), *final(self), false),
    {
        self.is_active = false;
        self.updated_at = now_micros();
    }

    /// Set whether the agent is running, and note the time.
    pub fn set_running(&mut self, running: bool)
        ensures
            *final(self) == (Session { is_running: running, updated_at: final(self).updated_at, ..*old(self) }),
    {
        self.is_running = running;
        self.updated_at = now_micros();
    }

    /// Set the model.
    pub fn set_model(&mut self, model: &str)
        ensures
            final(self).model matches Some(m) && m@ == model@,
            *final(self) == (Session { model: final(self).model, ..*old(self) }),
    {
        self.model = Some(owned(model));
    }

    /// Set the provider.
    pub fn set_provider(&mut self, provider: &str)
        ensures
            final(self).provider matches Some(p) && p@ == provider@,
            *final(self) == (Session { provider: final(self).provider, ..*old(self) }),
    {
        self.provider = Some(owned(provider));
    }

    /// Set the title.
    pub fn set_name(&mut self, name: &str)
        ensures
            final(self).name matches Some(n) && n@ == name@,
            *final(self) == (Session { name: final(self).name, ..*old(self) }),
    {
        self.name = Some(owned(name));
    }

    /// The newest message.
    pub fn last_message(&self) -> (r: Option<&Message>)
        ensures
            self.messages.msgs().len() > 0 ==> (r matches Some(m) && *m == self.messages.msgs().last()),
            self.messages.msgs().len() == 0 ==> r is None,
    {
        self.messages.last()
    }

    /// The session's messages.
    pub fn messages(&self) -> (r: &MessageHistory)
        ensures
            *r == self.messages,
    {
        &self.messages
    }

    /// The session's messages, for changing in place.
    pub fn messages_mut(&mut self) -> (r: &mut MessageHistory)
        ensures
            *r == old(self).messages,
            *final(self) == (Session { messages: *final(r), ..*old(self) }),
    {
        &mut self.messages
    }
}

/// `i` is the first position of a session with identifier `id`.
pub open spec fn spec_is_first_session(s: Seq<Session>, id: Seq<char>, i: int) -> bool {
    &&& 0 <= i < s.len()
    &&& s[i].id@ == id
    &&& forall|j: int| 0 <= j < i ==> (#[trigger] s[j]).id@ != id
}

/// Whether some session has identifier `id`.
pub open spec fn spec_has_session(s: Seq<Session>, id: Seq<char>) -> bool {
    exists|i: int| 0 <= i < s.len() && (#[trigger] s[i]).id@ == id
}

/// The first position of a session with identifier `id`, where there is one.
pub open spec fn spec_session_pos(s: Seq<Session>, id: Seq<char>) -> int {
    choose|i: int| spec_is_first_session(s, id, i)
}

/// Where `x` goes when put into `s`: over the session with its identifier,
/// or after the last.
pub open spec fn spec_put_pos(s: Seq<Session>, id: Seq<char>) -> int {
    if spec_has_session(s, id) { spec_session_pos(s, id) } else { s.len() as int }
}

/// `s` with `x` put at the place of `id`.
pub open spec fn spec_put_at(s: Seq<Session>, id: Seq<char>, x: Session) -> Seq<Session> {
    if spec_has_session(s, id) { s.update(spec_session_pos(s, id), x) } else { s.push(x) }
}

/// The identifier a session manager gives its `n`th session.
pub open spec fn spec_session_id(n: u64) -> Seq<char> {
    "session-"@ + spec_decimal(n as nat)
}

/// Whether a session is the current one.
pub open spec fn spec_is_current(current: Option<String>, s: Session) -> bool {
    current matches Some(c) && c@ == s.id@
}

/// The list items of `items` that add a session, given the identifiers
/// present before: each item whose identifier is neither present nor
/// added by an earlier item.
pub open spec fn spec_added_items(ids: Seq<Seq<char>>, items: Seq<SessionListItem>) -> Seq<SessionListItem>
    decreases items.len(),
{
    if items.len() == 0 {
        Seq::empty()
    } else {
        let prev = spec_added_items(ids, items.drop_last());
        let it = items.last();
        if ids.contains(it.id@) || prev.map_values(|p: SessionListItem| p.id@).contains(it.id@) {
            prev
        } else {
            prev.push(it)
        }
    }
}

/// The identifiers of the sessions of `s`.
pub open spec fn spec_session_ids(s: Seq<Session>) -> Seq<Seq<char>> {
    s.map_values(|x: Session| x.id@)
}

proof fn lemma_first_session_unique(s: Seq<Session>, id: Seq<char>, i: int)
    requires
        spec_is_first_session(s, id, i),
    ensures
        spec_has_session(s, id),
        spec_session_pos(s, id) == i,
{
    assert(s[i].id@ == id);
    let j = spec_session_pos(s, id);
    assert(spec_is_first_session(s, id, j));
    if j < i {
        assert(s[j].id@ != id);
    } else if j > i {
        assert(s[i].id@ != id);
    }
}

/// Keeps the sessions, the current one and the counter for new identifiers.
#[derive(Debug)]
pub struct SessionManager {
    sessions: Vec<Session>,
    current_session_id: Option<String>,
    next_session_id: u64,
}

impl SessionManager {
    /// The sessions, in the order they were added.
    pub closed spec fn all(&self) -> Seq<Session> {
        self.sessions@
    }

    /// The identifier of the current session.
    pub closed spec fn current(&self) -> Option<String> {
        self.current_session_id
    }

    /// The number the next generated identifier carries.
    pub closed spec fn next_id(&self) -> u64 {
        self.next_session_id
    }

    /// A manager with no session.
    pub fn new() -> (r: Self)
        ensures
            r.all() == Seq::<Session>::empty(),
            r.current() is None,
            r.next_id() == 1,
    {
        SessionManager { sessions: Vec::new(), current_session_id: None, next_session_id: 1 }
    }

    /// The first position of the session with identifier `id`.
    fn position(&self, id: &str) -> (r: Option<usize>)
        ensures
            match r {
                Some(i) => spec_is_first_session(self.all(), id@, i as int)
                    && spec_session_pos(self.all(), id@) == i && spec_has_session(self.all(), id@),
                None => !spec_has_session(self.all(), id@),
            },
    {
        let mut i: usize = 0;
        while i < self.sessions.len()
            invariant
                i <= self.sessions@.len(),
                forall|j: int| 0 <= j < i ==> (#[trigger] self.all()[j]).id@ != id@,
            decreases self.sessions@.len() - i,
        {
            if str_eq(self.sessions[i].id.as_str(), id) {
                proof {
                    lemma_first_session_unique(self.all(), id@, i as int);
                }
                return Some(i);
            }
            i = i + 1;
        }
        None
    }

    /// A new identifier, "session-N" for the next number N.
    pub fn generate_session_id(&mut self) -> (r: String)
        requires
            old(self).next_id() < u64::MAX,
        ensures
            r@ == spec_session_id(old(self).next_id()),
            final(self).next_id() == old(self).next_id() + 1,
            final(self).all() == old(self).all(),
            final(self).current() == old(self).current(),
    {
        let n = decimal(self.next_session_id);
        let id = concat("session-", n.as_str());
        self.next_session_id = self.next_session_id + 1;
        id
    }

    /// Put `session` at the place of its identifier and make it current;
    /// return its position.
    fn put_current(&mut self, session: Session) -> (r: usize)
        ensures
            r == spec_put_pos(old(self).all(), session.id@),
            final(self).all() == spec_put_at(old(self).all(), session.id@, session),
            r < final(self).all().len(),
            final(self).all()[r as int] == session,
            forall|x: Session| #[trigger] spec_put_at(old(self).all(), session.id@, x) == final(self).all().update(r as int, x),
            final(self).current() matches Some(c) && c@ == session.id@,
            final(self).next_id() == old(self).next_id(),
    {
        let id = session.id.clone();
        self.current_session_id = Some(id.clone());
        let ghost old_all = self.all();
        match self.position(id.as_str()) {
            Some(i) => {
                self.sessions.set(i, session);
                proof {
                    assert forall|x: Session| #[trigger] spec_put_at(old_all, session.id@, x) == self.all().update(i as int, x) by {
                        assert(spec_put_at(old_all, session.id@, x) =~= self.all().update(i as int, x));
                    }
                }
                i
            },
            None => {
                self.sessions.push(session);
                proof {
                    assert forall|x: Session| #[trigger] spec_put_at(old_all, session.id@, x) == self.all().update(old_all.len() as int, x) by {
                        assert(spec_put_at(old_all, session.id@, x) =~= self.all().update(old_all.len() as int, x));
                    }
                }
                self.sessions.len() - 1
            },
        }
    }

    /// Make a session with a new identifier, make it current and return it.
    pub fn create_session(&mut self) -> (r: &mut Session)
        requires
            old(self).next_id() < u64::MAX,
        ensures
            spec_fresh_session(*r, spec_session_id(old(self).next_id())),
            ({
                let id = spec_session_id(old(self).next_id());
                &&& final(self).all() == spec_put_at(old(self).all(), id, *final(r))
                &&& final(self).current() matches Some(c) && c@ == id
                &&& final(self).next_id() == old(self).next_id() + 1
            }),
    {
        let id = self.generate_session_id();
        let session = Session::new(id.as_str());
        let i = self.put_current(session);
        &mut self.sessions[i]
    }

    /// Make a session with a new identifier and the title `name`, make it
    /// current and return it.
    pub fn create_session_with_name(&mut self, name: &str) -> (r: &mut Session)
        requires
            old(self).next_id() < u64::MAX,
        ensures
            spec_fresh_session(Session { name: None, ..*r }, spec_session_id(old(self).next_id())),
            r.name matches Some(n) && n@ == name@,
            ({
                let id = spec_session_id(old(self).next_id());
                &&& final(self).all() == spec_put_at(old(self).all(), id, *final(r))
                &&& final(self).current() matches Some(c) && c@ == id
                &&& final(self).next_id() == old(self).next_id() + 1
            }),
    {
        let id = self.generate_session_id();
        let session = Session::with_name(id.as_str(), name);
        let i = self.put_current(session);
        &mut self.sessions[i]
    }

    /// The current session.
    pub fn current_session(&self) -> (r: Option<&Session>)
        ensures
            match self.current() {
                Some(c) => if spec_has_session(self.all(), c@) {
                    r matches Some(x) && *x == self.all()[spec_session_pos(self.all(), c@)]
                } else {
                    r is None
                },
                None => r is None,
            },
    {
        match &self.current_session_id {
            Some(c) => match self.position(c.as_str()) {
                Some(i) => Some(&self.sessions[i]),
                None => None,
            },
            None => None,
        }
    }

    /// The current session, for changing in place.
    pub fn current_session_mut(&mut self) -> (r: Option<&mut Session>)
        ensures
            final(self).current() == old(self).current(),
            final(self).next_id() == old(self).next_id(),
            match old(self).current() {
                Some(c) => if spec_has_session(old(self).all(), c@) {
                    r matches Some(x) && *x == old(self).all()[spec_session_pos(old(self).all(), c@)]
                        && final(self).all() == old(self).all().update(spec_session_pos(old(self).all(), c@), *final(x))
                } else {
                    r is None && final(self).all() == old(self).all()
                },
                None => r is None && final(self).all() == old(self).all(),
            },
    {
        let pos = match &self.current_session_id {
            Some(c) => self.position(c.as_str()),
            None => None,
        };
        match pos {
            Some(i) => Some(&mut self.sessions[i]),
            None => None,
        }
    }

    /// Switch to the session `session_id`: the current session is marked
    /// inactive, the new one active and current. Nothing changes where there
    /// is no such session.
    pub fn switch_session(&mut self, session_id: &str) -> (r: Option<&mut Session>)
        ensures
            final(self).next_id() == old(self).next_id(),
            !spec_has_session(old(self).all(), session_id@) ==> r is None
                && final(self).all() == old(self).all() && final(self).current() == old(self).current(),
            spec_has_session(old(self).all(), session_id@) ==> (r matches Some(x) && ({
                let s = old(self).all();
                let p = spec_session_pos(s, session_id@);
                let q = match old(self).current() {
                    Some(c) => if spec_has_session(s, c@) { spec_session_pos(s, c@) } else { -1 },
                    None => -1,
                };
                &&& final(self).current() matches Some(c) && c@ == session_id@
                &&& final(self).all().len() == s.len()
                &&& final(self).all()[p] == *final(x)
                &&& spec_touched(s[p], *x, true)
                &&& (q >= 0 && q != p ==> spec_touched(s[q], final(self).all()[q], false))
                &&& forall|k: int| 0 <= k < s.len() && k != p && k != q ==> final(self).all()[k] == s[k]
            })),
    {
        match self.position(session_id) {
            None => None,
            Some(p) => {
                let q = match &self.current_session_id {
                    Some(c) => self.position(c.as_str()),
                    None => None,
                };
                let ghost s0 = self.all();
                if let Some(q) = q {
                    let mut cur = self.sessions.remove(q);
                    cur.deactivate();
                    self.sessions.insert(q, cur);
                    proof {
                        assert(self.all() =~= s0.update(q as int, cur));
                    }
                }
                let ghost s1 = self.all();
                self.current_session_id = Some(owned(session_id));
                let mut target = self.sessions.remove(p);
                target.activate();
                self.sessions.insert(p, target);
                proof {
                    assert(self.all() =~= s1.update(p as int, target));
                }
                Some(&mut self.sessions[p])
            },
        }
    }

    /// The session `session_id`.
    pub fn get_session(&self, session_id: &str) -> (r: Option<&Session>)
        ensures
            spec_has_session(self.all(), session_id@) ==> (r matches Some(x) && *x == self.all()[spec_session_pos(self.all(), session_id@)]),
            !spec_has_session(self.all(), session_id@) ==> r is None,
    {
        match self.position(session_id) {
            Some(i) => Some(&self.sessions[i]),
            None => None,
        }
    }

    /// The session `session_id`, for changing in place.
    pub fn get_session_mut(&mut self, session_id: &str) -> (r: Option<&mut Session>)
        ensures
            final(self).current() == old(self).current(),
            final(self).next_id() == old(self).next_id(),
            spec_has_session(old(self).all(), session_id@) ==> (r matches Some(x)
                && *x == old(self).all()[spec_session_pos(old(self).all(), session_id@)]
                && final(self).all() == old(self).all().update(spec_session_pos(old(self).all(), session_id@), *final(x))),
            !spec_has_session(old(self).all(), session_id@) ==> r is None && final(self).all() == old(self).all(),
    {
        match self.position(session_id) {
            Some(i) => Some(&mut self.sessions[i]),
            None => None,
        }
    }

    /// The sessions, in the order they were added.
    pub fn sessions(&self) -> (r: &Vec<Session>)
        ensures
            r@ == self.all(),
    {
        &self.sessions
    }

    /// The identifiers of the sessions, in the order they were added.
    pub fn session_ids(&self) -> (r: Vec<&String>)
        ensures
            r@.len() == self.all().len(),
            forall|i: int| 0 <= i < r@.len() ==> *r@[i] == self.all()[i].id,
    {
        let mut out: Vec<&String> = Vec::new();
        let mut i: usize = 0;
        while i < self.sessions.len()
            invariant
                i <= self.sessions@.len(),
                out@.len() == i,
                forall|k: int| 0 <= k < i ==> *out@[k] == self.all()[k].id,
            decreases self.sessions@.len() - i,
        {
            out.push(&self.sessions[i].id);
            i = i + 1;
        }
        out
    }

    /// Put a session in place of the one with its identifier, or add it;
    /// return the session it replaced.
    pub fn add_session(&mut self, session: Session) -> (r: Option<Session>)
        ensures
            final(self).all() == spec_put_at(old(self).all(), session.id@, session),
            spec_has_session(old(self).all(), session.id@) ==> r == Some(old(self).all()[spec_session_pos(old(self).all(), session.id@)]),
            !spec_has_session(old(self).all(), session.id@) ==> r is None,
            final(self).current() == old(self).current(),
            final(self).next_id() == old(self).next_id(),
    {
        match self.position(session.id.as_str()) {
            Some(i) => {
                let prev = self.sessions.remove(i);
                self.sessions.insert(i, session);
                proof {
                    assert(self.all() =~= old(self).all().update(i as int, session));
                }
                Some(prev)
            },
            None => {
                self.sessions.push(session);
                None
            },
        }
    }

    /// Remove the session `session_id` and return it; the current session
    /// is never removed.
    pub fn remove_session(&mut self, session_id: &str) -> (r: Option<Session>)
        ensures
            final(self).current() == old(self).current(),
            final(self).next_id() == old(self).next_id(),
            (old(self).current() matches Some(c) && c@ == session_id@) ==> r is None && final(self).all() == old(self).all(),
            !(old(self).current() matches Some(c) && c@ == session_id@) ==> {
                if spec_has_session(old(self).all(), session_id@) {
                    let p = spec_session_pos(old(self).all(), session_id@);
                    r == Some(old(self).all()[p]) && final(self).all() == old(self).all().remove(p)
                } else {
                    r is None && final(self).all() == old(self).all()
                }
            },
    {
        let is_current = match &self.current_session_id {
            Some(c) => str_eq(c.as_str(), session_id),
            None => false,
        };
        if is_current {
            return None;
        }
        match self.position(session_id) {
            Some(i) => Some(self.sessions.remove(i)),
            None => None,
        }
    }

    /// Remove every session and start numbering afresh.
    pub fn clear_all(&mut self)
        ensures
            final(self).all() == Seq::<Session>::empty(),
            final(self).current() is None,
            final(self).next_id() == 1,
    {
        self.sessions.clear();
        self.current_session_id = None;
        self.next_session_id = 1;
    }

    /// Number of sessions.
    pub fn len(&self) -> (r: usize)
        ensures
            r == self.all().len(),
    {
        self.sessions.len()
    }

    /// Whether there is no session.
    pub fn is_empty(&self) -> (r: bool)
        ensures
            r == (self.all().len() == 0),
    {
        self.sessions.len() == 0
    }

    /// Whether the session `session_id` exists.
    pub fn contains_session(&self, session_id: &str) -> (r: bool)
        ensures
            r == spec_has_session(self.all(), session_id@),
    {
        self.position(session_id).is_some()
    }

    /// The identifier of the current session.
    pub fn current_session_id(&self) -> (r: Option<&String>)
        ensures
            match self.current() {
                Some(c) => r matches Some(x) && *x == c,
                None => r is None,
            },
    {
        self.current_session_id.as_ref()
    }

    /// Leave the current session: no session is current afterwards.
    pub fn clear_current_session(&mut self)
        ensures
            final(self).current() is None,
            final(self).all() == old(self).all(),
            final(self).next_id() == old(self).next_id(),
    {
        self.current_session_id = None;
    }

    /// Make `session_id` the current session's identifier.
    pub fn set_current_session_id(&mut self, session_id: &str)
        ensures
            final(self).current() matches Some(c) && c@ == session_id@,
            final(self).all() == old(self).all(),
            final(self).next_id() == old(self).next_id(),
    {
        self.current_session_id = Some(owned(session_id));
    }

    /// Make `session_id` the current session's identifier.
    pub fn set_current_session(&mut self, session_id: &str)
        ensures
            final(self).current() matches Some(c) && c@ == session_id@,
            final(self).all() == old(self).all(),
            final(self).next_id() == old(self).next_id(),
    {
        self.set_current_session_id(session_id);
    }

    /// Add a session for each listed session not yet known, titled with the
    /// listed title.
    pub fn set_sessions(&mut self, session_list: Vec<SessionListItem>)
        ensures
            final(self).current() == old(self).current(),
            final(self).next_id() == old(self).next_id(),
            ({
                let added = spec_added_items(spec_session_ids(old(self).all()), session_list@);
                &&& final(self).all().len() == old(self).all().len() + added.len()
                &&& final(self).all().take(old(self).all().len() as int) == old(self).all()
                &&& forall|k: int| 0 <= k < added.len() ==> {
                    let x = #[trigger] final(self).all()[old(self).all().len() + k];
                    &&& spec_fresh_session(Session { name: None, ..x }, added[k].id@)
                    &&& x.name matches Some(n) && n@ == added[k].title@
                }
            }),
    {
        let ghost ids0 = spec_session_ids(self.all());
        let ghost n0 = self.all().len();
        let mut i: usize = 0;
        while i < session_list.len()
            invariant
                i <= session_list@.len(),
                self.current() == old(self).current(),
                self.next_id() == old(self).next_id(),
                ids0 == spec_session_ids(old(self).all()),
                n0 == old(self).all().len(),
                ({
                    let added = spec_added_items(ids0, session_list@.take(i as int));
                    &&& self.all().len() == n0 + added.len()
                    &&& self.all().take(n0 as int) == old(self).all()
                    &&& forall|k: int| 0 <= k < added.len() ==> {
                        let x = #[trigger] self.all()[n0 + k];
                        &&& spec_fresh_session(Session { name: None, ..x }, added[k].id@)
                        &&& x.name matches Some(n) && n@ == added[k].title@
                    }
                }),
            decreases session_list@.len() - i,
        {
            let item = &session_list[i];
            let ghost prev_added = spec_added_items(ids0, session_list@.take(i as int));
            proof {
                assert(session_list@.take(i + 1).drop_last() =~= session_list@.take(i as int));
                assert(session_list@.take(i + 1).last() == *item);
                lemma_known_ids(ids0, prev_added, self.all(), n0, item.id@);
            }
            if !self.contains_session(item.id.as_str()) {
                let mut session = Session::new(item.id.as_str());
                session.set_name(item.title.as_str());
                let ghost before = self.all();
                self.sessions.push(session);
                proof {
                    assert(self.all().take(n0 as int) =~= before.take(n0 as int));
                }
            }
            i = i + 1;
        }
        proof {
            assert(session_list@.take(session_list@.len() as int) =~= session_list@);
        }
    }

    /// References to the sessions, most recently updated first.
    pub fn session_list(&self) -> (r: Vec<&Session>)
        ensures
            r@.map_values(|x: &Session| *x).to_multiset() == self.all().to_multiset(),
            forall|i: int, j: int| 0 <= i < j < r@.len() ==> r@[i].updated_at >= r@[j].updated_at,
    {
        broadcast use vstd::seq_lib::group_to_multiset_ensures;
        let mut out: Vec<&Session> = Vec::new();
        let mut i: usize = 0;
        while i < self.sessions.len()
            invariant
                i <= self.sessions@.len(),
                out@.map_values(|x: &Session| *x).to_multiset() == self.all().take(i as int).to_multiset(),
                forall|a: int, b: int| 0 <= a < b < out@.len() ==> out@[a].updated_at >= out@[b].updated_at,
            decreases self.sessions@.len() - i,
        {
            let x = &self.sessions[i];
            let mut j: usize = 0;
            while j < out.len() && out[j].updated_at >= x.updated_at
                invariant
                    j <= out@.len(),
                    forall|k: int| 0 <= k < j ==> out@[k].updated_at >= x.updated_at,
                decreases out@.len() - j,
            {
                j = j + 1;
            }
            let ghost before = out@.map_values(|y: &Session| *y);
            let ghost prev = out@;
            out.insert(j, x);
            proof {
                assert(out@.map_values(|y: &Session| *y) =~= before.insert(j as int, *x));
                vstd::seq_lib::to_multiset_insert(before, j as int, *x);
                assert(self.all().take(i + 1) =~= self.all().take(i as int).push(*x));
                vstd::seq_lib::to_multiset_build(self.all().take(i as int), *x);
                assert forall|a: int, b: int| 0 <= a < b < out@.len() implies out@[a].updated_at >= out@[b].updated_at by {
                    if b < j {
                        assert(out@[a] == prev[a] && out@[b] == prev[b]);
                    } else if b == j {
                        assert(out@[a] == prev[a]);
                    } else if a == j {
                        assert(out@[b] == prev[b - 1]);
                        assert(prev[j as int].updated_at < x.updated_at);
                        if b - 1 > j {
                            assert(prev[j as int].updated_at >= prev[b - 1].updated_at);
                        }
                    } else if a < j {
                        assert(out@[a] == prev[a] && out@[b] == prev[b - 1]);
                    } else {
                        assert(out@[a] == prev[a - 1] && out@[b] == prev[b - 1]);
                    }
                }
            }
            i = i + 1;
        }
        proof {
            assert(self.all().take(self.all().len() as int) =~= self.all());
        }
        out
    }

    /// The most recently updated session other than the current one.
    pub fn most_recent_session(&self) -> (r: Option<&Session>)
        ensures
            r is None <==> forall|k: int| 0 <= k < self.all().len() ==> spec_is_current(self.current(), #[trigger] self.all()[k]),
            r matches Some(x) ==> self.all().contains(*x) && !spec_is_current(self.current(), *x)
                && forall|k: int| 0 <= k < self.all().len() && !spec_is_current(self.current(), #[trigger] self.all()[k])
                    ==> self.all()[k].updated_at <= x.updated_at,
    {
        broadcast use vstd::seq_lib::group_to_multiset_ensures;
        let list = self.session_list();
        let ghost l = list@.map_values(|y: &Session| *y);
        let mut i: usize = 0;
        while i < list.len()
            invariant
                i <= list@.len(),
                l == list@.map_values(|y: &Session| *y),
                l.to_multiset() == self.all().to_multiset(),
                forall|a: int, b: int| 0 <= a < b < list@.len() ==> list@[a].updated_at >= list@[b].updated_at,
                forall|k: int| 0 <= k < i ==> spec_is_current(self.current(), #[trigger] l[k]),
            decreases list@.len() - i,
        {
            let s = list[i];
            let cur = match &self.current_session_id {
                Some(c) => str_eq(c.as_str(), s.id.as_str()),
                None => false,
            };
            if !cur {
                proof {
                    assert(l[i as int] == *s);
                    assert(l.contains(*s));
                    l.to_multiset_ensures();
                    self.all().to_multiset_ensures();
                    assert(l.to_multiset().count(*s) > 0);
                    assert(self.all().contains(*s));
                    assert forall|k: int| 0 <= k < self.all().len() && !spec_is_current(self.current(), #[trigger] self.all()[k])
                        implies self.all()[k].updated_at <= s.updated_at by {
                        let y = self.all()[k];
                        assert(self.all().to_multiset().count(y) > 0);
                        assert(l.contains(y));
                        let m = choose|m: int| 0 <= m < l.len() && l[m] == y;
                        if m < i {
                            assert(spec_is_current(self.current(), l[m]));
                        } else if m > i {
                            assert(list@[i as int].updated_at >= list@[m].updated_at);
                        }
                    }
                }
                return Some(s);
            }
            i = i + 1;
        }
        proof {
            l.to_multiset_ensures();
            self.all().to_multiset_ensures();
            assert forall|k: int| 0 <= k < self.all().len() implies spec_is_current(self.current(), #[trigger] self.all()[k]) by {
                let y = self.all()[k];
                assert(self.all().to_multiset().count(y) > 0);
                assert(l.contains(y));
            }
        }
        None
    }
}

/// Each listed identifier is known after the session for it was handled:
/// it was present before or added.
proof fn lemma_known_ids(ids0: Seq<Seq<char>>, added: Seq<SessionListItem>, all: Seq<Session>, n0: nat, id: Seq<char>)
    requires
        all.len() == n0 + added.len(),
        spec_session_ids(all.take(n0 as int)) == ids0,
        forall|k: int| 0 <= k < added.len() ==> (#[trigger] all[n0 + k]).id@ == added[k].id@,
    ensures
        spec_has_session(all, id) <==> (ids0.contains(id) || added.map_values(|p: SessionListItem| p.id@).contains(id)),
{
    if spec_has_session(all, id) {
        let i = choose|i: int| 0 <= i < all.len() && (#[trigger] all[i]).id@ == id;
        if i < n0 {
            assert(ids0[i] == id);
        } else {
            let k = i - n0;
            assert(all[n0 + k].id@ == added[k].id@);
            assert(added.map_values(|p: SessionListItem| p.id@)[k] == id);
        }
    }
    if ids0.contains(id) {
        let i = choose|i: int| 0 <= i < ids0.len() && ids0[i] == id;
        assert(all[i].id@ == id);
    }
    let added_ids = added.map_values(|p: SessionListItem| p.id@);
    if added_ids.contains(id) {
        let k = choose|k: int| 0 <= k < added_ids.len() && #[trigger] added_ids[k] == id;
        assert(all[n0 + k].id@ == id);
    }
}

/// Law: the manager's counter never gives two sessions the same identifier:
/// different numbers make different identifiers.
pub proof fn lemma_session_ids_distinct(a: u64, b: u64)
    requires
        a != b,
    ensures
        spec_session_id(a) != spec_session_id(b),
{
    crate::text::lemma_decimal_injective(a as nat, b as nat);
    let p = "session-"@;
    if spec_session_id(a) == spec_session_id(b) {
        assert(spec_session_id(a).skip(p.len() as int) =~= spec_decimal(a as nat));
        assert(spec_session_id(b).skip(p.len() as int) =~= spec_decimal(b as nat));
    }
}

} // verus!
