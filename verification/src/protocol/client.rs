//! Request bookkeeping for the gateway connection.
//!
//! Every request gets a fresh identifier; the identifier is remembered with
//! the method name until the matching reply arrives. Replies to a few
//! methods are then handed to the application as if they were events.

use std::collections::HashMap;
use vstd::prelude::*;

use crate::protocol::types::{spec_method_name, TuiRequest};
use crate::text::str_eq;

verus! {

broadcast use vstd::std_specs::hash::group_hash_axioms;

/// Which event a reply to a tracked request is turned into.
#[derive(Debug, Clone, Copy, PartialEq, Eq, Structural)]
pub enum ReplyKind {
    SessionCreate,
    SessionResume,
    SessionList,
    SessionActivate,
    PromptSubmit,
    ConfigGet,
}

/// The event kind a reply to `method` is turned into, if any.
pub open spec fn spec_reply_kind(method: Seq<char>) -> Option<ReplyKind> {
    if method == "session.create"@ {
        Some(ReplyKind::SessionCreate)
    } else if method == "session.resume"@ {
        Some(ReplyKind::SessionResume)
    } else if method == "session.list"@ {
        Some(ReplyKind::SessionList)
    } else if method == "session.activate"@ {
        Some(ReplyKind::SessionActivate)
    } else if method == "prompt.submit"@ {
        Some(ReplyKind::PromptSubmit)
    } else if method == "config.get"@ {
        Some(ReplyKind::ConfigGet)
    } else {
        None
    }
}

/// The event kind a reply to `method` is turned into, if any.
pub fn reply_kind(method: &str) -> (r: Option<ReplyKind>)
    ensures
        r == spec_reply_kind(method@),
{
    if str_eq(method, "session.create") {
        Some(ReplyKind::SessionCreate)
    } else if str_eq(method, "session.resume") {
        Some(ReplyKind::SessionResume)
    } else if str_eq(method, "session.list") {
        Some(ReplyKind::SessionList)
    } else if str_eq(method, "session.activate") {
        Some(ReplyKind::SessionActivate)
    } else if str_eq(method, "prompt.submit") {
        Some(ReplyKind::PromptSubmit)
    } else if str_eq(method, "config.get") {
        Some(ReplyKind::ConfigGet)
    } else {
        None
    }
}

/// What to do with one incoming JSON-RPC message.
#[derive(Debug, Clone, PartialEq, Eq)]
pub enum RpcRoute {
    /// An event notification: its parameters carry a gateway event.
    Event,
    /// A notification under a method other than `event`: it is dropped.
    UnknownMethod,
    /// A reply carrying a result for a tracked request of the given method,
    /// to be handed on as the given event kind.
    Reply { method: String, kind: ReplyKind },
    /// A reply with a result for a tracked method that is not handed on.
    UnforwardedReply { method: String },
    /// An error reply for a tracked request of the given method.
    ErrorReply { method: String },
    /// A reply with neither result nor error for a tracked request.
    EmptyReply { method: String },
    /// A reply whose identifier is not tracked, or a message with neither
    /// method nor identifier.
    Untracked,
}

/// Identifiers of requests sent and not yet answered, with their methods.
pub struct RequestTracker {
    next_id: u64,
    pending: HashMap<u64, String>,
}

impl RequestTracker {
    /// The identifier the next request will get.
    pub closed spec fn next_id(&self) -> u64 {
        self.next_id
    }

    /// The pending requests: identifier to method name.
    pub closed spec fn pending(&self) -> Map<u64, Seq<char>> {
        self.pending@.map_values(|s: String| s@)
    }

    /// Identifiers below `next_id` are the only ones that can be pending.
    pub closed spec fn wf(&self) -> bool {
        forall|id: u64| #[trigger] self.pending@.contains_key(id) ==> id < self.next_id
    }

    /// A tracker whose first request gets identifier 1.
    pub fn new() -> (r: Self)
        ensures
            r.next_id() == 1,
            r.pending() == Map::<u64, Seq<char>>::empty(),
            r.wf(),
    {
        let r = RequestTracker { next_id: 1, pending: HashMap::new() };
        proof {
            assert(r.pending() =~= Map::<u64, Seq<char>>::empty());
        }
        r
    }

    /// Record a request about to be sent and return its identifier.
    pub fn register(&mut self, request: &TuiRequest) -> (id: u64)
        requires
            old(self).wf(),
            old(self).next_id() < u64::MAX,
        ensures
            id == old(self).next_id(),
            final(self).next_id() == old(self).next_id() + 1,
            final(self).pending() == old(self).pending().insert(id, spec_method_name(*request)),
            !old(self).pending().contains_key(id),
            final(self).wf(),
    {
        let id = self.next_id;
        self.next_id = self.next_id + 1;
        let method = request.method_name().to_owned();
        let ghost old_pending = self.pending@;
        self.pending.insert(id, method);
        proof {
            assert(self.pending() =~= old(self).pending().insert(id, spec_method_name(*request)));
        }
        id
    }

    /// Forget a pending request and return its method, if it was pending.
    pub fn take_pending(&mut self, id: u64) -> (r: Option<String>)
        requires
            old(self).wf(),
        ensures
            final(self).next_id() == old(self).next_id(),
            final(self).pending() == old(self).pending().remove(id),
            match r {
                Some(m) => old(self).pending().contains_key(id) && m@ == old(self).pending()[id],
                None => !old(self).pending().contains_key(id),
            },
            final(self).wf(),
    {
        let r = self.pending.remove(&id);
        proof {
            assert(self.pending() =~= old(self).pending().remove(id));
        }
        r
    }

    /// Decide what to do with an incoming message, given its method (if
    /// any), its identifier (if any) and whether it carries a result or an
    /// error. A reply to a tracked identifier stops being pending.
    pub fn route(&mut self, method: Option<&str>, id: Option<u64>, has_result: bool, has_error: bool)
        -> (r: RpcRoute)
        requires
            old(self).wf(),
        ensures
            final(self).wf(),
            final(self).next_id() == old(self).next_id(),
            match method {
                Some(m) => {
                    &&& final(self).pending() == old(self).pending()
                    &&& r == if m@ == "event"@ { RpcRoute::Event } else { RpcRoute::UnknownMethod }
                },
                None => match id {
                    None => final(self).pending() == old(self).pending() && r == RpcRoute::Untracked,
                    Some(i) => {
                        &&& final(self).pending() == old(self).pending().remove(i)
                        &&& if !old(self).pending().contains_key(i) {
                            r == RpcRoute::Untracked
                        } else {
                            let m = old(self).pending()[i];
                            if has_result {
                                match spec_reply_kind(m) {
                                    Some(k) => r matches RpcRoute::Reply { method, kind } && method@ == m && kind == k,
                                    None => r matches RpcRoute::UnforwardedReply { method } && method@ == m,
                                }
                            } else if has_error {
                                r matches RpcRoute::ErrorReply { method } && method@ == m
                            } else {
                                r matches RpcRoute::EmptyReply { method } && method@ == m
                            }
                        }
                    },
                },
            },
    {
        match method {
            Some(m) => {
                if str_eq(m, "event") {
                    RpcRoute::Event
                } else {
                    RpcRoute::UnknownMethod
                }
            },
            None => match id {
                None => RpcRoute::Untracked,
                Some(i) => match self.take_pending(i) {
                    None => RpcRoute::Untracked,
                    Some(name) => {
                        if has_result {
                            match reply_kind(name.as_str()) {
                                Some(kind) => RpcRoute::Reply { method: name, kind },
                                None => RpcRoute::UnforwardedReply { method: name },
                            }
                        } else if has_error {
                            RpcRoute::ErrorReply { method: name }
                        } else {
                            RpcRoute::EmptyReply { method: name }
                        }
                    },
                },
            },
        }
    }
}

/// Law: once a request is registered, the reply with its identifier
/// gives back the method it was sent under, and the identifier stops
/// being pending.
pub proof fn lemma_register_then_take(before: RequestTracker, registered: RequestTracker, id: u64, request: TuiRequest)
    requires
        before.wf(),
        id == before.next_id(),
        registered.pending() == before.pending().insert(id, spec_method_name(request)),
    ensures
        registered.pending().contains_key(id),
        registered.pending()[id] == spec_method_name(request),
        registered.pending().remove(id) == before.pending(),
{
    assert(!before.pending().contains_key(id));
    assert(registered.pending().remove(id) =~= before.pending());
}

} // verus!
