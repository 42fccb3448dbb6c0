//! The prompts the gateway asks for, and the replies the user's keys make.

use vstd::prelude::*;

use crate::handlers::events::KeyCode;
use crate::protocol::types::{ApprovalResponse, ClarifyResponse, SecretResponse, SudoResponse, TuiRequest};
use crate::state::config::InputMode;
use crate::text::{concat, owned};
use crate::ui::composer::{spec_mode_prompt, ComposerView, InputComposer};
use crate::ui::prompts::{
    spec_outcome_view, spec_prompt_key, PromptKeyOutcome, PromptManager, PromptManagerView,
    PromptOutcomeView, spec_opt_text,
};

verus! {

/// The prompt manager and the gateway requests waiting for a reply.
#[derive(Debug, Clone)]
pub struct PromptFlow {
    prompts: PromptManager,
    pending_approval_id: Option<String>,
    pending_clarify_id: Option<String>,
    pending_sudo_id: Option<String>,
    pending_secret_id: Option<String>,
}

/// The requests waiting for a reply, by kind.
pub ghost struct PendingView {
    pub approval: Option<Seq<char>>,
    pub clarify: Option<Seq<char>>,
    pub sudo: Option<Seq<char>>,
    pub secret: Option<Seq<char>>,
}

/// The view of a reply to the gateway.
pub ghost enum ReplyView {
    Approval { request_id: Seq<char>, approved: bool, choice: Seq<char> },
    Clarify { request_id: Seq<char>, answer: Seq<char> },
    Sudo { request_id: Seq<char>, password: Seq<char> },
    Secret { request_id: Seq<char>, value: Seq<char> },
    Other,
}

/// The view of a request as a reply.
pub open spec fn spec_reply_view(r: TuiRequest) -> ReplyView {
    match r {
        TuiRequest::ApprovalRespond(a) => ReplyView::Approval { request_id: a.request_id@, approved: a.approved, choice: a.choice@ },
        TuiRequest::ClarifyRespond(c) => ReplyView::Clarify { request_id: c.request_id@, answer: c.answer@ },
        TuiRequest::SudoRespond(s) => ReplyView::Sudo { request_id: s.request_id@, password: s.password@ },
        TuiRequest::SecretRespond(s) => ReplyView::Secret { request_id: s.request_id@, value: s.value@ },
        _ => ReplyView::Other,
    }
}

/// The reply an outcome calls for, and the requests still waiting after it:
/// an answered approval replies "once" or "deny"; a clarification replies
/// with its answer (empty when cancelled); a secret replies to a pending
/// secret request, or else to a pending sudo request.
pub open spec fn spec_reply(p: PendingView, o: PromptOutcomeView) -> (Option<ReplyView>, PendingView) {
    match o {
        PromptOutcomeView::Approved(yes) => match p.approval {
            Some(id) => (Some(ReplyView::Approval { request_id: id, approved: yes, choice: if yes { "once"@ } else { "deny"@ } }),
                PendingView { approval: None, ..p }),
            None => (None, p),
        },
        PromptOutcomeView::Clarified(a) => match p.clarify {
            Some(id) => (Some(ReplyView::Clarify { request_id: id, answer: a }), PendingView { clarify: None, ..p }),
            None => (None, p),
        },
        PromptOutcomeView::ClarifyCancelled => match p.clarify {
            Some(id) => (Some(ReplyView::Clarify { request_id: id, answer: Seq::empty() }), PendingView { clarify: None, ..p }),
            None => (None, p),
        },
        PromptOutcomeView::SecretGiven(v) => match p.secret {
            Some(id) => (Some(ReplyView::Secret { request_id: id, value: v }), PendingView { secret: None, ..p }),
            None => match p.sudo {
                Some(id) => (Some(ReplyView::Sudo { request_id: id, password: v }), PendingView { sudo: None, ..p }),
                None => (None, p),
            },
        },
        PromptOutcomeView::SecretCancelled => match p.secret {
            Some(id) => (Some(ReplyView::Secret { request_id: id, value: Seq::empty() }), PendingView { secret: None, ..p }),
            None => match p.sudo {
                Some(id) => (Some(ReplyView::Sudo { request_id: id, password: Seq::empty() }), PendingView { sudo: None, ..p }),
                None => (None, p),
            },
        },
        _ => (None, p),
    }
}

/// Whether an outcome gives the keyboard back to the composer: every
/// answer, dismissal or cancellation does.
pub open spec fn spec_resumes_typing(o: PromptOutcomeView) -> bool {
    !(o is Ignored || o is Edited)
}

/// What a key at an open prompt leads to.
#[derive(Debug, Clone, PartialEq, Eq)]
pub struct PromptKeyResult {
    /// The reply to send to the gateway, if any.
    pub reply: Option<TuiRequest>,
    /// Whether typing returns to the composer, in insert mode.
    pub resume_typing: bool,
}

/// Typing stops while a prompt waits: the composer goes inactive, in
/// normal mode.
fn stop_typing(composer: &mut InputComposer)
    ensures
        final(composer)@ == (ComposerView { active: false, mode: InputMode::Normal, prompt: spec_mode_prompt(InputMode::Normal), ..old(composer)@ }),
{
    composer.set_active(false);
    composer.set_input_mode(InputMode::Normal);
}

impl PromptFlow {
    pub closed spec fn manager(&self) -> PromptManagerView {
        self.prompts@
    }

    pub closed spec fn pending(&self) -> PendingView {
        PendingView {
            approval: spec_opt_text(self.pending_approval_id),
            clarify: spec_opt_text(self.pending_clarify_id),
            sudo: spec_opt_text(self.pending_sudo_id),
            secret: spec_opt_text(self.pending_secret_id),
        }
    }

    /// Well-formed: the prompt manager is.
    pub closed spec fn wf(&self) -> bool {
        self.prompts.wf()
    }

    /// No prompt and nothing pending.
    pub fn new(prompts: PromptManager) -> (r: Self)
        requires
            prompts.wf(),
        ensures
            r.wf(),
            r.manager() == prompts@,
            r.pending() == (PendingView { approval: None, clarify: None, sudo: None, secret: None }),
    {
        PromptFlow { prompts, pending_approval_id: None, pending_clarify_id: None, pending_sudo_id: None, pending_secret_id: None }
    }

    /// The prompt manager.
    pub fn prompts(&self) -> (r: &PromptManager)
        ensures
            r@ == self.manager(),
    {
        &self.prompts
    }

    /// The gateway asks to approve a tool call: the approval prompt shows
    /// "<tool> - <message>", and typing stops: the composer goes inactive in
    /// normal mode. The other requests stop typing the same way.
    pub fn approval_request(&mut self, request_id: &str, tool_name: &str, message: &str, composer: &mut InputComposer)
        requires
            old(self).wf(),
        ensures
            final(self).wf(),
            final(composer)@ == (ComposerView { active: false, mode: InputMode::Normal, prompt: spec_mode_prompt(InputMode::Normal), ..old(composer)@ }),
            final(self).pending() == (PendingView { approval: Some(request_id@), ..old(self).pending() }),
            spec_crate_approval_shown(final(self).manager(), old(self).manager(), tool_name@ + " - "@ + message@, tool_name@),
    {
        self.pending_approval_id = Some(owned(request_id));
        let a = concat(tool_name, " - ");
        let text = concat(a.as_str(), message);
        self.prompts.show_approval(text.as_str(), Some(owned(tool_name)));
        stop_typing(composer);
    }

    /// The gateway asks a question.
    pub fn clarify_request(&mut self, request_id: &str, question: &str, choices: Option<Vec<String>>, composer: &mut InputComposer)
        requires
            old(self).wf(),
        ensures
            final(self).wf(),
            final(composer)@ == (ComposerView { active: false, mode: InputMode::Normal, prompt: spec_mode_prompt(InputMode::Normal), ..old(composer)@ }),
            final(self).pending() == (PendingView { clarify: Some(request_id@), ..old(self).pending() }),
            final(self).manager().clarify matches Some(c) && c.message == question@ && c.active,
            final(self).manager().approval is None && final(self).manager().secret is None,
    {
        self.pending_clarify_id = Some(owned(request_id));
        self.prompts.show_clarify(question, choices);
        stop_typing(composer);
    }

    /// The gateway asks for the system password.
    pub fn sudo_request(&mut self, request_id: &str, composer: &mut InputComposer)
        requires
            old(self).wf(),
        ensures
            final(self).wf(),
            final(composer)@ == (ComposerView { active: false, mode: InputMode::Normal, prompt: spec_mode_prompt(InputMode::Normal), ..old(composer)@ }),
            final(self).pending() == (PendingView { sudo: Some(request_id@), ..old(self).pending() }),
            final(self).manager().secret matches Some(s) && s.message == "System (sudo) password required:"@ && s.active,
            final(self).manager().approval is None && final(self).manager().clarify is None,
    {
        self.pending_sudo_id = Some(owned(request_id));
        self.prompts.show_secret("System (sudo) password required:");
        stop_typing(composer);
    }

    /// The gateway asks for a secret.
    pub fn secret_request(&mut self, request_id: &str, prompt: &str, composer: &mut InputComposer)
        requires
            old(self).wf(),
        ensures
            final(self).wf(),
            final(composer)@ == (ComposerView { active: false, mode: InputMode::Normal, prompt: spec_mode_prompt(InputMode::Normal), ..old(composer)@ }),
            final(self).pending() == (PendingView { secret: Some(request_id@), ..old(self).pending() }),
            final(self).manager().secret matches Some(s) && s.message == prompt@ && s.active,
            final(self).manager().approval is None && final(self).manager().clarify is None,
    {
        self.pending_secret_id = Some(owned(request_id));
        self.prompts.show_secret(prompt);
        stop_typing(composer);
    }

    /// A key at an open prompt: the prompt takes it, and an answer becomes
    /// the reply to the request waiting for it.
    pub fn handle_key(&mut self, code: KeyCode) -> (r: PromptKeyResult)
        requires
            old(self).wf(),
        ensures
            final(self).wf(),
            ({
                let (m, o) = spec_prompt_key(old(self).manager(), code);
                let (reply, pending) = spec_reply(old(self).pending(), o);
                &&& final(self).manager() == m
                &&& final(self).pending() == pending
                &&& r.resume_typing == spec_resumes_typing(o)
                &&& match r.reply {
                    Some(q) => reply == Some(spec_reply_view(q)),
                    None => reply is None,
                }
            }),
    {
        let outcome = self.prompts.handle_key(code);
        let resume_typing = match outcome {
            PromptKeyOutcome::Ignored => false,
            PromptKeyOutcome::Edited => false,
            _ => true,
        };
        let reply = match outcome {
            PromptKeyOutcome::Approved(yes) => match self.pending_approval_id.take() {
                Some(id) => Some(TuiRequest::ApprovalRespond(ApprovalResponse {
                    request_id: id,
                    approved: yes,
                    choice: if yes { owned("once") } else { owned("deny") },
                })),
                None => None,
            },
            PromptKeyOutcome::Clarified(answer) => match self.pending_clarify_id.take() {
                Some(id) => Some(TuiRequest::ClarifyRespond(ClarifyResponse { request_id: id, answer })),
                None => None,
            },
            PromptKeyOutcome::ClarifyCancelled => match self.pending_clarify_id.take() {
                Some(id) => Some(TuiRequest::ClarifyRespond(ClarifyResponse { request_id: id, answer: String::new() })),
                None => None,
            },
            PromptKeyOutcome::SecretGiven(value) => match self.pending_secret_id.take() {
                Some(id) => Some(TuiRequest::SecretRespond(SecretResponse { request_id: id, value })),
                None => match self.pending_sudo_id.take() {
                    Some(id) => Some(TuiRequest::SudoRespond(SudoResponse { request_id: id, password: value })),
                    None => None,
                },
            },
            PromptKeyOutcome::SecretCancelled => match self.pending_secret_id.take() {
                Some(id) => Some(TuiRequest::SecretRespond(SecretResponse { request_id: id, value: String::new() })),
                None => match self.pending_sudo_id.take() {
                    Some(id) => Some(TuiRequest::SudoRespond(SudoResponse { request_id: id, password: String::new() })),
                    None => None,
                },
            },
            _ => None,
        };
        PromptKeyResult { reply, resume_typing }
    }
}

/// The approval prompt shows `text` for `tool`, every other prompt closed.
pub open spec fn spec_crate_approval_shown(now: PromptManagerView, before: PromptManagerView, text: Seq<char>, tool: Seq<char>) -> bool {
    &&& now.approval matches Some(a) && a.message == text && a.tool_name == Some(tool)
        && a.state == crate::ui::prompts::PromptState::Pending
    &&& now.clarify is None
    &&& now.secret is None
    &&& now.colors == before.colors
}

/// Law: approving a pending request replies once to it, with "once", and
/// nothing waits for an approval afterwards.
pub proof fn lemma_approval_replies_once(p: PendingView, id: Seq<char>)
    requires
        p.approval == Some(id),
    ensures
        spec_reply(p, PromptOutcomeView::Approved(true)).0 == Some(ReplyView::Approval { request_id: id, approved: true, choice: "once"@ }),
        spec_reply(p, PromptOutcomeView::Approved(true)).1.approval is None,
        spec_reply(spec_reply(p, PromptOutcomeView::Approved(true)).1, PromptOutcomeView::Approved(true)).0 is None,
{
}

} // verus!
