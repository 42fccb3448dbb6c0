//! Prompts that wait for the user: approvals, clarifications and secrets,
//! and the manager that keeps at most one of them open.

use vstd::prelude::*;

use crate::handlers::events::KeyCode;
use crate::state::config::{spec_chat_colors_rgb, spec_default_chat_colors, ChatColorsRgb};
use crate::text::{owned, pop_char, push_char};

verus! {

/// Kind of prompt.
#[derive(Debug, Clone, Copy, PartialEq, Eq, Structural)]
pub enum PromptType {
    /// Yes or no.
    Approval,
    /// A text answer or a choice.
    Clarify,
    /// A hidden answer.
    Secret,
}

/// Where an approval stands.
#[derive(Debug, Clone, Copy, PartialEq, Eq, Structural)]
pub enum PromptState {
    Pending,
    Approved,
    Denied,
}

/// The view of an optional text.
pub open spec fn spec_opt_text(o: Option<String>) -> Option<Seq<char>> {
    match o {
        Some(s) => Some(s@),
        None => None,
    }
}

/// The views of a list of texts.
pub open spec fn spec_texts(v: Seq<String>) -> Seq<Seq<char>> {
    v.map_values(|s: String| s@)
}

/// A prompt asking the user to approve an action.
#[derive(Debug, Clone)]
pub struct ApprovalPrompt {
    message: String,
    tool_name: Option<String>,
    state: PromptState,
    colors: ChatColorsRgb,
}

/// The view of an approval prompt.
pub ghost struct ApprovalView {
    pub message: Seq<char>,
    pub tool_name: Option<Seq<char>>,
    pub state: PromptState,
    pub colors: ChatColorsRgb,
}

impl View for ApprovalPrompt {
    type V = ApprovalView;

    closed spec fn view(&self) -> ApprovalView {
        ApprovalView {
            message: self.message@,
            tool_name: spec_opt_text(self.tool_name),
            state: self.state,
            colors: self.colors,
        }
    }
}

impl ApprovalPrompt {
    /// A pending approval prompt.
    pub fn new(message: &str, tool_name: Option<String>, colors: ChatColorsRgb) -> (r: Self)
        ensures
            r@ == (ApprovalView { message: message@, tool_name: spec_opt_text(tool_name), state: PromptState::Pending, colors }),
    {
        ApprovalPrompt { message: owned(message), tool_name, state: PromptState::Pending, colors }
    }

    /// A pending approval prompt with the default colours.
    pub fn with_defaults(message: &str) -> (r: Self)
        ensures
            r@ == (ApprovalView {
                message: message@,
                tool_name: None,
                state: PromptState::Pending,
                colors: spec_chat_colors_rgb(spec_default_chat_colors()),
            }),
    {
        ApprovalPrompt::new(message, None, ChatColorsRgb::default())
    }

    pub fn message(&self) -> (r: &str)
        ensures
            r@ == self@.message,
    {
        self.message.as_str()
    }

    pub fn set_message(&mut self, message: &str)
        ensures
            final(self)@ == (ApprovalView { message: message@, ..old(self)@ }),
    {
        self.message = owned(message);
    }

    pub fn tool_name(&self) -> (r: Option<&String>)
        ensures
            match r {
                Some(t) => self@.tool_name == Some(t@),
                None => self@.tool_name is None,
            },
    {
        self.tool_name.as_ref()
    }

    pub fn set_tool_name(&mut self, tool_name: Option<String>)
        ensures
            final(self)@ == (ApprovalView { tool_name: spec_opt_text(tool_name), ..old(self)@ }),
    {
        self.tool_name = tool_name;
    }

    pub fn state(&self) -> (r: PromptState)
        ensures
            r == self@.state,
    {
        self.state
    }

    pub fn set_state(&mut self, state: PromptState)
        ensures
            final(self)@ == (ApprovalView { state, ..old(self)@ }),
    {
        self.state = state;
    }

    pub fn approve(&mut self)
        ensures
            final(self)@ == (ApprovalView { state: PromptState::Approved, ..old(self)@ }),
    {
        self.state = PromptState::Approved;
    }

    pub fn deny(&mut self)
        ensures
            final(self)@ == (ApprovalView { state: PromptState::Denied, ..old(self)@ }),
    {
        self.state = PromptState::Denied;
    }

    pub fn is_approved(&self) -> (r: bool)
        ensures
            r == (self@.state == PromptState::Approved),
    {
        self.state == PromptState::Approved
    }

    pub fn is_denied(&self) -> (r: bool)
        ensures
            r == (self@.state == PromptState::Denied),
    {
        self.state == PromptState::Denied
    }

    pub fn is_pending(&self) -> (r: bool)
        ensures
            r == (self@.state == PromptState::Pending),
    {
        self.state == PromptState::Pending
    }

    pub fn set_colors(&mut self, colors: ChatColorsRgb)
        ensures
            final(self)@ == (ApprovalView { colors, ..old(self)@ }),
    {
        self.colors = colors;
    }

    pub fn colors(&self) -> (r: ChatColorsRgb)
        ensures
            r == self@.colors,
    {
        self.colors
    }
}

/// A prompt asking the user for a text answer, or to pick a choice.
#[derive(Debug, Clone)]
pub struct ClarifyPrompt {
    message: String,
    response: String,
    active: bool,
    colors: ChatColorsRgb,
    choices: Option<Vec<String>>,
    selected_index: usize,
}

/// The view of a clarification prompt.
pub ghost struct ClarifyView {
    pub message: Seq<char>,
    pub response: Seq<char>,
    pub active: bool,
    pub colors: ChatColorsRgb,
    pub choices: Option<Seq<Seq<char>>>,
    pub selected: usize,
}

impl View for ClarifyPrompt {
    type V = ClarifyView;

    closed spec fn view(&self) -> ClarifyView {
        ClarifyView {
            message: self.message@,
            response: self.response@,
            active: self.active,
            colors: self.colors,
            choices: match self.choices {
                Some(c) => Some(spec_texts(c@)),
                None => None,
            },
            selected: self.selected_index,
        }
    }
}

/// The choice after `i` among `n`, going round.
pub open spec fn spec_next_index(i: usize, n: nat) -> usize {
    ((i + 1) % (n as int)) as usize
}

/// The choice before `i` among `n`, going round.
pub open spec fn spec_prev_index(i: usize, n: nat) -> usize {
    if i == 0 { (n - 1) as usize } else { (i - 1) as usize }
}

impl ClarifyPrompt {
    /// An active prompt with an empty answer and the first choice selected.
    pub fn new(message: &str, choices: Option<Vec<String>>, colors: ChatColorsRgb) -> (r: Self)
        ensures
            r@ == (ClarifyView {
                message: message@,
                response: Seq::empty(),
                active: true,
                colors,
                choices: match choices { Some(c) => Some(spec_texts(c@)), None => None },
                selected: 0,
            }),
    {
        let r = ClarifyPrompt { message: owned(message), response: String::new(), active: true, colors, choices, selected_index: 0 };
        assert(r@.response =~= Seq::<char>::empty());
        r
    }

    /// An active prompt without choices and with the default colours.
    pub fn with_defaults(message: &str) -> (r: Self)
        ensures
            r@ == (ClarifyView {
                message: message@,
                response: Seq::empty(),
                active: true,
                colors: spec_chat_colors_rgb(spec_default_chat_colors()),
                choices: None,
                selected: 0,
            }),
    {
        ClarifyPrompt::new(message, None, ChatColorsRgb::default())
    }

    pub fn message(&self) -> (r: &str)
        ensures
            r@ == self@.message,
    {
        self.message.as_str()
    }

    pub fn set_message(&mut self, message: &str)
        ensures
            final(self)@ == (ClarifyView { message: message@, ..old(self)@ }),
    {
        self.message = owned(message);
    }

    pub fn response(&self) -> (r: &str)
        ensures
            r@ == self@.response,
    {
        self.response.as_str()
    }

    pub fn set_response(&mut self, response: &str)
        ensures
            final(self)@ == (ClarifyView { response: response@, ..old(self)@ }),
    {
        self.response = owned(response);
    }

    pub fn append_response(&mut self, text: &str)
        ensures
            final(self)@ == (ClarifyView { response: old(self)@.response + text@, ..old(self)@ }),
    {
        self.response.append(text);
    }

    /// Remove the last character of the answer, if any.
    pub fn pop_response(&mut self)
        ensures
            final(self)@ == (ClarifyView {
                response: if old(self)@.response.len() > 0 { old(self)@.response.drop_last() } else { old(self)@.response },
                ..old(self)@
            }),
    {
        pop_char(&mut self.response);
    }

    pub fn clear_response(&mut self)
        ensures
            final(self)@ == (ClarifyView { response: Seq::empty(), ..old(self)@ }),
    {
        self.response = String::new();
        assert(self@.response =~= Seq::<char>::empty());
    }

    pub fn is_active(&self) -> (r: bool)
        ensures
            r == self@.active,
    {
        self.active
    }

    pub fn set_active(&mut self, active: bool)
        ensures
            final(self)@ == (ClarifyView { active, ..old(self)@ }),
    {
        self.active = active;
    }

    pub fn set_colors(&mut self, colors: ChatColorsRgb)
        ensures
            final(self)@ == (ClarifyView { colors, ..old(self)@ }),
    {
        self.colors = colors;
    }

    pub fn colors(&self) -> (r: ChatColorsRgb)
        ensures
            r == self@.colors,
    {
        self.colors
    }

    pub fn choices(&self) -> (r: Option<&[String]>)
        ensures
            match r {
                Some(c) => self@.choices == Some(spec_texts(c@)),
                None => self@.choices is None,
            },
    {
        match &self.choices {
            Some(c) => Some(c.as_slice()),
            None => None,
        }
    }

    pub fn selected_index(&self) -> (r: usize)
        ensures
            r == self@.selected,
    {
        self.selected_index
    }

    /// Select choice `index`, where there is such a choice.
    pub fn set_selected_index(&mut self, index: usize)
        ensures
            final(self)@ == (ClarifyView {
                selected: match old(self)@.choices {
                    Some(c) => if index < c.len() { index } else { old(self)@.selected },
                    None => old(self)@.selected,
                },
                ..old(self)@
            }),
    {
        if let Some(choices) = &self.choices {
            if index < choices.len() {
                self.selected_index = index;
            }
        }
    }

    /// Well-formed: where there are choices, the selected one is one of them.
    pub open spec fn wf(&self) -> bool {
        spec_clarify_wf(self@)
    }

    /// Select the next choice, going round.
    pub fn next_choice(&mut self)
        requires
            old(self).wf(),
        ensures
            final(self)@ == (ClarifyView {
                selected: match old(self)@.choices {
                    Some(c) => if c.len() > 0 { spec_next_index(old(self)@.selected, c.len()) } else { old(self)@.selected },
                    None => old(self)@.selected,
                },
                ..old(self)@
            }),
    {
        if let Some(choices) = &self.choices {
            if choices.len() > 0 {
                self.selected_index = (self.selected_index + 1) % choices.len();
            }
        }
    }

    /// Select the previous choice, going round.
    pub fn prev_choice(&mut self)
        ensures
            final(self)@ == (ClarifyView {
                selected: match old(self)@.choices {
                    Some(c) => if c.len() > 0 { spec_prev_index(old(self)@.selected, c.len()) } else { old(self)@.selected },
                    None => old(self)@.selected,
                },
                ..old(self)@
            }),
    {
        if let Some(choices) = &self.choices {
            if choices.len() > 0 {
                self.selected_index = if self.selected_index == 0 {
                    choices.len() - 1
                } else {
                    self.selected_index - 1
                };
            }
        }
    }

    /// Submit choice `index`: the prompt closes; the answer is that choice,
    /// or empty where there is no such choice.
    pub fn submit_choice(&mut self, index: usize) -> (r: String)
        ensures
            match old(self)@.choices {
                Some(c) => if index < c.len() {
                    r@ == c[index as int] && final(self)@ == (ClarifyView { active: false, selected: index, ..old(self)@ })
                } else {
                    r@ == Seq::<char>::empty() && final(self)@ == (ClarifyView { active: false, ..old(self)@ })
                },
                None => r@ == Seq::<char>::empty() && final(self)@ == (ClarifyView { active: false, ..old(self)@ }),
            },
    {
        self.active = false;
        if let Some(choices) = &self.choices {
            if index < choices.len() {
                self.selected_index = index;
                return choices[index].clone();
            }
        }
        String::new()
    }

    /// Submit the typed answer: the prompt closes and the answer is cleared.
    pub fn submit(&mut self) -> (r: String)
        ensures
            r@ == old(self)@.response,
            final(self)@ == (ClarifyView { response: Seq::empty(), active: false, ..old(self)@ }),
    {
        let response = self.response.clone();
        self.response = String::new();
        self.active = false;
        assert(self@.response =~= Seq::<char>::empty());
        response
    }

    /// Close the prompt and clear the answer.
    pub fn cancel(&mut self)
        ensures
            final(self)@ == (ClarifyView { response: Seq::empty(), active: false, ..old(self)@ }),
    {
        self.response = String::new();
        self.active = false;
        assert(self@.response =~= Seq::<char>::empty());
    }
}

/// A prompt for a secret; what is typed is shown masked.
#[derive(Debug, Clone)]
pub struct SecretPrompt {
    message: String,
    secret: String,
    display_text: String,
    active: bool,
    mask_char: char,
    colors: ChatColorsRgb,
}

/// The view of a secret prompt.
pub ghost struct SecretView {
    pub message: Seq<char>,
    pub secret: Seq<char>,
    pub display: Seq<char>,
    pub active: bool,
    pub mask: char,
    pub colors: ChatColorsRgb,
}

impl View for SecretPrompt {
    type V = SecretView;

    closed spec fn view(&self) -> SecretView {
        SecretView {
            message: self.message@,
            secret: self.secret@,
            display: self.display_text@,
            active: self.active,
            mask: self.mask_char,
            colors: self.colors,
        }
    }
}

/// `s` without its last character, where it has one.
pub open spec fn spec_drop_last_char(s: Seq<char>) -> Seq<char> {
    if s.len() > 0 { s.drop_last() } else { s }
}

impl SecretPrompt {
    /// An active secret prompt masking with `*`.
    pub fn new(message: &str, colors: ChatColorsRgb) -> (r: Self)
        ensures
            r@ == (SecretView { message: message@, secret: Seq::empty(), display: Seq::empty(), active: true, mask: '*', colors }),
    {
        let r = SecretPrompt {
            message: owned(message),
            secret: String::new(),
            display_text: String::new(),
            active: true,
            mask_char: '*',
            colors,
        };
        assert(r@.secret =~= Seq::<char>::empty());
        assert(r@.display =~= Seq::<char>::empty());
        r
    }

    /// An active secret prompt with the default colours.
    pub fn with_defaults(message: &str) -> (r: Self)
        ensures
            r@ == (SecretView {
                message: message@,
                secret: Seq::empty(),
                display: Seq::empty(),
                active: true,
                mask: '*',
                colors: spec_chat_colors_rgb(spec_default_chat_colors()),
            }),
    {
        SecretPrompt::new(message, ChatColorsRgb::default())
    }

    pub fn message(&self) -> (r: &str)
        ensures
            r@ == self@.message,
    {
        self.message.as_str()
    }

    pub fn set_message(&mut self, message: &str)
        ensures
            final(self)@ == (SecretView { message: message@, ..old(self)@ }),
    {
        self.message = owned(message);
    }

    /// The secret typed so far.
    pub fn secret(&self) -> (r: &str)
        ensures
            r@ == self@.secret,
    {
        self.secret.as_str()
    }

    /// The masked text shown in place of the secret.
    pub fn display_text(&self) -> (r: &str)
        ensures
            r@ == self@.display,
    {
        self.display_text.as_str()
    }

    /// Type one character: it joins the secret and a mask joins the display.
    pub fn append_secret(&mut self, c: char)
        ensures
            final(self)@ == (SecretView {
                secret: old(self)@.secret.push(c),
                display: old(self)@.display.push(old(self)@.mask),
                ..old(self)@
            }),
    {
        push_char(&mut self.secret, c);
        let m = self.mask_char;
        push_char(&mut self.display_text, m);
    }

    /// Remove the last character of the secret and of the display.
    pub fn pop_secret(&mut self)
        ensures
            final(self)@ == (SecretView {
                secret: spec_drop_last_char(old(self)@.secret),
                display: spec_drop_last_char(old(self)@.display),
                ..old(self)@
            }),
    {
        pop_char(&mut self.secret);
        pop_char(&mut self.display_text);
    }

    pub fn clear_secret(&mut self)
        ensures
            final(self)@ == (SecretView { secret: Seq::empty(), display: Seq::empty(), ..old(self)@ }),
    {
        self.secret = String::new();
        self.display_text = String::new();
        assert(self@.secret =~= Seq::<char>::empty());
        assert(self@.display =~= Seq::<char>::empty());
    }

    pub fn is_active(&self) -> (r: bool)
        ensures
            r == self@.active,
    {
        self.active
    }

    pub fn set_active(&mut self, active: bool)
        ensures
            final(self)@ == (SecretView { active, ..old(self)@ }),
    {
        self.active = active;
    }

    pub fn set_mask_char(&mut self, mask_char: char)
        ensures
            final(self)@ == (SecretView { mask: mask_char, ..old(self)@ }),
    {
        self.mask_char = mask_char;
    }

    pub fn set_colors(&mut self, colors: ChatColorsRgb)
        ensures
            final(self)@ == (SecretView { colors, ..old(self)@ }),
    {
        self.colors = colors;
    }

    pub fn colors(&self) -> (r: ChatColorsRgb)
        ensures
            r == self@.colors,
    {
        self.colors
    }

    /// Submit the secret: the prompt closes and forgets it.
    pub fn submit(&mut self) -> (r: String)
        ensures
            r@ == old(self)@.secret,
            final(self)@ == (SecretView { secret: Seq::empty(), display: Seq::empty(), active: false, ..old(self)@ }),
    {
        let secret = self.secret.clone();
        self.clear_secret();
        self.active = false;
        secret
    }

    /// Close the prompt and forget the secret.
    pub fn cancel(&mut self)
        ensures
            final(self)@ == (SecretView { secret: Seq::empty(), display: Seq::empty(), active: false, ..old(self)@ }),
    {
        self.clear_secret();
        self.active = false;
    }
}

/// The prompts, at most one of which is open at a time.
#[derive(Debug, Clone)]
pub struct PromptManager {
    approval_prompt: Option<ApprovalPrompt>,
    clarify_prompt: Option<ClarifyPrompt>,
    secret_prompt: Option<SecretPrompt>,
    colors: ChatColorsRgb,
}

/// What a key did to the open prompt.
#[derive(Debug, Clone, PartialEq, Eq)]
pub enum PromptKeyOutcome {
    /// The key meant nothing to the prompt.
    Ignored,
    /// The prompt changed (typing, moving between choices).
    Edited,
    /// The approval was answered: yes or no.
    Approved(bool),
    /// The approval was dismissed and every prompt closed.
    Dismissed,
    /// The clarification was answered.
    Clarified(String),
    /// The clarification was cancelled.
    ClarifyCancelled,
    /// The secret was submitted.
    SecretGiven(String),
    /// The secret prompt was cancelled.
    SecretCancelled,
}

/// The view of a prompt manager.
pub ghost struct PromptManagerView {
    pub approval: Option<ApprovalView>,
    pub clarify: Option<ClarifyView>,
    pub secret: Option<SecretView>,
    pub colors: ChatColorsRgb,
}

impl View for PromptManager {
    type V = PromptManagerView;

    closed spec fn view(&self) -> PromptManagerView {
        PromptManagerView {
            approval: match self.approval_prompt { Some(p) => Some(p@), None => None },
            clarify: match self.clarify_prompt { Some(p) => Some(p@), None => None },
            secret: match self.secret_prompt { Some(p) => Some(p@), None => None },
            colors: self.colors,
        }
    }
}

/// Whether the approval prompt waits for an answer.
pub open spec fn spec_approval_active(v: PromptManagerView) -> bool {
    v.approval matches Some(a) && a.state == PromptState::Pending
}

/// Whether the clarification prompt is open.
pub open spec fn spec_clarify_active(v: PromptManagerView) -> bool {
    v.clarify matches Some(c) && c.active
}

/// Whether the secret prompt is open.
pub open spec fn spec_secret_active(v: PromptManagerView) -> bool {
    v.secret matches Some(s) && s.active
}

/// A clarification prompt's view is well formed.
pub open spec fn spec_clarify_wf(c: ClarifyView) -> bool {
    match c.choices {
        Some(cs) => cs.len() > 0 ==> c.selected < cs.len(),
        None => true,
    }
}

impl PromptManager {
    /// Well-formed: an open clarification keeps its selection among its choices.
    pub open spec fn wf(&self) -> bool {
        self@.clarify matches Some(c) ==> spec_clarify_wf(c)
    }

    /// A manager with no prompt.
    pub fn new(colors: ChatColorsRgb) -> (r: Self)
        ensures
            r.wf(),
            r@ == (PromptManagerView { approval: None, clarify: None, secret: None, colors }),
    {
        PromptManager { approval_prompt: None, clarify_prompt: None, secret_prompt: None, colors }
    }

    /// A manager with no prompt and the default colours.
    pub fn with_defaults() -> (r: Self)
        ensures
            r.wf(),
            r@ == (PromptManagerView {
                approval: None,
                clarify: None,
                secret: None,
                colors: spec_chat_colors_rgb(spec_default_chat_colors()),
            }),
    {
        PromptManager::new(ChatColorsRgb::default())
    }

    /// Whether some prompt waits for the user.
    pub fn has_active_prompt(&self) -> (r: bool)
        ensures
            r == (spec_approval_active(self@) || spec_clarify_active(self@) || spec_secret_active(self@)),
    {
        self.is_approval_active() || self.is_clarify_active() || self.is_secret_active()
    }

    pub fn is_approval_active(&self) -> (r: bool)
        ensures
            r == spec_approval_active(self@),
    {
        match &self.approval_prompt {
            Some(p) => p.is_pending(),
            None => false,
        }
    }

    pub fn is_clarify_active(&self) -> (r: bool)
        ensures
            r == spec_clarify_active(self@),
    {
        match &self.clarify_prompt {
            Some(p) => p.is_active(),
            None => false,
        }
    }

    pub fn is_secret_active(&self) -> (r: bool)
        ensures
            r == spec_secret_active(self@),
    {
        match &self.secret_prompt {
            Some(p) => p.is_active(),
            None => false,
        }
    }

    /// The approval prompt.
    pub fn approval_prompt(&self) -> (r: Option<&ApprovalPrompt>)
        ensures
            match r { Some(p) => self@.approval == Some(p@), None => self@.approval is None },
    {
        self.approval_prompt.as_ref()
    }

    /// The clarification prompt.
    pub fn clarify_prompt(&self) -> (r: Option<&ClarifyPrompt>)
        ensures
            match r { Some(p) => self@.clarify == Some(p@), None => self@.clarify is None },
    {
        self.clarify_prompt.as_ref()
    }

    /// The secret prompt.
    pub fn secret_prompt(&self) -> (r: Option<&SecretPrompt>)
        ensures
            match r { Some(p) => self@.secret == Some(p@), None => self@.secret is None },
    {
        self.secret_prompt.as_ref()
    }

    /// Open an approval prompt, closing any other.
    pub fn show_approval(&mut self, message: &str, tool_name: Option<String>)
        ensures
            final(self).wf(),
            final(self)@ == (PromptManagerView {
                approval: Some(ApprovalView { message: message@, tool_name: spec_opt_text(tool_name), state: PromptState::Pending, colors: old(self)@.colors }),
                clarify: None,
                secret: None,
                colors: old(self)@.colors,
            }),
    {
        self.clarify_prompt = None;
        self.secret_prompt = None;
        self.approval_prompt = Some(ApprovalPrompt::new(message, tool_name, self.colors));
    }

    /// Open a clarification prompt, closing any other.
    pub fn show_clarify(&mut self, message: &str, choices: Option<Vec<String>>)
        ensures
            final(self).wf(),
            final(self)@ == (PromptManagerView {
                approval: None,
                clarify: Some(ClarifyView {
                    message: message@,
                    response: Seq::empty(),
                    active: true,
                    colors: old(self)@.colors,
                    choices: match choices { Some(c) => Some(spec_texts(c@)), None => None },
                    selected: 0,
                }),
                secret: None,
                colors: old(self)@.colors,
            }),
    {
        self.approval_prompt = None;
        self.secret_prompt = None;
        self.clarify_prompt = Some(ClarifyPrompt::new(message, choices, self.colors));
    }

    /// Open a secret prompt, closing any other.
    pub fn show_secret(&mut self, message: &str)
        ensures
            final(self).wf(),
            final(self)@ == (PromptManagerView {
                approval: None,
                clarify: None,
                secret: Some(SecretView { message: message@, secret: Seq::empty(), display: Seq::empty(), active: true, mask: '*', colors: old(self)@.colors }),
                colors: old(self)@.colors,
            }),
    {
        self.approval_prompt = None;
        self.clarify_prompt = None;
        self.secret_prompt = Some(SecretPrompt::new(message, self.colors));
    }

    /// Approve the approval prompt; false when there is none.
    pub fn approve(&mut self) -> (r: bool)
        ensures
            r == old(self)@.approval is Some,
            final(self).wf() == old(self).wf(),
            final(self)@ == (PromptManagerView {
                approval: match old(self)@.approval {
                    Some(a) => Some(ApprovalView { state: PromptState::Approved, ..a }),
                    None => None,
                },
                ..old(self)@
            }),
    {
        match &mut self.approval_prompt {
            Some(p) => {
                p.approve();
                true
            },
            None => false,
        }
    }

    /// Deny the approval prompt; false when there is none.
    pub fn deny(&mut self) -> (r: bool)
        ensures
            r == old(self)@.approval is Some,
            final(self).wf() == old(self).wf(),
            final(self)@ == (PromptManagerView {
                approval: match old(self)@.approval {
                    Some(a) => Some(ApprovalView { state: PromptState::Denied, ..a }),
                    None => None,
                },
                ..old(self)@
            }),
    {
        match &mut self.approval_prompt {
            Some(p) => {
                p.deny();
                true
            },
            None => false,
        }
    }

    /// Whether the approval prompt was approved, where there is one.
    pub fn get_approval_response(&self) -> (r: Option<bool>)
        ensures
            r == match self@.approval { Some(a) => Some(a.state == PromptState::Approved), None => None },
    {
        match &self.approval_prompt {
            Some(p) => Some(p.is_approved()),
            None => None,
        }
    }

    /// Submit the clarification: the selected choice where it has choices,
    /// the typed answer otherwise. The prompt closes.
    pub fn submit_clarify(&mut self) -> (r: Option<String>)
        requires
            old(self).wf(),
        ensures
            final(self).wf(),
            final(self)@.approval == old(self)@.approval,
            final(self)@.secret == old(self)@.secret,
            final(self)@.colors == old(self)@.colors,
            match old(self)@.clarify {
                None => r is None && final(self)@.clarify is None,
                Some(c) => match c.choices {
                    Some(cs) => r matches Some(a) && a@ == (if c.selected < cs.len() { cs[c.selected as int] } else { Seq::empty() })
                        && final(self)@.clarify == Some(ClarifyView { active: false, ..c }),
                    None => r matches Some(a) && a@ == c.response
                        && final(self)@.clarify == Some(ClarifyView { response: Seq::empty(), active: false, ..c }),
                },
            },
    {
        match &mut self.clarify_prompt {
            Some(p) => {
                let has_choices = p.choices().is_some();
                if has_choices {
                    let i = p.selected_index();
                    Some(p.submit_choice(i))
                } else {
                    Some(p.submit())
                }
            },
            None => None,
        }
    }

    /// Close the clarification prompt.
    pub fn cancel_clarify(&mut self)
        ensures
            final(self).wf(),
            final(self)@ == (PromptManagerView { clarify: None, ..old(self)@ }),
    {
        self.clarify_prompt = None;
    }

    /// Close the secret prompt.
    pub fn cancel_secret(&mut self)
        ensures
            final(self).wf() == old(self).wf(),
            final(self)@ == (PromptManagerView { secret: None, ..old(self)@ }),
    {
        self.secret_prompt = None;
    }

    /// Submit the secret; the prompt closes and forgets it.
    pub fn submit_secret(&mut self) -> (r: Option<String>)
        ensures
            final(self).wf() == old(self).wf(),
            match old(self)@.secret {
                None => r is None && final(self)@ == old(self)@,
                Some(s) => r matches Some(v) && v@ == s.secret
                    && final(self)@ == (PromptManagerView {
                        secret: Some(SecretView { secret: Seq::empty(), display: Seq::empty(), active: false, ..s }),
                        ..old(self)@
                    }),
            },
    {
        match &mut self.secret_prompt {
            Some(p) => Some(p.submit()),
            None => None,
        }
    }

    /// Close every prompt.
    pub fn cancel_all(&mut self)
        ensures
            final(self).wf(),
            final(self)@ == (PromptManagerView { approval: None, clarify: None, secret: None, colors: old(self)@.colors }),
    {
        self.approval_prompt = None;
        self.clarify_prompt = None;
        self.secret_prompt = None;
    }

    /// Set the colours of the manager and of every prompt it keeps.
    pub fn set_colors(&mut self, colors: ChatColorsRgb)
        ensures
            final(self).wf() == old(self).wf(),
            final(self)@ == (PromptManagerView {
                approval: match old(self)@.approval { Some(a) => Some(ApprovalView { colors, ..a }), None => None },
                clarify: match old(self)@.clarify { Some(c) => Some(ClarifyView { colors, ..c }), None => None },
                secret: match old(self)@.secret { Some(s) => Some(SecretView { colors, ..s }), None => None },
                colors,
            }),
    {
        self.colors = colors;
        if let Some(p) = &mut self.approval_prompt {
            p.set_colors(colors);
        }
        if let Some(p) = &mut self.clarify_prompt {
            p.set_colors(colors);
        }
        if let Some(p) = &mut self.secret_prompt {
            p.set_colors(colors);
        }
    }

    /// The colours.
    pub fn colors(&self) -> (r: ChatColorsRgb)
        ensures
            r == self@.colors,
    {
        self.colors
    }

    /// Handle a key while a prompt is open. An approval takes y or n (in
    /// either case) and Esc, which closes every prompt; a clarification takes
    /// typing and Backspace (without choices) or Up and Down (with choices),
    /// Enter to answer and Esc to cancel; a secret prompt takes typing,
    /// Backspace, Enter and Esc.
    pub fn handle_key(&mut self, code: KeyCode) -> (r: PromptKeyOutcome)
        requires
            old(self).wf(),
        ensures
            final(self).wf(),
            (final(self)@, spec_outcome_view(r)) == spec_prompt_key(old(self)@, code),
    {
        if self.is_approval_active() {
            match code {
                KeyCode::Char(c) => {
                    if c == 'y' || c == 'Y' {
                        self.approve();
                        PromptKeyOutcome::Approved(true)
                    } else if c == 'n' || c == 'N' {
                        self.deny();
                        PromptKeyOutcome::Approved(false)
                    } else {
                        PromptKeyOutcome::Ignored
                    }
                },
                KeyCode::Esc => {
                    self.cancel_all();
                    PromptKeyOutcome::Dismissed
                },
                _ => PromptKeyOutcome::Ignored,
            }
        } else if self.is_clarify_active() {
            match code {
                KeyCode::Enter => {
                    let answer = match self.submit_clarify() {
                        Some(a) => a,
                        None => String::new(),
                    };
                    PromptKeyOutcome::Clarified(answer)
                },
                KeyCode::Esc => {
                    self.cancel_clarify();
                    PromptKeyOutcome::ClarifyCancelled
                },
                _ => {
                    match &mut self.clarify_prompt {
                        Some(p) => {
                            let has_choices = p.choices().is_some();
                            match code {
                                KeyCode::Down => {
                                    if has_choices {
                                        p.next_choice();
                                        PromptKeyOutcome::Edited
                                    } else {
                                        PromptKeyOutcome::Ignored
                                    }
                                },
                                KeyCode::Up => {
                                    if has_choices {
                                        p.prev_choice();
                                        PromptKeyOutcome::Edited
                                    } else {
                                        PromptKeyOutcome::Ignored
                                    }
                                },
                                KeyCode::Char(c) => {
                                    if !has_choices {
                                        let mut t = String::new();
                                        push_char(&mut t, c);
                                        let ghost before = p@.response;
                                        p.append_response(t.as_str());
                                        proof {
                                            assert(before + t@ =~= before.push(c));
                                        }
                                        PromptKeyOutcome::Edited
                                    } else {
                                        PromptKeyOutcome::Ignored
                                    }
                                },
                                KeyCode::Backspace => {
                                    if !has_choices {
                                        p.pop_response();
                                        PromptKeyOutcome::Edited
                                    } else {
                                        PromptKeyOutcome::Ignored
                                    }
                                },
                                _ => PromptKeyOutcome::Ignored,
                            }
                        },
                        None => PromptKeyOutcome::Ignored,
                    }
                },
            }
        } else if self.is_secret_active() {
            match code {
                KeyCode::Esc => {
                    self.cancel_secret();
                    PromptKeyOutcome::SecretCancelled
                },
                _ => {
                    match &mut self.secret_prompt {
                        Some(p) => match code {
                            KeyCode::Char(c) => {
                                p.append_secret(c);
                                PromptKeyOutcome::Edited
                            },
                            KeyCode::Backspace => {
                                p.pop_secret();
                                PromptKeyOutcome::Edited
                            },
                            KeyCode::Enter => {
                                let v = p.submit();
                                PromptKeyOutcome::SecretGiven(v)
                            },
                            _ => PromptKeyOutcome::Ignored,
                        },
                        None => PromptKeyOutcome::Ignored,
                    }
                },
            }
        } else {
            PromptKeyOutcome::Ignored
        }
    }
}

/// The view of what a key did to a prompt.
pub ghost enum PromptOutcomeView {
    Ignored,
    Edited,
    Approved(bool),
    Dismissed,
    Clarified(Seq<char>),
    ClarifyCancelled,
    SecretGiven(Seq<char>),
    SecretCancelled,
}

/// The view of an outcome.
pub open spec fn spec_outcome_view(o: PromptKeyOutcome) -> PromptOutcomeView {
    match o {
        PromptKeyOutcome::Ignored => PromptOutcomeView::Ignored,
        PromptKeyOutcome::Edited => PromptOutcomeView::Edited,
        PromptKeyOutcome::Approved(b) => PromptOutcomeView::Approved(b),
        PromptKeyOutcome::Dismissed => PromptOutcomeView::Dismissed,
        PromptKeyOutcome::Clarified(a) => PromptOutcomeView::Clarified(a@),
        PromptKeyOutcome::ClarifyCancelled => PromptOutcomeView::ClarifyCancelled,
        PromptKeyOutcome::SecretGiven(s) => PromptOutcomeView::SecretGiven(s@),
        PromptKeyOutcome::SecretCancelled => PromptOutcomeView::SecretCancelled,
    }
}

/// The answer a clarification gives when submitted.
pub open spec fn spec_clarify_answer(c: ClarifyView) -> Seq<char> {
    match c.choices {
        Some(cs) => if c.selected < cs.len() { cs[c.selected as int] } else { Seq::empty() },
        None => c.response,
    }
}

/// A clarification after it is submitted.
pub open spec fn spec_clarify_submitted(c: ClarifyView) -> ClarifyView {
    match c.choices {
        Some(_) => ClarifyView { active: false, ..c },
        None => ClarifyView { response: Seq::empty(), active: false, ..c },
    }
}

/// The prompts after a key, and what the key did.
pub open spec fn spec_prompt_key(v: PromptManagerView, code: KeyCode) -> (PromptManagerView, PromptOutcomeView) {
    if spec_approval_active(v) {
        let a = v.approval.unwrap();
        match code {
            KeyCode::Char(c) => if c == 'y' || c == 'Y' {
                (PromptManagerView { approval: Some(ApprovalView { state: PromptState::Approved, ..a }), ..v }, PromptOutcomeView::Approved(true))
            } else if c == 'n' || c == 'N' {
                (PromptManagerView { approval: Some(ApprovalView { state: PromptState::Denied, ..a }), ..v }, PromptOutcomeView::Approved(false))
            } else {
                (v, PromptOutcomeView::Ignored)
            },
            KeyCode::Esc => (PromptManagerView { approval: None, clarify: None, secret: None, colors: v.colors }, PromptOutcomeView::Dismissed),
            _ => (v, PromptOutcomeView::Ignored),
        }
    } else if spec_clarify_active(v) {
        let c = v.clarify.unwrap();
        let has_choices = c.choices is Some;
        match code {
            KeyCode::Enter => (PromptManagerView { clarify: Some(spec_clarify_submitted(c)), ..v }, PromptOutcomeView::Clarified(spec_clarify_answer(c))),
            KeyCode::Esc => (PromptManagerView { clarify: None, ..v }, PromptOutcomeView::ClarifyCancelled),
            KeyCode::Down => if has_choices {
                let n = c.choices.unwrap().len();
                (PromptManagerView {
                    clarify: Some(ClarifyView { selected: if n > 0 { spec_next_index(c.selected, n) } else { c.selected }, ..c }),
                    ..v
                }, PromptOutcomeView::Edited)
            } else {
                (v, PromptOutcomeView::Ignored)
            },
            KeyCode::Up => if has_choices {
                let n = c.choices.unwrap().len();
                (PromptManagerView {
                    clarify: Some(ClarifyView { selected: if n > 0 { spec_prev_index(c.selected, n) } else { c.selected }, ..c }),
                    ..v
                }, PromptOutcomeView::Edited)
            } else {
                (v, PromptOutcomeView::Ignored)
            },
            KeyCode::Char(ch) => if !has_choices {
                (PromptManagerView { clarify: Some(ClarifyView { response: c.response.push(ch), ..c }), ..v }, PromptOutcomeView::Edited)
            } else {
                (v, PromptOutcomeView::Ignored)
            },
            KeyCode::Backspace => if !has_choices {
                (PromptManagerView { clarify: Some(ClarifyView { response: spec_drop_last_char(c.response), ..c }), ..v }, PromptOutcomeView::Edited)
            } else {
                (v, PromptOutcomeView::Ignored)
            },
            _ => (v, PromptOutcomeView::Ignored),
        }
    } else if spec_secret_active(v) {
        let s = v.secret.unwrap();
        match code {
            KeyCode::Esc => (PromptManagerView { secret: None, ..v }, PromptOutcomeView::SecretCancelled),
            KeyCode::Char(ch) => (PromptManagerView {
                secret: Some(SecretView { secret: s.secret.push(ch), display: s.display.push(s.mask), ..s }),
                ..v
            }, PromptOutcomeView::Edited),
            KeyCode::Backspace => (PromptManagerView {
                secret: Some(SecretView { secret: spec_drop_last_char(s.secret), display: spec_drop_last_char(s.display), ..s }),
                ..v
            }, PromptOutcomeView::Edited),
            KeyCode::Enter => (PromptManagerView {
                secret: Some(SecretView { secret: Seq::empty(), display: Seq::empty(), active: false, ..s }),
                ..v
            }, PromptOutcomeView::SecretGiven(s.secret)),
            _ => (v, PromptOutcomeView::Ignored),
        }
    } else {
        (v, PromptOutcomeView::Ignored)
    }
}

/// Law: answering or dismissing leaves no prompt waiting for the user,
/// unless another kind of prompt was already open.
pub proof fn lemma_answer_closes_prompt(v: PromptManagerView, code: KeyCode)
    requires
        v.clarify is None && v.secret is None,
        spec_approval_active(v),
        code matches KeyCode::Char(c) && (c == 'y' || c == 'n'),
    ensures
        !spec_approval_active(spec_prompt_key(v, code).0),
        !spec_clarify_active(spec_prompt_key(v, code).0),
        !spec_secret_active(spec_prompt_key(v, code).0),
{
}


/// Law: with an approval waiting, 'n' or 'N' denies the tool call and 'y' or
/// 'Y' approves it; no other character approves, and the answer is what the
/// prompt's state records.
pub proof fn lemma_approval_keys(v: PromptManagerView, c: char)
    requires
        spec_approval_active(v),
    ensures
        (c == 'n' || c == 'N') ==> spec_prompt_key(v, KeyCode::Char(c)).1 == PromptOutcomeView::Approved(false)
            && spec_prompt_key(v, KeyCode::Char(c)).0.approval.unwrap().state == PromptState::Denied,
        (c == 'y' || c == 'Y') ==> spec_prompt_key(v, KeyCode::Char(c)).1 == PromptOutcomeView::Approved(true)
            && spec_prompt_key(v, KeyCode::Char(c)).0.approval.unwrap().state == PromptState::Approved,
        spec_prompt_key(v, KeyCode::Char(c)).1 == PromptOutcomeView::Approved(true) ==> (c == 'y' || c == 'Y'),
        spec_prompt_key(v, KeyCode::Char(c)).1 == PromptOutcomeView::Approved(false) ==> (c == 'n' || c == 'N'),
        !(c == 'y' || c == 'Y' || c == 'n' || c == 'N') ==> spec_prompt_key(v, KeyCode::Char(c)) == (v, PromptOutcomeView::Ignored),
        spec_prompt_key(v, KeyCode::Esc).1 == PromptOutcomeView::Dismissed,
        spec_prompt_key(v, KeyCode::Esc).0.approval is None,
{
}

} // verus!
