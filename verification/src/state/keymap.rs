//! What a key press means to the application, given what is on screen.
//!
//! The application gathers the little it needs to know into a
//! [`KeyContext`]; [`decide_key`] answers with the action to take and the
//! new state of the prefix key and of the help overlay. Performing the
//! action is the application's part.

use vstd::prelude::*;

use crate::handlers::events::{spec_bits_contain, KeyCode, KeyEvent, ALT_BIT, CONTROL_BIT, SHIFT_BIT};
use crate::state::config::InputMode;
use crate::ui::model_picker::ModelPickerStage;

verus! {

/// The main views.
#[derive(Debug, Clone, Copy, PartialEq, Eq, Structural)]
pub enum ViewState {
    Dashboard,
    Ide,
    Kanban,
    Chat,
}

/// What is on screen when a key arrives.
#[derive(Debug, Clone, Copy, PartialEq, Eq, Structural)]
pub struct KeyContext {
    /// The prefix key (Alt+A) was pressed and waits for its command.
    pub prefix_mode: bool,
    /// The help overlay is shown.
    pub show_help: bool,
    /// A prompt waits for the user.
    pub prompt_active: bool,
    /// The session picker is shown.
    pub session_picker_visible: bool,
    /// The model picker is shown, at this stage.
    pub model_picker: Option<ModelPickerStage>,
    /// The completion popup is shown.
    pub completion_visible: bool,
    /// The main view.
    pub view: ViewState,
    /// In the IDE view, the file tree has the focus (else the editor).
    pub ide_focus_tree: bool,
    /// The input mode.
    pub input_mode: InputMode,
    /// The composer holds no text.
    pub composer_empty: bool,
}

/// Actions a key can call for.
#[derive(Debug, Clone, Copy, PartialEq, Eq, Structural)]
pub enum KeyAction {
    /// Nothing to do.
    Nothing,
    /// Stop the application.
    Quit,
    /// Switch to another view.
    SwitchView(ViewState),
    /// Focus the previous pane.
    FocusPrev,
    /// Focus the next pane.
    FocusNext,
    /// Note that a configuration reload was asked for.
    NoteReload,
    /// Note that renaming the session was asked for (where there is one).
    NoteRenameSession,
    /// Note that renaming the window was asked for.
    NoteRenameWindow,
    /// Start a new session.
    NewSession,
    /// Close the current view's session (where there is one).
    KillView,
    /// Let the open prompt handle the key.
    PromptKey,
    /// Session picker: next entry.
    PickerNext,
    /// Session picker: previous entry.
    PickerPrev,
    /// Session picker: resume the chosen session.
    PickerResume,
    /// Session picker: close.
    PickerClose,
    /// Session picker: remove the last filter character.
    PickerPopFilter,
    /// Session picker: add a filter character.
    PickerAppendFilter(char),
    /// Model picker: next entry.
    ModelNext,
    /// Model picker: previous entry.
    ModelPrev,
    /// Model picker: apply the chosen model.
    ModelApply,
    /// Model picker: open the chosen provider.
    ModelEnterProvider,
    /// Model picker: back to the providers.
    ModelBack,
    /// Model picker: close.
    ModelClose,
    /// Completion popup: next item.
    CompletionNext,
    /// Completion popup: previous item.
    CompletionPrev,
    /// Completion popup: take the chosen item.
    CompletionAccept,
    /// Completion popup: close.
    CompletionClose,
    /// IDE: move the focus between tree and editor.
    IdeToggleFocus,
    /// IDE: next file in the tree.
    IdeTreeNext,
    /// IDE: previous file in the tree.
    IdeTreePrev,
    /// IDE: open the chosen file.
    IdeOpenSelected,
    /// IDE: the editor takes the key.
    IdeEditorInput,
    /// Enter insert mode and activate the composer.
    EnterInsert,
    /// Select the next message.
    ChatSelectNext,
    /// Select the previous message.
    ChatSelectPrev,
    /// Expand or fold the selected message.
    ToggleSelectedExpansion,
    /// Scroll the chat up by this many lines.
    ScrollUp(u16),
    /// Scroll the chat down by this many lines.
    ScrollDown(u16),
    /// Copy the selected message into the composer.
    Yank,
    /// Copy the selected message to the clipboard.
    Copy,
    /// Ask again for the selected answer.
    Regenerate,
    /// Jump to the newest message.
    JumpToBottom,
    /// Leave insert mode for normal mode.
    ExitInsert,
    /// Submit the composer's text.
    Submit,
    /// Enter command mode.
    EnterCommand,
    /// Leave command mode, clearing the composer.
    ExitCommand,
    /// Resume the most recent session.
    ResumeSession,
    /// List the sessions.
    ListSessions,
    /// Show the model picker.
    ShowModelPicker,
    /// Close the current session (where there is one).
    KillSession,
    /// Detach from the current session (where there is one).
    DetachSession,
    /// Ask the gateway for completions.
    RequestCompletion,
    /// The composer takes the key.
    ComposerInput,
}

/// The answer to a key: the action, and the new state of the prefix key and
/// of the help overlay.
#[derive(Debug, Clone, Copy, PartialEq, Eq, Structural)]
pub struct KeyDecision {
    pub action: KeyAction,
    pub prefix_mode: bool,
    pub show_help: bool,
}

/// Whether the key is Control and the character `c`.
pub open spec fn spec_ctrl(k: KeyEvent, c: char) -> bool {
    spec_bits_contain(k.modifiers.bits, CONTROL_BIT) && k.code == KeyCode::Char(c)
}

/// The command a key gives after the prefix key.
pub open spec fn spec_prefix_action(code: KeyCode) -> KeyAction {
    match code {
        KeyCode::Char(c) => if c == '1' {
            KeyAction::SwitchView(ViewState::Dashboard)
        } else if c == '2' {
            KeyAction::SwitchView(ViewState::Ide)
        } else if c == '3' {
            KeyAction::SwitchView(ViewState::Kanban)
        } else if c == '4' {
            KeyAction::SwitchView(ViewState::Chat)
        } else if c == 'h' || c == 'k' {
            KeyAction::FocusPrev
        } else if c == 'j' || c == 'l' {
            KeyAction::FocusNext
        } else if c == 'r' {
            KeyAction::NoteReload
        } else if c == 'R' {
            KeyAction::NoteRenameSession
        } else if c == 'c' || c == '"' {
            KeyAction::NewSession
        } else if c == ',' {
            KeyAction::NoteRenameWindow
        } else if c == '&' {
            KeyAction::KillView
        } else {
            KeyAction::Nothing
        },
        _ => KeyAction::Nothing,
    }
}

/// What a key does in the session picker.
pub open spec fn spec_session_picker_action(code: KeyCode) -> KeyAction {
    match code {
        KeyCode::Down => KeyAction::PickerNext,
        KeyCode::Up => KeyAction::PickerPrev,
        KeyCode::Enter => KeyAction::PickerResume,
        KeyCode::Esc => KeyAction::PickerClose,
        KeyCode::Backspace => KeyAction::PickerPopFilter,
        KeyCode::Char(c) => KeyAction::PickerAppendFilter(c),
        _ => KeyAction::Nothing,
    }
}

/// What a key does in the model picker.
pub open spec fn spec_model_picker_action(stage: ModelPickerStage, code: KeyCode) -> KeyAction {
    match code {
        KeyCode::Down => KeyAction::ModelNext,
        KeyCode::Up => KeyAction::ModelPrev,
        KeyCode::Enter => if stage == ModelPickerStage::Model { KeyAction::ModelApply } else { KeyAction::ModelEnterProvider },
        KeyCode::Esc => if stage == ModelPickerStage::Model { KeyAction::ModelBack } else { KeyAction::ModelClose },
        _ => KeyAction::Nothing,
    }
}

/// What a key does in the completion popup, where it takes it.
pub open spec fn spec_completion_action(code: KeyCode) -> Option<KeyAction> {
    match code {
        KeyCode::Tab | KeyCode::Down => Some(KeyAction::CompletionNext),
        KeyCode::BackTab | KeyCode::Up => Some(KeyAction::CompletionPrev),
        KeyCode::Enter => Some(KeyAction::CompletionAccept),
        KeyCode::Esc => Some(KeyAction::CompletionClose),
        _ => None,
    }
}

/// What a key does in the IDE view in normal mode, where it takes it.
pub open spec fn spec_ide_action(focus_tree: bool, code: KeyCode) -> Option<KeyAction> {
    match code {
        KeyCode::Tab => Some(KeyAction::IdeToggleFocus),
        KeyCode::Down => Some(if focus_tree { KeyAction::IdeTreeNext } else { KeyAction::IdeEditorInput }),
        KeyCode::Up => Some(if focus_tree { KeyAction::IdeTreePrev } else { KeyAction::IdeEditorInput }),
        KeyCode::Char(c) => if c == 'j' {
            Some(if focus_tree { KeyAction::IdeTreeNext } else { KeyAction::IdeEditorInput })
        } else if c == 'k' {
            Some(if focus_tree { KeyAction::IdeTreePrev } else { KeyAction::IdeEditorInput })
        } else if !focus_tree {
            Some(KeyAction::IdeEditorInput)
        } else {
            None
        },
        KeyCode::Enter => Some(if focus_tree { KeyAction::IdeOpenSelected } else { KeyAction::Nothing }),
        _ => if !focus_tree { Some(KeyAction::IdeEditorInput) } else { None },
    }
}

/// What a key does in normal mode, where it takes it; the help overlay is
/// toggled by `?`.
pub open spec fn spec_normal_action(code: KeyCode) -> Option<KeyAction> {
    match code {
        KeyCode::Char(c) => if c == 'i' {
            Some(KeyAction::EnterInsert)
        } else if c == 'y' {
            Some(KeyAction::Yank)
        } else if c == 'c' {
            Some(KeyAction::Copy)
        } else if c == 'r' {
            Some(KeyAction::Regenerate)
        } else if c == 'G' {
            Some(KeyAction::JumpToBottom)
        } else if c == '?' {
            Some(KeyAction::Nothing)
        } else {
            None
        },
        KeyCode::Down => Some(KeyAction::ChatSelectNext),
        KeyCode::Up => Some(KeyAction::ChatSelectPrev),
        KeyCode::Enter => Some(KeyAction::ToggleSelectedExpansion),
        KeyCode::PageUp => Some(KeyAction::ScrollUp(10)),
        KeyCode::PageDown => Some(KeyAction::ScrollDown(10)),
        _ => None,
    }
}

/// What an Alt key does to the focus, where it does something.
pub open spec fn spec_alt_action(code: KeyCode) -> Option<KeyAction> {
    match code {
        KeyCode::Left | KeyCode::Up => Some(KeyAction::FocusPrev),
        KeyCode::Right | KeyCode::Down => Some(KeyAction::FocusNext),
        KeyCode::Char(c) => if c == 'h' || c == 'k' {
            Some(KeyAction::FocusPrev)
        } else if c == 'l' || c == 'j' {
            Some(KeyAction::FocusNext)
        } else {
            None
        },
        _ => None,
    }
}

/// The decision for keys that reach the composer's level: submitting,
/// switching modes, session commands, focus keys and typing.
pub open spec fn spec_late_action(ctx: KeyContext, k: KeyEvent) -> KeyAction {
    let code = k.code;
    let typing = ctx.input_mode == InputMode::Insert || ctx.input_mode == InputMode::Command;
    if code == KeyCode::Esc && ctx.input_mode == InputMode::Insert {
        KeyAction::ExitInsert
    } else if typing && code == KeyCode::Enter && !spec_bits_contain(k.modifiers.bits, SHIFT_BIT) && !ctx.composer_empty {
        KeyAction::Submit
    } else if code == KeyCode::Char('/') && ctx.input_mode == InputMode::Normal {
        KeyAction::EnterCommand
    } else if code == KeyCode::Esc && ctx.input_mode == InputMode::Command {
        KeyAction::ExitCommand
    } else if spec_ctrl(k, 'n') {
        KeyAction::NewSession
    } else if spec_ctrl(k, 'r') {
        KeyAction::ResumeSession
    } else if spec_ctrl(k, 'l') {
        KeyAction::ListSessions
    } else if spec_ctrl(k, 'm') {
        KeyAction::ShowModelPicker
    } else if spec_ctrl(k, 'k') {
        KeyAction::KillSession
    } else if spec_ctrl(k, 'd') {
        KeyAction::DetachSession
    } else if spec_ctrl(k, 'a') {
        KeyAction::ListSessions
    } else if spec_bits_contain(k.modifiers.bits, ALT_BIT) && spec_alt_action(code) is Some {
        spec_alt_action(code).unwrap()
    } else if typing {
        if code == KeyCode::Tab {
            KeyAction::RequestCompletion
        } else if code == KeyCode::BackTab {
            KeyAction::Nothing
        } else {
            KeyAction::ComposerInput
        }
    } else {
        KeyAction::Nothing
    }
}

/// The decision for a key. In order: Control+C and Control+Q quit; Alt+A
/// arms the prefix key; an armed prefix key takes the next key as a
/// command; the help overlay takes every key (Esc closes it); an open
/// prompt, the session picker and the model picker take every key; the
/// completion popup, the IDE view and normal mode take their own keys; the
/// rest reaches the composer's level.
pub open spec fn spec_decide_key(ctx: KeyContext, k: KeyEvent) -> KeyDecision {
    let keep = KeyDecision { action: KeyAction::Nothing, prefix_mode: ctx.prefix_mode, show_help: ctx.show_help };
    if spec_ctrl(k, 'c') || spec_ctrl(k, 'q') {
        KeyDecision { action: KeyAction::Quit, ..keep }
    } else if spec_bits_contain(k.modifiers.bits, ALT_BIT) && k.code == KeyCode::Char('a') {
        KeyDecision { prefix_mode: true, ..keep }
    } else if ctx.prefix_mode {
        if k.code == KeyCode::Char('?') {
            KeyDecision { prefix_mode: false, show_help: !ctx.show_help, ..keep }
        } else {
            KeyDecision { action: spec_prefix_action(k.code), prefix_mode: false, ..keep }
        }
    } else if ctx.show_help {
        KeyDecision { show_help: k.code != KeyCode::Esc, ..keep }
    } else if ctx.prompt_active {
        KeyDecision { action: KeyAction::PromptKey, ..keep }
    } else if ctx.session_picker_visible {
        KeyDecision { action: spec_session_picker_action(k.code), ..keep }
    } else if ctx.model_picker is Some {
        KeyDecision { action: spec_model_picker_action(ctx.model_picker.unwrap(), k.code), ..keep }
    } else if ctx.completion_visible && spec_completion_action(k.code) is Some {
        KeyDecision { action: spec_completion_action(k.code).unwrap(), ..keep }
    } else if ctx.view == ViewState::Ide && ctx.input_mode == InputMode::Normal && spec_ide_action(ctx.ide_focus_tree, k.code) is Some {
        KeyDecision { action: spec_ide_action(ctx.ide_focus_tree, k.code).unwrap(), ..keep }
    } else if ctx.input_mode == InputMode::Normal && spec_normal_action(k.code) is Some {
        if k.code == KeyCode::Char('?') {
            KeyDecision { show_help: !ctx.show_help, ..keep }
        } else {
            KeyDecision { action: spec_normal_action(k.code).unwrap(), ..keep }
        }
    } else {
        KeyDecision { action: spec_late_action(ctx, k), ..keep }
    }
}

fn holds_mod(k: &KeyEvent, bit: u8) -> (r: bool)
    ensures
        r == spec_bits_contain(k.modifiers.bits, bit),
{
    k.modifiers.bits & bit == bit
}

fn ctrl(k: &KeyEvent, c: char) -> (r: bool)
    ensures
        r == spec_ctrl(*k, c),
{
    holds_mod(k, CONTROL_BIT) && k.code == KeyCode::Char(c)
}

fn prefix_action(code: KeyCode) -> (r: KeyAction)
    ensures
        r == spec_prefix_action(code),
{
    match code {
        KeyCode::Char(c) => if c == '1' {
            KeyAction::SwitchView(ViewState::Dashboard)
        } else if c == '2' {
            KeyAction::SwitchView(ViewState::Ide)
        } else if c == '3' {
            KeyAction::SwitchView(ViewState::Kanban)
        } else if c == '4' {
            KeyAction::SwitchView(ViewState::Chat)
        } else if c == 'h' || c == 'k' {
            KeyAction::FocusPrev
        } else if c == 'j' || c == 'l' {
            KeyAction::FocusNext
        } else if c == 'r' {
            KeyAction::NoteReload
        } else if c == 'R' {
            KeyAction::NoteRenameSession
        } else if c == 'c' || c == '"' {
            KeyAction::NewSession
        } else if c == ',' {
            KeyAction::NoteRenameWindow
        } else if c == '&' {
            KeyAction::KillView
        } else {
            KeyAction::Nothing
        },
        _ => KeyAction::Nothing,
    }
}

fn session_picker_action(code: KeyCode) -> (r: KeyAction)
    ensures
        r == spec_session_picker_action(code),
{
    match code {
        KeyCode::Down => KeyAction::PickerNext,
        KeyCode::Up => KeyAction::PickerPrev,
        KeyCode::Enter => KeyAction::PickerResume,
        KeyCode::Esc => KeyAction::PickerClose,
        KeyCode::Backspace => KeyAction::PickerPopFilter,
        KeyCode::Char(c) => KeyAction::PickerAppendFilter(c),
        _ => KeyAction::Nothing,
    }
}

fn model_picker_action(stage: ModelPickerStage, code: KeyCode) -> (r: KeyAction)
    ensures
        r == spec_model_picker_action(stage, code),
{
    match code {
        KeyCode::Down => KeyAction::ModelNext,
        KeyCode::Up => KeyAction::ModelPrev,
        KeyCode::Enter => if stage == ModelPickerStage::Model { KeyAction::ModelApply } else { KeyAction::ModelEnterProvider },
        KeyCode::Esc => if stage == ModelPickerStage::Model { KeyAction::ModelBack } else { KeyAction::ModelClose },
        _ => KeyAction::Nothing,
    }
}

fn completion_action(code: KeyCode) -> (r: Option<KeyAction>)
    ensures
        r == spec_completion_action(code),
{
    match code {
        KeyCode::Tab | KeyCode::Down => Some(KeyAction::CompletionNext),
        KeyCode::BackTab | KeyCode::Up => Some(KeyAction::CompletionPrev),
        KeyCode::Enter => Some(KeyAction::CompletionAccept),
        KeyCode::Esc => Some(KeyAction::CompletionClose),
        _ => None,
    }
}

fn ide_action(focus_tree: bool, code: KeyCode) -> (r: Option<KeyAction>)
    ensures
        r == spec_ide_action(focus_tree, code),
{
    match code {
        KeyCode::Tab => Some(KeyAction::IdeToggleFocus),
        KeyCode::Down => Some(if focus_tree { KeyAction::IdeTreeNext } else { KeyAction::IdeEditorInput }),
        KeyCode::Up => Some(if focus_tree { KeyAction::IdeTreePrev } else { KeyAction::IdeEditorInput }),
        KeyCode::Char(c) => if c == 'j' {
            Some(if focus_tree { KeyAction::IdeTreeNext } else { KeyAction::IdeEditorInput })
        } else if c == 'k' {
            Some(if focus_tree { KeyAction::IdeTreePrev } else { KeyAction::IdeEditorInput })
        } else if !focus_tree {
            Some(KeyAction::IdeEditorInput)
        } else {
            None
        },
        KeyCode::Enter => Some(if focus_tree { KeyAction::IdeOpenSelected } else { KeyAction::Nothing }),
        _ => if !focus_tree { Some(KeyAction::IdeEditorInput) } else { None },
    }
}

fn normal_action(code: KeyCode) -> (r: Option<KeyAction>)
    ensures
        r == spec_normal_action(code),
{
    match code {
        KeyCode::Char(c) => if c == 'i' {
            Some(KeyAction::EnterInsert)
        } else if c == 'y' {
            Some(KeyAction::Yank)
        } else if c == 'c' {
            Some(KeyAction::Copy)
        } else if c == 'r' {
            Some(KeyAction::Regenerate)
        } else if c == 'G' {
            Some(KeyAction::JumpToBottom)
        } else if c == '?' {
            Some(KeyAction::Nothing)
        } else {
            None
        },
        KeyCode::Down => Some(KeyAction::ChatSelectNext),
        KeyCode::Up => Some(KeyAction::ChatSelectPrev),
        KeyCode::Enter => Some(KeyAction::ToggleSelectedExpansion),
        KeyCode::PageUp => Some(KeyAction::ScrollUp(10)),
        KeyCode::PageDown => Some(KeyAction::ScrollDown(10)),
        _ => None,
    }
}

fn alt_action(code: KeyCode) -> (r: Option<KeyAction>)
    ensures
        r == spec_alt_action(code),
{
    match code {
        KeyCode::Left | KeyCode::Up => Some(KeyAction::FocusPrev),
        KeyCode::Right | KeyCode::Down => Some(KeyAction::FocusNext),
        KeyCode::Char(c) => if c == 'h' || c == 'k' {
            Some(KeyAction::FocusPrev)
        } else if c == 'l' || c == 'j' {
            Some(KeyAction::FocusNext)
        } else {
            None
        },
        _ => None,
    }
}

fn late_action(ctx: &KeyContext, k: &KeyEvent) -> (r: KeyAction)
    ensures
        r == spec_late_action(*ctx, *k),
{
    let code = k.code;
    let typing = ctx.input_mode == InputMode::Insert || ctx.input_mode == InputMode::Command;
    if code == KeyCode::Esc && ctx.input_mode == InputMode::Insert {
        KeyAction::ExitInsert
    } else if typing && code == KeyCode::Enter && !holds_mod(k, SHIFT_BIT) && !ctx.composer_empty {
        KeyAction::Submit
    } else if code == KeyCode::Char('/') && ctx.input_mode == InputMode::Normal {
        KeyAction::EnterCommand
    } else if code == KeyCode::Esc && ctx.input_mode == InputMode::Command {
        KeyAction::ExitCommand
    } else if ctrl(k, 'n') {
        KeyAction::NewSession
    } else if ctrl(k, 'r') {
        KeyAction::ResumeSession
    } else if ctrl(k, 'l') {
        KeyAction::ListSessions
    } else if ctrl(k, 'm') {
        KeyAction::ShowModelPicker
    } else if ctrl(k, 'k') {
        KeyAction::KillSession
    } else if ctrl(k, 'd') {
        KeyAction::DetachSession
    } else if ctrl(k, 'a') {
        KeyAction::ListSessions
    } else {
        let alt = if holds_mod(k, ALT_BIT) { alt_action(code) } else { None };
        match alt {
            Some(a) => a,
            None => if typing {
                if code == KeyCode::Tab {
                    KeyAction::RequestCompletion
                } else if code == KeyCode::BackTab {
                    KeyAction::Nothing
                } else {
                    KeyAction::ComposerInput
                }
            } else {
                KeyAction::Nothing
            },
        }
    }
}

/// The decision for a key, as `spec_decide_key` states it.
pub fn decide_key(ctx: &KeyContext, k: &KeyEvent) -> (r: KeyDecision)
    ensures
        r == spec_decide_key(*ctx, *k),
{
    let keep = KeyDecision { action: KeyAction::Nothing, prefix_mode: ctx.prefix_mode, show_help: ctx.show_help };
    if ctrl(k, 'c') || ctrl(k, 'q') {
        return KeyDecision { action: KeyAction::Quit, ..keep };
    }
    if holds_mod(k, ALT_BIT) && k.code == KeyCode::Char('a') {
        return KeyDecision { prefix_mode: true, ..keep };
    }
    if ctx.prefix_mode {
        if k.code == KeyCode::Char('?') {
            return KeyDecision { prefix_mode: false, show_help: !ctx.show_help, ..keep };
        }
        return KeyDecision { action: prefix_action(k.code), prefix_mode: false, ..keep };
    }
    if ctx.show_help {
        return KeyDecision { show_help: k.code != KeyCode::Esc, ..keep };
    }
    if ctx.prompt_active {
        return KeyDecision { action: KeyAction::PromptKey, ..keep };
    }
    if ctx.session_picker_visible {
        return KeyDecision { action: session_picker_action(k.code), ..keep };
    }
    if let Some(stage) = ctx.model_picker {
        return KeyDecision { action: model_picker_action(stage, k.code), ..keep };
    }
    if ctx.completion_visible {
        if let Some(a) = completion_action(k.code) {
            return KeyDecision { action: a, ..keep };
        }
    }
    if ctx.view == ViewState::Ide && ctx.input_mode == InputMode::Normal {
        if let Some(a) = ide_action(ctx.ide_focus_tree, k.code) {
            return KeyDecision { action: a, ..keep };
        }
    }
    if ctx.input_mode == InputMode::Normal {
        if let Some(a) = normal_action(k.code) {
            if k.code == KeyCode::Char('?') {
                return KeyDecision { show_help: !ctx.show_help, ..keep };
            }
            return KeyDecision { action: a, ..keep };
        }
    }
    KeyDecision { action: late_action(ctx, k), ..keep }
}

/// Law: Control+C quits whatever is on screen.
pub proof fn lemma_ctrl_c_always_quits(ctx: KeyContext, k: KeyEvent)
    requires
        k.code == KeyCode::Char('c'),
        spec_bits_contain(k.modifiers.bits, CONTROL_BIT),
    ensures
        spec_decide_key(ctx, k).action == KeyAction::Quit,
{
}

/// Law: the prefix key is one-shot: after a command key it is disarmed.
pub proof fn lemma_prefix_is_one_shot(ctx: KeyContext, k: KeyEvent)
    requires
        ctx.prefix_mode,
        !spec_ctrl(k, 'c') && !spec_ctrl(k, 'q'),
        !(spec_bits_contain(k.modifiers.bits, ALT_BIT) && k.code == KeyCode::Char('a')),
    ensures
        !spec_decide_key(ctx, k).prefix_mode,
{
}

/// Law: while a prompt waits (and neither the prefix key nor the help
/// overlay is in the way), every key other than the quit keys and Alt+A goes
/// to the prompt.
pub proof fn lemma_prompt_takes_keys(ctx: KeyContext, k: KeyEvent)
    requires
        ctx.prompt_active && !ctx.prefix_mode && !ctx.show_help,
        !spec_ctrl(k, 'c') && !spec_ctrl(k, 'q'),
        !(spec_bits_contain(k.modifiers.bits, ALT_BIT) && k.code == KeyCode::Char('a')),
    ensures
        spec_decide_key(ctx, k).action == KeyAction::PromptKey,
{
}

} // verus!
