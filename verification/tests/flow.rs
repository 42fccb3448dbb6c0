use hermes_tui_rust::handlers::events::{KeyCode, KeyEvent, KeyModifiers};
use hermes_tui_rust::protocol::types::{MessageRole, TuiRequest};
use hermes_tui_rust::state::commands::{adopt_activated_session, pane_focus, switch_view};
use hermes_tui_rust::state::config::{FocusPane, InputMode};
use hermes_tui_rust::state::conversation::{ChatUpdate, Conversation};
use hermes_tui_rust::state::keymap::{decide_key, KeyAction, KeyContext, ViewState};
use hermes_tui_rust::state::messages::{Message, MessageHistory};
use hermes_tui_rust::state::prompt_flow::PromptFlow;
use hermes_tui_rust::state::session::SessionManager;
use hermes_tui_rust::ui::cards::{CardManager, ToolStatus};
use hermes_tui_rust::ui::composer::InputComposer;
use hermes_tui_rust::ui::prompts::PromptManager;
use hermes_tui_rust::ui::subagent::{SubagentList, SubagentStatus};

fn context() -> KeyContext {
    KeyContext {
        prefix_mode: false,
        show_help: false,
        prompt_active: false,
        session_picker_visible: false,
        model_picker: None,
        completion_visible: false,
        view: ViewState::Chat,
        ide_focus_tree: false,
        input_mode: InputMode::Insert,
        composer_empty: true,
    }
}

fn key(code: KeyCode, modifiers: KeyModifiers) -> KeyEvent {
    KeyEvent::new(code, modifiers)
}

#[test]
fn ctrl_c_quits_even_at_a_prompt() {
    let mut ctx = context();
    ctx.prompt_active = true;
    ctx.show_help = true;
    let d = decide_key(&ctx, &key(KeyCode::Char('c'), KeyModifiers::control()));
    assert_eq!(d.action, KeyAction::Quit);
}

#[test]
fn prefix_key_applies_to_one_key_only() {
    let ctx = context();
    let d = decide_key(&ctx, &key(KeyCode::Char('a'), KeyModifiers::alt()));
    assert!(d.prefix_mode);
    let mut after = ctx;
    after.prefix_mode = true;
    let d = decide_key(&after, &key(KeyCode::Char('1'), KeyModifiers::none()));
    assert_eq!(d.action, KeyAction::SwitchView(ViewState::Dashboard));
    assert!(!d.prefix_mode);
}

#[test]
fn open_prompt_takes_the_keys() {
    let mut ctx = context();
    ctx.prompt_active = true;
    let d = decide_key(&ctx, &key(KeyCode::Char('y'), KeyModifiers::none()));
    assert_eq!(d.action, KeyAction::PromptKey);
}

#[test]
fn approval_is_answered_once() {
    let mut flow = PromptFlow::new(PromptManager::with_defaults());
    let mut composer = InputComposer::with_defaults();
    composer.set_input_mode(InputMode::Insert);
    flow.approval_request("r1", "shell", "run ls?", &mut composer);
    assert!(flow.prompts().has_active_prompt());
    assert!(!composer.is_active());
    assert_eq!(composer.input_mode(), InputMode::Normal);
    let first = flow.handle_key(KeyCode::Char('y'));
    match first.reply {
        Some(TuiRequest::ApprovalRespond(a)) => {
            assert_eq!(a.request_id, "r1");
            assert!(a.approved);
            assert_eq!(a.choice, "once");
        }
        other => panic!("unexpected {other:?}"),
    }
    let second = flow.handle_key(KeyCode::Char('y'));
    assert!(second.reply.is_none());
}

#[test]
fn secret_is_sent_on_enter() {
    let mut flow = PromptFlow::new(PromptManager::with_defaults());
    let mut composer = InputComposer::with_defaults();
    flow.secret_request("s1", "API key", &mut composer);
    assert!(!composer.is_active());
    flow.handle_key(KeyCode::Char('k'));
    flow.handle_key(KeyCode::Char('1'));
    let done = flow.handle_key(KeyCode::Enter);
    match done.reply {
        Some(TuiRequest::SecretRespond(s)) => {
            assert_eq!(s.request_id, "s1");
            assert_eq!(s.value, "k1");
        }
        other => panic!("unexpected {other:?}"),
    }
    assert!(done.resume_typing);
}

fn conversation() -> Conversation {
    Conversation::new(MessageHistory::new(), CardManager::with_defaults(), SubagentList::new())
}

#[test]
fn streaming_deltas_extend_one_message() {
    let mut c = conversation();
    c.message_start();
    match c.message_delta(Some("s"), "Hel") {
        ChatUpdate::Added(m) => assert_eq!(m.message_id.as_deref(), Some("s:streaming")),
        other => panic!("unexpected {other:?}"),
    }
    match c.message_delta(Some("s"), "lo") {
        ChatUpdate::Updated(m) => assert_eq!(m.content, "Hello"),
        other => panic!("unexpected {other:?}"),
    }
    assert_eq!(c.messages().len(), 1);
    let done = c.message_complete("Hello", None, None, None);
    assert_eq!(done.role, MessageRole::Assistant);
    assert!(!c.is_thinking());
}

#[test]
fn tool_calls_update_their_card_and_message() {
    let mut c = conversation();
    let started = c.tool_start("read_file", "t1", Some("{\"path\":\"a\"}"));
    assert_eq!(started.content, "Tool 'read_file' started...");
    assert!(c.is_thinking());
    assert!(c.tool_progress("t1", "reading"));
    match c.tool_complete("t1", "ok", Some(150), None, "0.2") {
        ChatUpdate::Updated(m) => assert_eq!(m.content, "Tool completed: ok (150ms)"),
        other => panic!("unexpected {other:?}"),
    }
    assert!(!c.is_thinking());
    assert_eq!(c.cards().find_by_call_id("t1").unwrap().status(), Some(ToolStatus::Completed));
}

#[test]
fn subagents_start_and_finish() {
    let mut c = conversation();
    let m = c.subagent_start(None, 2, "look around", None);
    assert_eq!(m.message_id.as_deref(), Some("subagent:agent-2"));
    assert_eq!(c.subagents().active_count(), 1);
    let done = c.subagent_complete(Some("agent-2"), "look around", None, Some("failed"), None).unwrap();
    assert_eq!(done.content, "Subagent 'agent-2' Failed: ");
    assert_eq!(c.subagents().agents()[0].status, SubagentStatus::Failed);
}

#[test]
fn reasoning_goes_to_the_streamed_message() {
    let mut c = conversation();
    c.message_delta(Some("s"), "x");
    let m = c.append_reasoning("thinking").unwrap();
    assert_eq!(m.reasoning.as_deref(), Some("thinking"));
    assert_eq!(c.streaming_reasoning(), "thinking");
    assert!(c.append_reasoning("").is_none());
}

#[test]
fn focus_decides_the_mode() {
    assert_eq!(pane_focus(FocusPane::Composer), (InputMode::Insert, true));
    assert_eq!(pane_focus(FocusPane::Chat), (InputMode::Normal, false));
    assert_eq!(pane_focus(FocusPane::Sidebar), (InputMode::Normal, false));
    assert_eq!(switch_view(ViewState::Chat, ViewState::Ide), Some(ViewState::Chat));
    assert_eq!(switch_view(ViewState::Ide, ViewState::Ide), None);
}

#[test]
fn activated_sessions_append_their_transcript() {
    let mut manager = SessionManager::new();
    let mut history = MessageHistory::new();
    history.push(Message::user("kept"));
    let items = Some(vec![hermes_tui_rust::protocol::types::GatewayTranscriptMessage {
        context: None,
        name: None,
        role: MessageRole::Assistant,
        text: Some("hi".to_string()),
    }]);
    assert!(adopt_activated_session(&mut manager, &mut history, "a", &items));
    assert_eq!(history.len(), 2);
    assert_eq!(history.get(1).unwrap().content(), "hi");
    assert_eq!(manager.current_session_id(), Some(&"a".to_string()));
    assert!(!adopt_activated_session(&mut manager, &mut history, "a", &None));
    assert_eq!(manager.len(), 1);
}

#[test]
fn tool_completion_without_a_card_takes_any_result() {
    let mut c = conversation();
    let result = format!("{}é{}", "a".repeat(116), "b".repeat(20));
    match c.tool_complete("nocard", &result, None, None, "0.0") {
        ChatUpdate::Added(m) => assert_eq!(m.content, format!("Tool completed: {result}")),
        other => panic!("unexpected {other:?}"),
    }
}

#[test]
fn questions_and_passwords_stop_typing() {
    let mut flow = PromptFlow::new(PromptManager::with_defaults());
    let mut composer = InputComposer::with_defaults();
    composer.set_input_mode(InputMode::Insert);
    flow.clarify_request("c1", "which?", None, &mut composer);
    assert!(!composer.is_active());
    assert_eq!(composer.input_mode(), InputMode::Normal);
    composer.set_active(true);
    composer.set_input_mode(InputMode::Insert);
    flow.sudo_request("p1", &mut composer);
    assert!(!composer.is_active());
    assert_eq!(composer.prompt(), ">> ");
}
