use hermes_tui_rust::protocol::types::{
    GatewayTranscriptMessage, MessageRole, SessionCreateResponse, SessionInfo, SessionListItem,
    SessionResumeResponse, SlashExecResponse, TuiRequest,
};
use hermes_tui_rust::state::commands::{
    adopt_created_session, adopt_resumed_session, apply_chat_command, classify_submission,
    completion_request_for_input, completion_step, model_switch, needs_reconnect,
    plan_slash_command, prompt_request, push_sample, ready_request, regenerate_prompt,
    resume_plan, slash_exec_notices, slash_replace_from, stderr_level, token_speed, ChatEffect,
    CompletionStep, ProcessState, Reconnect, SlashPlan, StderrLevel, Submission,
};
use hermes_tui_rust::state::config::InputMode;
use hermes_tui_rust::state::messages::{Message, MessageHistory};
use hermes_tui_rust::state::session::{Session, SessionManager};
use hermes_tui_rust::ui::cards::CardManager;
use hermes_tui_rust::ui::chat::{ChatCommand, ChatComponent, ChatState};

#[test]
fn submissions_are_told_apart() {
    assert_eq!(classify_submission("", InputMode::Insert), Submission::Nothing);
    assert_eq!(classify_submission("/help", InputMode::Insert), Submission::Slash("help".to_string()));
    assert_eq!(classify_submission("help", InputMode::Command), Submission::Slash("help".to_string()));
    assert_eq!(classify_submission("hi there", InputMode::Insert), Submission::Prompt("hi there".to_string()));
}

#[test]
fn slash_commands_are_planned() {
    assert_eq!(plan_slash_command("model", "s1"), SlashPlan::OpenModelPicker);
    assert_eq!(plan_slash_command("model gpt-4", "s1"), SlashPlan::OpenModelPicker);
    assert_eq!(plan_slash_command("clear", "s1"), SlashPlan::ClearTranscript);
    match plan_slash_command("help", "s1") {
        SlashPlan::Exec { request: TuiRequest::SlashExec(r), echo } => {
            assert_eq!(r.session_id, "s1");
            assert_eq!(r.command, "help");
            assert_eq!(echo, "/help");
        }
        other => panic!("unexpected {other:?}"),
    }
    match plan_slash_command("models", "s1") {
        SlashPlan::Exec { .. } => {}
        other => panic!("unexpected {other:?}"),
    }
}

#[test]
fn prompt_requests_carry_session_and_text() {
    match prompt_request("s9", "hello") {
        TuiRequest::PromptSubmit(p) => {
            assert_eq!(p.session_id, "s9");
            assert_eq!(p.text, "hello");
            assert!(p.images.is_none());
        }
        other => panic!("unexpected {other:?}"),
    }
}

fn history_of(items: &[(MessageRole, &str)]) -> MessageHistory {
    let mut h = MessageHistory::new();
    for (role, text) in items {
        h.push(Message::new(*role, text));
    }
    h
}

#[test]
fn regenerate_finds_the_last_user_prompt_before() {
    let h = history_of(&[
        (MessageRole::User, "one"),
        (MessageRole::Assistant, "a1"),
        (MessageRole::User, "two"),
        (MessageRole::Assistant, "a2"),
    ]);
    assert_eq!(regenerate_prompt(&h, 3), Some("two".to_string()));
    assert_eq!(regenerate_prompt(&h, 2), Some("one".to_string()));
    assert_eq!(regenerate_prompt(&h, 0), None);
    assert_eq!(regenerate_prompt(&h, 99), Some("two".to_string()));
}

#[test]
fn chat_commands_change_the_history() {
    let mut h = history_of(&[
        (MessageRole::User, "one"),
        (MessageRole::Assistant, "a1"),
        (MessageRole::User, "two"),
    ]);
    let chat = ChatComponent::with_defaults();
    assert_eq!(apply_chat_command(&mut h, &chat, ChatCommand::Noop), ChatEffect::Nothing);
    assert_eq!(
        apply_chat_command(&mut h, &chat, ChatCommand::Yank("x".to_string())),
        ChatEffect::Compose("x".to_string())
    );
    assert_eq!(
        apply_chat_command(&mut h, &chat, ChatCommand::Regenerate { from_index: 1 }),
        ChatEffect::Resubmit("one".to_string())
    );
    assert_eq!(h.len(), 1);
    assert_eq!(apply_chat_command(&mut h, &chat, ChatCommand::Delete { from_index: 0 }), ChatEffect::Resync);
    assert!(h.is_empty());
}

#[test]
fn edit_cuts_at_the_chat_message() {
    let mut h = history_of(&[(MessageRole::User, "one"), (MessageRole::User, "two")]);
    let mut chat = ChatComponent::with_defaults();
    let mut state = ChatState::new();
    let cards = CardManager::with_defaults();
    let mut m = Message::user("two");
    m.message_id = Some("m2".to_string());
    chat.add_message(Message::user("one"), &mut state, &cards);
    chat.add_message(m, &mut state, &cards);
    let cmd = ChatCommand::Edit { message_id: "m2".to_string(), new_content: "two".to_string() };
    assert_eq!(apply_chat_command(&mut h, &chat, cmd), ChatEffect::Resync);
    assert_eq!(h.len(), 1);
    let missing = ChatCommand::Edit { message_id: "nope".to_string(), new_content: String::new() };
    assert_eq!(apply_chat_command(&mut h, &chat, missing), ChatEffect::Nothing);
    assert_eq!(h.len(), 1);
}

#[test]
fn completion_requests() {
    assert_eq!(
        completion_request_for_input("/mo"),
        Some(TuiRequest::CompleteSlash { text: "/mo".to_string() })
    );
    assert_eq!(
        completion_request_for_input("open ./src/ma"),
        Some(TuiRequest::CompletePath { word: "./src/ma".to_string() })
    );
    assert_eq!(
        completion_request_for_input("see ~/notes"),
        Some(TuiRequest::CompletePath { word: "~/notes".to_string() })
    );
    assert_eq!(completion_request_for_input("hello world"), None);
    assert_eq!(completion_request_for_input(""), None);
}

#[test]
fn completion_steps() {
    let mut last = None;
    assert_eq!(
        completion_step(&mut last, "he", InputMode::Command, false),
        CompletionStep::Send(TuiRequest::CompleteSlash { text: "/he".to_string() })
    );
    assert_eq!(last, Some("/he".to_string()));
    assert_eq!(completion_step(&mut last, "he", InputMode::Command, true), CompletionStep::Unchanged);
    assert_eq!(completion_step(&mut last, "plain", InputMode::Insert, true), CompletionStep::ClosePopup);
    assert_eq!(last, None);
    assert_eq!(completion_step(&mut last, "plain", InputMode::Insert, false), CompletionStep::Idle);
    assert_eq!(last, Some("plain".to_string()));
}

#[test]
fn replace_from_positions() {
    assert_eq!(slash_replace_from(InputMode::Command, Some(3)), 2);
    assert_eq!(slash_replace_from(InputMode::Command, Some(0)), 0);
    assert_eq!(slash_replace_from(InputMode::Command, None), 0);
    assert_eq!(slash_replace_from(InputMode::Insert, Some(3)), 3);
    assert_eq!(slash_replace_from(InputMode::Insert, None), 1);
}

fn list_item(id: &str) -> SessionListItem {
    SessionListItem {
        id: id.to_string(),
        message_count: 0,
        preview: String::new(),
        started_at: 0,
        title: String::new(),
        source: None,
    }
}

#[test]
fn ready_resumes_first_or_creates() {
    match ready_request(&Some(vec![list_item("s1"), list_item("s2")])) {
        TuiRequest::SessionResume(r) => assert_eq!(r.session_id, "s1"),
        other => panic!("unexpected {other:?}"),
    }
    assert!(matches!(ready_request(&Some(Vec::new())), TuiRequest::SessionCreate(_)));
    assert!(matches!(ready_request(&None), TuiRequest::SessionCreate(_)));
}

#[test]
fn model_switch_needs_a_name() {
    assert!(model_switch("").is_none());
    let (req, notice) = model_switch("gpt-4").unwrap();
    assert_eq!(req, TuiRequest::ConfigSet { key: "model".to_string(), value: "gpt-4".to_string() });
    assert_eq!(notice, "Model switched to: gpt-4");
}

#[test]
fn slash_output_and_warning_notices() {
    let r = SlashExecResponse { output: Some("ok".to_string()), warning: Some("careful".to_string()) };
    assert_eq!(slash_exec_notices(&r), vec!["ok".to_string(), "Warning: careful".to_string()]);
    let none = SlashExecResponse { output: None, warning: None };
    assert!(slash_exec_notices(&none).is_empty());
}

#[test]
fn resume_plan_picks_another_session() {
    let manager = SessionManager::new();
    let (req, notice) = resume_plan(&manager);
    assert!(req.is_none());
    assert_eq!(notice, "No previous sessions to resume");
    let mut manager = SessionManager::new();
    manager.add_session(Session::with_name("old", "Old one"));
    manager.set_current_session("cur");
    let (req, notice) = resume_plan(&manager);
    assert_eq!(req, Some(TuiRequest::SessionResume(hermes_tui_rust::protocol::types::SessionResumeRequest { session_id: "old".to_string() })));
    assert_eq!(notice, "Resuming session: Old one");
}

#[test]
fn created_sessions_are_adopted() {
    let mut manager = SessionManager::new();
    let response = SessionCreateResponse {
        session_id: "new".to_string(),
        info: Some(SessionInfo {
            id: None,
            model: Some("m1".to_string()),
            title: Some("Title".to_string()),
            started_at: None,
            message_count: None,
        }),
    };
    let (model, provider) = adopt_created_session(&mut manager, &response);
    assert_eq!(model, Some("m1".to_string()));
    assert_eq!(provider, None);
    assert_eq!(manager.current_session_id(), Some(&"new".to_string()));
    assert_eq!(manager.get_session("new").unwrap().name, Some("Title".to_string()));
}

#[test]
fn resumed_sessions_load_their_transcript() {
    let mut manager = SessionManager::new();
    let mut history = MessageHistory::new();
    history.push(Message::user("stale"));
    let response = SessionResumeResponse {
        session_id: "s".to_string(),
        messages: Some(vec![
            GatewayTranscriptMessage { context: None, name: None, role: MessageRole::User, text: Some("q".to_string()) },
            GatewayTranscriptMessage { context: None, name: None, role: MessageRole::Assistant, text: None },
        ]),
        info: None,
        running: None,
        inflight: None,
    };
    let (model, _provider, loaded) = adopt_resumed_session(&mut manager, &mut history, &response);
    assert!(model.is_none());
    assert!(loaded);
    assert_eq!(history.len(), 2);
    assert_eq!(history.get(0).unwrap().content(), "q");
    assert_eq!(history.get(1).unwrap().content(), "");
    assert!(manager.contains_session("s"));
}

#[test]
fn reconnection_gives_up_after_five_attempts() {
    let mut r = Reconnect::new();
    assert_eq!(r.begin(), Some("Connection lost. Reconnecting (attempt 1)...".to_string()));
    assert_eq!(r.begin(), None);
    assert_eq!(r.finish(false), None);
    assert!(r.reconnecting);
    r.reconnecting = false;
    r.attempts = 4;
    assert!(r.begin().is_some());
    assert!(r.finish(false).is_some());
    assert!(!r.reconnecting);
    assert!(r.begin().is_some());
    assert_eq!(r.finish(true), None);
    assert!(!r.reconnecting);
}

#[test]
fn reconnect_is_needed_when_the_process_is_gone() {
    assert!(needs_reconnect(false, ProcessState::Exited, false));
    assert!(needs_reconnect(false, ProcessState::Unknown, false));
    assert!(!needs_reconnect(false, ProcessState::Running, true));
    assert!(needs_reconnect(false, ProcessState::Absent, true));
    assert!(!needs_reconnect(false, ProcessState::Absent, false));
    assert!(!needs_reconnect(true, ProcessState::Exited, true));
}

#[test]
fn samples_keep_the_last_thousand() {
    let mut h: Vec<u64> = (0..1000).collect();
    push_sample(&mut h, 1000);
    assert_eq!(h.len(), 1000);
    assert_eq!(h[0], 1);
    assert_eq!(h[999], 1000);
    let mut small = vec![1u64];
    push_sample(&mut small, 2);
    assert_eq!(small, vec![1, 2]);
    assert_eq!(token_speed(true, 73), 43);
    assert_eq!(token_speed(false, 73), 0);
}

#[test]
fn stderr_levels() {
    assert_eq!(stderr_level(Some("ERROR")), StderrLevel::Warn);
    assert_eq!(stderr_level(Some("WARN")), StderrLevel::Warn);
    assert_eq!(stderr_level(Some("DEBUG")), StderrLevel::Debug);
    assert_eq!(stderr_level(Some("TRACE")), StderrLevel::Info);
    assert_eq!(stderr_level(None), StderrLevel::Info);
}
