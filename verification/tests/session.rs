use hermes_tui_rust::protocol::types::SessionListItem;
use hermes_tui_rust::state::messages::Message;
use hermes_tui_rust::state::session::{Session, SessionManager};

#[test]
fn test_session_creation() {
    let session = Session::new("test-session");
    assert_eq!(session.id, "test-session");
    assert!(session.name.is_none());
    assert!(session.messages.is_empty());
    assert!(session.is_active == false);
    assert!(session.is_running == false);
}

#[test]
fn test_session_with_name() {
    let session = Session::with_name("test-session", "Test Session");
    assert_eq!(session.id, "test-session");
    assert_eq!(session.name, Some("Test Session".to_string()));
}

#[test]
fn test_session_add_message() {
    let mut session = Session::new("test-session");
    session.add_message(Message::user("Hello"));
    session.add_message(Message::assistant("World"));
    assert_eq!(session.message_count(), 2);
    assert_eq!(session.last_message().unwrap().content(), "World");
}

#[test]
fn test_session_activate_deactivate() {
    let mut session = Session::new("test-session");
    assert!(!session.is_active);
    session.activate();
    assert!(session.is_active);
    session.deactivate();
    assert!(!session.is_active);
}

#[test]
fn test_session_manager_creation() {
    let manager = SessionManager::new();
    assert!(manager.is_empty());
    assert!(manager.current_session_id().is_none());
}

#[test]
fn test_session_manager_create_session() {
    let mut manager = SessionManager::new();
    let session = manager.create_session();
    assert_eq!(session.id, "session-1");
    assert!(manager.current_session_id().is_some());
    assert_eq!(manager.len(), 1);
}

#[test]
fn test_session_manager_switch_session() {
    let mut manager = SessionManager::new();
    let _session1 = manager.create_session();
    let session2 = manager.create_session_with_name("Session 2");
    let session2_id = session2.id.clone();
    assert!(manager.switch_session(&session2_id).is_some());
    assert_eq!(manager.current_session_id(), Some(&session2_id));
}

#[test]
fn test_session_manager_session_list() {
    let mut manager = SessionManager::new();
    manager.create_session();
    manager.create_session();
    manager.create_session();
    let list = manager.session_list();
    assert_eq!(list.len(), 3);
}

#[test]
fn test_session_manager_most_recent() {
    let mut manager = SessionManager::new();
    manager.create_session_with_name("Session 1");
    manager.create_session_with_name("Session 2");
    let most_recent = manager.most_recent_session();
    assert!(most_recent.is_some());
}

#[test]
fn generated_ids_count_up_and_restart_after_clear() {
    let mut manager = SessionManager::new();
    assert_eq!(manager.generate_session_id(), "session-1");
    assert_eq!(manager.generate_session_id(), "session-2");
    manager.clear_all();
    assert_eq!(manager.generate_session_id(), "session-1");
}

#[test]
fn current_session_is_never_removed() {
    let mut manager = SessionManager::new();
    let id = manager.create_session().id.clone();
    assert!(manager.remove_session(&id).is_none());
    assert!(manager.contains_session(&id));
    manager.add_session(Session::new("other"));
    assert!(manager.remove_session("other").is_some());
    assert!(!manager.contains_session("other"));
}

#[test]
fn set_sessions_adds_only_unknown_ids_titled() {
    let mut manager = SessionManager::new();
    manager.add_session(Session::with_name("a", "kept"));
    let item = |id: &str, title: &str| SessionListItem {
        id: id.to_string(),
        message_count: 0,
        preview: String::new(),
        started_at: 0,
        title: title.to_string(),
        source: None,
    };
    manager.set_sessions(vec![item("a", "new title"), item("b", "Bee")]);
    assert_eq!(manager.len(), 2);
    assert_eq!(manager.get_session("a").unwrap().name, Some("kept".to_string()));
    assert_eq!(manager.get_session("b").unwrap().name, Some("Bee".to_string()));
}

#[test]
fn clearing_the_current_session_keeps_the_sessions() {
    let mut manager = SessionManager::new();
    manager.create_session();
    manager.clear_current_session();
    assert!(manager.current_session_id().is_none());
    assert_eq!(manager.len(), 1);
}
