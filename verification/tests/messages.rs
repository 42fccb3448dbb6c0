use hermes_tui_rust::protocol::types::MessageRole;
use hermes_tui_rust::state::messages::{Message, MessageHistory};

#[test]
fn test_message_creation() {
    let msg = Message::user("Hello, world!");
    assert!(msg.is_user());
    assert_eq!(msg.content(), "Hello, world!");
    assert!(!msg.is_streaming());
    assert!(msg.complete);
}

#[test]
fn test_assistant_message() {
    let msg = Message::assistant("Hello from assistant!");
    assert!(msg.is_assistant());
    assert_eq!(msg.content(), "Hello from assistant!");
}

#[test]
fn test_tool_message() {
    let msg = Message::tool("Tool output", "search_files");
    assert!(msg.is_tool());
    assert_eq!(msg.content(), "Tool output");
    assert_eq!(msg.name, Some("search_files".to_string()));
}

#[test]
fn test_message_history_new() {
    let history = MessageHistory::new();
    assert!(history.is_empty());
    assert_eq!(history.len(), 0);
}

#[test]
fn test_message_history_push() {
    let mut history = MessageHistory::new();
    history.push(Message::user("First message"));
    history.push(Message::assistant("Second message"));
    assert_eq!(history.len(), 2);
    assert!(!history.is_empty());
}

#[test]
fn test_message_history_capacity() {
    let mut history = MessageHistory::with_capacity(3);
    history.push(Message::user("1"));
    history.push(Message::user("2"));
    history.push(Message::user("3"));
    history.push(Message::user("4"));
    assert_eq!(history.len(), 3);
    assert_eq!(history.get(0).unwrap().content(), "2");
    assert_eq!(history.get(1).unwrap().content(), "3");
    assert_eq!(history.get(2).unwrap().content(), "4");
}

#[test]
fn test_message_history_contains_id() {
    let mut history = MessageHistory::new();
    let mut msg = Message::new(MessageRole::Assistant, "Test");
    msg.message_id = Some("msg-123".to_string());
    history.push(msg);
    assert!(history.contains_id("msg-123"));
    assert!(!history.contains_id("msg-456"));
}

#[test]
fn upsert_replaces_then_find_returns_it() {
    let mut history = MessageHistory::new();
    let mut a = Message::assistant("draft");
    a.message_id = Some("m1".to_string());
    history.upsert_by_id(a);
    let mut b = Message::assistant("final");
    b.message_id = Some("m1".to_string());
    history.upsert_by_id(b);
    assert_eq!(history.len(), 1);
    assert_eq!(history.find_by_id("m1").unwrap().content(), "final");
    assert_eq!(history.position_of_id("m1"), Some(0));
    assert_eq!(history.position_of_id("m2"), None);
}

#[test]
fn truncate_from_keeps_the_prefix() {
    let mut history = MessageHistory::new();
    history.push(Message::user("a"));
    history.push(Message::assistant("b"));
    history.push(Message::user("c"));
    history.truncate_from(1);
    assert_eq!(history.len(), 1);
    assert_eq!(history.get(0).unwrap().content(), "a");
    history.truncate_from(5);
    assert_eq!(history.len(), 1);
}

#[test]
fn edit_tool_messages_are_recognised_by_name() {
    assert!(Message::tool("ok", "Edit_File").is_edit_tool_message());
    assert!(Message::tool("ok", "write").is_edit_tool_message());
    assert!(!Message::tool("ok", "search").is_edit_tool_message());
    assert!(!Message::user("edit").is_edit_tool_message());
}

#[test]
fn range_and_last_n() {
    let mut history = MessageHistory::new();
    for t in ["1", "2", "3", "4"] {
        history.push(Message::user(t));
    }
    let r = history.range(1, 10);
    assert_eq!(r.len(), 3);
    assert_eq!(r[0].content(), "2");
    let l = history.last_n(2);
    assert_eq!(l.len(), 2);
    assert_eq!(l[0].content(), "3");
    assert_eq!(l[1].content(), "4");
}
