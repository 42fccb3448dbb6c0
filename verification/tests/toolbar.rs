use hermes_tui_rust::state::color::Color;
use hermes_tui_rust::state::config::{ChatColorsRgb, InputMode, ThemeColorsRgb};
use hermes_tui_rust::ui::subagent::{SubagentInfo, SubagentList, SubagentStatus};
use hermes_tui_rust::ui::toolbar::{Toolbar, ToolbarItem};

fn create_test_theme_colors() -> ThemeColorsRgb {
    ThemeColorsRgb {
        background: Color::Reset,
        text: Color::Indexed(252),
        primary: Color::Indexed(13),
        secondary: Color::Indexed(14),
        accent: Color::Indexed(11),
        error: Color::Red,
        success: Color::Green,
        warning: Color::Yellow,
    }
}

fn create_test_chat_colors() -> ChatColorsRgb {
    ChatColorsRgb::default()
}

#[test]
fn test_toolbar_new() {
    let toolbar = Toolbar::new(create_test_theme_colors(), create_test_chat_colors());
    assert!(toolbar.items().is_empty());
}

#[test]
fn test_toolbar_with_defaults() {
    let toolbar = Toolbar::with_defaults();
    assert!(toolbar.items().is_empty());
}

#[test]
fn test_toolbar_add_item() {
    let toolbar = Toolbar::new(create_test_theme_colors(), create_test_chat_colors());
    assert!(toolbar.items().is_empty());
}

#[test]
fn test_toolbar_add_text() {
    let mut toolbar = Toolbar::new(create_test_theme_colors(), create_test_chat_colors());
    toolbar.add_text("Test");
    assert_eq!(toolbar.items().len(), 1);
}

#[test]
fn test_toolbar_clear() {
    let mut toolbar = Toolbar::new(create_test_theme_colors(), create_test_chat_colors());
    toolbar.add_default_text("Test 1");
    assert_eq!(toolbar.items().len(), 1);
    toolbar.clear();
    assert!(toolbar.items().is_empty());
}

#[test]
fn test_toolbar_input_mode() {
    let mut toolbar = Toolbar::new(create_test_theme_colors(), create_test_chat_colors());
    assert_eq!(toolbar.input_mode(), InputMode::Normal);
    toolbar.set_input_mode(InputMode::Insert);
    assert_eq!(toolbar.input_mode(), InputMode::Insert);
    toolbar.set_input_mode(InputMode::Command);
    assert_eq!(toolbar.input_mode(), InputMode::Command);
}

#[test]
fn test_toolbar_update_status() {
    let mut toolbar = Toolbar::new(create_test_theme_colors(), create_test_chat_colors());
    toolbar.update_status(true, Some("gpt-4"), Some("openai"), Some("Session 1"), 3);
    assert!(toolbar.items().len() >= 6);
}

#[test]
fn test_toolbar_item_new() {
    let item = ToolbarItem::new("Test");
    assert_eq!(item.text, "Test");
}

#[test]
fn test_toolbar_item_with_defaults() {
    let item = ToolbarItem::new("Defaults");
    assert_eq!(item.text, "Defaults");
}

#[test]
fn toolbar_reports_connection_after_status() {
    let mut toolbar = Toolbar::with_defaults();
    toolbar.update_status(true, Some("m"), None, None, 0);
    assert!(toolbar.is_connected());
    toolbar.update_status(false, Some("m"), None, None, 0);
    assert!(!toolbar.is_connected());
}

#[test]
fn test_subagent_info_new() {
    let info = SubagentInfo::new("test-1", "do something", None);
    assert_eq!(info.id, "test-1");
    assert_eq!(info.status, SubagentStatus::Running);
    assert!(info.started_at.is_some());
}

#[test]
fn test_subagent_info_mark_completed() {
    let mut info = SubagentInfo::new("test-1", "do something", None);
    info.mark_completed("done");
    assert_eq!(info.status, SubagentStatus::Completed);
    assert_eq!(info.summary, Some("done".to_string()));
    assert!(info.completed_at.is_some());
}

#[test]
fn test_subagent_info_status_style() {
    let info = SubagentInfo::new("test-1", "do something", None);
    let (icon, _style) = info.status_style();
    assert_eq!(icon, " ▶ ");
}

#[test]
fn test_subagent_list_upsert() {
    let mut list = SubagentList::new();
    assert!(list.is_empty());
    list.upsert(SubagentInfo::new("test-1", "task 1", None));
    assert_eq!(list.total_count(), 1);
    assert_eq!(list.active_count(), 1);
    list.upsert(SubagentInfo::new("test-2", "task 2", None));
    assert_eq!(list.total_count(), 2);
    let mut info = SubagentInfo::new("test-1", "task 1", None);
    info.mark_completed("done");
    list.upsert(info);
    assert_eq!(list.total_count(), 2);
    assert_eq!(list.active_count(), 1);
}

#[test]
fn test_subagent_list_remove() {
    let mut list = SubagentList::new();
    list.upsert(SubagentInfo::new("test-1", "task 1", None));
    list.remove("test-1");
    assert!(list.is_empty());
}

#[test]
fn test_build_agent_line() {
    let list = SubagentList::new();
    let agent = SubagentInfo::new("worker-1", "analyze data", None);
    let line = list.build_agent_line(&agent);
    assert!(!line.icon.is_empty());
    assert_eq!(line.id, "worker-1");
}

#[test]
fn failed_subagent_is_not_active() {
    let mut list = SubagentList::new();
    let mut info = SubagentInfo::new("a", "g", None);
    info.mark_failed();
    list.upsert(info);
    assert_eq!(list.active_count(), 0);
    assert_eq!(list.total_count(), 1);
}
