use hermes_tui_rust::handlers::events::{KeyCode, KeyEvent, KeyModifiers};
use hermes_tui_rust::state::color::Color;
use hermes_tui_rust::state::config::{ChatColorsRgb, InputMode};
use hermes_tui_rust::ui::composer::InputComposer;

fn create_test_colors() -> ChatColorsRgb {
    ChatColorsRgb {
        user_bg: Color::Indexed(238),
        user_text: Color::Indexed(252),
        assistant_bg: Color::Indexed(236),
        assistant_text: Color::Indexed(248),
        system_bg: Color::Indexed(235),
        system_text: Color::Indexed(245),
        tool_bg: Color::Indexed(237),
        tool_text: Color::Indexed(243),
        code_bg: Color::Indexed(233),
        code_text: Color::Indexed(252),
        border: Color::Indexed(240),
        timestamp: Color::Indexed(246),
    }
}

fn key(code: KeyCode) -> KeyEvent {
    KeyEvent::new(code, KeyModifiers::none())
}

#[test]
fn test_composer_new() {
    let composer = InputComposer::new(create_test_colors());
    assert!(composer.get_input().is_empty());
    assert_eq!(composer.cursor_pos(), 0);
    assert_eq!(composer.input_mode(), InputMode::Normal);
}

#[test]
fn test_composer_set_input() {
    let mut composer = InputComposer::new(create_test_colors());
    composer.set_input("Hello, world!");
    assert_eq!(composer.get_input(), "Hello, world!");
    assert_eq!(composer.cursor_pos(), 13);
}

#[test]
fn test_composer_clear() {
    let mut composer = InputComposer::new(create_test_colors());
    composer.set_input("Test");
    assert_eq!(composer.get_input(), "Test");
    composer.clear();
    assert!(composer.get_input().is_empty());
    assert_eq!(composer.cursor_pos(), 0);
}

#[test]
fn test_composer_handle_char() {
    let mut composer = InputComposer::new(create_test_colors());
    assert!(composer.handle_key_event(key(KeyCode::Char('a'))));
    assert_eq!(composer.get_input(), "a");
    assert_eq!(composer.cursor_pos(), 1);
}

#[test]
fn test_composer_handle_backspace() {
    let mut composer = InputComposer::new(create_test_colors());
    composer.set_input("Hello");
    assert_eq!(composer.cursor_pos(), 5);
    assert!(composer.handle_key_event(key(KeyCode::Backspace)));
    assert_eq!(composer.get_input(), "Hell");
    assert_eq!(composer.cursor_pos(), 4);
}

#[test]
fn test_composer_handle_enter() {
    let mut composer = InputComposer::new(create_test_colors());
    composer.set_input("Hello");
    assert!(composer.handle_key_event(key(KeyCode::Enter)));
    assert!(composer.get_input().is_empty());
    assert!(composer.history().contains(&"Hello".to_string()));
}

#[test]
fn test_composer_cursor_movement() {
    let mut composer = InputComposer::new(create_test_colors());
    composer.set_input("Hello");
    assert!(composer.handle_key_event(key(KeyCode::Home)));
    assert_eq!(composer.cursor_pos(), 0);
    assert!(composer.handle_key_event(key(KeyCode::End)));
    assert_eq!(composer.cursor_pos(), 5);
    assert!(composer.handle_key_event(key(KeyCode::Left)));
    assert_eq!(composer.cursor_pos(), 4);
    assert!(composer.handle_key_event(key(KeyCode::Right)));
    assert_eq!(composer.cursor_pos(), 5);
}

#[test]
fn test_composer_history() {
    let mut composer = InputComposer::new(create_test_colors());
    composer.add_to_history("first".to_string());
    composer.add_to_history("second".to_string());
    assert_eq!(composer.history().len(), 2);
    composer.history_previous();
    assert_eq!(composer.get_input(), "second");
    composer.history_previous();
    assert_eq!(composer.get_input(), "first");
    composer.history_next();
    assert_eq!(composer.get_input(), "second");
    composer.history_next();
    assert!(composer.get_input().is_empty());
}

#[test]
fn test_composer_input_mode() {
    let mut composer = InputComposer::new(create_test_colors());
    assert_eq!(composer.input_mode(), InputMode::Normal);
    composer.set_input_mode(InputMode::Insert);
    assert_eq!(composer.input_mode(), InputMode::Insert);
    composer.set_input_mode(InputMode::Command);
    assert_eq!(composer.input_mode(), InputMode::Command);
}

#[test]
fn test_composer_with_defaults() {
    let composer = InputComposer::with_defaults();
    assert!(composer.get_input().is_empty());
    assert_eq!(composer.input_mode(), InputMode::Normal);
}

#[test]
fn test_composer_active_state() {
    let mut composer = InputComposer::new(create_test_colors());
    assert!(composer.is_active());
    composer.set_active(false);
    assert!(!composer.is_active());
    composer.set_active(true);
    assert!(composer.is_active());
}

#[test]
fn the_cursor_counts_characters() {
    let mut composer = InputComposer::with_defaults();
    assert!(composer.handle_key_event(key(KeyCode::Char('é'))));
    assert!(composer.handle_key_event(key(KeyCode::Char('a'))));
    assert_eq!(composer.get_input(), "éa");
    assert_eq!(composer.cursor_pos(), 2);
    assert!(composer.handle_key_event(key(KeyCode::Left)));
    assert!(composer.handle_key_event(key(KeyCode::Backspace)));
    assert_eq!(composer.get_input(), "a");
    assert_eq!(composer.cursor_pos(), 0);
    composer.set_input("héllo");
    assert_eq!(composer.cursor_pos(), 5);
    assert!(composer.handle_key_event(key(KeyCode::Home)));
    assert!(composer.handle_key_event(key(KeyCode::Delete)));
    assert_eq!(composer.get_input(), "éllo");
}

#[test]
fn insert_text_goes_in_at_the_cursor() {
    let mut composer = InputComposer::with_defaults();
    composer.set_input("ad");
    assert!(composer.handle_key_event(key(KeyCode::Left)));
    composer.insert_text("bc");
    assert_eq!(composer.get_input(), "abcd");
    assert_eq!(composer.cursor_pos(), 3);
}
