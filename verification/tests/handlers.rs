use std::time::Duration;

use hermes_tui_rust::handlers::events::{
    KeyCode, KeyEvent, KeyModifiers, MouseEvent, MouseEventKind, PointerButton,
};
use hermes_tui_rust::handlers::input::{InputAction, InputProcessor, KeyBindings};
use hermes_tui_rust::handlers::keys::{
    ChatKeyboardHandler, InputKeyboardHandler, KeyboardState, Shortcut, ShortcutRegistry,
    TextInputAction,
};
use hermes_tui_rust::handlers::mouse::{
    long_press_reached, ChatMouseAction, ChatMouseHandler, InputMouseAction, InputMouseHandler, MouseContext,
    MouseGestureRecognizer, SwipeDirection,
};

fn key(code: KeyCode, modifiers: KeyModifiers) -> KeyEvent {
    KeyEvent::new(code, modifiers)
}

fn mouse(kind: MouseEventKind, column: u16, row: u16) -> MouseEvent {
    MouseEvent { kind, column, row, modifiers: KeyModifiers::none() }
}

#[test]
fn test_default_key_bindings() {
    let bindings = KeyBindings::default();
    assert!(!bindings.quit.is_empty());
    assert!(!bindings.submit.is_empty());
    assert!(!bindings.command_mode.is_empty());
}

#[test]
fn test_quit_key_matching() {
    let bindings = KeyBindings::default();
    assert!(bindings.is_quit(&key(KeyCode::Char('c'), KeyModifiers::control())));
    assert!(bindings.is_quit(&key(KeyCode::Char('q'), KeyModifiers::control())));
    assert!(bindings.is_quit(&key(KeyCode::Esc, KeyModifiers::none())));
}

#[test]
fn test_input_processor() {
    let processor = InputProcessor::new();
    assert_eq!(processor.process_key(key(KeyCode::Char('c'), KeyModifiers::control())), InputAction::Quit);
    assert_eq!(processor.process_key(key(KeyCode::Enter, KeyModifiers::none())), InputAction::Submit);
    match processor.process_key(key(KeyCode::Char('a'), KeyModifiers::none())) {
        InputAction::PassThrough(k) => assert_eq!(k.code, KeyCode::Char('a')),
        _ => panic!("Expected PassThrough"),
    }
}

#[test]
fn test_chat_keyboard_handler_scroll() {
    let handler = ChatKeyboardHandler::new();
    assert_eq!(handler.handle_key(&key(KeyCode::PageUp, KeyModifiers::none()), 100), -10);
    assert_eq!(handler.handle_key(&key(KeyCode::PageDown, KeyModifiers::none()), 100), 10);
    assert_eq!(handler.handle_key(&key(KeyCode::Up, KeyModifiers::none()), 100), -1);
    assert_eq!(handler.handle_key(&key(KeyCode::Down, KeyModifiers::none()), 100), 1);
}

#[test]
fn test_chat_keyboard_handler_home_end() {
    let handler = ChatKeyboardHandler::new();
    assert_eq!(handler.handle_key(&key(KeyCode::Home, KeyModifiers::none()), 100), i16::MIN + 1);
    assert_eq!(handler.handle_key(&key(KeyCode::End, KeyModifiers::none()), 100), i16::MAX - 1);
}

#[test]
fn half_page_scrolls_with_control() {
    let handler = ChatKeyboardHandler::new();
    assert_eq!(handler.handle_key(&key(KeyCode::Char('u'), KeyModifiers::control()), 21), -10);
    assert_eq!(handler.handle_key(&key(KeyCode::Char('d'), KeyModifiers::control()), 21), 10);
    assert_eq!(handler.handle_key(&key(KeyCode::Char('x'), KeyModifiers::none()), 21), 0);
}

#[test]
fn test_input_keyboard_handler_basic() {
    let handler = InputKeyboardHandler::new();
    assert_eq!(
        handler.handle_input_key(key(KeyCode::Backspace, KeyModifiers::none()), "test", 2),
        TextInputAction::DeleteBeforeCursor
    );
    assert_eq!(
        handler.handle_input_key(key(KeyCode::Delete, KeyModifiers::none()), "test", 2),
        TextInputAction::DeleteAfterCursor
    );
    assert_eq!(
        handler.handle_input_key(key(KeyCode::Left, KeyModifiers::none()), "test", 2),
        TextInputAction::MoveCursorLeft
    );
    assert_eq!(
        handler.handle_input_key(key(KeyCode::Right, KeyModifiers::none()), "test", 2),
        TextInputAction::MoveCursorRight
    );
}

#[test]
fn test_input_keyboard_handler_word_navigation() {
    let handler = InputKeyboardHandler::new();
    assert_eq!(
        handler.handle_input_key(key(KeyCode::Left, KeyModifiers::control()), "hello world", 5),
        TextInputAction::MoveToPreviousWord
    );
    assert_eq!(
        handler.handle_input_key(key(KeyCode::Right, KeyModifiers::control()), "hello world", 5),
        TextInputAction::MoveToNextWord
    );
}

#[test]
fn editing_at_the_ends_does_nothing() {
    let handler = InputKeyboardHandler::with_tab_width(4);
    assert_eq!(
        handler.handle_input_key(key(KeyCode::Backspace, KeyModifiers::none()), "ab", 0),
        TextInputAction::Nothing
    );
    assert_eq!(
        handler.handle_input_key(key(KeyCode::Delete, KeyModifiers::none()), "ab", 2),
        TextInputAction::Nothing
    );
    assert_eq!(
        handler.handle_input_key(key(KeyCode::Tab, KeyModifiers::none()), "ab", 2),
        TextInputAction::Indent(4)
    );
}

#[test]
fn test_shortcut_registry() {
    let mut registry = ShortcutRegistry::new();
    let shortcut = Shortcut::new(
        key(KeyCode::Char('s'), KeyModifiers::control()),
        "save".to_string(),
        "Save current session".to_string(),
    );
    registry.register(shortcut.clone());
    let ctrl_s = key(KeyCode::Char('s'), KeyModifiers::control());
    assert!(registry.find_by_key(&ctrl_s).is_some());
    assert_eq!(registry.find_by_action("save").len(), 1);
}

#[test]
fn test_keyboard_state() {
    let mut state = KeyboardState::new();
    let ctrl_a = key(KeyCode::Char('a'), KeyModifiers::control());
    state.update_from_key(&ctrl_a);
    assert!(state.has_modifier(KeyModifiers::control()));
    assert!(!state.has_modifier(KeyModifiers::shift()));
}

#[test]
fn test_mouse_context_update() {
    let mut context = MouseContext::new();
    let down_event = mouse(MouseEventKind::Down(PointerButton::Left), 10, 5);
    context.update(&down_event);
    assert_eq!(context.position(), (10, 5));
    assert!(context.is_button_pressed(PointerButton::Left));
    assert_eq!(context.drag_start(), Some((10, 5)));
}

#[test]
fn test_mouse_context_double_click() {
    let mut context = MouseContext::new();
    let first_click = mouse(MouseEventKind::Down(PointerButton::Left), 10, 5);
    context.update(&first_click);
    let second_click = mouse(MouseEventKind::Down(PointerButton::Left), 10, 5);
    assert!(context.check_double_click(&second_click));
}

#[test]
fn test_chat_mouse_handler() {
    let handler = ChatMouseHandler::new();
    let click_event = mouse(MouseEventKind::Down(PointerButton::Left), 5, 5);
    let scroll_up = mouse(MouseEventKind::ScrollUp, 5, 5);
    let action = handler.handle_chat_mouse(&click_event, (0, 0, 100, 100), 10, 0, 10);
    match action {
        ChatMouseAction::MessageClick(_) => {}
        _ => panic!("Expected MessageClick"),
    }
    assert_eq!(
        handler.handle_chat_mouse(&scroll_up, (0, 0, 100, 100), 10, 0, 10),
        ChatMouseAction::ScrollUp
    );
}

#[test]
fn test_input_mouse_handler() {
    let handler = InputMouseHandler::new();
    let click_event = mouse(MouseEventKind::Down(PointerButton::Left), 5, 0);
    let (action, pos) = handler.handle_input_mouse(&click_event, (0, 0, 100, 1), 50);
    match action {
        InputMouseAction::SetCursor(p) => {
            assert_eq!(p, 5);
            assert_eq!(pos, Some(5));
        }
        _ => panic!("Expected SetCursor"),
    }
}

#[test]
fn test_gesture_recognizer() {
    let mut recognizer = MouseGestureRecognizer::with_thresholds(10, Duration::from_millis(500));
    recognizer.start_gesture(10, 10);
    assert!(!recognizer.check_long_press());
    assert_eq!(recognizer.check_swipe(50, 10), Some(SwipeDirection::Right));
    recognizer.end_gesture();
}

#[test]
fn swipes_in_every_direction_and_none_below_threshold() {
    let mut recognizer = MouseGestureRecognizer::with_thresholds(10, Duration::from_millis(500));
    recognizer.start_gesture(50, 50);
    assert_eq!(recognizer.check_swipe(30, 50), Some(SwipeDirection::Left));
    assert_eq!(recognizer.check_swipe(50, 70), Some(SwipeDirection::Down));
    assert_eq!(recognizer.check_swipe(50, 30), Some(SwipeDirection::Up));
    assert_eq!(recognizer.check_swipe(55, 55), None);
    recognizer.end_gesture();
    assert_eq!(recognizer.check_swipe(90, 90), None);
}

#[test]
fn higher_priority_shortcuts_are_found_first() {
    let mut registry = ShortcutRegistry::new();
    let ctrl_s = key(KeyCode::Char('s'), KeyModifiers::control());
    registry.register(Shortcut::new(ctrl_s, "low".to_string(), "low".to_string()));
    registry.register(Shortcut::with_priority(ctrl_s, "high".to_string(), "high".to_string(), 5));
    registry.register(Shortcut::with_priority(ctrl_s, "late".to_string(), "late".to_string(), 5));
    assert_eq!(registry.find_by_key(&ctrl_s).unwrap().action, "high");
    assert!(registry.find_by_key(&key(KeyCode::Char('x'), KeyModifiers::none())).is_none());
}

#[test]
fn long_press_compares_elapsed_time() {
    assert!(long_press_reached(500, 500));
    assert!(!long_press_reached(499, 500));
    let mut recognizer = MouseGestureRecognizer::new();
    assert!(!recognizer.check_long_press());
    recognizer.start_gesture(1, 1);
    assert!(recognizer.check_long_press());
}

#[test]
fn scrolling_needs_no_room_for_message_indices() {
    let handler = ChatMouseHandler::new();
    let scroll = mouse(MouseEventKind::ScrollDown, 5, 5);
    assert_eq!(
        handler.handle_chat_mouse(&scroll, (0, 0, 100, 100), 10, usize::MAX, usize::MAX),
        ChatMouseAction::ScrollDown
    );
}
