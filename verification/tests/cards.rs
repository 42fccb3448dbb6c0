use hermes_tui_rust::protocol::types::CompletionItem;
use hermes_tui_rust::state::color::Color;
use hermes_tui_rust::state::config::ChatColorsRgb;
use hermes_tui_rust::ui::cards::{CardComponent, CardManager, CardType, ToolCardData, ToolStatus};
use hermes_tui_rust::ui::completions::CompletionPopup;

fn create_test_colors() -> ChatColorsRgb {
    ChatColorsRgb {
        user_bg: Color::Indexed(238),
        user_text: Color::Indexed(252),
        assistant_bg: Color::Indexed(236),
        assistant_text: Color::Indexed(248),
        system_bg: Color::Indexed(235),
        system_text: Color::Indexed(245),
        tool_bg: Color::Indexed(237),
        tool_text: Color::Indexed(243),
        code_bg: Color::Indexed(233),
        code_text: Color::Indexed(252),
        border: Color::Indexed(240),
        timestamp: Color::Indexed(246),
    }
}

#[test]
fn test_card_new() {
    let colors = create_test_colors();
    let card = CardComponent::new(CardType::Info, "Test", "Content", colors);
    assert_eq!(card.card_type(), CardType::Info);
    assert_eq!(card.title(), "Test");
    assert_eq!(card.content(), "Content");
}

#[test]
fn test_card_info() {
    let card = CardComponent::info("Info", "Info content", create_test_colors());
    assert_eq!(card.card_type(), CardType::Info);
}

#[test]
fn test_card_success() {
    let card = CardComponent::success("Success", "Success content", create_test_colors());
    assert_eq!(card.card_type(), CardType::Success);
}

#[test]
fn test_card_warning() {
    let card = CardComponent::warning("Warning", "Warning content", create_test_colors());
    assert_eq!(card.card_type(), CardType::Warning);
}

#[test]
fn test_card_error() {
    let card = CardComponent::error("Error", "Error content", create_test_colors());
    assert_eq!(card.card_type(), CardType::Error);
}

#[test]
fn test_card_tool() {
    let card = CardComponent::tool("Tool", "Tool content", create_test_colors());
    assert_eq!(card.card_type(), CardType::Tool);
}

#[test]
fn test_card_setters() {
    let mut card = CardComponent::new(CardType::Info, "Test", "Content", create_test_colors());
    card.set_card_type(CardType::Success);
    assert_eq!(card.card_type(), CardType::Success);
    card.set_title("New Title");
    assert_eq!(card.title(), "New Title");
    card.set_content("New Content");
    assert_eq!(card.content(), "New Content");
}

#[test]
fn test_card_manager_new() {
    let manager = CardManager::new(create_test_colors());
    assert!(manager.is_empty());
}

#[test]
fn test_card_manager_add() {
    let mut manager = CardManager::new(create_test_colors());
    manager.add_info("Info", "Content");
    assert_eq!(manager.len(), 1);
    manager.add_success("Success", "Content");
    assert_eq!(manager.len(), 2);
}

#[test]
fn test_card_manager_remove() {
    let mut manager = CardManager::new(create_test_colors());
    manager.add_info("Info", "Content");
    manager.add_success("Success", "Content");
    let removed = manager.remove_card(0);
    assert!(removed.is_some());
    assert_eq!(manager.len(), 1);
}

#[test]
fn test_card_manager_clear() {
    let mut manager = CardManager::new(create_test_colors());
    manager.add_info("Info", "Content");
    manager.add_success("Success", "Content");
    assert_eq!(manager.len(), 2);
    manager.clear();
    assert!(manager.is_empty());
}

#[test]
fn test_card_manager_with_defaults() {
    let manager = CardManager::with_defaults();
    assert!(manager.is_empty());
}

#[test]
fn tool_card_is_found_updated_and_toggled_by_call_id() {
    let mut manager = CardManager::with_defaults();
    let data = ToolCardData::running("read_file").with_call_id("c1");
    manager.add_tool_card(data, "0.0");
    assert!(manager.find_by_call_id("c1").is_some());
    assert!(manager.find_by_call_id("c2").is_none());
    assert!(!manager.find_by_call_id("c1").unwrap().is_expanded());
    assert!(manager.toggle_expanded("c1"));
    assert!(manager.find_by_call_id("c1").unwrap().is_expanded());
    assert!(!manager.toggle_expanded("c2"));
    assert!(manager.update_tool_status("c1", ToolStatus::Completed, Some("done".to_string()), None));
    assert_eq!(manager.find_by_call_id("c1").unwrap().status(), Some(ToolStatus::Completed));
    assert_eq!(manager.find_by_call_id("c1").unwrap().result(), Some(&"done".to_string()));
}

#[test]
fn spinner_frames_cycle() {
    assert_ne!(CardComponent::running_spinner(0), CardComponent::running_spinner(1));
}

#[test]
fn test_completion_popup_visibility() {
    let mut popup = CompletionPopup::new(ChatColorsRgb::default());
    assert!(!popup.is_visible());
    let items = vec![CompletionItem {
        display: "help".to_string(),
        text: "/help".to_string(),
        meta: Some("Show help".to_string()),
    }];
    popup.show(items, None);
    assert!(popup.is_visible());
    popup.close();
    assert!(!popup.is_visible());
}

#[test]
fn test_completion_popup_navigation() {
    let mut popup = CompletionPopup::new(ChatColorsRgb::default());
    let items = vec![
        CompletionItem { display: "help".to_string(), text: "/help".to_string(), meta: None },
        CompletionItem { display: "quit".to_string(), text: "/quit".to_string(), meta: None },
    ];
    popup.show(items, None);
    assert_eq!(popup.selected_index(), 0);
    assert_eq!(popup.selected_item().unwrap().display, "help");
    popup.select_next();
    assert_eq!(popup.selected_index(), 1);
    assert_eq!(popup.selected_item().unwrap().display, "quit");
    popup.select_next();
    assert_eq!(popup.selected_index(), 0);
    popup.select_prev();
    assert_eq!(popup.selected_index(), 1);
}

#[test]
fn empty_completion_list_stays_hidden() {
    let mut popup = CompletionPopup::new(ChatColorsRgb::default());
    popup.show(Vec::new(), Some(3));
    assert!(!popup.is_visible());
    assert!(popup.selected_item().is_none());
}

#[test]
fn toggling_a_card_twice_restores_it() {
    let mut manager = CardManager::with_defaults();
    manager.add_tool_card(ToolCardData::running("t").with_call_id("c9"), "0.0");
    let before = manager.find_by_call_id("c9").unwrap().is_expanded();
    manager.toggle_expanded("c9");
    manager.toggle_expanded("c9");
    assert_eq!(manager.find_by_call_id("c9").unwrap().is_expanded(), before);
}
