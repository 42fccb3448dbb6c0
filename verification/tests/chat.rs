use hermes_tui_rust::protocol::types::MessageRole;
use hermes_tui_rust::state::config::ChatColorsRgb;
use hermes_tui_rust::state::messages::{Message, MessageHistory};
use hermes_tui_rust::ui::cards::{CardManager, ToolCardData};
use hermes_tui_rust::ui::chat::{
    elapsed_seconds, pending_label, relative_time, ChatAction, ChatCommand, ChatComponent, ChatState,
};
use hermes_tui_rust::ui::subagent::SubagentInfo;

fn make_user(s: &str) -> Message {
    Message::user(s)
}

fn make_assistant(s: &str) -> Message {
    Message::assistant(s)
}

#[test]
fn test_message_height_cjk() {
    let chat = ChatComponent::with_defaults();
    let m = make_user("你好世界");
    let h = chat.message_height(&m, &CardManager::new(ChatColorsRgb::default()), 40);
    assert!(h >= 4);
}

#[test]
fn test_height_cache_invalidates_on_add() {
    let mut chat = ChatComponent::with_defaults();
    let mut state = ChatState::new();
    let cards = CardManager::new(ChatColorsRgb::default());
    chat.add_message(make_user("hello"), &mut state, &cards);
    let v1 = chat.height_version();
    chat.add_message(make_user("world"), &mut state, &cards);
    let v2 = chat.height_version();
    assert!(v2 > v1);
}

#[test]
fn test_height_cache_invalidates_on_update() {
    let mut chat = ChatComponent::with_defaults();
    let mut state = ChatState::new();
    let cards = CardManager::new(ChatColorsRgb::default());
    let mut msg = make_user("hello");
    msg.message_id = Some("abc".to_string());
    chat.add_message(msg, &mut state, &cards);
    let v1 = chat.height_version();
    let mut updated = make_user("hello world");
    updated.message_id = Some("abc".to_string());
    chat.update_message(updated);
    let v2 = chat.height_version();
    assert!(v2 > v1);
}

#[test]
fn test_ensure_heights_caches() {
    let mut chat = ChatComponent::with_defaults();
    let mut state = ChatState::new();
    let cards = CardManager::new(ChatColorsRgb::default());
    chat.add_message(make_user("hello"), &mut state, &cards);
    chat.add_message(make_user("world"), &mut state, &cards);
    chat.ensure_heights(80, &cards);
    let first = chat.cached_heights().clone();
    chat.ensure_heights(80, &cards);
    let second = chat.cached_heights().clone();
    assert_eq!(first, second);
    chat.ensure_heights(120, &cards);
    let third = chat.cached_heights().clone();
    assert_eq!(first, third, "width change with same content shouldn't change heights");
}

#[test]
fn test_mark_user_scrolled_clears_at_bottom() {
    let mut state = ChatState::new();
    state.at_bottom = true;
    let chat = ChatComponent::with_defaults();
    chat.mark_user_scrolled(&mut state);
    assert!(!state.at_bottom);
}

#[test]
fn test_pending_new_increments_when_offscreen() {
    let mut chat = ChatComponent::with_defaults();
    let mut state = ChatState::new();
    let cards = CardManager::new(ChatColorsRgb::default());
    state.at_bottom = false;
    chat.add_message(make_user("first"), &mut state, &cards);
    assert_eq!(state.pending_new_count, 1);
    chat.add_message(make_user("second"), &mut state, &cards);
    assert_eq!(state.pending_new_count, 2);
}

#[test]
fn test_jump_to_bottom_clears_pending() {
    let chat = ChatComponent::with_defaults();
    let mut state = ChatState::new();
    let cards = CardManager::new(ChatColorsRgb::default());
    state.pending_new_count = 5;
    state.at_bottom = false;
    chat.jump_to_bottom(&mut state, &cards);
    assert_eq!(state.pending_new_count, 0);
    assert!(state.at_bottom);
}

#[test]
fn test_available_actions_user() {
    let mut chat = ChatComponent::with_defaults();
    let mut state = ChatState::new();
    let cards = CardManager::new(ChatColorsRgb::default());
    chat.add_message(make_user("hello"), &mut state, &cards);
    let actions = chat.available_actions(0);
    let kinds: Vec<ChatAction> = actions.iter().map(|(a, _)| *a).collect();
    assert!(kinds.contains(&ChatAction::Copy));
    assert!(kinds.contains(&ChatAction::YankToComposer));
    assert!(kinds.contains(&ChatAction::Edit));
    assert!(kinds.contains(&ChatAction::Delete));
    assert!(kinds.contains(&ChatAction::Branch));
}

#[test]
fn test_available_actions_assistant() {
    let mut chat = ChatComponent::with_defaults();
    let mut state = ChatState::new();
    let cards = CardManager::new(ChatColorsRgb::default());
    chat.add_message(make_assistant("hi"), &mut state, &cards);
    let actions = chat.available_actions(0);
    let kinds: Vec<ChatAction> = actions.iter().map(|(a, _)| *a).collect();
    assert!(kinds.contains(&ChatAction::Regenerate));
    assert!(!kinds.contains(&ChatAction::Edit));
}

#[test]
fn test_perform_action_yank_returns_content() {
    let mut chat = ChatComponent::with_defaults();
    let mut state = ChatState::new();
    let cards = CardManager::new(ChatColorsRgb::default());
    chat.add_message(make_user("hello world"), &mut state, &cards);
    match chat.perform_action(ChatAction::YankToComposer, 0) {
        ChatCommand::Yank(s) => assert_eq!(s, "hello world"),
        _ => panic!("expected Yank"),
    }
}

#[test]
fn test_perform_action_regenerate_uses_index() {
    let mut chat = ChatComponent::with_defaults();
    let mut state = ChatState::new();
    let cards = CardManager::new(ChatColorsRgb::default());
    chat.add_message(make_user("hi"), &mut state, &cards);
    chat.add_message(make_assistant("hello"), &mut state, &cards);
    match chat.perform_action(ChatAction::Regenerate, 1) {
        ChatCommand::Regenerate { from_index } => assert_eq!(from_index, 1),
        _ => panic!("expected Regenerate"),
    }
}

#[test]
fn test_perform_action_out_of_bounds_is_noop() {
    let chat = ChatComponent::with_defaults();
    assert_eq!(chat.perform_action(ChatAction::Copy, 99), ChatCommand::Noop);
}

fn first_line_text(chat: &ChatComponent, info: &SubagentInfo, width: u16) -> String {
    let parts = chat.subagent_line_parts(info, width);
    let mut s = format!(" {} ", parts.icon);
    if parts.nested {
        s.push_str("└ ");
    }
    s.push_str(&parts.id);
    s.push_str(": ");
    s.push_str(&parts.goal);
    s
}

#[test]
fn test_subagent_lines_has_id_and_goal() {
    let chat = ChatComponent::with_defaults();
    let info = SubagentInfo::new("a1", "find the bug", None);
    let rendered = first_line_text(&chat, &info, 80);
    assert!(rendered.contains("a1"));
    assert!(rendered.contains("find the bug"));
}

#[test]
fn test_subagent_lines_truncates_long_goal() {
    let chat = ChatComponent::with_defaults();
    let long_goal = "x".repeat(500);
    let info = SubagentInfo::new("a1", &long_goal, None);
    let first = first_line_text(&chat, &info, 40);
    assert!(first.chars().count() < long_goal.chars().count());
    assert!(first.contains("…"));
    assert_eq!(chat.subagent_line_parts(&info, 40).goal, format!("{}…", "x".repeat(19)));
}

#[test]
fn test_subagent_lines_summary_adds_second_line() {
    let chat = ChatComponent::with_defaults();
    let mut info = SubagentInfo::new("a1", "short goal", None);
    info.mark_completed("a brief summary");
    let parts = chat.subagent_line_parts(&info, 80);
    assert_eq!(parts.summary.as_deref(), Some("a brief summary"));
}

#[test]
fn heights_of_plain_messages() {
    let chat = ChatComponent::with_defaults();
    let cards = CardManager::with_defaults();
    assert_eq!(chat.message_height(&make_user("hi"), &cards, 40), 4);
    assert_eq!(chat.message_height(&make_assistant("a\n\nb"), &cards, 40), 4);
    assert_eq!(chat.message_height(&make_assistant(&"y".repeat(72)), &cards, 40), 3);
    assert_eq!(chat.message_height(&make_assistant(""), &cards, 40), 1);
    let mut sub = Message::system("x");
    sub.message_id = Some("subagent:a1".to_string());
    assert_eq!(chat.message_height(&sub, &cards, 40), 2);
}

#[test]
fn tool_card_heights() {
    let chat = ChatComponent::with_defaults();
    let mut cards = CardManager::with_defaults();
    cards.add_tool_card(ToolCardData::running("t").with_call_id("c1"), "0.0");
    let mut m = Message::tool("out", "t");
    m.message_id = Some("c1".to_string());
    assert_eq!(chat.message_height(&m, &cards, 40), 4);
}

#[test]
fn scrolling_is_held_inside_the_transcript() {
    let mut chat = ChatComponent::with_defaults();
    let mut state = ChatState::new();
    let cards = CardManager::with_defaults();
    for i in 0..10 {
        chat.add_message(make_user(&format!("m{i}")), &mut state, &cards);
    }
    state.inner_width = 40;
    state.visible_height = 10;
    assert_eq!(chat.max_scroll_position(&state, &cards), 30);
    chat.scroll_down(&mut state, 100, &cards);
    assert_eq!(state.scroll_position, 30);
    chat.scroll_up(&mut state, 5);
    assert_eq!(state.scroll_position, 25);
    assert!(!state.at_bottom);
    chat.scroll_to_top(&mut state);
    assert_eq!(state.scroll_position, 0);
}

#[test]
fn selection_wraps_both_ways() {
    let mut chat = ChatComponent::with_defaults();
    let mut state = ChatState::new();
    let cards = CardManager::with_defaults();
    chat.select_next(&mut state, &cards);
    assert_eq!(state.selected_index, None);
    chat.add_message(make_user("a"), &mut state, &cards);
    chat.add_message(make_user("b"), &mut state, &cards);
    chat.select_prev(&mut state, &cards);
    assert_eq!(state.selected_index, Some(1));
    chat.select_next(&mut state, &cards);
    assert_eq!(state.selected_index, Some(0));
    chat.select_prev(&mut state, &cards);
    assert_eq!(chat.get_selected_index(&state), Some(1));
}

#[test]
fn toggling_twice_restores_expansion() {
    let chat = ChatComponent::with_defaults();
    let mut state = ChatState::new();
    chat.toggle_system_expanded(&mut state, "s1");
    assert!(state.expanded_systems.contains(&"s1".to_string()));
    chat.toggle_system_expanded(&mut state, "s1");
    assert!(!state.expanded_systems.contains(&"s1".to_string()));
}

#[test]
fn long_system_messages_are_shortened_until_expanded() {
    let chat = ChatComponent::with_defaults();
    let mut state = ChatState::new();
    let mut m = Message::system(&"z".repeat(401));
    m.message_id = Some("s1".to_string());
    let shown = chat.display_content(&m, &state);
    assert_eq!(shown, format!("{}...\n (press Enter to expand)", "z".repeat(397)));
    chat.toggle_system_expanded(&mut state, "s1");
    assert_eq!(chat.display_content(&m, &state), "z".repeat(401));
    let short = Message::system(&"z".repeat(400));
    assert_eq!(chat.display_content(&short, &state), "z".repeat(400));
}

#[test]
fn index_and_update_by_message_id() {
    let mut chat = ChatComponent::with_defaults();
    let mut state = ChatState::new();
    let cards = CardManager::with_defaults();
    let mut a = make_assistant("draft");
    a.message_id = Some("m1".to_string());
    chat.add_message(make_user("q"), &mut state, &cards);
    chat.add_message(a, &mut state, &cards);
    assert_eq!(chat.index_of_message_id("m1"), Some(1));
    assert_eq!(chat.index_of_message_id("zz"), None);
    let mut b = make_assistant("final");
    b.message_id = Some("m1".to_string());
    chat.update_message(b);
    assert_eq!(chat.messages()[1].content(), "final");
}

#[test]
fn relative_times() {
    assert_eq!(relative_time(5), "5s ago");
    assert_eq!(relative_time(-3), "-3s ago");
    assert_eq!(relative_time(125), "2m ago");
    assert_eq!(relative_time(7200), "2h ago");
    assert_eq!(relative_time(200000), "2d ago");
    assert_eq!(elapsed_seconds(10_500_000, 0), 10);
    assert_eq!(elapsed_seconds(0, 1_500_000), -1);
    assert_eq!(pending_label(3), " ↓ 3 new ⏎ ");
}

#[test]
fn first_visible_message_and_offset() {
    let mut chat = ChatComponent::with_defaults();
    let mut state = ChatState::new();
    let cards = CardManager::with_defaults();
    chat.add_message(make_user("a"), &mut state, &cards);
    chat.add_message(make_user("b"), &mut state, &cards);
    let target = chat.update_viewport(&mut state, 40, 3, &cards);
    assert_eq!(chat.cached_heights(), &vec![4u16, 4u16]);
    assert_eq!(target, 0);
    assert_eq!(chat.first_visible(5), (1, 1));
    assert_eq!(chat.first_visible(50), (0, 0));
    let _ = MessageRole::User;
    let _ = MessageHistory::new();
}
