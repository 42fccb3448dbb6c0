use hermes_tui_rust::state::color::Color;
use hermes_tui_rust::state::config::ChatColorsRgb;
use hermes_tui_rust::ui::prompts::{ApprovalPrompt, ClarifyPrompt, PromptManager, SecretPrompt};

fn create_test_colors() -> ChatColorsRgb {
    ChatColorsRgb {
        user_bg: Color::Indexed(238),
        user_text: Color::Indexed(252),
        assistant_bg: Color::Indexed(236),
        assistant_text: Color::Indexed(248),
        system_bg: Color::Indexed(235),
        system_text: Color::Indexed(245),
        tool_bg: Color::Indexed(237),
        tool_text: Color::Indexed(243),
        code_bg: Color::Indexed(233),
        code_text: Color::Indexed(252),
        border: Color::Indexed(240),
        timestamp: Color::Indexed(246),
    }
}

#[test]
fn test_approval_prompt_new() {
    let prompt = ApprovalPrompt::new("Test message", Some("test_tool".to_string()), create_test_colors());
    assert_eq!(prompt.message(), "Test message");
    assert_eq!(prompt.tool_name(), Some(&"test_tool".to_string()));
    assert!(prompt.is_pending());
}

#[test]
fn test_approval_prompt_with_defaults() {
    let prompt = ApprovalPrompt::with_defaults("Test");
    assert_eq!(prompt.message(), "Test");
    assert!(prompt.is_pending());
}

#[test]
fn test_approval_prompt_approve_deny() {
    let mut prompt = ApprovalPrompt::new("Test", None, create_test_colors());
    assert!(prompt.is_pending());
    prompt.approve();
    assert!(prompt.is_approved());
    prompt.deny();
    assert!(prompt.is_denied());
}

#[test]
fn test_approval_prompt_setters() {
    let mut prompt = ApprovalPrompt::new("Test", None, create_test_colors());
    prompt.set_message("New message");
    assert_eq!(prompt.message(), "New message");
    prompt.set_tool_name(Some("new_tool".to_string()));
    assert_eq!(prompt.tool_name(), Some(&"new_tool".to_string()));
}

#[test]
fn test_clarify_prompt_new() {
    let prompt = ClarifyPrompt::new("Test message", None, create_test_colors());
    assert_eq!(prompt.message(), "Test message");
    assert!(prompt.response().is_empty());
    assert!(prompt.is_active());
}

#[test]
fn test_clarify_prompt_with_defaults() {
    let prompt = ClarifyPrompt::with_defaults("Test");
    assert_eq!(prompt.message(), "Test");
    assert!(prompt.is_active());
}

#[test]
fn test_clarify_prompt_response() {
    let mut prompt = ClarifyPrompt::new("Test", None, create_test_colors());
    prompt.append_response("Hello");
    assert_eq!(prompt.response(), "Hello");
    prompt.append_response(" World");
    assert_eq!(prompt.response(), "Hello World");
    prompt.clear_response();
    assert!(prompt.response().is_empty());
}

#[test]
fn test_clarify_prompt_submit() {
    let mut prompt = ClarifyPrompt::new("Test", None, create_test_colors());
    prompt.append_response("Response");
    let submitted = prompt.submit();
    assert_eq!(submitted, "Response");
    assert!(prompt.response().is_empty());
    assert!(!prompt.is_active());
}

#[test]
fn test_clarify_prompt_choices() {
    let choices = vec!["Option 1".to_string(), "Option 2".to_string(), "Option 3".to_string()];
    let mut prompt = ClarifyPrompt::new("Pick one", Some(choices.clone()), create_test_colors());
    assert_eq!(prompt.choices().unwrap(), &choices[..]);
    assert_eq!(prompt.selected_index(), 0);
    prompt.next_choice();
    assert_eq!(prompt.selected_index(), 1);
    prompt.next_choice();
    assert_eq!(prompt.selected_index(), 2);
    prompt.next_choice();
    assert_eq!(prompt.selected_index(), 0);
    prompt.prev_choice();
    assert_eq!(prompt.selected_index(), 2);
    let submitted = prompt.submit_choice(1);
    assert_eq!(submitted, "Option 2");
    assert!(!prompt.is_active());
}

#[test]
fn test_secret_prompt_new() {
    let prompt = SecretPrompt::new("Test message", create_test_colors());
    assert_eq!(prompt.message(), "Test message");
    assert!(prompt.secret().is_empty());
    assert!(prompt.is_active());
}

#[test]
fn test_secret_prompt_with_defaults() {
    let prompt = SecretPrompt::with_defaults("Test");
    assert_eq!(prompt.message(), "Test");
    assert!(prompt.is_active());
}

#[test]
fn test_secret_prompt_input() {
    let mut prompt = SecretPrompt::new("Test", create_test_colors());
    prompt.append_secret('a');
    prompt.append_secret('b');
    prompt.append_secret('c');
    assert_eq!(prompt.secret(), "abc");
    assert_eq!(prompt.display_text(), "***");
    prompt.pop_secret();
    assert_eq!(prompt.secret(), "ab");
    assert_eq!(prompt.display_text(), "**");
}

#[test]
fn test_secret_prompt_submit() {
    let mut prompt = SecretPrompt::new("Test", create_test_colors());
    for c in "secret".chars() {
        prompt.append_secret(c);
    }
    let submitted = prompt.submit();
    assert_eq!(submitted, "secret");
    assert!(prompt.secret().is_empty());
    assert!(prompt.display_text().is_empty());
    assert!(!prompt.is_active());
}

#[test]
fn test_prompt_manager_new() {
    let manager = PromptManager::new(create_test_colors());
    assert!(!manager.has_active_prompt());
}

#[test]
fn test_prompt_manager_with_defaults() {
    let manager = PromptManager::with_defaults();
    assert!(!manager.has_active_prompt());
}

#[test]
fn test_prompt_manager_show_approval() {
    let mut manager = PromptManager::new(create_test_colors());
    manager.show_approval("Test", Some("tool".to_string()));
    assert!(manager.has_active_prompt());
}

#[test]
fn test_prompt_manager_show_clarify() {
    let mut manager = PromptManager::new(create_test_colors());
    manager.show_clarify("Test", None);
    assert!(manager.has_active_prompt());
}

#[test]
fn test_prompt_manager_show_secret() {
    let mut manager = PromptManager::new(create_test_colors());
    manager.show_secret("Test");
    assert!(manager.has_active_prompt());
}

#[test]
fn test_prompt_manager_approve_deny() {
    let mut manager = PromptManager::new(create_test_colors());
    manager.show_approval("Test", None);
    assert!(manager.approve());
    assert!(manager.get_approval_response() == Some(true));
    manager.show_approval("Test 2", None);
    assert!(manager.deny());
    assert!(manager.get_approval_response() == Some(false));
}

#[test]
fn test_prompt_manager_cancel_all() {
    let mut manager = PromptManager::new(create_test_colors());
    manager.show_approval("Test", None);
    manager.show_clarify("Test", None);
    manager.show_secret("Test");
    assert!(manager.has_active_prompt());
    manager.cancel_all();
    assert!(!manager.has_active_prompt());
}

#[test]
fn approving_without_a_prompt_does_nothing() {
    let mut manager = PromptManager::with_defaults();
    assert!(!manager.approve());
    assert!(!manager.deny());
    assert_eq!(manager.submit_clarify(), None);
    assert_eq!(manager.submit_secret(), None);
}
