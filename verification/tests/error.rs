use hermes_tui_rust::error::TuiError;

#[test]
fn test_protocol_error() {
    let err = TuiError::protocol("Invalid message format".to_string());
    assert!(matches!(err, TuiError::Protocol(_)));
    assert!(err.display_text().contains("Invalid message format"));
}

#[test]
fn test_state_error() {
    let err = TuiError::state("Session not found".to_string());
    assert!(matches!(err, TuiError::State(_)));
    assert!(err.display_text().contains("Session not found"));
}

#[test]
fn test_connection_error() {
    let err = TuiError::connection("Gateway not available".to_string());
    assert!(matches!(err, TuiError::Connection(_)));
    assert!(err.is_connection());
    assert!(!err.is_protocol());
}

#[test]
fn test_not_implemented_error() {
    let err = TuiError::not_implemented("Feature X".to_string());
    assert!(matches!(err, TuiError::NotImplemented(_)));
}

#[test]
fn test_error_message() {
    let err = TuiError::protocol("Test error".to_string());
    assert_eq!(err.message(), "Test error");
}

#[test]
fn test_is_methods() {
    let io_err = TuiError::Io("test".to_string());
    let protocol_err = TuiError::protocol("test".to_string());
    let state_err = TuiError::state("test".to_string());

    assert!(!io_err.is_connection());
    assert!(!io_err.is_protocol());
    assert!(!io_err.is_state());

    assert!(!protocol_err.is_connection());
    assert!(protocol_err.is_protocol());
    assert!(!protocol_err.is_state());

    assert!(!state_err.is_connection());
    assert!(!state_err.is_protocol());
    assert!(state_err.is_state());
}

#[test]
fn display_text_puts_heading_before_message() {
    assert_eq!(TuiError::config("bad".to_string()).display_text(), "Configuration error: bad");
    assert_eq!(TuiError::timeout("slow".to_string()).display_text(), "Timeout error: slow");
    assert_eq!(TuiError::invalid_input("x".to_string()).display_text(), "Invalid input: x");
    assert_eq!(TuiError::render("r".to_string()).display_text(), "Render error: r");
    assert_eq!(TuiError::Io("gone".to_string()).display_text(), "I/O error: gone");
}
