use hermes_tui_rust::state::hashline::{HashlineEdit, HashlineEditBlock, HashlineEditType, HashlineParser};
use hermes_tui_rust::ui::hashline::{tokenize_line, HashlineViewer};

#[test]
fn test_parse_hashline_simple() {
    let content = "[src/main.rs#A1B2]\nreplace 1..3:\n+fn main() {\n+    println!(\"hello\");\n}";
    let block = HashlineParser::parse(content);
    assert!(block.is_some());
    let block = block.unwrap();
    assert_eq!(block.path, "src/main.rs");
    assert_eq!(block.edits.len(), 2);
    assert_eq!(block.edits[0].edit_type, HashlineEditType::Addition);
    assert_eq!(block.edits[0].content, "fn main() {");
    assert_eq!(block.edits[1].edit_type, HashlineEditType::Addition);
    assert_eq!(block.edits[1].content, "    println!(\"hello\");");
}

#[test]
fn test_parse_hashline_no_header() {
    let content = "+    println!(\"hello\");";
    let block = HashlineParser::parse(content);
    assert!(block.is_some());
    let block = block.unwrap();
    assert!(block.path.is_empty());
    assert_eq!(block.edits.len(), 1);
}

#[test]
fn test_parse_no_edits() {
    assert!(HashlineParser::parse("just a plain message").is_none());
    assert!(HashlineParser::parse("").is_none());
}

#[test]
fn test_parse_delete_lines() {
    let content = "[src/lib.rs#C3D4]\ndelete 10\n-old line\n-older line";
    let block = HashlineParser::parse(content);
    assert!(block.is_some());
    let block = block.unwrap();
    assert_eq!(block.path, "src/lib.rs");
    assert_eq!(block.edits.len(), 2);
    assert_eq!(block.edits[0].edit_type, HashlineEditType::Deletion);
    assert_eq!(block.edits[1].edit_type, HashlineEditType::Deletion);
}

#[test]
fn test_tokenize_line_plain() {
    let tokens = tokenize_line("let x = 5;");
    assert_eq!(tokens.len(), 1);
    assert!(!tokens[0].is_string);
}

#[test]
fn test_tokenize_line_with_string() {
    let tokens = tokenize_line(r#"println!("hello");"#);
    assert!(tokens.len() >= 2);
    assert!(tokens.iter().any(|t| t.is_string));
}

#[test]
fn tokenize_splits_around_strings_and_escapes() {
    let tokens = tokenize_line(r#"a "b\"c" d "e"#);
    let parts: Vec<(&str, bool)> = tokens.iter().map(|t| (t.text.as_str(), t.is_string)).collect();
    assert_eq!(parts, vec![("a ", false), (r#""b\"c""#, true), (" d ", false), ("\"e", true)]);
    assert!(tokenize_line("").is_empty());
    let quotes = tokenize_line("\"\"\"\"");
    let parts: Vec<(&str, bool)> = quotes.iter().map(|t| (t.text.as_str(), t.is_string)).collect();
    assert_eq!(parts, vec![("\"\"", true), ("\"\"", true)]);
}

#[test]
fn test_build_lines() {
    let viewer = HashlineViewer::new();
    let block = HashlineEditBlock {
        path: "test.rs".to_string(),
        edits: vec![
            HashlineEdit { edit_type: HashlineEditType::Addition, content: "fn main() {".to_string(), line_number: None, path: None },
            HashlineEdit { edit_type: HashlineEditType::Context, content: "}".to_string(), line_number: None, path: None },
        ],
        start_line: 1,
        end_line: 2,
    };
    let lines = viewer.build_lines(&block);
    assert_eq!(lines.len(), 2);
    assert_eq!(lines[0].gutter.as_deref(), Some("   1+ "));
    assert_eq!(lines[1].gutter.as_deref(), Some("   2  "));
    assert_eq!(viewer.title(&block), " test.rs ");
    let bare = viewer.show_gutter(false).build_lines(&block);
    assert!(bare[0].gutter.is_none());
}

#[test]
fn test_new_creates_default() {
    let viewer = HashlineViewer::new();
    assert!(viewer.show_gutter);
}
