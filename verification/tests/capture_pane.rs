use tmux_gateway_core::capture_pane::{normalize_pane_content, CapturedContent};

#[test]
fn normalize_strips_trailing_blank_lines() {
    let raw = "hello\nworld\n\n\n\n";
    assert_eq!(normalize_pane_content(raw), "hello\nworld");
}

#[test]
fn normalize_strips_trailing_whitespace_per_line() {
    let raw = "hello   \nworld  \n";
    assert_eq!(normalize_pane_content(raw), "hello\nworld");
}

#[test]
fn normalize_empty_pane() {
    assert_eq!(normalize_pane_content(""), "");
    assert_eq!(normalize_pane_content("\n\n\n"), "");
}

#[test]
fn normalize_whitespace_only_pane() {
    assert_eq!(normalize_pane_content("   \n  \n   \n"), "");
}

#[test]
fn normalize_preserves_content_lines() {
    let raw = "line1\nline2\nline3";
    assert_eq!(normalize_pane_content(raw), "line1\nline2\nline3");
}

#[test]
fn normalize_preserves_internal_blank_lines() {
    let raw = "line1\n\nline3\n\n\n";
    assert_eq!(normalize_pane_content(raw), "line1\n\nline3");
}

#[test]
fn normalize_handles_binary_replacement_chars() {
    let raw = "hello\u{FFFD}world\n\n\n";
    assert_eq!(normalize_pane_content(raw), "hello\u{FFFD}world");
}

#[test]
fn captured_content_type() {
    let content = CapturedContent::new("hello  \n\n\n");
    assert_eq!(content.as_str(), "hello");
    assert_eq!(String::from(content.clone()), "hello");
    assert_eq!(content.to_string(), "hello");
}
