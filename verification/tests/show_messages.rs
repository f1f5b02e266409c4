use tmux_gateway_core::show_messages::{parse_message_line, TmuxMessage};

// ── Display ──

#[test]
fn display_message() {
    let msg = TmuxMessage {
        time: "14:07".to_string(),
        message: "client-123 command: list-sessions".to_string(),
    };
    assert_eq!(msg.to_string(), "14:07: client-123 command: list-sessions");
}

// ── Parsing ──

#[test]
fn parse_message_line_valid() {
    let msg = parse_message_line("14:07: client-123 command: show-messages").unwrap();
    assert_eq!(msg.time, "14:07");
    assert_eq!(msg.message, "client-123 command: show-messages");
}

#[test]
fn parse_message_line_with_colons_in_message() {
    let msg = parse_message_line("14:06: client-456 message: can't find session: foo").unwrap();
    assert_eq!(msg.time, "14:06");
    assert_eq!(msg.message, "client-456 message: can't find session: foo");
}

#[test]
fn parse_message_line_missing_separator() {
    let result = parse_message_line("no separator here");
    assert!(result.is_err());
}

#[test]
fn parse_messages_multiple_lines() {
    let input = "14:07: msg one\n14:06: msg two\n";
    let messages: Vec<TmuxMessage> = input
        .lines()
        .filter(|l| !l.is_empty())
        .map(parse_message_line)
        .collect::<Result<_, _>>()
        .unwrap();
    assert_eq!(messages.len(), 2);
    assert_eq!(messages[0].message, "msg one");
    assert_eq!(messages[1].message, "msg two");
}

#[test]
fn parse_messages_empty_input() {
    let messages: Vec<TmuxMessage> = ""
        .lines()
        .filter(|l| !l.is_empty())
        .map(parse_message_line)
        .collect::<Result<_, _>>()
        .unwrap();
    assert!(messages.is_empty());
}
