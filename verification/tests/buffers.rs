use tmux_gateway_core::buffers::{parse_buffer_line, TmuxBuffer};

// ── Display ──

#[test]
fn display_buffer() {
    let buf = TmuxBuffer {
        name: "buffer0".to_string(),
        size: 42,
    };
    assert_eq!(buf.to_string(), "buffer0 (42 bytes)");
}

// ── Parsing ──

#[test]
fn parse_buffer_line_valid() {
    let buf = parse_buffer_line("buffer0\t128").unwrap();
    assert_eq!(buf.name, "buffer0");
    assert_eq!(buf.size, 128);
}

#[test]
fn parse_buffer_line_missing_fields() {
    let result = parse_buffer_line("onlyname");
    assert!(result.is_err());
}

#[test]
fn parse_buffer_line_invalid_size() {
    let result = parse_buffer_line("buffer0\tnotanum");
    assert!(result.is_err());
}

#[test]
fn parse_buffer_line_zero_size() {
    let buf = parse_buffer_line("buf\t0").unwrap();
    assert_eq!(buf.size, 0);
}

#[test]
fn parse_buffers_multiple_lines() {
    let input = "buffer0\t100\nbuffer1\t200\n";
    let buffers: Vec<TmuxBuffer> = input
        .lines()
        .filter(|l| !l.is_empty())
        .map(parse_buffer_line)
        .collect::<Result<_, _>>()
        .unwrap();
    assert_eq!(buffers.len(), 2);
    assert_eq!(buffers[0].name, "buffer0");
    assert_eq!(buffers[1].name, "buffer1");
}

#[test]
fn parse_buffers_empty_input() {
    let buffers: Vec<TmuxBuffer> = ""
        .lines()
        .filter(|l| !l.is_empty())
        .map(parse_buffer_line)
        .collect::<Result<_, _>>()
        .unwrap();
    assert!(buffers.is_empty());
}
