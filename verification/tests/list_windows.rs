use tmux_gateway_core::list_windows::{build_list_windows_command, parse_list_windows_output, parse_window_line, TmuxWindow};
use tmux_gateway_core::validation::SessionName;

#[test]
fn display_active_window() {
    let window = TmuxWindow {
        id: "@0".to_string(),
        index: 0,
        name: "bash".to_string(),
        panes: 2,
        active: true,
    };
    assert_eq!(window.to_string(), "0:bash (2 panes, active)");
}

#[test]
fn display_inactive_window() {
    let window = TmuxWindow {
        id: "@1".to_string(),
        index: 1,
        name: "vim".to_string(),
        panes: 1,
        active: false,
    };
    assert_eq!(window.to_string(), "1:vim (1 panes)");
}

#[test]
fn parse_window_line_valid() {
    let window = parse_window_line("@0\t0\tbash\t1\t1").unwrap();
    assert_eq!(window.id, "@0");
    assert_eq!(window.index, 0);
    assert_eq!(window.name, "bash");
    assert_eq!(window.panes, 1);
    assert!(window.active);
}

#[test]
fn parse_window_line_inactive() {
    let window = parse_window_line("@2\t2\tvim\t3\t0").unwrap();
    assert_eq!(window.id, "@2");
    assert!(!window.active);
    assert_eq!(window.panes, 3);
}

#[test]
fn parse_window_line_missing_fields() {
    let result = parse_window_line("@0\t0\tbash");
    assert!(result.is_err());
}

#[test]
fn parse_window_line_invalid_index() {
    let result = parse_window_line("@0\tabc\tbash\t1\t1");
    assert!(result.is_err());
}

#[test]
fn parse_window_line_invalid_pane_count() {
    let result = parse_window_line("@0\t0\tbash\txyz\t1");
    assert!(result.is_err());
}

#[test]
fn parse_list_windows_output_multiple_lines() {
    let input = "@0\t0\tbash\t1\t1\n@1\t1\tvim\t2\t0\n";
    let windows = parse_list_windows_output(input).unwrap();
    assert_eq!(windows.len(), 2);
    assert_eq!(windows[0].id, "@0");
    assert_eq!(windows[0].name, "bash");
    assert_eq!(windows[1].id, "@1");
    assert_eq!(windows[1].name, "vim");
}

#[test]
fn parse_list_windows_output_empty_input() {
    let windows = parse_list_windows_output("").unwrap();
    assert!(windows.is_empty());
}

#[test]
fn parse_list_windows_output_skips_empty_lines() {
    let input = "\n@0\t0\tbash\t1\t1\n\n";
    let windows = parse_list_windows_output(input).unwrap();
    assert_eq!(windows.len(), 1);
}

#[test]
fn parse_list_windows_output_propagates_error() {
    let input = "@0\t0\tbash\t1\t1\nbad line";
    let result = parse_list_windows_output(input);
    assert!(result.is_err());
}

#[test]
fn build_list_windows_command_produces_correct_args() {
    let session = SessionName::try_from("my-session").unwrap();
    let spec = build_list_windows_command(&session);
    assert_eq!(spec.command_name(), "list-windows");
    let args = spec.args();
    assert_eq!(args[1], "-t");
    assert_eq!(args[2], "my-session");
    assert_eq!(args[3], "-F");
    assert!(args[4].contains("window_id"));
}
