use tmux_gateway_core::list_panes::{parse_pane_line, parse_panes, TmuxPane};

#[test]
fn display_active_pane() {
    let pane = TmuxPane {
        id: "%0".to_string(),
        width: 80,
        height: 24,
        active: true,
        current_path: "/home/user".to_string(),
        current_command: "bash".to_string(),
        pid: 1234,
    };
    assert_eq!(pane.to_string(), "%0 (80x24, active, bash)");
}

#[test]
fn display_inactive_pane() {
    let pane = TmuxPane {
        id: "%1".to_string(),
        width: 120,
        height: 40,
        active: false,
        current_path: "/tmp".to_string(),
        current_command: "vim".to_string(),
        pid: 5678,
    };
    assert_eq!(pane.to_string(), "%1 (120x40, vim)");
}

#[test]
fn parse_pane_line_valid() {
    let pane = parse_pane_line("%0\t80\t24\t1\t/home/user\tbash\t1234").unwrap();
    assert_eq!(pane.id, "%0");
    assert_eq!(pane.width, 80);
    assert_eq!(pane.height, 24);
    assert!(pane.active);
    assert_eq!(pane.current_path, "/home/user");
    assert_eq!(pane.current_command, "bash");
    assert_eq!(pane.pid, 1234);
}

#[test]
fn parse_pane_line_inactive() {
    let pane = parse_pane_line("%1\t120\t40\t0\t/tmp\tvim\t5678").unwrap();
    assert!(!pane.active);
    assert_eq!(pane.current_path, "/tmp");
    assert_eq!(pane.current_command, "vim");
    assert_eq!(pane.pid, 5678);
}

#[test]
fn parse_pane_line_missing_fields() {
    let result = parse_pane_line("%0\t80");
    assert!(result.is_err());
}

#[test]
fn parse_pane_line_invalid_width() {
    let result = parse_pane_line("%0\tabc\t24\t1\t/home\tbash\t1234");
    assert!(result.is_err());
}

#[test]
fn parse_pane_line_invalid_height() {
    let result = parse_pane_line("%0\t80\txyz\t1\t/home\tbash\t1234");
    assert!(result.is_err());
}

#[test]
fn parse_pane_line_invalid_pid() {
    let result = parse_pane_line("%0\t80\t24\t1\t/home\tbash\tnotanumber");
    assert!(result.is_err());
}

#[test]
fn parse_panes_multiple_lines() {
    let input = "%0\t80\t24\t1\t/home\tbash\t1234\n%1\t80\t24\t0\t/tmp\tzsh\t5678\n";
    let panes = parse_panes(input).unwrap();
    assert_eq!(panes.len(), 2);
    assert_eq!(panes[0].id, "%0");
    assert_eq!(panes[0].pid, 1234);
    assert_eq!(panes[1].id, "%1");
    assert_eq!(panes[1].pid, 5678);
}

#[test]
fn parse_panes_empty_input() {
    let panes = parse_panes("").unwrap();
    assert!(panes.is_empty());
}

#[test]
fn parse_panes_skips_empty_lines() {
    let input = "\n%0\t80\t24\t1\t/home\tbash\t1234\n\n";
    let panes = parse_panes(input).unwrap();
    assert_eq!(panes.len(), 1);
}

#[test]
fn parse_panes_propagates_error() {
    let input = "%0\t80\t24\t1\t/home\tbash\t1234\nbad line";
    let result = parse_panes(input);
    assert!(result.is_err());
}
