use tmux_gateway_core::sessions::{build_list_sessions_command, interpret_list_sessions, parse_list_sessions_output};
use tmux_gateway_core::validation::validate_pane_target;
use tmux_gateway_core::validation::validate_env_var_value;
use tmux_gateway_core::tmux_commands::{plan_new_session, plan_new_session_with_args};
use tmux_gateway_core::validation::{validate_command_arg, validate_working_directory, SessionName};
use tmux_gateway_core::capture_pane::CapturedContent;
use std::path::PathBuf;

use tmux_gateway_core::buffers::{plan_delete_buffer, plan_get_buffer, plan_paste_buffer, plan_set_buffer};
use tmux_gateway_core::error::TmuxError;
use tmux_gateway_core::executor::{timeout_secs, RealTmuxExecutor, TmuxOutput};
use tmux_gateway_core::health::parse_server_info;
use tmux_gateway_core::outcomes::after_create_attempt;
use tmux_gateway_core::server_info::server_info_from_version;
use tmux_gateway_core::session_detail::{require_listed_session, window_index_target};
use tmux_gateway_core::sessions::TmuxSession;
use tmux_gateway_core::validation::{PaneTarget, ValidationError};

fn session(name: &str) -> TmuxSession {
    TmuxSession { name: name.to_string(), windows: 1, created: 1700000000, attached: false }
}

#[test]
fn timeout_defaults_to_thirty_seconds() {
    assert_eq!(timeout_secs(None), 30);
    assert_eq!(timeout_secs(Some("5")), 5);
    assert_eq!(timeout_secs(Some("")), 30);
    assert_eq!(timeout_secs(Some("-1")), 30);
    assert_eq!(timeout_secs(Some("18446744073709551615")), u64::MAX);
    assert_eq!(timeout_secs(Some("18446744073709551616")), 30);
}

#[test]
fn executor_socket_configuration() {
    assert!(RealTmuxExecutor::new().socket_path.is_none());
    assert!(RealTmuxExecutor::default().socket_path.is_none());
    let e = RealTmuxExecutor::with_socket(PathBuf::from("/tmp/my-tmux-socket"));
    assert_eq!(e.socket_path, Some(PathBuf::from("/tmp/my-tmux-socket")));
}

#[test]
fn server_info_reads_version_output() {
    let up = server_info_from_version(true, true, "tmux 3.4\n");
    assert!(up.running);
    assert_eq!(up.version, "tmux 3.4");
    let failed = server_info_from_version(true, false, "tmux 3.4\n");
    assert!(!failed.running);
    assert!(failed.version.is_empty());
    assert!(!server_info_from_version(false, true, "x").running);
}

#[test]
fn server_uptime_is_measured_against_the_clock() {
    let (pid, uptime) = parse_server_info("42\t1\n");
    assert_eq!(pid, Some(42));
    assert!(uptime.is_some());
}

#[test]
fn window_targets_by_index() {
    assert_eq!(window_index_target("dev", 12).unwrap().as_str(), "dev:12");
    assert!(matches!(window_index_target("", 0), Err(ValidationError::InvalidTarget { .. })));
}

#[test]
fn listed_session_lookup() {
    let sessions = vec![session("a"), session("dev")];
    assert_eq!(require_listed_session(&sessions, "dev").unwrap().name, "dev");
    assert_eq!(
        require_listed_session(&sessions, "nope").unwrap_err(),
        TmuxError::SessionNotFound("nope".to_string())
    );
}

#[test]
fn ensure_session_falls_back_only_on_duplicate() {
    assert!(after_create_attempt(Err(TmuxError::SessionAlreadyExists("s".to_string()))).is_none());
    assert_eq!(
        after_create_attempt(Err(TmuxError::TmuxNotRunning)),
        Some(Err(TmuxError::TmuxNotRunning))
    );
    assert_eq!(after_create_attempt(Ok(session("s"))).unwrap().unwrap().name, "s");
}

#[test]
fn buffer_plans_validate_names() {
    assert_eq!(plan_get_buffer(None).unwrap().args(), vec!["show-buffer"]);
    assert_eq!(plan_get_buffer(Some("b0")).unwrap().args(), vec!["show-buffer", "-b", "b0"]);
    assert!(matches!(plan_get_buffer(Some("bad name")), Err(ValidationError::InvalidBufferName { .. })));
    assert_eq!(plan_set_buffer(Some("b"), "hi").unwrap().args(), vec!["set-buffer", "-b", "b", "hi"]);
    assert!(plan_set_buffer(Some(""), "hi").is_err());
    let t = PaneTarget::try_from("s:0.1").unwrap();
    assert_eq!(plan_paste_buffer(&t, None).unwrap().args(), vec!["paste-buffer", "-t", "s:0.1"]);
    assert_eq!(plan_delete_buffer("b1").unwrap().args(), vec!["delete-buffer", "-b", "b1"]);
    assert_eq!(plan_delete_buffer("").err(), Some(ValidationError::EmptyInput { field: "name" }));
}

#[test]
fn output_check_classifies_failures() {
    let ok = TmuxOutput { stdout: String::new(), stderr: String::new(), success: true };
    assert!(ok.check("x", "t").is_ok());
    let bad = TmuxOutput { stdout: String::new(), stderr: "Session Not Found".to_string(), success: false };
    assert_eq!(bad.check("x", "t"), Err(TmuxError::SessionNotFound("t".to_string())));
}

#[test]
fn error_messages() {
    assert_eq!(TmuxError::Timeout { command: "list-panes".to_string() }.to_string(), "tmux command timed out: list-panes");
    assert_eq!(TmuxError::TmuxNotRunning.to_string(), "tmux server is not running");
    assert_eq!(
        TmuxError::ParseError { command: "c".to_string(), details: "d".to_string() }.to_string(),
        "failed to parse tmux output for c: d"
    );
    assert_eq!(TmuxError::InvalidTarget("t".to_string()).to_string(), "invalid target: t");
    assert_eq!(
        TmuxError::CommandFailed { command: "c".to_string(), stderr: "e".to_string() }.to_string(),
        "tmux command failed: c: e"
    );
}

#[test]
fn pane_part_must_be_an_index() {
    assert!(validate_pane_target("s:w.0").is_ok());
    assert!(validate_pane_target("s:w.12").is_ok());
    assert_eq!(
        validate_pane_target("s:w.x"),
        Err(ValidationError::InvalidTarget { reason: "pane part must be a numeric index".to_string() })
    );
    assert!(validate_pane_target("s:w.1a").is_err());
    assert!(PaneTarget::try_from("s:w.%3").is_err());
}

#[test]
fn env_value_limit_counts_characters() {
    let wide = "é".repeat(3000);
    assert!(validate_env_var_value(&wide).is_ok());
    assert!(validate_env_var_value(&"é".repeat(4096)).is_ok());
    assert_eq!(
        validate_env_var_value(&"é".repeat(4097)),
        Err(ValidationError::InvalidEnvVarValue {
            reason: "must be at most 4096 characters, got 4097".to_string()
        })
    );
}

#[test]
fn working_directory_and_command_args() {
    assert!(validate_working_directory("/home/user").is_ok());
    assert_eq!(
        validate_working_directory(""),
        Err(ValidationError::EmptyInput { field: "working_directory" })
    );
    assert!(matches!(
        validate_working_directory("/tmp/\0x"),
        Err(ValidationError::InvalidWorkingDirectory { .. })
    ));
    assert!(validate_command_arg("a; b | c").is_ok());
    assert!(matches!(validate_command_arg("a\0"), Err(ValidationError::InvalidCommand { .. })));
    let name = SessionName::try_from("dev").unwrap();
    let spec = plan_new_session(&name, Some("vim"), Some("/src")).unwrap();
    assert_eq!(spec.args()[..6], ["new-session", "-d", "-s", "dev", "-c", "/src"]);
    assert_eq!(spec.args()[6], "vim");
    assert!(matches!(plan_new_session(&name, Some("a;b"), Some("")), Err(ValidationError::InvalidCommand { .. })));
    assert_eq!(
        plan_new_session(&name, None, Some("")).err(),
        Some(ValidationError::EmptyInput { field: "working_directory" })
    );
    let spec = plan_new_session_with_args(&name, &["ls", "-la"], None).unwrap();
    assert_eq!(spec.args()[spec.args().len() - 2..], ["ls", "-la"]);
    assert!(plan_new_session_with_args(&name, &["ok", "bad\0"], Some("/x")).is_err());
}

#[test]
fn captured_content_into_string() {
    let c = CapturedContent::new("x  \n\n");
    assert_eq!(String::from(c), "x");
}

#[test]
fn list_sessions_lines_lead_with_the_session_id() {
    let out = TmuxOutput {
        stdout: "$1\texisting\t3\t1700000000\t1\n".to_string(),
        stderr: String::new(),
        success: true,
    };
    let sessions = interpret_list_sessions(&out).unwrap();
    assert_eq!(sessions.len(), 1);
    assert_eq!(sessions[0].name, "existing");
    assert_eq!(sessions[0].windows, 3);
    assert_eq!(sessions[0].created, 1700000000);
    assert!(sessions[0].attached);
    let spec = build_list_sessions_command();
    assert_eq!(
        spec.args(),
        vec!["list-sessions", "-F", "#{session_id}\t#{session_name}\t#{session_windows}\t#{session_created}\t#{session_attached}"]
    );
    let v = parse_list_sessions_output("$0\ttest-session\t2\t1700000000\t0\n\n$3\tother\t1\t5\t1\n").unwrap();
    assert_eq!(v[0].name, "test-session");
    assert_eq!(v[1].name, "other");
    let none = TmuxOutput { stdout: String::new(), stderr: "no server running on /tmp/x".to_string(), success: false };
    assert!(interpret_list_sessions(&none).unwrap().is_empty());
}
