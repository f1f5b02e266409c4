use tmux_gateway_core::options::OptionScope;
use tmux_gateway_core::validation::{validate_buffer_name, validate_command, validate_env_var_name, validate_env_var_value, validate_option_name, validate_option_scope_target, validate_pane_target, validate_session_name, validate_session_target, validate_window_name, validate_window_target, ValidationError, MAX_COMMAND_LEN, MAX_ENV_VAR_NAME_LEN, MAX_ENV_VAR_VALUE_LEN, MAX_TARGET_LEN};

// ── Session name validation ──

#[test]
fn valid_session_names() {
    assert!(validate_session_name("my-session").is_ok());
    assert!(validate_session_name("test_123").is_ok());
    assert!(validate_session_name("a").is_ok());
    assert!(validate_session_name("My.Session").is_ok());
}

#[test]
fn empty_session_name() {
    assert_eq!(
        validate_session_name(""),
        Err(ValidationError::EmptyInput { field: "name" })
    );
}

#[test]
fn session_name_too_long() {
    let long = "a".repeat(129);
    assert!(matches!(
        validate_session_name(&long),
        Err(ValidationError::InvalidSessionName { .. })
    ));
}

#[test]
fn session_name_with_spaces() {
    assert!(matches!(
        validate_session_name("my session"),
        Err(ValidationError::InvalidSessionName { .. })
    ));
}

#[test]
fn session_name_with_special_chars() {
    assert!(validate_session_name("foo;bar").is_err());
    assert!(validate_session_name("foo&bar").is_err());
    assert!(validate_session_name("$(cmd)").is_err());
    assert!(validate_session_name("foo\nbar").is_err());
}

// ── Session target validation ──

#[test]
fn valid_session_targets() {
    assert!(validate_session_target("my-session").is_ok());
    assert!(validate_session_target("test_123").is_ok());
}

#[test]
fn empty_session_target() {
    assert_eq!(
        validate_session_target(""),
        Err(ValidationError::EmptyInput { field: "target" })
    );
}

#[test]
fn session_target_with_colon() {
    assert!(matches!(
        validate_session_target("sess:win"),
        Err(ValidationError::InvalidTarget { .. })
    ));
}

// ── Window target validation ──

#[test]
fn valid_window_targets() {
    assert!(validate_window_target("sess:0").is_ok());
    assert!(validate_window_target("my-session:my-window").is_ok());
    assert!(validate_window_target("s:1").is_ok());
}

#[test]
fn empty_window_target() {
    assert_eq!(
        validate_window_target(""),
        Err(ValidationError::EmptyInput { field: "target" })
    );
}

#[test]
fn window_target_missing_colon() {
    assert!(matches!(
        validate_window_target("session"),
        Err(ValidationError::InvalidTarget { .. })
    ));
}

#[test]
fn window_target_empty_parts() {
    assert!(validate_window_target(":window").is_err());
    assert!(validate_window_target("session:").is_err());
}

// ── Pane target validation ──

#[test]
fn valid_pane_targets() {
    assert!(validate_pane_target("sess:0.1").is_ok());
    assert!(validate_pane_target("my-session:my-window.0").is_ok());
}

#[test]
fn empty_pane_target() {
    assert_eq!(
        validate_pane_target(""),
        Err(ValidationError::EmptyInput { field: "target" })
    );
}

#[test]
fn pane_target_missing_dot() {
    assert!(matches!(
        validate_pane_target("sess:0"),
        Err(ValidationError::InvalidTarget { .. })
    ));
}

#[test]
fn pane_target_missing_colon() {
    assert!(matches!(
        validate_pane_target("sess.0"),
        Err(ValidationError::InvalidTarget { .. })
    ));
}

#[test]
fn pane_target_empty_parts() {
    assert!(validate_pane_target(":win.0").is_err());
    assert!(validate_pane_target("sess:.0").is_err());
    assert!(validate_pane_target("sess:win.").is_err());
}

// ── Window name validation ──

#[test]
fn valid_window_names() {
    assert!(validate_window_name("my-window").is_ok());
    assert!(validate_window_name("test_123").is_ok());
    assert!(validate_window_name("a").is_ok());
    assert!(validate_window_name("My.Window").is_ok());
}

#[test]
fn empty_window_name() {
    assert_eq!(
        validate_window_name(""),
        Err(ValidationError::EmptyInput { field: "name" })
    );
}

#[test]
fn window_name_too_long() {
    let long = "a".repeat(129);
    assert!(matches!(
        validate_window_name(&long),
        Err(ValidationError::InvalidWindowName { .. })
    ));
}

#[test]
fn window_name_with_special_chars() {
    assert!(validate_window_name("foo;bar").is_err());
    assert!(validate_window_name("foo&bar").is_err());
    assert!(validate_window_name("$(cmd)").is_err());
}

// ── Target max-length validation ──

#[test]
fn session_target_at_max_length() {
    let target = "a".repeat(MAX_TARGET_LEN);
    assert!(validate_session_target(&target).is_ok());
}

#[test]
fn session_target_over_max_length() {
    let target = "a".repeat(MAX_TARGET_LEN + 1);
    assert!(matches!(
        validate_session_target(&target),
        Err(ValidationError::InvalidTarget { .. })
    ));
}

#[test]
fn window_target_at_max_length() {
    let session = "a".repeat(MAX_TARGET_LEN - 2);
    let target = format!("{session}:w");
    assert_eq!(target.len(), MAX_TARGET_LEN);
    assert!(validate_window_target(&target).is_ok());
}

#[test]
fn window_target_over_max_length() {
    let session = "a".repeat(MAX_TARGET_LEN);
    let target = format!("{session}:w");
    assert!(matches!(
        validate_window_target(&target),
        Err(ValidationError::InvalidTarget { .. })
    ));
}

#[test]
fn pane_target_at_max_length() {
    let session = "a".repeat(MAX_TARGET_LEN - 4);
    let target = format!("{session}:w.0");
    assert_eq!(target.len(), MAX_TARGET_LEN);
    assert!(validate_pane_target(&target).is_ok());
}

#[test]
fn pane_target_over_max_length() {
    let session = "a".repeat(MAX_TARGET_LEN);
    let target = format!("{session}:w.0");
    assert!(matches!(
        validate_pane_target(&target),
        Err(ValidationError::InvalidTarget { .. })
    ));
}

// ── Command injection prevention ──

#[test]
fn rejects_shell_metacharacters() {
    assert!(validate_session_target("$(whoami)").is_err());
    assert!(validate_window_target("sess;rm -rf:0").is_err());
    assert!(validate_pane_target("s:w.0 && echo").is_err());
}

// ── Option name validation ──

#[test]
fn valid_option_names() {
    assert!(validate_option_name("status").is_ok());
    assert!(validate_option_name("base-index").is_ok());
    assert!(validate_option_name("default_terminal").is_ok());
    assert!(validate_option_name("a").is_ok());
}

#[test]
fn empty_option_name() {
    assert_eq!(
        validate_option_name(""),
        Err(ValidationError::EmptyInput { field: "name" })
    );
}

#[test]
fn option_name_too_long() {
    let long = "a".repeat(129);
    assert!(matches!(
        validate_option_name(&long),
        Err(ValidationError::InvalidOptionName { .. })
    ));
}

#[test]
fn option_name_with_special_chars() {
    assert!(validate_option_name("foo;bar").is_err());
    assert!(validate_option_name("foo bar").is_err());
    assert!(validate_option_name("$(cmd)").is_err());
    assert!(validate_option_name("foo.bar").is_err());
}

// ── Option scope target validation ──

#[test]
fn option_scope_target_global_accepts_any() {
    assert!(validate_option_scope_target(OptionScope::Global, "anything").is_ok());
}

#[test]
fn option_scope_target_session_valid() {
    assert!(validate_option_scope_target(OptionScope::Session, "my-session").is_ok());
}

#[test]
fn option_scope_target_session_invalid() {
    assert!(validate_option_scope_target(OptionScope::Session, "").is_err());
}

#[test]
fn option_scope_target_window_valid() {
    assert!(validate_option_scope_target(OptionScope::Window, "sess:0").is_ok());
}

#[test]
fn option_scope_target_window_invalid() {
    assert!(validate_option_scope_target(OptionScope::Window, "sess").is_err());
}

// ── Command validation ──

#[test]
fn valid_commands() {
    assert!(validate_command("vim").is_ok());
    assert!(validate_command("htop").is_ok());
    assert!(validate_command("tail -f /var/log/syslog").is_ok());
    assert!(validate_command("python3 script.py --arg=value").is_ok());
    assert!(validate_command("/usr/bin/top").is_ok());
}

#[test]
fn empty_command() {
    assert_eq!(
        validate_command(""),
        Err(ValidationError::EmptyInput { field: "command" })
    );
}

#[test]
fn command_too_long() {
    let long = "a".repeat(MAX_COMMAND_LEN + 1);
    assert!(matches!(
        validate_command(&long),
        Err(ValidationError::InvalidCommand { .. })
    ));
}

#[test]
fn command_rejects_shell_metacharacters() {
    assert!(validate_command("echo; rm -rf /").is_err());
    assert!(validate_command("cat | grep foo").is_err());
    assert!(validate_command("cmd && other").is_err());
    assert!(validate_command("$(whoami)").is_err());
    assert!(validate_command("`whoami`").is_err());
    assert!(validate_command("cmd > file").is_err());
    assert!(validate_command("cmd < file").is_err());
}

// ── Environment variable name validation ──

#[test]
fn valid_env_var_names() {
    assert!(validate_env_var_name("PATH").is_ok());
    assert!(validate_env_var_name("HOME").is_ok());
    assert!(validate_env_var_name("_PRIVATE").is_ok());
    assert!(validate_env_var_name("MY_VAR_123").is_ok());
    assert!(validate_env_var_name("a").is_ok());
}

#[test]
fn empty_env_var_name() {
    assert_eq!(
        validate_env_var_name(""),
        Err(ValidationError::EmptyInput { field: "name" })
    );
}

#[test]
fn env_var_name_too_long() {
    let long = "A".repeat(MAX_ENV_VAR_NAME_LEN + 1);
    assert!(matches!(
        validate_env_var_name(&long),
        Err(ValidationError::InvalidEnvVarName { .. })
    ));
}

#[test]
fn env_var_name_starts_with_digit() {
    assert!(matches!(
        validate_env_var_name("1VAR"),
        Err(ValidationError::InvalidEnvVarName { .. })
    ));
}

#[test]
fn env_var_name_with_special_chars() {
    assert!(validate_env_var_name("MY-VAR").is_err());
    assert!(validate_env_var_name("MY.VAR").is_err());
    assert!(validate_env_var_name("MY VAR").is_err());
    assert!(validate_env_var_name("$(cmd)").is_err());
    assert!(validate_env_var_name("foo;bar").is_err());
}

// ── Environment variable value validation ──

#[test]
fn valid_env_var_values() {
    assert!(validate_env_var_value("").is_ok());
    assert!(validate_env_var_value("/usr/bin:/usr/local/bin").is_ok());
    assert!(validate_env_var_value("hello world").is_ok());
    assert!(validate_env_var_value("value with spaces and symbols!@#$%").is_ok());
}

#[test]
fn env_var_value_too_long() {
    let long = "a".repeat(MAX_ENV_VAR_VALUE_LEN + 1);
    assert!(matches!(
        validate_env_var_value(&long),
        Err(ValidationError::InvalidEnvVarValue { .. })
    ));
}

#[test]
fn env_var_value_with_null_byte() {
    assert!(matches!(
        validate_env_var_value("val\0ue"),
        Err(ValidationError::InvalidEnvVarValue { .. })
    ));
}

// ── Buffer name validation ──

#[test]
fn valid_buffer_names() {
    assert!(validate_buffer_name("buffer0").is_ok());
    assert!(validate_buffer_name("my_buffer").is_ok());
    assert!(validate_buffer_name("a").is_ok());
    assert!(validate_buffer_name("Buffer123").is_ok());
}

#[test]
fn empty_buffer_name() {
    assert_eq!(
        validate_buffer_name(""),
        Err(ValidationError::EmptyInput { field: "name" })
    );
}

#[test]
fn buffer_name_too_long() {
    let long = "a".repeat(129);
    assert!(matches!(
        validate_buffer_name(&long),
        Err(ValidationError::InvalidBufferName { .. })
    ));
}

#[test]
fn buffer_name_with_special_chars() {
    assert!(validate_buffer_name("buf;evil").is_err());
    assert!(validate_buffer_name("buf&evil").is_err());
    assert!(validate_buffer_name("$(cmd)").is_err());
    assert!(validate_buffer_name("buf-name").is_err());
    assert!(validate_buffer_name("buf.name").is_err());
    assert!(validate_buffer_name("buf name").is_err());
}
