use tmux_gateway_core::environment::{parse_session_env_line, TmuxEnvVar};

// ── parse_session_env_line ──

#[test]
fn session_environment_parse_env_line_valid() {
    let env = parse_session_env_line("PATH=/usr/bin:/usr/local/bin").unwrap();
    assert_eq!(env.name, "PATH");
    assert_eq!(env.value, Some("/usr/bin:/usr/local/bin".to_string()));
}

#[test]
fn session_environment_parse_env_line_empty_value() {
    let env = parse_session_env_line("MY_VAR=").unwrap();
    assert_eq!(env.name, "MY_VAR");
    assert_eq!(env.value, Some(String::new()));
}

#[test]
fn session_environment_parse_env_line_value_with_equals() {
    let env = parse_session_env_line("FOO=bar=baz").unwrap();
    assert_eq!(env.name, "FOO");
    assert_eq!(env.value, Some("bar=baz".to_string()));
}

#[test]
fn session_environment_parse_env_line_unset_marker() {
    let env = parse_session_env_line("-REMOVED_VAR").unwrap();
    assert_eq!(env.name, "REMOVED_VAR");
    assert_eq!(env.value, None);
}

#[test]
fn session_environment_parse_env_line_no_equals() {
    assert!(parse_session_env_line("NOEQUALS").is_none());
}

#[test]
fn parse_env_line_empty() {
    assert!(parse_session_env_line("").is_none());
}

#[test]
fn parse_env_line_dash_only() {
    assert!(parse_session_env_line("-").is_none());
}

// ── TmuxEnvVar Display ──

#[test]
fn env_var_display_with_value() {
    let env = TmuxEnvVar {
        name: "EDITOR".to_string(),
        value: Some("vim".to_string()),
    };
    assert_eq!(env.to_string(), "EDITOR=vim");
}

#[test]
fn env_var_display_unset() {
    let env = TmuxEnvVar {
        name: "REMOVED".to_string(),
        value: None,
    };
    assert_eq!(env.to_string(), "-REMOVED");
}
