use tmux_gateway_core::environment::{parse_env_line, EnvVar};

// ── parse_env_line ──

#[test]
fn server_environment_parse_env_line_valid() {
    let env = parse_env_line("PATH=/usr/bin:/usr/local/bin").unwrap();
    assert_eq!(env.name, "PATH");
    assert_eq!(env.value, "/usr/bin:/usr/local/bin");
}

#[test]
fn server_environment_parse_env_line_empty_value() {
    let env = parse_env_line("MY_VAR=").unwrap();
    assert_eq!(env.name, "MY_VAR");
    assert_eq!(env.value, "");
}

#[test]
fn server_environment_parse_env_line_value_with_equals() {
    let env = parse_env_line("FOO=bar=baz").unwrap();
    assert_eq!(env.name, "FOO");
    assert_eq!(env.value, "bar=baz");
}

#[test]
fn server_environment_parse_env_line_unset_marker() {
    assert!(parse_env_line("-REMOVED_VAR").is_none());
}

#[test]
fn server_environment_parse_env_line_no_equals() {
    assert!(parse_env_line("NOEQUALS").is_none());
}

// ── EnvVar Display ──

#[test]
fn env_var_display() {
    let env = EnvVar {
        name: "EDITOR".to_string(),
        value: "vim".to_string(),
    };
    assert_eq!(env.to_string(), "EDITOR=vim");
}
