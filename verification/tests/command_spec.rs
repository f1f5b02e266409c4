use tmux_gateway_core::command_spec::TmuxCommandSpec;

#[test]
fn command_spec_args() {
    let spec = TmuxCommandSpec::new(vec![
        "list-windows".into(),
        "-t".into(),
        "my-session".into(),
    ]);
    assert_eq!(spec.args(), vec!["list-windows", "-t", "my-session"]);
}

#[test]
fn command_spec_command_name() {
    let spec = TmuxCommandSpec::new(vec!["kill-session".into(), "-t".into(), "s".into()]);
    assert_eq!(spec.command_name(), "kill-session");
}

#[test]
fn command_spec_empty() {
    let spec = TmuxCommandSpec::new(vec![]);
    assert_eq!(spec.command_name(), "");
    assert!(spec.args().is_empty());
}
