use tmux_gateway_core::options::OptionScope;

// ── OptionScope ──

#[test]
fn scope_as_flag() {
    assert_eq!(OptionScope::Global.as_flag(), "-g");
    assert_eq!(OptionScope::Session.as_flag(), "-s");
    assert_eq!(OptionScope::Window.as_flag(), "-w");
}

#[test]
fn scope_display() {
    assert_eq!(OptionScope::Global.to_string(), "global");
    assert_eq!(OptionScope::Session.to_string(), "session");
    assert_eq!(OptionScope::Window.to_string(), "window");
}
