use tmux_gateway_core::tmux_commands::build_respawn_pane_command;
use tmux_gateway_core::validation::PaneTarget;

#[test]
fn build_respawn_pane_command_basic() {
    let target = PaneTarget::try_from("sess:0.0").unwrap();
    let spec = build_respawn_pane_command(&target, None, false);
    assert_eq!(spec.command_name(), "respawn-pane");
    assert_eq!(spec.args(), vec!["respawn-pane", "-t", "sess:0.0"]);
}

#[test]
fn build_respawn_pane_command_with_kill_and_command() {
    let target = PaneTarget::try_from("sess:0.0").unwrap();
    let spec = build_respawn_pane_command(&target, Some("bash"), true);
    assert_eq!(
        spec.args(),
        vec!["respawn-pane", "-k", "-t", "sess:0.0", "bash"]
    );
}
