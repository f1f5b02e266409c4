use tmux_gateway_core::events::TmuxEvent;

#[test]
fn event_clone_and_debug() {
    let event = TmuxEvent::WindowCreated {
        session: "main".to_string(),
        name: "editor".to_string(),
    };
    let cloned = event.clone();
    assert_eq!(event, cloned);
    assert!(!format!("{event:?}").is_empty());
}
