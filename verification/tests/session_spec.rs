use std::collections::HashMap;
use tmux_gateway_core::session_spec::{PaneSpec, SessionSpec, SplitDirection, WindowSpec};

#[test]
fn session_spec_is_clone_debug_partialeq() {
    let spec = SessionSpec {
        name: "dev".to_string(),
        windows: vec![],
        environment: HashMap::new(),
    };
    let cloned = spec.clone();
    assert_eq!(spec, cloned);
    assert_eq!(format!("{spec:?}"), format!("{cloned:?}"));
}

#[test]
fn window_spec_default_panes() {
    let spec = WindowSpec {
        name: "editor".to_string(),
        command: Some("vim".to_string()),
        panes: vec![],
    };
    assert!(spec.panes.is_empty());
}

#[test]
fn pane_spec_equality() {
    let a = PaneSpec {
        command: Some("htop".to_string()),
        split: SplitDirection::Horizontal,
    };
    let b = PaneSpec {
        command: Some("htop".to_string()),
        split: SplitDirection::Horizontal,
    };
    assert_eq!(a, b);

    let c = PaneSpec {
        command: None,
        split: SplitDirection::Vertical,
    };
    assert_ne!(a, c);
}

#[test]
fn split_direction_equality() {
    assert_eq!(SplitDirection::Horizontal, SplitDirection::Horizontal);
    assert_ne!(SplitDirection::Horizontal, SplitDirection::Vertical);
}

#[test]
fn full_spec_with_multiple_panes() {
    let spec = SessionSpec {
        name: "monitoring".to_string(),
        windows: vec![WindowSpec {
            name: "dashboard".to_string(),
            command: None,
            panes: vec![
                PaneSpec {
                    command: Some("htop".to_string()),
                    split: SplitDirection::Horizontal,
                },
                PaneSpec {
                    command: Some("tail -f /var/log/syslog".to_string()),
                    split: SplitDirection::Vertical,
                },
            ],
        }],
        environment: HashMap::new(),
    };
    assert_eq!(spec.windows[0].panes.len(), 2);
}
