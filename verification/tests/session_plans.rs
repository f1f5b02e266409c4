use tmux_gateway_core::session_spec::NextAction;
use std::collections::HashMap;

use tmux_gateway_core::session_spec::{
    plan_apply_session_spec, plan_session_spec, plan_session_with_windows, validate_session_spec,
    PaneSpec, SessionSpec, SpecStep, SplitDirection, WindowSpec,
};
use tmux_gateway_core::validation::{SessionName, ValidationError};

fn spec(name: &str, windows: Vec<WindowSpec>, env: &[(&str, &str)]) -> SessionSpec {
    SessionSpec {
        name: name.to_string(),
        windows,
        environment: env.iter().map(|(k, v)| (k.to_string(), v.to_string())).collect(),
    }
}

fn window(name: &str, command: Option<&str>, panes: Vec<PaneSpec>) -> WindowSpec {
    WindowSpec { name: name.to_string(), command: command.map(|c| c.to_string()), panes }
}

fn pane(command: Option<&str>, split: SplitDirection) -> PaneSpec {
    PaneSpec { command: command.map(|c| c.to_string()), split }
}

fn kinds(steps: &[SpecStep]) -> Vec<&'static str> {
    steps
        .iter()
        .map(|s| match s {
            SpecStep::CreateSession { .. } => "create-session",
            SpecStep::RenameWindow { .. } => "rename-window",
            SpecStep::CreateWindow { .. } => "new-window",
            SpecStep::SplitPane { .. } => "split-window",
            SpecStep::SetEnvironment { .. } => "set-environment",
            SpecStep::Abort { .. } => "abort",
        })
        .collect()
}

#[test]
fn empty_spec_plans_session_only() {
    let (name, steps) = plan_apply_session_spec(&spec("test-session", vec![], &[])).unwrap();
    assert_eq!(name.as_str(), "test-session");
    assert_eq!(kinds(&steps), vec!["create-session"]);
    assert!(matches!(&steps[0], SpecStep::CreateSession { command: None }));
}

#[test]
fn spec_with_windows_renames_first_and_creates_rest() {
    let s = spec(
        "test-session",
        vec![window("editor", Some("vim"), vec![]), window("shell", None, vec![])],
        &[],
    );
    let (_, steps) = plan_apply_session_spec(&s).unwrap();
    assert_eq!(kinds(&steps), vec!["create-session", "rename-window", "new-window"]);
    match &steps[0] {
        SpecStep::CreateSession { command } => assert_eq!(command.as_deref(), Some("vim")),
        _ => panic!("first step must create the session"),
    }
    match &steps[1] {
        SpecStep::RenameWindow { target, name } => {
            assert_eq!(target.as_str(), "test-session:0");
            assert_eq!(name, "editor");
        }
        _ => panic!("second step must rename the first window"),
    }
    match &steps[2] {
        SpecStep::CreateWindow { name, command } => {
            assert_eq!(name, "shell");
            assert!(command.is_none());
        }
        _ => panic!("third step must create the second window"),
    }
}

#[test]
fn spec_with_panes_splits_each_from_the_previous() {
    let s = spec(
        "test-session",
        vec![window(
            "dashboard",
            None,
            vec![pane(Some("htop"), SplitDirection::Horizontal), pane(None, SplitDirection::Vertical)],
        )],
        &[],
    );
    let (_, steps) = plan_apply_session_spec(&s).unwrap();
    assert_eq!(kinds(&steps), vec!["create-session", "rename-window", "split-window", "split-window"]);
    match (&steps[2], &steps[3]) {
        (
            SpecStep::SplitPane { target: t0, horizontal: h0, command: c0 },
            SpecStep::SplitPane { target: t1, horizontal: h1, command: c1 },
        ) => {
            assert_eq!(t0.as_str(), "test-session:dashboard.0");
            assert!(*h0);
            assert_eq!(c0.as_deref(), Some("htop"));
            assert_eq!(t1.as_str(), "test-session:dashboard.1");
            assert!(!*h1);
            assert!(c1.is_none());
        }
        _ => panic!("expected two splits"),
    }
}

#[test]
fn spec_with_environment_sets_it_last() {
    let s = spec("test-session", vec![window("w", None, vec![])], &[("RUST_LOG", "debug")]);
    let (_, steps) = plan_apply_session_spec(&s).unwrap();
    assert_eq!(kinds(&steps), vec!["create-session", "rename-window", "set-environment"]);
    match &steps[2] {
        SpecStep::SetEnvironment { name, value } => {
            assert_eq!(name, "RUST_LOG");
            assert_eq!(value, "debug");
        }
        _ => panic!("expected set-environment"),
    }
}

#[test]
fn every_environment_entry_is_planned_once() {
    let s = spec("s", vec![], &[("A", "1"), ("B", "2"), ("C", "3")]);
    let (_, steps) = plan_apply_session_spec(&s).unwrap();
    let mut names: Vec<String> = steps
        .iter()
        .filter_map(|st| match st {
            SpecStep::SetEnvironment { name, .. } => Some(name.clone()),
            _ => None,
        })
        .collect();
    names.sort();
    assert_eq!(names, vec!["A", "B", "C"]);
}

#[test]
fn spec_validates_session_name_first() {
    let s = spec("", vec![window("", None, vec![])], &[]);
    assert_eq!(
        plan_apply_session_spec(&s).err(),
        Some(ValidationError::EmptyInput { field: "name" })
    );
}

#[test]
fn spec_validates_window_names() {
    let s = spec("test-session", vec![window("bad name", None, vec![])], &[]);
    assert!(matches!(
        plan_apply_session_spec(&s),
        Err(ValidationError::InvalidWindowName { .. })
    ));
}

#[test]
fn spec_validates_commands() {
    let s = spec("test-session", vec![window("editor", Some("rm -rf /; bad"), vec![])], &[]);
    assert!(matches!(plan_apply_session_spec(&s), Err(ValidationError::InvalidCommand { .. })));
    let s = spec(
        "test-session",
        vec![window("editor", None, vec![pane(Some("a && b"), SplitDirection::Vertical)])],
        &[],
    );
    assert!(matches!(plan_apply_session_spec(&s), Err(ValidationError::InvalidCommand { .. })));
}

#[test]
fn spec_validates_env_var_names_and_values() {
    let s = spec("test-session", vec![], &[("bad name", "value")]);
    assert!(matches!(plan_apply_session_spec(&s), Err(ValidationError::InvalidEnvVarName { .. })));
    let s = spec("test-session", vec![], &[("OK", "nul\0byte")]);
    assert!(matches!(plan_apply_session_spec(&s), Err(ValidationError::InvalidEnvVarValue { .. })));
}

#[test]
fn validation_reports_the_first_refusal_in_order() {
    let s = spec(
        "test-session",
        vec![window("ok", Some("bad;cmd"), vec![]), window("", None, vec![])],
        &[],
    );
    let env = vec![("bad name".to_string(), "v".to_string())];
    assert!(matches!(
        validate_session_spec(&s, &env),
        Err(ValidationError::InvalidCommand { .. })
    ));
    let good = spec("test-session", vec![window("ok", None, vec![])], &[]);
    assert_eq!(validate_session_spec(&good, &vec![]).unwrap().as_str(), "test-session");
}

#[test]
fn unformable_pane_target_aborts_with_rollback() {
    // ".x" is a valid window name, but "s:.x.0" has an empty window part.
    let s = spec(
        "s",
        vec![window(".x", None, vec![pane(None, SplitDirection::Vertical)])],
        &[("A", "1")],
    );
    let (_, steps) = plan_session_spec(&s, &vec![("A".to_string(), "1".to_string())]).unwrap();
    assert_eq!(kinds(&steps), vec!["create-session", "rename-window", "abort"]);
    match &steps[2] {
        SpecStep::Abort { error, rollback } => {
            assert!(matches!(error, ValidationError::InvalidTarget { .. }));
            assert!(*rollback);
        }
        _ => panic!("expected abort"),
    }
    assert!(steps[2].rolls_back());
}

#[test]
fn too_long_pane_target_aborts() {
    let session = "a".repeat(128);
    let window_name = "b".repeat(128);
    let s = spec(&session, vec![window(&window_name, None, vec![pane(None, SplitDirection::Horizontal)])], &[]);
    let (_, steps) = plan_session_spec(&s, &vec![]).unwrap();
    assert_eq!(kinds(&steps), vec!["create-session", "rename-window", "abort"]);
}

#[test]
fn rollback_follows_every_step_after_creation() {
    let s = spec("s", vec![window("w", None, vec![pane(None, SplitDirection::Vertical)])], &[("A", "1")]);
    let (_, steps) = plan_apply_session_spec(&s).unwrap();
    assert!(!steps[0].rolls_back());
    for st in &steps[1..] {
        assert!(st.rolls_back());
    }
}

#[test]
fn session_with_windows_plan() {
    let name = SessionName::try_from("dev").unwrap();
    let steps = plan_session_with_windows(&name, &vec!["editor".to_string(), "logs".to_string()]).unwrap();
    assert_eq!(kinds(&steps), vec!["create-session", "rename-window", "new-window"]);
    assert!(matches!(&steps[0], SpecStep::CreateSession { command: None }));
    let none = plan_session_with_windows(&name, &vec![]).unwrap();
    assert_eq!(kinds(&none), vec!["create-session"]);
    assert!(plan_session_with_windows(&name, &vec!["ok".to_string(), "b@d".to_string()]).is_err());
}

#[test]
fn plan_is_driven_step_by_step() {
    let s = spec("s", vec![window("w", None, vec![pane(None, SplitDirection::Vertical)])], &[]);
    let (_, steps) = plan_apply_session_spec(&s).unwrap();
    assert_eq!(steps.len(), 3);
    assert_eq!(SpecStep::first_action(&steps), NextAction::Run(0));
    assert_eq!(SpecStep::next_action(&steps, 0, true), NextAction::Run(1));
    assert_eq!(SpecStep::next_action(&steps, 2, true), NextAction::Finish);
    assert_eq!(SpecStep::next_action(&steps, 0, false), NextAction::Stop);
    assert_eq!(SpecStep::next_action(&steps, 1, false), NextAction::KillAndStop);
    assert_eq!(SpecStep::next_action(&steps, 2, false), NextAction::KillAndStop);
    assert_eq!(SpecStep::first_action(&vec![]), NextAction::Finish);
}
