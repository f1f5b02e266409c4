//! Declarative session layouts, and the plan of tmux operations that
//! realizes one.

use std::collections::HashMap;

use vstd::prelude::*;

use crate::error::{TmuxError, TmuxErrorView};
use crate::text::{concat, dec, owned, push_decimal};
use crate::validation::{
    both, check_command, check_env_var_name, check_env_var_value, check_pane_target,
    check_session_name, check_window_name, check_window_target, validate_command,
    validate_env_var_name, validate_env_var_value, validate_window_name, PaneTarget, SessionName,
    ValidationError, ValidationErrorView, WindowTarget,
};

verus! {

/// Direction for splitting a pane.
#[derive(Debug, Clone, PartialEq, Eq)]
pub enum SplitDirection {
    Horizontal,
    Vertical,
}

/// Declarative specification for a single pane within a window.
#[derive(Debug, Clone, PartialEq, Eq)]
pub struct PaneSpec {
    /// Optional command to run in this pane.
    pub command: Option<String>,
    /// How to split from the previous pane to create this one.
    pub split: SplitDirection,
}

/// Declarative specification for a single window within a session.
#[derive(Debug, Clone, PartialEq, Eq)]
pub struct WindowSpec {
    /// Window name.
    pub name: String,
    /// Optional command for the initial pane of this window.
    pub command: Option<String>,
    /// Additional panes to create by splitting.
    pub panes: Vec<PaneSpec>,
}

/// Declarative specification describing a desired tmux session layout.
#[derive(Debug, Clone, PartialEq, Eq)]
pub struct SessionSpec {
    /// Session name.
    pub name: String,
    /// Windows to create in the session.
    pub windows: Vec<WindowSpec>,
    /// Environment variables to set on the session.
    pub environment: HashMap<String, String>,
}

/// The text of an optional string.
pub open spec fn opt_view(o: Option<String>) -> Option<Seq<char>> {
    match o {
        Some(s) => Some(s@),
        None => None,
    }
}

/// A pane spec: its command's text, and whether it splits horizontally.
pub struct PaneSpecView {
    pub command: Option<Seq<char>>,
    pub horizontal: bool,
}

impl View for PaneSpec {
    type V = PaneSpecView;

    open spec fn view(&self) -> PaneSpecView {
        PaneSpecView { command: opt_view(self.command), horizontal: self.split == SplitDirection::Horizontal }
    }
}

/// A window spec with its texts as character sequences.
pub struct WindowSpecView {
    pub name: Seq<char>,
    pub command: Option<Seq<char>>,
    pub panes: Seq<PaneSpecView>,
}

impl View for WindowSpec {
    type V = WindowSpecView;

    open spec fn view(&self) -> WindowSpecView {
        WindowSpecView {
            name: self.name@,
            command: opt_view(self.command),
            panes: self.panes@.map_values(|p: PaneSpec| p@),
        }
    }
}

/// The views of the windows of a spec.
pub open spec fn windows_view(ws: Seq<WindowSpec>) -> Seq<WindowSpecView> {
    ws.map_values(|w: WindowSpec| w@)
}

/// The views of environment entries.
pub open spec fn env_view(env: Seq<(String, String)>) -> Seq<(Seq<char>, Seq<char>)> {
    env.map_values(|e: (String, String)| (e.0@, e.1@))
}

/// The check of an optional command, given as text.
pub open spec fn check_command_view(c: Option<Seq<char>>) -> Result<(), ValidationErrorView> {
    match c {
        Some(c) => check_command(c),
        None => Ok(()),
    }
}

/// The checks of the pane commands, in order.
pub open spec fn panes_checks(ps: Seq<PaneSpecView>) -> Result<(), ValidationErrorView>
    decreases ps.len(),
{
    if ps.len() == 0 {
        Ok(())
    } else {
        both(panes_checks(ps.drop_last()), check_command_view(ps.last().command))
    }
}

/// The checks of one window: its name, its command, its panes' commands.
pub open spec fn window_checks(w: WindowSpecView) -> Result<(), ValidationErrorView> {
    both(check_window_name(w.name), both(check_command_view(w.command), panes_checks(w.panes)))
}

/// The checks of the windows, in order.
pub open spec fn windows_checks(ws: Seq<WindowSpecView>) -> Result<(), ValidationErrorView>
    decreases ws.len(),
{
    if ws.len() == 0 {
        Ok(())
    } else {
        both(windows_checks(ws.drop_last()), window_checks(ws.last()))
    }
}

/// The checks of the environment entries, in order.
pub open spec fn env_checks(env: Seq<(Seq<char>, Seq<char>)>) -> Result<(), ValidationErrorView>
    decreases env.len(),
{
    if env.len() == 0 {
        Ok(())
    } else {
        both(
            env_checks(env.drop_last()),
            both(check_env_var_name(env.last().0), check_env_var_value(env.last().1)),
        )
    }
}

/// Everything `apply_session_spec` validates before it creates anything.
pub open spec fn spec_checks(
    name: Seq<char>,
    ws: Seq<WindowSpecView>,
    env: Seq<(Seq<char>, Seq<char>)>,
) -> Result<(), ValidationErrorView> {
    both(check_session_name(name), both(windows_checks(ws), env_checks(env)))
}

fn validate_owned_command(c: &Option<String>) -> (r: Result<(), ValidationError>)
    ensures
        r is Ok <==> check_command_view(opt_view(*c)) is Ok,
        r matches Err(x) ==> check_command_view(opt_view(*c)) == Err::<(), ValidationErrorView>(x@),
{
    match c {
        Some(c) => validate_command(c.as_str()),
        None => Ok(()),
    }
}

fn validate_window_spec(w: &WindowSpec) -> (r: Result<(), ValidationError>)
    ensures
        r is Ok <==> window_checks(w@) is Ok,
        r matches Err(x) ==> window_checks(w@) == Err::<(), ValidationErrorView>(x@),
{
    if let Err(e) = validate_window_name(w.name.as_str()) {
        return Err(e);
    }
    if let Err(e) = validate_owned_command(&w.command) {
        return Err(e);
    }
    let ghost ps = w@.panes;
    let mut i: usize = 0;
    assert(ps.take(0) =~= Seq::<PaneSpecView>::empty());
    while i < w.panes.len()
        invariant
            i <= w.panes@.len(),
            ps == w@.panes,
            ps.len() == w.panes@.len(),
            check_window_name(w@.name) is Ok,
            check_command_view(w@.command) is Ok,
            panes_checks(ps.take(i as int)) is Ok,
        decreases w.panes@.len() - i,
    {
        assert(ps.take(i + 1).drop_last() =~= ps.take(i as int));
        assert(ps.take(i + 1).last() == w.panes@[i as int]@);
        let r = validate_owned_command(&w.panes[i].command);
        if let Err(e) = r {
            proof {
                assert(panes_checks(ps.take(i + 1)) == Err::<(), ValidationErrorView>(e@));
                lemma_panes_checks_prefix(ps, i + 1);
            }
            return Err(e);
        }
        i += 1;
    }
    assert(ps.take(i as int) =~= ps);
    Ok(())
}

/// A refusal among the first `k` panes is the refusal of all panes.
proof fn lemma_panes_checks_prefix(ps: Seq<PaneSpecView>, k: int)
    requires
        0 <= k <= ps.len(),
        panes_checks(ps.take(k)) is Err,
    ensures
        panes_checks(ps) == panes_checks(ps.take(k)),
    decreases ps.len() - k,
{
    if k < ps.len() {
        assert(ps.take(k + 1).drop_last() =~= ps.take(k));
        lemma_panes_checks_prefix(ps, k + 1);
    } else {
        assert(ps.take(k) =~= ps);
    }
}

/// A refusal among the first `k` windows is the refusal of all windows.
proof fn lemma_windows_checks_prefix(ws: Seq<WindowSpecView>, k: int)
    requires
        0 <= k <= ws.len(),
        windows_checks(ws.take(k)) is Err,
    ensures
        windows_checks(ws) == windows_checks(ws.take(k)),
    decreases ws.len() - k,
{
    if k < ws.len() {
        assert(ws.take(k + 1).drop_last() =~= ws.take(k));
        lemma_windows_checks_prefix(ws, k + 1);
    } else {
        assert(ws.take(k) =~= ws);
    }
}

/// A refusal among the first `k` entries is the refusal of all entries.
proof fn lemma_env_checks_prefix(env: Seq<(Seq<char>, Seq<char>)>, k: int)
    requires
        0 <= k <= env.len(),
        env_checks(env.take(k)) is Err,
    ensures
        env_checks(env) == env_checks(env.take(k)),
    decreases env.len() - k,
{
    if k < env.len() {
        assert(env.take(k + 1).drop_last() =~= env.take(k));
        lemma_env_checks_prefix(env, k + 1);
    } else {
        assert(env.take(k) =~= env);
    }
}

fn validate_windows(ws: &Vec<WindowSpec>) -> (r: Result<(), ValidationError>)
    ensures
        r is Ok <==> windows_checks(windows_view(ws@)) is Ok,
        r matches Err(x) ==> windows_checks(windows_view(ws@)) == Err::<(), ValidationErrorView>(x@),
{
    let ghost wv = windows_view(ws@);
    let mut k: usize = 0;
    assert(wv.take(0) =~= Seq::<WindowSpecView>::empty());
    while k < ws.len()
        invariant
            k <= ws@.len(),
            wv == windows_view(ws@),
            wv.len() == ws@.len(),
            windows_checks(wv.take(k as int)) is Ok,
        decreases ws@.len() - k,
    {
        assert(wv.take(k + 1).drop_last() =~= wv.take(k as int));
        assert(wv.take(k + 1).last() == ws@[k as int]@);
        let r = validate_window_spec(&ws[k]);
        if let Err(e) = r {
            proof {
                assert(windows_checks(wv.take(k + 1)) == Err::<(), ValidationErrorView>(e@));
                lemma_windows_checks_prefix(wv, k + 1);
            }
            return Err(e);
        }
        k += 1;
    }
    assert(wv.take(k as int) =~= wv);
    Ok(())
}

fn validate_environment(env: &Vec<(String, String)>) -> (r: Result<(), ValidationError>)
    ensures
        r is Ok <==> env_checks(env_view(env@)) is Ok,
        r matches Err(x) ==> env_checks(env_view(env@)) == Err::<(), ValidationErrorView>(x@),
{
    let ghost ev = env_view(env@);
    let mut k: usize = 0;
    assert(ev.take(0) =~= Seq::<(Seq<char>, Seq<char>)>::empty());
    while k < env.len()
        invariant
            k <= env@.len(),
            ev == env_view(env@),
            ev.len() == env@.len(),
            env_checks(ev.take(k as int)) is Ok,
        decreases env@.len() - k,
    {
        assert(ev.take(k + 1).drop_last() =~= ev.take(k as int));
        assert(ev.take(k + 1).last() == (env@[k as int].0@, env@[k as int].1@));
        let r = match validate_env_var_name(env[k].0.as_str()) {
            Err(e) => Err(e),
            Ok(()) => validate_env_var_value(env[k].1.as_str()),
        };
        if let Err(e) = r {
            proof {
                assert(env_checks(ev.take(k + 1)) == Err::<(), ValidationErrorView>(e@));
                lemma_env_checks_prefix(ev, k + 1);
            }
            return Err(e);
        }
        k += 1;
    }
    assert(ev.take(k as int) =~= ev);
    Ok(())
}

/// Everything a session layout is checked for before anything is created:
/// the session name, then each window (name, command, pane commands), then
/// each environment entry (name, value), in that order; the first refusal
/// is the answer. `environment` lists the spec's environment entries in the
/// order in which they are applied.
pub fn validate_session_spec(
    spec: &SessionSpec,
    environment: &Vec<(String, String)>,
) -> (r: Result<SessionName, ValidationError>)
    ensures
        r is Ok <==> spec_checks(spec.name@, windows_view(spec.windows@), env_view(environment@)) is Ok,
        r matches Err(x) ==> spec_checks(spec.name@, windows_view(spec.windows@), env_view(environment@))
            == Err::<(), ValidationErrorView>(x@),
        r matches Ok(n) ==> n@ == spec.name@,
{
    let name = match SessionName::try_from(spec.name.as_str()) {
        Ok(n) => n,
        Err(e) => return Err(e),
    };
    if let Err(e) = validate_windows(&spec.windows) {
        return Err(e);
    }
    if let Err(e) = validate_environment(environment) {
        return Err(e);
    }
    Ok(name)
}

/// One tmux operation of a session layout, in the order they are carried out.
pub enum SpecStep {
    /// Create the session, running the first window's command, if any.
    CreateSession { command: Option<String> },
    /// Rename the session's first window.
    RenameWindow { target: WindowTarget, name: String },
    /// Create a further window.
    CreateWindow { name: String, command: Option<String> },
    /// Split a pane of a window.
    SplitPane { target: PaneTarget, horizontal: bool, command: Option<String> },
    /// Set an environment variable on the session.
    SetEnvironment { name: String, value: String },
    /// A target could not be formed: stop with this error, killing the
    /// session first when `rollback` holds.
    Abort { error: ValidationError, rollback: bool },
}

/// A planned step with its texts as character sequences.
pub enum StepView {
    CreateSession { command: Option<Seq<char>> },
    RenameWindow { target: Seq<char>, name: Seq<char> },
    CreateWindow { name: Seq<char>, command: Option<Seq<char>> },
    SplitPane { target: Seq<char>, horizontal: bool, command: Option<Seq<char>> },
    SetEnvironment { name: Seq<char>, value: Seq<char> },
    Abort { error: ValidationErrorView, rollback: bool },
}

impl View for SpecStep {
    type V = StepView;

    open spec fn view(&self) -> StepView {
        match self {
            SpecStep::CreateSession { command } => StepView::CreateSession { command: opt_view(*command) },
            SpecStep::RenameWindow { target, name } => StepView::RenameWindow { target: target@, name: name@ },
            SpecStep::CreateWindow { name, command } => StepView::CreateWindow {
                name: name@,
                command: opt_view(*command),
            },
            SpecStep::SplitPane { target, horizontal, command } => StepView::SplitPane {
                target: target@,
                horizontal: *horizontal,
                command: opt_view(*command),
            },
            SpecStep::SetEnvironment { name, value } => StepView::SetEnvironment { name: name@, value: value@ },
            SpecStep::Abort { error, rollback } => StepView::Abort { error: error@, rollback: *rollback },
        }
    }
}

/// The views of planned steps.
pub open spec fn steps_view(v: Seq<SpecStep>) -> Seq<StepView> {
    v.map_values(|st: SpecStep| st@)
}

/// The first window of a new session: `session:0`.
pub open spec fn default_window_target(session: Seq<char>) -> Seq<char> {
    session + seq![':', '0']
}

/// Pane `i` of a window: `session:window.i`.
pub open spec fn pane_target_text(session: Seq<char>, window: Seq<char>, i: nat) -> Seq<char> {
    session + seq![':'] + window + seq!['.'] + dec(i)
}

/// The step that gives the first window its name.
pub open spec fn rename_step(session: Seq<char>, name: Seq<char>) -> StepView {
    let t = default_window_target(session);
    match check_window_target(t) {
        Ok(()) => StepView::RenameWindow { target: t, name },
        Err(e) => StepView::Abort { error: e, rollback: false },
    }
}

/// The step that splits off pane `i + 1` of a window from pane `i`.
pub open spec fn split_step(session: Seq<char>, window: Seq<char>, i: nat, p: PaneSpecView) -> StepView {
    let t = pane_target_text(session, window, i);
    match check_pane_target(t) {
        Ok(()) => StepView::SplitPane { target: t, horizontal: p.horizontal, command: p.command },
        Err(e) => StepView::Abort { error: e, rollback: true },
    }
}

/// The splits of a window, one per extra pane.
pub open spec fn pane_steps(session: Seq<char>, window: Seq<char>, ps: Seq<PaneSpecView>) -> Seq<StepView> {
    Seq::new(ps.len(), |i: int| split_step(session, window, i as nat, ps[i]))
}

/// The step that brings window `k` into being: the first window exists with
/// the session and is renamed; the others are created.
pub open spec fn window_head(session: Seq<char>, k: int, w: WindowSpecView) -> StepView {
    if k == 0 {
        rename_step(session, w.name)
    } else {
        StepView::CreateWindow { name: w.name, command: w.command }
    }
}

/// The steps of window `k`: the step that brings it into being, then its splits.
pub open spec fn window_steps(session: Seq<char>, k: int, w: WindowSpecView) -> Seq<StepView> {
    seq![window_head(session, k, w)] + pane_steps(session, w.name, w.panes)
}

/// The steps of the windows, in order.
pub open spec fn windows_steps(session: Seq<char>, ws: Seq<WindowSpecView>) -> Seq<StepView>
    decreases ws.len(),
{
    if ws.len() == 0 {
        Seq::empty()
    } else {
        windows_steps(session, ws.drop_last()) + window_steps(session, ws.len() - 1, ws.last())
    }
}

/// One `SetEnvironment` step per entry, in order.
pub open spec fn env_steps(env: Seq<(Seq<char>, Seq<char>)>) -> Seq<StepView> {
    env.map_values(|e: (Seq<char>, Seq<char>)| StepView::SetEnvironment { name: e.0, value: e.1 })
}

/// The command the session starts with: that of the first window.
pub open spec fn first_command(ws: Seq<WindowSpecView>) -> Option<Seq<char>> {
    if ws.len() == 0 {
        None
    } else {
        ws[0].command
    }
}

/// Every operation of a layout, as if every target could be formed.
pub open spec fn intended_steps(
    session: Seq<char>,
    ws: Seq<WindowSpecView>,
    env: Seq<(Seq<char>, Seq<char>)>,
) -> Seq<StepView> {
    seq![StepView::CreateSession { command: first_command(ws) }] + windows_steps(session, ws) + env_steps(env)
}

/// The steps up to and including the first `Abort`.
pub open spec fn until_abort(steps: Seq<StepView>) -> Seq<StepView>
    decreases steps.len(),
{
    if steps.len() == 0 {
        steps
    } else if steps[0] is Abort {
        seq![steps[0]]
    } else {
        seq![steps[0]] + until_abort(steps.drop_first())
    }
}

/// The operations that realize a layout, in order.
pub open spec fn session_plan(
    session: Seq<char>,
    ws: Seq<WindowSpecView>,
    env: Seq<(Seq<char>, Seq<char>)>,
) -> Seq<StepView> {
    until_abort(intended_steps(session, ws, env))
}

/// None of `steps` is an `Abort`.
pub open spec fn no_abort(steps: Seq<StepView>) -> bool {
    forall|i: int| 0 <= i < steps.len() ==> !(#[trigger] steps[i] is Abort)
}

/// `a` is a prefix of `b`.
pub open spec fn is_prefix(a: Seq<StepView>, b: Seq<StepView>) -> bool {
    a.len() <= b.len() && forall|i: int| 0 <= i < a.len() ==> #[trigger] a[i] == b[i]
}

proof fn lemma_until_abort_none(steps: Seq<StepView>)
    requires
        no_abort(steps),
    ensures
        until_abort(steps) == steps,
    decreases steps.len(),
{
    if steps.len() > 0 {
        assert(!(steps[0] is Abort));
        lemma_until_abort_none(steps.drop_first());
        assert(seq![steps[0]] + steps.drop_first() =~= steps);
    }
}

proof fn lemma_until_abort_stop(a: Seq<StepView>, b: Seq<StepView>)
    requires
        a.len() > 0,
        is_prefix(a, b),
        no_abort(a.drop_last()),
        a.last() is Abort,
    ensures
        until_abort(b) == a,
    decreases a.len(),
{
    if a.len() == 1 {
        assert(b[0] == a[0]);
        assert(seq![b[0]] =~= a);
    } else {
        assert(b[0] == a[0]);
        assert(a.drop_last()[0] == a[0]);
        assert(!(b[0] is Abort));
        let a2 = a.drop_first();
        let b2 = b.drop_first();
        assert(a2.drop_last() =~= a.drop_last().drop_first());
        lemma_until_abort_stop(a2, b2);
        assert(seq![b[0]] + a2 =~= a);
    }
}

proof fn lemma_windows_steps_prefix(session: Seq<char>, ws: Seq<WindowSpecView>, k: int)
    requires
        0 <= k <= ws.len(),
    ensures
        is_prefix(windows_steps(session, ws.take(k)), windows_steps(session, ws)),
    decreases ws.len(),
{
    if k < ws.len() {
        assert(ws.drop_last().take(k) =~= ws.take(k));
        lemma_windows_steps_prefix(session, ws.drop_last(), k);
    } else {
        assert(ws.take(k) =~= ws);
    }
}

fn clone_opt(o: &Option<String>) -> (r: Option<String>)
    ensures
        opt_view(r) == opt_view(*o),
{
    match o {
        Some(s) => Some(s.clone()),
        None => None,
    }
}

fn pane_target_string(session: &SessionName, window: &str, i: usize) -> (r: String)
    ensures
        r@ == pane_target_text(session@, window@, i as nat),
{
    let mut t = concat(session.as_str(), ":");
    let t2 = concat(t.as_str(), window);
    t = concat(t2.as_str(), ".");
    push_decimal(&mut t, i as u64);
    proof {
        reveal_strlit(":");
        reveal_strlit(".");
        assert(t@ =~= pane_target_text(session@, window@, i as nat));
    }
    t
}

proof fn lemma_prefix_trans(a: Seq<StepView>, b: Seq<StepView>, c: Seq<StepView>)
    requires
        is_prefix(a, b),
        is_prefix(b, c),
    ensures
        is_prefix(a, c),
{
    assert forall|i: int| 0 <= i < a.len() implies #[trigger] a[i] == c[i] by {
        assert(a[i] == b[i]);
    }
}

/// What the steps planned so far are, once window `k` is done.
proof fn lemma_window_done(session: Seq<char>, ws: Seq<WindowSpecView>, k: int)
    requires
        0 <= k < ws.len(),
    ensures
        windows_steps(session, ws.take(k + 1)) == windows_steps(session, ws.take(k)) + window_steps(session, k, ws[k]),
{
    assert(ws.take(k + 1).drop_last() =~= ws.take(k));
}

/// A step list that stops at an `Abort` met while planning window `k`,
/// after its first `j` steps, is the whole plan.
proof fn lemma_abort_in_window(
    session: Seq<char>,
    ws: Seq<WindowSpecView>,
    env: Seq<(Seq<char>, Seq<char>)>,
    k: int,
    j: int,
    done: Seq<StepView>,
)
    requires
        0 <= k < ws.len(),
        0 <= j < window_steps(session, k, ws[k]).len(),
        window_steps(session, k, ws[k])[j] is Abort,
        done == seq![StepView::CreateSession { command: first_command(ws) }] + windows_steps(session, ws.take(k))
            + window_steps(session, k, ws[k]).take(j + 1),
        no_abort(done.drop_last()),
    ensures
        session_plan(session, ws, env) == done,
{
    let all = intended_steps(session, ws, env);
    let create = seq![StepView::CreateSession { command: first_command(ws) }];
    let big = create + windows_steps(session, ws.take(k + 1));
    lemma_window_done(session, ws, k);
    lemma_windows_steps_prefix(session, ws, k + 1);
    assert(is_prefix(done, big)) by {
        assert forall|i: int| 0 <= i < done.len() implies #[trigger] done[i] == big[i] by {
            let pre = create + windows_steps(session, ws.take(k));
            if i < pre.len() {
            } else {
                assert(done[i] == window_steps(session, k, ws[k])[i - pre.len()]);
            }
        }
    }
    assert(is_prefix(big, all)) by {
        assert forall|i: int| 0 <= i < big.len() implies #[trigger] big[i] == all[i] by {
            if i > 0 {
                assert(big[i] == windows_steps(session, ws.take(k + 1))[i - 1]);
                assert(all[i] == windows_steps(session, ws)[i - 1]);
            }
        }
    }
    lemma_prefix_trans(done, big, all);
    lemma_until_abort_stop(done, all);
}

/// The operations that realize a checked layout, in order (see `session_plan`).
fn layout_steps(session: &SessionName, ws: &Vec<WindowSpec>, env: &Vec<(String, String)>) -> (r: Vec<SpecStep>)
    ensures
        steps_view(r@) == session_plan(session@, windows_view(ws@), env_view(env@)),
{
    let ghost wv = windows_view(ws@);
    let ghost ev = env_view(env@);
    let ghost create = seq![StepView::CreateSession { command: first_command(wv) }];
    let mut steps: Vec<SpecStep> = Vec::new();
    let first = if ws.len() > 0 {
        clone_opt(&ws[0].command)
    } else {
        None
    };
    steps.push(SpecStep::CreateSession { command: first });
    assert(steps_view(steps@) =~= create + windows_steps(session@, wv.take(0)));
    let mut k: usize = 0;
    while k < ws.len()
        invariant
            k <= ws@.len(),
            wv == windows_view(ws@),
            ev == env_view(env@),
            wv.len() == ws@.len(),
            create == seq![StepView::CreateSession { command: first_command(wv) }],
            steps_view(steps@) == create + windows_steps(session@, wv.take(k as int)),
            no_abort(steps_view(steps@)),
        decreases ws@.len() - k,
    {
        let w = &ws[k];
        let ghost before = steps_view(steps@);
        let ghost ww = wv[k as int];
        assert(ww == w@);
        proof { lemma_window_done(session@, wv, k as int); }
        if k == 0 {
            let t = concat(session.as_str(), ":0");
            proof {
                reveal_strlit(":0");
                assert(t@ =~= default_window_target(session@));
            }
            match WindowTarget::try_from(t.as_str()) {
                Ok(target) => {
                    steps.push(SpecStep::RenameWindow { target, name: w.name.clone() });
                },
                Err(e) => {
                    steps.push(SpecStep::Abort { error: e, rollback: false });
                    proof {
                        assert(steps_view(steps@) =~= before.push(window_head(session@, 0, ww)));
                        assert(window_steps(session@, 0, ww).take(1) =~= seq![window_head(session@, 0, ww)]);
                        assert(steps_view(steps@).drop_last() =~= before);
                        lemma_abort_in_window(session@, wv, ev, 0, 0, steps_view(steps@));
                    }
                    return steps;
                },
            }
        } else {
            steps.push(SpecStep::CreateWindow { name: w.name.clone(), command: clone_opt(&w.command) });
        }
        assert(steps_view(steps@) =~= before.push(window_head(session@, k as int, ww)));
        let ghost head = steps_view(steps@);
        let mut i: usize = 0;
        assert(head =~= before + window_steps(session@, k as int, ww).take(1));
        while i < w.panes.len()
            invariant
                k < ws@.len(),
                w == ws@[k as int],
                wv == windows_view(ws@),
                ev == env_view(env@),
                wv.len() == ws@.len(),
                ww == wv[k as int],
                ww == w@,
                create == seq![StepView::CreateSession { command: first_command(wv) }],
                before == create + windows_steps(session@, wv.take(k as int)),
                i <= w.panes@.len(),
                steps_view(steps@) == before + window_steps(session@, k as int, ww).take(i + 1),
                no_abort(steps_view(steps@)),
            decreases w.panes@.len() - i,
        {
            let text = pane_target_string(session, w.name.as_str(), i);
            let horizontal = match w.panes[i].split {
                SplitDirection::Horizontal => true,
                SplitDirection::Vertical => false,
            };
            let ghost prev = steps_view(steps@);
            assert(window_steps(session@, k as int, ww)[i + 1] == split_step(session@, ww.name, i as nat, ww.panes[i as int]));
            assert(window_steps(session@, k as int, ww).take(i + 2) =~= window_steps(session@, k as int, ww).take(i + 1).push(split_step(session@, ww.name, i as nat, ww.panes[i as int])));
            match PaneTarget::try_from(text.as_str()) {
                Ok(target) => {
                    steps.push(SpecStep::SplitPane { target, horizontal, command: clone_opt(&w.panes[i].command) });
                    assert(steps_view(steps@) =~= prev.push(split_step(session@, ww.name, i as nat, ww.panes[i as int])));
                },
                Err(e) => {
                    steps.push(SpecStep::Abort { error: e, rollback: true });
                    proof {
                        assert(steps_view(steps@) =~= prev.push(split_step(session@, ww.name, i as nat, ww.panes[i as int])));
                        assert(steps_view(steps@).drop_last() =~= prev);
                        assert(steps_view(steps@) =~= before + window_steps(session@, k as int, ww).take(i + 2));
                        lemma_abort_in_window(session@, wv, ev, k as int, i + 1, steps_view(steps@));
                    }
                    return steps;
                },
            }
            i += 1;
        }
        assert(window_steps(session@, k as int, ww).take(i + 1) =~= window_steps(session@, k as int, ww));
        k += 1;
    }
    assert(wv.take(k as int) =~= wv);
    let ghost mid = steps_view(steps@);
    let mut m: usize = 0;
    assert(mid =~= mid + env_steps(ev.take(0)));
    while m < env.len()
        invariant
            m <= env@.len(),
            ev == env_view(env@),
            ev.len() == env@.len(),
            mid == create + windows_steps(session@, wv),
            no_abort(mid),
            steps_view(steps@) == mid + env_steps(ev.take(m as int)),
        decreases env@.len() - m,
    {
        let ghost prev = steps_view(steps@);
        steps.push(SpecStep::SetEnvironment { name: env[m].0.clone(), value: env[m].1.clone() });
        assert(env_steps(ev.take(m + 1)) =~= env_steps(ev.take(m as int)).push(
            StepView::SetEnvironment { name: env@[m as int].0@, value: env@[m as int].1@ },
        ));
        assert(steps_view(steps@) =~= prev.push(StepView::SetEnvironment { name: env@[m as int].0@, value: env@[m as int].1@ }));
        m += 1;
    }
    assert(ev.take(m as int) =~= ev);
    proof {
        assert(steps_view(steps@) == intended_steps(session@, wv, ev));
        lemma_until_abort_none(steps_view(steps@));
    }
    steps
}

/// The validated session name and the operations that realize `spec`, when
/// it passes `validate_session_spec`; the refusal otherwise. `environment`
/// lists the spec's environment entries in the order in which they are set.
pub fn plan_session_spec(
    spec: &SessionSpec,
    environment: &Vec<(String, String)>,
) -> (r: Result<(SessionName, Vec<SpecStep>), ValidationError>)
    ensures
        r is Ok <==> spec_checks(spec.name@, windows_view(spec.windows@), env_view(environment@)) is Ok,
        r matches Err(x) ==> spec_checks(spec.name@, windows_view(spec.windows@), env_view(environment@))
            == Err::<(), ValidationErrorView>(x@),
        r matches Ok((n, steps)) ==> n@ == spec.name@ && steps_view(steps@) == session_plan(
            spec.name@,
            windows_view(spec.windows@),
            env_view(environment@),
        ),
{
    let session = match validate_session_spec(spec, environment) {
        Ok(n) => n,
        Err(e) => return Err(e),
    };
    let steps = layout_steps(&session, &spec.windows, environment);
    Ok((session, steps))
}

/// `entries` lists the map `m`: every entry of `m` exactly once, in some order.
pub open spec fn lists_environment(m: Map<String, String>, entries: Seq<(String, String)>) -> bool {
    &&& forall|i: int| 0 <= i < entries.len() ==> m.contains_key(#[trigger] entries[i].0) && m[entries[i].0] == entries[i].1
    &&& forall|key: String| m.contains_key(key) ==> exists|i: int| 0 <= i < entries.len() && #[trigger] entries[i].0 == key
    &&& forall|i: int, j: int| 0 <= i < j < entries.len() ==> #[trigger] entries[i].0 != #[trigger] entries[j].0
}

/// The entries of an environment map, in the order in which `HashMap::iter`
/// visits them. The standard library documents that `iter` visits every
/// key-value pair once, in arbitrary order; the order itself depends on the
/// map's randomly seeded hasher and is left unsaid.
#[verifier::external_body]
fn environment_entries<'a>(env: &'a HashMap<String, String>) -> (r: Vec<(&'a String, &'a String)>)
    ensures
        lists_environment(env@, r@.map_values(|e: (&String, &String)| (*e.0, *e.1))),
{
    env.iter().collect()
}

/// The entries of an environment map, owned, in the map's iteration order.
fn owned_environment_entries(env: &HashMap<String, String>) -> (r: Vec<(String, String)>)
    ensures
        lists_environment(env@, r@),
{
    let entries = environment_entries(env);
    let ghost listed = entries@.map_values(|e: (&String, &String)| (*e.0, *e.1));
    let mut out: Vec<(String, String)> = Vec::new();
    let mut i: usize = 0;
    while i < entries.len()
        invariant
            i <= entries@.len(),
            listed == entries@.map_values(|e: (&String, &String)| (*e.0, *e.1)),
            out@ == listed.take(i as int),
        decreases entries@.len() - i,
    {
        let (k, v) = entries[i];
        out.push((k.clone(), v.clone()));
        assert(listed.take(i + 1) =~= listed.take(i as int).push(listed[i as int]));
        i += 1;
    }
    assert(listed.take(i as int) =~= listed);
    out
}

/// `plan_session_spec` on the spec's own environment map, walked in the
/// map's iteration order: whatever that order is, the outcome is the plan
/// for the entries in that order.
pub fn plan_apply_session_spec(spec: &SessionSpec) -> (r: Result<(SessionName, Vec<SpecStep>), ValidationError>)
    ensures
        exists|entries: Seq<(String, String)>|
            #[trigger] lists_environment(spec.environment@, entries) && {
                let checks = spec_checks(spec.name@, windows_view(spec.windows@), env_view(entries));
                &&& (r is Ok <==> checks is Ok)
                &&& (r matches Err(x) ==> checks == Err::<(), ValidationErrorView>(x@))
                &&& (r matches Ok((n, steps)) ==> n@ == spec.name@ && steps_view(steps@) == session_plan(
                    spec.name@,
                    windows_view(spec.windows@),
                    env_view(entries),
                ))
            },
{
    let entries = owned_environment_entries(&spec.environment);
    let r = plan_session_spec(spec, &entries);
    assert(lists_environment(spec.environment@, entries@));
    r
}

/// Whether a failure of `step` is followed by killing the session: every
/// step after the session exists rolls back; an `Abort` says so itself.
pub open spec fn rolls_back(step: StepView) -> bool {
    match step {
        StepView::CreateSession { .. } => false,
        StepView::Abort { rollback, .. } => rollback,
        _ => true,
    }
}

impl SpecStep {
    /// Whether the session is killed when this step fails.
    pub fn rolls_back(&self) -> (r: bool)
        ensures
            r == rolls_back(self@),
    {
        match self {
            SpecStep::CreateSession { .. } => false,
            SpecStep::Abort { rollback, .. } => *rollback,
            _ => true,
        }
    }
}

/// The layout of a session with named windows and nothing else.
pub open spec fn bare_windows(names: Seq<Seq<char>>) -> Seq<WindowSpecView> {
    names.map_values(|n: Seq<char>| WindowSpecView { name: n, command: None, panes: Seq::empty() })
}

/// The operations that create session `name` with windows named
/// `window_names`, when every name is a valid window name (checked in
/// order, the first refusal is the answer): create the session, rename its
/// first window, create the others.
pub fn plan_session_with_windows(
    name: &SessionName,
    window_names: &Vec<String>,
) -> (r: Result<Vec<SpecStep>, ValidationError>)
    ensures
        r is Ok <==> windows_checks(bare_windows(window_names@.map_values(|n: String| n@))) is Ok,
        r matches Err(x) ==> windows_checks(bare_windows(window_names@.map_values(|n: String| n@)))
            == Err::<(), ValidationErrorView>(x@),
        r matches Ok(steps) ==> steps_view(steps@) == session_plan(
            name@,
            bare_windows(window_names@.map_values(|n: String| n@)),
            Seq::empty(),
        ),
{
    let ghost names = window_names@.map_values(|n: String| n@);
    let mut windows: Vec<WindowSpec> = Vec::new();
    let mut k: usize = 0;
    while k < window_names.len()
        invariant
            k <= window_names@.len(),
            names == window_names@.map_values(|n: String| n@),
            windows_view(windows@) == bare_windows(names.take(k as int)),
        decreases window_names@.len() - k,
    {
        let ghost prev = windows@;
        assert(windows_view(prev).len() == k);
        let panes: Vec<PaneSpec> = Vec::new();
        let w = WindowSpec { name: window_names[k].clone(), command: None, panes };
        assert(w@.panes =~= Seq::<PaneSpecView>::empty());
        assert(w@ == WindowSpecView { name: names[k as int], command: None, panes: Seq::empty() });
        windows.push(w);
        assert(windows@ =~= prev.push(w));
        assert forall|i: int| 0 <= i < k + 1 implies windows_view(windows@)[i] == bare_windows(
            names.take(k + 1),
        )[i] by {
            if i < k {
                assert(windows_view(prev)[i] == bare_windows(names.take(k as int))[i]);
            }
        }
        assert(windows_view(windows@) =~= bare_windows(names.take(k + 1)));
        k += 1;
    }
    assert(names.take(k as int) =~= names);
    if let Err(e) = validate_windows(&windows) {
        return Err(e);
    }
    let env: Vec<(String, String)> = Vec::new();
    assert(env_view(env@) =~= Seq::<(Seq<char>, Seq<char>)>::empty());
    Ok(layout_steps(name, &windows, &env))
}

proof fn lemma_until_abort_shape(steps: Seq<StepView>)
    ensures
        is_prefix(until_abort(steps), steps),
        steps.len() > 0 ==> until_abort(steps).len() > 0,
        steps.len() > 0 ==> no_abort(until_abort(steps).drop_last()),
    decreases steps.len(),
{
    if steps.len() > 0 && !(steps[0] is Abort) {
        let rest = steps.drop_first();
        lemma_until_abort_shape(rest);
        let u = until_abort(steps);
        assert(u == seq![steps[0]] + until_abort(rest));
        assert forall|i: int| 0 <= i < u.len() implies #[trigger] u[i] == steps[i] by {
            if i > 0 {
                assert(u[i] == until_abort(rest)[i - 1]);
            }
        }
        assert forall|i: int| 0 <= i < u.drop_last().len() implies !(#[trigger] u.drop_last()[i] is Abort) by {
            if i > 0 {
                assert(u.drop_last()[i] == until_abort(rest).drop_last()[i - 1]);
            } else {
                assert(u.drop_last()[0] == u[0]);
                assert(u[0] == steps[0]);
            }
        }
    } else if steps.len() > 0 {
        assert(until_abort(steps).drop_last().len() == 0);
    }
}

/// The plan of a layout starts by creating the session with the first
/// window's command; it holds an `Abort` at most as its last step, and only
/// there does it stop short; when every target can be formed, it carries out
/// every operation of the layout: each window, each pane, each variable.
pub proof fn law_session_plan_shape(
    session: Seq<char>,
    ws: Seq<WindowSpecView>,
    env: Seq<(Seq<char>, Seq<char>)>,
)
    ensures
        session_plan(session, ws, env).len() > 0,
        session_plan(session, ws, env)[0] == (StepView::CreateSession { command: first_command(ws) }),
        no_abort(session_plan(session, ws, env).drop_last()),
        is_prefix(session_plan(session, ws, env), intended_steps(session, ws, env)),
        no_abort(intended_steps(session, ws, env)) ==> session_plan(session, ws, env) == intended_steps(
            session,
            ws,
            env,
        ),
{
    let all = intended_steps(session, ws, env);
    lemma_until_abort_shape(all);
    assert(all[0] == (StepView::CreateSession { command: first_command(ws) }));
    if no_abort(all) {
        lemma_until_abort_none(all);
    }
}

/// What to do once a step of a plan has been carried out.
#[derive(Debug, Clone, Copy, PartialEq, Eq)]
pub enum NextAction {
    /// Carry out the step at this index.
    Run(usize),
    /// Every step succeeded: the plan is done.
    Finish,
    /// The step failed: stop with its error.
    Stop,
    /// The step failed: kill the session, then stop with its error.
    KillAndStop,
}

/// The action after step `index` of `steps` succeeded or failed: a failure
/// ends the plan, with a kill when the failed step rolls back; a success
/// goes on to the next step, or finishes after the last one.
pub open spec fn next_action_spec(steps: Seq<StepView>, index: int, succeeded: bool) -> NextAction {
    if !succeeded {
        if 0 <= index < steps.len() && rolls_back(steps[index]) {
            NextAction::KillAndStop
        } else {
            NextAction::Stop
        }
    } else if 0 <= index && index + 1 < steps.len() {
        NextAction::Run((index + 1) as usize)
    } else {
        NextAction::Finish
    }
}

impl SpecStep {
    /// The step that starts a plan: its first step, or nothing to do.
    pub fn first_action(steps: &Vec<SpecStep>) -> (a: NextAction)
        ensures
            a == (if steps@.len() > 0 { NextAction::Run(0) } else { NextAction::Finish }),
    {
        if steps.len() > 0 {
            NextAction::Run(0)
        } else {
            NextAction::Finish
        }
    }

    /// What follows step `index` of `steps`, given whether it succeeded.
    pub fn next_action(steps: &Vec<SpecStep>, index: usize, succeeded: bool) -> (a: NextAction)
        ensures
            a == next_action_spec(steps_view(steps@), index as int, succeeded),
    {
        if !succeeded {
            if index < steps.len() && steps[index].rolls_back() {
                NextAction::KillAndStop
            } else {
                NextAction::Stop
            }
        } else if index < steps.len() && index + 1 < steps.len() {
            NextAction::Run(index + 1)
        } else {
            NextAction::Finish
        }
    }
}

/// Carrying out `steps` from step `i` on, following `next_action_spec`, when
/// step `j` succeeds exactly if `ok[j]`: how many steps are carried out in
/// all, and whether the session is killed at the end.
pub open spec fn driven(steps: Seq<StepView>, ok: Seq<bool>, i: int) -> (int, bool)
    decreases steps.len() - i,
{
    if i < 0 || i >= steps.len() {
        (i, false)
    } else {
        match next_action_spec(steps, i, ok[i]) {
            NextAction::Run(_) => driven(steps, ok, i + 1),
            NextAction::Finish => (i + 1, false),
            NextAction::Stop => (i + 1, false),
            NextAction::KillAndStop => (i + 1, true),
        }
    }
}

proof fn lemma_driven_from(steps: Seq<StepView>, ok: Seq<bool>, i: int, k: int)
    requires
        0 <= i <= k < steps.len(),
        ok.len() == steps.len(),
        forall|j: int| i <= j < k ==> ok[j],
        !ok[k],
    ensures
        driven(steps, ok, i) == (k + 1, rolls_back(steps[k])),
    decreases k - i,
{
    if i < k {
        lemma_driven_from(steps, ok, i + 1, k);
    }
}

proof fn lemma_driven_all(steps: Seq<StepView>, ok: Seq<bool>, i: int)
    requires
        0 <= i < steps.len(),
        ok.len() == steps.len(),
        forall|j: int| i <= j < steps.len() ==> ok[j],
    ensures
        driven(steps, ok, i) == (steps.len() as int, false),
    decreases steps.len() - i,
{
    if i + 1 < steps.len() {
        lemma_driven_all(steps, ok, i + 1);
    }
}

/// Carrying out a plan step by step as `next_action` directs, from its first
/// step: when step `k` is the first to fail, exactly the steps up to and
/// including `k` are carried out, and the session is killed exactly when
/// step `k` rolls back; when every step succeeds, all are carried out and
/// nothing is killed.
pub proof fn law_plan_stops_at_first_failure(steps: Seq<StepView>, ok: Seq<bool>)
    requires
        steps.len() > 0,
        ok.len() == steps.len(),
    ensures
        forall|k: int|
            0 <= k < steps.len() && !ok[k] && (forall|j: int| 0 <= j < k ==> ok[j]) ==> #[trigger] driven(
                steps,
                ok,
                0,
            ) == (k + 1, rolls_back(steps[k])),
        (forall|j: int| 0 <= j < steps.len() ==> ok[j]) ==> driven(steps, ok, 0) == (steps.len() as int, false),
{
    assert forall|k: int|
        0 <= k < steps.len() && !ok[k] && (forall|j: int| 0 <= j < k ==> ok[j]) implies #[trigger] driven(
            steps,
            ok,
            0,
        ) == (k + 1, rolls_back(steps[k])) by {
        lemma_driven_from(steps, ok, 0, k);
    }
    if forall|j: int| 0 <= j < steps.len() ==> ok[j] {
        lemma_driven_all(steps, ok, 0);
    }
}

/// `st` is an operation that the windows `ws` of a layout for `session` call
/// for: renaming the first window to its name, creating a later window with
/// its own name and command, or splitting off one of a window's panes with
/// that pane's direction and command (an `Abort` stands for a target that
/// could not be formed).
pub open spec fn step_from_windows(session: Seq<char>, ws: Seq<WindowSpecView>, st: StepView) -> bool {
    match st {
        StepView::RenameWindow { target, name } => ws.len() > 0 && name == ws[0].name && target == session
            + seq![':', '0'],
        StepView::CreateWindow { name, command } => exists|k: int|
            #![trigger ws[k]]
            1 <= k < ws.len() && ws[k].name == name && ws[k].command == command,
        StepView::SplitPane { target, horizontal, command } => exists|k: int, j: int|
            #![trigger ws[k].panes[j]]
            0 <= k < ws.len() && 0 <= j < ws[k].panes.len() && target == session + seq![':'] + ws[k].name
                + seq!['.'] + dec(j as nat) && horizontal == ws[k].panes[j].horizontal && command
                == ws[k].panes[j].command,
        StepView::Abort { .. } => true,
        _ => false,
    }
}

proof fn lemma_step_from_fewer_windows(session: Seq<char>, ws: Seq<WindowSpecView>, st: StepView)
    requires
        ws.len() > 0,
        step_from_windows(session, ws.drop_last(), st),
    ensures
        step_from_windows(session, ws, st),
{
    let w1 = ws.drop_last();
    match st {
        StepView::RenameWindow { .. } => {
            assert(w1[0] == ws[0]);
        },
        StepView::CreateWindow { name, command } => {
            let k = choose|k: int| #![trigger w1[k]] 1 <= k < w1.len() && w1[k].name == name && w1[k].command == command;
            assert(w1[k] == ws[k]);
        },
        StepView::SplitPane { target, horizontal, command } => {
            let (k, j) = choose|k: int, j: int|
                #![trigger w1[k].panes[j]]
                0 <= k < w1.len() && 0 <= j < w1[k].panes.len() && target == session + seq![':'] + w1[k].name
                    + seq!['.'] + dec(j as nat) && horizontal == w1[k].panes[j].horizontal && command
                    == w1[k].panes[j].command;
            assert(w1[k] == ws[k]);
            assert(ws[k].panes[j] == w1[k].panes[j]);
        },
        _ => {},
    }
}

/// Every step of the windows' part of a plan is an operation those windows
/// call for; every later window has its creation, every pane its split.
proof fn lemma_windows_steps_content(session: Seq<char>, ws: Seq<WindowSpecView>)
    ensures
        forall|i: int|
            0 <= i < windows_steps(session, ws).len() ==> step_from_windows(
                session,
                ws,
                #[trigger] windows_steps(session, ws)[i],
            ),
        forall|k: int|
            #![trigger ws[k]]
             1 <= k < ws.len() ==> exists|i: int|
                0 <= i < windows_steps(session, ws).len() && #[trigger] windows_steps(session, ws)[i]
                    == (StepView::CreateWindow { name: ws[k].name, command: ws[k].command }),
        forall|k: int, j: int|
            #![trigger ws[k].panes[j]]
             0 <= k < ws.len() && 0 <= j < ws[k].panes.len() ==> exists|i: int|
                0 <= i < windows_steps(session, ws).len() && #[trigger] windows_steps(session, ws)[i]
                    == split_step(session, ws[k].name, j as nat, ws[k].panes[j]),
    decreases ws.len(),
{
    if ws.len() > 0 {
        let n = ws.len() as int;
        let w1 = ws.drop_last();
        let last = ws.last();
        lemma_windows_steps_content(session, w1);
        let pre = windows_steps(session, w1);
        let ww = window_steps(session, n - 1, last);
        let all = windows_steps(session, ws);
        assert(all == pre + ww);
        assert forall|i: int| 0 <= i < all.len() implies step_from_windows(session, ws, #[trigger] all[i]) by {
            if i < pre.len() {
                assert(all[i] == pre[i]);
                lemma_step_from_fewer_windows(session, ws, pre[i]);
            } else {
                let j = i - pre.len();
                assert(all[i] == ww[j]);
                if j == 0 {
                    assert(ww[0] == window_head(session, n - 1, last));
                    if n - 1 == 0 {
                        assert(last == ws[0]);
                    } else {
                        assert(ws[n - 1] == last);
                    }
                } else {
                    assert(ww[j] == pane_steps(session, last.name, last.panes)[j - 1]);
                    assert(ws[n - 1] == last);
                    let st = split_step(session, last.name, (j - 1) as nat, last.panes[j - 1]);
                    if st is SplitPane {
                        assert(ws[n - 1].panes[j - 1] == last.panes[j - 1]);
                    }
                }
            }
        }
        assert forall|k: int| #![trigger ws[k]]  1 <= k < ws.len() implies exists|i: int|
            0 <= i < all.len() && #[trigger] all[i] == (StepView::CreateWindow {
                name: ws[k].name,
                command: ws[k].command,
            }) by {
            if k < n - 1 {
                assert(w1[k] == ws[k]);
                let i = choose|i: int|
                    0 <= i < pre.len() && #[trigger] pre[i] == (StepView::CreateWindow {
                        name: w1[k].name,
                        command: w1[k].command,
                    });
                assert(all[i] == pre[i]);
            } else {
                assert(ws[k] == last);
                assert(all[pre.len() as int] == ww[0]);
            }
        }
        assert forall|k: int, j: int| #![trigger ws[k].panes[j]]  0 <= k < ws.len() && 0 <= j < ws[k].panes.len() implies exists|i: int|
            0 <= i < all.len() && #[trigger] all[i] == split_step(session, ws[k].name, j as nat, ws[k].panes[j]) by {
            if k < n - 1 {
                assert(w1[k] == ws[k]);
                let i = choose|i: int|
                    0 <= i < pre.len() && #[trigger] pre[i] == split_step(session, w1[k].name, j as nat, w1[k].panes[j]);
                assert(all[i] == pre[i]);
            } else {
                assert(ws[k] == last);
                assert(all[pre.len() + 1 + j] == ww[1 + j]);
                assert(ww[1 + j] == pane_steps(session, last.name, last.panes)[j]);
            }
        }
    }
}

/// What a layout's plan does, step by step, in terms of the layout itself:
/// after creating the session, each step renames the first window to its
/// name, creates a later window with that window's own name and command,
/// splits off a pane with that pane's own direction and command, sets one
/// of the given environment entries, or aborts. When every target can be
/// formed, every later window is created, every pane split off and every
/// entry set, and the first window is renamed right after the session is
/// created.
pub proof fn law_session_plan_steps(
    session: Seq<char>,
    ws: Seq<WindowSpecView>,
    env: Seq<(Seq<char>, Seq<char>)>,
)
    ensures
        forall|i: int|
            0 < i < session_plan(session, ws, env).len() ==> step_from_windows(
                session,
                ws,
                #[trigger] session_plan(session, ws, env)[i],
            ) || (session_plan(session, ws, env)[i] matches StepView::SetEnvironment { name, value }
                && exists|m: int| 0 <= m < env.len() && #[trigger] env[m] == (name, value)),
        no_abort(intended_steps(session, ws, env)) ==> {
            &&& forall|k: int|
                #![trigger ws[k]]
                 1 <= k < ws.len() ==> exists|i: int|
                    0 <= i < session_plan(session, ws, env).len() && #[trigger] session_plan(session, ws, env)[i]
                        == (StepView::CreateWindow { name: ws[k].name, command: ws[k].command })
            &&& forall|k: int, j: int|
                #![trigger ws[k].panes[j]]
                 0 <= k < ws.len() && 0 <= j < ws[k].panes.len() ==> exists|i: int|
                    0 <= i < session_plan(session, ws, env).len() && #[trigger] session_plan(session, ws, env)[i]
                        == (StepView::SplitPane {
                        target: session + seq![':'] + ws[k].name + seq!['.'] + dec(j as nat),
                        horizontal: ws[k].panes[j].horizontal,
                        command: ws[k].panes[j].command,
                    })
            &&& forall|m: int|
                #![trigger env[m]]
                 0 <= m < env.len() ==> exists|i: int|
                    0 <= i < session_plan(session, ws, env).len() && #[trigger] session_plan(session, ws, env)[i]
                        == (StepView::SetEnvironment { name: env[m].0, value: env[m].1 })
            &&& ws.len() > 0 ==> session_plan(session, ws, env)[1] == (StepView::RenameWindow {
                target: session + seq![':', '0'],
                name: ws[0].name,
            })
        },
{
    let plan = session_plan(session, ws, env);
    let all = intended_steps(session, ws, env);
    let create = seq![StepView::CreateSession { command: first_command(ws) }];
    let wsteps = windows_steps(session, ws);
    let esteps = env_steps(env);
    assert(all == create + wsteps + esteps);
    lemma_until_abort_shape(all);
    lemma_windows_steps_content(session, ws);
    assert forall|i: int| 0 < i < plan.len() implies step_from_windows(session, ws, #[trigger] plan[i]) || (
    plan[i] matches StepView::SetEnvironment { name, value } && exists|m: int|
        0 <= m < env.len() && #[trigger] env[m] == (name, value)) by {
        assert(plan[i] == all[i]);
        if i - 1 < wsteps.len() {
            assert(all[i] == wsteps[i - 1]);
        } else {
            let m = i - 1 - wsteps.len();
            assert(all[i] == esteps[m]);
            assert(esteps[m] == (StepView::SetEnvironment { name: env[m].0, value: env[m].1 }));
            assert(env[m] == (env[m].0, env[m].1));
        }
    }
    if no_abort(all) {
        lemma_until_abort_none(all);
        assert(plan == all);
        assert forall|k: int| #![trigger ws[k]]  1 <= k < ws.len() implies exists|i: int|
            0 <= i < plan.len() && #[trigger] plan[i] == (StepView::CreateWindow {
                name: ws[k].name,
                command: ws[k].command,
            }) by {
            let i = choose|i: int|
                0 <= i < wsteps.len() && #[trigger] wsteps[i] == (StepView::CreateWindow {
                    name: ws[k].name,
                    command: ws[k].command,
                });
            assert(plan[i + 1] == wsteps[i]);
        }
        assert forall|k: int, j: int| #![trigger ws[k].panes[j]]  0 <= k < ws.len() && 0 <= j < ws[k].panes.len() implies exists|i: int|
            0 <= i < plan.len() && #[trigger] plan[i] == (StepView::SplitPane {
                target: session + seq![':'] + ws[k].name + seq!['.'] + dec(j as nat),
                horizontal: ws[k].panes[j].horizontal,
                command: ws[k].panes[j].command,
            }) by {
            let i = choose|i: int|
                0 <= i < wsteps.len() && #[trigger] wsteps[i] == split_step(
                    session,
                    ws[k].name,
                    j as nat,
                    ws[k].panes[j],
                );
            assert(plan[i + 1] == wsteps[i]);
            assert(!(plan[i + 1] is Abort));
        }
        assert forall|m: int| #![trigger env[m]]  0 <= m < env.len() implies exists|i: int|
            0 <= i < plan.len() && #[trigger] plan[i] == (StepView::SetEnvironment {
                name: env[m].0,
                value: env[m].1,
            }) by {
            let i = 1 + wsteps.len() + m;
            assert(plan[i] == esteps[m]);
        }
        if ws.len() > 0 {
            assert(ws.take(1).drop_last() =~= Seq::<WindowSpecView>::empty());
            lemma_windows_steps_prefix(session, ws, 1);
            lemma_window_done(session, ws, 0);
            assert(ws.take(0) =~= Seq::<WindowSpecView>::empty());
            assert(windows_steps(session, ws.take(1))[0] == window_head(session, 0, ws[0]));
            assert(wsteps[0] == window_head(session, 0, ws[0]));
            assert(plan[1] == wsteps[0]);
            assert(!(plan[1] is Abort));
        }
    }
}

} // verus!
