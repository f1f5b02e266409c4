//! The decisions tmux operations take on what tmux reported: whether a
//! session exists, whether a failure is benign, whether a window or pane is
//! present, and what a created object is.

use vstd::prelude::*;

use crate::capture_pane::{normalize_pane_content, normalized};
use crate::error::{lowercase, result_view, TmuxError, TmuxErrorView};
use crate::executor::{failure, TmuxOutput};
use crate::list_panes::{pane_line, parse_pane_line, parse_panes, PaneView, TmuxPane};
use crate::list_windows::{
    parse_list_windows_output, parse_window_line, window_line, window_matches, window_present,
    TmuxWindow, WindowView,
};
use crate::sessions::{created_session_line, parse_created_session_line, SessionView, TmuxSession};
use crate::text::{
    collect_results, concat, contains, contains_exec, nonempty_lines, owned, parse_unsigned,
    parse_usize, trim, trim_exec,
};
use crate::validation::{
    check_window_target, pane_parts, PaneTarget, SessionName, ValidationError,
    ValidationErrorView, WindowTarget,
};

verus! {

/// What `has-session` answers: the session exists when tmux succeeded; a
/// server that is not running is an error; any other failure means no.
pub open spec fn has_session_outcome(o: TmuxOutput) -> Result<bool, TmuxErrorView> {
    if o.success {
        Ok(true)
    } else if contains(o.stderr@, "no server running"@) {
        Err(TmuxErrorView::TmuxNotRunning)
    } else {
        Ok(false)
    }
}

/// Interpret the output of `has-session`.
pub fn interpret_has_session(output: &TmuxOutput) -> (r: Result<bool, TmuxError>)
    ensures
        result_view(r, |b: bool| b) == has_session_outcome(*output),
{
    if output.success {
        return Ok(true);
    }
    if contains_exec(output.stderr.as_str(), "no server running") {
        return Err(TmuxError::TmuxNotRunning);
    }
    Ok(false)
}

/// Ensure a session exists before a mutating operation.
pub fn require_session_exists(exists: bool, name: &SessionName) -> (r: Result<(), TmuxError>)
    ensures
        r is Ok <==> exists,
        r matches Err(e) ==> e@ == TmuxErrorView::SessionNotFound(name@),
{
    if !exists {
        return Err(TmuxError::SessionNotFound(owned(name.as_str())));
    }
    Ok(())
}

/// Ensure a session does NOT exist before creation (duplicate prevention).
pub fn require_session_not_exists(exists: bool, name: &SessionName) -> (r: Result<(), TmuxError>)
    ensures
        r is Ok <==> !exists,
        r matches Err(e) ==> e@ == TmuxErrorView::SessionAlreadyExists(name@),
{
    if exists {
        return Err(TmuxError::SessionAlreadyExists(owned(name.as_str())));
    }
    Ok(())
}

/// What `kill-server` reports: success also when the server was already gone.
pub open spec fn kill_server_outcome(o: TmuxOutput) -> Result<(), TmuxErrorView> {
    if o.success {
        Ok(())
    } else if contains(lowercase(o.stderr@), "no server running"@) || contains(
        lowercase(o.stderr@),
        "no current client"@,
    ) {
        Ok(())
    } else {
        Err(TmuxErrorView::CommandFailed { command: "kill-server"@, stderr: o.stderr@ })
    }
}

/// Interpret the output of `kill-server` (idempotent).
pub fn interpret_kill_server(output: &TmuxOutput) -> (r: Result<(), TmuxError>)
    ensures
        result_view(r, |u: ()| u) == kill_server_outcome(*output),
{
    if output.success {
        return Ok(());
    }
    let lower = crate::error::to_lowercase(output.stderr.as_str());
    if contains_exec(lower.as_str(), "no server running") || contains_exec(
        lower.as_str(),
        "no current client",
    ) {
        return Ok(());
    }
    Err(TmuxError::CommandFailed { command: owned("kill-server"), stderr: output.stderr.clone() })
}

/// Ensure the window a target names is among the session's windows.
pub fn require_window_listed(windows: &Vec<TmuxWindow>, target: &WindowTarget) -> (r: Result<
    (),
    TmuxError,
>)
    ensures
        r is Ok <==> exists|i: int|
            0 <= i < windows@.len() && window_matches(
                windows@[i]@,
                crate::text::split_once(target@, seq![':']).unwrap().1,
            ),
        r matches Err(e) ==> e@ == TmuxErrorView::WindowNotFound(target@),
{
    if window_present(windows, target.window()) {
        Ok(())
    } else {
        Err(TmuxError::WindowNotFound(owned(target.as_str())))
    }
}

/// The window target `session:window` of a pane target.
pub fn pane_window_target(target: &PaneTarget) -> (r: Result<WindowTarget, ValidationError>)
    ensures
        pane_parts(target@) matches Some((s, w, _)) && ({
            let text = s + ":"@ + w;
            &&& r is Ok <==> check_window_target(text) is Ok
            &&& r matches Ok(t) ==> t@ == text
            &&& r matches Err(x) ==> check_window_target(text) == Err::<(), ValidationErrorView>(x@)
        }),
{
    let a = concat(target.session(), ":");
    let text = concat(a.as_str(), target.window());
    WindowTarget::try_from(text.as_str())
}

/// A pane reference names a listed pane: by index when it reads as a
/// non-negative integer, else by pane id.
pub open spec fn pane_matches(panes: Seq<PaneView>, part: Seq<char>) -> bool {
    match parse_unsigned(part, usize::MAX as nat) {
        Ok(idx) => idx < panes.len(),
        Err(_) => exists|i: int| 0 <= i < panes.len() && panes[i].id == part,
    }
}

/// Ensure the pane a target names is among the window's panes.
pub fn require_pane_listed(panes: &Vec<TmuxPane>, target: &PaneTarget) -> (r: Result<(), TmuxError>)
    ensures
        r is Ok <==> pane_matches(
            panes@.map_values(|p: TmuxPane| p@),
            pane_parts(target@).unwrap().2,
        ),
        r matches Err(e) ==> e@ == TmuxErrorView::PaneNotFound(target@),
{
    let part = target.pane();
    let ghost pv = panes@.map_values(|p: TmuxPane| p@);
    proof { crate::text::lemma_parse_unsigned_bound(part@, usize::MAX as nat); }
    let found = match parse_usize(part) {
        Ok(idx) => idx < panes.len(),
        Err(_) => {
            let mut i: usize = 0;
            let mut hit = false;
            while i < panes.len()
                invariant
                    i <= panes@.len(),
                    pv == panes@.map_values(|p: TmuxPane| p@),
                    hit == exists|j: int| 0 <= j < i && pv[j].id == part@,
                decreases panes@.len() - i,
            {
                if crate::text::str_eq(panes[i].id.as_str(), part) {
                    hit = true;
                }
                assert(pv[i as int].id == panes@[i as int].id@);
                i += 1;
            }
            hit
        },
    };
    if found {
        Ok(())
    } else {
        Err(TmuxError::PaneNotFound(owned(target.as_str())))
    }
}

/// Interpret the output of `list-windows -t SESSION`.
pub fn interpret_list_windows(output: &TmuxOutput, session: &SessionName) -> (r: Result<
    Vec<TmuxWindow>,
    TmuxError,
>)
    ensures
        result_view(r, |v: Vec<TmuxWindow>| v@.map_values(|w: TmuxWindow| w@)) == if output.success {
            collect_results(nonempty_lines(output.stdout@), |l: Seq<char>| window_line(l))
        } else {
            Err(failure(*output, "list-windows"@, session@))
        },
{
    output.check("list-windows", session.as_str())?;
    parse_list_windows_output(output.stdout.as_str())
}

/// Interpret the output of `list-panes -t TARGET`.
pub fn interpret_list_panes(output: &TmuxOutput, target: &WindowTarget) -> (r: Result<
    Vec<TmuxPane>,
    TmuxError,
>)
    ensures
        result_view(r, |v: Vec<TmuxPane>| v@.map_values(|p: TmuxPane| p@)) == if output.success {
            collect_results(nonempty_lines(output.stdout@), |l: Seq<char>| pane_line(l))
        } else {
            Err(failure(*output, "list-panes"@, target@))
        },
{
    output.check("list-panes", target.as_str())?;
    parse_panes(output.stdout.as_str())
}

/// Interpret the output of `new-session ... -P -F FORMAT`.
pub fn interpret_new_session(output: &TmuxOutput, name: &SessionName) -> (r: Result<
    TmuxSession,
    TmuxError,
>)
    ensures
        result_view(r, |s: TmuxSession| s@) == if output.success {
            created_session_line(trim(output.stdout@))
        } else {
            Err(failure(*output, "new-session"@, name@))
        },
{
    output.check("new-session", name.as_str())?;
    let line = trim_exec(output.stdout.as_str());
    parse_created_session_line(line.as_str())
}

/// Interpret the output of `new-window ... -P -F FORMAT`.
pub fn interpret_new_window(output: &TmuxOutput, session: &SessionName) -> (r: Result<
    TmuxWindow,
    TmuxError,
>)
    ensures
        result_view(r, |w: TmuxWindow| w@) == if output.success {
            window_line(trim(output.stdout@))
        } else {
            Err(failure(*output, "new-window"@, session@))
        },
{
    output.check("new-window", session.as_str())?;
    let line = trim_exec(output.stdout.as_str());
    parse_window_line(line.as_str())
}

/// Interpret the output of `split-window ... -P -F FORMAT`.
pub fn interpret_split_window(output: &TmuxOutput, target: &PaneTarget) -> (r: Result<
    TmuxPane,
    TmuxError,
>)
    ensures
        result_view(r, |p: TmuxPane| p@) == if output.success {
            pane_line(trim(output.stdout@))
        } else {
            Err(failure(*output, "split-window"@, target@))
        },
{
    output.check("split-window", target.as_str())?;
    let line = trim_exec(output.stdout.as_str());
    parse_pane_line(line.as_str())
}

/// Interpret the output of `capture-pane -p`: the normalized content.
pub fn interpret_capture_pane(output: &TmuxOutput, target: &PaneTarget) -> (r: Result<
    String,
    TmuxError,
>)
    ensures
        result_view(r, |s: String| s@) == if output.success {
            Ok(normalized(output.stdout@))
        } else {
            Err(failure(*output, "capture-pane"@, target@))
        },
{
    output.check("capture-pane", target.as_str())?;
    Ok(normalize_pane_content(output.stdout.as_str()))
}

/// What `ensure_session` makes of its attempt to create the session: the
/// created session, or the error, is the answer (`Some`); only a session
/// that already exists sends it on to look the session up (`None`).
pub fn after_create_attempt(created: Result<TmuxSession, TmuxError>) -> (r: Option<Result<TmuxSession, TmuxError>>)
    ensures
        created matches Err(TmuxError::SessionAlreadyExists(_)) ==> r is None,
        !(created matches Err(TmuxError::SessionAlreadyExists(_))) ==> r == Some(created),
{
    match created {
        Err(TmuxError::SessionAlreadyExists(_)) => None,
        other => Some(other),
    }
}

} // verus!
