//! A session with its windows and their panes.

use vstd::prelude::*;

use crate::error::{TmuxError, TmuxErrorView};
use crate::list_panes::TmuxPane;
use crate::list_windows::TmuxWindow;
use crate::sessions::{find_session, TmuxSession};
use crate::text::{concat, dec, owned, push_decimal};
use crate::validation::{check_window_target, ValidationError, ValidationErrorView, WindowTarget};

verus! {

/// A window with its panes.
#[derive(Debug, Clone, PartialEq, Eq)]
pub struct WindowDetail {
    pub window: TmuxWindow,
    pub panes: Vec<TmuxPane>,
}

/// A session with its windows.
#[derive(Debug, Clone, PartialEq, Eq)]
pub struct SessionDetail {
    pub session: TmuxSession,
    pub windows: Vec<WindowDetail>,
}

/// `session:index`, the target of a window given by its index.
pub open spec fn window_index_text(session: Seq<char>, index: u32) -> Seq<char> {
    session + seq![':'] + dec(index as nat)
}

/// The target of window `index` of session `session`, when that text is a
/// valid window target.
pub fn window_index_target(session: &str, index: u32) -> (r: Result<WindowTarget, ValidationError>)
    ensures
        r is Ok <==> check_window_target(window_index_text(session@, index)) is Ok,
        r matches Ok(t) ==> t@ == window_index_text(session@, index),
        r matches Err(e) ==> check_window_target(window_index_text(session@, index))
            == Err::<(), ValidationErrorView>(e@),
{
    let mut text = concat(session, ":");
    push_decimal(&mut text, index as u64);
    proof {
        reveal_strlit(":");
        assert(text@ =~= window_index_text(session@, index));
    }
    WindowTarget::try_from(text.as_str())
}

/// The session called `name` among `sessions`, or `SessionNotFound`.
pub fn require_listed_session(sessions: &Vec<TmuxSession>, name: &str) -> (r: Result<TmuxSession, TmuxError>)
    ensures
        r matches Ok(s) ==> exists|i: int|
            0 <= i < sessions@.len() && sessions@[i] == s && s.name@ == name@ && forall|j: int|
                0 <= j < i ==> sessions@[j].name@ != name@,
        r matches Err(e) ==> e@ == TmuxErrorView::SessionNotFound(name@) && forall|j: int|
            0 <= j < sessions@.len() ==> sessions@[j].name@ != name@,
{
    match find_session(sessions, name) {
        Some(s) => Ok(s),
        None => Err(TmuxError::SessionNotFound(owned(name))),
    }
}

} // verus!
