//! The error type of tmux operations, and the classification of tmux's
//! error output.

use vstd::prelude::*;

use crate::text::{concat, contains, contains_exec, dec, owned, push_decimal, trim, trim_exec};
use crate::validation::{validation_message, ValidationError, ValidationErrorView};

verus! {

#[derive(Debug, PartialEq, Eq)]
pub enum TmuxError {
    SessionNotFound(String),
    WindowNotFound(String),
    PaneNotFound(String),
    TmuxNotRunning,
    SessionAlreadyExists(String),
    CommandFailed { command: String, stderr: String },
    InvalidTarget(String),
    Validation(ValidationError),
    ParseError { command: String, details: String },
    Timeout { command: String },
}

/// A `TmuxError` with its texts as character sequences.
pub enum TmuxErrorView {
    SessionNotFound(Seq<char>),
    WindowNotFound(Seq<char>),
    PaneNotFound(Seq<char>),
    TmuxNotRunning,
    SessionAlreadyExists(Seq<char>),
    CommandFailed { command: Seq<char>, stderr: Seq<char> },
    InvalidTarget(Seq<char>),
    Validation(ValidationErrorView),
    ParseError { command: Seq<char>, details: Seq<char> },
    Timeout { command: Seq<char> },
}

impl View for TmuxError {
    type V = TmuxErrorView;

    open spec fn view(&self) -> TmuxErrorView {
        match self {
            TmuxError::SessionNotFound(s) => TmuxErrorView::SessionNotFound(s@),
            TmuxError::WindowNotFound(s) => TmuxErrorView::WindowNotFound(s@),
            TmuxError::PaneNotFound(s) => TmuxErrorView::PaneNotFound(s@),
            TmuxError::TmuxNotRunning => TmuxErrorView::TmuxNotRunning,
            TmuxError::SessionAlreadyExists(s) => TmuxErrorView::SessionAlreadyExists(s@),
            TmuxError::CommandFailed { command, stderr } => TmuxErrorView::CommandFailed {
                command: command@,
                stderr: stderr@,
            },
            TmuxError::InvalidTarget(s) => TmuxErrorView::InvalidTarget(s@),
            TmuxError::Validation(e) => TmuxErrorView::Validation(e@),
            TmuxError::ParseError { command, details } => TmuxErrorView::ParseError {
                command: command@,
                details: details@,
            },
            TmuxError::Timeout { command } => TmuxErrorView::Timeout { command: command@ },
        }
    }
}

/// The view of a `Result` whose error is a `TmuxError`, its success value mapped by `f`.
pub open spec fn result_view<T, V>(r: Result<T, TmuxError>, f: spec_fn(T) -> V) -> Result<
    V,
    TmuxErrorView,
> {
    match r {
        Ok(t) => Ok(f(t)),
        Err(e) => Err(e@),
    }
}

/// The text a `TmuxError` displays.
pub open spec fn error_message(e: TmuxErrorView) -> Seq<char> {
    match e {
        TmuxErrorView::SessionNotFound(s) => "session not found: "@ + s,
        TmuxErrorView::WindowNotFound(s) => "window not found: "@ + s,
        TmuxErrorView::PaneNotFound(s) => "pane not found: "@ + s,
        TmuxErrorView::TmuxNotRunning => "tmux server is not running"@,
        TmuxErrorView::SessionAlreadyExists(s) => "session already exists: "@ + s,
        TmuxErrorView::CommandFailed { command, stderr } => "tmux command failed: "@ + command
            + ": "@ + stderr,
        TmuxErrorView::InvalidTarget(s) => "invalid target: "@ + s,
        TmuxErrorView::Validation(v) => "validation error: "@ + validation_message(v),
        TmuxErrorView::ParseError { command, details } => "failed to parse tmux output for "@
            + command + ": "@ + details,
        TmuxErrorView::Timeout { command } => "tmux command timed out: "@ + command,
    }
}

/// What a lowercased stderr text says went wrong.
pub enum StderrKind {
    NotRunning,
    SessionMissing,
    WindowMissing,
    PaneMissing,
    DuplicateSession,
    Other,
}

/// The first of the known failure phrases that the lowercased stderr contains.
pub open spec fn stderr_kind(lower: Seq<char>) -> StderrKind {
    if contains(lower, "no server running"@) {
        StderrKind::NotRunning
    } else if contains(lower, "session not found"@) || contains(lower, "can't find session"@) {
        StderrKind::SessionMissing
    } else if contains(lower, "window not found"@) || contains(lower, "can't find window"@) {
        StderrKind::WindowMissing
    } else if contains(lower, "pane not found"@) || contains(lower, "can't find pane"@) {
        StderrKind::PaneMissing
    } else if contains(lower, "duplicate session"@) {
        StderrKind::DuplicateSession
    } else {
        StderrKind::Other
    }
}

/// The error a failed tmux command maps to, given its stderr and that stderr lowercased.
pub open spec fn classified(command: Seq<char>, stderr: Seq<char>, lower: Seq<char>, target: Seq<
    char,
>) -> TmuxErrorView {
    match stderr_kind(lower) {
        StderrKind::NotRunning => TmuxErrorView::TmuxNotRunning,
        StderrKind::SessionMissing => TmuxErrorView::SessionNotFound(target),
        StderrKind::WindowMissing => TmuxErrorView::WindowNotFound(target),
        StderrKind::PaneMissing => TmuxErrorView::PaneNotFound(target),
        StderrKind::DuplicateSession => TmuxErrorView::SessionAlreadyExists(target),
        StderrKind::Other => TmuxErrorView::CommandFailed { command, stderr: trim(stderr) },
    }
}

/// Name for what `str::to_lowercase` returns on a text.
pub uninterp spec fn lowercase(s: Seq<char>) -> Seq<char>;

/// Calls `str::to_lowercase`; its result is `lowercase` of the argument.
#[verifier::external_body]
pub(crate) fn to_lowercase(s: &str) -> (r: String)
    ensures
        r@ == lowercase(s@),
{
    s.to_lowercase()
}

/// A failure that tmux reports in words the library knows is recognized
/// whatever the letter case of those words: two stderr texts with the same
/// lowercase form give the same error, unless neither names a known failure
/// (then the error keeps each text as it was).
pub proof fn law_from_stderr_ignores_case(command: Seq<char>, s1: Seq<char>, s2: Seq<char>, target: Seq<char>)
    requires
        lowercase(s1) == lowercase(s2),
        !(stderr_kind(lowercase(s1)) is Other),
    ensures
        classified(command, s1, lowercase(s1), target) == classified(command, s2, lowercase(s2), target),
{
}

/// tmux not running is reported as such, whatever else stderr says.
pub proof fn law_not_running_takes_precedence(command: Seq<char>, stderr: Seq<char>, target: Seq<char>)
    requires
        contains(lowercase(stderr), "no server running"@),
    ensures
        classified(command, stderr, lowercase(stderr), target) == TmuxErrorView::TmuxNotRunning,
{
}

impl TmuxError {
    /// Classify a tmux stderr output, given it lowercased as well.
    pub fn classify_stderr(command: &str, stderr: &str, stderr_lower: &str, target: &str) -> (e:
        TmuxError)
        ensures
            e@ == classified(command@, stderr@, stderr_lower@, target@),
    {
        if contains_exec(stderr_lower, "no server running") {
            return TmuxError::TmuxNotRunning;
        }
        if contains_exec(stderr_lower, "session not found") || contains_exec(
            stderr_lower,
            "can't find session",
        ) {
            return TmuxError::SessionNotFound(owned(target));
        }
        if contains_exec(stderr_lower, "window not found") || contains_exec(
            stderr_lower,
            "can't find window",
        ) {
            return TmuxError::WindowNotFound(owned(target));
        }
        if contains_exec(stderr_lower, "pane not found") || contains_exec(
            stderr_lower,
            "can't find pane",
        ) {
            return TmuxError::PaneNotFound(owned(target));
        }
        if contains_exec(stderr_lower, "duplicate session") {
            return TmuxError::SessionAlreadyExists(owned(target));
        }
        TmuxError::CommandFailed { command: owned(command), stderr: trim_exec(stderr) }
    }

    /// Classify a tmux stderr output into the appropriate error variant.
    pub fn from_stderr(command: &str, stderr: &str, target: &str) -> (e: TmuxError)
        ensures
            e@ == classified(command@, stderr@, lowercase(stderr@), target@),
    {
        let lower = to_lowercase(stderr);
        TmuxError::classify_stderr(command, stderr, lower.as_str(), target)
    }

    /// The human-readable message of this error.
    pub fn to_string(&self) -> (s: String)
        ensures
            s@ == error_message(self@),
    {
        match self {
            TmuxError::SessionNotFound(s) => concat("session not found: ", s.as_str()),
            TmuxError::WindowNotFound(s) => concat("window not found: ", s.as_str()),
            TmuxError::PaneNotFound(s) => concat("pane not found: ", s.as_str()),
            TmuxError::TmuxNotRunning => owned("tmux server is not running"),
            TmuxError::SessionAlreadyExists(s) => concat("session already exists: ", s.as_str()),
            TmuxError::CommandFailed { command, stderr } => {
                let a = concat("tmux command failed: ", command.as_str());
                let b = concat(a.as_str(), ": ");
                concat(b.as_str(), stderr.as_str())
            },
            TmuxError::InvalidTarget(s) => concat("invalid target: ", s.as_str()),
            TmuxError::Validation(v) => {
                let m = v.to_string();
                concat("validation error: ", m.as_str())
            },
            TmuxError::ParseError { command, details } => {
                let a = concat("failed to parse tmux output for ", command.as_str());
                let b = concat(a.as_str(), ": ");
                concat(b.as_str(), details.as_str())
            },
            TmuxError::Timeout { command } => concat("tmux command timed out: ", command.as_str()),
        }
    }
}

impl From<ValidationError> for TmuxError {
    fn from(e: ValidationError) -> (r: TmuxError) {
        TmuxError::Validation(e)
    }
}

impl vstd::std_specs::convert::FromSpecImpl<ValidationError> for TmuxError {
    open spec fn obeys_from_spec() -> bool {
        true
    }

    open spec fn from_spec(e: ValidationError) -> TmuxError {
        TmuxError::Validation(e)
    }
}

} // verus!

verus! {

/// "invalid {what} '{field}': {message}".
pub open spec fn invalid_number(what: Seq<char>, field: Seq<char>, message: Seq<char>) -> Seq<char> {
    "invalid "@ + what + " '"@ + field + "': "@ + message
}

/// "expected {n} tab-separated fields, got: {line}".
pub open spec fn field_count(n: nat, line: Seq<char>) -> Seq<char> {
    "expected "@ + dec(n) + " tab-separated fields, got: "@ + line
}

/// "invalid {what} '{field}': {message}".
pub fn invalid_number_details(what: &str, field: &str, message: &str) -> (s: String)
    ensures
        s@ == invalid_number(what@, field@, message@),
{
    let a = concat("invalid ", what);
    let b = concat(a.as_str(), " '");
    let c = concat(b.as_str(), field);
    let d = concat(c.as_str(), "': ");
    concat(d.as_str(), message)
}

/// "expected {n} tab-separated fields, got: {line}".
pub fn field_count_details(n: u64, line: &str) -> (s: String)
    ensures
        s@ == field_count(n as nat, line@),
{
    let mut a = owned("expected ");
    push_decimal(&mut a, n);
    let b = concat(a.as_str(), " tab-separated fields, got: ");
    concat(b.as_str(), line)
}

} // verus!
