//! tmux sessions: the session record, `list-sessions`, and lookups among sessions.

use vstd::prelude::*;

use crate::command_spec::{ArgList, TmuxCommandSpec};
use crate::error::{
    classified, field_count, field_count_details, invalid_number, invalid_number_details,
    lowercase, result_view, TmuxError, TmuxErrorView,
};
use crate::executor::TmuxOutput;
use crate::text::{
    collect_results, contains, contains_exec, int_error_message, lemma_collect_done,
    lemma_collect_step, lemma_parse_unsigned_bound, lemma_scan_digits_bound, lemma_split_once_join, lemma_splitn_cons,
    nonempty_lines, occurs_at, nonempty_lines_exec, owned, parse_i64, parse_i64_spec,
    parse_u32, parse_unsigned, prepend_ok, split_once, split_once_exec, splitn, splitn_exec,
    str_eq, views, IntErrorKind,
};

verus! {

#[derive(Debug, PartialEq, Eq)]
pub struct TmuxSession {
    pub name: String,
    pub windows: u32,
    pub created: i64,
    pub attached: bool,
}

pub struct SessionView {
    pub name: Seq<char>,
    pub windows: u32,
    pub created: i64,
    pub attached: bool,
}

impl View for TmuxSession {
    type V = SessionView;

    open spec fn view(&self) -> SessionView {
        SessionView {
            name: self.name@,
            windows: self.windows,
            created: self.created,
            attached: self.attached,
        }
    }
}

impl Clone for TmuxSession {
    fn clone(&self) -> (r: Self)
        ensures
            r == *self,
    {
        TmuxSession {
            name: self.name.clone(),
            windows: self.windows,
            created: self.created,
            attached: self.attached,
        }
    }
}

/// The fields `list-sessions` prints per session: the session id first, then
/// a session line.
pub open spec fn list_sessions_format() -> Seq<char> {
    "#{session_id}\t#{session_name}\t#{session_windows}\t#{session_created}\t#{session_attached}"@
}

/// Pure: build the tmux command specification for listing sessions.
pub fn build_list_sessions_command() -> (c: TmuxCommandSpec)
    ensures
        c@ == seq!["list-sessions"@, "-F"@, list_sessions_format()],
{
    let mut a = ArgList::new();
    a.push("list-sessions");
    a.push("-F");
    a.push("#{session_id}\t#{session_name}\t#{session_windows}\t#{session_created}\t#{session_attached}");
    a.build()
}

pub open spec fn session_number_error(what: Seq<char>, field: Seq<char>, k: IntErrorKind) -> TmuxErrorView {
    TmuxErrorView::ParseError {
        command: "list-sessions"@,
        details: invalid_number(what, field, int_error_message(k)),
    }
}

/// What `parse_session_line` gives for a `name\twindows\tcreated\tattached` line.
pub open spec fn session_line(line: Seq<char>) -> Result<SessionView, TmuxErrorView> {
    let p = splitn(line, '\t', 4);
    if p.len() < 4 {
        Err(TmuxErrorView::ParseError { command: "list-sessions"@, details: field_count(4, line) })
    } else {
        match parse_unsigned(p[1], u32::MAX as nat) {
            Err(k) => Err(session_number_error("window count"@, p[1], k)),
            Ok(windows) => match parse_i64_spec(p[2]) {
                Err(k) => Err(session_number_error("session_created timestamp"@, p[2], k)),
                Ok(created) => Ok(
                    SessionView {
                        name: p[0],
                        windows: windows as u32,
                        created: created as i64,
                        attached: p[3] == "1"@,
                    },
                ),
            },
        }
    }
}

fn session_number_failure(what: &str, field: &str, k: IntErrorKind) -> (e: TmuxError)
    ensures
        e@ == session_number_error(what@, field@, k),
{
    TmuxError::ParseError {
        command: owned("list-sessions"),
        details: invalid_number_details(what, field, k.message().as_str()),
    }
}

/// Parse one line of `list-sessions` output.
pub fn parse_session_line(line: &str) -> (r: Result<TmuxSession, TmuxError>)
    ensures
        result_view(r, |s: TmuxSession| s@) == session_line(line@),
{
    let p = splitn_exec(line, '\t', 4);
    if p.len() < 4 {
        return Err(
            TmuxError::ParseError {
                command: owned("list-sessions"),
                details: field_count_details(4, line),
            },
        );
    }
    assert(forall|i: int| 0 <= i < 4 ==> p@[i]@ == views(p@)[i]);
    let windows = match parse_u32(p[1].as_str()) {
        Ok(n) => n,
        Err(k) => { return Err(session_number_failure("window count", p[1].as_str(), k)); },
    };
    let created = match parse_i64(p[2].as_str()) {
        Ok(n) => n,
        Err(k) => {
            return Err(session_number_failure("session_created timestamp", p[2].as_str(), k));
        },
    };
    Ok(
        TmuxSession {
            name: p[0].clone(),
            windows,
            created,
            attached: str_eq(p[3].as_str(), "1"),
        },
    )
}

/// What a line that `list-sessions -F` or `new-session -P` prints describes:
/// its first field is the session id, the rest a session line.
pub open spec fn created_session_line(line: Seq<char>) -> Result<SessionView, TmuxErrorView> {
    match split_once(line, seq!['\t']) {
        Some((_, rest)) => session_line(rest),
        None => session_line(line),
    }
}

/// Parse a line that `list-sessions -F` or `new-session -P` prints.
pub fn parse_created_session_line(line: &str) -> (r: Result<TmuxSession, TmuxError>)
    ensures
        result_view(r, |s: TmuxSession| s@) == created_session_line(line@),
{
    proof {
        reveal_strlit("\t");
        assert("\t"@ =~= seq!['\t']);
    }
    match split_once_exec(line, "\t") {
        Some((_, rest)) => parse_session_line(rest.as_str()),
        None => parse_session_line(line),
    }
}

/// Parse `list-sessions` output: one session per non-empty line, each line
/// led by the session id.
pub fn parse_list_sessions_output(stdout: &str) -> (r: Result<Vec<TmuxSession>, TmuxError>)
    ensures
        result_view(r, |v: Vec<TmuxSession>| v@.map_values(|s: TmuxSession| s@)) == collect_results(
            nonempty_lines(stdout@),
            |l: Seq<char>| created_session_line(l),
        ),
{
    let lines = nonempty_lines_exec(stdout);
    let ghost ls = views(lines@);
    let ghost f = |l: Seq<char>| created_session_line(l);
    let mut out: Vec<TmuxSession> = Vec::new();
    let mut i: usize = 0;
    proof { lemma_collect_done(ls, f, Seq::empty()); }
    assert(out@.map_values(|s: TmuxSession| s@) =~= Seq::<SessionView>::empty());
    while i < lines.len()
        invariant
            i <= lines@.len(),
            ls == views(lines@),
            ls == nonempty_lines(stdout@),
            f == (|l: Seq<char>| created_session_line(l)),
            collect_results(ls, f) == prepend_ok(
                out@.map_values(|s: TmuxSession| s@),
                collect_results(ls.skip(i as int), f),
            ),
        decreases lines@.len() - i,
    {
        proof { lemma_collect_step(ls, f, out@.map_values(|s: TmuxSession| s@), i as int); }
        assert(ls[i as int] == lines@[i as int]@);
        let s = parse_created_session_line(lines[i].as_str())?;
        let ghost old_out = out@;
        out.push(s);
        assert(out@.map_values(|s: TmuxSession| s@) =~= old_out.map_values(|s: TmuxSession| s@).push(s@));
        i += 1;
    }
    proof { lemma_collect_done(ls, f, out@.map_values(|s: TmuxSession| s@)); }
    Ok(out)
}

/// What listing sessions reports: no sessions when the server is not running
/// or has none, the tmux error on any other failure, the sessions on success.
pub open spec fn list_sessions_outcome(o: TmuxOutput) -> Result<Seq<SessionView>, TmuxErrorView> {
    if !o.success {
        if contains(o.stderr@, "no server running"@) || contains(o.stderr@, "no sessions"@) {
            Ok(Seq::empty())
        } else {
            Err(classified("list-sessions"@, o.stderr@, lowercase(o.stderr@), ""@))
        }
    } else {
        collect_results(nonempty_lines(o.stdout@), |l: Seq<char>| created_session_line(l))
    }
}

/// Interpret the output of `list-sessions`.
pub fn interpret_list_sessions(output: &TmuxOutput) -> (r: Result<Vec<TmuxSession>, TmuxError>)
    ensures
        result_view(r, |v: Vec<TmuxSession>| v@.map_values(|s: TmuxSession| s@)) == list_sessions_outcome(*output),
{
    if !output.success {
        if contains_exec(output.stderr.as_str(), "no server running") || contains_exec(
            output.stderr.as_str(),
            "no sessions",
        ) {
            let v: Vec<TmuxSession> = Vec::new();
            assert(v@.map_values(|s: TmuxSession| s@) =~= Seq::<SessionView>::empty());
            return Ok(v);
        }
        return Err(TmuxError::from_stderr("list-sessions", output.stderr.as_str(), ""));
    }
    parse_list_sessions_output(output.stdout.as_str())
}

/// The first session called `name` (what `get_session` returns).
pub fn find_session(sessions: &Vec<TmuxSession>, name: &str) -> (r: Option<TmuxSession>)
    ensures
        r matches Some(s) ==> exists|i: int|
            0 <= i < sessions@.len() && sessions@[i] == s && s.name@ == name@ && forall|j: int|
                0 <= j < i ==> sessions@[j].name@ != name@,
        r is None ==> forall|j: int| 0 <= j < sessions@.len() ==> sessions@[j].name@ != name@,
{
    let mut i: usize = 0;
    while i < sessions.len()
        invariant
            i <= sessions@.len(),
            forall|j: int| 0 <= j < i ==> sessions@[j].name@ != name@,
        decreases sessions@.len() - i,
    {
        if str_eq(sessions[i].name.as_str(), name) {
            return Some(sessions[i].clone());
        }
        i += 1;
    }
    None
}

/// Whether a session called `name` is among `sessions` (what `session_exists` answers).
pub fn session_listed(sessions: &Vec<TmuxSession>, name: &str) -> (b: bool)
    ensures
        b == exists|i: int| 0 <= i < sessions@.len() && sessions@[i].name@ == name@,
{
    find_session(sessions, name).is_some()
}

/// A listed session line `id\tname\twindows\tcreated\tattached` (the first
/// four fields free of tabs) reads as that session: it parses exactly when
/// the window count is a `u32` and the creation time an `i64`; then the name,
/// window count and creation time are those fields, and the session is
/// attached exactly when the last field is `1`.
pub proof fn law_session_line_fields(
    id: Seq<char>,
    name: Seq<char>,
    windows: Seq<char>,
    created: Seq<char>,
    attached: Seq<char>,
)
    requires
        forall|i: int| 0 <= i < id.len() ==> id[i] != '\t',
        forall|i: int| 0 <= i < name.len() ==> name[i] != '\t',
        forall|i: int| 0 <= i < windows.len() ==> windows[i] != '\t',
        forall|i: int| 0 <= i < created.len() ==> created[i] != '\t',
    ensures
        ({
            let tab = seq!['\t'];
            let line = id + tab + name + tab + windows + tab + created + tab + attached;
            let r = created_session_line(line);
            &&& (r is Ok <==> parse_unsigned(windows, u32::MAX as nat) is Ok && parse_i64_spec(created) is Ok)
            &&& (r matches Ok(s) ==> {
                &&& s.name == name
                &&& s.windows as nat == parse_unsigned(windows, u32::MAX as nat).unwrap()
                &&& s.created as int == parse_i64_spec(created).unwrap()
                &&& (s.attached <==> attached == seq!['1'])
            })
        }),
{
    let tab = seq!['\t'];
    let rest = name + tab + windows + tab + created + tab + attached;
    let line = id + tab + rest;
    assert(line =~= id + tab + name + tab + windows + tab + created + tab + attached);
    assert forall|j: int| 0 <= j < id.len() implies !occurs_at(line, tab, j) by {
        if occurs_at(line, tab, j) {
            assert(line.subrange(j, j + 1)[0] == line[j]);
        }
    }
    lemma_split_once_join(id, tab, rest);
    let r2 = windows + tab + created + tab + attached;
    let r3 = created + tab + attached;
    assert(rest =~= name + tab + r2);
    assert(r2 =~= windows + tab + r3);
    lemma_splitn_cons(name, '\t', r2, 4);
    lemma_splitn_cons(windows, '\t', r3, 3);
    lemma_splitn_cons(created, '\t', attached, 2);
    let p = splitn(rest, '\t', 4);
    assert(splitn(attached, '\t', 1) == seq![attached]);
    assert(p =~= seq![name, windows, created, attached]);
    reveal_strlit("1");
    assert("1"@ =~= seq!['1']);
    lemma_parse_unsigned_bound(windows, u32::MAX as nat);
    if created.len() > 0 {
        lemma_scan_digits_bound(created.drop_first(), 0, 0x8000_0000_0000_0000, IntErrorKind::NegOverflow);
        lemma_scan_digits_bound(created.drop_first(), 0, 0x7fff_ffff_ffff_ffff, IntErrorKind::PosOverflow);
        lemma_scan_digits_bound(created, 0, 0x7fff_ffff_ffff_ffff, IntErrorKind::PosOverflow);
    }
}

} // verus!
