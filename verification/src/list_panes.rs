//! tmux panes: the pane record and the parsing of `list-panes` output.

use vstd::prelude::*;

use crate::command_spec::{ArgList, TmuxCommandSpec};
use crate::error::{
    field_count, field_count_details, invalid_number, invalid_number_details, result_view,
    TmuxError, TmuxErrorView,
};
use crate::text::{
    collect_results, concat, dec, int_error_message, lemma_collect_done, lemma_collect_step,
    nonempty_lines, nonempty_lines_exec, owned, parse_u32, parse_unsigned, prepend_ok,
    push_decimal, splitn, splitn_exec, str_eq, views, lemma_splitn_cons, lemma_parse_unsigned_bound,
};
use crate::validation::WindowTarget;

verus! {

#[derive(Debug, Clone, PartialEq, Eq)]
pub struct TmuxPane {
    pub id: String,
    pub width: u32,
    pub height: u32,
    pub active: bool,
    pub current_path: String,
    pub current_command: String,
    pub pid: u32,
}

pub struct PaneView {
    pub id: Seq<char>,
    pub width: u32,
    pub height: u32,
    pub active: bool,
    pub current_path: Seq<char>,
    pub current_command: Seq<char>,
    pub pid: u32,
}

impl View for TmuxPane {
    type V = PaneView;

    open spec fn view(&self) -> PaneView {
        PaneView {
            id: self.id@,
            width: self.width,
            height: self.height,
            active: self.active,
            current_path: self.current_path@,
            current_command: self.current_command@,
            pid: self.pid,
        }
    }
}

impl TmuxPane {
    /// "{id} ({width}x{height}[, active], {command})".
    pub fn to_string(&self) -> (s: String)
        ensures
            s@ == self.id@ + " ("@ + dec(self.width as nat) + "x"@ + dec(self.height as nat) + (
            if self.active {
                ", active"@
            } else {
                ""@
            }) + ", "@ + self.current_command@ + ")"@,
    {
        let mut a = concat(self.id.as_str(), " (");
        push_decimal(&mut a, self.width as u64);
        let mut b = concat(a.as_str(), "x");
        push_decimal(&mut b, self.height as u64);
        let c = concat(b.as_str(), if self.active { ", active" } else { "" });
        let d = concat(c.as_str(), ", ");
        let e = concat(d.as_str(), self.current_command.as_str());
        concat(e.as_str(), ")")
    }
}

pub open spec fn list_panes_format() -> Seq<char> {
    "#{pane_id}\t#{pane_width}\t#{pane_height}\t#{pane_active}\t#{pane_current_path}\t#{pane_current_command}\t#{pane_pid}"@
}

/// Pure: build the tmux command specification for listing the panes of a window.
pub fn build_list_panes_command(target: &WindowTarget) -> (c: TmuxCommandSpec)
    ensures
        c@ == seq!["list-panes"@, "-t"@, target@, "-F"@, list_panes_format()],
{
    let mut a = ArgList::new();
    a.push("list-panes");
    a.push("-t");
    a.push(target.as_str());
    a.push("-F");
    a.push("#{pane_id}\t#{pane_width}\t#{pane_height}\t#{pane_active}\t#{pane_current_path}\t#{pane_current_command}\t#{pane_pid}");
    a.build()
}

pub open spec fn pane_number_error(what: Seq<char>, field: Seq<char>, k: crate::text::IntErrorKind) -> TmuxErrorView {
    TmuxErrorView::ParseError {
        command: "list-panes"@,
        details: invalid_number(what, field, int_error_message(k)),
    }
}

/// What `parse_pane_line` gives for a line.
pub open spec fn pane_line(line: Seq<char>) -> Result<PaneView, TmuxErrorView> {
    let p = splitn(line, '\t', 7);
    if p.len() < 7 {
        Err(TmuxErrorView::ParseError { command: "list-panes"@, details: field_count(7, line) })
    } else {
        match parse_unsigned(p[1], u32::MAX as nat) {
            Err(k) => Err(pane_number_error("width"@, p[1], k)),
            Ok(w) => match parse_unsigned(p[2], u32::MAX as nat) {
                Err(k) => Err(pane_number_error("height"@, p[2], k)),
                Ok(h) => match parse_unsigned(p[6], u32::MAX as nat) {
                    Err(k) => Err(pane_number_error("pid"@, p[6], k)),
                    Ok(pid) => Ok(
                        PaneView {
                            id: p[0],
                            width: w as u32,
                            height: h as u32,
                            active: p[3] == "1"@,
                            current_path: p[4],
                            current_command: p[5],
                            pid: pid as u32,
                        },
                    ),
                },
            },
        }
    }
}

fn pane_number_failure(what: &str, field: &str, k: crate::text::IntErrorKind) -> (e: TmuxError)
    ensures
        e@ == pane_number_error(what@, field@, k),
{
    TmuxError::ParseError {
        command: owned("list-panes"),
        details: invalid_number_details(what, field, k.message().as_str()),
    }
}

/// Parse one line of `list-panes` output.
pub fn parse_pane_line(line: &str) -> (r: Result<TmuxPane, TmuxError>)
    ensures
        result_view(r, |p: TmuxPane| p@) == pane_line(line@),
{
    let p = splitn_exec(line, '\t', 7);
    if p.len() < 7 {
        return Err(
            TmuxError::ParseError {
                command: owned("list-panes"),
                details: field_count_details(7, line),
            },
        );
    }
    assert(forall|i: int| 0 <= i < 7 ==> p@[i]@ == views(p@)[i]);
    let width = match parse_u32(p[1].as_str()) {
        Ok(n) => n,
        Err(k) => { return Err(pane_number_failure("width", p[1].as_str(), k)); },
    };
    let height = match parse_u32(p[2].as_str()) {
        Ok(n) => n,
        Err(k) => { return Err(pane_number_failure("height", p[2].as_str(), k)); },
    };
    let pid = match parse_u32(p[6].as_str()) {
        Ok(n) => n,
        Err(k) => { return Err(pane_number_failure("pid", p[6].as_str(), k)); },
    };
    Ok(
        TmuxPane {
            id: p[0].clone(),
            width,
            height,
            active: str_eq(p[3].as_str(), "1"),
            current_path: p[4].clone(),
            current_command: p[5].clone(),
            pid,
        },
    )
}

/// Parse `list-panes` output: one pane per non-empty line.
pub fn parse_panes(stdout: &str) -> (r: Result<Vec<TmuxPane>, TmuxError>)
    ensures
        result_view(r, |v: Vec<TmuxPane>| v@.map_values(|p: TmuxPane| p@)) == collect_results(
            nonempty_lines(stdout@),
            |l: Seq<char>| pane_line(l),
        ),
{
    let lines = nonempty_lines_exec(stdout);
    let ghost ls = views(lines@);
    let ghost f = |l: Seq<char>| pane_line(l);
    let mut out: Vec<TmuxPane> = Vec::new();
    let mut i: usize = 0;
    proof { lemma_collect_done(ls, f, Seq::empty()); }
    assert(out@.map_values(|p: TmuxPane| p@) =~= Seq::<PaneView>::empty());
    while i < lines.len()
        invariant
            i <= lines@.len(),
            ls == views(lines@),
            ls == nonempty_lines(stdout@),
            f == (|l: Seq<char>| pane_line(l)),
            collect_results(ls, f) == prepend_ok(
                out@.map_values(|p: TmuxPane| p@),
                collect_results(ls.skip(i as int), f),
            ),
        decreases lines@.len() - i,
    {
        proof { lemma_collect_step(ls, f, out@.map_values(|p: TmuxPane| p@), i as int); }
        assert(ls[i as int] == lines@[i as int]@);
        let p = parse_pane_line(lines[i].as_str())?;
        let ghost old_out = out@;
        out.push(p);
        assert(out@.map_values(|p: TmuxPane| p@) =~= old_out.map_values(|p: TmuxPane| p@).push(p@));
        i += 1;
    }
    proof { lemma_collect_done(ls, f, out@.map_values(|p: TmuxPane| p@)); }
    Ok(out)
}

/// A `list-panes` line `id\twidth\theight\tactive\tpath\tcommand\tpid`
/// (all fields but the last free of tabs) reads as that pane: it parses
/// exactly when width, height and pid are `u32`s; then every field is the
/// pane's, and the pane is active exactly when its active field is `1`.
pub proof fn law_pane_line_fields(
    id: Seq<char>,
    width: Seq<char>,
    height: Seq<char>,
    active: Seq<char>,
    path: Seq<char>,
    command: Seq<char>,
    pid: Seq<char>,
)
    requires
        forall|i: int| 0 <= i < id.len() ==> id[i] != '\t',
        forall|i: int| 0 <= i < width.len() ==> width[i] != '\t',
        forall|i: int| 0 <= i < height.len() ==> height[i] != '\t',
        forall|i: int| 0 <= i < active.len() ==> active[i] != '\t',
        forall|i: int| 0 <= i < path.len() ==> path[i] != '\t',
        forall|i: int| 0 <= i < command.len() ==> command[i] != '\t',
    ensures
        ({
            let tab = seq!['\t'];
            let r = pane_line(id + tab + width + tab + height + tab + active + tab + path + tab + command + tab + pid);
            &&& (r is Ok <==> parse_unsigned(width, u32::MAX as nat) is Ok && parse_unsigned(height, u32::MAX as nat) is Ok
                && parse_unsigned(pid, u32::MAX as nat) is Ok)
            &&& (r matches Ok(p) ==> {
                &&& p.id == id
                &&& p.width as nat == parse_unsigned(width, u32::MAX as nat).unwrap()
                &&& p.height as nat == parse_unsigned(height, u32::MAX as nat).unwrap()
                &&& (p.active <==> active == seq!['1'])
                &&& p.current_path == path
                &&& p.current_command == command
                &&& p.pid as nat == parse_unsigned(pid, u32::MAX as nat).unwrap()
            })
        }),
{
    let tab = seq!['\t'];
    let r6 = command + tab + pid;
    let r5 = path + tab + r6;
    let r4 = active + tab + r5;
    let r3 = height + tab + r4;
    let r2 = width + tab + r3;
    let line = id + tab + r2;
    assert(line =~= id + tab + width + tab + height + tab + active + tab + path + tab + command + tab + pid);
    lemma_splitn_cons(id, '\t', r2, 7);
    lemma_splitn_cons(width, '\t', r3, 6);
    lemma_splitn_cons(height, '\t', r4, 5);
    lemma_splitn_cons(active, '\t', r5, 4);
    lemma_splitn_cons(path, '\t', r6, 3);
    lemma_splitn_cons(command, '\t', pid, 2);
    assert(splitn(pid, '\t', 1) == seq![pid]);
    assert(splitn(line, '\t', 7) =~= seq![id, width, height, active, path, command, pid]);
    reveal_strlit("1");
    assert("1"@ =~= seq!['1']);
    lemma_parse_unsigned_bound(width, u32::MAX as nat);
    lemma_parse_unsigned_bound(height, u32::MAX as nat);
    lemma_parse_unsigned_bound(pid, u32::MAX as nat);
}

} // verus!
