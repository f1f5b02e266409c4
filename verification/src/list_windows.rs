//! tmux windows: the window record, `list-windows`, and lookups among windows.

use vstd::prelude::*;

use crate::command_spec::{ArgList, TmuxCommandSpec};
use crate::error::{
    field_count, field_count_details, invalid_number, invalid_number_details, result_view,
    TmuxError, TmuxErrorView,
};
use crate::text::{
    collect_results, concat, dec, int_error_message, lemma_collect_done, lemma_collect_step,
    nonempty_lines, nonempty_lines_exec, owned, parse_u32, parse_unsigned, prepend_ok,
    push_decimal, splitn, splitn_exec, str_eq, u64_to_string, views, lemma_splitn_cons,
    lemma_parse_unsigned_bound,
};
use crate::validation::SessionName;

verus! {

/// A tmux window.
#[derive(Debug, PartialEq, Eq)]
pub struct TmuxWindow {
    pub id: String,
    pub index: u32,
    pub name: String,
    pub panes: u32,
    pub active: bool,
}

pub struct WindowView {
    pub id: Seq<char>,
    pub index: u32,
    pub name: Seq<char>,
    pub panes: u32,
    pub active: bool,
}

impl View for TmuxWindow {
    type V = WindowView;

    open spec fn view(&self) -> WindowView {
        WindowView {
            id: self.id@,
            index: self.index,
            name: self.name@,
            panes: self.panes,
            active: self.active,
        }
    }
}

impl Clone for TmuxWindow {
    fn clone(&self) -> (r: Self)
        ensures
            r == *self,
    {
        TmuxWindow {
            id: self.id.clone(),
            index: self.index,
            name: self.name.clone(),
            panes: self.panes,
            active: self.active,
        }
    }
}

impl TmuxWindow {
    /// "{index}:{name} ({panes} panes[, active])".
    pub fn to_string(&self) -> (s: String)
        ensures
            s@ == dec(self.index as nat) + ":"@ + self.name@ + " ("@ + dec(self.panes as nat)
                + " panes"@ + (if self.active {
                ", active"@
            } else {
                ""@
            }) + ")"@,
    {
        let mut a = String::new();
        push_decimal(&mut a, self.index as u64);
        let b = concat(a.as_str(), ":");
        let c = concat(b.as_str(), self.name.as_str());
        let mut d = concat(c.as_str(), " (");
        push_decimal(&mut d, self.panes as u64);
        let e = concat(d.as_str(), " panes");
        let f = concat(e.as_str(), if self.active { ", active" } else { "" });
        let r = concat(f.as_str(), ")");
        assert(a@ =~= dec(self.index as nat));
        r
    }
}

pub open spec fn list_windows_format() -> Seq<char> {
    "#{window_id}\t#{window_index}\t#{window_name}\t#{window_panes}\t#{window_active}"@
}

/// Pure: build the tmux command specification for listing windows.
pub fn build_list_windows_command(session: &SessionName) -> (c: TmuxCommandSpec)
    ensures
        c@ == seq!["list-windows"@, "-t"@, session@, "-F"@, list_windows_format()],
{
    let mut a = ArgList::new();
    a.push("list-windows");
    a.push("-t");
    a.push(session.as_str());
    a.push("-F");
    a.push("#{window_id}\t#{window_index}\t#{window_name}\t#{window_panes}\t#{window_active}");
    a.build()
}

pub open spec fn window_number_error(what: Seq<char>, field: Seq<char>, k: crate::text::IntErrorKind) -> TmuxErrorView {
    TmuxErrorView::ParseError {
        command: "list-windows"@,
        details: invalid_number(what, field, int_error_message(k)),
    }
}

/// What `parse_window_line` gives for a line.
pub open spec fn window_line(line: Seq<char>) -> Result<WindowView, TmuxErrorView> {
    let p = splitn(line, '\t', 5);
    if p.len() < 5 {
        Err(TmuxErrorView::ParseError { command: "list-windows"@, details: field_count(5, line) })
    } else {
        match parse_unsigned(p[1], u32::MAX as nat) {
            Err(k) => Err(window_number_error("window index"@, p[1], k)),
            Ok(index) => match parse_unsigned(p[3], u32::MAX as nat) {
                Err(k) => Err(window_number_error("pane count"@, p[3], k)),
                Ok(panes) => Ok(
                    WindowView {
                        id: p[0],
                        index: index as u32,
                        name: p[2],
                        panes: panes as u32,
                        active: p[4] == "1"@,
                    },
                ),
            },
        }
    }
}

fn window_number_failure(what: &str, field: &str, k: crate::text::IntErrorKind) -> (e: TmuxError)
    ensures
        e@ == window_number_error(what@, field@, k),
{
    TmuxError::ParseError {
        command: owned("list-windows"),
        details: invalid_number_details(what, field, k.message().as_str()),
    }
}

/// Pure: parse a single line of list-windows output into a TmuxWindow.
pub fn parse_window_line(line: &str) -> (r: Result<TmuxWindow, TmuxError>)
    ensures
        result_view(r, |w: TmuxWindow| w@) == window_line(line@),
{
    let p = splitn_exec(line, '\t', 5);
    if p.len() < 5 {
        return Err(
            TmuxError::ParseError {
                command: owned("list-windows"),
                details: field_count_details(5, line),
            },
        );
    }
    assert(forall|i: int| 0 <= i < 5 ==> p@[i]@ == views(p@)[i]);
    let index = match parse_u32(p[1].as_str()) {
        Ok(n) => n,
        Err(k) => { return Err(window_number_failure("window index", p[1].as_str(), k)); },
    };
    let panes = match parse_u32(p[3].as_str()) {
        Ok(n) => n,
        Err(k) => { return Err(window_number_failure("pane count", p[3].as_str(), k)); },
    };
    Ok(
        TmuxWindow {
            id: p[0].clone(),
            index,
            name: p[2].clone(),
            panes,
            active: str_eq(p[4].as_str(), "1"),
        },
    )
}

/// Pure: parse raw list-windows stdout into domain types.
pub fn parse_list_windows_output(stdout: &str) -> (r: Result<Vec<TmuxWindow>, TmuxError>)
    ensures
        result_view(r, |v: Vec<TmuxWindow>| v@.map_values(|w: TmuxWindow| w@)) == collect_results(
            nonempty_lines(stdout@),
            |l: Seq<char>| window_line(l),
        ),
{
    let lines = nonempty_lines_exec(stdout);
    let ghost ls = views(lines@);
    let ghost f = |l: Seq<char>| window_line(l);
    let mut out: Vec<TmuxWindow> = Vec::new();
    let mut i: usize = 0;
    proof { lemma_collect_done(ls, f, Seq::empty()); }
    assert(out@.map_values(|w: TmuxWindow| w@) =~= Seq::<WindowView>::empty());
    while i < lines.len()
        invariant
            i <= lines@.len(),
            ls == views(lines@),
            ls == nonempty_lines(stdout@),
            f == (|l: Seq<char>| window_line(l)),
            collect_results(ls, f) == prepend_ok(
                out@.map_values(|w: TmuxWindow| w@),
                collect_results(ls.skip(i as int), f),
            ),
        decreases lines@.len() - i,
    {
        proof { lemma_collect_step(ls, f, out@.map_values(|w: TmuxWindow| w@), i as int); }
        assert(ls[i as int] == lines@[i as int]@);
        let w = parse_window_line(lines[i].as_str())?;
        let ghost old_out = out@;
        out.push(w);
        assert(out@.map_values(|w: TmuxWindow| w@) =~= old_out.map_values(|w: TmuxWindow| w@).push(w@));
        i += 1;
    }
    proof { lemma_collect_done(ls, f, out@.map_values(|w: TmuxWindow| w@)); }
    Ok(out)
}

/// The first window called `name` (what `get_window` returns).
pub fn find_window(windows: &Vec<TmuxWindow>, name: &str) -> (r: Option<TmuxWindow>)
    ensures
        r matches Some(w) ==> exists|i: int|
            0 <= i < windows@.len() && windows@[i] == w && w.name@ == name@ && forall|j: int|
                0 <= j < i ==> windows@[j].name@ != name@,
        r is None ==> forall|j: int| 0 <= j < windows@.len() ==> windows@[j].name@ != name@,
{
    let mut i: usize = 0;
    while i < windows.len()
        invariant
            i <= windows@.len(),
            forall|j: int| 0 <= j < i ==> windows@[j].name@ != name@,
        decreases windows@.len() - i,
    {
        if str_eq(windows[i].name.as_str(), name) {
            return Some(windows[i].clone());
        }
        i += 1;
    }
    None
}

/// A window that a window reference names: by name, or by its index in decimal.
pub open spec fn window_matches(w: WindowView, part: Seq<char>) -> bool {
    w.name == part || dec(w.index as nat) == part
}

/// Whether some window matches `part` (the check `require_window_exists` makes).
pub fn window_present(windows: &Vec<TmuxWindow>, part: &str) -> (b: bool)
    ensures
        b == exists|i: int| 0 <= i < windows@.len() && window_matches(windows@[i]@, part@),
{
    let mut i: usize = 0;
    while i < windows.len()
        invariant
            i <= windows@.len(),
            forall|j: int| 0 <= j < i ==> !window_matches(#[trigger] windows@[j]@, part@),
        decreases windows@.len() - i,
    {
        let idx = u64_to_string(windows[i].index as u64);
        if str_eq(windows[i].name.as_str(), part) || str_eq(idx.as_str(), part) {
            assert(window_matches(windows@[i as int]@, part@));
            return true;
        }
        i += 1;
    }
    false
}

/// A `list-windows` line `id\tindex\tname\tpanes\tactive` (the first four
/// fields free of tabs) reads as that window: it parses exactly when the
/// index and the pane count are `u32`s; then id, index, name and pane count
/// are those fields, and the window is active exactly when the last field
/// is `1`.
pub proof fn law_window_line_fields(
    id: Seq<char>,
    index: Seq<char>,
    name: Seq<char>,
    panes: Seq<char>,
    active: Seq<char>,
)
    requires
        forall|i: int| 0 <= i < id.len() ==> id[i] != '\t',
        forall|i: int| 0 <= i < index.len() ==> index[i] != '\t',
        forall|i: int| 0 <= i < name.len() ==> name[i] != '\t',
        forall|i: int| 0 <= i < panes.len() ==> panes[i] != '\t',
    ensures
        ({
            let tab = seq!['\t'];
            let r = window_line(id + tab + index + tab + name + tab + panes + tab + active);
            &&& (r is Ok <==> parse_unsigned(index, u32::MAX as nat) is Ok && parse_unsigned(panes, u32::MAX as nat) is Ok)
            &&& (r matches Ok(w) ==> {
                &&& w.id == id
                &&& w.index as nat == parse_unsigned(index, u32::MAX as nat).unwrap()
                &&& w.name == name
                &&& w.panes as nat == parse_unsigned(panes, u32::MAX as nat).unwrap()
                &&& (w.active <==> active == seq!['1'])
            })
        }),
{
    let tab = seq!['\t'];
    let r4 = panes + tab + active;
    let r3 = name + tab + r4;
    let r2 = index + tab + r3;
    let line = id + tab + r2;
    assert(line =~= id + tab + index + tab + name + tab + panes + tab + active);
    lemma_splitn_cons(id, '\t', r2, 5);
    lemma_splitn_cons(index, '\t', r3, 4);
    lemma_splitn_cons(name, '\t', r4, 3);
    lemma_splitn_cons(panes, '\t', active, 2);
    assert(splitn(active, '\t', 1) == seq![active]);
    assert(splitn(line, '\t', 5) =~= seq![id, index, name, panes, active]);
    reveal_strlit("1");
    assert("1"@ =~= seq!['1']);
    lemma_parse_unsigned_bound(index, u32::MAX as nat);
    lemma_parse_unsigned_bound(panes, u32::MAX as nat);
}

} // verus!
