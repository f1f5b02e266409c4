//! tmux paste buffers: commands, and the parsing of `list-buffers` output.

use vstd::prelude::*;

use crate::command_spec::{ArgList, TmuxCommandSpec, string_views};
use crate::error::{
    classified, field_count, field_count_details, invalid_number, invalid_number_details, lowercase,
    result_view, TmuxError, TmuxErrorView,
};
use crate::executor::TmuxOutput;
use crate::text::{
    collect_results, concat, lemma_collect_results, contains, contains_exec, int_error_message, lemma_collect_done,
    lemma_collect_step, nonempty_lines, nonempty_lines_exec, owned, parse_u64, parse_unsigned,
    prepend_ok, push_decimal, splitn, splitn_exec, u64_to_string, views, dec, lemma_splitn_cons,
    lemma_parse_unsigned_bound,
};
use crate::validation::{
    check_buffer_name, outcome, validate_buffer_name, PaneTarget, ValidationError, ValidationErrorView,
};

verus! {

/// A tmux paste buffer.
#[derive(Debug, Clone, PartialEq, Eq)]
pub struct TmuxBuffer {
    pub name: String,
    pub size: u64,
}

/// A buffer's name and size.
pub struct BufferView {
    pub name: Seq<char>,
    pub size: u64,
}

impl View for TmuxBuffer {
    type V = BufferView;

    open spec fn view(&self) -> BufferView {
        BufferView { name: self.name@, size: self.size }
    }
}

impl TmuxBuffer {
    /// "{name} ({size} bytes)".
    pub fn to_string(&self) -> (s: String)
        ensures
            s@ == self.name@ + " ("@ + dec(self.size as nat) + " bytes)"@,
    {
        let a = concat(self.name.as_str(), " (");
        let mut a = a;
        push_decimal(&mut a, self.size);
        concat(a.as_str(), " bytes)")
    }
}

pub open spec fn list_buffers_format() -> Seq<char> {
    "#{buffer_name}\t#{buffer_size}"@
}

/// Pure: build the tmux command specification for listing buffers.
pub fn build_list_buffers_command() -> (c: TmuxCommandSpec)
    ensures
        c@ == seq!["list-buffers"@, "-F"@, list_buffers_format()],
{
    let mut a = ArgList::new();
    a.push("list-buffers");
    a.push("-F");
    a.push("#{buffer_name}\t#{buffer_size}");
    a.build()
}

/// `-b NAME` when a buffer is named.
pub open spec fn buffer_flag(name: Option<&str>) -> Seq<Seq<char>> {
    match name {
        Some(n) => seq!["-b"@, n@],
        None => Seq::empty(),
    }
}

fn push_buffer_flag(a: &mut ArgList, name: Option<&str>)
    ensures
        string_views(final(a).args@) == string_views(old(a).args@) + buffer_flag(name),
{
    match name {
        Some(n) => {
            a.push("-b");
            a.push(n);
        },
        None => {},
    }
    assert(string_views(a.args@) =~= string_views(old(a).args@) + buffer_flag(name));
}

/// Pure: build the tmux command specification for showing a buffer.
pub fn build_get_buffer_command(name: Option<&str>) -> (c: TmuxCommandSpec)
    ensures
        c@ == seq!["show-buffer"@] + buffer_flag(name),
{
    let mut a = ArgList::new();
    a.push("show-buffer");
    push_buffer_flag(&mut a, name);
    a.build()
}

/// Pure: build the tmux command specification for setting a buffer.
pub fn build_set_buffer_command(name: Option<&str>, content: &str) -> (c: TmuxCommandSpec)
    ensures
        c@ == seq!["set-buffer"@] + buffer_flag(name) + seq![content@],
{
    let mut a = ArgList::new();
    a.push("set-buffer");
    push_buffer_flag(&mut a, name);
    a.push(content);
    a.build()
}

/// Pure: build the tmux command specification for pasting a buffer.
pub fn build_paste_buffer_command(target: &PaneTarget, name: Option<&str>) -> (c: TmuxCommandSpec)
    ensures
        c@ == seq!["paste-buffer"@, "-t"@, target@] + buffer_flag(name),
{
    let mut a = ArgList::new();
    a.push("paste-buffer");
    a.push("-t");
    a.push(target.as_str());
    push_buffer_flag(&mut a, name);
    a.build()
}

/// Pure: build the tmux command specification for deleting a buffer.
pub fn build_delete_buffer_command(name: &str) -> (c: TmuxCommandSpec)
    ensures
        c@ == seq!["delete-buffer"@, "-b"@, name@],
{
    let mut a = ArgList::new();
    a.push("delete-buffer");
    a.push("-b");
    a.push(name);
    a.build()
}

/// What `parse_buffer_line` gives for a line: name and size, or the parse error.
pub open spec fn buffer_line(line: Seq<char>) -> Result<BufferView, TmuxErrorView> {
    let parts = splitn(line, '\t', 2);
    if parts.len() < 2 {
        Err(
            TmuxErrorView::ParseError {
                command: "list-buffers"@,
                details: field_count(2, line),
            },
        )
    } else {
        match parse_unsigned(parts[1], u64::MAX as nat) {
            Ok(n) => Ok(BufferView { name: parts[0], size: n as u64 }),
            Err(k) => Err(
                TmuxErrorView::ParseError {
                    command: "list-buffers"@,
                    details: invalid_number("buffer size"@, parts[1], int_error_message(k)),
                },
            ),
        }
    }
}

} // verus!

verus! {

/// Pure: parse a single line of list-buffers output into a TmuxBuffer.
pub fn parse_buffer_line(line: &str) -> (r: Result<TmuxBuffer, TmuxError>)
    ensures
        result_view(r, |b: TmuxBuffer| b@) == buffer_line(line@),
{
    let parts = splitn_exec(line, '\t', 2);
    if parts.len() < 2 {
        return Err(
            TmuxError::ParseError {
                command: owned("list-buffers"),
                details: field_count_details(2, line),
            },
        );
    }
    assert(parts@[1]@ == views(parts@)[1]);
    assert(parts@[0]@ == views(parts@)[0]);
    match parse_u64(parts[1].as_str()) {
        Ok(size) => Ok(TmuxBuffer { name: parts[0].clone(), size }),
        Err(k) => Err(
            TmuxError::ParseError {
                command: owned("list-buffers"),
                details: invalid_number_details("buffer size", parts[1].as_str(), k.message().as_str()),
            },
        ),
    }
}

/// Pure: parse raw list-buffers stdout into domain types.
pub fn parse_list_buffers_output(stdout: &str) -> (r: Result<Vec<TmuxBuffer>, TmuxError>)
    ensures
        result_view(r, |v: Vec<TmuxBuffer>| v@.map_values(|b: TmuxBuffer| b@)) == collect_results(
            nonempty_lines(stdout@),
            |l: Seq<char>| buffer_line(l),
        ),
{
    let lines = nonempty_lines_exec(stdout);
    let ghost ls = views(lines@);
    let ghost f = |l: Seq<char>| buffer_line(l);
    let mut out: Vec<TmuxBuffer> = Vec::new();
    let mut i: usize = 0;
    proof { lemma_collect_done(ls, f, Seq::empty()); }
    assert(out@.map_values(|b: TmuxBuffer| b@) =~= Seq::<BufferView>::empty());
    while i < lines.len()
        invariant
            i <= lines@.len(),
            ls == views(lines@),
            ls == nonempty_lines(stdout@),
            f == (|l: Seq<char>| buffer_line(l)),
            collect_results(ls, f) == prepend_ok(
                out@.map_values(|b: TmuxBuffer| b@),
                collect_results(ls.skip(i as int), f),
            ),
        decreases lines@.len() - i,
    {
        proof { lemma_collect_step(ls, f, out@.map_values(|b: TmuxBuffer| b@), i as int); }
        assert(ls[i as int] == lines@[i as int]@);
        let b = parse_buffer_line(lines[i].as_str())?;
        let ghost old_out = out@;
        out.push(b);
        assert(out@.map_values(|b: TmuxBuffer| b@) =~= old_out.map_values(|b: TmuxBuffer| b@).push(b@));
        i += 1;
    }
    proof { lemma_collect_done(ls, f, out@.map_values(|b: TmuxBuffer| b@)); }
    Ok(out)
}

/// What listing buffers reports: nothing when tmux says there are no buffers,
/// the tmux error on any other failure, the parsed buffers on success.
pub open spec fn list_buffers_outcome(o: TmuxOutput) -> Result<Seq<BufferView>, TmuxErrorView> {
    if !o.success {
        if contains(o.stderr@, "no buffers"@) {
            Ok(Seq::empty())
        } else {
            Err(classified("list-buffers"@, o.stderr@, lowercase(o.stderr@), ""@))
        }
    } else {
        collect_results(nonempty_lines(o.stdout@), |l: Seq<char>| buffer_line(l))
    }
}

/// Interpret the output of `list-buffers`.
pub fn interpret_list_buffers(output: &TmuxOutput) -> (r: Result<Vec<TmuxBuffer>, TmuxError>)
    ensures
        result_view(r, |v: Vec<TmuxBuffer>| v@.map_values(|b: TmuxBuffer| b@)) == list_buffers_outcome(*output),
{
    if !output.success {
        if contains_exec(output.stderr.as_str(), "no buffers") {
            let v: Vec<TmuxBuffer> = Vec::new();
            assert(v@.map_values(|b: TmuxBuffer| b@) =~= Seq::<BufferView>::empty());
            return Ok(v);
        }
        return Err(TmuxError::from_stderr("list-buffers", output.stderr.as_str(), ""));
    }
    parse_list_buffers_output(output.stdout.as_str())
}

/// The check of an optional buffer name: none to check when no name is given.
pub open spec fn check_opt_buffer_name(name: Option<&str>) -> Result<(), ValidationErrorView> {
    match name {
        Some(n) => check_buffer_name(n@),
        None => Ok(()),
    }
}

fn validate_opt_buffer_name(name: Option<&str>) -> (r: Result<(), ValidationError>)
    ensures
        outcome(r) == check_opt_buffer_name(name),
{
    match name {
        Some(n) => validate_buffer_name(n),
        None => Ok(()),
    }
}

/// `show-buffer` for the named buffer (the most recent one when `name` is
/// `None`), once a given name is a valid buffer name.
pub fn plan_get_buffer(name: Option<&str>) -> (r: Result<TmuxCommandSpec, ValidationError>)
    ensures
        r is Ok <==> check_opt_buffer_name(name) is Ok,
        r matches Err(e) ==> check_opt_buffer_name(name) == Err::<(), ValidationErrorView>(e@),
        r matches Ok(c) ==> c@ == seq!["show-buffer"@] + buffer_flag(name),
{
    match validate_opt_buffer_name(name) {
        Err(e) => Err(e),
        Ok(()) => Ok(build_get_buffer_command(name)),
    }
}

/// `set-buffer` of `content`, once a given name is a valid buffer name.
pub fn plan_set_buffer(name: Option<&str>, content: &str) -> (r: Result<TmuxCommandSpec, ValidationError>)
    ensures
        r is Ok <==> check_opt_buffer_name(name) is Ok,
        r matches Err(e) ==> check_opt_buffer_name(name) == Err::<(), ValidationErrorView>(e@),
        r matches Ok(c) ==> c@ == seq!["set-buffer"@] + buffer_flag(name) + seq![content@],
{
    match validate_opt_buffer_name(name) {
        Err(e) => Err(e),
        Ok(()) => Ok(build_set_buffer_command(name, content)),
    }
}

/// `paste-buffer` into `target`, once a given name is a valid buffer name.
pub fn plan_paste_buffer(target: &PaneTarget, name: Option<&str>) -> (r: Result<TmuxCommandSpec, ValidationError>)
    ensures
        r is Ok <==> check_opt_buffer_name(name) is Ok,
        r matches Err(e) ==> check_opt_buffer_name(name) == Err::<(), ValidationErrorView>(e@),
        r matches Ok(c) ==> c@ == seq!["paste-buffer"@, "-t"@, target@] + buffer_flag(name),
{
    match validate_opt_buffer_name(name) {
        Err(e) => Err(e),
        Ok(()) => Ok(build_paste_buffer_command(target, name)),
    }
}

/// `delete-buffer` of the named buffer, once the name is a valid buffer name.
pub fn plan_delete_buffer(name: &str) -> (r: Result<TmuxCommandSpec, ValidationError>)
    ensures
        r is Ok <==> check_buffer_name(name@) is Ok,
        r matches Err(e) ==> check_buffer_name(name@) == Err::<(), ValidationErrorView>(e@),
        r matches Ok(c) ==> c@ == seq!["delete-buffer"@, "-b"@, name@],
{
    match validate_buffer_name(name) {
        Err(e) => Err(e),
        Ok(()) => Ok(build_delete_buffer_command(name)),
    }
}

/// The `list-buffers` output parses exactly when each of its non-empty
/// lines parses; then it gives one buffer per non-empty line, in order.
/// Otherwise it gives the error of the first line that does not parse.
pub proof fn law_list_buffers_lines(stdout: Seq<char>)
    ensures
        ({
            let ls = nonempty_lines(stdout);
            let r = collect_results(ls, |l: Seq<char>| buffer_line(l));
            &&& (r is Ok <==> forall|i: int| 0 <= i < ls.len() ==> (#[trigger] buffer_line(ls[i])) is Ok)
            &&& (r matches Ok(v) ==> v.len() == ls.len() && forall|i: int|
                0 <= i < ls.len() ==> buffer_line(ls[i]) == Ok::<BufferView, TmuxErrorView>(#[trigger] v[i]))
            &&& (r matches Err(e) ==> exists|i: int|
                0 <= i < ls.len() && buffer_line(ls[i]) == Err::<BufferView, TmuxErrorView>(e) && forall|j: int|
                    0 <= j < i ==> (#[trigger] buffer_line(ls[j])) is Ok)
        }),
{
    let ls = nonempty_lines(stdout);
    let f = |l: Seq<char>| buffer_line(l);
    lemma_collect_results(ls, f);
    assert forall|i: int| 0 <= i < ls.len() implies f(ls[i]) == buffer_line(ls[i]) by {}
}

/// A `list-buffers` line `name\tsize` (the name free of tabs) reads as that
/// buffer: it parses exactly when the size is a `u64`; then the buffer has
/// that name and that size.
pub proof fn law_buffer_line_fields(name: Seq<char>, size: Seq<char>)
    requires
        forall|i: int| 0 <= i < name.len() ==> name[i] != '\t',
    ensures
        ({
            let r = buffer_line(name + seq!['\t'] + size);
            &&& (r is Ok <==> parse_unsigned(size, u64::MAX as nat) is Ok)
            &&& (r matches Ok(b) ==> b.name == name && b.size as nat == parse_unsigned(size, u64::MAX as nat).unwrap())
        }),
{
    lemma_splitn_cons(name, '\t', size, 2);
    assert(splitn(size, '\t', 1) == seq![size]);
    assert(splitn(name + seq!['\t'] + size, '\t', 2) =~= seq![name, size]);
    lemma_parse_unsigned_bound(size, u64::MAX as nat);
}

} // verus!
