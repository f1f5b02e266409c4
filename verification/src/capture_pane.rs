//! Capturing pane content: the capture command and the normalization of what
//! tmux prints.

use vstd::prelude::*;

use crate::command_spec::{ArgList, TmuxCommandSpec, string_views};
use crate::text::{
    dec_int, i64_to_string, is_whitespace, join_lines, lemma_lines_join, lemma_lines_no_newline,
    lemma_trim_end_shape, lines, no_newline, lines_exec, push_char, string_from_chars, trim_end,
    trim_end_exec, views,
};
use crate::validation::PaneTarget;

verus! {

/// Options for controlling what content is captured from a pane.
#[derive(Debug, Clone)]
pub struct CaptureOptions {
    /// Starting line number (-S flag). Negative values reach into scroll history.
    pub start_line: Option<i32>,
    /// Ending line number (-E flag).
    pub end_line: Option<i32>,
    /// Include escape sequences in output (-e flag).
    pub escape_sequences: bool,
}

impl Default for CaptureOptions {
    fn default() -> (o: CaptureOptions)
        ensures
            o.start_line is None,
            o.end_line is None,
            !o.escape_sequences,
    {
        CaptureOptions { start_line: None, end_line: None, escape_sequences: false }
    }
}

/// `ls` without its trailing empty lines.
pub open spec fn drop_trailing_empty(ls: Seq<Seq<char>>) -> Seq<Seq<char>>
    decreases ls.len(),
{
    if ls.len() > 0 && ls.last().len() == 0 {
        drop_trailing_empty(ls.drop_last())
    } else {
        ls
    }
}

/// Raw pane output normalized: each line without trailing whitespace, the
/// trailing blank lines (tmux pads to the pane height) removed.
pub open spec fn normalized(raw: Seq<char>) -> Seq<char> {
    join_lines(drop_trailing_empty(lines(raw).map_values(|l: Seq<char>| trim_end(l))))
}

proof fn lemma_drop_trailing_empty_shape(ls: Seq<Seq<char>>)
    ensures
        drop_trailing_empty(ls).len() <= ls.len(),
        drop_trailing_empty(ls) == ls.take(drop_trailing_empty(ls).len() as int),
        drop_trailing_empty(ls).len() == 0 || drop_trailing_empty(ls).last().len() > 0,
    decreases ls.len(),
{
    if ls.len() > 0 && ls.last().len() == 0 {
        lemma_drop_trailing_empty_shape(ls.drop_last());
        assert(ls.drop_last().take(drop_trailing_empty(ls).len() as int) =~= ls.take(
            drop_trailing_empty(ls).len() as int,
        ));
    } else {
        assert(ls.take(ls.len() as int) =~= ls);
    }
}

/// Normalizing pane content that is already normalized changes nothing:
/// normalizing twice gives what normalizing once gives.
pub proof fn law_normalize_idempotent(raw: Seq<char>)
    ensures
        normalized(normalized(raw)) == normalized(raw),
{
    let ls = lines(raw);
    let t = ls.map_values(|l: Seq<char>| trim_end(l));
    let n = drop_trailing_empty(t);
    lemma_lines_no_newline(raw);
    lemma_drop_trailing_empty_shape(t);
    assert forall|i: int| 0 <= i < n.len() implies no_newline(#[trigger] n[i]) && (n[i].len() == 0
        || n[i].last() != '\r') && trim_end(n[i]) == n[i] by {
        assert(n[i] == t[i]);
        assert(t[i] == trim_end(ls[i]));
        lemma_trim_end_shape(ls[i]);
        assert(no_newline(ls[i]));
        assert forall|k: int| 0 <= k < n[i].len() implies n[i][k] != '\n' by {
            assert(n[i][k] == ls[i][k]);
        }
        if n[i].len() > 0 {
            assert(is_whitespace('\r'));
        }
    }
    lemma_lines_join(n);
    assert(lines(join_lines(n)).map_values(|l: Seq<char>| trim_end(l)) =~= n);
    assert(drop_trailing_empty(n) == n);
}

/// Normalized pane content has no trailing whitespace: not on any of its
/// lines, and not at its end.
pub proof fn law_normalized_has_no_trailing_whitespace(raw: Seq<char>)
    ensures
        forall|i: int|
            0 <= i < lines(normalized(raw)).len() ==> trim_end(#[trigger] lines(normalized(raw))[i])
                == lines(normalized(raw))[i],
        trim_end(normalized(raw)) == normalized(raw),
{
    let ls = lines(raw);
    let t = ls.map_values(|l: Seq<char>| trim_end(l));
    let n = drop_trailing_empty(t);
    lemma_lines_no_newline(raw);
    lemma_drop_trailing_empty_shape(t);
    assert forall|i: int| 0 <= i < n.len() implies no_newline(#[trigger] n[i]) && (n[i].len() == 0
        || !is_whitespace(n[i].last())) && trim_end(n[i]) == n[i] by {
        assert(n[i] == t[i]);
        assert(t[i] == trim_end(ls[i]));
        lemma_trim_end_shape(ls[i]);
        assert(no_newline(ls[i]));
        assert forall|k: int| 0 <= k < n[i].len() implies n[i][k] != '\n' by {
            assert(n[i][k] == ls[i][k]);
        }
    }
    assert forall|i: int| 0 <= i < n.len() implies (#[trigger] n[i]).len() == 0 || n[i].last() != '\r' by {
        assert(is_whitespace('\r'));
    }
    lemma_lines_join(n);
    let r = join_lines(n);
    if n.len() > 0 {
        let last = n.last();
        assert(last == n[n.len() - 1]);
        assert(last.len() > 0 && !is_whitespace(last.last()));
        if n.len() == 1 {
            assert(r == n[0]);
        } else {
            assert(r == join_lines(n.drop_last()) + seq!['\n'] + last);
            assert(r.last() == last.last());
        }
        assert(r.len() > 0 && !is_whitespace(r.last()));
    }
}

/// Normalize raw tmux capture-pane output.
///
/// This is a pure function that:
/// - Trims trailing whitespace from each line
/// - Removes trailing blank lines (tmux pads output to pane height)
pub fn normalize_pane_content(raw: &str) -> (r: String)
    ensures
        r@ == normalized(raw@),
{
    let ls = lines_exec(raw);
    let ghost trimmed_spec = lines(raw@).map_values(|l: Seq<char>| trim_end(l));
    let mut trimmed: Vec<String> = Vec::new();
    let mut i: usize = 0;
    while i < ls.len()
        invariant
            i <= ls@.len(),
            views(ls@) == lines(raw@),
            trimmed_spec == lines(raw@).map_values(|l: Seq<char>| trim_end(l)),
            views(trimmed@) == trimmed_spec.take(i as int),
        decreases ls@.len() - i,
    {
        let t = trim_end_exec(ls[i].as_str());
        let ghost old_t = trimmed@;
        trimmed.push(t);
        assert(views(ls@)[i as int] == ls@[i as int]@);
        assert(views(trimmed@) =~= views(old_t).push(t@));
        assert(trimmed_spec.take(i + 1) =~= trimmed_spec.take(i as int).push(trimmed_spec[i as int]));
        i += 1;
    }
    assert(trimmed_spec.take(ls@.len() as int) =~= trimmed_spec);
    // Drop the trailing empty lines.
    let mut k: usize = trimmed.len();
    while k > 0 && trimmed[k - 1].as_str().is_empty()
        invariant
            k <= trimmed@.len(),
            drop_trailing_empty(views(trimmed@)) == drop_trailing_empty(views(trimmed@).take(k as int)),
        decreases k,
    {
        assert(views(trimmed@).take(k as int).drop_last() =~= views(trimmed@).take(k - 1));
        assert(views(trimmed@)[k - 1] == trimmed@[k - 1]@);
        k -= 1;
    }
    proof {
        if k > 0 {
            assert(views(trimmed@)[k - 1] == trimmed@[k - 1]@);
        }
    }
    assert(drop_trailing_empty(views(trimmed@).take(k as int)) == views(trimmed@).take(k as int));
    // Join what is left with newlines.
    let mut out = String::new();
    let mut j: usize = 0;
    while j < k
        invariant
            j <= k <= trimmed@.len(),
            out@ == join_lines(views(trimmed@).take(j as int)),
        decreases k - j,
    {
        let ghost before = out@;
        if j > 0 {
            push_char(&mut out, '\n');
        }
        let lv: Vec<char> = crate::text::chars_of(trimmed[j].as_str());
        let mut m: usize = 0;
        let ghost base = out@;
        while m < lv.len()
            invariant
                m <= lv@.len(),
                out@ == base + lv@.take(m as int),
            decreases lv@.len() - m,
        {
            push_char(&mut out, lv[m]);
            m += 1;
            assert(lv@.take(m as int) =~= lv@.take(m - 1).push(lv@[m - 1]));
        }
        assert(lv@.take(lv@.len() as int) =~= lv@);
        let ghost tj = views(trimmed@).take(j + 1);
        assert(tj.drop_last() =~= views(trimmed@).take(j as int));
        assert(tj.last() == trimmed@[j as int]@);
        proof {
            if j == 0 {
                assert(before =~= Seq::<char>::empty());
                assert(out@ =~= tj[0]);
            } else {
                assert(out@ =~= before + seq!['\n'] + tj.last());
            }
        }
        j += 1;
    }
    out
}

/// A domain type representing normalized pane content.
///
/// Normalization contract:
/// - Trailing whitespace on each line is trimmed
/// - Trailing blank lines (from tmux pane height padding) are removed
#[derive(Debug, Clone, PartialEq, Eq)]
pub struct CapturedContent(String);

impl View for CapturedContent {
    type V = Seq<char>;

    closed spec fn view(&self) -> Seq<char> {
        self.0@
    }
}

impl CapturedContent {
    pub fn new(raw: &str) -> (c: CapturedContent)
        ensures
            c@ == normalized(raw@),
    {
        CapturedContent(normalize_pane_content(raw))
    }

    pub fn into_inner(self) -> (s: String)
        ensures
            s@ == self@,
    {
        self.0
    }

    pub fn as_str(&self) -> (s: &str)
        ensures
            s@ == self@,
    {
        self.0.as_str()
    }

    /// The normalized content as text.
    pub fn to_string(&self) -> (s: String)
        ensures
            s@ == self@,
    {
        self.0.clone()
    }
}

impl From<CapturedContent> for String {
    fn from(c: CapturedContent) -> (s: String)
        ensures
            s@ == c@,
    {
        c.0
    }
}

impl vstd::std_specs::convert::FromSpecImpl<CapturedContent> for String {
    open spec fn obeys_from_spec() -> bool {
        true
    }

    closed spec fn from_spec(c: CapturedContent) -> String {
        c.0
    }
}

/// `-S/-E N` when a line bound is given.
pub open spec fn line_flag(flag: Seq<char>, n: Option<i32>) -> Seq<Seq<char>> {
    match n {
        Some(v) => seq![flag, dec_int(v as int)],
        None => Seq::empty(),
    }
}

/// Pure: build the tmux command specification for capturing pane content.
pub fn build_capture_pane_command(target: &PaneTarget, opts: &CaptureOptions) -> (c: TmuxCommandSpec)
    ensures
        c@ == seq!["capture-pane"@, "-p"@, "-t"@, target@] + line_flag("-S"@, opts.start_line)
            + line_flag("-E"@, opts.end_line) + (if opts.escape_sequences {
            seq!["-e"@]
        } else {
            Seq::empty()
        }),
{
    let mut a = ArgList::new();
    a.push("capture-pane");
    a.push("-p");
    a.push("-t");
    a.push(target.as_str());
    let ghost base = string_views(a.args@);
    if let Some(start) = opts.start_line {
        a.push("-S");
        let s = i64_to_string(start as i64);
        a.push(s.as_str());
    }
    let ghost mid = string_views(a.args@);
    assert(mid =~= base + line_flag("-S"@, opts.start_line));
    if let Some(end) = opts.end_line {
        a.push("-E");
        let s = i64_to_string(end as i64);
        a.push(s.as_str());
    }
    let ghost mid2 = string_views(a.args@);
    assert(mid2 =~= mid + line_flag("-E"@, opts.end_line));
    if opts.escape_sequences {
        a.push("-e");
    }
    assert(string_views(a.args@) =~= mid2 + (if opts.escape_sequences {
        seq!["-e"@]
    } else {
        Seq::<Seq<char>>::empty()
    }));
    a.build()
}

} // verus!
