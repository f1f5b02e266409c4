//! Character-level text utilities with exact specifications.

use vstd::prelude::*;

verus! {

/// ASCII decimal digit.
pub open spec fn is_digit(c: char) -> bool {
    '0' <= c && c <= '9'
}

/// ASCII letter.
pub open spec fn is_alpha(c: char) -> bool {
    ('a' <= c && c <= 'z') || ('A' <= c && c <= 'Z')
}

/// ASCII letter or digit.
pub open spec fn is_alnum(c: char) -> bool {
    is_alpha(c) || is_digit(c)
}

pub fn char_is_digit(c: char) -> (b: bool)
    ensures
        b == is_digit(c),
{
    '0' <= c && c <= '9'
}

pub fn char_is_alpha(c: char) -> (b: bool)
    ensures
        b == is_alpha(c),
{
    ('a' <= c && c <= 'z') || ('A' <= c && c <= 'Z')
}

pub fn char_is_alnum(c: char) -> (b: bool)
    ensures
        b == is_alnum(c),
{
    char_is_alpha(c) || char_is_digit(c)
}

/// The characters of a string slice, in order.
pub fn chars_of(s: &str) -> (v: Vec<char>)
    ensures
        v@ == s@,
{
    let mut v: Vec<char> = Vec::new();
    for c in it: s.chars()
        invariant
            v@ == it.seq().take(it.index() as int),
            it.seq() == s@,
    {
        v.push(c);
    }
    v
}

} // verus!

verus! {

/// Appends one character to a string (`String::push`).
#[verifier::external_body]
pub(crate) fn push_char(s: &mut String, c: char)
    ensures
        final(s)@ == old(s)@.push(c),
{
    s.push(c);
}

/// A string holding the characters `v[start..end]`.
pub fn string_from_chars(v: &Vec<char>, start: usize, end: usize) -> (s: String)
    requires
        start <= end <= v@.len(),
    ensures
        s@ == v@.subrange(start as int, end as int),
{
    let mut s = String::new();
    let mut i = start;
    while i < end
        invariant
            start <= i <= end <= v@.len(),
            s@ == v@.subrange(start as int, i as int),
        decreases end - i,
    {
        push_char(&mut s, v[i]);
        i += 1;
    }
    s
}

/// An owned copy of a string slice.
pub fn owned(s: &str) -> (r: String)
    ensures
        r@ == s@,
{
    let v = chars_of(s);
    let r = string_from_chars(&v, 0, v.len());
    assert(v@.subrange(0, v@.len() as int) =~= v@);
    r
}

/// Concatenation of two strings.
pub fn concat(a: &str, b: &str) -> (r: String)
    ensures
        r@ == a@ + b@,
{
    let mut r = owned(a);
    let vb = chars_of(b);
    let mut i: usize = 0;
    while i < vb.len()
        invariant
            i <= vb@.len(),
            vb@ == b@,
            r@ == a@ + vb@.take(i as int),
        decreases vb@.len() - i,
    {
        push_char(&mut r, vb[i]);
        i += 1;
        assert(vb@.take(i as int) =~= vb@.take(i - 1 as int).push(vb@[i - 1]));
    }
    assert(vb@.take(vb@.len() as int) =~= vb@);
    r
}

} // verus!

verus! {

/// `p` occurs in `s` starting at index `i`.
pub open spec fn occurs_at(s: Seq<char>, p: Seq<char>, i: int) -> bool {
    0 <= i && i + p.len() <= s.len() && s.subrange(i, i + p.len()) == p
}

/// Index of the first occurrence of `p` in `s` (`str::find`).
pub open spec fn find_sub(s: Seq<char>, p: Seq<char>) -> Option<int>
    decreases s.len(),
{
    if s.len() < p.len() {
        None
    } else if s.subrange(0, p.len() as int) == p {
        Some(0)
    } else if s.len() == 0 {
        None
    } else {
        match find_sub(s.drop_first(), p) {
            Some(i) => Some(i + 1),
            None => None,
        }
    }
}

/// `s` contains `p` (`str::contains`).
pub open spec fn contains(s: Seq<char>, p: Seq<char>) -> bool {
    find_sub(s, p) is Some
}

/// `find_sub` gives the least index at which `p` occurs.
pub proof fn lemma_find_sub(s: Seq<char>, p: Seq<char>)
    ensures
        find_sub(s, p) matches Some(i) ==> occurs_at(s, p, i) && forall|j: int|
            0 <= j < i ==> !occurs_at(s, p, j),
        find_sub(s, p) is None ==> forall|j: int| !occurs_at(s, p, j),
    decreases s.len(),
{
    if s.len() < p.len() {
    } else if s.subrange(0, p.len() as int) == p {
    } else if s.len() == 0 {
        assert(s.subrange(0, p.len() as int) =~= p);
    } else {
        lemma_find_sub(s.drop_first(), p);
        assert forall|j: int| occurs_at(s, p, j) && j > 0 implies occurs_at(s.drop_first(), p, j - 1) by {
            assert(s.drop_first().subrange(j - 1, j - 1 + p.len()) =~= s.subrange(j, j + p.len()));
        }
        assert forall|j: int| occurs_at(s.drop_first(), p, j) implies occurs_at(s, p, j + 1) by {
            assert(s.drop_first().subrange(j, j + p.len()) =~= s.subrange(j + 1, j + 1 + p.len()));
        }
    }
}

/// Any index with the least-occurrence property is what `find_sub` gives.
pub proof fn lemma_find_sub_intro(s: Seq<char>, p: Seq<char>, i: int)
    requires
        occurs_at(s, p, i),
        forall|j: int| 0 <= j < i ==> !occurs_at(s, p, j),
    ensures
        find_sub(s, p) == Some(i),
{
    lemma_find_sub(s, p);
}

/// No occurrence means `find_sub` gives nothing.
pub proof fn lemma_find_sub_none(s: Seq<char>, p: Seq<char>)
    requires
        forall|j: int| 0 <= j < s.len() ==> !occurs_at(s, p, j),
        p.len() > 0,
    ensures
        find_sub(s, p) is None,
{
    lemma_find_sub(s, p);
}

/// `p` occurs in `v` at `i`: checked character by character.
pub fn occurs_at_exec(v: &Vec<char>, p: &Vec<char>, i: usize) -> (b: bool)
    ensures
        b == occurs_at(v@, p@, i as int),
{
    if i > v.len() || p.len() > v.len() - i {
        return false;
    }
    let mut k: usize = 0;
    while k < p.len()
        invariant
            k <= p@.len(),
            i + p@.len() <= v@.len(),
            v@.len() <= usize::MAX,
            forall|m: int| 0 <= m < k ==> v@[i + m] == p@[m],
        decreases p@.len() - k,
    {
        if v[i + k] != p[k] {
            assert(v@.subrange(i as int, i + p@.len())[k as int] != p@[k as int]);
            return false;
        }
        k += 1;
    }
    assert(v@.subrange(i as int, i + p@.len()) =~= p@);
    true
}

/// First occurrence of `p` in `v` (`str::find`).
pub fn find_sub_exec(v: &Vec<char>, p: &Vec<char>) -> (r: Option<usize>)
    ensures
        r matches Some(i) ==> find_sub(v@, p@) == Some(i as int),
        r is None ==> find_sub(v@, p@) is None,
{
    let mut i: usize = 0;
    while i < v.len()
        invariant
            i <= v@.len(),
            forall|j: int| 0 <= j < i ==> !occurs_at(v@, p@, j),
        decreases v@.len() - i,
    {
        if occurs_at_exec(v, p, i) {
            proof { lemma_find_sub_intro(v@, p@, i as int); }
            return Some(i);
        }
        i += 1;
    }
    if occurs_at_exec(v, p, i) {
        proof { lemma_find_sub_intro(v@, p@, i as int); }
        return Some(i);
    }
    proof {
        lemma_find_sub(v@, p@);
    }
    None
}

/// `str::contains`.
pub fn contains_exec(s: &str, p: &str) -> (b: bool)
    ensures
        b == contains(s@, p@),
{
    let v = chars_of(s);
    let pv = chars_of(p);
    find_sub_exec(&v, &pv).is_some()
}

} // verus!

verus! {

/// A line with one trailing carriage return removed, if present.
pub open spec fn strip_cr(l: Seq<char>) -> Seq<char> {
    if l.len() > 0 && l.last() == '\r' {
        l.drop_last()
    } else {
        l
    }
}

/// The lines of `s` as `str::lines` gives them: pieces separated by `'\n'`,
/// a `'\r'` just before a `'\n'` dropped, no piece after a final `'\n'`.
pub open spec fn lines(s: Seq<char>) -> Seq<Seq<char>>
    decreases s.len(),
{
    if s.len() == 0 {
        Seq::empty()
    } else {
        match find_sub(s, seq!['\n']) {
            None => seq![s],
            Some(i) => if 0 <= i < s.len() {
                seq![strip_cr(s.subrange(0, i))] + lines(s.subrange(i + 1, s.len() as int))
            } else {
                Seq::empty()
            },
        }
    }
}

/// The views of a sequence of strings.
pub open spec fn views(v: Seq<String>) -> Seq<Seq<char>> {
    v.map_values(|x: String| x@)
}

/// The non-empty lines of `s`.
pub open spec fn nonempty_lines(s: Seq<char>) -> Seq<Seq<char>> {
    lines(s).filter(|l: Seq<char>| l.len() > 0)
}

proof fn lemma_lines_step(s: Seq<char>, st: int, i: int)
    requires
        0 <= st <= i < s.len(),
        s[i] == '\n',
        forall|k: int| st <= k < i ==> s[k] != '\n',
    ensures
        lines(s.subrange(st, s.len() as int)) == seq![strip_cr(s.subrange(st, i))] + lines(
            s.subrange(i + 1, s.len() as int),
        ),
{
    let t = s.subrange(st, s.len() as int);
    let nl: Seq<char> = seq!['\n'];
    assert(occurs_at(t, nl, i - st)) by {
        assert(t.subrange(i - st, i - st + 1) =~= nl);
    }
    assert forall|j: int| 0 <= j < i - st implies !occurs_at(t, nl, j) by {
        if occurs_at(t, nl, j) {
            assert(t.subrange(j, j + 1)[0] == nl[0]);
        }
    }
    lemma_find_sub_intro(t, nl, i - st);
    assert(t.subrange(0, i - st) =~= s.subrange(st, i));
    assert(t.subrange(i - st + 1, t.len() as int) =~= s.subrange(i + 1, s.len() as int));
}

proof fn lemma_lines_last(s: Seq<char>, st: int)
    requires
        0 <= st < s.len(),
        forall|k: int| st <= k < s.len() ==> s[k] != '\n',
    ensures
        lines(s.subrange(st, s.len() as int)) == seq![s.subrange(st, s.len() as int)],
{
    let t = s.subrange(st, s.len() as int);
    let nl: Seq<char> = seq!['\n'];
    assert forall|j: int| 0 <= j < t.len() implies !occurs_at(t, nl, j) by {
        if occurs_at(t, nl, j) {
            assert(t.subrange(j, j + 1)[0] == nl[0]);
        }
    }
    lemma_find_sub_none(t, nl);
}

/// The lines `ls` joined by `'\n'`.
pub open spec fn join_lines(ls: Seq<Seq<char>>) -> Seq<char>
    decreases ls.len(),
{
    if ls.len() == 0 {
        Seq::empty()
    } else if ls.len() == 1 {
        ls[0]
    } else {
        join_lines(ls.drop_last()) + seq!['\n'] + ls.last()
    }
}

/// `l` holds no line break.
pub open spec fn no_newline(l: Seq<char>) -> bool {
    forall|k: int| 0 <= k < l.len() ==> l[k] != '\n'
}

proof fn lemma_no_occurrence_no_newline(s: Seq<char>, end: int)
    requires
        0 <= end <= s.len(),
        forall|j: int| 0 <= j < end ==> !occurs_at(s, seq!['\n'], j),
    ensures
        no_newline(s.subrange(0, end)),
{
    assert forall|k: int| 0 <= k < end implies s.subrange(0, end)[k] != '\n' by {
        if s[k] == '\n' {
            assert(s.subrange(k, k + 1) =~= seq!['\n']);
            assert(occurs_at(s, seq!['\n'], k));
        }
    }
}

/// No line of `s` holds a line break.
pub proof fn lemma_lines_no_newline(s: Seq<char>)
    ensures
        forall|i: int| 0 <= i < lines(s).len() ==> no_newline(#[trigger] lines(s)[i]),
    decreases s.len(),
{
    if s.len() > 0 {
        let nl: Seq<char> = seq!['\n'];
        lemma_find_sub(s, nl);
        match find_sub(s, nl) {
            None => {
                lemma_no_occurrence_no_newline(s, s.len() as int);
                assert(s.subrange(0, s.len() as int) =~= s);
            },
            Some(i) => {
                if 0 <= i < s.len() {
                    lemma_no_occurrence_no_newline(s, i);
                    let rest = s.subrange(i + 1, s.len() as int);
                    lemma_lines_no_newline(rest);
                    let first = strip_cr(s.subrange(0, i));
                    assert(no_newline(first));
                    assert forall|j: int| 0 <= j < lines(s).len() implies no_newline(#[trigger] lines(s)[j]) by {
                        if j > 0 {
                            assert(lines(s)[j] == lines(rest)[j - 1]);
                        }
                    }
                }
            },
        }
    }
}

/// `trim_end(s)` is a prefix of `s` that is empty or ends in a character
/// that is not whitespace; trimming it again changes nothing.
pub proof fn lemma_trim_end_shape(s: Seq<char>)
    ensures
        trim_end(s).len() <= s.len(),
        trim_end(s) == s.subrange(0, trim_end(s).len() as int),
        trim_end(s).len() == 0 || !is_whitespace(trim_end(s).last()),
        trim_end(trim_end(s)) == trim_end(s),
    decreases s.len(),
{
    if s.len() > 0 && is_whitespace(s.last()) {
        lemma_trim_end_shape(s.drop_last());
        assert(s.drop_last().subrange(0, trim_end(s).len() as int) =~= s.subrange(
            0,
            trim_end(s).len() as int,
        ));
    } else {
        assert(s.subrange(0, s.len() as int) =~= s);
    }
}

/// Joining lines by `'\n'`, seen from the front.
pub proof fn lemma_join_lines_front(ls: Seq<Seq<char>>)
    requires
        ls.len() >= 2,
    ensures
        join_lines(ls) == ls[0] + seq!['\n'] + join_lines(ls.drop_first()),
    decreases ls.len(),
{
    if ls.len() == 2 {
        assert(ls.drop_last().len() == 1);
        assert(ls.drop_first().len() == 1);
        assert(join_lines(ls.drop_last()) == ls.drop_last()[0]);
        assert(ls.drop_last()[0] == ls[0]);
        assert(join_lines(ls.drop_first()) == ls.drop_first()[0]);
        assert(ls.drop_first()[0] == ls.last());
        assert(join_lines(ls) == join_lines(ls.drop_last()) + seq!['\n'] + ls.last());
    } else {
        lemma_join_lines_front(ls.drop_last());
        assert(ls.drop_last().drop_first() =~= ls.drop_first().drop_last());
        assert(ls.drop_last()[0] == ls[0]);
        assert(ls.drop_first().last() == ls.last());
        assert(join_lines(ls) == join_lines(ls.drop_last()) + seq!['\n'] + ls.last());
        assert(join_lines(ls.drop_first()) == join_lines(ls.drop_first().drop_last()) + seq!['\n']
            + ls.drop_first().last());
        assert(join_lines(ls) =~= ls[0] + seq!['\n'] + join_lines(ls.drop_first()));
    }
}

/// Lines without breaks, none ending in `'\r'`, the last not empty, come
/// back unchanged from `lines` after being joined by `'\n'`.
pub proof fn lemma_lines_join(ls: Seq<Seq<char>>)
    requires
        forall|i: int| 0 <= i < ls.len() ==> no_newline(#[trigger] ls[i]),
        forall|i: int| 0 <= i < ls.len() ==> (#[trigger] ls[i]).len() == 0 || ls[i].last() != '\r',
        ls.len() == 0 || ls.last().len() > 0,
    ensures
        lines(join_lines(ls)) == ls,
    decreases ls.len(),
{
    let nl: Seq<char> = seq!['\n'];
    if ls.len() == 1 {
        let l = ls[0];
        assert forall|j: int| 0 <= j < l.len() implies !occurs_at(l, nl, j) by {
            if occurs_at(l, nl, j) {
                assert(l.subrange(j, j + 1)[0] == l[j]);
            }
        }
        lemma_find_sub_none(l, nl);
        assert(seq![l] =~= ls);
    } else if ls.len() >= 2 {
        lemma_join_lines_front(ls);
        let l = ls[0];
        let rest = ls.drop_first();
        let s = l + nl + join_lines(rest);
        assert(s.subrange(l.len() as int, l.len() + 1 as int) =~= nl);
        assert forall|j: int| 0 <= j < l.len() implies !occurs_at(s, nl, j) by {
            if occurs_at(s, nl, j) {
                assert(s.subrange(j, j + 1)[0] == s[j]);
            }
        }
        lemma_find_sub_intro(s, nl, l.len() as int);
        assert(s.subrange(0, l.len() as int) =~= l);
        assert(s.subrange(l.len() + 1 as int, s.len() as int) =~= join_lines(rest));
        lemma_lines_join(rest);
        assert(seq![l] + rest =~= ls);
    }
}

/// A line of `v[start..end]`, with the `'\r'` before its `'\n'` dropped.
fn line_string(v: &Vec<char>, start: usize, end: usize) -> (s: String)
    requires
        start <= end <= v@.len(),
    ensures
        s@ == strip_cr(v@.subrange(start as int, end as int)),
{
    if end > start && v[end - 1] == '\r' {
        let s = string_from_chars(v, start, end - 1);
        assert(v@.subrange(start as int, end as int).drop_last() =~= v@.subrange(
            start as int,
            end - 1,
        ));
        s
    } else {
        string_from_chars(v, start, end)
    }
}

/// `str::lines`.
pub fn lines_exec(s: &str) -> (r: Vec<String>)
    ensures
        views(r@) == lines(s@),
{
    let v = chars_of(s);
    let mut r: Vec<String> = Vec::new();
    let mut st: usize = 0;
    let mut i: usize = 0;
    assert(v@.subrange(0, v@.len() as int) =~= v@);
    while i < v.len()
        invariant
            st <= i <= v@.len(),
            v@ == s@,
            lines(v@) == views(r@) + lines(v@.subrange(st as int, v@.len() as int)),
            forall|k: int| st <= k < i ==> v@[k] != '\n',
        decreases v@.len() - i,
    {
        if v[i] == '\n' {
            proof { lemma_lines_step(v@, st as int, i as int); }
            let line = line_string(&v, st, i);
            let ghost old_r = r@;
            r.push(line);
            assert(views(r@) =~= views(old_r) + seq![line@]);
            assert(lines(v@) =~= views(r@) + lines(v@.subrange(i + 1, v@.len() as int)));
            st = i + 1;
        }
        i += 1;
    }
    if st < v.len() {
        proof { lemma_lines_last(v@, st as int); }
        let line = string_from_chars(&v, st, v.len());
        let ghost old_r = r@;
        r.push(line);
        assert(views(r@) =~= views(old_r) + seq![line@]);
    } else {
        assert(v@.subrange(st as int, v@.len() as int) =~= Seq::<char>::empty());
        assert(views(r@) + Seq::<Seq<char>>::empty() =~= views(r@));
    }
    r
}

/// The non-empty lines of `s`, in order.
pub fn nonempty_lines_exec(s: &str) -> (r: Vec<String>)
    ensures
        views(r@) == nonempty_lines(s@),
{
    let all = lines_exec(s);
    let mut r: Vec<String> = Vec::new();
    let mut i: usize = 0;
    let ghost pred = |l: Seq<char>| l.len() > 0;
    while i < all.len()
        invariant
            i <= all@.len(),
            views(all@) == lines(s@),
            pred == (|l: Seq<char>| l.len() > 0),
            views(r@) == views(all@).take(i as int).filter(pred),
        decreases all@.len() - i,
    {
        let ghost old_r = r@;
        let ghost li = views(all@)[i as int];
        assert(li == all@[i as int]@);
        assert(views(all@).take(i + 1) =~= views(all@).take(i as int).push(li));
        proof {
            views(all@).take(i as int).lemma_filter_push(li, pred);
        }
        if !all[i].as_str().is_empty() {
            r.push(all[i].clone());
            assert(views(r@) =~= views(old_r).push(li));
            assert(pred(li));
        } else {
            assert(!pred(li));
        }
        i += 1;
    }
    assert(views(all@).take(all@.len() as int) =~= views(all@));
    r
}

} // verus!

verus! {

/// Unicode `White_Space`, the set `char::is_whitespace` tests.
pub open spec fn is_whitespace(c: char) -> bool {
    ('\t' <= c && c <= '\r') || c == ' ' || c == '\u{85}' || c == '\u{a0}' || c == '\u{1680}'
        || ('\u{2000}' <= c && c <= '\u{200a}') || c == '\u{2028}' || c == '\u{2029}' || c
        == '\u{202f}' || c == '\u{205f}' || c == '\u{3000}'
}

pub fn char_is_whitespace(c: char) -> (b: bool)
    ensures
        b == is_whitespace(c),
{
    ('\t' <= c && c <= '\r') || c == ' ' || c == '\u{85}' || c == '\u{a0}' || c == '\u{1680}'
        || ('\u{2000}' <= c && c <= '\u{200a}') || c == '\u{2028}' || c == '\u{2029}' || c
        == '\u{202f}' || c == '\u{205f}' || c == '\u{3000}'
}

/// `s` without trailing whitespace (`str::trim_end`).
pub open spec fn trim_end(s: Seq<char>) -> Seq<char>
    decreases s.len(),
{
    if s.len() > 0 && is_whitespace(s.last()) {
        trim_end(s.drop_last())
    } else {
        s
    }
}

/// `s` without leading whitespace (`str::trim_start`).
pub open spec fn trim_start(s: Seq<char>) -> Seq<char>
    decreases s.len(),
{
    if s.len() > 0 && is_whitespace(s[0]) {
        trim_start(s.drop_first())
    } else {
        s
    }
}

/// `s` without leading or trailing whitespace (`str::trim`).
pub open spec fn trim(s: Seq<char>) -> Seq<char> {
    trim_start(trim_end(s))
}

/// End index of `trim_end(v[start..end])`.
pub fn trim_end_index(v: &Vec<char>, start: usize, end: usize) -> (e: usize)
    requires
        start <= end <= v@.len(),
    ensures
        start <= e <= end,
        trim_end(v@.subrange(start as int, end as int)) == v@.subrange(start as int, e as int),
{
    let mut e = end;
    while e > start && char_is_whitespace(v[e - 1])
        invariant
            start <= e <= end <= v@.len(),
            trim_end(v@.subrange(start as int, end as int)) == trim_end(
                v@.subrange(start as int, e as int),
            ),
        decreases e,
    {
        assert(v@.subrange(start as int, e as int).drop_last() =~= v@.subrange(
            start as int,
            e - 1,
        ));
        e -= 1;
    }
    e
}

/// Start index of `trim_start(v[start..end])`.
pub fn trim_start_index(v: &Vec<char>, start: usize, end: usize) -> (b: usize)
    requires
        start <= end <= v@.len(),
    ensures
        start <= b <= end,
        trim_start(v@.subrange(start as int, end as int)) == v@.subrange(b as int, end as int),
{
    let mut b = start;
    while b < end && char_is_whitespace(v[b])
        invariant
            start <= b <= end <= v@.len(),
            trim_start(v@.subrange(start as int, end as int)) == trim_start(
                v@.subrange(b as int, end as int),
            ),
        decreases end - b,
    {
        assert(v@.subrange(b as int, end as int).drop_first() =~= v@.subrange(
            b + 1,
            end as int,
        ));
        b += 1;
    }
    b
}

/// `str::trim_end`, owned.
pub fn trim_end_exec(s: &str) -> (r: String)
    ensures
        r@ == trim_end(s@),
{
    let v = chars_of(s);
    assert(v@.subrange(0, v@.len() as int) =~= v@);
    let e = trim_end_index(&v, 0, v.len());
    string_from_chars(&v, 0, e)
}

/// `str::trim`, owned.
pub fn trim_exec(s: &str) -> (r: String)
    ensures
        r@ == trim(s@),
{
    let v = chars_of(s);
    assert(v@.subrange(0, v@.len() as int) =~= v@);
    let e = trim_end_index(&v, 0, v.len());
    let b = trim_start_index(&v, 0, e);
    string_from_chars(&v, b, e)
}

/// `s` split at the first occurrence of `p` (`str::split_once`).
pub open spec fn split_once(s: Seq<char>, p: Seq<char>) -> Option<(Seq<char>, Seq<char>)> {
    match find_sub(s, p) {
        Some(i) => Some((s.subrange(0, i), s.subrange(i + p.len(), s.len() as int))),
        None => None,
    }
}

/// Splitting `a + p + b` at the first `p` gives back `a` and `b` when no
/// occurrence of `p` starts inside `a`.
pub proof fn lemma_split_once_join(a: Seq<char>, p: Seq<char>, b: Seq<char>)
    requires
        forall|j: int| 0 <= j < a.len() ==> !occurs_at(a + p + b, p, j),
    ensures
        split_once(a + p + b, p) == Some((a, b)),
{
    let s = a + p + b;
    assert(s.subrange(a.len() as int, (a.len() + p.len()) as int) =~= p);
    lemma_find_sub_intro(s, p, a.len() as int);
    assert(s.subrange(0, a.len() as int) =~= a);
    assert(s.subrange((a.len() + p.len()) as int, s.len() as int) =~= b);
}

/// `str::split_once`, owned.
pub fn split_once_exec(s: &str, p: &str) -> (r: Option<(String, String)>)
    ensures
        r matches Some((a, b)) ==> split_once(s@, p@) == Some((a@, b@)),
        r is None ==> split_once(s@, p@) is None,
{
    let v = chars_of(s);
    let pv = chars_of(p);
    match find_sub_exec(&v, &pv) {
        Some(i) => {
            proof { lemma_find_sub(v@, pv@); }
            assert(occurs_at(v@, pv@, i as int));
            assert(i + pv.len() <= v.len());
            let a = string_from_chars(&v, 0, i);
            let b = string_from_chars(&v, i + pv.len(), v.len());
            Some((a, b))
        },
        None => None,
    }
}

/// The at most `n` fields of `s` separated by `sep`, the last holding the
/// rest of `s` (`str::splitn`).
pub open spec fn splitn(s: Seq<char>, sep: char, n: nat) -> Seq<Seq<char>>
    decreases n,
{
    if n == 0 {
        Seq::empty()
    } else if n == 1 {
        seq![s]
    } else {
        match find_sub(s, seq![sep]) {
            None => seq![s],
            Some(i) => if 0 <= i < s.len() {
                seq![s.subrange(0, i)] + splitn(s.subrange(i + 1, s.len() as int), sep, (n - 1) as nat)
            } else {
                Seq::empty()
            },
        }
    }
}

/// Splitting `x + [sep] + y` into at most `n >= 2` fields gives `x` first,
/// then the fields of `y`, when `x` holds no `sep`.
pub proof fn lemma_splitn_cons(x: Seq<char>, sep: char, y: Seq<char>, n: nat)
    requires
        n >= 2,
        forall|i: int| 0 <= i < x.len() ==> x[i] != sep,
    ensures
        splitn(x + seq![sep] + y, sep, n) == seq![x] + splitn(y, sep, (n - 1) as nat),
{
    let s = x + seq![sep] + y;
    let p: Seq<char> = seq![sep];
    assert(s.subrange(x.len() as int, x.len() + 1 as int) =~= p);
    assert forall|j: int| 0 <= j < x.len() implies !occurs_at(s, p, j) by {
        if occurs_at(s, p, j) {
            assert(s.subrange(j, j + 1)[0] == s[j]);
        }
    }
    lemma_find_sub_intro(s, p, x.len() as int);
    assert(s.subrange(0, x.len() as int) =~= x);
    assert(s.subrange(x.len() + 1 as int, s.len() as int) =~= y);
}

/// `str::splitn`, owned.
pub fn splitn_exec(s: &str, sep: char, n: usize) -> (r: Vec<String>)
    ensures
        views(r@) == splitn(s@, sep, n as nat),
{
    let v = chars_of(s);
    let mut r: Vec<String> = Vec::new();
    if n == 0 {
        assert(views(r@) =~= Seq::<Seq<char>>::empty());
        return r;
    }
    let sv: Vec<char> = vec![sep];
    assert(sv@ =~= seq![sep]);
    let mut st: usize = 0;
    let mut k: usize = n;
    assert(v@.subrange(0, v@.len() as int) =~= v@);
    loop
        invariant
            1 <= k <= n,
            st <= v@.len(),
            v@ == s@,
            sv@ == seq![sep],
            splitn(s@, sep, n as nat) == views(r@) + splitn(
                v@.subrange(st as int, v@.len() as int),
                sep,
                k as nat,
            ),
        decreases k,
    {
        let rest = string_from_chars(&v, st, v.len());
        let ghost t = v@.subrange(st as int, v@.len() as int);
        if k == 1 {
            let ghost old_r = r@;
            r.push(rest);
            assert(views(r@) =~= views(old_r) + seq![t]);
            return r;
        }
        let restv = chars_of(rest.as_str());
        match find_sub_exec(&restv, &sv) {
            None => {
                let ghost old_r = r@;
                r.push(rest);
                assert(views(r@) =~= views(old_r) + seq![t]);
                return r;
            },
            Some(i) => {
                proof { lemma_find_sub(t, seq![sep]); }
                let field = string_from_chars(&restv, 0, i);
                let ghost old_r = r@;
                r.push(field);
                assert(views(r@) =~= views(old_r) + seq![t.subrange(0, i as int)]);
                assert(t.subrange(i + 1, t.len() as int) =~= v@.subrange(
                    st + i + 1,
                    v@.len() as int,
                ));
                st = st + i + 1;
                k = k - 1;
                assert(splitn(s@, sep, n as nat) =~= views(r@) + splitn(
                    v@.subrange(st as int, v@.len() as int),
                    sep,
                    k as nat,
                ));
            },
        }
    }
}

} // verus!

verus! {

/// Why a decimal integer could not be read (the kinds of `core::num::IntErrorKind`).
#[derive(Debug, Clone, Copy, PartialEq, Eq)]
pub enum IntErrorKind {
    Empty,
    InvalidDigit,
    PosOverflow,
    NegOverflow,
}

pub open spec fn digit_value(c: char) -> nat {
    (c as int - '0' as int) as nat
}

/// Reads the decimal digits `d` onto `acc`, failing at the first non-digit or
/// at the first digit that takes the value past `max`.
pub open spec fn scan_digits(d: Seq<char>, acc: nat, max: nat, overflow: IntErrorKind) -> Result<
    nat,
    IntErrorKind,
>
    decreases d.len(),
{
    if d.len() == 0 {
        Ok(acc)
    } else if !is_digit(d[0]) {
        Err(IntErrorKind::InvalidDigit)
    } else if acc * 10 + digit_value(d[0]) > max {
        Err(overflow)
    } else {
        scan_digits(d.drop_first(), acc * 10 + digit_value(d[0]), max, overflow)
    }
}

/// How `str::parse` reads an unsigned integer no larger than `max`:
/// an optional `'+'`, then one or more decimal digits.
pub open spec fn parse_unsigned(s: Seq<char>, max: nat) -> Result<nat, IntErrorKind> {
    if s.len() == 0 {
        Err(IntErrorKind::Empty)
    } else if s.len() == 1 && (s[0] == '+' || s[0] == '-') {
        Err(IntErrorKind::InvalidDigit)
    } else if s[0] == '+' {
        scan_digits(s.drop_first(), 0, max, IntErrorKind::PosOverflow)
    } else {
        scan_digits(s, 0, max, IntErrorKind::PosOverflow)
    }
}

/// How `str::parse` reads an `i64`: an optional sign, then decimal digits.
pub open spec fn parse_i64_spec(s: Seq<char>) -> Result<int, IntErrorKind> {
    if s.len() == 0 {
        Err(IntErrorKind::Empty)
    } else if s.len() == 1 && (s[0] == '+' || s[0] == '-') {
        Err(IntErrorKind::InvalidDigit)
    } else if s[0] == '-' {
        match scan_digits(s.drop_first(), 0, 0x8000_0000_0000_0000, IntErrorKind::NegOverflow) {
            Ok(v) => Ok(-v),
            Err(e) => Err(e),
        }
    } else if s[0] == '+' {
        match scan_digits(s.drop_first(), 0, 0x7fff_ffff_ffff_ffff, IntErrorKind::PosOverflow) {
            Ok(v) => Ok(v as int),
            Err(e) => Err(e),
        }
    } else {
        match scan_digits(s, 0, 0x7fff_ffff_ffff_ffff, IntErrorKind::PosOverflow) {
            Ok(v) => Ok(v as int),
            Err(e) => Err(e),
        }
    }
}

/// A successful scan never exceeds its bound.
pub proof fn lemma_scan_digits_bound(d: Seq<char>, acc: nat, max: nat, overflow: IntErrorKind)
    requires
        acc <= max,
    ensures
        scan_digits(d, acc, max, overflow) matches Ok(n) ==> n <= max,
    decreases d.len(),
{
    if d.len() > 0 && is_digit(d[0]) && acc * 10 + digit_value(d[0]) <= max {
        lemma_scan_digits_bound(d.drop_first(), acc * 10 + digit_value(d[0]), max, overflow);
    }
}

/// A successful `parse_unsigned` never exceeds its bound.
pub proof fn lemma_parse_unsigned_bound(s: Seq<char>, max: nat)
    ensures
        parse_unsigned(s, max) matches Ok(n) ==> n <= max,
{
    if s.len() > 0 {
        lemma_scan_digits_bound(s.drop_first(), 0, max, IntErrorKind::PosOverflow);
        lemma_scan_digits_bound(s, 0, max, IntErrorKind::PosOverflow);
    }
}

fn scan_digits_exec(v: &Vec<char>, start: usize, max: u64, overflow: IntErrorKind) -> (r: Result<
    u64,
    IntErrorKind,
>)
    requires
        start <= v@.len(),
    ensures
        match scan_digits(v@.subrange(start as int, v@.len() as int), 0, max as nat, overflow) {
            Ok(n) => r == Ok::<u64, IntErrorKind>(n as u64),
            Err(e) => r == Err::<u64, IntErrorKind>(e),
        },
        r matches Ok(n) ==> n <= max,
{
    let mut acc: u64 = 0;
    let mut i = start;
    while i < v.len()
        invariant
            start <= i <= v@.len(),
            acc <= max,
            scan_digits(v@.subrange(start as int, v@.len() as int), 0, max as nat, overflow)
                == scan_digits(v@.subrange(i as int, v@.len() as int), acc as nat, max as nat, overflow),
        decreases v@.len() - i,
    {
        let ghost t = v@.subrange(i as int, v@.len() as int);
        assert(t[0] == v@[i as int]);
        let c = v[i];
        if !char_is_digit(c) {
            return Err(overflow_or_invalid(false, overflow));
        }
        let d = (c as u32 - '0' as u32) as u64;
        assert(d == digit_value(c));
        if d > max || acc > (max - d) / 10 {
            assert(acc * 10 + d > max) by (nonlinear_arith)
                requires d > max || acc > (max - d) / 10, d <= 9;
            return Err(overflow);
        }
        assert(acc * 10 + d <= max) by (nonlinear_arith)
            requires acc <= (max - d) / 10, d <= 9;
        acc = acc * 10 + d;
        assert(t.drop_first() =~= v@.subrange(i + 1, v@.len() as int));
        i += 1;
    }
    assert(v@.subrange(i as int, v@.len() as int).len() == 0);
    Ok(acc)
}

fn overflow_or_invalid(overflowed: bool, overflow: IntErrorKind) -> (k: IntErrorKind)
    ensures
        k == (if overflowed { overflow } else { IntErrorKind::InvalidDigit }),
{
    if overflowed {
        overflow
    } else {
        IntErrorKind::InvalidDigit
    }
}

/// `str::parse::<u32>()`.
pub fn parse_u32(s: &str) -> (r: Result<u32, IntErrorKind>)
    ensures
        match parse_unsigned(s@, u32::MAX as nat) {
            Ok(n) => r == Ok::<u32, IntErrorKind>(n as u32),
            Err(e) => r == Err::<u32, IntErrorKind>(e),
        },
{
    proof { lemma_parse_unsigned_bound(s@, u32::MAX as nat); }
    match parse_unsigned_exec(s, u32::MAX as u64) {
        Ok(n) => Ok(n as u32),
        Err(e) => Err(e),
    }
}

/// `str::parse::<u64>()`.
pub fn parse_u64(s: &str) -> (r: Result<u64, IntErrorKind>)
    ensures
        match parse_unsigned(s@, u64::MAX as nat) {
            Ok(n) => r == Ok::<u64, IntErrorKind>(n as u64),
            Err(e) => r == Err::<u64, IntErrorKind>(e),
        },
{
    parse_unsigned_exec(s, u64::MAX)
}

/// `str::parse::<usize>()`.
pub fn parse_usize(s: &str) -> (r: Result<usize, IntErrorKind>)
    ensures
        match parse_unsigned(s@, usize::MAX as nat) {
            Ok(n) => r == Ok::<usize, IntErrorKind>(n as usize),
            Err(e) => r == Err::<usize, IntErrorKind>(e),
        },
{
    proof { lemma_parse_unsigned_bound(s@, usize::MAX as nat); }
    match parse_unsigned_exec(s, usize::MAX as u64) {
        Ok(n) => Ok(n as usize),
        Err(e) => Err(e),
    }
}

fn parse_unsigned_exec(s: &str, max: u64) -> (r: Result<u64, IntErrorKind>)
    ensures
        match parse_unsigned(s@, max as nat) {
            Ok(n) => r == Ok::<u64, IntErrorKind>(n as u64),
            Err(e) => r == Err::<u64, IntErrorKind>(e),
        },
        r matches Ok(n) ==> n <= max,
{
    let v = chars_of(s);
    if v.len() == 0 {
        return Err(IntErrorKind::Empty);
    }
    if v.len() == 1 && (v[0] == '+' || v[0] == '-') {
        return Err(IntErrorKind::InvalidDigit);
    }
    if v[0] == '+' {
        assert(v@.subrange(1, v@.len() as int) =~= v@.drop_first());
        scan_digits_exec(&v, 1, max, IntErrorKind::PosOverflow)
    } else {
        assert(v@.subrange(0, v@.len() as int) =~= v@);
        scan_digits_exec(&v, 0, max, IntErrorKind::PosOverflow)
    }
}

/// `str::parse::<i64>()`.
pub fn parse_i64(s: &str) -> (r: Result<i64, IntErrorKind>)
    ensures
        match parse_i64_spec(s@) {
            Ok(n) => r == Ok::<i64, IntErrorKind>(n as i64),
            Err(e) => r == Err::<i64, IntErrorKind>(e),
        },
{
    let v = chars_of(s);
    if v.len() == 0 {
        return Err(IntErrorKind::Empty);
    }
    if v.len() == 1 && (v[0] == '+' || v[0] == '-') {
        return Err(IntErrorKind::InvalidDigit);
    }
    proof {
        lemma_scan_digits_bound(v@.drop_first(), 0, 0x8000_0000_0000_0000, IntErrorKind::NegOverflow);
        lemma_scan_digits_bound(v@.drop_first(), 0, 0x7fff_ffff_ffff_ffff, IntErrorKind::PosOverflow);
        lemma_scan_digits_bound(v@, 0, 0x7fff_ffff_ffff_ffff, IntErrorKind::PosOverflow);
    }
    if v[0] == '-' {
        assert(v@.subrange(1, v@.len() as int) =~= v@.drop_first());
        match scan_digits_exec(&v, 1, 0x8000_0000_0000_0000u64, IntErrorKind::NegOverflow) {
            Ok(n) => {
                if n == 0x8000_0000_0000_0000u64 {
                    Ok(i64::MIN)
                } else {
                    Ok(-(n as i64))
                }
            },
            Err(e) => Err(e),
        }
    } else if v[0] == '+' {
        assert(v@.subrange(1, v@.len() as int) =~= v@.drop_first());
        match scan_digits_exec(&v, 1, 0x7fff_ffff_ffff_ffffu64, IntErrorKind::PosOverflow) {
            Ok(n) => Ok(n as i64),
            Err(e) => Err(e),
        }
    } else {
        assert(v@.subrange(0, v@.len() as int) =~= v@);
        match scan_digits_exec(&v, 0, 0x7fff_ffff_ffff_ffffu64, IntErrorKind::PosOverflow) {
            Ok(n) => Ok(n as i64),
            Err(e) => Err(e),
        }
    }
}

} // verus!

verus! {

pub open spec fn digit_char(d: nat) -> char {
    ('0' as nat + d) as char
}

/// Decimal digits of `n`, most significant first, without leading zeros.
pub open spec fn dec(n: nat) -> Seq<char>
    decreases n,
{
    if n < 10 {
        seq![digit_char(n)]
    } else {
        dec(n / 10).push(digit_char(n % 10))
    }
}

/// Decimal text of a signed integer: `'-'` before the digits of a negative one.
pub open spec fn dec_int(i: int) -> Seq<char> {
    if i < 0 {
        seq!['-'] + dec((-i) as nat)
    } else {
        dec(i as nat)
    }
}

/// Appends the decimal digits of `n`.
pub fn push_decimal(s: &mut String, n: u64)
    ensures
        final(s)@ == old(s)@ + dec(n as nat),
    decreases n,
{
    if n >= 10 {
        push_decimal(s, n / 10);
    }
    let d = (n % 10) as u32;
    let c = char_from_digit(d);
    push_char(s, c);
    assert(final(s)@ =~= old(s)@ + dec(n as nat));
}

fn char_from_digit(d: u32) -> (c: char)
    requires
        d < 10,
    ensures
        c == digit_char(d as nat),
{
    if d == 0 { '0' }
    else if d == 1 { '1' }
    else if d == 2 { '2' }
    else if d == 3 { '3' }
    else if d == 4 { '4' }
    else if d == 5 { '5' }
    else if d == 6 { '6' }
    else if d == 7 { '7' }
    else if d == 8 { '8' }
    else { '9' }
}

/// Decimal text of an unsigned integer (`u64::to_string`).
pub fn u64_to_string(n: u64) -> (s: String)
    ensures
        s@ == dec(n as nat),
{
    let mut s = String::new();
    push_decimal(&mut s, n);
    assert(s@ =~= dec(n as nat));
    s
}

/// Decimal text of a signed integer (`i64::to_string`).
pub fn i64_to_string(n: i64) -> (s: String)
    ensures
        s@ == dec_int(n as int),
{
    let mut s = String::new();
    if n < 0 {
        push_char(&mut s, '-');
        let m: u64 = if n == i64::MIN { 0x8000_0000_0000_0000u64 } else { (-n) as u64 };
        push_decimal(&mut s, m);
    } else {
        push_decimal(&mut s, n as u64);
    }
    assert(s@ =~= dec_int(n as int));
    s
}

/// The text `core::num::ParseIntError` displays for each kind.
pub open spec fn int_error_message(k: IntErrorKind) -> Seq<char> {
    match k {
        IntErrorKind::Empty => "cannot parse integer from empty string"@,
        IntErrorKind::InvalidDigit => "invalid digit found in string"@,
        IntErrorKind::PosOverflow => "number too large to fit in target type"@,
        IntErrorKind::NegOverflow => "number too small to fit in target type"@,
    }
}

impl IntErrorKind {
    /// The message of this kind of parse failure.
    pub fn message(&self) -> (s: String)
        ensures
            s@ == int_error_message(*self),
    {
        match self {
            IntErrorKind::Empty => owned("cannot parse integer from empty string"),
            IntErrorKind::InvalidDigit => owned("invalid digit found in string"),
            IntErrorKind::PosOverflow => owned("number too large to fit in target type"),
            IntErrorKind::NegOverflow => owned("number too small to fit in target type"),
        }
    }
}

} // verus!

verus! {

/// Applies `f` to each line in order: every result when all succeed, the first
/// error otherwise (`Iterator::collect` into a `Result`).
pub open spec fn collect_results<V, E>(
    lines: Seq<Seq<char>>,
    f: spec_fn(Seq<char>) -> Result<V, E>,
) -> Result<Seq<V>, E>
    decreases lines.len(),
{
    if lines.len() == 0 {
        Ok(Seq::empty())
    } else {
        match f(lines[0]) {
            Err(e) => Err(e),
            Ok(v) => match collect_results(lines.drop_first(), f) {
                Ok(vs) => Ok(seq![v] + vs),
                Err(e) => Err(e),
            },
        }
    }
}

/// `prefix` followed by the successful values of `r`.
pub open spec fn prepend_ok<V, E>(prefix: Seq<V>, r: Result<Seq<V>, E>) -> Result<Seq<V>, E> {
    match r {
        Ok(vs) => Ok(prefix + vs),
        Err(e) => Err(e),
    }
}

/// One step of collecting line by line.
pub proof fn lemma_collect_step<V, E>(
    lines: Seq<Seq<char>>,
    f: spec_fn(Seq<char>) -> Result<V, E>,
    prefix: Seq<V>,
    i: int,
)
    requires
        0 <= i < lines.len(),
    ensures
        f(lines[i]) matches Ok(v) ==> prepend_ok(prefix, collect_results(lines.skip(i), f))
            == prepend_ok(prefix.push(v), collect_results(lines.skip(i + 1), f)),
        f(lines[i]) matches Err(e) ==> collect_results(lines.skip(i), f) == Err::<Seq<V>, E>(e),
{
    assert(lines.skip(i).drop_first() =~= lines.skip(i + 1));
    assert(lines.skip(i)[0] == lines[i]);
    if let Ok(v) = f(lines[i]) {
        match collect_results(lines.skip(i + 1), f) {
            Ok(vs) => {
                assert(prefix + (seq![v] + vs) =~= prefix.push(v) + vs);
            },
            Err(e) => {},
        }
    }
}

/// Collecting from the end of the lines adds nothing.
pub proof fn lemma_collect_done<V, E>(
    lines: Seq<Seq<char>>,
    f: spec_fn(Seq<char>) -> Result<V, E>,
    prefix: Seq<V>,
)
    ensures
        prepend_ok(prefix, collect_results(lines.skip(lines.len() as int), f)) == Ok::<
            Seq<V>,
            E,
        >(prefix),
        collect_results(lines, f) == prepend_ok(Seq::<V>::empty(), collect_results(lines.skip(0), f)),
{
    assert(lines.skip(lines.len() as int) =~= Seq::<Seq<char>>::empty());
    assert(prefix + Seq::<V>::empty() =~= prefix);
    assert(lines.skip(0) =~= lines);
    match collect_results(lines, f) {
        Ok(vs) => { assert(Seq::<V>::empty() + vs =~= vs); },
        Err(e) => {},
    }
}

} // verus!

verus! {

/// Equality of two texts.
pub fn str_eq(a: &str, b: &str) -> (r: bool)
    ensures
        r == (a@ == b@),
{
    let va = chars_of(a);
    let vb = chars_of(b);
    if va.len() != vb.len() {
        return false;
    }
    let mut i: usize = 0;
    while i < va.len()
        invariant
            i <= va@.len(),
            va@.len() == vb@.len(),
            va@ == a@,
            vb@ == b@,
            forall|j: int| 0 <= j < i ==> va@[j] == vb@[j],
        decreases va@.len() - i,
    {
        if va[i] != vb[i] {
            assert(va@[i as int] != vb@[i as int]);
            return false;
        }
        i += 1;
    }
    assert(va@ =~= vb@);
    true
}

/// Collecting parse results line by line, stated plainly: it succeeds
/// exactly when every line parses, giving one value per line in order;
/// otherwise it gives the error of the first line that does not parse.
pub proof fn lemma_collect_results<V, E>(lines: Seq<Seq<char>>, f: spec_fn(Seq<char>) -> Result<V, E>)
    ensures
        collect_results(lines, f) is Ok <==> forall|i: int| 0 <= i < lines.len() ==> (#[trigger] f(lines[i])) is Ok,
        collect_results(lines, f) matches Ok(vs) ==> vs.len() == lines.len() && forall|i: int|
            0 <= i < lines.len() ==> f(lines[i]) == Ok::<V, E>(#[trigger] vs[i]),
        collect_results(lines, f) matches Err(e) ==> exists|i: int|
            0 <= i < lines.len() && f(lines[i]) == Err::<V, E>(e) && forall|j: int|
                0 <= j < i ==> (#[trigger] f(lines[j])) is Ok,
    decreases lines.len(),
{
    if lines.len() > 0 {
        let rest = lines.drop_first();
        lemma_collect_results(rest, f);
        assert forall|i: int| 0 < i < lines.len() implies lines[i] == rest[i - 1] by {}
        match f(lines[0]) {
            Err(e) => {
                assert(f(lines[0]) == Err::<V, E>(e));
            },
            Ok(v) => {
                match collect_results(rest, f) {
                    Ok(vs) => {
                        let all = seq![v] + vs;
                        assert forall|i: int| 0 <= i < lines.len() implies f(lines[i]) == Ok::<V, E>(
                            #[trigger] all[i],
                        ) by {
                            if i > 0 {
                                assert(all[i] == vs[i - 1]);
                            }
                        }
                        assert forall|i: int| 0 <= i < lines.len() implies (#[trigger] f(lines[i])) is Ok by {
                            if i > 0 {
                                assert(f(rest[i - 1]) is Ok);
                            }
                        }
                    },
                    Err(e) => {
                        let k = choose|k: int|
                            0 <= k < rest.len() && f(rest[k]) == Err::<V, E>(e) && forall|j: int|
                                0 <= j < k ==> (#[trigger] f(rest[j])) is Ok;
                        assert(f(lines[k + 1]) == Err::<V, E>(e));
                        assert forall|j: int| 0 <= j < k + 1 implies (#[trigger] f(lines[j])) is Ok by {
                            if j > 0 {
                                assert(f(rest[j - 1]) is Ok);
                            }
                        }
                        assert(!(f(lines[k + 1]) is Ok));
                    },
                }
            },
        }
    }
}

} // verus!
