//! The tmux server message log.

use vstd::prelude::*;

use crate::command_spec::{ArgList, TmuxCommandSpec};
use crate::error::{result_view, TmuxError, TmuxErrorView};
use crate::executor::{failure, TmuxOutput};
use crate::text::{
    collect_results, concat, contains, lemma_collect_done, lemma_find_sub, lemma_split_once_join,
    occurs_at, lemma_collect_step, nonempty_lines,
    nonempty_lines_exec, owned, prepend_ok, split_once, split_once_exec, views,
};

verus! {

#[derive(Debug, Clone, PartialEq, Eq)]
pub struct TmuxMessage {
    pub time: String,
    pub message: String,
}

impl View for TmuxMessage {
    type V = (Seq<char>, Seq<char>);

    open spec fn view(&self) -> (Seq<char>, Seq<char>) {
        (self.time@, self.message@)
    }
}

impl TmuxMessage {
    /// "{time}: {message}".
    pub fn to_string(&self) -> (s: String)
        ensures
            s@ == self.time@ + ": "@ + self.message@,
    {
        let a = concat(self.time.as_str(), ": ");
        concat(a.as_str(), self.message.as_str())
    }
}

/// `show-messages`.
pub fn build_show_messages_command() -> (c: TmuxCommandSpec)
    ensures
        c@ == seq!["show-messages"@],
{
    let mut a = ArgList::new();
    a.push("show-messages");
    a.build()
}

/// What `parse_message_line` gives: the line split at its first `": "`.
pub open spec fn message_line(line: Seq<char>) -> Result<(Seq<char>, Seq<char>), TmuxErrorView> {
    match split_once(line, ": "@) {
        Some((t, m)) => Ok((t, m)),
        None => Err(
            TmuxErrorView::ParseError {
                command: "show-messages"@,
                details: "expected 'time: message' format, got: "@ + line,
            },
        ),
    }
}

/// Parse one `HH:MM: message` line of the message log.
pub fn parse_message_line(line: &str) -> (r: Result<TmuxMessage, TmuxError>)
    ensures
        result_view(r, |m: TmuxMessage| m@) == message_line(line@),
{
    match split_once_exec(line, ": ") {
        Some((time, message)) => Ok(TmuxMessage { time, message }),
        None => Err(
            TmuxError::ParseError {
                command: owned("show-messages"),
                details: concat("expected 'time: message' format, got: ", line),
            },
        ),
    }
}

/// Parse the message log: one message per non-empty line.
pub fn parse_messages_output(stdout: &str) -> (r: Result<Vec<TmuxMessage>, TmuxError>)
    ensures
        result_view(r, |v: Vec<TmuxMessage>| v@.map_values(|m: TmuxMessage| m@)) == collect_results(
            nonempty_lines(stdout@),
            |l: Seq<char>| message_line(l),
        ),
{
    let lines = nonempty_lines_exec(stdout);
    let ghost ls = views(lines@);
    let ghost f = |l: Seq<char>| message_line(l);
    let mut out: Vec<TmuxMessage> = Vec::new();
    let mut i: usize = 0;
    proof { lemma_collect_done(ls, f, Seq::empty()); }
    assert(out@.map_values(|m: TmuxMessage| m@) =~= Seq::<(Seq<char>, Seq<char>)>::empty());
    while i < lines.len()
        invariant
            i <= lines@.len(),
            ls == views(lines@),
            ls == nonempty_lines(stdout@),
            f == (|l: Seq<char>| message_line(l)),
            collect_results(ls, f) == prepend_ok(
                out@.map_values(|m: TmuxMessage| m@),
                collect_results(ls.skip(i as int), f),
            ),
        decreases lines@.len() - i,
    {
        proof { lemma_collect_step(ls, f, out@.map_values(|m: TmuxMessage| m@), i as int); }
        assert(ls[i as int] == lines@[i as int]@);
        let m = parse_message_line(lines[i].as_str())?;
        let ghost old_out = out@;
        out.push(m);
        assert(out@.map_values(|m: TmuxMessage| m@) =~= old_out.map_values(|m: TmuxMessage| m@).push(m@));
        i += 1;
    }
    proof { lemma_collect_done(ls, f, out@.map_values(|m: TmuxMessage| m@)); }
    Ok(out)
}

/// Interpret the output of `show-messages`.
pub fn interpret_show_messages(output: &TmuxOutput) -> (r: Result<Vec<TmuxMessage>, TmuxError>)
    ensures
        result_view(r, |v: Vec<TmuxMessage>| v@.map_values(|m: TmuxMessage| m@)) == if output.success {
            collect_results(nonempty_lines(output.stdout@), |l: Seq<char>| message_line(l))
        } else {
            Err(failure(*output, "show-messages"@, ""@))
        },
{
    output.check("show-messages", "")?;
    parse_messages_output(output.stdout.as_str())
}

/// A message printed by `TmuxMessage::to_string` reads back as itself with
/// `parse_message_line`, when its time holds no `": "` (as `HH:MM` does not).
pub proof fn law_message_round_trip(time: Seq<char>, message: Seq<char>)
    requires
        !contains(time, ": "@),
    ensures
        message_line(time + ": "@ + message) == Ok::<(Seq<char>, Seq<char>), TmuxErrorView>((time, message)),
{
    reveal_strlit(": ");
    let sep: Seq<char> = ": "@;
    assert(sep =~= seq![':', ' ']);
    let line = time + sep + message;
    lemma_find_sub(time, sep);
    assert forall|j: int| 0 <= j < time.len() implies !occurs_at(line, sep, j) by {
        if occurs_at(line, sep, j) {
            assert(line.subrange(j, j + 2)[1] == line[j + 1]);
            assert(line.subrange(j, j + 2)[0] == line[j]);
            if j + 2 <= time.len() {
                assert(time.subrange(j, j + 2) =~= line.subrange(j, j + 2));
                assert(occurs_at(time, sep, j));
            } else {
                assert(line[j + 1] == ':');
            }
        }
    }
    lemma_split_once_join(time, sep, message);
}

} // verus!
