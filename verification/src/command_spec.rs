//! A pure description of a tmux invocation: its argument list.

use vstd::prelude::*;

use crate::text::owned;

verus! {

/// A pure specification of a tmux command, decoupled from execution.
///
/// This type is the output of `build_*_command` functions and the input
/// to the executor, enabling command construction to be tested without
/// actually running tmux.
#[derive(Debug, Clone, PartialEq, Eq)]
pub struct TmuxCommandSpec {
    args: Vec<String>,
}

/// The views of a sequence of string slices.
pub open spec fn str_views(v: Seq<&str>) -> Seq<Seq<char>> {
    v.map_values(|x: &str| x@)
}

/// The views of a sequence of strings.
pub open spec fn string_views(v: Seq<String>) -> Seq<Seq<char>> {
    v.map_values(|x: String| x@)
}

impl View for TmuxCommandSpec {
    type V = Seq<Seq<char>>;

    closed spec fn view(&self) -> Seq<Seq<char>> {
        string_views(self.args@)
    }
}

impl TmuxCommandSpec {
    pub fn new(args: Vec<String>) -> (s: TmuxCommandSpec)
        ensures
            s@ == string_views(args@),
    {
        TmuxCommandSpec { args }
    }

    /// Returns the command arguments as string slices for passing to an executor.
    pub fn args(&self) -> (r: Vec<&str>)
        ensures
            str_views(r@) == self@,
    {
        let mut r: Vec<&str> = Vec::new();
        let mut i: usize = 0;
        while i < self.args.len()
            invariant
                i <= self.args@.len(),
                str_views(r@) == string_views(self.args@).take(i as int),
            decreases self.args@.len() - i,
        {
            let ghost old_r = r@;
            let a = self.args[i].as_str();
            r.push(a);
            assert(str_views(r@) =~= str_views(old_r).push(a@));
            assert(string_views(self.args@).take(i + 1) =~= string_views(self.args@).take(
                i as int,
            ).push(self.args@[i as int]@));
            i += 1;
        }
        assert(string_views(self.args@).take(i as int) =~= string_views(self.args@));
        r
    }

    /// Returns the tmux sub-command name (first argument), if any.
    pub fn command_name(&self) -> (r: &str)
        ensures
            r@ == (if self@.len() > 0 { self@[0] } else { ""@ }),
    {
        if self.args.len() > 0 {
            self.args[0].as_str()
        } else {
            ""
        }
    }
}

/// An argument list built from literal words and values.
pub struct ArgList {
    pub args: Vec<String>,
}

impl ArgList {
    pub fn new() -> (a: ArgList)
        ensures
            string_views(a.args@) == Seq::<Seq<char>>::empty(),
    {
        let a = ArgList { args: Vec::new() };
        assert(string_views(a.args@) =~= Seq::<Seq<char>>::empty());
        a
    }

    /// Appends one argument.
    pub fn push(&mut self, s: &str)
        ensures
            string_views(final(self).args@) == string_views(old(self).args@).push(s@),
    {
        self.args.push(owned(s));
        assert(string_views(self.args@) =~= string_views(old(self).args@).push(s@));
    }

    pub fn build(self) -> (c: TmuxCommandSpec)
        ensures
            c@ == string_views(self.args@),
    {
        TmuxCommandSpec::new(self.args)
    }
}

} // verus!
