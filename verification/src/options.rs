//! tmux options: scopes, values, and the parsing of `show-options` output.

use vstd::prelude::*;

use crate::command_spec::{string_views, ArgList, TmuxCommandSpec};
use crate::error::TmuxError;
use crate::executor::{failure, TmuxOutput};
use crate::text::{
    lemma_split_once_join, nonempty_lines, nonempty_lines_exec, occurs_at, owned, split_once,
    split_once_exec, trim, trim_exec, views,
};
use crate::validation::{
    both, check_option_name, check_option_scope_target, validate_option_name,
    validate_option_scope_target, ValidationError, ValidationErrorView,
};


verus! {

/// Where an option applies.
#[derive(Debug, Clone, Copy, PartialEq, Eq)]
pub enum OptionScope {
    Global,
    Session,
    Window,
}

impl OptionScope {
    pub open spec fn flag(&self) -> Seq<char> {
        match self {
            OptionScope::Global => "-g"@,
            OptionScope::Session => "-s"@,
            OptionScope::Window => "-w"@,
        }
    }

    /// The `show-options`/`set-option` flag for this scope.
    pub fn as_flag(&self) -> (f: &'static str)
        ensures
            f@ == self.flag(),
    {
        match self {
            OptionScope::Global => "-g",
            OptionScope::Session => "-s",
            OptionScope::Window => "-w",
        }
    }
}

} // verus!

verus! {

/// A tmux option.
#[derive(Debug, Clone, PartialEq, Eq)]
pub struct TmuxOption {
    pub name: String,
    pub value: String,
    pub scope: OptionScope,
}

impl View for TmuxOption {
    type V = (Seq<char>, Seq<char>, OptionScope);

    open spec fn view(&self) -> (Seq<char>, Seq<char>, OptionScope) {
        (self.name@, self.value@, self.scope)
    }
}

impl OptionScope {
    pub open spec fn label(&self) -> Seq<char> {
        match self {
            OptionScope::Global => "global"@,
            OptionScope::Session => "session"@,
            OptionScope::Window => "window"@,
        }
    }

    /// "global", "session" or "window".
    pub fn to_string(&self) -> (s: String)
        ensures
            s@ == self.label(),
    {
        match self {
            OptionScope::Global => owned("global"),
            OptionScope::Session => owned("session"),
            OptionScope::Window => owned("window"),
        }
    }
}

/// `-t TARGET` when a target is given.
pub open spec fn target_flag(target: Option<&str>) -> Seq<Seq<char>> {
    match target {
        Some(t) => seq!["-t"@, t@],
        None => Seq::empty(),
    }
}

/// The checks an option command makes: the option name (when one is given),
/// then the target against the scope (when a target is given).
pub open spec fn option_checks(name: Option<Seq<char>>, scope: OptionScope, target: Option<&str>) -> Result<
    (),
    ValidationErrorView,
> {
    both(
        match name {
            Some(n) => check_option_name(n),
            None => Ok(()),
        },
        match target {
            Some(t) => check_option_scope_target(scope, t@),
            None => Ok(()),
        },
    )
}

fn option_command(sub: &str, scope: OptionScope, target: Option<&str>) -> (a: ArgList)
    ensures
        string_views(a.args@) == seq![sub@, scope.flag()] + target_flag(target),
{
    let mut a = ArgList::new();
    a.push(sub);
    a.push(scope.as_flag());
    if let Some(t) = target {
        a.push("-t");
        a.push(t);
    }
    assert(string_views(a.args@) =~= seq![sub@, scope.flag()] + target_flag(target));
    a
}

fn check_target_for_scope(scope: OptionScope, target: Option<&str>) -> (r: Result<(), ValidationError>)
    ensures
        r is Ok <==> (match target {
            Some(t) => check_option_scope_target(scope, t@),
            None => Ok(()),
        }) is Ok,
        r matches Err(x) ==> (match target {
            Some(t) => check_option_scope_target(scope, t@),
            None => Ok(()),
        }) == Err::<(), ValidationErrorView>(x@),
{
    match target {
        Some(t) => validate_option_scope_target(scope, t),
        None => Ok(()),
    }
}

/// `show-options SCOPE [-t TARGET] NAME`, once the name and target are valid.
pub fn plan_get_option(name: &str, scope: OptionScope, target: Option<&str>) -> (r: Result<
    TmuxCommandSpec,
    ValidationError,
>)
    ensures
        r is Ok <==> option_checks(Some(name@), scope, target) is Ok,
        r matches Err(x) ==> option_checks(Some(name@), scope, target) == Err::<(), ValidationErrorView>(x@),
        r matches Ok(c) ==> c@ == seq!["show-options"@, scope.flag()] + target_flag(target) + seq![name@],
{
    if let Err(e) = validate_option_name(name) {
        return Err(e);
    }
    if let Err(e) = check_target_for_scope(scope, target) {
        return Err(e);
    }
    let mut a = option_command("show-options", scope, target);
    a.push(name);
    Ok(a.build())
}

/// `set-option SCOPE [-t TARGET] NAME VALUE`, once the name and target are valid.
pub fn plan_set_option(name: &str, value: &str, scope: OptionScope, target: Option<&str>) -> (r: Result<
    TmuxCommandSpec,
    ValidationError,
>)
    ensures
        r is Ok <==> option_checks(Some(name@), scope, target) is Ok,
        r matches Err(x) ==> option_checks(Some(name@), scope, target) == Err::<(), ValidationErrorView>(x@),
        r matches Ok(c) ==> c@ == seq!["set-option"@, scope.flag()] + target_flag(target) + seq![
            name@,
            value@,
        ],
{
    if let Err(e) = validate_option_name(name) {
        return Err(e);
    }
    if let Err(e) = check_target_for_scope(scope, target) {
        return Err(e);
    }
    let mut a = option_command("set-option", scope, target);
    a.push(name);
    a.push(value);
    Ok(a.build())
}

/// `show-options SCOPE [-t TARGET]`, once the target is valid.
pub fn plan_list_options(scope: OptionScope, target: Option<&str>) -> (r: Result<
    TmuxCommandSpec,
    ValidationError,
>)
    ensures
        r is Ok <==> option_checks(None, scope, target) is Ok,
        r matches Err(x) ==> option_checks(None, scope, target) == Err::<(), ValidationErrorView>(x@),
        r matches Ok(c) ==> c@ == seq!["show-options"@, scope.flag()] + target_flag(target),
{
    if let Err(e) = check_target_for_scope(scope, target) {
        return Err(e);
    }
    Ok(option_command("show-options", scope, target).build())
}

/// The value in a `show-options NAME` reply: what follows the first space of
/// the trimmed output, or nothing when there is no space.
pub open spec fn option_value(stdout: Seq<char>) -> Seq<char> {
    match split_once(trim(stdout), seq![' ']) {
        Some((_, v)) => v,
        None => Seq::empty(),
    }
}

/// Interpret the output of `show-options ... NAME`.
pub fn interpret_get_option(output: &TmuxOutput, name: &str, scope: OptionScope, target: Option<&str>) -> (r: Result<
    TmuxOption,
    TmuxError,
>)
    ensures
        r is Ok <==> output.success,
        r matches Ok(o) ==> o@ == (name@, option_value(output.stdout@), scope),
        r matches Err(e) ==> e@ == failure(
            *output,
            "show-options"@,
            match target {
                Some(t) => t@,
                None => ""@,
            },
        ),
{
    let t = match target {
        Some(t) => t,
        None => "",
    };
    output.check("show-options", t)?;
    let line = trim_exec(output.stdout.as_str());
    proof {
        reveal_strlit(" ");
        assert(" "@ =~= seq![' ']);
    }
    let value = match split_once_exec(line.as_str(), " ") {
        Some((_, v)) => v,
        None => String::new(),
    };
    Ok(TmuxOption { name: owned(name), value, scope })
}

/// One line of `show-options` output: name, and the value after the first space.
pub open spec fn option_line(line: Seq<char>) -> (Seq<char>, Seq<char>) {
    match split_once(line, seq![' ']) {
        Some((n, v)) => (n, v),
        None => (line, Seq::empty()),
    }
}

/// The options listed in `show-options` output.
pub open spec fn listed_options(stdout: Seq<char>, scope: OptionScope) -> Seq<
    (Seq<char>, Seq<char>, OptionScope),
> {
    nonempty_lines(stdout).map_values(|l: Seq<char>| (option_line(l).0, option_line(l).1, scope))
}

/// Parse `show-options` output into options of `scope`.
pub fn parse_options_output(stdout: &str, scope: OptionScope) -> (r: Vec<TmuxOption>)
    ensures
        r@.map_values(|o: TmuxOption| o@) == listed_options(stdout@, scope),
{
    let lines = nonempty_lines_exec(stdout);
    let mut out: Vec<TmuxOption> = Vec::new();
    let mut i: usize = 0;
    proof {
        reveal_strlit(" ");
        assert(" "@ =~= seq![' ']);
    }
    while i < lines.len()
        invariant
            i <= lines@.len(),
            views(lines@) == nonempty_lines(stdout@),
            " "@ == seq![' '],
            out@.map_values(|o: TmuxOption| o@) == listed_options(stdout@, scope).take(i as int),
        decreases lines@.len() - i,
    {
        assert(views(lines@)[i as int] == lines@[i as int]@);
        let (name, value) = match split_once_exec(lines[i].as_str(), " ") {
            Some((n, v)) => (n, v),
            None => (lines[i].clone(), String::new()),
        };
        let ghost old_out = out@;
        let ghost l = lines@[i as int]@;
        assert((name@, value@) == option_line(l));
        let opt = TmuxOption { name, value, scope };
        out.push(opt);
        assert(listed_options(stdout@, scope)[i as int] == (option_line(l).0, option_line(l).1, scope));
        assert(out@.map_values(|o: TmuxOption| o@) =~= old_out.map_values(|o: TmuxOption| o@).push(opt@));
        assert(listed_options(stdout@, scope).take(i + 1) =~= listed_options(stdout@, scope).take(i as int).push(listed_options(stdout@, scope)[i as int]));
        i += 1;
    }
    assert(listed_options(stdout@, scope).take(lines@.len() as int) =~= listed_options(stdout@, scope));
    out
}

/// Interpret the output of `show-options` without a name.
pub fn interpret_list_options(output: &TmuxOutput, scope: OptionScope, target: Option<&str>) -> (r: Result<
    Vec<TmuxOption>,
    TmuxError,
>)
    ensures
        r is Ok <==> output.success,
        r matches Ok(v) ==> v@.map_values(|o: TmuxOption| o@) == listed_options(output.stdout@, scope),
        r matches Err(e) ==> e@ == failure(
            *output,
            "show-options"@,
            match target {
                Some(t) => t@,
                None => ""@,
            },
        ),
{
    let t = match target {
        Some(t) => t,
        None => "",
    };
    output.check("show-options", t)?;
    Ok(parse_options_output(output.stdout.as_str(), scope))
}

/// An option read back: when `show-options NAME` replies `name value` (the
/// name free of spaces, the reply trimmed), the option's value is what
/// follows the first space, whatever the name and the value are.
pub proof fn law_option_value_follows_name(stdout: Seq<char>, name: Seq<char>, value: Seq<char>)
    requires
        trim(stdout) == name + seq![' '] + value,
        forall|i: int| 0 <= i < name.len() ==> name[i] != ' ',
    ensures
        option_value(stdout) == value,
{
    let line = name + seq![' '] + value;
    assert forall|j: int| 0 <= j < name.len() implies !occurs_at(line, seq![' '], j) by {
        if occurs_at(line, seq![' '], j) {
            assert(line.subrange(j, j + 1)[0] == line[j]);
        }
    }
    lemma_split_once_join(name, seq![' '], value);
}

/// Listing options gives one option per non-empty line of the reply, in
/// order, each of the listed scope; a line `name value` (the name free of
/// spaces) gives that name and that value.
pub proof fn law_listed_option_fields(stdout: Seq<char>, scope: OptionScope, i: int, name: Seq<char>, value: Seq<char>)
    requires
        0 <= i < nonempty_lines(stdout).len(),
        nonempty_lines(stdout)[i] == name + seq![' '] + value,
        forall|k: int| 0 <= k < name.len() ==> name[k] != ' ',
    ensures
        listed_options(stdout, scope).len() == nonempty_lines(stdout).len(),
        listed_options(stdout, scope)[i] == (name, value, scope),
{
    let line = name + seq![' '] + value;
    assert forall|j: int| 0 <= j < name.len() implies !occurs_at(line, seq![' '], j) by {
        if occurs_at(line, seq![' '], j) {
            assert(line.subrange(j, j + 1)[0] == line[j]);
        }
    }
    lemma_split_once_join(name, seq![' '], value);
}

} // verus!
