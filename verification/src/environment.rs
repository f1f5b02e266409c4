//! Environment variables of the tmux server and of sessions: commands and the
//! parsing of `show-environment` output.

use vstd::prelude::*;

use crate::command_spec::{ArgList, TmuxCommandSpec};
use crate::error::{classified, lowercase, result_view, TmuxError, TmuxErrorView};
use crate::executor::TmuxOutput;
use crate::text::{
    chars_of, concat, contains, contains_exec, lemma_split_once_join, occurs_at, nonempty_lines, nonempty_lines_exec, owned,
    split_once, split_once_exec, string_from_chars, trim, trim_exec, views,
};
use crate::validation::{
    both, check_env_var_name, check_env_var_value, check_session_target, validate_env_var_name,
    validate_env_var_value, validate_session_target, ValidationError, ValidationErrorView,
};

verus! {

/// A server-level environment variable.
#[derive(Debug, Clone, PartialEq, Eq)]
pub struct EnvVar {
    pub name: String,
    pub value: String,
}

impl View for EnvVar {
    type V = (Seq<char>, Seq<char>);

    open spec fn view(&self) -> (Seq<char>, Seq<char>) {
        (self.name@, self.value@)
    }
}

impl EnvVar {
    /// "{name}={value}".
    pub fn to_string(&self) -> (s: String)
        ensures
            s@ == self.name@ + "="@ + self.value@,
    {
        let a = concat(self.name.as_str(), "=");
        concat(a.as_str(), self.value.as_str())
    }
}

/// What `parse_env_line` gives: `NAME=VALUE` split at the first `'='`;
/// nothing for an unset marker (`-NAME`) or a line without `'='`.
pub open spec fn env_line(line: Seq<char>) -> Option<(Seq<char>, Seq<char>)> {
    if line.len() > 0 && line[0] == '-' {
        None
    } else {
        split_once(line, seq!['='])
    }
}

/// Parse a single line of `show-environment -g` output into an `EnvVar`.
/// Lines are in the format `NAME=VALUE`. Lines starting with `-` (unset markers) are skipped.
pub fn parse_env_line(line: &str) -> (r: Option<EnvVar>)
    ensures
        r matches Some(e) ==> env_line(line@) == Some(e@),
        r is None ==> env_line(line@) is None,
{
    let v = chars_of(line);
    if v.len() > 0 && v[0] == '-' {
        return None;
    }
    proof {
        reveal_strlit("=");
        assert("="@ =~= seq!['=']);
    }
    match split_once_exec(line, "=") {
        Some((name, value)) => Some(EnvVar { name, value }),
        None => None,
    }
}

/// The variables in `show-environment -g` output.
pub open spec fn server_env_vars(stdout: Seq<char>) -> Seq<(Seq<char>, Seq<char>)> {
    nonempty_lines(stdout).filter_map(|l: Seq<char>| env_line(l))
}

/// Parse `show-environment -g` output.
pub fn parse_server_environment(stdout: &str) -> (r: Vec<EnvVar>)
    ensures
        r@.map_values(|e: EnvVar| e@) == server_env_vars(stdout@),
{
    let lines = nonempty_lines_exec(stdout);
    let ghost ls = views(lines@);
    let ghost f = |l: Seq<char>| env_line(l);
    let mut out: Vec<EnvVar> = Vec::new();
    let mut i: usize = 0;
    assert(ls.take(0).filter_map(f) =~= Seq::<(Seq<char>, Seq<char>)>::empty());
    while i < lines.len()
        invariant
            i <= lines@.len(),
            ls == views(lines@),
            ls == nonempty_lines(stdout@),
            f == (|l: Seq<char>| env_line(l)),
            out@.map_values(|e: EnvVar| e@) == ls.take(i as int).filter_map(f),
        decreases lines@.len() - i,
    {
        proof { ls.lemma_filter_map_take_succ(f, i as int); }
        assert(ls[i as int] == lines@[i as int]@);
        let ghost old_out = out@;
        match parse_env_line(lines[i].as_str()) {
            Some(e) => {
                out.push(e);
                assert(out@.map_values(|e: EnvVar| e@) =~= old_out.map_values(|e: EnvVar| e@)
                    + seq![e@]);
            },
            None => {},
        }
        i += 1;
    }
    assert(ls.take(lines@.len() as int) =~= ls);
    out
}

/// A session-level environment variable; `value` is `None` for an unset marker.
#[derive(Debug, Clone, PartialEq, Eq)]
pub struct TmuxEnvVar {
    pub name: String,
    pub value: Option<String>,
}

impl View for TmuxEnvVar {
    type V = (Seq<char>, Option<Seq<char>>);

    open spec fn view(&self) -> (Seq<char>, Option<Seq<char>>) {
        (
            self.name@,
            match self.value {
                Some(v) => Some(v@),
                None => None,
            },
        )
    }
}

impl TmuxEnvVar {
    /// "{name}={value}", or "-{name}" for an unset marker.
    pub fn to_string(&self) -> (s: String)
        ensures
            s@ == match self.value {
                Some(v) => self.name@ + "="@ + v@,
                None => "-"@ + self.name@,
            },
    {
        match &self.value {
            Some(v) => {
                let a = concat(self.name.as_str(), "=");
                concat(a.as_str(), v.as_str())
            },
            None => concat("-", self.name.as_str()),
        }
    }
}

/// What `parse_session_env_line` gives: `-NAME` is an unset marker,
/// `NAME=VALUE` a set variable; nothing for an empty line, a bare `-`, or a line without `'='`.
pub open spec fn session_env_line(line: Seq<char>) -> Option<(Seq<char>, Option<Seq<char>>)> {
    if line.len() == 0 {
        None
    } else if line[0] == '-' {
        if line.len() == 1 {
            None
        } else {
            Some((line.drop_first(), None))
        }
    } else {
        match split_once(line, seq!['=']) {
            Some((n, v)) => Some((n, Some(v))),
            None => None,
        }
    }
}

/// Parse a single line of `show-environment -t` output into a `TmuxEnvVar`.
/// Lines are in the format `NAME=VALUE` or `-NAME` (unset marker).
pub fn parse_session_env_line(line: &str) -> (r: Option<TmuxEnvVar>)
    ensures
        r matches Some(e) ==> session_env_line(line@) == Some(e@),
        r is None ==> session_env_line(line@) is None,
{
    let v = chars_of(line);
    if v.len() == 0 {
        return None;
    }
    if v[0] == '-' {
        if v.len() == 1 {
            return None;
        }
        let name = string_from_chars(&v, 1, v.len());
        assert(v@.subrange(1, v@.len() as int) =~= v@.drop_first());
        return Some(TmuxEnvVar { name, value: None });
    }
    proof {
        reveal_strlit("=");
        assert("="@ =~= seq!['=']);
    }
    match split_once_exec(line, "=") {
        Some((name, value)) => Some(TmuxEnvVar { name, value: Some(value) }),
        None => None,
    }
}

/// The variables in `show-environment -t` output.
pub open spec fn session_env_vars(stdout: Seq<char>) -> Seq<(Seq<char>, Option<Seq<char>>)> {
    nonempty_lines(stdout).filter_map(|l: Seq<char>| session_env_line(l))
}

/// Parse `show-environment -t SESSION` output.
pub fn parse_session_environment(stdout: &str) -> (r: Vec<TmuxEnvVar>)
    ensures
        r@.map_values(|e: TmuxEnvVar| e@) == session_env_vars(stdout@),
{
    let lines = nonempty_lines_exec(stdout);
    let ghost ls = views(lines@);
    let ghost f = |l: Seq<char>| session_env_line(l);
    let mut out: Vec<TmuxEnvVar> = Vec::new();
    let mut i: usize = 0;
    assert(ls.take(0).filter_map(f) =~= Seq::<(Seq<char>, Option<Seq<char>>)>::empty());
    while i < lines.len()
        invariant
            i <= lines@.len(),
            ls == views(lines@),
            ls == nonempty_lines(stdout@),
            f == (|l: Seq<char>| session_env_line(l)),
            out@.map_values(|e: TmuxEnvVar| e@) == ls.take(i as int).filter_map(f),
        decreases lines@.len() - i,
    {
        proof { ls.lemma_filter_map_take_succ(f, i as int); }
        assert(ls[i as int] == lines@[i as int]@);
        let ghost old_out = out@;
        match parse_session_env_line(lines[i].as_str()) {
            Some(e) => {
                out.push(e);
                assert(out@.map_values(|e: TmuxEnvVar| e@) =~= old_out.map_values(
                    |e: TmuxEnvVar| e@,
                ) + seq![e@]);
            },
            None => {},
        }
        i += 1;
    }
    assert(ls.take(lines@.len() as int) =~= ls);
    out
}

} // verus!

verus! {

/// `show-environment -g`: list all server-level (global) environment variables.
pub fn build_list_server_environment_command() -> (c: TmuxCommandSpec)
    ensures
        c@ == seq!["show-environment"@, "-g"@],
{
    let mut a = ArgList::new();
    a.push("show-environment");
    a.push("-g");
    a.build()
}

/// Interpret the output of `show-environment -g`.
pub fn interpret_list_server_environment(output: &TmuxOutput) -> (r: Result<Vec<EnvVar>, TmuxError>)
    ensures
        result_view(r, |v: Vec<EnvVar>| v@.map_values(|e: EnvVar| e@)) == if output.success {
            Ok(server_env_vars(output.stdout@))
        } else {
            Err(classified("show-environment"@, output.stderr@, lowercase(output.stderr@), ""@))
        },
{
    output.check("show-environment", "")?;
    Ok(parse_server_environment(output.stdout.as_str()))
}

/// `show-environment -g NAME`, once `name` is a valid variable name.
pub fn plan_get_server_env(name: &str) -> (r: Result<TmuxCommandSpec, ValidationError>)
    ensures
        r is Ok <==> check_env_var_name(name@) is Ok,
        r matches Err(x) ==> check_env_var_name(name@) == Err::<(), ValidationErrorView>(x@),
        r matches Ok(c) ==> c@ == seq!["show-environment"@, "-g"@, name@],
{
    if let Err(e) = validate_env_var_name(name) {
        return Err(e);
    }
    let mut a = ArgList::new();
    a.push("show-environment");
    a.push("-g");
    a.push(name);
    Ok(a.build())
}

/// What reading one server variable reports: nothing when tmux says the
/// variable is unknown or prints nothing, its value otherwise.
pub open spec fn get_server_env_outcome(o: TmuxOutput, name: Seq<char>) -> Result<
    Option<Seq<char>>,
    TmuxErrorView,
> {
    if !o.success {
        if contains(lowercase(o.stderr@), "unknown variable"@) {
            Ok(None)
        } else {
            Err(classified("show-environment"@, o.stderr@, lowercase(o.stderr@), name))
        }
    } else if trim(o.stdout@).len() == 0 {
        Ok(None)
    } else {
        match env_line(trim(o.stdout@)) {
            Some((_, v)) => Ok(Some(v)),
            None => Ok(None),
        }
    }
}

/// Interpret the output of `show-environment -g NAME`.
pub fn interpret_get_server_env(output: &TmuxOutput, name: &str) -> (r: Result<Option<String>, TmuxError>)
    ensures
        result_view(r, |v: Option<String>| match v {
            Some(s) => Some(s@),
            None => None,
        }) == get_server_env_outcome(*output, name@),
{
    if !output.success {
        let lower = crate::error::to_lowercase(output.stderr.as_str());
        if contains_exec(lower.as_str(), "unknown variable") {
            return Ok(None);
        }
        return Err(TmuxError::from_stderr("show-environment", output.stderr.as_str(), name));
    }
    let line = trim_exec(output.stdout.as_str());
    if line.as_str().is_empty() {
        return Ok(None);
    }
    match parse_env_line(line.as_str()) {
        Some(env) => Ok(Some(env.value)),
        None => Ok(None),
    }
}

/// `set-environment -g NAME VALUE`, once both are valid.
pub fn plan_set_server_env(name: &str, value: &str) -> (r: Result<TmuxCommandSpec, ValidationError>)
    ensures
        r is Ok <==> both(check_env_var_name(name@), check_env_var_value(value@)) is Ok,
        r matches Err(x) ==> both(check_env_var_name(name@), check_env_var_value(value@)) == Err::<(), ValidationErrorView>(x@),
        r matches Ok(c) ==> c@ == seq!["set-environment"@, "-g"@, name@, value@],
{
    if let Err(e) = validate_env_var_name(name) {
        return Err(e);
    }
    if let Err(e) = validate_env_var_value(value) {
        return Err(e);
    }
    let mut a = ArgList::new();
    a.push("set-environment");
    a.push("-g");
    a.push(name);
    a.push(value);
    Ok(a.build())
}

/// `set-environment -g -u NAME`, once `name` is valid.
pub fn plan_unset_server_env(name: &str) -> (r: Result<TmuxCommandSpec, ValidationError>)
    ensures
        r is Ok <==> check_env_var_name(name@) is Ok,
        r matches Err(x) ==> check_env_var_name(name@) == Err::<(), ValidationErrorView>(x@),
        r matches Ok(c) ==> c@ == seq!["set-environment"@, "-g"@, "-u"@, name@],
{
    if let Err(e) = validate_env_var_name(name) {
        return Err(e);
    }
    let mut a = ArgList::new();
    a.push("set-environment");
    a.push("-g");
    a.push("-u");
    a.push(name);
    Ok(a.build())
}

/// `show-environment -t SESSION`, once `session` is a valid session target.
pub fn plan_show_environment(session: &str) -> (r: Result<TmuxCommandSpec, ValidationError>)
    ensures
        r is Ok <==> check_session_target(session@) is Ok,
        r matches Err(x) ==> check_session_target(session@) == Err::<(), ValidationErrorView>(x@),
        r matches Ok(c) ==> c@ == seq!["show-environment"@, "-t"@, session@],
{
    if let Err(e) = validate_session_target(session) {
        return Err(e);
    }
    let mut a = ArgList::new();
    a.push("show-environment");
    a.push("-t");
    a.push(session);
    Ok(a.build())
}

/// Interpret the output of `show-environment -t SESSION`.
pub fn interpret_show_environment(output: &TmuxOutput, session: &str) -> (r: Result<
    Vec<TmuxEnvVar>,
    TmuxError,
>)
    ensures
        result_view(r, |v: Vec<TmuxEnvVar>| v@.map_values(|e: TmuxEnvVar| e@)) == if output.success {
            Ok(session_env_vars(output.stdout@))
        } else {
            Err(classified("show-environment"@, output.stderr@, lowercase(output.stderr@), session@))
        },
{
    output.check("show-environment", session)?;
    Ok(parse_session_environment(output.stdout.as_str()))
}

/// `set-environment -t SESSION NAME VALUE`, once all three are valid.
pub fn plan_set_environment(session: &str, name: &str, value: &str) -> (r: Result<
    TmuxCommandSpec,
    ValidationError,
>)
    ensures
        r is Ok <==> both(check_session_target(session@), both(check_env_var_name(name@), check_env_var_value(value@))) is Ok,
        r matches Err(x) ==> both(check_session_target(session@), both(check_env_var_name(name@), check_env_var_value(value@))) == Err::<(), ValidationErrorView>(x@),
        r matches Ok(c) ==> c@ == seq!["set-environment"@, "-t"@, session@, name@, value@],
{
    if let Err(e) = validate_session_target(session) {
        return Err(e);
    }
    if let Err(e) = validate_env_var_name(name) {
        return Err(e);
    }
    if let Err(e) = validate_env_var_value(value) {
        return Err(e);
    }
    let mut a = ArgList::new();
    a.push("set-environment");
    a.push("-t");
    a.push(session);
    a.push(name);
    a.push(value);
    Ok(a.build())
}

/// `set-environment -t SESSION -u NAME`, once both are valid.
pub fn plan_unset_environment(session: &str, name: &str) -> (r: Result<
    TmuxCommandSpec,
    ValidationError,
>)
    ensures
        r is Ok <==> both(check_session_target(session@), check_env_var_name(name@)) is Ok,
        r matches Err(x) ==> both(check_session_target(session@), check_env_var_name(name@)) == Err::<(), ValidationErrorView>(x@),
        r matches Ok(c) ==> c@ == seq!["set-environment"@, "-t"@, session@, "-u"@, name@],
{
    if let Err(e) = validate_session_target(session) {
        return Err(e);
    }
    if let Err(e) = validate_env_var_name(name) {
        return Err(e);
    }
    let mut a = ArgList::new();
    a.push("set-environment");
    a.push("-t");
    a.push(session);
    a.push("-u");
    a.push(name);
    Ok(a.build())
}

/// A line `NAME=VALUE` is split back into `NAME` and `VALUE` when the name
/// holds no `'='`.
proof fn lemma_env_line_split(name: Seq<char>, value: Seq<char>)
    requires
        forall|i: int| 0 <= i < name.len() ==> name[i] != '=',
    ensures
        split_once(name + "="@ + value, seq!['=']) == Some((name, value)),
{
    reveal_strlit("=");
    assert("="@ =~= seq!['=']);
    let line = name + seq!['='] + value;
    assert forall|j: int| 0 <= j < name.len() implies !occurs_at(line, seq!['='], j) by {
        if occurs_at(line, seq!['='], j) {
            assert(line.subrange(j, j + 1)[0] == line[j]);
        }
    }
    lemma_split_once_join(name, seq!['='], value);
}

/// A server variable printed by `EnvVar::to_string` reads back as itself with
/// `parse_env_line`, when its name holds no `'='` and does not start with `'-'`.
pub proof fn law_env_var_round_trip(name: Seq<char>, value: Seq<char>)
    requires
        forall|i: int| 0 <= i < name.len() ==> name[i] != '=',
        name.len() == 0 || name[0] != '-',
    ensures
        env_line(name + "="@ + value) == Some((name, value)),
{
    lemma_env_line_split(name, value);
    reveal_strlit("=");
    if name.len() == 0 {
        assert((name + "="@ + value)[0] == '=');
    } else {
        assert((name + "="@ + value)[0] == name[0]);
    }
}

/// A session variable printed by `TmuxEnvVar::to_string` reads back as
/// itself with `parse_session_env_line`: a set variable when its name holds
/// no `'='` and does not start with `'-'`, an unset marker when its name is
/// not empty.
pub proof fn law_session_env_var_round_trip(name: Seq<char>, value: Option<Seq<char>>)
    requires
        forall|i: int| 0 <= i < name.len() ==> name[i] != '=',
        value is Some ==> name.len() == 0 || name[0] != '-',
        value is None ==> name.len() > 0,
    ensures
        session_env_line(
            match value {
                Some(v) => name + "="@ + v,
                None => "-"@ + name,
            },
        ) == Some((name, value)),
{
    reveal_strlit("=");
    reveal_strlit("-");
    match value {
        Some(v) => {
            lemma_env_line_split(name, v);
            if name.len() == 0 {
                assert((name + "="@ + v)[0] == '=');
            } else {
                assert((name + "="@ + v)[0] == name[0]);
            }
        },
        None => {
            assert(("-"@ + name).drop_first() =~= name);
        },
    }
}

/// A server variable read back: when `show-environment -g NAME` succeeds
/// with the reply `NAME=VALUE` (trimmed; the name holds no `'='` and does not
/// start with `'-'`), the answer is that value.
pub proof fn law_get_server_env_value(o: TmuxOutput, asked: Seq<char>, name: Seq<char>, value: Seq<char>)
    requires
        o.success,
        trim(o.stdout@) == name + "="@ + value,
        forall|i: int| 0 <= i < name.len() ==> name[i] != '=',
        name.len() == 0 || name[0] != '-',
    ensures
        get_server_env_outcome(o, asked) == Ok::<Option<Seq<char>>, TmuxErrorView>(Some(value)),
{
    law_env_var_round_trip(name, value);
    reveal_strlit("=");
    assert((name + "="@ + value).len() > 0);
}

} // verus!
