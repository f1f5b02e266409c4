//! Validation of the names and targets that reach tmux, and the validated
//! newtypes built on it.

use vstd::prelude::*;
use vstd::utf8::encode_utf8;

use crate::options::OptionScope;
use crate::text::{
    char_is_alnum, char_is_alpha, char_is_digit, chars_of, concat, contains, contains_exec, dec,
    is_alnum, is_alpha, is_digit,
    owned, push_decimal, split_once, split_once_exec,
};

verus! {

pub const MAX_SESSION_NAME_LEN: usize = 128;
pub const MAX_TARGET_LEN: usize = 256;
pub const MAX_OPTION_NAME_LEN: usize = 128;
pub const MAX_COMMAND_LEN: usize = 1024;
pub const MAX_ENV_VAR_NAME_LEN: usize = 256;
pub const MAX_ENV_VAR_VALUE_LEN: usize = 4096;
pub const MAX_BUFFER_NAME_LEN: usize = 128;

/// Why an input was refused.
#[derive(Debug, Clone, PartialEq, Eq)]
pub enum ValidationError {
    EmptyInput { field: &'static str },
    InvalidSessionName { reason: String },
    InvalidWindowName { reason: String },
    InvalidTarget { reason: String },
    InvalidOptionName { reason: String },
    InvalidCommand { reason: String },
    InvalidEnvVarName { reason: String },
    InvalidEnvVarValue { reason: String },
    InvalidBufferName { reason: String },
    InvalidWorkingDirectory { reason: String },
}

/// A `ValidationError` with its texts as character sequences.
pub enum ValidationErrorView {
    EmptyInput { field: Seq<char> },
    InvalidSessionName { reason: Seq<char> },
    InvalidWindowName { reason: Seq<char> },
    InvalidTarget { reason: Seq<char> },
    InvalidOptionName { reason: Seq<char> },
    InvalidCommand { reason: Seq<char> },
    InvalidEnvVarName { reason: Seq<char> },
    InvalidEnvVarValue { reason: Seq<char> },
    InvalidBufferName { reason: Seq<char> },
    InvalidWorkingDirectory { reason: Seq<char> },
}

impl View for ValidationError {
    type V = ValidationErrorView;

    open spec fn view(&self) -> ValidationErrorView {
        match self {
            ValidationError::EmptyInput { field } => ValidationErrorView::EmptyInput {
                field: field@,
            },
            ValidationError::InvalidSessionName { reason } =>
                ValidationErrorView::InvalidSessionName { reason: reason@ },
            ValidationError::InvalidWindowName { reason } =>
                ValidationErrorView::InvalidWindowName { reason: reason@ },
            ValidationError::InvalidTarget { reason } => ValidationErrorView::InvalidTarget {
                reason: reason@,
            },
            ValidationError::InvalidOptionName { reason } =>
                ValidationErrorView::InvalidOptionName { reason: reason@ },
            ValidationError::InvalidCommand { reason } => ValidationErrorView::InvalidCommand {
                reason: reason@,
            },
            ValidationError::InvalidEnvVarName { reason } =>
                ValidationErrorView::InvalidEnvVarName { reason: reason@ },
            ValidationError::InvalidEnvVarValue { reason } =>
                ValidationErrorView::InvalidEnvVarValue { reason: reason@ },
            ValidationError::InvalidBufferName { reason } =>
                ValidationErrorView::InvalidBufferName { reason: reason@ },
            ValidationError::InvalidWorkingDirectory { reason } =>
                ValidationErrorView::InvalidWorkingDirectory { reason: reason@ },
        }
    }
}

/// The view of a validation outcome.
pub open spec fn outcome(r: Result<(), ValidationError>) -> Result<(), ValidationErrorView> {
    match r {
        Ok(()) => Ok(()),
        Err(e) => Err(e@),
    }
}

/// Length in bytes of the UTF-8 encoding of `s`, as `str::len` returns it.
pub open spec fn byte_len(s: Seq<char>) -> nat {
    encode_utf8(s).len() as usize as nat
}

/// The character sets that names, targets and commands are drawn from.
#[derive(Clone, Copy)]
pub enum CharClass {
    Name,
    Target,
    OptionName,
    Command,
    Word,
    Digit,
}

pub open spec fn in_class(cls: CharClass, c: char) -> bool {
    match cls {
        CharClass::Name => is_name_char(c),
        CharClass::Target => is_target_char(c),
        CharClass::OptionName => is_option_char(c),
        CharClass::Command => is_command_char(c),
        CharClass::Word => is_word_char(c),
        CharClass::Digit => is_digit(c),
    }
}

/// Every character of `s` is in `cls`.
pub open spec fn all_in(s: Seq<char>, cls: CharClass) -> bool {
    forall|i: int| 0 <= i < s.len() ==> in_class(cls, #[trigger] s[i])
}

/// Characters of session and window names.
pub open spec fn is_name_char(c: char) -> bool {
    is_alnum(c) || c == '-' || c == '_' || c == '.'
}

/// Characters of targets.
pub open spec fn is_target_char(c: char) -> bool {
    is_alnum(c) || c == '-' || c == '_' || c == '.' || c == ':'
}

/// Characters of option names.
pub open spec fn is_option_char(c: char) -> bool {
    is_alnum(c) || c == '-' || c == '_'
}

/// Characters of commands: no shell metacharacters.
pub open spec fn is_command_char(c: char) -> bool {
    is_alnum(c) || c == ' ' || c == '-' || c == '_' || c == '.' || c == '/' || c == '~' || c
        == '=' || c == ':' || c == ',' || c == '+' || c == '@'
}

/// Characters of environment variable names and buffer names.
pub open spec fn is_word_char(c: char) -> bool {
    is_alnum(c) || c == '_'
}

/// "must be at most {max} characters, got {got}".
pub open spec fn too_long_reason(max: nat, got: nat) -> Seq<char> {
    "must be at most "@ + dec(max) + " characters, got "@ + dec(got)
}

pub open spec fn name_chars_reason() -> Seq<char> {
    "must contain only alphanumeric characters, hyphens, underscores, or dots"@
}

pub open spec fn target_chars_reason() -> Seq<char> {
    "must contain only alphanumeric characters, hyphens, underscores, dots, or colons"@
}

pub open spec fn session_target_reason() -> Seq<char> {
    "session target must not contain ':' or '.' — use kill-window or kill-pane for sub-session targets"@
}

pub open spec fn window_format_reason() -> Seq<char> {
    "window target must be in format 'session:window'"@
}

pub open spec fn window_parts_reason() -> Seq<char> {
    "session and window parts must not be empty"@
}

pub open spec fn pane_format_reason() -> Seq<char> {
    "pane target must be in format 'session:window.pane'"@
}

pub open spec fn pane_parts_reason() -> Seq<char> {
    "session, window, and pane parts must not be empty"@
}

pub open spec fn pane_index_reason() -> Seq<char> {
    "pane part must be a numeric index"@
}

pub open spec fn option_chars_reason() -> Seq<char> {
    "must contain only alphanumeric characters, hyphens, or underscores"@
}

pub open spec fn command_chars_reason() -> Seq<char> {
    "must not contain shell metacharacters (;|&`$(){}\\<>!\"'#*?\n etc.)"@
}

pub open spec fn env_start_reason() -> Seq<char> {
    "must start with a letter or underscore"@
}

pub open spec fn word_chars_reason() -> Seq<char> {
    "must contain only alphanumeric characters or underscores"@
}

pub open spec fn null_byte_reason() -> Seq<char> {
    "must not contain null bytes"@
}

/// What `validate_session_name` decides.
pub open spec fn check_session_name(s: Seq<char>) -> Result<(), ValidationErrorView> {
    if s.len() == 0 {
        Err(ValidationErrorView::EmptyInput { field: "name"@ })
    } else if byte_len(s) > 128 {
        Err(ValidationErrorView::InvalidSessionName { reason: too_long_reason(128, byte_len(s)) })
    } else if !all_in(s, CharClass::Name) {
        Err(ValidationErrorView::InvalidSessionName { reason: name_chars_reason() })
    } else {
        Ok(())
    }
}

/// What `validate_window_name` decides.
pub open spec fn check_window_name(s: Seq<char>) -> Result<(), ValidationErrorView> {
    if s.len() == 0 {
        Err(ValidationErrorView::EmptyInput { field: "name"@ })
    } else if byte_len(s) > 128 {
        Err(ValidationErrorView::InvalidWindowName { reason: too_long_reason(128, byte_len(s)) })
    } else if !all_in(s, CharClass::Name) {
        Err(ValidationErrorView::InvalidWindowName { reason: name_chars_reason() })
    } else {
        Ok(())
    }
}

/// The checks every target passes first: not empty, not too long, safe characters.
pub open spec fn check_target_basics(s: Seq<char>) -> Result<(), ValidationErrorView> {
    if s.len() == 0 {
        Err(ValidationErrorView::EmptyInput { field: "target"@ })
    } else if byte_len(s) > 256 {
        Err(ValidationErrorView::InvalidTarget { reason: too_long_reason(256, byte_len(s)) })
    } else if !all_in(s, CharClass::Target) {
        Err(ValidationErrorView::InvalidTarget { reason: target_chars_reason() })
    } else {
        Ok(())
    }
}

/// What `validate_session_target` decides.
pub open spec fn check_session_target(s: Seq<char>) -> Result<(), ValidationErrorView> {
    if check_target_basics(s) is Err {
        check_target_basics(s)
    } else if contains(s, seq![':']) || contains(s, seq!['.']) {
        Err(ValidationErrorView::InvalidTarget { reason: session_target_reason() })
    } else {
        Ok(())
    }
}

/// What `validate_window_target` decides: exactly one `':'`, both sides non-empty.
pub open spec fn check_window_target(s: Seq<char>) -> Result<(), ValidationErrorView> {
    if check_target_basics(s) is Err {
        check_target_basics(s)
    } else {
        match split_once(s, seq![':']) {
            None => Err(ValidationErrorView::InvalidTarget { reason: window_format_reason() }),
            Some((a, b)) => if contains(b, seq![':']) {
                Err(ValidationErrorView::InvalidTarget { reason: window_format_reason() })
            } else if a.len() == 0 || b.len() == 0 {
                Err(ValidationErrorView::InvalidTarget { reason: window_parts_reason() })
            } else {
                Ok(())
            },
        }
    }
}

/// The session, window and pane parts of a pane target: before the first
/// `':'`, then up to the first `'.'` after it, then the rest.
pub open spec fn pane_parts(s: Seq<char>) -> Option<(Seq<char>, Seq<char>, Seq<char>)> {
    match split_once(s, seq![':']) {
        None => None,
        Some((session, after)) => match split_once(after, seq!['.']) {
            None => None,
            Some((window, pane)) => Some((session, window, pane)),
        },
    }
}

/// What `validate_pane_target` decides.
pub open spec fn check_pane_target(s: Seq<char>) -> Result<(), ValidationErrorView> {
    if check_target_basics(s) is Err {
        check_target_basics(s)
    } else {
        match pane_parts(s) {
            None => Err(ValidationErrorView::InvalidTarget { reason: pane_format_reason() }),
            Some((session, window, pane)) => if session.len() == 0 || window.len() == 0
                || pane.len() == 0 {
                Err(ValidationErrorView::InvalidTarget { reason: pane_parts_reason() })
            } else if !all_in(pane, CharClass::Digit) {
                Err(ValidationErrorView::InvalidTarget { reason: pane_index_reason() })
            } else {
                Ok(())
            },
        }
    }
}

/// What `validate_option_name` decides.
pub open spec fn check_option_name(s: Seq<char>) -> Result<(), ValidationErrorView> {
    if s.len() == 0 {
        Err(ValidationErrorView::EmptyInput { field: "name"@ })
    } else if byte_len(s) > 128 {
        Err(ValidationErrorView::InvalidOptionName { reason: too_long_reason(128, byte_len(s)) })
    } else if !all_in(s, CharClass::OptionName) {
        Err(ValidationErrorView::InvalidOptionName { reason: option_chars_reason() })
    } else {
        Ok(())
    }
}

/// What `validate_option_scope_target` decides.
pub open spec fn check_option_scope_target(scope: OptionScope, s: Seq<char>) -> Result<
    (),
    ValidationErrorView,
> {
    match scope {
        OptionScope::Global => Ok(()),
        OptionScope::Session => check_session_target(s),
        OptionScope::Window => check_window_target(s),
    }
}

/// What `validate_command` decides.
pub open spec fn check_command(s: Seq<char>) -> Result<(), ValidationErrorView> {
    if s.len() == 0 {
        Err(ValidationErrorView::EmptyInput { field: "command"@ })
    } else if byte_len(s) > 1024 {
        Err(ValidationErrorView::InvalidCommand { reason: too_long_reason(1024, byte_len(s)) })
    } else if !all_in(s, CharClass::Command) {
        Err(ValidationErrorView::InvalidCommand { reason: command_chars_reason() })
    } else {
        Ok(())
    }
}

/// What `validate_env_var_name` decides.
pub open spec fn check_env_var_name(s: Seq<char>) -> Result<(), ValidationErrorView> {
    if s.len() == 0 {
        Err(ValidationErrorView::EmptyInput { field: "name"@ })
    } else if byte_len(s) > 256 {
        Err(ValidationErrorView::InvalidEnvVarName { reason: too_long_reason(256, byte_len(s)) })
    } else if !is_alpha(s[0]) && s[0] != '_' {
        Err(ValidationErrorView::InvalidEnvVarName { reason: env_start_reason() })
    } else if !all_in(s, CharClass::Word) {
        Err(ValidationErrorView::InvalidEnvVarName { reason: word_chars_reason() })
    } else {
        Ok(())
    }
}

/// What `validate_env_var_value` decides.
pub open spec fn check_env_var_value(s: Seq<char>) -> Result<(), ValidationErrorView> {
    if s.len() > 4096 {
        Err(ValidationErrorView::InvalidEnvVarValue { reason: too_long_reason(4096, s.len()) })
    } else if contains(s, seq!['\0']) {
        Err(ValidationErrorView::InvalidEnvVarValue { reason: null_byte_reason() })
    } else {
        Ok(())
    }
}

/// What `validate_working_directory` decides: a directory given to tmux
/// must not be empty and must not hold a null byte.
pub open spec fn check_working_directory(s: Seq<char>) -> Result<(), ValidationErrorView> {
    if s.len() == 0 {
        Err(ValidationErrorView::EmptyInput { field: "working_directory"@ })
    } else if contains(s, seq!['\0']) {
        Err(ValidationErrorView::InvalidWorkingDirectory { reason: null_byte_reason() })
    } else {
        Ok(())
    }
}

/// What `validate_command_arg` decides: an argument handed to the program
/// directly, with no shell between, must not hold a null byte.
pub open spec fn check_command_arg(s: Seq<char>) -> Result<(), ValidationErrorView> {
    if contains(s, seq!['\0']) {
        Err(ValidationErrorView::InvalidCommand { reason: null_byte_reason() })
    } else {
        Ok(())
    }
}

/// What `validate_buffer_name` decides.
pub open spec fn check_buffer_name(s: Seq<char>) -> Result<(), ValidationErrorView> {
    if s.len() == 0 {
        Err(ValidationErrorView::EmptyInput { field: "name"@ })
    } else if byte_len(s) > 128 {
        Err(ValidationErrorView::InvalidBufferName { reason: too_long_reason(128, byte_len(s)) })
    } else if !all_in(s, CharClass::Word) {
        Err(ValidationErrorView::InvalidBufferName { reason: word_chars_reason() })
    } else {
        Ok(())
    }
}

} // verus!

verus! {

fn char_in_class(cls: CharClass, c: char) -> (b: bool)
    ensures
        b == in_class(cls, c),
{
    match cls {
        CharClass::Name => char_is_alnum(c) || c == '-' || c == '_' || c == '.',
        CharClass::Target => char_is_alnum(c) || c == '-' || c == '_' || c == '.' || c == ':',
        CharClass::OptionName => char_is_alnum(c) || c == '-' || c == '_',
        CharClass::Command => char_is_alnum(c) || c == ' ' || c == '-' || c == '_' || c == '.'
            || c == '/' || c == '~' || c == '=' || c == ':' || c == ',' || c == '+' || c == '@',
        CharClass::Word => char_is_alnum(c) || c == '_',
        CharClass::Digit => char_is_digit(c),
    }
}

fn all_in_exec(s: &str, cls: CharClass) -> (b: bool)
    ensures
        b == all_in(s@, cls),
{
    let v = chars_of(s);
    let mut i: usize = 0;
    while i < v.len()
        invariant
            i <= v@.len(),
            v@ == s@,
            forall|j: int| 0 <= j < i ==> in_class(cls, #[trigger] s@[j]),
        decreases v@.len() - i,
    {
        if !char_in_class(cls, v[i]) {
            return false;
        }
        i += 1;
    }
    true
}

/// "must be at most {max} characters, got {got}".
fn too_long(max: usize, got: usize) -> (r: String)
    ensures
        r@ == too_long_reason(max as nat, got as nat),
{
    let mut r = owned("must be at most ");
    push_decimal(&mut r, max as u64);
    let r = concat(r.as_str(), " characters, got ");
    let mut r = r;
    push_decimal(&mut r, got as u64);
    r
}

/// Validate a session name for creation.
/// Allowed: alphanumeric, hyphens, underscores, dots. 1-128 chars.
pub fn validate_session_name(name: &str) -> (r: Result<(), ValidationError>)
    ensures
        outcome(r) == check_session_name(name@),
{
    if name.is_empty() {
        return Err(ValidationError::EmptyInput { field: "name" });
    }
    if name.len() > MAX_SESSION_NAME_LEN {
        return Err(
            ValidationError::InvalidSessionName { reason: too_long(MAX_SESSION_NAME_LEN, name.len()) },
        );
    }
    if !all_in_exec(name, CharClass::Name) {
        return Err(ValidationError::InvalidSessionName { reason: owned("must contain only alphanumeric characters, hyphens, underscores, or dots") });
    }
    Ok(())
}

/// Validate a window name for creation or renaming.
/// Allowed: alphanumeric, hyphens, underscores, dots. 1-128 chars.
pub fn validate_window_name(name: &str) -> (r: Result<(), ValidationError>)
    ensures
        outcome(r) == check_window_name(name@),
{
    if name.is_empty() {
        return Err(ValidationError::EmptyInput { field: "name" });
    }
    if name.len() > MAX_SESSION_NAME_LEN {
        return Err(
            ValidationError::InvalidWindowName { reason: too_long(MAX_SESSION_NAME_LEN, name.len()) },
        );
    }
    if !all_in_exec(name, CharClass::Name) {
        return Err(ValidationError::InvalidWindowName { reason: owned("must contain only alphanumeric characters, hyphens, underscores, or dots") });
    }
    Ok(())
}

/// Empty, length and character checks shared by all targets.
fn validate_target_basics(target: &str) -> (r: Result<(), ValidationError>)
    ensures
        outcome(r) == check_target_basics(target@),
{
    if target.is_empty() {
        return Err(ValidationError::EmptyInput { field: "target" });
    }
    if target.len() > MAX_TARGET_LEN {
        return Err(ValidationError::InvalidTarget { reason: too_long(MAX_TARGET_LEN, target.len()) });
    }
    validate_target_chars(target)
}

/// Ensure target contains only safe characters (prevent command injection).
pub fn validate_target_chars(target: &str) -> (r: Result<(), ValidationError>)
    ensures
        r is Ok <==> all_in(target@, CharClass::Target),
        r matches Err(e) ==> e@ == (ValidationErrorView::InvalidTarget { reason: target_chars_reason() }),
{
    if !all_in_exec(target, CharClass::Target) {
        return Err(ValidationError::InvalidTarget { reason: owned("must contain only alphanumeric characters, hyphens, underscores, dots, or colons") });
    }
    Ok(())
}

/// Validate a target identifier used in kill-session.
/// Format: a valid session name.
pub fn validate_session_target(target: &str) -> (r: Result<(), ValidationError>)
    ensures
        outcome(r) == check_session_target(target@),
{
    validate_target_basics(target)?;
    proof {
        reveal_strlit(":");
        reveal_strlit(".");
        assert(":"@ =~= seq![':']);
        assert("."@ =~= seq!['.']);
    }
    if contains_exec(target, ":") || contains_exec(target, ".") {
        return Err(ValidationError::InvalidTarget { reason: owned("session target must not contain ':' or '.' — use kill-window or kill-pane for sub-session targets") });
    }
    Ok(())
}

/// Validate a target identifier used in kill-window.
/// Format: `session:window` where window is a name or index.
pub fn validate_window_target(target: &str) -> (r: Result<(), ValidationError>)
    ensures
        outcome(r) == check_window_target(target@),
{
    validate_target_basics(target)?;
    proof {
        reveal_strlit(":");
        assert(":"@ =~= seq![':']);
    }
    match split_once_exec(target, ":") {
        None => Err(ValidationError::InvalidTarget { reason: owned("window target must be in format 'session:window'") }),
        Some((a, b)) => {
            if contains_exec(b.as_str(), ":") {
                Err(ValidationError::InvalidTarget { reason: owned("window target must be in format 'session:window'") })
            } else if a.as_str().is_empty() || b.as_str().is_empty() {
                Err(ValidationError::InvalidTarget { reason: owned("session and window parts must not be empty") })
            } else {
                Ok(())
            }
        },
    }
}

/// The session, window and pane parts of a pane target, when it has the shape
/// `session:window.pane`.
pub fn split_pane_target(target: &str) -> (r: Option<(String, String, String)>)
    ensures
        r matches Some((a, b, c)) ==> pane_parts(target@) == Some((a@, b@, c@)),
        r is None ==> pane_parts(target@) is None,
{
    proof {
        reveal_strlit(":");
        reveal_strlit(".");
        assert(":"@ =~= seq![':']);
        assert("."@ =~= seq!['.']);
    }
    match split_once_exec(target, ":") {
        None => None,
        Some((session, after)) => match split_once_exec(after.as_str(), ".") {
            None => None,
            Some((window, pane)) => Some((session, window, pane)),
        },
    }
}

/// Validate a target identifier used in kill-pane.
/// Format: `session:window.pane` where pane is an index.
pub fn validate_pane_target(target: &str) -> (r: Result<(), ValidationError>)
    ensures
        outcome(r) == check_pane_target(target@),
{
    validate_target_basics(target)?;
    match split_pane_target(target) {
        None => Err(ValidationError::InvalidTarget { reason: owned("pane target must be in format 'session:window.pane'") }),
        Some((session, window, pane)) => {
            if session.as_str().is_empty() || window.as_str().is_empty() || pane.as_str().is_empty() {
                Err(ValidationError::InvalidTarget { reason: owned("session, window, and pane parts must not be empty") })
            } else if !all_in_exec(pane.as_str(), CharClass::Digit) {
                Err(ValidationError::InvalidTarget { reason: owned("pane part must be a numeric index") })
            } else {
                Ok(())
            }
        },
    }
}

/// Validate a tmux option name.
/// Allowed: alphanumeric, hyphens, underscores. 1-128 chars.
pub fn validate_option_name(name: &str) -> (r: Result<(), ValidationError>)
    ensures
        outcome(r) == check_option_name(name@),
{
    if name.is_empty() {
        return Err(ValidationError::EmptyInput { field: "name" });
    }
    if name.len() > MAX_OPTION_NAME_LEN {
        return Err(
            ValidationError::InvalidOptionName { reason: too_long(MAX_OPTION_NAME_LEN, name.len()) },
        );
    }
    if !all_in_exec(name, CharClass::OptionName) {
        return Err(ValidationError::InvalidOptionName { reason: owned("must contain only alphanumeric characters, hyphens, or underscores") });
    }
    Ok(())
}

/// Validate a target for an option scope.
/// Global scope requires no target, session scope requires a session name,
/// window scope requires a window target (session:window).
pub fn validate_option_scope_target(scope: OptionScope, target: &str) -> (r: Result<(), ValidationError>)
    ensures
        outcome(r) == check_option_scope_target(scope, target@),
{
    match scope {
        OptionScope::Global => Ok(()),
        OptionScope::Session => validate_session_target(target),
        OptionScope::Window => validate_window_target(target),
    }
}

/// Validate a command string for safety.
/// Allowed: alphanumeric, spaces, hyphens, underscores, dots, forward slashes,
/// tildes, equals, colons, commas, plus, at signs. Rejects shell metacharacters.
pub fn validate_command(command: &str) -> (r: Result<(), ValidationError>)
    ensures
        outcome(r) == check_command(command@),
{
    if command.is_empty() {
        return Err(ValidationError::EmptyInput { field: "command" });
    }
    if command.len() > MAX_COMMAND_LEN {
        return Err(ValidationError::InvalidCommand { reason: too_long(MAX_COMMAND_LEN, command.len()) });
    }
    if !all_in_exec(command, CharClass::Command) {
        return Err(ValidationError::InvalidCommand { reason: owned("must not contain shell metacharacters (;|&`$(){}\\<>!\"'#*?\n etc.)") });
    }
    Ok(())
}

/// Validate an environment variable name.
/// Must start with a letter or underscore, then alphanumeric or underscores. 1-256 chars.
pub fn validate_env_var_name(name: &str) -> (r: Result<(), ValidationError>)
    ensures
        outcome(r) == check_env_var_name(name@),
{
    if name.is_empty() {
        return Err(ValidationError::EmptyInput { field: "name" });
    }
    if name.len() > MAX_ENV_VAR_NAME_LEN {
        return Err(
            ValidationError::InvalidEnvVarName { reason: too_long(MAX_ENV_VAR_NAME_LEN, name.len()) },
        );
    }
    let first = name.get_char(0);
    if !char_is_alpha(first) && first != '_' {
        return Err(ValidationError::InvalidEnvVarName { reason: owned("must start with a letter or underscore") });
    }
    if !all_in_exec(name, CharClass::Word) {
        return Err(ValidationError::InvalidEnvVarName { reason: owned("must contain only alphanumeric characters or underscores") });
    }
    Ok(())
}

/// Validate an environment variable value.
/// Must not contain null bytes. At most 4096 characters.
pub fn validate_env_var_value(value: &str) -> (r: Result<(), ValidationError>)
    ensures
        outcome(r) == check_env_var_value(value@),
{
    let n = chars_of(value).len();
    if n > MAX_ENV_VAR_VALUE_LEN {
        return Err(ValidationError::InvalidEnvVarValue { reason: too_long(MAX_ENV_VAR_VALUE_LEN, n) });
    }
    proof {
        reveal_strlit("\0");
        assert("\0"@ =~= seq!['\0']);
    }
    if contains_exec(value, "\0") {
        return Err(ValidationError::InvalidEnvVarValue { reason: owned("must not contain null bytes") });
    }
    Ok(())
}

/// Validate a working directory for a new session: not empty, no null byte.
pub fn validate_working_directory(dir: &str) -> (r: Result<(), ValidationError>)
    ensures
        outcome(r) == check_working_directory(dir@),
{
    if dir.is_empty() {
        return Err(ValidationError::EmptyInput { field: "working_directory" });
    }
    proof {
        reveal_strlit("\0");
        assert("\0"@ =~= seq!['\0']);
    }
    if contains_exec(dir, "\0") {
        return Err(ValidationError::InvalidWorkingDirectory { reason: owned("must not contain null bytes") });
    }
    Ok(())
}

/// Validate one argument of a command run without a shell: no null byte.
pub fn validate_command_arg(arg: &str) -> (r: Result<(), ValidationError>)
    ensures
        outcome(r) == check_command_arg(arg@),
{
    proof {
        reveal_strlit("\0");
        assert("\0"@ =~= seq!['\0']);
    }
    if contains_exec(arg, "\0") {
        return Err(ValidationError::InvalidCommand { reason: owned("must not contain null bytes") });
    }
    Ok(())
}

/// Validate a paste buffer name.
/// Allowed: alphanumeric, underscores. 1-128 chars.
pub fn validate_buffer_name(name: &str) -> (r: Result<(), ValidationError>)
    ensures
        outcome(r) == check_buffer_name(name@),
{
    if name.is_empty() {
        return Err(ValidationError::EmptyInput { field: "name" });
    }
    if name.len() > MAX_BUFFER_NAME_LEN {
        return Err(
            ValidationError::InvalidBufferName { reason: too_long(MAX_BUFFER_NAME_LEN, name.len()) },
        );
    }
    if !all_in_exec(name, CharClass::Word) {
        return Err(ValidationError::InvalidBufferName { reason: owned("must contain only alphanumeric characters or underscores") });
    }
    Ok(())
}

} // verus!

verus! {

/// A session name that `validate_session_name` accepts.
#[derive(Debug, PartialEq, Eq)]
pub struct SessionName {
    name: String,
}

impl View for SessionName {
    type V = Seq<char>;

    closed spec fn view(&self) -> Seq<char> {
        self.name@
    }
}

impl SessionName {
    #[verifier::type_invariant]
    closed spec fn inv(self) -> bool {
        check_session_name(self.name@) is Ok
    }

    /// A session name from text, when the text is a valid session name.
    pub fn try_from(s: &str) -> (r: Result<SessionName, ValidationError>)
        ensures
            r is Ok <==> check_session_name(s@) is Ok,
            r matches Ok(n) ==> n@ == s@,
            r matches Err(e) ==> Err::<(), ValidationErrorView>(e@) == check_session_name(s@),
    {
        match validate_session_name(s) {
            Ok(()) => Ok(SessionName { name: owned(s) }),
            Err(e) => Err(e),
        }
    }

    pub fn as_str(&self) -> (r: &str)
        ensures
            r@ == self@,
            check_session_name(r@) is Ok,
    {
        proof { use_type_invariant(self); }
        self.name.as_str()
    }
}

/// A window target `session:window` that `validate_window_target` accepts.
#[derive(Debug, PartialEq, Eq)]
pub struct WindowTarget {
    full: String,
    session: String,
    window: String,
}

impl View for WindowTarget {
    type V = Seq<char>;

    closed spec fn view(&self) -> Seq<char> {
        self.full@
    }
}

impl WindowTarget {
    #[verifier::type_invariant]
    closed spec fn inv(self) -> bool {
        &&& check_window_target(self.full@) is Ok
        &&& split_once(self.full@, seq![':']) == Some((self.session@, self.window@))
    }

    /// A window target from text, when the text is a valid window target.
    pub fn try_from(s: &str) -> (r: Result<WindowTarget, ValidationError>)
        ensures
            r is Ok <==> check_window_target(s@) is Ok,
            r matches Ok(t) ==> t@ == s@,
            r matches Err(e) ==> Err::<(), ValidationErrorView>(e@) == check_window_target(s@),
    {
        match validate_window_target(s) {
            Ok(()) => {
                proof {
                    reveal_strlit(":");
                    assert(":"@ =~= seq![':']);
                }
                match split_once_exec(s, ":") {
                    Some((session, window)) => Ok(
                        WindowTarget { full: owned(s), session, window },
                    ),
                    None => Err(ValidationError::InvalidTarget { reason: owned("window target must be in format 'session:window'") }),
                }
            },
            Err(e) => Err(e),
        }
    }

    pub fn as_str(&self) -> (r: &str)
        ensures
            r@ == self@,
            check_window_target(r@) is Ok,
    {
        proof { use_type_invariant(self); }
        self.full.as_str()
    }

    /// The session part, before the `':'`.
    pub fn session(&self) -> (r: &str)
        ensures
            split_once(self@, seq![':']) matches Some((a, _)) && r@ == a,
    {
        proof { use_type_invariant(self); }
        self.session.as_str()
    }

    /// The window part, after the `':'`.
    pub fn window(&self) -> (r: &str)
        ensures
            split_once(self@, seq![':']) matches Some((_, b)) && r@ == b,
    {
        proof { use_type_invariant(self); }
        self.window.as_str()
    }
}

/// A pane target `session:window.pane` that `validate_pane_target` accepts.
#[derive(Debug, PartialEq, Eq)]
pub struct PaneTarget {
    full: String,
    session: String,
    window: String,
    pane: String,
}

impl View for PaneTarget {
    type V = Seq<char>;

    closed spec fn view(&self) -> Seq<char> {
        self.full@
    }
}

impl PaneTarget {
    #[verifier::type_invariant]
    closed spec fn inv(self) -> bool {
        &&& check_pane_target(self.full@) is Ok
        &&& pane_parts(self.full@) == Some((self.session@, self.window@, self.pane@))
    }

    /// A pane target from text, when the text is a valid pane target.
    pub fn try_from(s: &str) -> (r: Result<PaneTarget, ValidationError>)
        ensures
            r is Ok <==> check_pane_target(s@) is Ok,
            r matches Ok(t) ==> t@ == s@,
            r matches Err(e) ==> Err::<(), ValidationErrorView>(e@) == check_pane_target(s@),
    {
        match validate_pane_target(s) {
            Ok(()) => match split_pane_target(s) {
                Some((session, window, pane)) => Ok(
                    PaneTarget { full: owned(s), session, window, pane },
                ),
                None => Err(ValidationError::InvalidTarget { reason: owned("pane target must be in format 'session:window.pane'") }),
            },
            Err(e) => Err(e),
        }
    }

    pub fn as_str(&self) -> (r: &str)
        ensures
            r@ == self@,
            check_pane_target(r@) is Ok,
    {
        proof { use_type_invariant(self); }
        self.full.as_str()
    }

    /// The session part, before the first `':'`.
    pub fn session(&self) -> (r: &str)
        ensures
            pane_parts(self@) matches Some((a, _, _)) && r@ == a,
    {
        proof { use_type_invariant(self); }
        self.session.as_str()
    }

    /// The window part, between the `':'` and the next `'.'`.
    pub fn window(&self) -> (r: &str)
        ensures
            pane_parts(self@) matches Some((_, b, _)) && r@ == b,
    {
        proof { use_type_invariant(self); }
        self.window.as_str()
    }

    /// The pane part, after that `'.'`.
    pub fn pane(&self) -> (r: &str)
        ensures
            pane_parts(self@) matches Some((_, _, c)) && r@ == c,
    {
        proof { use_type_invariant(self); }
        self.pane.as_str()
    }
}

impl Clone for SessionName {
    fn clone(&self) -> (r: Self)
        ensures
            r@ == self@,
    {
        proof { use_type_invariant(self); }
        SessionName { name: self.name.clone() }
    }
}

impl Clone for WindowTarget {
    fn clone(&self) -> (r: Self)
        ensures
            r@ == self@,
    {
        proof { use_type_invariant(self); }
        WindowTarget {
            full: self.full.clone(),
            session: self.session.clone(),
            window: self.window.clone(),
        }
    }
}

impl Clone for PaneTarget {
    fn clone(&self) -> (r: Self)
        ensures
            r@ == self@,
    {
        proof { use_type_invariant(self); }
        PaneTarget {
            full: self.full.clone(),
            session: self.session.clone(),
            window: self.window.clone(),
            pane: self.pane.clone(),
        }
    }
}

} // verus!

verus! {

/// The text a `ValidationError` displays.
pub open spec fn validation_message(e: ValidationErrorView) -> Seq<char> {
    match e {
        ValidationErrorView::EmptyInput { field } => field + " must not be empty"@,
        ValidationErrorView::InvalidSessionName { reason } => "invalid session name: "@ + reason,
        ValidationErrorView::InvalidWindowName { reason } => "invalid window name: "@ + reason,
        ValidationErrorView::InvalidTarget { reason } => "invalid target: "@ + reason,
        ValidationErrorView::InvalidOptionName { reason } => "invalid option name: "@ + reason,
        ValidationErrorView::InvalidCommand { reason } => "invalid command: "@ + reason,
        ValidationErrorView::InvalidEnvVarName { reason } =>
            "invalid environment variable name: "@ + reason,
        ValidationErrorView::InvalidEnvVarValue { reason } =>
            "invalid environment variable value: "@ + reason,
        ValidationErrorView::InvalidBufferName { reason } => "invalid buffer name: "@ + reason,
        ValidationErrorView::InvalidWorkingDirectory { reason } => "invalid working directory: "@
            + reason,
    }
}

impl ValidationError {
    /// The human-readable message of this error.
    pub fn to_string(&self) -> (s: String)
        ensures
            s@ == validation_message(self@),
    {
        match self {
            ValidationError::EmptyInput { field } => concat(field, " must not be empty"),
            ValidationError::InvalidSessionName { reason } => concat("invalid session name: ", reason.as_str()),
            ValidationError::InvalidWindowName { reason } => concat("invalid window name: ", reason.as_str()),
            ValidationError::InvalidTarget { reason } => concat("invalid target: ", reason.as_str()),
            ValidationError::InvalidOptionName { reason } => concat("invalid option name: ", reason.as_str()),
            ValidationError::InvalidCommand { reason } => concat("invalid command: ", reason.as_str()),
            ValidationError::InvalidEnvVarName { reason } => concat("invalid environment variable name: ", reason.as_str()),
            ValidationError::InvalidEnvVarValue { reason } => concat("invalid environment variable value: ", reason.as_str()),
            ValidationError::InvalidBufferName { reason } => concat("invalid buffer name: ", reason.as_str()),
            ValidationError::InvalidWorkingDirectory { reason } => concat("invalid working directory: ", reason.as_str()),
        }
    }
}

} // verus!

verus! {

/// The outcome of check `a` followed by check `b`: the first refusal, if any.
pub open spec fn both(a: Result<(), ValidationErrorView>, b: Result<(), ValidationErrorView>) -> Result<
    (),
    ValidationErrorView,
> {
    match a {
        Err(e) => Err(e),
        Ok(()) => b,
    }
}

} // verus!
