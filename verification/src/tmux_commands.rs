//! Builders for the single-invocation tmux commands: sessions, windows and
//! panes created, killed, renamed, selected, moved, resized and respawned.

use vstd::prelude::*;

use crate::command_spec::{string_views, ArgList, TmuxCommandSpec};
use crate::list_panes::list_panes_format;
use crate::list_windows::list_windows_format;
use crate::text::{dec, owned, u64_to_string};
use crate::validation::{
    check_command, check_command_arg, check_window_name, check_window_target,
    check_working_directory, outcome, validate_command, validate_command_arg,
    validate_window_name, validate_window_target, validate_working_directory, PaneTarget, SessionName, ValidationError,
    ValidationErrorView, WindowTarget, both,
};

verus! {

/// The command argument, when one is given.
pub open spec fn opt_arg(x: Option<&str>) -> Seq<Seq<char>> {
    match x {
        Some(c) => seq![c@],
        None => Seq::empty(),
    }
}

/// A flag and its value, when the value is given.
pub open spec fn opt_flag(flag: Seq<char>, x: Option<&str>) -> Seq<Seq<char>> {
    match x {
        Some(c) => seq![flag, c@],
        None => Seq::empty(),
    }
}

/// The check of an optional command.
pub open spec fn check_opt_command(c: Option<&str>) -> Result<(), ValidationErrorView> {
    match c {
        Some(c) => check_command(c@),
        None => Ok(()),
    }
}

fn push_opt(a: &mut ArgList, x: Option<&str>)
    ensures
        string_views(final(a).args@) == string_views(old(a).args@) + opt_arg(x),
{
    if let Some(c) = x {
        a.push(c);
    }
    assert(string_views(a.args@) =~= string_views(old(a).args@) + opt_arg(x));
}

fn push_opt_flag(a: &mut ArgList, flag: &str, x: Option<&str>)
    ensures
        string_views(final(a).args@) == string_views(old(a).args@) + opt_flag(flag@, x),
{
    if let Some(c) = x {
        a.push(flag);
        a.push(c);
    }
    assert(string_views(a.args@) =~= string_views(old(a).args@) + opt_flag(flag@, x));
}

/// Validate an optional command.
pub fn validate_opt_command(c: Option<&str>) -> (r: Result<(), ValidationError>)
    ensures
        r is Ok <==> check_opt_command(c) is Ok,
        r matches Err(x) ==> check_opt_command(c) == Err::<(), ValidationErrorView>(x@),
{
    match c {
        Some(c) => validate_command(c),
        None => Ok(()),
    }
}

fn pair(a: &str, b: &str, c: &str) -> (s: TmuxCommandSpec)
    ensures
        s@ == seq![a@, b@, c@],
{
    let mut l = ArgList::new();
    l.push(a);
    l.push(b);
    l.push(c);
    l.build()
}

/// `has-session -t SESSION`.
pub fn build_has_session_command(target: &SessionName) -> (c: TmuxCommandSpec)
    ensures
        c@ == seq!["has-session"@, "-t"@, target@],
{
    pair("has-session", "-t", target.as_str())
}

/// `kill-session -t SESSION`.
pub fn build_kill_session_command(target: &SessionName) -> (c: TmuxCommandSpec)
    ensures
        c@ == seq!["kill-session"@, "-t"@, target@],
{
    pair("kill-session", "-t", target.as_str())
}

/// `kill-window -t TARGET`.
pub fn build_kill_window_command(target: &WindowTarget) -> (c: TmuxCommandSpec)
    ensures
        c@ == seq!["kill-window"@, "-t"@, target@],
{
    pair("kill-window", "-t", target.as_str())
}

/// `kill-window -t TARGET`, once `target` is a valid window target.
pub fn plan_kill_window(target: &str) -> (r: Result<TmuxCommandSpec, ValidationError>)
    ensures
        r is Ok <==> check_window_target(target@) is Ok,
        r matches Err(x) ==> check_window_target(target@) == Err::<(), ValidationErrorView>(x@),
        r matches Ok(c) ==> c@ == seq!["kill-window"@, "-t"@, target@],
{
    match validate_window_target(target) {
        Err(e) => Err(e),
        Ok(()) => Ok(pair("kill-window", "-t", target)),
    }
}

/// Pure: build the tmux command specification for killing a pane.
pub fn build_kill_pane_command(target: &PaneTarget) -> (c: TmuxCommandSpec)
    ensures
        c@ == seq!["kill-pane"@, "-t"@, target@],
{
    pair("kill-pane", "-t", target.as_str())
}

/// `kill-server`.
pub fn build_kill_server_command() -> (c: TmuxCommandSpec)
    ensures
        c@ == seq!["kill-server"@],
{
    let mut a = ArgList::new();
    a.push("kill-server");
    a.build()
}

/// `select-pane -t TARGET`.
pub fn build_select_pane_command(target: &PaneTarget) -> (c: TmuxCommandSpec)
    ensures
        c@ == seq!["select-pane"@, "-t"@, target@],
{
    pair("select-pane", "-t", target.as_str())
}

/// Pure: build the tmux command specification for selecting a window.
pub fn build_select_window_command(target: &WindowTarget) -> (c: TmuxCommandSpec)
    ensures
        c@ == seq!["select-window"@, "-t"@, target@],
{
    pair("select-window", "-t", target.as_str())
}

fn source_target(cmd: &str, src: &str, dst: &str) -> (c: TmuxCommandSpec)
    ensures
        c@ == seq![cmd@, "-s"@, src@, "-t"@, dst@],
{
    let mut a = ArgList::new();
    a.push(cmd);
    a.push("-s");
    a.push(src);
    a.push("-t");
    a.push(dst);
    a.build()
}

/// `swap-pane -s SRC -t DST`.
pub fn build_swap_panes_command(src: &PaneTarget, dst: &PaneTarget) -> (c: TmuxCommandSpec)
    ensures
        c@ == seq!["swap-pane"@, "-s"@, src@, "-t"@, dst@],
{
    source_target("swap-pane", src.as_str(), dst.as_str())
}

/// `swap-window -s SRC -t DST`.
pub fn build_swap_window_command(src: &WindowTarget, dst: &WindowTarget) -> (c: TmuxCommandSpec)
    ensures
        c@ == seq!["swap-window"@, "-s"@, src@, "-t"@, dst@],
{
    source_target("swap-window", src.as_str(), dst.as_str())
}

/// Pure: build the tmux command specification for moving a window.
pub fn build_move_window_command(source: &WindowTarget, destination_session: &SessionName) -> (c:
    TmuxCommandSpec)
    ensures
        c@ == seq!["move-window"@, "-s"@, source@, "-t"@, destination_session@],
{
    source_target("move-window", source.as_str(), destination_session.as_str())
}

/// `rename-session -t TARGET NEW_NAME`.
pub fn build_rename_session_command(target: &SessionName, new_name: &SessionName) -> (c:
    TmuxCommandSpec)
    ensures
        c@ == seq!["rename-session"@, "-t"@, target@, new_name@],
{
    let mut a = ArgList::new();
    a.push("rename-session");
    a.push("-t");
    a.push(target.as_str());
    a.push(new_name.as_str());
    a.build()
}

/// `rename-window -t TARGET NEW_NAME`.
pub fn build_rename_window_command(target: &WindowTarget, new_name: &str) -> (c: TmuxCommandSpec)
    ensures
        c@ == seq!["rename-window"@, "-t"@, target@, new_name@],
{
    let mut a = ArgList::new();
    a.push("rename-window");
    a.push("-t");
    a.push(target.as_str());
    a.push(new_name);
    a.build()
}

/// `rename-window -t TARGET NEW_NAME`, once `new_name` is a valid window name.
pub fn plan_rename_window(target: &WindowTarget, new_name: &str) -> (r: Result<
    TmuxCommandSpec,
    ValidationError,
>)
    ensures
        r is Ok <==> check_window_name(new_name@) is Ok,
        r matches Err(x) ==> check_window_name(new_name@) == Err::<(), ValidationErrorView>(x@),
        r matches Ok(c) ==> c@ == seq!["rename-window"@, "-t"@, target@, new_name@],
{
    match validate_window_name(new_name) {
        Err(e) => Err(e),
        Ok(()) => Ok(build_rename_window_command(target, new_name)),
    }
}

pub open spec fn new_session_format() -> Seq<char> {
    "#{session_id}\t#{session_name}\t#{session_windows}\t#{session_created}\t#{session_attached}"@
}

fn push_print_format(a: &mut ArgList, format: &str)
    ensures
        string_views(final(a).args@) == string_views(old(a).args@) + seq!["-P"@, "-F"@, format@],
{
    a.push("-P");
    a.push("-F");
    a.push(format);
    assert(string_views(a.args@) =~= string_views(old(a).args@) + seq!["-P"@, "-F"@, format@]);
}

/// Pure: build the tmux command specification for creating a new session.
pub fn build_new_session_command(
    name: &SessionName,
    command: Option<&str>,
    working_directory: Option<&str>,
) -> (c: TmuxCommandSpec)
    ensures
        c@ == seq!["new-session"@, "-d"@, "-s"@, name@] + opt_flag("-c"@, working_directory)
            + opt_arg(command) + seq!["-P"@, "-F"@, new_session_format()],
{
    let mut a = ArgList::new();
    a.push("new-session");
    a.push("-d");
    a.push("-s");
    a.push(name.as_str());
    push_opt_flag(&mut a, "-c", working_directory);
    push_opt(&mut a, command);
    push_print_format(&mut a, "#{session_id}\t#{session_name}\t#{session_windows}\t#{session_created}\t#{session_attached}");
    a.build()
}

/// Pure: build the tmux command specification for creating a new session
/// with a multi-arg command (direct exec, no shell interpretation).
pub fn build_new_session_command_with_args(
    name: &SessionName,
    command_args: &[&str],
    working_directory: Option<&str>,
) -> (c: TmuxCommandSpec)
    ensures
        c@ == seq!["new-session"@, "-d"@, "-s"@, name@] + opt_flag("-c"@, working_directory)
            + seq!["-P"@, "-F"@, new_session_format()] + command_args@.map_values(|x: &str| x@),
{
    let mut a = ArgList::new();
    a.push("new-session");
    a.push("-d");
    a.push("-s");
    a.push(name.as_str());
    push_opt_flag(&mut a, "-c", working_directory);
    push_print_format(&mut a, "#{session_id}\t#{session_name}\t#{session_windows}\t#{session_created}\t#{session_attached}");
    let ghost base = string_views(a.args@);
    let mut i: usize = 0;
    while i < command_args.len()
        invariant
            i <= command_args@.len(),
            string_views(a.args@) == base + command_args@.map_values(|x: &str| x@).take(i as int),
        decreases command_args@.len() - i,
    {
        a.push(command_args[i]);
        i += 1;
        assert(command_args@.map_values(|x: &str| x@).take(i as int) =~= command_args@.map_values(
            |x: &str| x@,
        ).take(i - 1).push(command_args@[i - 1]@));
    }
    assert(command_args@.map_values(|x: &str| x@).take(i as int) =~= command_args@.map_values(
        |x: &str| x@,
    ));
    a.build()
}

/// The check of an optional working directory.
pub open spec fn check_opt_working_directory(d: Option<&str>) -> Result<(), ValidationErrorView> {
    match d {
        Some(d) => check_working_directory(d@),
        None => Ok(()),
    }
}

/// The checks of command arguments, in order: the first refusal, if any.
pub open spec fn command_args_checks(args: Seq<Seq<char>>) -> Result<(), ValidationErrorView>
    decreases args.len(),
{
    if args.len() == 0 {
        Ok(())
    } else {
        both(command_args_checks(args.drop_last()), check_command_arg(args.last()))
    }
}

fn validate_opt_working_directory(d: Option<&str>) -> (r: Result<(), ValidationError>)
    ensures
        outcome(r) == check_opt_working_directory(d),
{
    match d {
        Some(d) => validate_working_directory(d),
        None => Ok(()),
    }
}

proof fn lemma_args_checks_prefix(args: Seq<Seq<char>>, k: int)
    requires
        0 <= k <= args.len(),
        command_args_checks(args.take(k)) is Err,
    ensures
        command_args_checks(args) == command_args_checks(args.take(k)),
    decreases args.len() - k,
{
    if k < args.len() {
        assert(args.take(k + 1).drop_last() =~= args.take(k));
        lemma_args_checks_prefix(args, k + 1);
    } else {
        assert(args.take(k) =~= args);
    }
}

/// `new-session` for `name`, once the command and the working directory (in
/// that order) pass their checks.
pub fn plan_new_session(
    name: &SessionName,
    command: Option<&str>,
    working_directory: Option<&str>,
) -> (r: Result<TmuxCommandSpec, ValidationError>)
    ensures
        r is Ok <==> both(check_opt_command(command), check_opt_working_directory(working_directory)) is Ok,
        r matches Err(x) ==> both(check_opt_command(command), check_opt_working_directory(working_directory))
            == Err::<(), ValidationErrorView>(x@),
        r matches Ok(c) ==> c@ == seq!["new-session"@, "-d"@, "-s"@, name@] + opt_flag("-c"@, working_directory)
            + opt_arg(command) + seq!["-P"@, "-F"@, new_session_format()],
{
    if let Err(e) = validate_opt_command(command) {
        return Err(e);
    }
    if let Err(e) = validate_opt_working_directory(working_directory) {
        return Err(e);
    }
    Ok(build_new_session_command(name, command, working_directory))
}

/// `new-session` for `name` running `command_args` directly, once each
/// argument (in order) and then the working directory pass their checks.
pub fn plan_new_session_with_args(
    name: &SessionName,
    command_args: &[&str],
    working_directory: Option<&str>,
) -> (r: Result<TmuxCommandSpec, ValidationError>)
    ensures
        ({
            let checks = both(
                command_args_checks(command_args@.map_values(|x: &str| x@)),
                check_opt_working_directory(working_directory),
            );
            &&& (r is Ok <==> checks is Ok)
            &&& (r matches Err(x) ==> checks == Err::<(), ValidationErrorView>(x@))
            &&& (r matches Ok(c) ==> c@ == seq!["new-session"@, "-d"@, "-s"@, name@] + opt_flag(
                "-c"@,
                working_directory,
            ) + seq!["-P"@, "-F"@, new_session_format()] + command_args@.map_values(|x: &str| x@))
        }),
{
    let ghost av = command_args@.map_values(|x: &str| x@);
    let mut i: usize = 0;
    assert(av.take(0) =~= Seq::<Seq<char>>::empty());
    while i < command_args.len()
        invariant
            i <= command_args@.len(),
            av == command_args@.map_values(|x: &str| x@),
            av.len() == command_args@.len(),
            command_args_checks(av.take(i as int)) is Ok,
        decreases command_args@.len() - i,
    {
        assert(av.take(i + 1).drop_last() =~= av.take(i as int));
        assert(av.take(i + 1).last() == command_args@[i as int]@);
        let r = validate_command_arg(command_args[i]);
        if let Err(e) = r {
            proof {
                assert(command_args_checks(av.take(i + 1)) == Err::<(), ValidationErrorView>(e@));
                lemma_args_checks_prefix(av, i + 1);
            }
            return Err(e);
        }
        i += 1;
    }
    assert(av.take(i as int) =~= av);
    if let Err(e) = validate_opt_working_directory(working_directory) {
        return Err(e);
    }
    Ok(build_new_session_command_with_args(name, command_args, working_directory))
}

/// `new-window -d -t SESSION -n NAME [COMMAND] -P -F FORMAT`.
pub fn build_new_window_command(session: &SessionName, name: &str, command: Option<&str>) -> (c:
    TmuxCommandSpec)
    ensures
        c@ == seq!["new-window"@, "-d"@, "-t"@, session@, "-n"@, name@] + opt_arg(command) + seq![
            "-P"@,
            "-F"@,
            list_windows_format(),
        ],
{
    let mut a = ArgList::new();
    a.push("new-window");
    a.push("-d");
    a.push("-t");
    a.push(session.as_str());
    a.push("-n");
    a.push(name);
    push_opt(&mut a, command);
    push_print_format(&mut a, "#{window_id}\t#{window_index}\t#{window_name}\t#{window_panes}\t#{window_active}");
    a.build()
}

/// `new-window ...`, once the window name and command are valid.
pub fn plan_new_window(session: &SessionName, name: &str, command: Option<&str>) -> (r: Result<
    TmuxCommandSpec,
    ValidationError,
>)
    ensures
        r is Ok <==> both(check_window_name(name@), check_opt_command(command)) is Ok,
        r matches Err(x) ==> both(check_window_name(name@), check_opt_command(command)) == Err::<
            (),
            ValidationErrorView,
        >(x@),
        r matches Ok(c) ==> c@ == seq!["new-window"@, "-d"@, "-t"@, session@, "-n"@, name@]
            + opt_arg(command) + seq!["-P"@, "-F"@, list_windows_format()],
{
    if let Err(e) = validate_window_name(name) {
        return Err(e);
    }
    if let Err(e) = validate_opt_command(command) {
        return Err(e);
    }
    Ok(build_new_window_command(session, name, command))
}

/// Pure: build the tmux command specification for splitting a window.
pub fn build_split_window_command(target: &PaneTarget, horizontal: bool, command: Option<&str>) -> (c:
    TmuxCommandSpec)
    ensures
        c@ == seq![
            "split-window"@,
            "-d"@,
            if horizontal {
                "-h"@
            } else {
                "-v"@
            },
            "-t"@,
            target@,
        ] + opt_arg(command) + seq!["-P"@, "-F"@, list_panes_format()],
{
    let mut a = ArgList::new();
    a.push("split-window");
    a.push("-d");
    a.push(if horizontal { "-h" } else { "-v" });
    a.push("-t");
    a.push(target.as_str());
    push_opt(&mut a, command);
    push_print_format(&mut a, "#{pane_id}\t#{pane_width}\t#{pane_height}\t#{pane_active}\t#{pane_current_path}\t#{pane_current_command}\t#{pane_pid}");
    a.build()
}

fn respawn_command(cmd: &str, target: &str, command: Option<&str>, kill_existing: bool) -> (c:
    TmuxCommandSpec)
    ensures
        c@ == seq![cmd@] + (if kill_existing {
            seq!["-k"@]
        } else {
            Seq::empty()
        }) + seq!["-t"@, target@] + opt_arg(command),
{
    let mut a = ArgList::new();
    a.push(cmd);
    if kill_existing {
        a.push("-k");
    }
    let ghost base = string_views(a.args@);
    a.push("-t");
    a.push(target);
    push_opt(&mut a, command);
    assert(string_views(a.args@) =~= base + seq!["-t"@, target@] + opt_arg(command));
    a.build()
}

/// Pure: build the tmux command specification for respawning a pane.
pub fn build_respawn_pane_command(target: &PaneTarget, command: Option<&str>, kill_existing: bool) -> (c:
    TmuxCommandSpec)
    ensures
        c@ == seq!["respawn-pane"@] + (if kill_existing {
            seq!["-k"@]
        } else {
            Seq::empty()
        }) + seq!["-t"@, target@] + opt_arg(command),
{
    respawn_command("respawn-pane", target.as_str(), command, kill_existing)
}

/// `respawn-window [-k] -t TARGET [COMMAND]`.
pub fn build_respawn_window_command(target: &WindowTarget, command: Option<&str>, kill_existing: bool) -> (c:
    TmuxCommandSpec)
    ensures
        c@ == seq!["respawn-window"@] + (if kill_existing {
            seq!["-k"@]
        } else {
            Seq::empty()
        }) + seq!["-t"@, target@] + opt_arg(command),
{
    respawn_command("respawn-window", target.as_str(), command, kill_existing)
}

/// `send-keys -t TARGET KEYS...`.
pub fn build_send_keys_command(target: &PaneTarget, keys: &[String]) -> (c: TmuxCommandSpec)
    ensures
        c@ == seq!["send-keys"@, "-t"@, target@] + keys@.map_values(|k: String| k@),
{
    let mut a = ArgList::new();
    a.push("send-keys");
    a.push("-t");
    a.push(target.as_str());
    let ghost base = string_views(a.args@);
    let mut i: usize = 0;
    while i < keys.len()
        invariant
            i <= keys@.len(),
            string_views(a.args@) == base + keys@.map_values(|k: String| k@).take(i as int),
        decreases keys@.len() - i,
    {
        a.push(keys[i].as_str());
        i += 1;
        assert(keys@.map_values(|k: String| k@).take(i as int) =~= keys@.map_values(
            |k: String| k@,
        ).take(i - 1).push(keys@[i - 1]@));
    }
    assert(keys@.map_values(|k: String| k@).take(i as int) =~= keys@.map_values(|k: String| k@));
    a.build()
}

/// `send-keys ...`, refused when there are no keys to send.
pub fn plan_send_keys(target: &PaneTarget, keys: &[String]) -> (r: Result<
    TmuxCommandSpec,
    ValidationError,
>)
    ensures
        r is Ok <==> keys@.len() > 0,
        r matches Err(x) ==> x@ == (ValidationErrorView::EmptyInput { field: "keys"@ }),
        r matches Ok(c) ==> c@ == seq!["send-keys"@, "-t"@, target@] + keys@.map_values(
            |k: String| k@,
        ),
{
    if keys.len() == 0 {
        return Err(ValidationError::EmptyInput { field: "keys" });
    }
    Ok(build_send_keys_command(target, keys))
}

/// Direction (and amount) by which to resize a pane.
#[derive(Debug, Clone, Copy, PartialEq, Eq)]
pub enum ResizeDirection {
    Up(u32),
    Down(u32),
    Left(u32),
    Right(u32),
}

impl ResizeDirection {
    pub open spec fn flag(&self) -> Seq<char> {
        match self {
            ResizeDirection::Up(_) => "-U"@,
            ResizeDirection::Down(_) => "-D"@,
            ResizeDirection::Left(_) => "-L"@,
            ResizeDirection::Right(_) => "-R"@,
        }
    }

    pub open spec fn amount(&self) -> u32 {
        match self {
            ResizeDirection::Up(n) => *n,
            ResizeDirection::Down(n) => *n,
            ResizeDirection::Left(n) => *n,
            ResizeDirection::Right(n) => *n,
        }
    }
}

/// Pure: build the tmux command specification for resizing a pane.
pub fn build_resize_pane_command(target: &PaneTarget, direction: ResizeDirection) -> (c:
    TmuxCommandSpec)
    ensures
        c@ == seq![
            "resize-pane"@,
            direction.flag(),
            "-t"@,
            target@,
            dec(direction.amount() as nat),
        ],
{
    let (flag, amount) = match direction {
        ResizeDirection::Up(n) => ("-U", n),
        ResizeDirection::Down(n) => ("-D", n),
        ResizeDirection::Left(n) => ("-L", n),
        ResizeDirection::Right(n) => ("-R", n),
    };
    let amount_text = u64_to_string(amount as u64);
    let mut a = ArgList::new();
    a.push("resize-pane");
    a.push(flag);
    a.push("-t");
    a.push(target.as_str());
    a.push(amount_text.as_str());
    a.build()
}

/// Layout presets supported by tmux `select-layout`.
#[derive(Debug, Clone, PartialEq, Eq)]
pub enum PaneLayout {
    EvenHorizontal,
    EvenVertical,
    MainHorizontal,
    MainVertical,
    Tiled,
    Custom(String),
}

impl PaneLayout {
    pub open spec fn arg(&self) -> Seq<char> {
        match self {
            PaneLayout::EvenHorizontal => "even-horizontal"@,
            PaneLayout::EvenVertical => "even-vertical"@,
            PaneLayout::MainHorizontal => "main-horizontal"@,
            PaneLayout::MainVertical => "main-vertical"@,
            PaneLayout::Tiled => "tiled"@,
            PaneLayout::Custom(s) => s@,
        }
    }

    /// Returns the tmux layout string passed to `select-layout`.
    pub fn as_tmux_arg(&self) -> (s: &str)
        ensures
            s@ == self.arg(),
    {
        match self {
            PaneLayout::EvenHorizontal => "even-horizontal",
            PaneLayout::EvenVertical => "even-vertical",
            PaneLayout::MainHorizontal => "main-horizontal",
            PaneLayout::MainVertical => "main-vertical",
            PaneLayout::Tiled => "tiled",
            PaneLayout::Custom(s) => s.as_str(),
        }
    }
}

/// Pure: build the tmux command specification for selecting a layout.
pub fn build_select_layout_command(target: &WindowTarget, layout: &PaneLayout) -> (c:
    TmuxCommandSpec)
    ensures
        c@ == seq!["select-layout"@, "-t"@, target@, layout.arg()],
{
    let mut a = ArgList::new();
    a.push("select-layout");
    a.push("-t");
    a.push(target.as_str());
    a.push(layout.as_tmux_arg());
    a.build()
}

} // verus!
