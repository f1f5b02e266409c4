//! The outcome of running tmux, and the executor configuration.

use std::path::PathBuf;

use vstd::prelude::*;

use crate::error::{classified, lowercase, TmuxError, TmuxErrorView};
use crate::text::{parse_u64, parse_unsigned};

verus! {

#[verifier::external_type_specification]
#[verifier::external_body]
pub struct ExPathBuf(PathBuf);

/// What one tmux invocation printed, and whether it exited successfully.
#[derive(Debug, Clone)]
pub struct TmuxOutput {
    pub stdout: String,
    pub stderr: String,
    pub success: bool,
}

/// The error a failed invocation of `command` on `target` reports.
pub open spec fn failure(o: TmuxOutput, command: Seq<char>, target: Seq<char>) -> TmuxErrorView {
    classified(command, o.stderr@, lowercase(o.stderr@), target)
}

impl TmuxOutput {
    /// `Ok` when tmux succeeded, else the error its stderr describes.
    pub fn check(&self, command: &str, target: &str) -> (r: Result<(), TmuxError>)
        ensures
            r is Ok <==> self.success,
            r matches Err(e) ==> e@ == failure(*self, command@, target@),
    {
        if self.success {
            Ok(())
        } else {
            Err(TmuxError::from_stderr(command, self.stderr.as_str(), target))
        }
    }
}

/// Executor that spawns real `tmux` processes.
///
/// By default connects to the system-default tmux server socket.
/// Use [`RealTmuxExecutor::with_socket`] to target a specific server instance.
#[derive(Debug, Clone)]
pub struct RealTmuxExecutor {
    pub socket_path: Option<PathBuf>,
}

impl RealTmuxExecutor {
    /// Create an executor that uses the default tmux server socket.
    pub fn new() -> (e: RealTmuxExecutor)
        ensures
            e.socket_path is None,
    {
        RealTmuxExecutor { socket_path: None }
    }

    /// Create an executor that targets a specific tmux server socket.
    pub fn with_socket(path: PathBuf) -> (e: RealTmuxExecutor)
        ensures
            e.socket_path == Some(path),
    {
        RealTmuxExecutor { socket_path: Some(path) }
    }
}

impl Default for RealTmuxExecutor {
    fn default() -> (e: RealTmuxExecutor)
        ensures
            e.socket_path is None,
    {
        RealTmuxExecutor::new()
    }
}

/// Seconds a tmux command may run when no timeout is configured.
pub const DEFAULT_TIMEOUT_SECS: u64 = 30;

/// The command timeout in seconds, from the configured text (the value of
/// `TMUX_COMMAND_TIMEOUT_SECS`, when set): its value when it parses as a
/// `u64`, else the default of 30 seconds.
pub fn timeout_secs(configured: Option<&str>) -> (secs: u64)
    ensures
        secs == match configured {
            Some(text) => match parse_unsigned(text@, u64::MAX as nat) {
                Ok(n) => n as u64,
                Err(_) => DEFAULT_TIMEOUT_SECS,
            },
            None => DEFAULT_TIMEOUT_SECS,
        },
{
    match configured {
        Some(text) => match parse_u64(text) {
            Ok(n) => n,
            Err(_) => DEFAULT_TIMEOUT_SECS,
        },
        None => DEFAULT_TIMEOUT_SECS,
    }
}

} // verus!
