//! The tmux server's version and whether it answers.

use vstd::prelude::*;

use crate::text::{trim, trim_exec};

verus! {

/// The tmux version string and whether tmux is reachable.
#[derive(Debug, Clone, PartialEq, Eq)]
pub struct TmuxServerInfo {
    pub version: String,
    pub running: bool,
}

/// What `tmux -V` tells of the server: when tmux ran (`ran`) and exited
/// successfully, it is running and its version is the trimmed output;
/// otherwise it is not running and the version is empty.
pub fn server_info_from_version(ran: bool, success: bool, stdout: &str) -> (info: TmuxServerInfo)
    ensures
        info.running == (ran && success),
        info.version@ == if ran && success {
            trim(stdout@)
        } else {
            Seq::<char>::empty()
        },
{
    if ran && success {
        TmuxServerInfo { version: trim_exec(stdout), running: true }
    } else {
        TmuxServerInfo { version: String::new(), running: false }
    }
}

} // verus!
