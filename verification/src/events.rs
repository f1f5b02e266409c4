//! Domain events emitted by tmux operations.

use vstd::prelude::*;

verus! {

/// Domain events emitted by tmux operations.
///
/// Pure domain values with no transport or serialization concerns: API
/// layers subscribe and forward them over their own transport.
#[derive(Debug, Clone, PartialEq, Eq)]
pub enum TmuxEvent {
    SessionCreated { name: String },
    SessionKilled { name: String },
    WindowCreated { session: String, name: String },
    WindowKilled { target: String },
    PaneCreated { target: String },
    PaneKilled { target: String },
    KeysSent { target: String },
    SessionRenamed { old_name: String, new_name: String },
    WindowRenamed { target: String, new_name: String },
}

} // verus!
