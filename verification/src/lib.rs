//! Verified core of a gateway onto local tmux sessions: input validation,
//! tmux command construction, and parsing/interpretation of tmux output.

pub mod buffers;
pub mod capture_pane;
pub mod command_spec;
pub mod environment;
pub mod error;
pub mod events;
pub mod executor;
pub mod health;
pub mod list_panes;
pub mod list_windows;
pub mod log_port;
pub mod options;
pub mod outcomes;
pub mod pagination;
pub mod server_info;
pub mod session_detail;
pub mod session_spec;
pub mod sessions;
pub mod show_messages;
pub mod text;
pub mod tmux_commands;
pub mod validation;
