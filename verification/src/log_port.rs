//! The logging port of domain operations.

use vstd::prelude::*;

verus! {

/// Log level for domain-level structured logging.
#[derive(Clone, Copy, Debug, PartialEq, Eq)]
pub enum LogLevel {
    Debug,
    Info,
    Warn,
    Error,
}

/// A port for structured operation-level logging in the domain layer.
///
/// The domain defines the logging interface, and the imperative shell
/// provides the concrete implementation. Object-safe: usable as `&dyn LogPort`.
pub trait LogPort: Send + Sync {
    /// Log a message for a domain operation.
    fn log(&self, level: LogLevel, operation: &str, message: &str);

    /// Log a message for a domain operation targeting a specific resource.
    fn log_with_target(&self, level: LogLevel, operation: &str, target: &str, message: &str);
}

/// No-op implementation for testing and when logging is disabled.
pub struct NoopLog;

impl LogPort for NoopLog {
    fn log(&self, level: LogLevel, operation: &str, message: &str) {
    }

    fn log_with_target(&self, level: LogLevel, operation: &str, target: &str, message: &str) {
    }
}

} // verus!
