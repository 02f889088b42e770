//! Errors of the library, each with its message text.

use vstd::prelude::*;

verus! {

/// What went wrong, by area.
#[derive(Debug, Clone, PartialEq, Eq)]
pub enum FnsError {
    /// Configuration error.
    Config { message: String },
    /// Input/output error.
    Io { message: String },
    /// WebSocket error.
    WebSocket { message: String },
    /// Protocol error.
    Protocol { message: String },
    /// Sync error.
    Sync { message: String },
    /// HTTP error.
    Http { message: String },
    /// JSON error.
    Json { message: String },
    /// YAML error.
    Yaml { message: String },
    /// File watcher error.
    Watcher { message: String },
}

} // verus!
