//! The error taxonomy of the session library.

use vstd::prelude::*;

verus! {

/// Which of a session's streams a value belongs to.
///
/// `Stdin`, `Stdout` and `Stderr` are the child's three piped streams;
/// `ProcessError` tags the synthetic output emitted when waiting for the
/// child's exit itself fails.
#[derive(Clone, Copy, Debug, PartialEq, Eq, Structural)]
pub enum StreamKind {
    Stdin,
    Stdout,
    Stderr,
    ProcessError,
}

/// Everything a session operation can fail with.
#[derive(Debug)]
pub enum SessionError {
    /// The identifier names no stored configuration.
    ConfigNotFound,
    /// The identifier names no live session process.
    ProcessNotRunning,
    /// The child could not be spawned; carries the reason.
    SpawnFailure(String),
    /// An I/O operation on the named stream failed; carries the reason.
    IoFailure(StreamKind, String),
    /// The working directory for the child could not be entered.
    DirectoryChangeFailure,
}

} // verus!
