//! The error taxonomy of the session.

use vstd::prelude::*;

verus! {

/// Why a command or a session operation failed.
///
/// Startup failures (`ProcessSpawn`, `DuplicateCommand`) are fatal to
/// session creation; the per-command kinds are returned to the caller and
/// never terminate the session; `SessionTerminated` marks the session
/// failed until it is restarted.
#[derive(Clone, Copy, Debug, PartialEq, Eq, Structural)]
pub enum ErrorKind {
    /// The external process could not be spawned.
    ProcessSpawn,
    /// The process exited or its stream closed while work was outstanding.
    SessionTerminated,
    /// A message failed framing or structural decoding.
    MalformedMessage,
    /// No response arrived within the command's bounded wait.
    RequestTimeout,
    /// The submitted command name is not registered.
    UnknownCommand,
    /// The argument map does not satisfy the command's schema.
    InvalidArguments,
    /// A second command was registered under an existing name.
    DuplicateCommand,
    /// The external process explicitly returned an error for a request.
    AnalyzerReported,
}

/// A failure as handed back to the caller of a command: its kind, and a
/// short description the outer layer may render.
#[derive(Clone, Debug)]
pub struct SessionError {
    pub kind: ErrorKind,
    pub message: String,
}

} // verus!
