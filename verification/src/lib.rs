//! Client-side bridge to a long-lived external language-analysis process.
//!
//! The crate models one analyzer session: it frames and parses the
//! length-prefixed protocol the process speaks, correlates requests with
//! responses, tracks the open-document set and cached diagnostics, and
//! dispatches an open set of named commands as ordered protocol exchanges.
//! Process I/O itself stays outside; callers hand the session raw payloads
//! and write out the frames it queues.

pub mod args;
pub mod commands;
pub mod correlator;
pub mod errors;
pub mod framing;
pub mod message;
pub mod registry;
pub mod session;
pub mod state;
pub mod types;
pub mod wire;

pub use errors::{ErrorKind, SessionError};
pub use session::{CmdOutcome, FeedOutcome, Session, Submitted};
