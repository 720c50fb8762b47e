//! The failure taxonomy of the execution core.
//!
//! Ordinary failures cross the task boundary as [`Error`] values and are
//! turned into structured error responses for the caller. Invoking a handler
//! in a mode it does not support is not an ordinary failure but a defect in
//! the dispatch table itself; it is kept apart as a [`Fault`] so that it can
//! never be mistaken for a recoverable condition.

use vstd::prelude::*;

verus! {

/// An ordinary, per-request failure, returned to the caller as a structured
/// error response.
#[derive(Debug, PartialEq, Eq)]
pub enum Error {
    /// The request's deadline was exceeded. Carries the time elapsed since
    /// the request started, in nanoseconds, and the request's diagnostic tag.
    Outdated(u64, &'static str),
    /// A failure propagated from the engine executing the request (plan
    /// interpretation, storage access, checksum or statistics computation).
    /// The core does not interpret it; it only terminates the task cleanly.
    Engine(String),
}

/// A programming defect: a handler was invoked in a mode its variant does not
/// support. This is a caller bug, not a runtime condition, and is surfaced as
/// an unrecoverable fault instead of an [`Error`].
#[derive(Debug, PartialEq, Eq)]
pub enum Fault {
    /// A unary invocation reached a handler that only streams.
    UnaryNotSupported,
    /// A streaming invocation reached a unary-only handler.
    StreamingNotSupported,
}

} // verus!
