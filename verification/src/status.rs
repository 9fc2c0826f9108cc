//! Error kinds and statuses returned to the orchestrator, and the
//! mapping from backend-native errors to those kinds.
//!
//! The orchestrator's retry policy keys off the kind alone, so backend
//! errors are never passed through raw: a handle-acquisition failure
//! becomes `Unavailable` (transient, safe to retry as-is), and an
//! in-operation failure becomes `Internal` (retry is the caller's
//! choice).  Validation failures are `InvalidArgument` and are raised
//! before any backend call.

use vstd::prelude::*;

verus! {

/// The fixed taxonomy of failure kinds the plugin may report.
#[derive(Clone, Copy, Debug, PartialEq, Eq, Structural)]
pub enum ErrorKind {
    /// Malformed or missing request data; the caller must fix the
    /// request before retrying.
    InvalidArgument,
    /// The request is valid but the volume is in the wrong state; the
    /// caller must transition it first.
    FailedPrecondition,
    /// The named dataset does not exist on this node.
    NotFound,
    /// The named dataset already exists in a conflicting state.
    AlreadyExists,
    /// The backend is transiently unreachable; safe to retry as-is.
    Unavailable,
    /// An unexpected backend failure; retry is the caller's choice.
    Internal,
    /// The method is not supported by this build.
    Unimplemented,
}

/// A failure reported to the orchestrator: a kind plus a
/// human-readable message.
#[derive(Debug)]
pub struct Status {
    pub kind: ErrorKind,
    pub message: String,
}

impl Status {
    /// Builds a status of the given kind carrying the given message.
    pub fn new(kind: ErrorKind, message: &str) -> (s: Status)
        ensures
            s.kind == kind,
            s.message@ == message@,
    {
        Status { kind, message: message.to_owned() }
    }
}

/// An error as the backend adapter reports it: either the backend
/// handle could not be obtained at all, or a single operation failed
/// with a backend-native message.
#[derive(Debug)]
pub enum BackendError {
    HandleUnavailable,
    OperationFailed(String),
}

/// The adapter's error mapping: handle-acquisition failure is
/// `Unavailable` (likely transient), any in-operation failure is
/// `Internal` with the backend's message attached.  Backend errors are
/// never passed through raw.
pub fn map_backend_error(e: BackendError) -> (s: Status)
    ensures
        e is HandleUnavailable ==> s.kind == ErrorKind::Unavailable,
        e matches BackendError::OperationFailed(m) ==> s.kind == ErrorKind::Internal
            && s.message@ == m@,
{
    match e {
        BackendError::HandleUnavailable => Status::new(
            ErrorKind::Unavailable,
            "backend handle could not be obtained",
        ),
        BackendError::OperationFailed(m) => Status { kind: ErrorKind::Internal, message: m },
    }
}

} // verus!
