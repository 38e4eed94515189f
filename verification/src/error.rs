//! The error model: every failure the bridge can report is a kind plus a
//! human-readable cause string.

use vstd::prelude::*;

verus! {

/// The kind of a bridge error.
#[derive(Debug, Clone, Copy, PartialEq, Eq, PartialOrd, Ord, Hash, Structural)]
pub enum ErrorKind {
    /// A value is invalid (bad configuration or input, detected before or at open).
    InvalidValue,
    /// An operation timed out (the OS reported a timeout or would-block condition).
    TimedOut,
    /// Any other in-out failure.
    InOutError,
}

impl ErrorKind {
    /// A fixed human-readable description of the kind.
    pub fn describe(&self) -> (r: &'static str)
        ensures
            *self is InvalidValue ==> r@ == "A value is invalid"@,
            *self is TimedOut ==> r@ == "An operation timed out"@,
            *self is InOutError ==> r@ == "An I/O-error occurred"@,
    {
        match self {
            ErrorKind::InvalidValue => "A value is invalid",
            ErrorKind::TimedOut => "An operation timed out",
            ErrorKind::InOutError => "An I/O-error occurred",
        }
    }
}

/// An error value: a kind plus the cause reported by the failing layer.
/// Immutable once constructed; nothing in the bridge retries on it.
#[derive(Debug, Clone)]
pub struct Error {
    /// The semantic kind of the failure.
    pub kind: ErrorKind,
    /// The human-readable cause.
    pub cause: String,
}

/// The kind assigned to a runtime (read/write/flush/open) failure: a
/// timeout-like condition is `TimedOut`, every other failure is `InOutError`.
/// Runtime failures are never classified `InvalidValue`; that kind is
/// reserved for malformed configuration and input.
pub open spec fn classify_failure(timeout_like: bool) -> ErrorKind {
    if timeout_like {
        ErrorKind::TimedOut
    } else {
        ErrorKind::InOutError
    }
}

impl Error {
    /// Builds an error of the given kind.
    pub fn new(kind: ErrorKind, cause: String) -> (r: Error)
        ensures
            r.kind == kind,
            r.cause@ == cause@,
    {
        Error { kind, cause }
    }

    /// Builds an `InvalidValue` error.
    pub fn invalid_value(cause: String) -> (r: Error)
        ensures
            r.kind is InvalidValue,
            r.cause@ == cause@,
    {
        Error { kind: ErrorKind::InvalidValue, cause }
    }

    /// Builds a `TimedOut` error.
    pub fn timed_out(cause: String) -> (r: Error)
        ensures
            r.kind is TimedOut,
            r.cause@ == cause@,
    {
        Error { kind: ErrorKind::TimedOut, cause }
    }

    /// Builds an `InOutError` error.
    pub fn in_out_error(cause: String) -> (r: Error)
        ensures
            r.kind is InOutError,
            r.cause@ == cause@,
    {
        Error { kind: ErrorKind::InOutError, cause }
    }

    /// Classifies a runtime failure into an error value. `timeout_like`
    /// says whether the OS reported the failure as a timeout or a
    /// would-block condition.
    pub fn from_failure(timeout_like: bool, cause: String) -> (r: Error)
        ensures
            r.kind == classify_failure(timeout_like),
            r.cause@ == cause@,
    {
        if timeout_like {
            Error { kind: ErrorKind::TimedOut, cause }
        } else {
            Error { kind: ErrorKind::InOutError, cause }
        }
    }
}

/// Law: classification of runtime failures is total and deterministic.
/// Every reported failure condition is assigned exactly one kind, following
/// the fixed table: timeout-like conditions give `TimedOut`, every other
/// failure gives `InOutError`, and no runtime failure is ever classified
/// `InvalidValue`.
pub proof fn lemma_classification_total(timeout_like: bool)
    ensures
        classify_failure(timeout_like) is TimedOut || classify_failure(timeout_like) is InOutError,
        classify_failure(timeout_like) is TimedOut <==> timeout_like,
        !(classify_failure(timeout_like) is InvalidValue),
{
}

} // verus!
