//! Error taxonomy of the core.
//!
//! All fallible operations return result-typed values; nothing unwinds.
//! Only `SecurityViolation` is promoted by a fuzzer as an objective; every
//! other kind terminates the current trace and is recorded.

use vstd::prelude::*;

verus! {

/// Failure of a function symbol during term evaluation.
#[derive(Clone, Copy, PartialEq, Eq, Structural, Debug)]
pub enum FnError {
    /// The arguments handed to the symbol had the wrong count or runtime
    /// type.  The evaluator and the mutators keep terms well typed, so
    /// seeing this error indicates a corrupted trace.
    Unknown,
}

/// Everything that can go wrong while executing a trace.
#[derive(Clone, Debug)]
pub enum Error {
    /// A function symbol failed internally.
    Fn(FnError),
    /// Structural error: arity or type mismatch at an application boundary.
    Term(String),
    /// A variable could not be resolved against the knowledge store.
    Extraction,
    /// Interaction with an agent's byte stream failed.
    Stream(String),
    /// I/O-level failure of an agent buffer.
    Io(String),
    /// The TLS library behind an agent reported a fatal error.
    Agent(String),
    /// A claim-based security policy was violated: an interesting finding.
    SecurityViolation,
    /// Serialization or deserialization failed.
    Malformed,
}

impl Error {
    /// True when the error is the kind that a fuzzer records as a finding.
    pub fn is_finding(&self) -> (r: bool)
        ensures
            r == (self is SecurityViolation),
    {
        match self {
            Error::SecurityViolation => true,
            _ => false,
        }
    }
}

} // verus!
