//! The session-fatal error taxonomy of the orchestrator.

use vstd::prelude::*;

use crate::messages::Errors;

verus! {

/// Why a protocol session ended before its terminal transition.  Every
/// variant is session-fatal; the text is a human-readable diagnostic.
#[derive(Debug)]
pub enum CoreErrors {
    /// A received payload did not match the expected round, or a collected
    /// slot was empty when it should not have been.
    InvalidData(String),
    /// The outbound emitter refused a send, or the inbound receiver is
    /// disconnected.
    TransportIssue(String),
    /// The per-round collection budget was exhausted.
    Timeout(String),
    /// A cryptographic primitive reported a verification failure.
    ExecutionIssue(String),
}

impl CoreErrors {
    /// The diagnostic text carried by this error.
    pub open spec fn text_spec(self) -> Seq<char> {
        match self {
            CoreErrors::InvalidData(s) => s@,
            CoreErrors::TransportIssue(s) => s@,
            CoreErrors::Timeout(s) => s@,
            CoreErrors::ExecutionIssue(s) => s@,
        }
    }

    /// The wire error code that best describes this failure.
    pub open spec fn code_of(self) -> Errors {
        match self {
            CoreErrors::InvalidData(_) => Errors::CollectUnexpectedData,
            CoreErrors::TransportIssue(_) => Errors::CollectDisconnected,
            CoreErrors::Timeout(_) => Errors::CollectTimeout,
            CoreErrors::ExecutionIssue(_) => Errors::Halted,
        }
    }

    pub fn code(&self) -> (c: Errors)
        ensures
            c == self.code_of(),
    {
        match self {
            CoreErrors::InvalidData(_) => Errors::CollectUnexpectedData,
            CoreErrors::TransportIssue(_) => Errors::CollectDisconnected,
            CoreErrors::Timeout(_) => Errors::CollectTimeout,
            CoreErrors::ExecutionIssue(_) => Errors::Halted,
        }
    }

    /// Surrenders the diagnostic text.
    pub fn into_message(self) -> (m: String)
        ensures
            m@ == self.text_spec(),
    {
        match self {
            CoreErrors::InvalidData(s) => s,
            CoreErrors::TransportIssue(s) => s,
            CoreErrors::Timeout(s) => s,
            CoreErrors::ExecutionIssue(s) => s,
        }
    }
}

} // verus!
