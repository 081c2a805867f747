//! The error taxonomy of a single exchange.
//!
//! Every failure of one invocation is terminal: nothing is retried.  Each
//! kind carries what its user-facing message needs, and each maps to its own
//! non-zero process exit code, so that callers can tell failure from a
//! successful "in sync" verdict.

use vstd::prelude::*;

use crate::digits::dec_chars;
use crate::digits::dec_string;

verus! {

/// What went wrong with one exchange.
#[derive(Debug)]
pub enum TimeError {
    /// Transport-level failure: connection refused, resolution failure, a
    /// timeout inside the transport.  Carries the transport's own message.
    NetworkFailure { detail: String },
    /// The server address is malformed, or its scheme is not `http` or
    /// `https`.  Found before any request is sent.
    InvalidServerAddress { detail: String },
    /// The response had a non-success HTTP status.
    HttpStatusError { detail: String },
    /// The response body did not match the expected shape.
    ResponseParseError { detail: String },
    /// The measured local round trip exceeded the configured timeout; the
    /// measurement is discarded entirely.
    RequestTooSlow { elapsed_ms: u64 },
    /// A well-formed success response omitted a field that the requested
    /// mode needs, such as the difference.
    ProtocolViolation,
}

impl TimeError {
    /// The human-readable message for this error.
    pub open spec fn message_chars(self) -> Seq<char> {
        match self {
            TimeError::NetworkFailure { detail } => "Error: "@ + detail@,
            TimeError::InvalidServerAddress { detail } => "Invalid --server URL: "@ + detail@,
            TimeError::HttpStatusError { detail } => "HTTP Error: "@ + detail@,
            TimeError::ResponseParseError { detail } => "Server response parsing Error: "@
                + detail@,
            TimeError::RequestTooSlow { elapsed_ms } => "Request took too long ("@ + dec_chars(
                elapsed_ms as nat,
            ) + "ms)"@,
            TimeError::ProtocolViolation => "Server did not return a difference"@,
        }
    }

    /// The process exit code for this error: non-zero, and distinct for each
    /// kind.
    pub open spec fn exit_code_spec(self) -> u8 {
        match self {
            TimeError::NetworkFailure { .. } => 1,
            TimeError::InvalidServerAddress { .. } => 2,
            TimeError::HttpStatusError { .. } => 3,
            TimeError::ResponseParseError { .. } => 4,
            TimeError::RequestTooSlow { .. } => 5,
            TimeError::ProtocolViolation => 6,
        }
    }

    /// Builds the message that `message_chars` describes.
    pub fn message(&self) -> (s: String)
        ensures
            s@ == self.message_chars(),
    {
        match self {
            TimeError::NetworkFailure { detail } => {
                let mut s = String::from_str("Error: ");
                s.append(detail.as_str());
                s
            },
            TimeError::InvalidServerAddress { detail } => {
                let mut s = String::from_str("Invalid --server URL: ");
                s.append(detail.as_str());
                s
            },
            TimeError::HttpStatusError { detail } => {
                let mut s = String::from_str("HTTP Error: ");
                s.append(detail.as_str());
                s
            },
            TimeError::ResponseParseError { detail } => {
                let mut s = String::from_str("Server response parsing Error: ");
                s.append(detail.as_str());
                s
            },
            TimeError::RequestTooSlow { elapsed_ms } => {
                let mut s = String::from_str("Request took too long (");
                let digits = dec_string(*elapsed_ms as u128);
                s.append(digits.as_str());
                s.append("ms)");
                s
            },
            TimeError::ProtocolViolation => String::from_str(
                "Server did not return a difference",
            ),
        }
    }

    /// The exit code that `exit_code_spec` describes; never zero.
    pub fn exit_code(&self) -> (c: u8)
        ensures
            c == self.exit_code_spec(),
            c != 0,
    {
        match self {
            TimeError::NetworkFailure { .. } => 1,
            TimeError::InvalidServerAddress { .. } => 2,
            TimeError::HttpStatusError { .. } => 3,
            TimeError::ResponseParseError { .. } => 4,
            TimeError::RequestTooSlow { .. } => 5,
            TimeError::ProtocolViolation => 6,
        }
    }
}

} // verus!
