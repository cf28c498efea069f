//! The error taxonomy of the client: every failure a contract interaction can
//! end in, as a typed value.  Validation and encoding errors are
//! deterministic; network errors describe a send that got no response; node
//! errors carry the node's reported reason verbatim when one was given.

use vstd::prelude::*;

verus! {

/// How a network send failed before any response arrived.
#[derive(Debug, Clone, Copy, PartialEq, Eq)]
pub enum NetworkError {
    /// The endpoint could not be reached at all.
    ConnectionRefused,
    /// The configured timeout expired with no response.
    Timeout,
}

/// Errors that may occur during contract interactions.
#[derive(Debug, Clone, PartialEq, Eq)]
pub enum InteractionError {
    /// The provided contract address is empty or malformed.
    InvalidContractAddress,
    /// The function name provided is empty or malformed.
    InvalidFunctionName,
    /// The requested data key is empty or malformed.
    InvalidDataKey,
    /// A parameter's declared type does not match its value.
    EncodingError,
    /// The request could not be delivered (connection refused or timeout).
    NetworkError(NetworkError),
    /// The node rejected the request, with its reported reason when given.
    NodeError { reason: Option<Vec<u8>> },
    /// The node's response does not match the expected schema.
    DecodingError,
}

} // verus!
