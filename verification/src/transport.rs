//! The transport boundary.  Sending bytes to a node endpoint is I/O and
//! belongs to the caller; this module fixes what the caller hands back — one
//! `TransportOutcome` per send — and interprets it.  A send either produced a
//! raw response, was refused outright, or timed out; on a timeout nothing is
//! inferred about the remote outcome, the interaction simply fails with
//! `NetworkError::Timeout`, and any retry decision stays with the caller,
//! since a mutating call must not be blindly resent.

use vstd::prelude::*;

use crate::errors::InteractionError;
use crate::errors::NetworkError;
use crate::response::CallResult;
use crate::response::QueryResult;
use crate::response::call_response_matches;
use crate::response::decode_call_response;
use crate::response::decode_query_response;
use crate::response::query_response_matches;

verus! {

/// Everything a single send to the node endpoint can come back as.
#[derive(Debug, Clone, PartialEq, Eq)]
pub enum TransportOutcome {
    /// The node answered with these raw bytes.
    Responded(Vec<u8>),
    /// The endpoint refused the connection; nothing was delivered.
    ConnectionRefused,
    /// The configured timeout expired with no response.
    TimedOut,
}

/// Interprets the outcome of sending an encoded call: a timeout or a refused
/// connection fails with the matching `NetworkError`; a response is decoded.
pub fn complete_call(outcome: &TransportOutcome) -> (r: Result<CallResult, InteractionError>)
    ensures
        outcome matches TransportOutcome::Responded(bytes) ==> call_response_matches(bytes@, r),
        outcome is TimedOut ==> r == Err::<CallResult, InteractionError>(
            InteractionError::NetworkError(NetworkError::Timeout),
        ),
        outcome is ConnectionRefused ==> r == Err::<CallResult, InteractionError>(
            InteractionError::NetworkError(NetworkError::ConnectionRefused),
        ),
{
    match outcome {
        TransportOutcome::Responded(bytes) => decode_call_response(bytes),
        TransportOutcome::ConnectionRefused => Err(
            InteractionError::NetworkError(NetworkError::ConnectionRefused),
        ),
        TransportOutcome::TimedOut => Err(
            InteractionError::NetworkError(NetworkError::Timeout),
        ),
    }
}

/// Interprets the outcome of sending an encoded query, the same way.
pub fn complete_query(outcome: &TransportOutcome) -> (r: Result<QueryResult, InteractionError>)
    ensures
        outcome matches TransportOutcome::Responded(bytes) ==> query_response_matches(bytes@, r),
        outcome is TimedOut ==> r == Err::<QueryResult, InteractionError>(
            InteractionError::NetworkError(NetworkError::Timeout),
        ),
        outcome is ConnectionRefused ==> r == Err::<QueryResult, InteractionError>(
            InteractionError::NetworkError(NetworkError::ConnectionRefused),
        ),
{
    match outcome {
        TransportOutcome::Responded(bytes) => decode_query_response(bytes),
        TransportOutcome::ConnectionRefused => Err(
            InteractionError::NetworkError(NetworkError::ConnectionRefused),
        ),
        TransportOutcome::TimedOut => Err(
            InteractionError::NetworkError(NetworkError::Timeout),
        ),
    }
}

} // verus!
