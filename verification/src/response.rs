//! Interpretation of raw node responses.
//!
//! A response opens with a one-byte status.  For a call: status 0 is a
//! successful execution, followed by the consumed gas (little-endian `u64`)
//! and the return payload; status 1 is a failed (reverted) execution,
//! followed by the revert reason, possibly empty; status 2 is the node
//! rejecting the request itself (for example insufficient gas), followed by
//! its reason.  For a query, status 0 is followed by exactly one encoded
//! typed value.  Any other shape fails the decode.

use vstd::prelude::*;
use vstd::bytes::lemma_auto_spec_u64_to_from_le_bytes;
use vstd::bytes::spec_u64_from_le_bytes;
use vstd::bytes::spec_u64_to_le_bytes;
use vstd::bytes::u64_from_le_bytes;
use vstd::bytes::u64_to_le_bytes;

use crate::codec::decode_param_at;
use crate::codec::encode_param;
use crate::errors::InteractionError;
use crate::params::ParamData;
use crate::params::ParamValue;
use crate::params::param_data_wf;
use crate::params::param_is_wf;

verus! {

/// The interpreted result of a mutating call.
#[derive(Debug, Clone, PartialEq, Eq)]
pub enum CallResult {
    /// The call executed; the contract's return payload and the gas it
    /// consumed.
    Success { payload: Vec<u8>, gas_used: u64 },
    /// The call was executed and reverted, with the revert reason when the
    /// node reported one.
    Failure { reason: Option<Vec<u8>> },
}

/// The interpreted result of a read-only query.
#[derive(Debug, Clone, PartialEq, Eq)]
pub enum QueryResult {
    /// The fetched value, typed.
    Success { value: ParamValue },
    /// The query was executed and failed, with the reason when the node
    /// reported one.
    Failure { reason: Option<Vec<u8>> },
}

/// The diagnostic tail of a response: absent when the node sent no reason.
pub open spec fn reason_matches(reason: Option<Vec<u8>>, tail: Seq<u8>) -> bool {
    if tail.len() == 0 {
        reason is None
    } else {
        reason matches Some(m) && m@ == tail
    }
}

/// What a decoded call response must be, given the raw bytes: the one
/// relation every decode of a call response satisfies.
pub open spec fn call_response_matches(s: Seq<u8>, r: Result<CallResult, InteractionError>) -> bool {
    if s.len() >= 9 && s[0] == 0 {
        r matches Ok(CallResult::Success { payload, gas_used }) && payload@ == s.skip(9)
            && gas_used == spec_u64_from_le_bytes(s.subrange(1, 9))
    } else if s.len() >= 1 && s[0] == 1 {
        r matches Ok(CallResult::Failure { reason }) && reason_matches(reason, s.skip(1))
    } else if s.len() >= 1 && s[0] == 2 {
        r matches Err(InteractionError::NodeError { reason }) && reason_matches(reason, s.skip(1))
    } else {
        r == Err::<CallResult, InteractionError>(InteractionError::DecodingError)
    }
}

/// What a decoded query response must be, given the raw bytes.
pub open spec fn query_response_matches(s: Seq<u8>, r: Result<QueryResult, InteractionError>) -> bool {
    if s.len() >= 1 && s[0] == 0 {
        match decode_param_at(s.skip(1)) {
            Some((pd, n)) => if 1 + n == s.len() {
                r matches Ok(QueryResult::Success { value }) && value@ == pd
            } else {
                r == Err::<QueryResult, InteractionError>(InteractionError::DecodingError)
            },
            None => r == Err::<QueryResult, InteractionError>(InteractionError::DecodingError),
        }
    } else if s.len() >= 1 && s[0] == 1 {
        r matches Ok(QueryResult::Failure { reason }) && reason_matches(reason, s.skip(1))
    } else if s.len() >= 1 && s[0] == 2 {
        r matches Err(InteractionError::NodeError { reason }) && reason_matches(reason, s.skip(1))
    } else {
        r == Err::<QueryResult, InteractionError>(InteractionError::DecodingError)
    }
}

/// Copies the tail of `resp` from `from` on, as the optional reason.
fn tail_reason(resp: &Vec<u8>, from: usize) -> (r: Option<Vec<u8>>)
    requires
        from <= resp@.len(),
    ensures
        reason_matches(r, resp@.skip(from as int)),
{
    if resp.len() == from {
        None
    } else {
        let m = crate::codec::copy_range(resp, from, resp.len() - from);
        assert(m@ =~= resp@.skip(from as int));
        Some(m)
    }
}

/// Decodes a raw call response.  A response reporting a reverted execution
/// decodes to `CallResult::Failure`; one reporting that the node rejected the
/// request propagates a `NodeError`; a response of any other shape than the
/// schema above fails with `DecodingError`.
pub fn decode_call_response(resp: &Vec<u8>) -> (r: Result<CallResult, InteractionError>)
    ensures
        call_response_matches(resp@, r),
{
    if resp.len() == 0 {
        return Err(InteractionError::DecodingError);
    }
    let status = resp[0];
    if status == 0 {
        if resp.len() < 9 {
            return Err(InteractionError::DecodingError);
        }
        let le = crate::codec::copy_range(resp, 1, 8);
        assert(le@ =~= resp@.subrange(1, 9));
        let gas_used = u64_from_le_bytes(le.as_slice());
        let payload = crate::codec::copy_range(resp, 9, resp.len() - 9);
        assert(payload@ =~= resp@.skip(9));
        Ok(CallResult::Success { payload, gas_used })
    } else if status == 1 {
        let reason = tail_reason(resp, 1);
        Ok(CallResult::Failure { reason })
    } else if status == 2 {
        let reason = tail_reason(resp, 1);
        Err(InteractionError::NodeError { reason })
    } else {
        Err(InteractionError::DecodingError)
    }
}

/// Decodes a raw query response, whose success case carries exactly one
/// typed value and nothing after it.
pub fn decode_query_response(resp: &Vec<u8>) -> (r: Result<QueryResult, InteractionError>)
    ensures
        query_response_matches(resp@, r),
{
    if resp.len() == 0 {
        return Err(InteractionError::DecodingError);
    }
    let status = resp[0];
    if status == 0 {
        if resp.len() == 1 {
            assert(resp@.skip(1) =~= Seq::<u8>::empty());
            return Err(InteractionError::DecodingError);
        }
        match crate::codec::decode_param_at_exec(resp, 1) {
            Some((value, n)) => {
                if 1 + n == resp.len() {
                    Ok(QueryResult::Success { value })
                } else {
                    Err(InteractionError::DecodingError)
                }
            },
            None => Err(InteractionError::DecodingError),
        }
    } else if status == 1 {
        let reason = tail_reason(resp, 1);
        Ok(QueryResult::Failure { reason })
    } else if status == 2 {
        let reason = tail_reason(resp, 1);
        Err(InteractionError::NodeError { reason })
    } else {
        Err(InteractionError::DecodingError)
    }
}

/// Encodes a node's successful call response: what a node sends back for an
/// execution that returned `payload` and consumed `gas_used`.
pub fn encode_call_success(gas_used: u64, payload: &Vec<u8>) -> (out: Vec<u8>)
    ensures
        out@ == seq![0u8] + spec_u64_to_le_bytes(gas_used) + payload@,
        call_response_matches(
            out@,
            Result::<CallResult, InteractionError>::Ok(
                CallResult::Success { payload: *payload, gas_used },
            ),
        ),
{
    proof {
        lemma_auto_spec_u64_to_from_le_bytes();
    }
    let mut out: Vec<u8> = Vec::new();
    out.push(0);
    let le = u64_to_le_bytes(gas_used);
    crate::codec::append_bytes(&mut out, &le);
    crate::codec::append_bytes(&mut out, payload);
    assert(out@ =~= seq![0u8] + spec_u64_to_le_bytes(gas_used) + payload@);
    proof {
        assert(out@.subrange(1, 9) =~= spec_u64_to_le_bytes(gas_used));
        assert(out@.skip(9) =~= payload@);
    }
    out
}

/// Encodes a node's failure response: status 1 reports a reverted execution,
/// status 2 a rejected request; the reason follows, empty when there is none.
fn encode_status_reason(status: u8, reason: &Vec<u8>) -> (out: Vec<u8>)
    ensures
        out@ == seq![status] + reason@,
{
    let mut out: Vec<u8> = Vec::new();
    out.push(status);
    crate::codec::append_bytes(&mut out, reason);
    assert(out@ =~= seq![status] + reason@);
    out
}

/// The optional reason a node attached: absent when it sent none.
pub open spec fn sent_reason(reason: Vec<u8>) -> Option<Vec<u8>> {
    if reason@.len() == 0 {
        None
    } else {
        Some(reason)
    }
}

/// Encodes a node's response for a reverted execution, with its reason
/// (empty for none); it decodes to the matching `Failure`.
pub fn encode_call_reverted(reason: &Vec<u8>) -> (out: Vec<u8>)
    ensures
        out@ == seq![1u8] + reason@,
        call_response_matches(
            out@,
            Result::<CallResult, InteractionError>::Ok(
                CallResult::Failure { reason: sent_reason(*reason) },
            ),
        ),
        query_response_matches(
            out@,
            Result::<QueryResult, InteractionError>::Ok(
                QueryResult::Failure { reason: sent_reason(*reason) },
            ),
        ),
{
    let out = encode_status_reason(1, reason);
    assert(out@.skip(1) =~= reason@);
    out
}

/// Encodes a node's rejection of a request, with its reason (empty for
/// none); it decodes to the matching `NodeError`.
pub fn encode_node_rejection(reason: &Vec<u8>) -> (out: Vec<u8>)
    ensures
        out@ == seq![2u8] + reason@,
        call_response_matches(
            out@,
            Result::<CallResult, InteractionError>::Err(
                InteractionError::NodeError { reason: sent_reason(*reason) },
            ),
        ),
        query_response_matches(
            out@,
            Result::<QueryResult, InteractionError>::Err(
                InteractionError::NodeError { reason: sent_reason(*reason) },
            ),
        ),
{
    let out = encode_status_reason(2, reason);
    assert(out@.skip(1) =~= reason@);
    out
}

/// Encodes a node's successful query response carrying one typed value,
/// whose value must match its declared type.
pub fn encode_query_success(value: &ParamValue) -> (r: Result<Vec<u8>, InteractionError>)
    ensures
        r is Ok <==> param_data_wf(value@),
        r matches Ok(out) ==> out@ == seq![0u8] + encode_param(value@),
        r matches Ok(out) ==> query_response_matches(
            out@,
            Result::<QueryResult, InteractionError>::Ok(QueryResult::Success { value: *value }),
        ),
        r is Err ==> r == Err::<Vec<u8>, InteractionError>(InteractionError::EncodingError),
{
    if !param_is_wf(value) {
        return Err(InteractionError::EncodingError);
    }
    let mut out: Vec<u8> = Vec::new();
    out.push(0);
    crate::codec::encode_param_into(&mut out, value);
    assert(out@ =~= seq![0u8] + encode_param(value@));
    proof {
        crate::codec::lemma_decode_param_at_encode(value@, Seq::empty());
        assert(out@.skip(1) =~= encode_param(value@) + Seq::<u8>::empty());
    }
    Ok(out)
}

} // verus!
