use contract_client::client::call_contract_function;
use contract_client::errors::{InteractionError, NetworkError};
use contract_client::params::ParamValue;
use contract_client::response::{
    decode_query_response, encode_call_reverted, encode_call_success, encode_node_rejection,
    encode_query_success, CallResult, QueryResult,
};
use contract_client::transport::{complete_call, complete_query, TransportOutcome};

#[test]
fn successful_call_against_simulated_node_returns_canned_payload() {
    let ec = call_contract_function(
        "0xABC",
        "transfer",
        vec![ParamValue::Uint(42), ParamValue::Bool(true)],
        1000,
    )
    .unwrap();
    assert!(!ec.payload.is_empty());
    // the simulated node executes the call and answers with a canned payload
    let canned = b"transfer done".to_vec();
    let response = encode_call_success(21, &canned);
    let outcome = TransportOutcome::Responded(response);
    let result = complete_call(&outcome).unwrap();
    assert_eq!(result, CallResult::Success { payload: canned, gas_used: 21 });
}

#[test]
fn reverted_call_decodes_to_failure_with_reason() {
    let outcome = TransportOutcome::Responded(encode_call_reverted(&b"underfunded".to_vec()));
    let result = complete_call(&outcome).unwrap();
    assert_eq!(result, CallResult::Failure { reason: Some(b"underfunded".to_vec()) });
}

#[test]
fn reverted_call_without_reason_decodes_to_failure_with_none() {
    let outcome = TransportOutcome::Responded(encode_call_reverted(&vec![]));
    let result = complete_call(&outcome).unwrap();
    assert_eq!(result, CallResult::Failure { reason: None });
}

#[test]
fn rejected_call_propagates_node_error_with_reason() {
    let outcome = TransportOutcome::Responded(encode_node_rejection(&b"insufficient gas".to_vec()));
    let err = complete_call(&outcome).unwrap_err();
    assert_eq!(err, InteractionError::NodeError { reason: Some(b"insufficient gas".to_vec()) });
}

#[test]
fn empty_call_response_fails_with_decoding_error() {
    let outcome = TransportOutcome::Responded(vec![]);
    assert_eq!(complete_call(&outcome).unwrap_err(), InteractionError::DecodingError);
}

#[test]
fn garbage_call_response_fails_with_decoding_error() {
    let outcome = TransportOutcome::Responded(vec![7u8, 7, 7]);
    assert_eq!(complete_call(&outcome).unwrap_err(), InteractionError::DecodingError);
}

#[test]
fn truncated_success_response_fails_with_decoding_error() {
    // status 0 but fewer than eight gas bytes follow
    let outcome = TransportOutcome::Responded(vec![0u8, 1, 2]);
    assert_eq!(complete_call(&outcome).unwrap_err(), InteractionError::DecodingError);
}

#[test]
fn query_success_response_carries_the_typed_value() {
    let value = ParamValue::Uint(99);
    let response = encode_query_success(&value).unwrap();
    let result = complete_query(&TransportOutcome::Responded(response)).unwrap();
    assert_eq!(result, QueryResult::Success { value });
}

#[test]
fn query_failure_response_carries_the_reason() {
    let response = encode_call_reverted(&b"no such key".to_vec());
    let result = complete_query(&TransportOutcome::Responded(response)).unwrap();
    assert_eq!(result, QueryResult::Failure { reason: Some(b"no such key".to_vec()) });
}

#[test]
fn query_rejection_propagates_node_error() {
    let response = encode_node_rejection(&vec![]);
    let err = complete_query(&TransportOutcome::Responded(response)).unwrap_err();
    assert_eq!(err, InteractionError::NodeError { reason: None });
}

#[test]
fn query_response_with_trailing_bytes_fails_to_decode() {
    let mut response = encode_query_success(&ParamValue::Bool(false)).unwrap();
    response.push(0);
    let r = decode_query_response(&response);
    assert_eq!(r.unwrap_err(), InteractionError::DecodingError);
}

#[test]
fn query_response_with_no_value_fails_to_decode() {
    let r = decode_query_response(&vec![0u8]);
    assert_eq!(r.unwrap_err(), InteractionError::DecodingError);
}

#[test]
fn encoding_a_non_ascii_query_value_fails() {
    let r = encode_query_success(&ParamValue::Text(vec![0x80]));
    assert_eq!(r.unwrap_err(), InteractionError::EncodingError);
}

#[test]
fn timed_out_call_fails_with_network_timeout() {
    let r = complete_call(&TransportOutcome::TimedOut);
    assert_eq!(r.unwrap_err(), InteractionError::NetworkError(NetworkError::Timeout));
}

#[test]
fn refused_call_fails_with_connection_refused() {
    let r = complete_call(&TransportOutcome::ConnectionRefused);
    assert_eq!(r.unwrap_err(), InteractionError::NetworkError(NetworkError::ConnectionRefused));
}

#[test]
fn timed_out_query_fails_with_network_timeout() {
    let r = complete_query(&TransportOutcome::TimedOut);
    assert_eq!(r.unwrap_err(), InteractionError::NetworkError(NetworkError::Timeout));
}
