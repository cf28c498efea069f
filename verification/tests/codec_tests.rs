use contract_client::codec::{
    decode_call_payload, decode_params_vec, encode_call_payload_vec, encode_params_vec,
};
use contract_client::errors::InteractionError;
use contract_client::params::ParamValue;

#[test]
fn bool_params_encode_to_tag_and_flag() {
    let out = encode_params_vec(&vec![ParamValue::Bool(true), ParamValue::Bool(false)]).unwrap();
    assert_eq!(out, vec![1u8, 1, 1, 0]);
}

#[test]
fn uint_param_encodes_little_endian() {
    let out = encode_params_vec(&vec![ParamValue::Uint(0x0102030405060708)]).unwrap();
    assert_eq!(out, vec![2u8, 0x08, 0x07, 0x06, 0x05, 0x04, 0x03, 0x02, 0x01]);
}

#[test]
fn bytes_param_encodes_with_length_prefix() {
    let out = encode_params_vec(&vec![ParamValue::Bytes(vec![9, 8, 7])]).unwrap();
    assert_eq!(out, vec![3u8, 3, 0, 0, 0, 0, 0, 0, 0, 9, 8, 7]);
}

#[test]
fn text_param_encodes_with_length_prefix() {
    let out = encode_params_vec(&vec![ParamValue::Text(b"hi".to_vec())]).unwrap();
    assert_eq!(out, vec![4u8, 2, 0, 0, 0, 0, 0, 0, 0, 0x68, 0x69]);
}

#[test]
fn non_ascii_text_fails_with_encoding_error() {
    let r = encode_params_vec(&vec![ParamValue::Text(vec![0xC3, 0xA9])]);
    assert_eq!(r.unwrap_err(), InteractionError::EncodingError);
}

#[test]
fn empty_param_list_encodes_to_nothing_and_decodes_back() {
    let out = encode_params_vec(&vec![]).unwrap();
    assert!(out.is_empty());
    assert_eq!(decode_params_vec(&out).unwrap(), vec![]);
}

#[test]
fn params_round_trip_through_a_node_echo() {
    let params = vec![
        ParamValue::Bool(true),
        ParamValue::Uint(u64::MAX),
        ParamValue::Uint(0),
        ParamValue::Bytes(vec![]),
        ParamValue::Bytes(vec![0xFF, 0x00, 0x80]),
        ParamValue::Text(b"hello_world".to_vec()),
        ParamValue::Text(vec![]),
    ];
    let encoded = encode_params_vec(&params).unwrap();
    // a node that echoes the call's parameter section sends these same bytes
    let echoed = encoded.clone();
    let decoded = decode_params_vec(&echoed).unwrap();
    assert_eq!(decoded, params);
}

#[test]
fn call_payload_round_trips_name_and_params() {
    let params = vec![ParamValue::Uint(7), ParamValue::Text(b"to".to_vec())];
    let payload = encode_call_payload_vec(&b"transfer".to_vec(), &params).unwrap();
    let (name, decoded) = decode_call_payload(&payload).unwrap();
    assert_eq!(name, b"transfer".to_vec());
    assert_eq!(decoded, params);
}

#[test]
fn truncated_params_fail_with_decoding_error() {
    // a uint tag with fewer than eight value bytes
    let r = decode_params_vec(&vec![2u8, 1, 2, 3]);
    assert_eq!(r.unwrap_err(), InteractionError::DecodingError);
}

#[test]
fn unknown_tag_fails_with_decoding_error() {
    let r = decode_params_vec(&vec![9u8, 0]);
    assert_eq!(r.unwrap_err(), InteractionError::DecodingError);
}

#[test]
fn bytes_length_beyond_input_fails_with_decoding_error() {
    // declared length 4, only 2 bytes follow
    let r = decode_params_vec(&vec![3u8, 4, 0, 0, 0, 0, 0, 0, 0, 1, 2]);
    assert_eq!(r.unwrap_err(), InteractionError::DecodingError);
}

#[test]
fn non_ascii_text_body_fails_to_decode() {
    let r = decode_params_vec(&vec![4u8, 1, 0, 0, 0, 0, 0, 0, 0, 0xC3]);
    assert_eq!(r.unwrap_err(), InteractionError::DecodingError);
}

#[test]
fn non_canonical_bool_byte_fails_to_decode() {
    let r = decode_params_vec(&vec![1u8, 2]);
    assert_eq!(r.unwrap_err(), InteractionError::DecodingError);
}

#[test]
fn truncated_call_payload_fails_with_decoding_error() {
    let r = decode_call_payload(&vec![9u8, 0, 0, 0, 0, 0, 0, 0, 0x61]);
    assert_eq!(r.unwrap_err(), InteractionError::DecodingError);
}
