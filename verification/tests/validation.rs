use contract_client::client::{
    call_contract_function, encode_call, encode_query, fetch_contract_data, CallRequest,
    QueryRequest,
};
use contract_client::errors::InteractionError;
use contract_client::params::ParamValue;
use contract_client::validate::{ContractAddress, DataKey, FunctionName};

#[test]
fn valid_addresses_are_accepted() {
    for s in ["0x0", "0xA", "0xabc123", "0xDEADbeef", "0x0123456789abcdefABCDEF"] {
        let a = ContractAddress::new(s).unwrap();
        assert_eq!(a.bytes().as_slice(), s.as_bytes());
    }
}

#[test]
fn malformed_addresses_are_rejected_with_matching_error() {
    for s in ["", "0x", "x0", "abc", "0xG1", "0x12 34", "0X12", "12ab", "0x12é"] {
        assert_eq!(
            ContractAddress::new(s),
            Err(InteractionError::InvalidContractAddress),
            "address {:?} should be rejected",
            s
        );
    }
}

#[test]
fn valid_identifiers_are_accepted() {
    for s in ["transfer", "get_balance", "_x", "a1", "B2_c3"] {
        let n = FunctionName::new(s).unwrap();
        assert_eq!(n.bytes().as_slice(), s.as_bytes());
        let k = DataKey::new(s).unwrap();
        assert_eq!(k.bytes().as_slice(), s.as_bytes());
    }
}

#[test]
fn malformed_identifiers_are_rejected_with_matching_error() {
    for s in ["", "9abc", "ab-c", "with space", "naïve", "0x12"] {
        assert_eq!(
            FunctionName::new(s),
            Err(InteractionError::InvalidFunctionName),
            "name {:?} should be rejected",
            s
        );
        assert_eq!(
            DataKey::new(s),
            Err(InteractionError::InvalidDataKey),
            "key {:?} should be rejected",
            s
        );
    }
}

#[test]
fn call_with_empty_address_fails_with_invalid_contract_address() {
    let r = call_contract_function("", "transfer", vec![ParamValue::Uint(1000)], 1000);
    assert_eq!(r.unwrap_err(), InteractionError::InvalidContractAddress);
}

#[test]
fn call_with_empty_function_name_fails_with_invalid_function_name() {
    let r = call_contract_function("0xABC", "", vec![ParamValue::Uint(1000)], 1000);
    assert_eq!(r.unwrap_err(), InteractionError::InvalidFunctionName);
}

#[test]
fn query_with_empty_data_key_fails_with_invalid_data_key() {
    let r = fetch_contract_data("0xABC", "");
    assert_eq!(r.unwrap_err(), InteractionError::InvalidDataKey);
}

#[test]
fn address_is_checked_before_function_name() {
    let r = call_contract_function("", "", vec![], 0);
    assert_eq!(r.unwrap_err(), InteractionError::InvalidContractAddress);
}

#[test]
fn valid_call_is_encoded_with_its_gas_limit() {
    let ec = call_contract_function("0xABC", "transfer", vec![ParamValue::Bool(true)], 555)
        .unwrap();
    assert_eq!(ec.address.bytes().as_slice(), b"0xABC");
    assert_eq!(ec.gas_limit, 555);
    // payload: name length (LE u64), name, then the encoded parameters
    let mut expected = vec![8u8, 0, 0, 0, 0, 0, 0, 0];
    expected.extend_from_slice(b"transfer");
    expected.extend_from_slice(&[1, 1]);
    assert_eq!(ec.payload, expected);
}

#[test]
fn valid_query_is_encoded() {
    let eq = fetch_contract_data("0xABC", "owner").unwrap();
    assert_eq!(eq.address.bytes().as_slice(), b"0xABC");
    let mut expected = vec![5u8, 0, 0, 0, 0, 0, 0, 0];
    expected.extend_from_slice(b"owner");
    assert_eq!(eq.payload, expected);
}

#[test]
fn requests_built_from_validated_parts_encode_like_the_entry_points() {
    let address = ContractAddress::new("0xFE").unwrap();
    let function = FunctionName::new("mint").unwrap();
    let req = CallRequest {
        address: address.clone(),
        function,
        params: vec![ParamValue::Uint(3)],
        gas_limit: 77,
    };
    let ec = encode_call(&req).unwrap();
    let same = call_contract_function("0xFE", "mint", vec![ParamValue::Uint(3)], 77).unwrap();
    assert_eq!(ec.payload, same.payload);
    assert_eq!(ec.gas_limit, 77);

    let key = DataKey::new("supply").unwrap();
    let qr = QueryRequest { address, key };
    let eq = encode_query(&qr);
    let same_q = fetch_contract_data("0xFE", "supply").unwrap();
    assert_eq!(eq.payload, same_q.payload);
}
