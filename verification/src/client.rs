//! The caller-facing entry points and the request shapes they build.
//!
//! `call_contract_function` and `fetch_contract_data` run the synchronous
//! front of the pipeline — validate, then encode — and hand back a prepared,
//! immutable request for the caller's transport to send.  The back of the
//! pipeline, `transport::complete_call` / `transport::complete_query`,
//! interprets what the transport got.  A request terminates at the first
//! failing stage with that stage's typed error and is discarded after one
//! send: nothing here retries.

use vstd::prelude::*;
use vstd::string::StringSliceAdditionalSpecFns;

use crate::codec::encode_call_payload;
use crate::codec::encode_call_payload_vec;
use crate::codec::encode_query_payload;
use crate::codec::encode_query_payload_vec;
use crate::errors::InteractionError;
use crate::params::ParamValue;
use crate::params::all_params_wf;
use crate::params::params_view;
use crate::validate::ContractAddress;
use crate::validate::DataKey;
use crate::validate::FunctionName;
use crate::validate::valid_address_bytes;
use crate::validate::valid_identifier_bytes;

verus! {

/// A mutating call, validated and ready to encode: the target contract, the
/// function, its ordered typed parameters, and the gas the caller authorizes.
#[derive(Debug, Clone)]
pub struct CallRequest {
    pub address: ContractAddress,
    pub function: FunctionName,
    pub params: Vec<ParamValue>,
    pub gas_limit: u64,
}

impl CallRequest {
    /// The address and function name a request is built of are validated.
    pub open spec fn wf(&self) -> bool {
        self.address.wf() && self.function.wf()
    }
}

/// A read-only query, validated and ready to encode.  No gas limit: a query
/// costs none.
#[derive(Debug, Clone)]
pub struct QueryRequest {
    pub address: ContractAddress,
    pub key: DataKey,
}

impl QueryRequest {
    /// The address and key a request is built of are validated.
    pub open spec fn wf(&self) -> bool {
        self.address.wf() && self.key.wf()
    }
}

/// An encoded call, ready for the transport: where to send it, the binary
/// payload, and the gas limit to attach to the transaction.
#[derive(Debug, Clone)]
pub struct EncodedCall {
    pub address: ContractAddress,
    pub payload: Vec<u8>,
    pub gas_limit: u64,
}

/// An encoded query, ready for the transport.
#[derive(Debug, Clone)]
pub struct EncodedQuery {
    pub address: ContractAddress,
    pub payload: Vec<u8>,
}

/// Encodes a validated call request.  Fails with `EncodingError` exactly
/// when some parameter's value does not match its declared type; the
/// request's strings, already validated, cannot fail here.
pub fn encode_call(req: &CallRequest) -> (r: Result<EncodedCall, InteractionError>)
    ensures
        r is Ok <==> all_params_wf(params_view(req.params@)),
        r matches Ok(ec) ==> ec.address@ == req.address@ && ec.gas_limit == req.gas_limit
            && ec.payload@ == encode_call_payload(req.function@, params_view(req.params@)),
        r is Err ==> r == Err::<EncodedCall, InteractionError>(InteractionError::EncodingError),
{
    let payload = encode_call_payload_vec(req.function.bytes(), &req.params)?;
    Ok(EncodedCall { address: req.address.duplicate(), payload, gas_limit: req.gas_limit })
}

/// Encodes a validated query request.  A query has no parameters, so
/// encoding cannot fail.
pub fn encode_query(req: &QueryRequest) -> (eq: EncodedQuery)
    ensures
        eq.address@ == req.address@,
        eq.payload@ == encode_query_payload(req.key@),
{
    let payload = encode_query_payload_vec(req.key.bytes());
    EncodedQuery { address: req.address.duplicate(), payload }
}

/// Validates and encodes a call to a function on a smart contract: the front
/// of the pipeline.  The caller's transport sends the result and
/// `transport::complete_call` interprets what came back.
///
/// Exactly one of four things happens, checked in this order: a malformed or
/// empty contract address fails with `InvalidContractAddress`; a malformed or
/// empty function name fails with `InvalidFunctionName`; a parameter whose
/// value does not match its declared type fails with `EncodingError`;
/// otherwise the encoded call is returned.
pub fn call_contract_function(
    contract_address: &str,
    function_name: &str,
    params: Vec<ParamValue>,
    gas_limit: u64,
) -> (r: Result<EncodedCall, InteractionError>)
    ensures
        !valid_address_bytes(contract_address.spec_bytes()) ==> r == Err::<
            EncodedCall,
            InteractionError,
        >(InteractionError::InvalidContractAddress),
        valid_address_bytes(contract_address.spec_bytes()) && !valid_identifier_bytes(
            function_name.spec_bytes(),
        ) ==> r == Err::<EncodedCall, InteractionError>(InteractionError::InvalidFunctionName),
        valid_address_bytes(contract_address.spec_bytes()) && valid_identifier_bytes(
            function_name.spec_bytes(),
        ) && !all_params_wf(params_view(params@)) ==> r == Err::<EncodedCall, InteractionError>(
            InteractionError::EncodingError,
        ),
        valid_address_bytes(contract_address.spec_bytes()) && valid_identifier_bytes(
            function_name.spec_bytes(),
        ) && all_params_wf(params_view(params@)) ==> (r matches Ok(ec) && ec.address@
            == contract_address.spec_bytes() && ec.gas_limit == gas_limit && ec.payload@
            == encode_call_payload(function_name.spec_bytes(), params_view(params@))),
{
    let address = ContractAddress::new(contract_address)?;
    let function = FunctionName::new(function_name)?;
    let req = CallRequest { address, function, params, gas_limit };
    encode_call(&req)
}

/// Validates and encodes a fetch of a keyed data value from a smart
/// contract: the front of the pipeline.  The caller's transport sends the
/// result and `transport::complete_query` interprets what came back.
///
/// A malformed or empty contract address fails with
/// `InvalidContractAddress`; then a malformed or empty data key fails with
/// `InvalidDataKey`; otherwise the encoded query is returned.
pub fn fetch_contract_data(contract_address: &str, data_key: &str) -> (r: Result<
    EncodedQuery,
    InteractionError,
>)
    ensures
        !valid_address_bytes(contract_address.spec_bytes()) ==> r == Err::<
            EncodedQuery,
            InteractionError,
        >(InteractionError::InvalidContractAddress),
        valid_address_bytes(contract_address.spec_bytes()) && !valid_identifier_bytes(
            data_key.spec_bytes(),
        ) ==> r == Err::<EncodedQuery, InteractionError>(InteractionError::InvalidDataKey),
        valid_address_bytes(contract_address.spec_bytes()) && valid_identifier_bytes(
            data_key.spec_bytes(),
        ) ==> (r matches Ok(eq) && eq.address@ == contract_address.spec_bytes() && eq.payload@
            == encode_query_payload(data_key.spec_bytes())),
{
    let address = ContractAddress::new(contract_address)?;
    let key = DataKey::new(data_key)?;
    let req = QueryRequest { address, key };
    Ok(encode_query(&req))
}

} // verus!
