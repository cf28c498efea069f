//! Syntactic validation of contract addresses and of function-name / data-key
//! identifiers, and the validated types the rest of the client works with.
//!
//! Validation is purely syntactic: it confirms that an address or identifier
//! matches the chain's grammar, not that the contract exists on-chain.  A
//! validated value is never empty, which removes the "invalid address" class
//! of error from every later stage.
//!
//! The grammar: an address is `0x` followed by one or more hexadecimal
//! digits; a function name or data key is an ASCII identifier (a letter or
//! underscore, then letters, digits and underscores).  Both are therefore
//! pure ASCII, so the byte view of the input string is exactly its
//! characters.

use vstd::prelude::*;
use vstd::string::StrSliceExecFns;
use vstd::string::StringSliceAdditionalSpecFns;

use crate::errors::InteractionError;

verus! {

/// Is `b` the ASCII code of a hexadecimal digit?
pub open spec fn is_hex_digit_byte(b: u8) -> bool {
    (0x30 <= b && b <= 0x39)  // '0' ..= '9'
    || (0x41 <= b && b <= 0x46)  // 'A' ..= 'F'
    || (0x61 <= b && b <= 0x66)  // 'a' ..= 'f'
}

/// Is `b` the ASCII code of a letter or an underscore?
pub open spec fn is_ident_start_byte(b: u8) -> bool {
    (0x41 <= b && b <= 0x5a)  // 'A' ..= 'Z'
    || (0x61 <= b && b <= 0x7a)  // 'a' ..= 'z'
    || b == 0x5f  // '_'
}

/// Is `b` the ASCII code of a letter, a digit or an underscore?
pub open spec fn is_ident_byte(b: u8) -> bool {
    is_ident_start_byte(b) || (0x30 <= b && b <= 0x39)
}

/// The address grammar over UTF-8 bytes: `0x` followed by at least one
/// hexadecimal digit.  A non-ASCII input cannot satisfy this, since every
/// byte of a multi-byte UTF-8 character is at least 0x80.
pub open spec fn valid_address_bytes(s: Seq<u8>) -> bool {
    &&& s.len() >= 3
    &&& s[0] == 0x30  // '0'
    &&& s[1] == 0x78  // 'x'
    &&& forall|i: int| 2 <= i < s.len() ==> is_hex_digit_byte(#[trigger] s[i])
}

/// The identifier grammar over UTF-8 bytes: a letter or underscore followed
/// by letters, digits and underscores.
pub open spec fn valid_identifier_bytes(s: Seq<u8>) -> bool {
    &&& s.len() >= 1
    &&& is_ident_start_byte(s[0])
    &&& forall|i: int| 1 <= i < s.len() ==> is_ident_byte(#[trigger] s[i])
}

fn byte_is_hex_digit(b: u8) -> (r: bool)
    ensures
        r == is_hex_digit_byte(b),
{
    (0x30 <= b && b <= 0x39) || (0x41 <= b && b <= 0x46) || (0x61 <= b && b <= 0x66)
}

fn byte_is_ident_start(b: u8) -> (r: bool)
    ensures
        r == is_ident_start_byte(b),
{
    (0x41 <= b && b <= 0x5a) || (0x61 <= b && b <= 0x7a) || b == 0x5f
}

fn byte_is_ident(b: u8) -> (r: bool)
    ensures
        r == is_ident_byte(b),
{
    byte_is_ident_start(b) || (0x30 <= b && b <= 0x39)
}

/// Does `b` hold a grammar-valid contract address?
pub fn check_address_bytes(b: &Vec<u8>) -> (r: bool)
    ensures
        r == valid_address_bytes(b@),
{
    if b.len() < 3 {
        return false;
    }
    if b[0] != 0x30 || b[1] != 0x78 {
        return false;
    }
    let mut i: usize = 2;
    while i < b.len()
        invariant
            2 <= i <= b@.len(),
            b@.len() >= 3,
            b@[0] == 0x30,
            b@[1] == 0x78,
            forall|j: int| 2 <= j < i ==> is_hex_digit_byte(#[trigger] b@[j]),
        decreases b@.len() - i,
    {
        if !byte_is_hex_digit(b[i]) {
            return false;
        }
        i = i + 1;
    }
    true
}

/// Does `b` hold a grammar-valid identifier (function name or data key)?
pub fn check_identifier_bytes(b: &Vec<u8>) -> (r: bool)
    ensures
        r == valid_identifier_bytes(b@),
{
    if b.len() < 1 {
        return false;
    }
    if !byte_is_ident_start(b[0]) {
        return false;
    }
    let mut i: usize = 1;
    while i < b.len()
        invariant
            1 <= i <= b@.len(),
            b@.len() >= 1,
            is_ident_start_byte(b@[0]),
            forall|j: int| 1 <= j < i ==> is_ident_byte(#[trigger] b@[j]),
        decreases b@.len() - i,
    {
        if !byte_is_ident(b[i]) {
            return false;
        }
        i = i + 1;
    }
    true
}

fn clone_bytes(src: &Vec<u8>) -> (out: Vec<u8>)
    ensures
        out@ == src@,
{
    let mut out: Vec<u8> = Vec::new();
    let mut k: usize = 0;
    while k < src.len()
        invariant
            0 <= k <= src@.len(),
            out@ == src@.take(k as int),
        decreases src@.len() - k,
    {
        out.push(src[k]);
        assert(out@ =~= src@.take(k as int + 1));
        k = k + 1;
    }
    assert(out@ =~= src@);
    out
}

/// A validated contract address: the UTF-8 bytes of an address that matches
/// the grammar.  Immutable once constructed; invalid forms are rejected at
/// construction, never at use.
#[derive(Debug, Clone, PartialEq, Eq)]
pub struct ContractAddress {
    bytes: Vec<u8>,
}

impl View for ContractAddress {
    type V = Seq<u8>;

    closed spec fn view(&self) -> Seq<u8> {
        self.bytes@
    }
}

impl ContractAddress {
    /// Every constructed address satisfies the address grammar.
    pub open spec fn wf(&self) -> bool {
        valid_address_bytes(self@)
    }

    /// Validates `s` as a contract address.
    pub fn new(s: &str) -> (r: Result<ContractAddress, InteractionError>)
        ensures
            r is Ok <==> valid_address_bytes(s.spec_bytes()),
            r matches Ok(a) ==> a@ == s.spec_bytes() && a.wf(),
            r is Err ==> r == Err::<ContractAddress, InteractionError>(
                InteractionError::InvalidContractAddress,
            ),
    {
        let bytes = s.as_bytes_vec();
        if check_address_bytes(&bytes) {
            Ok(ContractAddress { bytes })
        } else {
            Err(InteractionError::InvalidContractAddress)
        }
    }

    /// The raw bytes of the address, for the transport to route by.
    pub fn bytes(&self) -> (r: &Vec<u8>)
        ensures
            r@ == self@,
    {
        &self.bytes
    }

    /// A copy of the address, equal byte for byte.
    pub fn duplicate(&self) -> (r: ContractAddress)
        ensures
            r@ == self@,
    {
        ContractAddress { bytes: clone_bytes(&self.bytes) }
    }
}

/// A validated function name.
#[derive(Debug, Clone, PartialEq, Eq)]
pub struct FunctionName {
    bytes: Vec<u8>,
}

impl View for FunctionName {
    type V = Seq<u8>;

    closed spec fn view(&self) -> Seq<u8> {
        self.bytes@
    }
}

impl FunctionName {
    /// Every constructed function name satisfies the identifier grammar.
    pub open spec fn wf(&self) -> bool {
        valid_identifier_bytes(self@)
    }

    /// Validates `s` as a function name.
    pub fn new(s: &str) -> (r: Result<FunctionName, InteractionError>)
        ensures
            r is Ok <==> valid_identifier_bytes(s.spec_bytes()),
            r matches Ok(n) ==> n@ == s.spec_bytes() && n.wf(),
            r is Err ==> r == Err::<FunctionName, InteractionError>(
                InteractionError::InvalidFunctionName,
            ),
    {
        let bytes = s.as_bytes_vec();
        if check_identifier_bytes(&bytes) {
            Ok(FunctionName { bytes })
        } else {
            Err(InteractionError::InvalidFunctionName)
        }
    }

    /// The raw bytes of the name.
    pub fn bytes(&self) -> (r: &Vec<u8>)
        ensures
            r@ == self@,
    {
        &self.bytes
    }

    /// A copy of the name, equal byte for byte.
    pub fn duplicate(&self) -> (r: FunctionName)
        ensures
            r@ == self@,
    {
        FunctionName { bytes: clone_bytes(&self.bytes) }
    }
}

/// A validated data key for a read-only query.
#[derive(Debug, Clone, PartialEq, Eq)]
pub struct DataKey {
    bytes: Vec<u8>,
}

impl View for DataKey {
    type V = Seq<u8>;

    closed spec fn view(&self) -> Seq<u8> {
        self.bytes@
    }
}

impl DataKey {
    /// Every constructed data key satisfies the identifier grammar.
    pub open spec fn wf(&self) -> bool {
        valid_identifier_bytes(self@)
    }

    /// Validates `s` as a data key.
    pub fn new(s: &str) -> (r: Result<DataKey, InteractionError>)
        ensures
            r is Ok <==> valid_identifier_bytes(s.spec_bytes()),
            r matches Ok(k) ==> k@ == s.spec_bytes() && k.wf(),
            r is Err ==> r == Err::<DataKey, InteractionError>(InteractionError::InvalidDataKey),
    {
        let bytes = s.as_bytes_vec();
        if check_identifier_bytes(&bytes) {
            Ok(DataKey { bytes })
        } else {
            Err(InteractionError::InvalidDataKey)
        }
    }

    /// The raw bytes of the key.
    pub fn bytes(&self) -> (r: &Vec<u8>)
        ensures
            r@ == self@,
    {
        &self.bytes
    }

    /// A copy of the key, equal byte for byte.
    pub fn duplicate(&self) -> (r: DataKey)
        ensures
            r@ == self@,
    {
        DataKey { bytes: clone_bytes(&self.bytes) }
    }
}

} // verus!
