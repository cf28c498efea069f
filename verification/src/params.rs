//! Typed call parameters.  A parameter is a tagged value — the chain's
//! virtual machine needs the type to decode the call — and its mathematical
//! view is the same value over `Seq<u8>` instead of `Vec<u8>`.

use vstd::prelude::*;

verus! {

/// A typed parameter of a contract call, or a typed value fetched by a query.
#[derive(Debug, Clone, PartialEq, Eq)]
pub enum ParamValue {
    /// A boolean flag.
    Bool(bool),
    /// An unsigned 64-bit integer.
    Uint(u64),
    /// An opaque byte string.
    Bytes(Vec<u8>),
    /// ASCII text, held as its bytes.  Only bytes below 0x80 are text: a
    /// `Text` value with a byte outside ASCII does not match its declared
    /// type and is rejected by the encoder.
    Text(Vec<u8>),
}

/// The mathematical value of a parameter.
pub enum ParamData {
    Bool(bool),
    Uint(u64),
    Bytes(Seq<u8>),
    Text(Seq<u8>),
}

impl View for ParamValue {
    type V = ParamData;

    open spec fn view(&self) -> ParamData {
        match self {
            ParamValue::Bool(b) => ParamData::Bool(*b),
            ParamValue::Uint(v) => ParamData::Uint(*v),
            ParamValue::Bytes(d) => ParamData::Bytes(d@),
            ParamValue::Text(t) => ParamData::Text(t@),
        }
    }
}

/// The views of a list of parameters, in order.
pub open spec fn params_view(ps: Seq<ParamValue>) -> Seq<ParamData> {
    ps.map_values(|p: ParamValue| p@)
}

/// A parameter's value matches its declared type: text is ASCII, and a byte
/// or text body is short enough for its length to be carried in a `u64`.
pub open spec fn param_data_wf(p: ParamData) -> bool {
    match p {
        ParamData::Bool(_) => true,
        ParamData::Uint(_) => true,
        ParamData::Bytes(d) => d.len() <= u64::MAX,
        ParamData::Text(t) => t.len() <= u64::MAX && forall|i: int|
            0 <= i < t.len() ==> #[trigger] t[i] < 0x80,
    }
}

/// Every parameter of the list matches its declared type.
pub open spec fn all_params_wf(ps: Seq<ParamData>) -> bool {
    forall|i: int| 0 <= i < ps.len() ==> param_data_wf(#[trigger] ps[i])
}

/// Does `p`'s value match its declared type?
pub fn param_is_wf(p: &ParamValue) -> (r: bool)
    ensures
        r == param_data_wf(p@),
{
    match p {
        ParamValue::Bool(_) => true,
        ParamValue::Uint(_) => true,
        ParamValue::Bytes(d) => {
            assert(d@.len() == d.len() && d.len() <= u64::MAX);
            true
        },
        ParamValue::Text(t) => {
            assert(t@.len() == t.len() && t.len() <= u64::MAX);
            let mut i: usize = 0;
            let mut ok = true;
            while i < t.len()
                invariant
                    0 <= i <= t@.len(),
                    ok == forall|j: int| 0 <= j < i ==> #[trigger] t@[j] < 0x80,
                decreases t@.len() - i,
            {
                if t[i] >= 0x80 {
                    ok = false;
                }
                i = i + 1;
            }
            ok
        },
    }
}

/// Do all parameters of `ps` match their declared types?
pub fn params_are_wf(ps: &Vec<ParamValue>) -> (r: bool)
    ensures
        r == all_params_wf(params_view(ps@)),
{
    let mut i: usize = 0;
    let mut ok = true;
    while i < ps.len()
        invariant
            0 <= i <= ps@.len(),
            ok == forall|j: int| 0 <= j < i ==> param_data_wf(#[trigger] ps@[j]@),
        decreases ps@.len() - i,
    {
        if !param_is_wf(&ps[i]) {
            ok = false;
        }
        i = i + 1;
    }
    assert(forall|j: int| 0 <= j < ps@.len() ==> params_view(ps@)[j] == #[trigger] ps@[j]@);
    ok
}

} // verus!
