//! The binary form of calls, queries and node responses.
//!
//! Every field is self-describing: a parameter is a one-byte tag followed by
//! its value, variable-length bodies carry their length as a little-endian
//! `u64`, and a response opens with a one-byte status.  Encoding and decoding
//! are pure transforms, and decoding an encoded parameter list yields the
//! original list (`lemma_params_round_trip`).

use vstd::prelude::*;
use vstd::bytes::lemma_auto_spec_u64_to_from_le_bytes;
use vstd::bytes::spec_u64_from_le_bytes;
use vstd::bytes::spec_u64_to_le_bytes;
use vstd::bytes::u64_from_le_bytes;
use vstd::bytes::u64_to_le_bytes;

use crate::errors::InteractionError;
use crate::params::ParamData;
use crate::params::ParamValue;
use crate::params::all_params_wf;
use crate::params::param_data_wf;
use crate::params::param_is_wf;
use crate::params::params_are_wf;
use crate::params::params_view;

verus! {

/// Tag byte of a boolean parameter.
pub const TAG_BOOL: u8 = 1;

/// Tag byte of an unsigned 64-bit integer parameter.
pub const TAG_UINT: u8 = 2;

/// Tag byte of a byte-string parameter.
pub const TAG_BYTES: u8 = 3;

/// Tag byte of an ASCII text parameter.
pub const TAG_TEXT: u8 = 4;

/// The encoding of one parameter: its tag, then its value; variable-length
/// bodies are preceded by their length as a little-endian `u64`.
pub open spec fn encode_param(p: ParamData) -> Seq<u8> {
    match p {
        ParamData::Bool(b) => seq![TAG_BOOL, if b { 1u8 } else { 0u8 }],
        ParamData::Uint(v) => seq![TAG_UINT] + spec_u64_to_le_bytes(v),
        ParamData::Bytes(d) => seq![TAG_BYTES] + spec_u64_to_le_bytes(d.len() as u64) + d,
        ParamData::Text(t) => seq![TAG_TEXT] + spec_u64_to_le_bytes(t.len() as u64) + t,
    }
}

/// The encoding of an ordered parameter list: the parameters' encodings, in
/// order, with nothing between them.
pub open spec fn encode_params(ps: Seq<ParamData>) -> Seq<u8>
    decreases ps.len(),
{
    if ps.len() == 0 {
        Seq::empty()
    } else {
        encode_param(ps[0]) + encode_params(ps.skip(1))
    }
}

/// Reads one parameter off the front of `s`: the parameter and how many bytes
/// it occupied, or `None` if `s` does not begin with a well-formed encoding.
pub open spec fn decode_param_at(s: Seq<u8>) -> Option<(ParamData, int)> {
    if s.len() < 1 {
        None
    } else if s[0] == TAG_BOOL {
        if 2 <= s.len() && (s[1] == 0 || s[1] == 1) {
            Some((ParamData::Bool(s[1] == 1), 2))
        } else {
            None
        }
    } else if s[0] == TAG_UINT {
        if 9 <= s.len() {
            Some((ParamData::Uint(spec_u64_from_le_bytes(s.subrange(1, 9))), 9))
        } else {
            None
        }
    } else if s[0] == TAG_BYTES {
        if 9 <= s.len() && 9 + spec_u64_from_le_bytes(s.subrange(1, 9)) <= s.len() {
            let l = spec_u64_from_le_bytes(s.subrange(1, 9)) as int;
            Some((ParamData::Bytes(s.subrange(9, 9 + l)), 9 + l))
        } else {
            None
        }
    } else if s[0] == TAG_TEXT {
        if 9 <= s.len() && 9 + spec_u64_from_le_bytes(s.subrange(1, 9)) <= s.len() {
            let l = spec_u64_from_le_bytes(s.subrange(1, 9)) as int;
            let body = s.subrange(9, 9 + l);
            if forall|i: int| 0 <= i < body.len() ==> #[trigger] body[i] < 0x80 {
                Some((ParamData::Text(body), 9 + l))
            } else {
                None
            }
        } else {
            None
        }
    } else {
        None
    }
}

/// Decodes a whole byte string as a parameter list; `None` if any byte is
/// left over or malformed.
pub open spec fn decode_params_from(s: Seq<u8>) -> Option<Seq<ParamData>>
    decreases s.len(),
{
    if s.len() == 0 {
        Some(Seq::empty())
    } else {
        match decode_param_at(s) {
            None => None,
            Some((p, n)) => if 1 <= n <= s.len() {
                match decode_params_from(s.skip(n)) {
                    None => None,
                    Some(rest) => Some(seq![p] + rest),
                }
            } else {
                None
            },
        }
    }
}

/// A well-formed parameter's encoding is read back off any front: decoding
/// `encode_param(p) + rest` yields `p` and consumes exactly the encoding.
pub(crate) proof fn lemma_decode_param_at_encode(p: ParamData, rest: Seq<u8>)
    requires
        param_data_wf(p),
    ensures
        1 <= encode_param(p).len(),
        decode_param_at(encode_param(p) + rest) == Some((p, encode_param(p).len() as int)),
{
    lemma_auto_spec_u64_to_from_le_bytes();
    let e = encode_param(p);
    let s = e + rest;
    match p {
        ParamData::Bool(b) => {
            assert(s[0] == TAG_BOOL && s[1] == (if b { 1u8 } else { 0u8 }));
        },
        ParamData::Uint(v) => {
            assert(s.subrange(1, 9) =~= spec_u64_to_le_bytes(v));
        },
        ParamData::Bytes(d) => {
            assert(s.subrange(1, 9) =~= spec_u64_to_le_bytes(d.len() as u64));
            let l = spec_u64_from_le_bytes(s.subrange(1, 9)) as int;
            assert(l == d.len());
            assert(s.subrange(9, 9 + l) =~= d);
        },
        ParamData::Text(t) => {
            assert(s.subrange(1, 9) =~= spec_u64_to_le_bytes(t.len() as u64));
            let l = spec_u64_from_le_bytes(s.subrange(1, 9)) as int;
            assert(l == t.len());
            assert(s.subrange(9, 9 + l) =~= t);
        },
    }
}

/// Round trip: decoding the encoding of any list of well-formed parameters
/// yields exactly the original list.
pub proof fn lemma_params_round_trip(ps: Seq<ParamData>)
    requires
        all_params_wf(ps),
    ensures
        decode_params_from(encode_params(ps)) == Some(ps),
    decreases ps.len(),
{
    if ps.len() == 0 {
        assert(encode_params(ps) =~= Seq::<u8>::empty());
    } else {
        let head = encode_param(ps[0]);
        let tail = encode_params(ps.skip(1));
        let s = head + tail;
        assert(encode_params(ps) == s);
        lemma_decode_param_at_encode(ps[0], tail);
        assert(all_params_wf(ps.skip(1)));
        lemma_params_round_trip(ps.skip(1));
        assert(s.skip(head.len() as int) =~= tail);
        assert(seq![ps[0]] + ps.skip(1) =~= ps);
    }
}

/// Appending one parameter to a list appends its encoding.
proof fn lemma_encode_params_push(ps: Seq<ParamData>, p: ParamData)
    ensures
        encode_params(ps.push(p)) == encode_params(ps) + encode_param(p),
    decreases ps.len(),
{
    if ps.len() == 0 {
        let q = ps.push(p);
        assert(q[0] == p);
        assert(q.skip(1) =~= Seq::<ParamData>::empty());
        assert(encode_params(q.skip(1)) == Seq::<u8>::empty());
        assert(encode_params(q) == encode_param(p) + encode_params(q.skip(1)));
        assert(encode_params(q) =~= encode_param(p));
        assert(encode_params(ps) + encode_param(p) =~= encode_param(p));
    } else {
        assert(ps.push(p)[0] == ps[0]);
        assert(ps.push(p).skip(1) =~= ps.skip(1).push(p));
        lemma_encode_params_push(ps.skip(1), p);
        assert(encode_param(ps[0]) + (encode_params(ps.skip(1)) + encode_param(p)) =~= (
        encode_param(ps[0]) + encode_params(ps.skip(1))) + encode_param(p));
    }
}

/// Appends `src`'s bytes to `out`.
pub(crate) fn append_bytes(out: &mut Vec<u8>, src: &Vec<u8>)
    ensures
        final(out)@ == old(out)@ + src@,
{
    let mut k: usize = 0;
    while k < src.len()
        invariant
            0 <= k <= src@.len(),
            out@ == old(out)@ + src@.take(k as int),
        decreases src@.len() - k,
    {
        out.push(src[k]);
        assert(old(out)@ + src@.take(k as int) + seq![src@[k as int]] =~= old(out)@ + src@.take(
            k as int + 1,
        ));
        k = k + 1;
    }
    assert(src@.take(src@.len() as int) =~= src@);
}

/// Appends the encoding of one well-formed parameter to `out`.
pub(crate) fn encode_param_into(out: &mut Vec<u8>, p: &ParamValue)
    requires
        param_data_wf(p@),
    ensures
        final(out)@ == old(out)@ + encode_param(p@),
{
    match p {
        ParamValue::Bool(b) => {
            out.push(TAG_BOOL);
            out.push(if *b { 1 } else { 0 });
            assert(out@ =~= old(out)@ + encode_param(p@));
        },
        ParamValue::Uint(v) => {
            out.push(TAG_UINT);
            let le = u64_to_le_bytes(*v);
            append_bytes(out, &le);
            assert(out@ =~= old(out)@ + encode_param(p@));
        },
        ParamValue::Bytes(d) => {
            out.push(TAG_BYTES);
            let le = u64_to_le_bytes(d.len() as u64);
            append_bytes(out, &le);
            append_bytes(out, d);
            assert(out@ =~= old(out)@ + encode_param(p@));
        },
        ParamValue::Text(t) => {
            out.push(TAG_TEXT);
            let le = u64_to_le_bytes(t.len() as u64);
            append_bytes(out, &le);
            append_bytes(out, t);
            assert(out@ =~= old(out)@ + encode_param(p@));
        },
    }
}

/// Encodes an ordered parameter list.  Succeeds exactly when every
/// parameter's value matches its declared type; otherwise nothing of the
/// list can be serialized and the encoder fails.
pub fn encode_params_vec(ps: &Vec<ParamValue>) -> (r: Result<Vec<u8>, InteractionError>)
    ensures
        r is Ok <==> all_params_wf(params_view(ps@)),
        r matches Ok(out) ==> out@ == encode_params(params_view(ps@)),
        r is Err ==> r == Err::<Vec<u8>, InteractionError>(InteractionError::EncodingError),
{
    if !params_are_wf(ps) {
        return Err(InteractionError::EncodingError);
    }
    let mut out: Vec<u8> = Vec::new();
    let mut i: usize = 0;
    while i < ps.len()
        invariant
            0 <= i <= ps@.len(),
            all_params_wf(params_view(ps@)),
            out@ == encode_params(params_view(ps@).take(i as int)),
        decreases ps@.len() - i,
    {
        proof {
            assert(params_view(ps@)[i as int] == ps@[i as int]@);
            assert(param_data_wf(ps@[i as int]@));
            lemma_encode_params_push(params_view(ps@).take(i as int), ps@[i as int]@);
            assert(params_view(ps@).take(i as int).push(params_view(ps@)[i as int]) =~= params_view(
                ps@,
            ).take(i as int + 1));
        }
        encode_param_into(&mut out, &ps[i]);
        i = i + 1;
    }
    proof {
        assert(params_view(ps@).take(ps@.len() as int) =~= params_view(ps@));
    }
    Ok(out)
}

/// A decoded prefix, put back in front of the decoding of the remainder.
pub open spec fn prepend_decoded(prefix: Seq<ParamData>, o: Option<Seq<ParamData>>) -> Option<
    Seq<ParamData>,
> {
    match o {
        None => None,
        Some(t) => Some(prefix + t),
    }
}

proof fn lemma_prepend_decoded_assoc(a: Seq<ParamData>, b: Seq<ParamData>, o: Option<Seq<ParamData>>)
    ensures
        prepend_decoded(a, prepend_decoded(b, o)) == prepend_decoded(a + b, o),
{
    match o {
        None => {},
        Some(t) => {
            assert(a + (b + t) =~= (a + b) + t);
        },
    }
}

/// Copies `count` bytes of `src` starting at `start`.
pub(crate) fn copy_range(src: &Vec<u8>, start: usize, count: usize) -> (out: Vec<u8>)
    requires
        start + count <= src@.len(),
    ensures
        out@ == src@.subrange(start as int, start as int + count as int),
{
    let mut out: Vec<u8> = Vec::new();
    let mut k: usize = 0;
    assert(src.len() == src@.len());
    while k < count
        invariant
            0 <= k <= count,
            start + count <= src@.len(),
            src@.len() <= usize::MAX,
            out@ == src@.subrange(start as int, start as int + k as int),
        decreases count - k,
    {
        out.push(src[start + k]);
        assert(out@ =~= src@.subrange(start as int, start as int + (k + 1) as int));
        k = k + 1;
    }
    out
}

/// Reads one parameter of `bytes` starting at `i`, as `decode_param_at` does
/// on the remainder of `bytes` from `i` on.
pub(crate) fn decode_param_at_exec(bytes: &Vec<u8>, i: usize) -> (r: Option<(ParamValue, usize)>)
    requires
        i < bytes@.len(),
    ensures
        match decode_param_at(bytes@.skip(i as int)) {
            None => r is None,
            Some((pd, n)) => r matches Some(pm) && pm.0@ == pd && pm.1 as int == n && i + pm.1
                <= bytes@.len() && 1 <= pm.1,
        },
{
    let ghost s = bytes@.skip(i as int);
    let remaining = bytes.len() - i;
    let tag = bytes[i];
    assert(s[0] == bytes@[i as int] && s.len() == remaining);
    if tag == TAG_BOOL {
        if remaining >= 2 && (bytes[i + 1] == 0 || bytes[i + 1] == 1) {
            assert(s[1] == bytes@[i as int + 1]);
            Some((ParamValue::Bool(bytes[i + 1] == 1), 2))
        } else {
            assert(remaining >= 2 ==> s[1] == bytes@[i as int + 1]);
            None
        }
    } else if tag == TAG_UINT {
        if remaining >= 9 {
            let le = copy_range(bytes, i + 1, 8);
            assert(le@ =~= s.subrange(1, 9));
            let v = u64_from_le_bytes(le.as_slice());
            Some((ParamValue::Uint(v), 9))
        } else {
            None
        }
    } else if tag == TAG_BYTES || tag == TAG_TEXT {
        if remaining >= 9 {
            let le = copy_range(bytes, i + 1, 8);
            assert(le@ =~= s.subrange(1, 9));
            let l64 = u64_from_le_bytes(le.as_slice());
            let avail = remaining - 9;
            if l64 <= avail as u64 {
                let l = l64 as usize;
                let body = copy_range(bytes, i + 9, l);
                assert(body@ =~= s.subrange(9, 9 + l as int));
                if tag == TAG_BYTES {
                    Some((ParamValue::Bytes(body), 9 + l))
                } else {
                    let pv = ParamValue::Text(body);
                    if param_is_wf(&pv) {
                        Some((pv, 9 + l))
                    } else {
                        None
                    }
                }
            } else {
                None
            }
        } else {
            None
        }
    } else {
        None
    }
}

/// Decodes a byte string as an ordered parameter list.  Succeeds exactly when
/// the whole of `bytes` is a well-formed encoding; any malformed or left-over
/// byte fails the decode.
pub fn decode_params_vec(bytes: &Vec<u8>) -> (r: Result<Vec<ParamValue>, InteractionError>)
    ensures
        match decode_params_from(bytes@) {
            Some(ps) => r matches Ok(v) && params_view(v@) == ps,
            None => r == Err::<Vec<ParamValue>, InteractionError>(InteractionError::DecodingError),
        },
{
    let mut out: Vec<ParamValue> = Vec::new();
    let mut i: usize = 0;
    proof {
        assert(bytes@.skip(0) =~= bytes@);
        assert(params_view(out@) =~= Seq::<ParamData>::empty());
        match decode_params_from(bytes@) {
            None => {},
            Some(t) => {
                assert(params_view(out@) + t =~= t);
            },
        }
    }
    while i < bytes.len()
        invariant
            0 <= i <= bytes@.len(),
            decode_params_from(bytes@) == prepend_decoded(
                params_view(out@),
                decode_params_from(bytes@.skip(i as int)),
            ),
        decreases bytes@.len() - i,
    {
        let ghost s = bytes@.skip(i as int);
        match decode_param_at_exec(bytes, i) {
            None => {
                assert(decode_param_at(s) is None);
                assert(decode_params_from(s) is None);
                return Err(InteractionError::DecodingError);
            },
            Some((pv, m)) => {
                proof {
                    let pd = decode_param_at(s)->Some_0.0;
                    let n = decode_param_at(s)->Some_0.1;
                    assert(pv@ == pd && m as int == n);
                    assert(decode_params_from(s) == prepend_decoded(
                        seq![pd],
                        decode_params_from(s.skip(n)),
                    ));
                    assert(s.skip(n) =~= bytes@.skip(i as int + m as int));
                    lemma_prepend_decoded_assoc(
                        params_view(out@),
                        seq![pd],
                        decode_params_from(bytes@.skip(i as int + m as int)),
                    );
                    assert(params_view(out@.push(pv)) =~= params_view(out@) + seq![pd]);
                }
                out.push(pv);
                i = i + m;
            },
        }
    }
    proof {
        assert(bytes@.skip(i as int) =~= Seq::<u8>::empty());
        assert(decode_params_from(bytes@.skip(i as int)) == Some(Seq::<ParamData>::empty()));
        assert(params_view(out@) + Seq::<ParamData>::empty() =~= params_view(out@));
    }
    Ok(out)
}

/// The payload of a call: the function name, length-prefixed, then the
/// encoded parameter list.
pub open spec fn encode_call_payload(name: Seq<u8>, ps: Seq<ParamData>) -> Seq<u8> {
    spec_u64_to_le_bytes(name.len() as u64) + name + encode_params(ps)
}

/// The payload of a query: the data key, length-prefixed.
pub open spec fn encode_query_payload(key: Seq<u8>) -> Seq<u8> {
    spec_u64_to_le_bytes(key.len() as u64) + key
}

/// Splits a call payload back into the function name and the parameter list,
/// as a node would; `None` if the payload is malformed.
pub open spec fn decode_call_payload_spec(s: Seq<u8>) -> Option<(Seq<u8>, Seq<ParamData>)> {
    if s.len() < 8 {
        None
    } else {
        let l = spec_u64_from_le_bytes(s.subrange(0, 8)) as int;
        if 8 + l <= s.len() {
            match decode_params_from(s.skip(8 + l)) {
                None => None,
                Some(ps) => Some((s.subrange(8, 8 + l), ps)),
            }
        } else {
            None
        }
    }
}

/// Round trip at the call level: a node that decodes an encoded call reads
/// back exactly the function name and the typed parameter list that went in.
pub proof fn lemma_call_payload_round_trip(name: Seq<u8>, ps: Seq<ParamData>)
    requires
        name.len() <= u64::MAX,
        all_params_wf(ps),
    ensures
        decode_call_payload_spec(encode_call_payload(name, ps)) == Some((name, ps)),
{
    lemma_auto_spec_u64_to_from_le_bytes();
    let s = encode_call_payload(name, ps);
    assert(s.subrange(0, 8) =~= spec_u64_to_le_bytes(name.len() as u64));
    let l = spec_u64_from_le_bytes(s.subrange(0, 8)) as int;
    assert(l == name.len());
    assert(s.subrange(8, 8 + l) =~= name);
    assert(s.skip(8 + l) =~= encode_params(ps));
    lemma_params_round_trip(ps);
}

/// Encodes the payload of a call.  Succeeds exactly when every parameter's
/// value matches its declared type.
pub fn encode_call_payload_vec(name: &Vec<u8>, ps: &Vec<ParamValue>) -> (r: Result<
    Vec<u8>,
    InteractionError,
>)
    ensures
        r is Ok <==> all_params_wf(params_view(ps@)),
        r matches Ok(out) ==> out@ == encode_call_payload(name@, params_view(ps@)),
        r is Err ==> r == Err::<Vec<u8>, InteractionError>(InteractionError::EncodingError),
{
    let encoded_params = encode_params_vec(ps)?;
    let mut out = u64_to_le_bytes(name.len() as u64);
    append_bytes(&mut out, name);
    append_bytes(&mut out, &encoded_params);
    assert(out@ =~= encode_call_payload(name@, params_view(ps@)));
    Ok(out)
}

/// Encodes the payload of a query.
pub fn encode_query_payload_vec(key: &Vec<u8>) -> (out: Vec<u8>)
    ensures
        out@ == encode_query_payload(key@),
{
    let mut out = u64_to_le_bytes(key.len() as u64);
    append_bytes(&mut out, key);
    assert(out@ =~= encode_query_payload(key@));
    out
}

/// Splits a call payload into the function name's bytes and the decoded
/// parameter list, as `decode_call_payload_spec` reads it.
pub fn decode_call_payload(payload: &Vec<u8>) -> (r: Result<
    (Vec<u8>, Vec<ParamValue>),
    InteractionError,
>)
    ensures
        match decode_call_payload_spec(payload@) {
            Some((name, ps)) => r matches Ok(np) && np.0@ == name && params_view(np.1@) == ps,
            None => r == Err::<(Vec<u8>, Vec<ParamValue>), InteractionError>(
                InteractionError::DecodingError,
            ),
        },
{
    if payload.len() < 8 {
        return Err(InteractionError::DecodingError);
    }
    let le = copy_range(payload, 0, 8);
    assert(le@ =~= payload@.subrange(0, 8));
    let l64 = u64_from_le_bytes(le.as_slice());
    let avail = payload.len() - 8;
    if l64 > avail as u64 {
        return Err(InteractionError::DecodingError);
    }
    let l = l64 as usize;
    let name = copy_range(payload, 8, l);
    assert(name@ =~= payload@.subrange(8, 8 + l as int));
    let rest = copy_range(payload, 8 + l, payload.len() - 8 - l);
    assert(rest@ =~= payload@.skip(8 + l as int));
    let ps = decode_params_vec(&rest)?;
    Ok((name, ps))
}

} // verus!
