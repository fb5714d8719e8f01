//! Base64 text and bincode-encoded integers.
use vstd::prelude::*;
use crate::bytes::le_u128;

verus! {

/// What `base64::decode` gives for some text (standard alphabet, padded):
/// `None` when the text is not valid base64.
pub uninterp spec fn base64_decoded(text: Seq<char>) -> Option<Seq<u8>>;

/// Character of a six-bit value in the standard base64 alphabet.
pub open spec fn base64_char(v: nat) -> char {
    if v < 26 {
        (65 + v) as char
    } else if v < 52 {
        (71 + v) as char
    } else if v < 62 {
        (v - 4) as char
    } else if v == 62 {
        '+'
    } else {
        '/'
    }
}

/// Standard base64 of some bytes: each group of three bytes becomes four
/// characters of six bits each, high bits first; a last group of one or two
/// bytes is filled with zero bits and `=` up to four characters.
pub open spec fn base64_encoded(data: Seq<u8>) -> Seq<char>
    decreases data.len(),
{
    if data.len() == 0 {
        Seq::empty()
    } else if data.len() == 1 {
        let b0 = data[0] as nat;
        seq![base64_char(b0 / 4), base64_char((b0 % 4) * 16), '=', '=']
    } else if data.len() == 2 {
        let b0 = data[0] as nat;
        let b1 = data[1] as nat;
        seq![base64_char(b0 / 4), base64_char((b0 % 4) * 16 + b1 / 16), base64_char((b1 % 16) * 4), '=']
    } else {
        let b0 = data[0] as nat;
        let b1 = data[1] as nat;
        let b2 = data[2] as nat;
        seq![
            base64_char(b0 / 4),
            base64_char((b0 % 4) * 16 + b1 / 16),
            base64_char((b1 % 16) * 4 + b2 / 64),
            base64_char(b2 % 64),
        ] + base64_encoded(data.subrange(3, data.len() as int))
    }
}

/// `base64::decode` with the standard configuration; its error becomes `None`.
#[verifier::external_body]
pub(crate) fn base64_decode(text: &str) -> (r: Option<Vec<u8>>)
    ensures
        r is Some <==> base64_decoded(text@) is Some,
        r is Some ==> r.unwrap()@ == base64_decoded(text@).unwrap(),
{
    match base64::decode(text) {
        Ok(v) => Some(v),
        Err(_) => None,
    }
}

/// `base64::encode` with the standard configuration (standard alphabet,
/// padded). Its text decodes back to the bytes with `base64::decode`, as the
/// crate's own round-trip tests check.
#[verifier::external_body]
pub(crate) fn base64_encode(data: &[u8]) -> (r: String)
    ensures
        r@ == base64_encoded(data@),
        base64_decoded(r@) == Some(data@),
{
    base64::encode(data)
}

/// `bincode::deserialize::<u128>`: the default options read a `u128` as its
/// sixteen bytes, least significant first, accept trailing bytes and fail
/// when fewer than sixteen bytes are given.
#[verifier::external_body]
fn bincode_u128(data: &[u8]) -> (r: Option<u128>)
    ensures
        r is Some <==> data@.len() >= 16,
        r is Some ==> r.unwrap() == le_u128(data@),
{
    match bincode::deserialize::<u128>(data) {
        Ok(v) => Some(v),
        Err(_) => None,
    }
}

/// An authorization key written as base64 of its bincode encoding: the
/// `u128` read from the decoded bytes, `None` when the text is not base64 or
/// decodes to fewer than sixteen bytes.
pub fn decode_auth_key(auth_b64: &str) -> (r: Option<u128>)
    ensures
        r is Some <==> (base64_decoded(auth_b64@) matches Some(b) && b.len() >= 16),
        r is Some ==> r.unwrap() == le_u128(base64_decoded(auth_b64@).unwrap()),
{
    match base64_decode(auth_b64) {
        Some(bytes) => bincode_u128(bytes.as_slice()),
        None => None,
    }
}

} // verus!
