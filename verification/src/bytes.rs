//! Fixed-width integers read from byte buffers, and bytes written as hex.
use vstd::prelude::*;
use crate::amount::le_value;
use crate::error::BbsError;

verus! {

/// Number of bytes of a `u128`.
pub const U128_LENGTH: usize = 16;

/// `256` to the power `n`.
pub open spec fn pow256(n: nat) -> nat
    decreases n,
{
    if n == 0 {
        1
    } else {
        256 * pow256((n - 1) as nat)
    }
}

proof fn lemma_pow256_mono(a: nat, b: nat)
    requires
        a <= b,
    ensures
        pow256(a) <= pow256(b),
    decreases b,
{
    if a < b {
        lemma_pow256_mono(a, (b - 1) as nat);
    }
}

proof fn lemma_pow256_16()
    ensures
        pow256(16) == 0x1_0000_0000_0000_0000_0000_0000_0000_0000,
{
    reveal_with_fuel(pow256, 17);
}

/// Value of the first sixteen bytes of `data`, least significant first.
pub open spec fn le_u128(data: Seq<u8>) -> nat {
    le_value(data.subrange(0, 16))
}

/// Reads a `u128` from the first sixteen bytes of `data`, least significant
/// byte first; bytes after those are ignored.
pub fn u128_from_le_buffer(data: &[u8]) -> (r: Result<u128, BbsError>)
    ensures
        data@.len() < 16 ==> r == Err::<u128, BbsError>(BbsError::U128TooShort),
        data@.len() >= 16 ==> (r matches Ok(v) && v == le_u128(data@)),
{
    if data.len() < U128_LENGTH {
        return Err(BbsError::U128TooShort);
    }
    let mut v: u128 = 0;
    let mut k: usize = U128_LENGTH;
    proof {
        assert(data@.subrange(16, 16) =~= Seq::<u8>::empty());
    }
    while k > 0
        invariant
            k <= 16,
            data@.len() >= 16,
            v == le_value(data@.subrange(k as int, 16)),
            v < pow256((16 - k) as nat),
        decreases k,
    {
        let d = data[k - 1];
        proof {
            let s = data@.subrange(k - 1, 16);
            assert(s.drop_first() =~= data@.subrange(k as int, 16));
            assert(s[0] == d);
            lemma_pow256_mono((17 - k) as nat, 16);
            lemma_pow256_16();
            let p = pow256((16 - k) as nat);
            assert(v * 256 + d < 256 * p) by (nonlinear_arith)
                requires
                    v < p,
                    d < 256,
            ;
        }
        v = v * 256 + d as u128;
        k = k - 1;
    }
    Ok(v)
}

/// The hex digit, lower case, of a value below sixteen.
pub open spec fn hex_digit(d: nat) -> char {
    if d < 10 {
        (48 + d) as char
    } else {
        (87 + d) as char
    }
}

/// Lower-case hex text of a byte sequence: two digits per byte, high first.
pub open spec fn hex_text(s: Seq<u8>) -> Seq<char>
    decreases s.len(),
{
    if s.len() == 0 {
        Seq::empty()
    } else {
        seq![hex_digit((s[0] / 16) as nat), hex_digit((s[0] % 16) as nat)] + hex_text(s.drop_first())
    }
}

/// `hex::encode`: each byte as two lower-case hex digits, the high one first.
#[verifier::external_body]
pub(crate) fn hex_encode(data: &[u8]) -> (r: String)
    ensures
        r@ == hex_text(data@),
{
    hex::encode(data)
}

/// Value of a hex digit of either case, `None` for any other character.
pub open spec fn hex_value(c: char) -> Option<nat> {
    let v = c as int;
    if 48 <= v <= 57 {
        Some((v - 48) as nat)
    } else if 97 <= v <= 102 {
        Some((v - 87) as nat)
    } else if 65 <= v <= 70 {
        Some((v - 55) as nat)
    } else {
        None
    }
}

/// Bytes written as hex text, two digits per byte with the high one first
/// and digits of either case; `None` when the text has an odd number of
/// characters or a character that is not a hex digit.
pub open spec fn hex_bytes(s: Seq<char>) -> Option<Seq<u8>>
    decreases s.len(),
{
    if s.len() == 0 {
        Some(Seq::empty())
    } else if s.len() == 1 {
        None
    } else {
        match (hex_value(s[0]), hex_value(s[1]), hex_bytes(s.subrange(2, s.len() as int))) {
            (Some(h), Some(l), Some(rest)) => Some(seq![(h * 16 + l) as u8] + rest),
            _ => None,
        }
    }
}

/// `hex::decode`: text with an even number of bytes, each pair two hex
/// digits of either case, decodes to one byte per pair; any other text is an
/// error, here `None`. A character outside ASCII is never a hex digit, so
/// counting characters in place of bytes changes no outcome.
#[verifier::external_body]
pub(crate) fn hex_decode(text: &str) -> (r: Option<Vec<u8>>)
    ensures
        r is Some <==> hex_bytes(text@) is Some,
        r is Some ==> r.unwrap()@ == hex_bytes(text@).unwrap(),
{
    match hex::decode(text) {
        Ok(v) => Some(v),
        Err(_) => None,
    }
}

} // verus!
