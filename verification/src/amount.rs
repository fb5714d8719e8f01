//! Unsigned amounts of any size, held as their little-endian bytes and
//! computed on by `num_bigint::BigUint`.
use vstd::prelude::*;
use num_bigint::BigUint;
use num_traits::{CheckedAdd, CheckedSub, ToPrimitive, Zero};

verus! {

/// Value of a little-endian sequence of base-256 digits.
pub open spec fn le_value(s: Seq<u8>) -> nat
    decreases s.len(),
{
    if s.len() == 0 {
        0
    } else {
        s[0] as nat + 256 * le_value(s.drop_first())
    }
}

/// `BigUint::checked_add` on the numbers whose little-endian bytes are given:
/// always `Some`, holding the little-endian bytes of the sum.
#[verifier::external_body]
fn biguint_checked_add(a: &Vec<u8>, b: &Vec<u8>) -> (r: Option<Vec<u8>>)
    ensures
        r is Some,
        le_value(r.unwrap()@) == le_value(a@) + le_value(b@),
{
    let x = BigUint::from_bytes_le(a);
    let y = BigUint::from_bytes_le(b);
    match x.checked_add(&y) {
        Some(v) => Some(v.to_bytes_le()),
        None => None,
    }
}

/// `BigUint::checked_sub` on the numbers whose little-endian bytes are given:
/// `None` when the subtrahend is larger, else the difference.
#[verifier::external_body]
fn biguint_checked_sub(a: &Vec<u8>, b: &Vec<u8>) -> (r: Option<Vec<u8>>)
    ensures
        r is None <==> le_value(a@) < le_value(b@),
        r is Some ==> le_value(r.unwrap()@) == le_value(a@) - le_value(b@),
{
    let x = BigUint::from_bytes_le(a);
    let y = BigUint::from_bytes_le(b);
    match x.checked_sub(&y) {
        Some(v) => Some(v.to_bytes_le()),
        None => None,
    }
}

/// `BigUint::is_zero` of the number whose little-endian bytes are given.
#[verifier::external_body]
fn biguint_is_zero(a: &Vec<u8>) -> (r: bool)
    ensures
        r == (le_value(a@) == 0),
{
    BigUint::from_bytes_le(a).is_zero()
}

/// `ToPrimitive::to_u128` of `BigUint`: `Some` exactly when the number fits.
#[verifier::external_body]
fn biguint_to_u128(a: &Vec<u8>) -> (r: Option<u128>)
    ensures
        r is None <==> le_value(a@) > u128::MAX,
        r matches Some(v) ==> v == le_value(a@),
{
    BigUint::from_bytes_le(a).to_u128()
}

/// `From<u128>` for `BigUint`, read back with `to_bytes_le`.
#[verifier::external_body]
fn biguint_from_u128(v: u128) -> (r: Vec<u8>)
    ensures
        le_value(r@) == v,
{
    BigUint::from(v).to_bytes_le()
}

/// A natural number of any size. Its view is the number.
#[derive(Debug)]
pub struct Amount {
    le_bytes: Vec<u8>,
}

impl View for Amount {
    type V = nat;

    closed spec fn view(&self) -> nat {
        le_value(self.le_bytes@)
    }
}

impl Amount {
    /// The number whose little-endian bytes are given.
    pub fn from_le_bytes(bytes: Vec<u8>) -> (r: Amount)
        ensures
            r@ == le_value(bytes@),
    {
        Amount { le_bytes: bytes }
    }

    /// The amount with the value of a `u128`.
    pub fn from_u128(v: u128) -> (r: Amount)
        ensures
            r@ == v,
    {
        Amount { le_bytes: biguint_from_u128(v) }
    }

    /// Little-endian bytes of the amount.
    pub fn to_le_bytes(&self) -> (r: Vec<u8>)
        ensures
            le_value(r@) == self@,
    {
        let r = self.le_bytes.clone();
        assert(r@ == self.le_bytes@);
        r
    }

    /// The amount as a `u128`, `None` when it does not fit.
    pub fn to_u128(&self) -> (r: Option<u128>)
        ensures
            r is None <==> self@ > u128::MAX,
            r matches Some(v) ==> v == self@,
    {
        biguint_to_u128(&self.le_bytes)
    }

    /// Whether the amount is zero.
    pub fn is_zero(&self) -> (r: bool)
        ensures
            r == (self@ == 0),
    {
        biguint_is_zero(&self.le_bytes)
    }

    /// A copy of the amount.
    pub fn duplicate(&self) -> (r: Amount)
        ensures
            r@ == self@,
    {
        let b = self.le_bytes.clone();
        assert(b@ == self.le_bytes@);
        Amount { le_bytes: b }
    }

    /// The sum of two amounts; `None` never comes back.
    pub fn checked_add(&self, other: &Amount) -> (r: Option<Amount>)
        ensures
            r matches Some(v) && v@ == self@ + other@,
    {
        match biguint_checked_add(&self.le_bytes, &other.le_bytes) {
            Some(v) => Some(Amount { le_bytes: v }),
            None => None,
        }
    }

    /// The difference of two amounts, `None` when `other` is larger.
    pub fn checked_sub(&self, other: &Amount) -> (r: Option<Amount>)
        ensures
            r is None <==> self@ < other@,
            r matches Some(v) ==> v@ == self@ - other@,
    {
        match biguint_checked_sub(&self.le_bytes, &other.le_bytes) {
            Some(v) => Some(Amount { le_bytes: v }),
            None => None,
        }
    }
}

} // verus!
