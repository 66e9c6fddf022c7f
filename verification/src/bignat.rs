//! Arbitrary-precision natural numbers, held as a `BigUint`.

use num_bigint::BigUint;
use vstd::prelude::*;

use crate::digits::{
    bytes_canonical, le_bytes_value, lemma_bytes_canonical_unique, limbs_normalized, limbs_value,
};

verus! {

#[verifier::external_type_specification]
#[verifier::external_body]
pub struct ExBigUint(BigUint);

/// The base-2^64 digits of a `BigUint`, least significant first: what
/// `BigUint::to_u64_digits` hands out.
pub uninterp spec fn biguint_digits(b: BigUint) -> Seq<u64>;

/// `<BigUint as Clone>::clone`: a copy holding the same digits.
pub assume_specification[ <BigUint as Clone>::clone ](b: &BigUint) -> (r: BigUint)
    ensures
        biguint_digits(r) == biguint_digits(*b),
;

/// The number a `BigUint` holds.
pub open spec fn biguint_value(b: BigUint) -> nat {
    limbs_value(biguint_digits(b))
}

/// `BigUint::from_bytes_le`: the number whose little-endian bytes are
/// `bytes` (zero for no bytes). Its digits carry no high zero digit.
#[verifier::external_body]
fn biguint_from_bytes_le(bytes: &[u8]) -> (r: BigUint)
    ensures
        biguint_value(r) == le_bytes_value(bytes@),
        limbs_normalized(biguint_digits(r)),
{
    BigUint::from_bytes_le(bytes)
}

/// `BigUint::to_bytes_le`: the little-endian bytes of the number; `[0]` for
/// zero, otherwise with no high zero byte.
#[verifier::external_body]
fn biguint_to_bytes_le(b: &BigUint) -> (r: Vec<u8>)
    ensures
        le_bytes_value(r@) == biguint_value(*b),
        bytes_canonical(r@),
{
    b.to_bytes_le()
}

/// `u64::try_from(&BigUint)`: the number as a `u64` when it fits.
#[verifier::external_body]
fn biguint_to_u64(b: &BigUint) -> (r: Option<u64>)
    ensures
        r is Some <==> biguint_value(*b) <= u64::MAX,
        r matches Some(v) ==> v == biguint_value(*b),
{
    u64::try_from(b).ok()
}

/// `BigUint::from(u64)`: the number `x`.
#[verifier::external_body]
fn biguint_from_u64(x: u64) -> (r: BigUint)
    ensures
        biguint_value(r) == x,
        limbs_normalized(biguint_digits(r)),
{
    BigUint::from(x)
}

/// `BigUint::to_u64_digits`: the digits of the number, least significant
/// first, with no high zero digit.
#[verifier::external_body]
pub(crate) fn biguint_to_u64_digits(b: &BigUint) -> (r: Vec<u64>)
    ensures
        r@ == biguint_digits(*b),
        limbs_normalized(r@),
{
    b.to_u64_digits()
}

/// `&BigUint + &BigUint`: the sum, with no high zero digit.
#[verifier::external_body]
fn biguint_add(a: &BigUint, b: &BigUint) -> (r: BigUint)
    ensures
        biguint_value(r) == biguint_value(*a) + biguint_value(*b),
        limbs_normalized(biguint_digits(r)),
{
    a + b
}

/// `&BigUint * &BigUint`: the product, with no high zero digit.
#[verifier::external_body]
fn biguint_mul(a: &BigUint, b: &BigUint) -> (r: BigUint)
    ensures
        biguint_value(r) == biguint_value(*a) * biguint_value(*b),
        limbs_normalized(biguint_digits(r)),
{
    a * b
}

/// An arbitrary-precision natural number.
#[derive(Hash, PartialEq, Eq, Debug, Clone, PartialOrd, Ord)]
pub struct Nat(pub BigUint);

impl View for Nat {
    type V = nat;

    open spec fn view(&self) -> nat {
        biguint_value(self.0)
    }
}

impl Nat {
    /// The number as a `u64`, or `None` when it is too large.
    pub fn to_u64(&self) -> (r: Option<u64>)
        ensures
            r is Some <==> self@ <= u64::MAX,
            r matches Some(v) ==> v == self@,
    {
        biguint_to_u64(&self.0)
    }

    /// The number whose little-endian bytes are `bytes`.
    pub fn from_le_bytes(bytes: &[u8]) -> (r: Nat)
        ensures
            r@ == le_bytes_value(bytes@),
    {
        Nat(biguint_from_bytes_le(bytes))
    }

    /// The little-endian bytes of the number: `[0]` for zero, otherwise with
    /// no high zero byte.
    pub fn to_le_bytes(&self) -> (r: Vec<u8>)
        ensures
            le_bytes_value(r@) == self@,
            bytes_canonical(r@),
    {
        biguint_to_bytes_le(&self.0)
    }

    /// Zero.
    pub fn zero() -> (r: Nat)
        ensures
            r@ == 0,
    {
        Nat::from_u64(0)
    }

    /// The number `x`.
    pub fn from_u64(x: u64) -> (r: Nat)
        ensures
            r@ == x,
    {
        Nat(biguint_from_u64(x))
    }

    /// The sum of two numbers.
    pub fn add(&self, other: &Nat) -> (r: Nat)
        ensures
            r@ == self@ + other@,
    {
        Nat(biguint_add(&self.0, &other.0))
    }

    /// The product of two numbers.
    pub fn mul(&self, other: &Nat) -> (r: Nat)
        ensures
            r@ == self@ * other@,
    {
        Nat(biguint_mul(&self.0, &other.0))
    }
}

impl From<u64> for Nat {
    fn from(x: u64) -> (r: Nat)
        ensures
            r@ == x,
    {
        Nat::from_u64(x)
    }
}

impl vstd::std_specs::convert::FromSpecImpl<u64> for Nat {
    open spec fn obeys_from_spec() -> bool {
        false
    }

    open spec fn from_spec(x: u64) -> Nat {
        vstd::pervasive::arbitrary()
    }
}

/// Writing a number out as little-endian bytes and reading them back gives the
/// number; canonical bytes read in and written out again come back unchanged.
pub proof fn lemma_le_bytes_roundtrip(bytes: Seq<u8>, n: Nat, out: Seq<u8>)
    requires
        n@ == le_bytes_value(bytes),
        le_bytes_value(out) == n@,
        bytes_canonical(out),
    ensures
        le_bytes_value(out) == le_bytes_value(bytes),
        bytes_canonical(bytes) ==> out == bytes,
{
    if bytes_canonical(bytes) {
        lemma_bytes_canonical_unique(out, bytes);
    }
}

} // verus!
