//! The prime-field scalars that the permutation works on, together with the
//! arithmetic the field supplies: addition, multiplication, small-integer
//! embedding, and reduction of a little-endian byte string.
//!
//! The element representation and its arithmetic come from an outside
//! arithmetic crate. Each operation is deterministic in its operands, so its
//! result is given a name that the rest of the library states its contracts
//! over; nothing here is proved about the arithmetic itself.
use vstd::prelude::*;

verus! {

/// An element of the scalar field the hash is computed over.
///
/// Holds the outside crate's `ark_bn254::Fr`, whose representation is
/// canonical: one abstract field value has exactly one representation.
#[verifier::external_body]
pub struct Fr {
    inner: ark_bn254::Fr,
}

impl Clone for Fr {
    /// Relies on `ark_bn254::Fr` being a plain value: the copy is the same
    /// element.
    #[verifier::external_body]
    fn clone(&self) -> (r: Self)
        ensures
            r == *self,
    {
        Fr { inner: self.inner }
    }
}

impl Copy for Fr {

}

/// The sum of two field elements.
pub uninterp spec fn add_of(a: Fr, b: Fr) -> Fr;

/// The product of two field elements.
pub uninterp spec fn mul_of(a: Fr, b: Fr) -> Fr;

/// The field element congruent to a small non-negative integer.
pub uninterp spec fn fr_of_u64(n: u64) -> Fr;

/// The field element congruent to a little-endian byte string, reduced
/// modulo the field order.
pub uninterp spec fn fr_of_le_bytes(b: Seq<u8>) -> Fr;

/// The canonical little-endian byte encoding of a field element.
pub uninterp spec fn le_bytes_of(a: Fr) -> Seq<u8>;

impl Fr {
    /// Relies on `<ark_bn254::Fr as From<u64>>::from`: the embedded element
    /// depends on the integer alone.
    #[verifier::external_body]
    pub fn from_u64(n: u64) -> (r: Fr)
        ensures
            r == fr_of_u64(n),
    {
        Fr { inner: ark_bn254::Fr::from(n) }
    }

    /// Relies on `ark_ff::PrimeField::from_le_bytes_mod_order` for
    /// `ark_bn254::Fr`: the reduced element depends on the bytes alone.
    #[verifier::external_body]
    pub fn from_le_bytes(b: &Vec<u8>) -> (r: Fr)
        ensures
            r == fr_of_le_bytes(b@),
    {
        Fr { inner: <ark_bn254::Fr as ark_ff::PrimeField>::from_le_bytes_mod_order(b.as_slice()) }
    }

    /// Relies on `ark_ff::PrimeField::into_bigint` and
    /// `ark_ff::BigInteger::to_bytes_le`: the canonical little-endian byte
    /// encoding depends on the element alone.
    #[verifier::external_body]
    pub fn to_le_bytes(&self) -> (r: Vec<u8>)
        ensures
            r@ == le_bytes_of(*self),
    {
        ark_ff::BigInteger::to_bytes_le(&<ark_bn254::Fr as ark_ff::PrimeField>::into_bigint(
            self.inner,
        ))
    }

    /// Relies on `PartialEq` of `ark_bn254::Fr`: the representation is
    /// canonical, so representation equality is equality of the elements.
    #[verifier::external_body]
    pub fn equals(&self, other: &Fr) -> (r: bool)
        ensures
            r == (*self == *other),
    {
        self.inner == other.inner
    }
}

/// Relies on field addition of `ark_bn254::Fr` (`ark_ff::Fp::add`): the sum
/// depends on the two operands alone.
#[verifier::external_body]
pub(crate) fn fr_add(a: Fr, b: Fr) -> (r: Fr)
    ensures
        r == add_of(a, b),
{
    Fr { inner: a.inner + b.inner }
}

/// Relies on field multiplication of `ark_bn254::Fr` (`ark_ff::Fp::mul`):
/// the product depends on the two operands alone.
#[verifier::external_body]
pub(crate) fn fr_mul(a: Fr, b: Fr) -> (r: Fr)
    ensures
        r == mul_of(a, b),
{
    Fr { inner: a.inner * b.inner }
}

} // verus!
