//! Arbitrary-precision naturals, as `num_bigint::BigUint` provides them.
//!
//! Verus cannot look inside a `BigUint`. Its mathematical value is named by
//! [`big_value`], and each operation that the library uses is wrapped in a
//! function whose contract is taken on trust from the documentation and the
//! source of `num-bigint`. Nothing in this file is proved; everything else in
//! the crate is proved from these contracts.
//!
//! None of the wrapped operations panics on the inputs its contract admits.
//! Running out of memory while building a result is, as everywhere in Rust,
//! outside what a contract speaks of.

use num_bigint::BigUint;
use vstd::arithmetic::power2::pow2;
use vstd::prelude::*;

verus! {

/// `num_bigint::BigUint`, declared so that it can stand in signatures and
/// fields. Its digits stay hidden.
#[verifier::external_type_specification]
#[verifier::external_body]
pub struct ExBigUint(num_bigint::BigUint);

/// The natural number that a `BigUint` holds: the number that its digits
/// spell, and the one that the crate's arithmetic and comparisons go by.
pub uninterp spec fn big_value(b: BigUint) -> nat;

/// The values of a sequence of big integers, position by position.
pub open spec fn big_values(s: Seq<BigUint>) -> Seq<nat> {
    Seq::new(s.len(), |i: int| big_value(s[i]))
}

/// The value of a big integer that may be absent.
pub open spec fn big_value_opt(b: Option<BigUint>) -> Option<nat> {
    match b {
        Some(b) => Some(big_value(b)),
        None => None,
    }
}

/// `<BigUint as Clone>::clone`: a second big integer with the same value.
#[verifier::external_body]
pub(crate) fn big_clone(a: &BigUint) -> (r: BigUint)
    ensures
        big_value(r) == big_value(*a),
{
    a.clone()
}

/// `<BigUint as From<u64>>::from`: the big integer whose value is `x`.
#[verifier::external_body]
pub(crate) fn big_from_u64(x: u64) -> (r: BigUint)
    ensures
        big_value(r) == x,
{
    BigUint::from(x)
}

/// `<&BigUint as Add<&BigUint>>::add`: the exact sum of the two values.
#[verifier::external_body]
pub(crate) fn big_add(a: &BigUint, b: &BigUint) -> (r: BigUint)
    ensures
        big_value(r) == big_value(*a) + big_value(*b),
{
    a + b
}

/// `<&BigUint as Shl<usize>>::shl`: the value multiplied by two to the
/// power `n`; no bit is lost, whatever `n` is.
#[verifier::external_body]
pub(crate) fn big_shl(a: &BigUint, n: usize) -> (r: BigUint)
    ensures
        big_value(r) == big_value(*a) * pow2(n as nat),
{
    a << n
}

/// `<&BigUint as Rem<&BigUint>>::rem`: the remainder of the division of the
/// value of `a` by that of `m`. The crate panics on a zero divisor, which the
/// precondition leaves out.
#[verifier::external_body]
pub(crate) fn big_rem(a: &BigUint, m: &BigUint) -> (r: BigUint)
    requires
        big_value(*m) > 0,
    ensures
        big_value(r) == big_value(*a) % big_value(*m),
{
    a % m
}

/// `<BigUint as PartialOrd>::gt`: whether the value of `a` is strictly
/// greater than that of `b`.
#[verifier::external_body]
pub(crate) fn big_gt(a: &BigUint, b: &BigUint) -> (r: bool)
    ensures
        r == (big_value(*a) > big_value(*b)),
{
    a > b
}

/// `BigUint::bits`: the fewest bits that can express the value. The value
/// lies below two to that power and, unless it is zero, not below two to the
/// power one less.
#[verifier::external_body]
pub(crate) fn big_bits(a: &BigUint) -> (r: u64)
    ensures
        big_value(*a) < pow2(r as nat),
        r > 0 ==> big_value(*a) >= pow2((r - 1) as nat),
{
    a.bits()
}

} // verus!
