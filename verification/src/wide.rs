//! Arbitrary-precision integers, as `num_bigint` provides them.
//!
//! Nothing in this file is proved. Each function states what the named
//! operation of `num_bigint::BigInt` computes, over the mathematical integer
//! that a `BigInt` holds.

use num_bigint::BigInt;
use num_traits::Signed;
use num_traits::ToPrimitive;
use vstd::prelude::*;

verus! {

/// `num_bigint::BigInt`, carried through verified code as an opaque value.
#[verifier::external_type_specification]
#[verifier::external_body]
pub struct ExBigInt(num_bigint::BigInt);

/// The mathematical integer that a `BigInt` holds.
pub uninterp spec fn big_value(b: &BigInt) -> int;

/// The quotient rounded toward zero, as `BigInt` division gives it.
pub open spec fn truncated_quotient(a: int, b: int) -> int {
    let magnitude = (if a < 0 { -a } else { a }) / (if b < 0 { -b } else { b });
    if (a < 0) != (b < 0) {
        -magnitude
    } else {
        magnitude
    }
}

/// `BigInt::from(u64)`: the result holds exactly `n`.
#[verifier::external_body]
pub(crate) fn big_from_u64(n: u64) -> (r: BigInt)
    ensures
        big_value(&r) == n,
{
    BigInt::from(n)
}

/// `BigInt::from(i128)`: the result holds exactly `n`.
#[verifier::external_body]
pub(crate) fn big_from_i128(n: i128) -> (r: BigInt)
    ensures
        big_value(&r) == n,
{
    BigInt::from(n)
}

/// `&BigInt + &BigInt`: the exact sum.
#[verifier::external_body]
pub(crate) fn big_add(a: &BigInt, b: &BigInt) -> (r: BigInt)
    ensures
        big_value(&r) == big_value(a) + big_value(b),
{
    a + b
}

/// `&BigInt - &BigInt`: the exact difference.
#[verifier::external_body]
pub(crate) fn big_sub(a: &BigInt, b: &BigInt) -> (r: BigInt)
    ensures
        big_value(&r) == big_value(a) - big_value(b),
{
    a - b
}

/// `&BigInt * &BigInt`: the exact product.
#[verifier::external_body]
pub(crate) fn big_mul(a: &BigInt, b: &BigInt) -> (r: BigInt)
    ensures
        big_value(&r) == big_value(a) * big_value(b),
{
    a * b
}

/// `&BigInt / &BigInt`: the quotient rounded toward zero. The division
/// panics on a zero divisor, which the precondition rules out.
#[verifier::external_body]
pub(crate) fn big_div(a: &BigInt, b: &BigInt) -> (r: BigInt)
    requires
        big_value(b) != 0,
    ensures
        big_value(&r) == truncated_quotient(big_value(a), big_value(b)),
{
    a / b
}

/// `BigInt == BigInt`: true exactly when both hold the same integer.
#[verifier::external_body]
pub(crate) fn big_eq(a: &BigInt, b: &BigInt) -> (r: bool)
    ensures
        r == (big_value(a) == big_value(b)),
{
    a == b
}

/// `Signed::is_negative` on a `BigInt`: true exactly below zero.
#[verifier::external_body]
pub(crate) fn big_is_negative(a: &BigInt) -> (r: bool)
    ensures
        r == (big_value(a) < 0),
{
    a.is_negative()
}

/// `ToPrimitive::to_u128` on a `BigInt`: the held integer where it lies in
/// the range of `u128`, and `None` where it does not.
#[verifier::external_body]
pub(crate) fn big_to_u128(a: &BigInt) -> (r: Option<u128>)
    ensures
        r is Some <==> 0 <= big_value(a) <= u128::MAX,
        r is Some ==> r->Some_0 == big_value(a),
{
    a.to_u128()
}

/// `ToPrimitive::to_i128` on a `BigInt`: the held integer where it lies in
/// the range of `i128`, and `None` where it does not.
#[verifier::external_body]
pub(crate) fn big_to_i128(a: &BigInt) -> (r: Option<i128>)
    ensures
        r is Some <==> i128::MIN <= big_value(a) <= i128::MAX,
        r is Some ==> r->Some_0 == big_value(a),
{
    a.to_i128()
}

} // verus!
