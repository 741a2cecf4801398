//! Trusted boundary around the arbitrary-precision unsigned integers of
//! `num_bigint`. Every fact the rest of the crate knows about a `BigUint`
//! goes through the uninterpreted content function `big_value` and the
//! contracts of the wrappers below.
use vstd::prelude::*;
use vstd::arithmetic::power2::pow2;
use num_bigint::BigUint;

verus! {

#[verifier::external_type_specification]
#[verifier::external_body]
pub struct ExBigUint(BigUint);

/// The natural number that a `BigUint` holds.
pub uninterp spec fn big_value(b: BigUint) -> nat;

/// Relies on `From<u64> for BigUint`: builds the number with that value.
#[verifier::external_body]
pub(crate) fn big_from_u64(x: u64) -> (r: BigUint)
    ensures
        big_value(r) == x as nat,
{
    BigUint::from(x)
}

/// Relies on `From<u128> for BigUint`: builds the number with that value.
#[verifier::external_body]
pub(crate) fn big_from_u128(x: u128) -> (r: BigUint)
    ensures
        big_value(r) == x as nat,
{
    BigUint::from(x)
}

/// Relies on `Clone for BigUint`: the copy holds the same number.
#[verifier::external_body]
pub(crate) fn big_clone(a: &BigUint) -> (r: BigUint)
    ensures
        big_value(r) == big_value(*a),
{
    a.clone()
}

/// Relies on `PartialEq for BigUint`: equality of the held numbers.
#[verifier::external_body]
pub(crate) fn big_eq(a: &BigUint, b: &BigUint) -> (r: bool)
    ensures
        r == (big_value(*a) == big_value(*b)),
{
    a == b
}

/// Relies on `Add for &BigUint`: exact unbounded addition.
#[verifier::external_body]
pub(crate) fn big_add(a: &BigUint, b: &BigUint) -> (r: BigUint)
    ensures
        big_value(r) == big_value(*a) + big_value(*b),
{
    a + b
}

/// Relies on `Sub for &BigUint`: exact subtraction; panics on underflow,
/// which the precondition rules out.
#[verifier::external_body]
pub(crate) fn big_sub(a: &BigUint, b: &BigUint) -> (r: BigUint)
    requires
        big_value(*b) <= big_value(*a),
    ensures
        big_value(r) == big_value(*a) - big_value(*b),
{
    a - b
}

/// Relies on `Mul for &BigUint`: exact unbounded multiplication.
#[verifier::external_body]
pub(crate) fn big_mul(a: &BigUint, b: &BigUint) -> (r: BigUint)
    ensures
        big_value(r) == big_value(*a) * big_value(*b),
{
    a * b
}

/// Relies on `Rem for &BigUint`: the remainder of division; panics on a
/// zero divisor, which the precondition rules out.
#[verifier::external_body]
pub(crate) fn big_rem(a: &BigUint, m: &BigUint) -> (r: BigUint)
    requires
        big_value(*m) > 0,
    ensures
        big_value(r) == big_value(*a) % big_value(*m),
{
    a % m
}

/// Relies on `Shl<u32> for &BigUint`: shifting left by `k` multiplies by 2^k.
#[verifier::external_body]
pub(crate) fn big_shl(a: &BigUint, k: u32) -> (r: BigUint)
    ensures
        big_value(r) == big_value(*a) * pow2(k as nat),
{
    a << k
}

/// Relies on `Shr<u32> for &BigUint`: shifting right by one halves, rounding down.
#[verifier::external_body]
pub(crate) fn big_shr1(a: &BigUint) -> (r: BigUint)
    ensures
        big_value(r) == big_value(*a) / 2,
{
    a >> 1u32
}

/// Relies on `num_traits::Zero::is_zero` for `BigUint`.
#[verifier::external_body]
pub(crate) fn big_is_zero(a: &BigUint) -> (r: bool)
    ensures
        r == (big_value(*a) == 0),
{
    num_traits::Zero::is_zero(a)
}

/// Relies on `BigUint::bit`: whether the bit at the given index is set;
/// index 0 is the least significant bit.
#[verifier::external_body]
pub(crate) fn big_is_odd(a: &BigUint) -> (r: bool)
    ensures
        r == (big_value(*a) % 2 == 1),
{
    a.bit(0)
}

/// Relies on `BigUint::modinv`: returns the inverse `x` in `[0, modulus)`
/// with `self * x = 1 (mod modulus)` exactly when such an inverse exists.
#[verifier::external_body]
pub(crate) fn big_modinv(a: &BigUint, m: &BigUint) -> (r: Option<BigUint>)
    requires
        big_value(*m) > 1,
    ensures
        (r matches Some(v) ==> big_value(v) < big_value(*m) && (big_value(*a) * big_value(v)) % big_value(*m) == 1),
        (r is Some) == (exists|v: nat| v < big_value(*m) && #[trigger] ((big_value(*a) * v) % big_value(*m)) == 1),
{
    a.modinv(m)
}

} // verus!
