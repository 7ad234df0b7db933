//! The prime field the hash runs over: winterfell's `f128` field of order
//! `2^128 - 45 * 2^40 + 1`. Elements are carried as canonical `u128` values
//! in `[0, FIELD_MODULUS)`; the arithmetic itself is done by winterfell.

use vstd::prelude::*;
use winterfell::math::StarkField;
use winterfell::math::fields::f128::BaseElement;

verus! {

/// Order of the field: `2^128 - 45 * 2^40 + 1`.
pub const FIELD_MODULUS: u128 = 340282366920938463463374557953744961537;

/// A canonical field element: a `u128` below the modulus.
pub open spec fn in_field(x: u128) -> bool {
    x < FIELD_MODULUS
}

/// Field addition on mathematical integers.
pub open spec fn f_add(a: int, b: int) -> int {
    (a + b) % (FIELD_MODULUS as int)
}

/// Field subtraction on mathematical integers.
pub open spec fn f_sub(a: int, b: int) -> int {
    (a - b) % (FIELD_MODULUS as int)
}

/// Field multiplication on mathematical integers.
pub open spec fn f_mul(a: int, b: int) -> int {
    (a * b) % (FIELD_MODULUS as int)
}

/// The S-box of the permutation: `x^3`, applied as two multiplications.
pub open spec fn f_cube(a: int) -> int {
    f_mul(f_mul(a, a), a)
}

/// Relies on winterfell's `Add for f128::BaseElement`, which computes
/// `(a + b) % M` for canonical operands; `BaseElement::new` embeds a value
/// below the modulus unchanged and `as_int` returns the canonical value.
#[verifier::external_body]
pub(crate) fn fe_add(a: u128, b: u128) -> (r: u128)
    requires
        in_field(a),
        in_field(b),
    ensures
        r as int == f_add(a as int, b as int),
        in_field(r),
{
    (BaseElement::new(a) + BaseElement::new(b)).as_int()
}

/// Relies on winterfell's `Sub for f128::BaseElement`, which computes
/// `(a - b) % M` for canonical operands; `BaseElement::new` embeds a value
/// below the modulus unchanged and `as_int` returns the canonical value.
#[verifier::external_body]
pub(crate) fn fe_sub(a: u128, b: u128) -> (r: u128)
    requires
        in_field(a),
        in_field(b),
    ensures
        r as int == f_sub(a as int, b as int),
        in_field(r),
{
    (BaseElement::new(a) - BaseElement::new(b)).as_int()
}

/// Relies on winterfell's `Mul for f128::BaseElement`, which computes
/// `(a * b) % M` for canonical operands; `BaseElement::new` embeds a value
/// below the modulus unchanged and `as_int` returns the canonical value.
#[verifier::external_body]
pub(crate) fn fe_mul(a: u128, b: u128) -> (r: u128)
    requires
        in_field(a),
        in_field(b),
    ensures
        r as int == f_mul(a as int, b as int),
        in_field(r),
{
    (BaseElement::new(a) * BaseElement::new(b)).as_int()
}

/// Embeds a 64-bit value into the field; every `u64` is below the modulus.
pub fn fe_from_u64(v: u64) -> (r: u128)
    ensures
        r == v as u128,
        in_field(r),
{
    v as u128
}

} // verus!
