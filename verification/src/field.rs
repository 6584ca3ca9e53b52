//! Signed integers as elements of the scalar field.
//!
//! The field has no sign. An integer stands for its residue modulo the
//! order `r` of the field, so `-m` stands for the additive inverse of `m`.

use vstd::prelude::*;
use bls12_381::Scalar;
use crate::curve::{group_order, scalar_from_u64, scalar_value};

verus! {

/// The field element that an integer stands for: its residue modulo the
/// order of the field.
pub open spec fn field_of(x: int) -> nat {
    (x % (group_order() as int)) as nat
}

/// The field element of a signed 64-bit integer, written out: a value that
/// is not negative is its own element, and a negative one lies that far
/// below the order of the field.
pub proof fn lemma_field_of_i64(x: i64)
    ensures
        field_of(x as int) < group_order(),
        x >= 0 ==> field_of(x as int) == x,
        x < 0 ==> field_of(x as int) == group_order() + x,
{
}

/// Different signed 64-bit integers have different field elements: the
/// field is far larger than their range.
pub proof fn lemma_field_of_injective(x: i64, y: i64)
    requires
        x != y,
    ensures
        field_of(x as int) != field_of(y as int),
{
}

/// The magnitude of a signed integer. It always fits in a `u64`, also for
/// the least `i64`, whose magnitude no `i64` holds.
pub fn magnitude(x: i64) -> (m: u64)
    ensures
        m as int == if x < 0 {
            -(x as int)
        } else {
            x as int
        },
{
    if x >= 0 {
        x as u64
    } else if x == i64::MIN {
        0x8000_0000_0000_0000u64
    } else {
        (-x) as u64
    }
}

/// Encodes a signed integer as a field element: the element of its
/// magnitude, negated in the field when the integer is negative.
pub fn signed_scalar(x: i64) -> (s: Scalar)
    ensures
        scalar_value(s) == field_of(x as int),
{
    let positive = scalar_from_u64(magnitude(x));
    if x < 0 {
        positive.neg()
    } else {
        positive
    }
}

} // verus!
