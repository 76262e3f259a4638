//! Fixed-point units shared by every component.

use vstd::prelude::*;

verus! {

/// One whole unit of a scalar quantity (length, force, torque, damping),
/// expressed in thousandths.
pub const UNIT: i64 = 1_000;

/// A point or a vector of the plane, in thousandths of a unit.
#[derive(Clone, Copy, Debug, PartialEq, Eq, Structural)]
pub struct Vec2 {
    pub x: i64,
    pub y: i64,
}

impl Vec2 {
    /// The vector with the given components.
    pub fn new(x: i64, y: i64) -> (v: Vec2)
        ensures
            v.x == x,
            v.y == y,
    {
        Vec2 { x, y }
    }

    /// The zero vector.
    pub fn zero() -> (v: Vec2)
        ensures
            v.x == 0,
            v.y == 0,
    {
        Vec2 { x: 0, y: 0 }
    }
}

/// The quotient of `a` by `b`, rounded toward zero.
pub open spec fn trunc_div(a: int, b: int) -> int {
    if a >= 0 {
        a / b
    } else {
        -((-a) / b)
    }
}

/// The absolute value of `a`.
pub open spec fn magnitude(a: int) -> int {
    if a >= 0 {
        a
    } else {
        -a
    }
}

/// Rounding toward zero never lengthens: the quotient of a dividend no longer
/// than `bound * b` is no longer than `bound`, and it keeps the dividend's
/// sign.
pub proof fn lemma_trunc_div_bound(a: int, b: int, bound: int)
    by (nonlinear_arith)
    requires
        b > 0,
        bound >= 0,
        magnitude(a) <= bound * b,
    ensures
        magnitude(trunc_div(a, b)) <= bound,
        a >= 0 ==> trunc_div(a, b) >= 0,
        a <= 0 ==> trunc_div(a, b) <= 0,
{
}

/// Rounding toward zero loses less than one: the quotient times the divisor
/// lies within `b` of the dividend, on the side of zero.
pub proof fn lemma_trunc_div_remainder(a: int, b: int)
    by (nonlinear_arith)
    requires
        b > 0,
    ensures
        magnitude(trunc_div(a, b)) * b <= magnitude(a),
        magnitude(a) < (magnitude(trunc_div(a, b)) + 1) * b,
{
}

/// Divides `a` by `b` and rounds toward zero.
pub fn div_toward_zero(a: i128, b: i128) -> (q: i128)
    requires
        b > 0,
        a > i128::MIN,
    ensures
        q == trunc_div(a as int, b as int),
{
    if a >= 0 {
        a / b
    } else {
        let q: i128 = (-a) / b;
        -q
    }
}

} // verus!
