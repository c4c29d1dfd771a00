//! Fixed-point scalars.
//!
//! Every length, speed and coefficient of the simulation is an `i64` counted in
//! millionths of a world unit, and is kept within `-LIMIT ..= LIMIT` by
//! saturation. Products are formed in `i128`, where they cannot overflow.
use vstd::prelude::*;

verus! {

/// The number that stands for one world unit (and for the coefficient 1).
pub const UNIT: i64 = 1_000_000;

/// The largest magnitude a scalar can have: a million world units.
pub const LIMIT: i64 = 1_000_000_000_000;

/// Whether `x` can be held as a scalar.
pub open spec fn in_range(x: int) -> bool {
    -LIMIT <= x <= LIMIT
}

/// `x`, or the end of the scalar range on whose far side `x` lies.
pub open spec fn saturated(x: int) -> int {
    if x < -LIMIT {
        -(LIMIT as int)
    } else if x > LIMIT {
        LIMIT as int
    } else {
        x
    }
}

/// `a / b` rounded toward zero, for a positive `b`.
pub open spec fn quotient(a: int, b: int) -> int {
    if a >= 0 {
        a / b
    } else {
        -((-a) / b)
    }
}

/// `x` times the coefficient `factor`, rounded toward zero.
pub open spec fn scaled(x: int, factor: int) -> int {
    quotient(x * factor, UNIT as int)
}

/// The magnitude of `x`.
pub open spec fn magnitude(x: int) -> int {
    if x >= 0 {
        x
    } else {
        -x
    }
}

/// Brings a wide intermediate result back into the scalar range.
pub(crate) fn saturate(x: i128) -> (r: i64)
    ensures
        r == saturated(x as int),
        in_range(r as int),
{
    if x < -(LIMIT as i128) {
        -LIMIT
    } else if x > LIMIT as i128 {
        LIMIT
    } else {
        x as i64
    }
}

/// A product of bounded factors is bounded by the product of the bounds.
pub(crate) proof fn lemma_product_bound(a: int, b: int, m: int, n: int)
    by (nonlinear_arith)
    requires
        -m <= a <= m,
        -n <= b <= n,
    ensures
        -(m * n) <= a * b <= m * n,
{
}

} // verus!
