//! Fixed-point micro-unit arithmetic: `SCALE` (1 000 000) stands for 1.0.
//! All simulation scalars are `i64` multiples of one micro-unit, and every
//! product of two fixed-point values is rescaled with a truncating division.

use vstd::prelude::*;

verus! {

/// One whole unit: the fixed-point representation of 1.0.
pub const SCALE: i64 = 1_000_000;

/// The fixed-point representation of 0.5.
pub const HALF_SCALE: i64 = 500_000;

/// Largest magnitude a world coordinate may take; positions are clamped here.
pub const POS_LIMIT: i64 = 1_000_000_000_000_000;

/// Largest time step (in micro-seconds of simulated time) a single call may advance.
pub const MAX_DT: i64 = 1_000_000_000_000;

/// Product of two fixed-point values, rescaled. Both factors non-negative.
pub open spec fn fp_mul(a: int, b: int) -> int {
    (a * b) / (SCALE as int)
}

/// Product of a signed fixed-point value with a non-negative one, rescaled.
/// The magnitude is rescaled and the sign restored, so the result always
/// rounds toward zero, whatever the sign of `a`.
pub open spec fn fp_mul_signed(a: int, b: int) -> int {
    if a >= 0 {
        fp_mul(a, b)
    } else {
        -fp_mul(-a, b)
    }
}

/// A coordinate clamped into the world range `[-POS_LIMIT, POS_LIMIT]`.
pub open spec fn clamp_coord(x: int) -> int {
    if x > POS_LIMIT as int {
        POS_LIMIT as int
    } else if x < -(POS_LIMIT as int) {
        -(POS_LIMIT as int)
    } else {
        x
    }
}

/// Rescaled product of two non-negative fixed-point values.
pub fn mul_scale(a: i64, b: i64) -> (r: i64)
    requires
        0 <= a,
        0 <= b,
        a * b <= i64::MAX,
    ensures
        r == fp_mul(a as int, b as int),
        0 <= r,
{
    let p: i64 = a * b;
    p / SCALE
}

/// Rescaled product of a signed fixed-point value with a non-negative one.
pub fn mul_scale_signed(a: i64, b: i64) -> (r: i64)
    requires
        0 <= b,
        -i64::MAX <= a,
        a * b <= i64::MAX,
        -(a * b) <= i64::MAX,
    ensures
        r == fp_mul_signed(a as int, b as int),
{
    if a >= 0 {
        mul_scale(a, b)
    } else {
        proof {
            assert((-a) * b == -(a * b)) by (nonlinear_arith);
        }
        let m = mul_scale(-a, b);
        -m
    }
}

} // verus!
