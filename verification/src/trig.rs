//! Fixed-point sine and cosine approximations for the spawn cone.
//!
//! The simulation only needs trigonometry to turn a sampled cone angle and a
//! sampled rotation into a direction vector. Both functions are truncated
//! Taylor polynomials evaluated in micro-unit fixed point; the cosine reduces
//! its argument into the first quadrant first. Their exact integer values are
//! the specification: the library's contracts speak of `sin_poly` and
//! `cos_poly`, never of real-valued trigonometry.

use vstd::prelude::*;
use crate::fixed::{SCALE, HALF_SCALE};
use vstd::arithmetic::div_mod::{lemma_div_is_ordered, lemma_div_multiples_vanish,
    lemma_div_denominator, lemma_div_pos_is_pos};

verus! {

/// Fixed-point half pi (quarter turn).
pub const HALF_PI_FP: i64 = 1_570_796;

/// Fixed-point pi (half turn).
pub const PI_FP: i64 = 3_141_592;

/// Fixed-point two pi (full turn).
pub const TWO_PI_FP: i64 = 6_283_185;

/// Largest argument the quadrant cosine accepts: one quarter turn plus the
/// slack that quadrant reduction of a truncated angle can leave.
pub const COS_ARG_MAX: i64 = 1_570_797;

/// Cubic sine approximation `x - x^3/6`, exact in fixed-point integers.
pub open spec fn sin_poly(x: int) -> int {
    let x2 = (x * x) / (SCALE as int);
    let x3 = (x2 * x) / (SCALE as int);
    x - x3 / 6
}

/// Quartic cosine approximation `1 - y^2/2 + y^4/24` on the first quadrant,
/// exact in fixed-point integers.
pub open spec fn cos_quarter(y: int) -> int {
    let y2 = (y * y) / (SCALE as int);
    let y4 = (y2 * y2) / (SCALE as int);
    SCALE - y2 / 2 + y4 / 24
}

/// Cosine over a full turn: quadrant reduction into `cos_quarter`.
pub open spec fn cos_poly(x: int) -> int {
    if x <= HALF_PI_FP {
        cos_quarter(x)
    } else if x <= PI_FP {
        -cos_quarter(PI_FP - x)
    } else if x <= PI_FP + HALF_PI_FP {
        -cos_quarter(x - PI_FP)
    } else {
        cos_quarter(TWO_PI_FP - x)
    }
}

/// On `[0, 1]` the sine approximation stays within `[0, x]`.
pub proof fn lemma_sin_poly_bounds(x: int)
    requires
        0 <= x <= SCALE,
    ensures
        0 <= sin_poly(x) <= x,
{
    let s = SCALE as int;
    let x2 = (x * x) / s;
    let x3 = (x2 * x) / s;
    assert(0 <= x * x <= s * s) by (nonlinear_arith)
        requires 0 <= x <= s;
    lemma_div_pos_is_pos(x * x, s);
    lemma_div_is_ordered(x * x, s * s, s);
    assert((s * s) / s == s) by {
        lemma_div_multiples_vanish(s, s);
    }
    assert(0 <= x2 <= s);
    assert(0 <= x2 * x <= s * x) by (nonlinear_arith)
        requires 0 <= x2 <= s, 0 <= x;
    lemma_div_pos_is_pos(x2 * x, s);
    lemma_div_is_ordered(x2 * x, s * x, s);
    assert((s * x) / s == x) by {
        lemma_div_multiples_vanish(x, s);
    }
    assert(0 <= x3 <= x);
    lemma_div_pos_is_pos(x3, 6);
    lemma_div_is_ordered(x3, x, 6);
    assert(x3 / 6 <= x3);
}

/// On the first quadrant the cosine approximation stays within `[-1, 1]`,
/// and on `[0, 1]` it stays at or above one half.
pub proof fn lemma_cos_quarter_bounds(y: int)
    requires
        0 <= y <= COS_ARG_MAX,
    ensures
        -(SCALE as int) <= cos_quarter(y) <= SCALE,
        y <= SCALE ==> cos_quarter(y) >= HALF_SCALE,
{
    let s = SCALE as int;
    let y2 = (y * y) / s;
    let y4 = (y2 * y2) / s;
    assert(0 <= y * y <= 2_467_403_215_209) by (nonlinear_arith)
        requires 0 <= y <= 1_570_797;
    lemma_div_pos_is_pos(y * y, s);
    lemma_div_is_ordered(y * y, 2_467_403_215_209, s);
    assert(0 <= y2 <= 2_467_403);
    assert(0 <= y2 * y2 <= (12 * s) * y2) by (nonlinear_arith)
        requires 0 <= y2 <= 2_467_403, s == 1_000_000;
    lemma_div_pos_is_pos(y2 * y2, s);
    lemma_div_is_ordered(y2 * y2, (12 * s) * y2, s);
    assert(((12 * s) * y2) / s == 12 * y2) by {
        assert((12 * s) * y2 == s * (12 * y2)) by (nonlinear_arith);
        lemma_div_multiples_vanish(12 * y2, s);
    }
    assert(0 <= y4 <= 12 * y2);
    lemma_div_pos_is_pos(y4, 24);
    lemma_div_is_ordered(y4, 12 * y2, 24);
    assert((12 * y2) / 24 == y2 / 2) by {
        lemma_div_denominator(12 * y2, 12, 2);
        lemma_div_multiples_vanish(y2, 12);
    }
    assert(y4 / 24 <= y2 / 2);
    assert(y2 / 2 <= 1_233_701);
    if y <= s {
        assert(y * y <= s * s) by (nonlinear_arith)
            requires 0 <= y <= s;
        lemma_div_is_ordered(y * y, s * s, s);
        assert((s * s) / s == s) by {
            lemma_div_multiples_vanish(s, s);
        }
        assert(y2 <= s);
    }
}

/// The full-turn cosine stays within `[-1, 1]`, and at or above one half on `[0, 1]`.
pub proof fn lemma_cos_poly_bounds(x: int)
    requires
        0 <= x < TWO_PI_FP,
    ensures
        -(SCALE as int) <= cos_poly(x) <= SCALE,
        x <= SCALE ==> cos_poly(x) >= HALF_SCALE,
{
    if x <= HALF_PI_FP {
        lemma_cos_quarter_bounds(x);
    } else if x <= PI_FP {
        lemma_cos_quarter_bounds(PI_FP - x);
    } else if x <= PI_FP + HALF_PI_FP {
        lemma_cos_quarter_bounds(x - PI_FP);
    } else {
        lemma_cos_quarter_bounds(TWO_PI_FP - x);
    }
}

/// Fixed-point sine on `[0, 1]`.
pub fn sin_fp(x: i64) -> (r: i64)
    requires
        0 <= x <= SCALE,
    ensures
        r == sin_poly(x as int),
        0 <= r <= x,
{
    proof {
        lemma_sin_poly_bounds(x as int);
        assert(0 <= x * x <= (SCALE as int) * (SCALE as int)) by (nonlinear_arith)
            requires 0 <= x <= SCALE;
    }
    let x2: i64 = (x * x) / SCALE;
    proof {
        assert(0 <= x2 * x <= (SCALE as int) * (SCALE as int)) by (nonlinear_arith)
            requires 0 <= x2 <= SCALE, 0 <= x <= SCALE;
    }
    let x3: i64 = (x2 * x) / SCALE;
    x - x3 / 6
}

/// Fixed-point cosine on the first quadrant (plus reduction slack).
fn cos_quarter_fp(y: i64) -> (r: i64)
    requires
        0 <= y <= COS_ARG_MAX,
    ensures
        r == cos_quarter(y as int),
        -SCALE <= r <= SCALE,
        y <= SCALE ==> r >= HALF_SCALE,
{
    proof {
        lemma_cos_quarter_bounds(y as int);
        assert(0 <= y * y <= 2_467_403_215_209) by (nonlinear_arith)
            requires 0 <= y <= 1_570_797;
    }
    let y2: i64 = (y * y) / SCALE;
    proof {
        assert(0 <= y2 * y2 <= 2_467_403 * 2_467_403) by (nonlinear_arith)
            requires 0 <= y2 <= 2_467_403;
    }
    let y4: i64 = (y2 * y2) / SCALE;
    SCALE - y2 / 2 + y4 / 24
}

/// Fixed-point cosine over a full turn.
pub fn cos_fp(x: i64) -> (r: i64)
    requires
        0 <= x < TWO_PI_FP,
    ensures
        r == cos_poly(x as int),
        -SCALE <= r <= SCALE,
        x <= SCALE ==> r >= HALF_SCALE,
{
    if x <= HALF_PI_FP {
        cos_quarter_fp(x)
    } else if x <= PI_FP {
        let q = cos_quarter_fp(PI_FP - x);
        -q
    } else if x <= PI_FP + HALF_PI_FP {
        let q = cos_quarter_fp(x - PI_FP);
        -q
    } else {
        cos_quarter_fp(TWO_PI_FP - x)
    }
}

} // verus!
