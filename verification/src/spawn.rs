//! Spawning: cone-distributed initial velocities and randomized sizes.
//!
//! A new particle starts at the emitter's origin with life 0. Its velocity
//! is built from two uniform draws: an angle inside the spawn cone and a
//! rotation around the forward axis. The direction has a lateral component
//! `sin(angle) * cos(rotation)`, an upward component `0.3 + sin(angle) * 0.2`
//! and a forward component `cos(angle)`; the axes are then scaled
//! non-uniformly (lateral by 0.5, vertical by 0.8, forward by 2.0) so the
//! cone becomes a forward-biased plume. A third draw picks the initial size
//! out of `[0.1, 0.2)`.

use vstd::prelude::*;
use crate::fixed::{SCALE, HALF_SCALE, fp_mul, fp_mul_signed, mul_scale, mul_scale_signed};
use crate::trig::{TWO_PI_FP, sin_poly, cos_poly, sin_fp, cos_fp,
    lemma_sin_poly_bounds, lemma_cos_poly_bounds};
use crate::particle::{V3, V3Model, Particle, ParticleModel, BASE_SIZE, SIZE_SPREAD,
    coord_ok, vel_ok, particle_wf};
use vstd::arithmetic::div_mod::{lemma_div_is_ordered, lemma_div_multiples_vanish,
    lemma_div_denominator, lemma_div_pos_is_pos};

verus! {

/// Fixed upward bias of the spawn direction, fixed-point 0.3.
pub const UP_BIAS: i64 = 300_000;

/// Gain of the angle-dependent upward component, fixed-point 0.2.
pub const UP_GAIN: i64 = 200_000;

/// Lateral axis scale, fixed-point 0.5.
pub const LATERAL_SCALE: i64 = 500_000;

/// Vertical axis scale, fixed-point 0.8.
pub const VERTICAL_SCALE: i64 = 800_000;

/// Forward axis scale, fixed-point 2.0.
pub const FORWARD_SCALE: i64 = 2_000_000;

/// Largest cone half-angle the emitter accepts: one radian.
pub const MAX_CONE_ANGLE: i64 = 1_000_000;

/// The initial velocity built from a cone half-angle and two unit draws.
pub open spec fn spawn_velocity(cone: int, u_angle: int, u_rot: int) -> V3Model {
    let angle = fp_mul(u_angle, cone);
    let rot = fp_mul(u_rot, TWO_PI_FP as int);
    let sin_a = sin_poly(angle);
    let cos_r = cos_poly(rot);
    let cos_a = cos_poly(angle);
    let dir_x = fp_mul_signed(cos_r, sin_a);
    let dir_y = UP_BIAS + fp_mul(sin_a, UP_GAIN as int);
    V3Model {
        x: fp_mul_signed(dir_x, LATERAL_SCALE as int),
        y: fp_mul(dir_y, VERTICAL_SCALE as int),
        z: fp_mul_signed(cos_a, FORWARD_SCALE as int),
    }
}

/// The particle spawned at `origin` from three unit draws.
pub open spec fn spawn_model(
    origin: V3Model,
    cone: int,
    u_angle: int,
    u_rot: int,
    u_size: int,
) -> ParticleModel {
    ParticleModel {
        position: origin,
        velocity: spawn_velocity(cone, u_angle, u_rot),
        life: 0,
        size: BASE_SIZE + fp_mul(u_size, SIZE_SPREAD as int),
    }
}

/// A particle is a spawn of the given emitter state if three unit draws
/// produce it.
pub open spec fn is_spawn(m: ParticleModel, origin: V3Model, cone: int) -> bool {
    exists|u_angle: int, u_rot: int, u_size: int|
        0 <= u_angle < SCALE && 0 <= u_rot < SCALE && 0 <= u_size < SCALE
            && m == spawn_model(origin, cone, u_angle, u_rot, u_size)
}

/// A signed fixed-point product is bounded by the product over the
/// magnitude bound of its signed factor.
proof fn lemma_fp_mul_signed_abs(a: int, b: int, m: int)
    requires
        -m <= a <= m,
        0 <= b,
        0 <= m,
    ensures
        -fp_mul(m, b) <= fp_mul_signed(a, b) <= fp_mul(m, b),
{
    let s = SCALE as int;
    lemma_div_pos_is_pos(m * b, s);
    if a >= 0 {
        assert(0 <= a * b <= m * b) by (nonlinear_arith)
            requires 0 <= a <= m, 0 <= b;
        lemma_div_pos_is_pos(a * b, s);
        lemma_div_is_ordered(a * b, m * b, s);
    } else {
        assert(0 <= (-a) * b <= m * b) by (nonlinear_arith)
            requires 0 < -a <= m, 0 <= b;
        lemma_div_pos_is_pos((-a) * b, s);
        lemma_div_is_ordered((-a) * b, m * b, s);
    }
}

/// Rescaling by one half, one fifth and one tenth are exact fixed-point
/// divisions.
proof fn lemma_fp_fractions(x: int)
    requires
        0 <= x,
    ensures
        fp_mul(x, HALF_SCALE as int) == x / 2,
        fp_mul(x, UP_GAIN as int) == x / 5,
        fp_mul(x, SIZE_SPREAD as int) == x / 10,
{
    assert(fp_mul(x, HALF_SCALE as int) == x / 2) by {
        lemma_div_denominator(x * 500_000, 500_000, 2);
        assert(x * 500_000 == 500_000 * x) by (nonlinear_arith);
        lemma_div_multiples_vanish(x, 500_000);
    }
    assert(fp_mul(x, UP_GAIN as int) == x / 5) by {
        lemma_div_denominator(x * 200_000, 200_000, 5);
        assert(x * 200_000 == 200_000 * x) by (nonlinear_arith);
        lemma_div_multiples_vanish(x, 200_000);
    }
    assert(fp_mul(x, SIZE_SPREAD as int) == x / 10) by {
        lemma_div_denominator(x * 100_000, 100_000, 10);
        assert(x * 100_000 == 100_000 * x) by (nonlinear_arith);
        lemma_div_multiples_vanish(x, 100_000);
    }
}

/// Ranges of everything a spawn computes: the sampled angle stays inside
/// the cone, the rotation inside one turn, the velocity inside the
/// simulation's velocity bound with a forward component of at least one
/// whole unit, and the size inside `[0.1, 0.2)`.
pub proof fn lemma_spawn_ranges(cone: int, u_angle: int, u_rot: int, u_size: int)
    requires
        0 <= cone <= MAX_CONE_ANGLE,
        0 <= u_angle < SCALE,
        0 <= u_rot < SCALE,
        0 <= u_size < SCALE,
    ensures
        0 <= fp_mul(u_angle, cone) <= cone,
        0 <= fp_mul(u_rot, TWO_PI_FP as int) < TWO_PI_FP,
        vel_ok(spawn_velocity(cone, u_angle, u_rot)),
        spawn_velocity(cone, u_angle, u_rot).z == 2 * cos_poly(fp_mul(u_angle, cone)),
        spawn_velocity(cone, u_angle, u_rot).z >= SCALE,
        ({
            let lat = spawn_velocity(cone, u_angle, u_rot).x;
            let bound = sin_poly(fp_mul(u_angle, cone)) / 2;
            -bound <= lat <= bound
        }),
        0 <= fp_mul(u_size, SIZE_SPREAD as int) < SIZE_SPREAD,
{
    let s = SCALE as int;
    let angle = fp_mul(u_angle, cone);
    let rot = fp_mul(u_rot, TWO_PI_FP as int);

    // angle range
    assert(0 <= u_angle * cone <= s * cone) by (nonlinear_arith)
        requires 0 <= u_angle <= s, 0 <= cone;
    lemma_div_pos_is_pos(u_angle * cone, s);
    lemma_div_is_ordered(u_angle * cone, s * cone, s);
    assert((s * cone) / s == cone) by {
        lemma_div_multiples_vanish(cone, s);
    }
    assert(0 <= angle <= cone);

    // rotation range
    assert(0 <= u_rot * (TWO_PI_FP as int) <= 999_999 * 6_283_185) by (nonlinear_arith)
        requires 0 <= u_rot <= 999_999;
    lemma_div_pos_is_pos(u_rot * (TWO_PI_FP as int), s);
    lemma_div_is_ordered(u_rot * (TWO_PI_FP as int), (999_999 * 6_283_185) as int, s);
    assert(0 <= rot < TWO_PI_FP);

    let sin_a = sin_poly(angle);
    let cos_r = cos_poly(rot);
    let cos_a = cos_poly(angle);
    lemma_sin_poly_bounds(angle);
    lemma_cos_poly_bounds(rot);
    lemma_cos_poly_bounds(angle);
    lemma_fp_fractions(sin_a);

    // lateral direction and its half-scale rescale
    let dir_x = fp_mul_signed(cos_r, sin_a);
    lemma_fp_mul_signed_abs(cos_r, sin_a, s);
    assert((s * sin_a) / s == sin_a) by {
        assert(s * sin_a == sin_a * s) by (nonlinear_arith);
        lemma_div_multiples_vanish(sin_a, s);
    }
    assert(-sin_a <= dir_x <= sin_a);
    lemma_fp_mul_signed_abs(dir_x, LATERAL_SCALE as int, sin_a);
    assert(-(sin_a / 2) <= fp_mul_signed(dir_x, LATERAL_SCALE as int) <= sin_a / 2);
    lemma_div_is_ordered(sin_a, s, 2);

    // vertical component
    let dir_y = UP_BIAS + fp_mul(sin_a, UP_GAIN as int);
    lemma_div_is_ordered(sin_a, s, 5);
    assert(UP_BIAS <= dir_y <= 500_000);
    assert(0 <= dir_y * (VERTICAL_SCALE as int) <= 500_000 * 800_000) by (nonlinear_arith)
        requires 0 <= dir_y <= 500_000;
    lemma_div_pos_is_pos(dir_y * (VERTICAL_SCALE as int), s);
    lemma_div_is_ordered(dir_y * (VERTICAL_SCALE as int), (500_000 * 800_000) as int, s);

    // forward component: exactly twice the cosine
    assert(fp_mul_signed(cos_a, FORWARD_SCALE as int) == 2 * cos_a) by {
        assert(cos_a * 2_000_000 == 1_000_000 * (2 * cos_a)) by (nonlinear_arith);
        lemma_div_multiples_vanish(2 * cos_a, s);
    }

    // size draw
    lemma_fp_fractions(u_size);
    lemma_div_pos_is_pos(u_size, 10);
}

/// The cone-compression law: every spawned velocity points strictly
/// forward, its lateral component never exceeds the lateral bound
/// `sin(angle) / 2` that the sampled angle allows, and the forward
/// component is at least twice that bound.
pub proof fn lemma_cone_compression(cone: int, u_angle: int, u_rot: int)
    requires
        0 <= cone <= MAX_CONE_ANGLE,
        0 <= u_angle < SCALE,
        0 <= u_rot < SCALE,
    ensures
        ({
            let v = spawn_velocity(cone, u_angle, u_rot);
            let bound = sin_poly(fp_mul(u_angle, cone)) / 2;
            &&& v.z > 0
            &&& -bound <= v.x <= bound
            &&& v.z >= 2 * bound
        }),
{
    lemma_spawn_ranges(cone, u_angle, u_rot, 0);
    let angle = fp_mul(u_angle, cone);
    lemma_sin_poly_bounds(angle);
    lemma_div_is_ordered(sin_poly(angle), SCALE as int, 2);
}

/// Build the particle three unit draws describe. Every claim the library
/// makes of randomized spawning is proved here, for every value the draws
/// can take.
pub fn sample_particle(
    origin: V3,
    cone_angle: i64,
    u_angle: i64,
    u_rot: i64,
    u_size: i64,
) -> (p: Particle)
    requires
        coord_ok(origin@),
        0 <= cone_angle <= MAX_CONE_ANGLE,
        0 <= u_angle < SCALE,
        0 <= u_rot < SCALE,
        0 <= u_size < SCALE,
    ensures
        p@ == spawn_model(origin@, cone_angle as int, u_angle as int, u_rot as int,
            u_size as int),
        is_spawn(p@, origin@, cone_angle as int),
        particle_wf(p@),
{
    proof {
        lemma_spawn_ranges(cone_angle as int, u_angle as int, u_rot as int, u_size as int);
        lemma_sin_poly_bounds(fp_mul(u_angle as int, cone_angle as int));
        lemma_cos_poly_bounds(fp_mul(u_rot as int, TWO_PI_FP as int));
        lemma_cos_poly_bounds(fp_mul(u_angle as int, cone_angle as int));
        assert(u_angle * cone_angle <= 1_000_000 * 1_000_000) by (nonlinear_arith)
            requires 0 <= u_angle <= 1_000_000, 0 <= cone_angle <= 1_000_000;
        assert(u_rot * TWO_PI_FP <= 1_000_000 * 6_283_185) by (nonlinear_arith)
            requires 0 <= u_rot <= 1_000_000, TWO_PI_FP == 6_283_185;
    }
    let angle = mul_scale(u_angle, cone_angle);
    let rot = mul_scale(u_rot, TWO_PI_FP);
    let sin_a = sin_fp(angle);
    let cos_r = cos_fp(rot);
    let cos_a = cos_fp(angle);
    proof {
        assert(-(1_000_000 * 1_000_000) <= cos_r * sin_a <= 1_000_000 * 1_000_000)
            by (nonlinear_arith)
            requires -1_000_000 <= cos_r <= 1_000_000, 0 <= sin_a <= 1_000_000;
    }
    let dir_x = mul_scale_signed(cos_r, sin_a);
    let dir_y = UP_BIAS + mul_scale(sin_a, UP_GAIN);
    proof {
        assert(-(1_000_000 * 500_000) <= dir_x * LATERAL_SCALE <= 1_000_000 * 500_000)
            by (nonlinear_arith)
            requires -1_000_000 <= dir_x <= 1_000_000, LATERAL_SCALE == 500_000;
        assert(0 <= dir_y * VERTICAL_SCALE <= 500_000 * 800_000) by (nonlinear_arith)
            requires 0 <= dir_y <= 500_000, VERTICAL_SCALE == 800_000;
        assert(0 <= cos_a * FORWARD_SCALE <= 1_000_000 * 2_000_000) by (nonlinear_arith)
            requires 0 <= cos_a <= 1_000_000, FORWARD_SCALE == 2_000_000;
    }
    let vx = mul_scale_signed(dir_x, LATERAL_SCALE);
    let vy = mul_scale(dir_y, VERTICAL_SCALE);
    let vz = mul_scale_signed(cos_a, FORWARD_SCALE);
    let size = BASE_SIZE + mul_scale(u_size, SIZE_SPREAD);
    Particle {
        position: origin,
        velocity: V3 { x: vx, y: vy, z: vz },
        life: 0,
        size,
    }
}

} // verus!
