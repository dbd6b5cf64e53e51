//! Particles and the per-tick integrator.
//!
//! A particle carries a world position, a velocity fixed at spawn time, an
//! age (`life`, from 0 at birth to `SCALE` at death) and a billboard
//! half-extent (`size`). One tick moves every particle by `velocity * dt`,
//! ages it by `dt * 0.5` and grows it by `dt * 0.3` (all in truncating
//! fixed-point), then removes every particle whose life reached `SCALE`.
//! Positions are clamped into `[-POS_LIMIT, POS_LIMIT]` per axis: that is
//! this library's documented policy for the otherwise unbounded drift of a
//! long-lived emitter.

use vstd::prelude::*;
use crate::fixed::{SCALE, POS_LIMIT, MAX_DT, fp_mul, fp_mul_signed, clamp_coord,
    mul_scale, mul_scale_signed};
use vstd::arithmetic::div_mod::{lemma_div_is_ordered, lemma_div_multiples_vanish,
    lemma_div_denominator, lemma_div_pos_is_pos};

verus! {

/// Ageing rate: life gained per unit of time, fixed-point 0.5.
pub const AGE_RATE_FP: i64 = 500_000;

/// Growth rate: size gained per unit of time, fixed-point 0.3.
pub const GROWTH_RATE_FP: i64 = 300_000;

/// Smallest initial billboard half-extent, fixed-point 0.1.
pub const BASE_SIZE: i64 = 100_000;

/// Width of the random initial-size interval, fixed-point 0.1.
pub const SIZE_SPREAD: i64 = 100_000;

/// Largest magnitude any velocity component may take, fixed-point 2.0.
pub const VEL_LIMIT: i64 = 2_000_000;

/// A 3D vector of fixed-point coordinates.
#[derive(Clone, Copy, PartialEq, Eq, Structural, Debug)]
pub struct V3 {
    pub x: i64,
    pub y: i64,
    pub z: i64,
}

/// The mathematical model of a vector: unbounded integers.
pub struct V3Model {
    pub x: int,
    pub y: int,
    pub z: int,
}

impl View for V3 {
    type V = V3Model;

    open spec fn view(&self) -> V3Model {
        V3Model { x: self.x as int, y: self.y as int, z: self.z as int }
    }
}

/// One live particle of the fire effect.
#[derive(Clone, Copy, PartialEq, Eq, Structural, Debug)]
pub struct Particle {
    pub position: V3,
    pub velocity: V3,
    pub life: i64,
    pub size: i64,
}

/// The mathematical model of a particle.
pub struct ParticleModel {
    pub position: V3Model,
    pub velocity: V3Model,
    pub life: int,
    pub size: int,
}

impl View for Particle {
    type V = ParticleModel;

    open spec fn view(&self) -> ParticleModel {
        ParticleModel {
            position: self.position@,
            velocity: self.velocity@,
            life: self.life as int,
            size: self.size as int,
        }
    }
}

/// Every coordinate lies in the world range.
pub open spec fn coord_ok(v: V3Model) -> bool {
    &&& -(POS_LIMIT as int) <= v.x <= POS_LIMIT
    &&& -(POS_LIMIT as int) <= v.y <= POS_LIMIT
    &&& -(POS_LIMIT as int) <= v.z <= POS_LIMIT
}

/// Every velocity component is bounded by `VEL_LIMIT`.
pub open spec fn vel_ok(v: V3Model) -> bool {
    &&& -(VEL_LIMIT as int) <= v.x <= VEL_LIMIT
    &&& -(VEL_LIMIT as int) <= v.y <= VEL_LIMIT
    &&& -(VEL_LIMIT as int) <= v.z <= VEL_LIMIT
}

/// Well-formedness of a live particle: in-range position and velocity,
/// life still short of death, and a size that never outruns
/// its initial interval by more than the life gained since birth.
pub open spec fn particle_wf(m: ParticleModel) -> bool {
    &&& 0 <= m.life < SCALE
    &&& BASE_SIZE <= m.size <= BASE_SIZE + SIZE_SPREAD + m.life
    &&& coord_ok(m.position)
    &&& vel_ok(m.velocity)
}

/// A particle survives a tick while its life is short of one whole unit.
pub open spec fn alive(m: ParticleModel) -> bool {
    m.life < SCALE
}

/// One integration step: drift by `velocity * dt` (clamped into the world
/// range), age by `dt * 0.5`, grow by `dt * 0.3`.
pub open spec fn step_model(m: ParticleModel, dt: int) -> ParticleModel {
    ParticleModel {
        position: V3Model {
            x: clamp_coord(m.position.x + fp_mul_signed(m.velocity.x, dt)),
            y: clamp_coord(m.position.y + fp_mul_signed(m.velocity.y, dt)),
            z: clamp_coord(m.position.z + fp_mul_signed(m.velocity.z, dt)),
        },
        velocity: m.velocity,
        life: m.life + fp_mul(dt, AGE_RATE_FP as int),
        size: m.size + fp_mul(dt, GROWTH_RATE_FP as int),
    }
}

/// The whole tick over a store: every particle stepped, the dead removed,
/// the survivors kept in order.
pub open spec fn integrate_culled(ps: Seq<ParticleModel>, dt: int) -> Seq<ParticleModel>
    decreases ps.len(),
{
    if ps.len() == 0 {
        Seq::empty()
    } else {
        let rest = integrate_culled(ps.drop_last(), dt);
        let q = step_model(ps.last(), dt);
        if alive(q) {
            rest.push(q)
        } else {
            rest
        }
    }
}

/// The exact fixed-point gains of one step: ageing by half of `dt` and
/// growth by three tenths of `dt`, growth never outrunning ageing.
pub proof fn lemma_gain_values(dt: int)
    requires
        0 <= dt,
    ensures
        fp_mul(dt, AGE_RATE_FP as int) == dt / 2,
        fp_mul(dt, GROWTH_RATE_FP as int) == (3 * dt) / 10,
        0 <= (3 * dt) / 10 <= dt / 2 <= dt,
{
    let s = SCALE as int;
    assert(fp_mul(dt, AGE_RATE_FP as int) == dt / 2) by {
        lemma_div_denominator(dt * 500_000, 500_000, 2);
        assert(dt * 500_000 == 500_000 * dt) by (nonlinear_arith);
        lemma_div_multiples_vanish(dt, 500_000);
    }
    assert(fp_mul(dt, GROWTH_RATE_FP as int) == (3 * dt) / 10) by {
        lemma_div_denominator(dt * 300_000, 100_000, 10);
        assert(dt * 300_000 == 100_000 * (3 * dt)) by (nonlinear_arith);
        lemma_div_multiples_vanish(3 * dt, 100_000);
    }
    assert(dt / 2 == (5 * dt) / 10) by {
        lemma_div_denominator(5 * dt, 5, 2);
        assert(5 * dt == 5 * dt);
        lemma_div_multiples_vanish(dt, 5);
    }
    lemma_div_pos_is_pos(3 * dt, 10);
    lemma_div_is_ordered(3 * dt, 5 * dt, 10);
    lemma_div_is_ordered(dt, 2 * dt, 2);
    assert((2 * dt) / 2 == dt) by {
        lemma_div_multiples_vanish(dt, 2);
    }
}

/// The drift of one axis in one step stays within two whole world units
/// per million time units, so a clamped position plus one drift never
/// overflows the machine range.
pub proof fn lemma_drift_bound(a: int, dt: int)
    requires
        -(VEL_LIMIT as int) <= a <= VEL_LIMIT,
        0 <= dt <= MAX_DT,
    ensures
        -2_000_000_000_000 <= fp_mul_signed(a, dt) <= 2_000_000_000_000,
        -2_000_000_000_000_000_000 <= a * dt <= 2_000_000_000_000_000_000,
        a < 0 ==> 0 <= (-a) * dt <= 2_000_000_000_000_000_000,
{
    if a >= 0 {
        assert(0 <= a * dt <= 2_000_000_000_000_000_000) by (nonlinear_arith)
            requires 0 <= a <= 2_000_000, 0 <= dt <= 1_000_000_000_000;
        lemma_div_pos_is_pos(a * dt, SCALE as int);
        lemma_div_is_ordered(a * dt, 2_000_000_000_000_000_000, SCALE as int);
    } else {
        assert(0 <= (-a) * dt <= 2_000_000_000_000_000_000) by (nonlinear_arith)
            requires 0 < -a <= 2_000_000, 0 <= dt <= 1_000_000_000_000;
        assert(a * dt == -((-a) * dt)) by (nonlinear_arith);
        lemma_div_pos_is_pos((-a) * dt, SCALE as int);
        lemma_div_is_ordered((-a) * dt, 2_000_000_000_000_000_000, SCALE as int);
    }
}

/// A stepped particle that survives is well-formed again.
pub proof fn lemma_step_wf(m: ParticleModel, dt: int)
    requires
        particle_wf(m),
        0 <= dt <= MAX_DT,
    ensures
        alive(step_model(m, dt)) ==> particle_wf(step_model(m, dt)),
        step_model(m, dt).life >= m.life,
{
    lemma_gain_values(dt);
    lemma_drift_bound(m.velocity.x, dt);
    lemma_drift_bound(m.velocity.y, dt);
    lemma_drift_bound(m.velocity.z, dt);
}

/// Clamp a coordinate into the world range.
fn clamp_pos(x: i64) -> (r: i64)
    ensures
        r == clamp_coord(x as int),
{
    if x > POS_LIMIT {
        POS_LIMIT
    } else if x < -POS_LIMIT {
        -POS_LIMIT
    } else {
        x
    }
}

/// One integration step of a single particle.
pub fn step_particle(p: &Particle, dt: i64) -> (q: Particle)
    requires
        particle_wf(p@),
        0 <= dt <= MAX_DT,
    ensures
        q@ == step_model(p@, dt as int),
        alive(q@) ==> particle_wf(q@),
{
    proof {
        lemma_step_wf(p@, dt as int);
        lemma_gain_values(dt as int);
        lemma_drift_bound(p.velocity.x as int, dt as int);
        lemma_drift_bound(p.velocity.y as int, dt as int);
        lemma_drift_bound(p.velocity.z as int, dt as int);
    }
    let dx = mul_scale_signed(p.velocity.x, dt);
    let dy = mul_scale_signed(p.velocity.y, dt);
    let dz = mul_scale_signed(p.velocity.z, dt);
    let life_inc = mul_scale(dt, AGE_RATE_FP);
    let size_inc = mul_scale(dt, GROWTH_RATE_FP);
    Particle {
        position: V3 {
            x: clamp_pos(p.position.x + dx),
            y: clamp_pos(p.position.y + dy),
            z: clamp_pos(p.position.z + dz),
        },
        velocity: p.velocity,
        life: p.life + life_inc,
        size: p.size + size_inc,
    }
}

/// The integration law: after one tick every survivor is the step image of
/// some particle of the old store -- its life raised by exactly half of
/// `dt` and its size by exactly three tenths of `dt` -- every survivor is
/// still short of death, every stepped particle that stays short of death
/// is present, and every stepped particle that reached death is absent.
pub proof fn lemma_advance_exact(ps: Seq<ParticleModel>, dt: int)
    requires
        0 <= dt,
    ensures
        forall|i: int| 0 <= i < integrate_culled(ps, dt).len()
            ==> alive(#[trigger] integrate_culled(ps, dt)[i]),
        forall|i: int| 0 <= i < integrate_culled(ps, dt).len()
            ==> exists|j: int| 0 <= j < ps.len()
                && #[trigger] integrate_culled(ps, dt)[i] == step_model(ps[j], dt),
        forall|j: int| 0 <= j < ps.len() && alive(#[trigger] step_model(ps[j], dt))
            ==> integrate_culled(ps, dt).contains(step_model(ps[j], dt)),
        forall|j: int| 0 <= j < ps.len() && !alive(#[trigger] step_model(ps[j], dt))
            ==> !integrate_culled(ps, dt).contains(step_model(ps[j], dt)),
        forall|j: int| 0 <= j < ps.len()
            ==> (#[trigger] step_model(ps[j], dt)).life == ps[j].life + dt / 2
                && step_model(ps[j], dt).size == ps[j].size + (3 * dt) / 10,
    decreases ps.len(),
{
    lemma_gain_values(dt);
    let r = integrate_culled(ps, dt);
    if ps.len() == 0 {
        assert(forall|j: int| 0 <= j < ps.len() && !alive(#[trigger] step_model(ps[j], dt))
            ==> !r.contains(step_model(ps[j], dt)));
    } else {
        let head = ps.drop_last();
        let rest = integrate_culled(head, dt);
        let q = step_model(ps.last(), dt);
        lemma_advance_exact(head, dt);
        assert(forall|j: int| 0 <= j < head.len() ==> head[j] == ps[j]);
        // every survivor is alive and is a step image
        assert forall|i: int| 0 <= i < r.len() implies alive(r[i])
            && exists|j: int| 0 <= j < ps.len() && r[i] == step_model(ps[j], dt) by {
            if i < rest.len() {
                assert(r[i] == rest[i]);
                let j = choose|j: int| 0 <= j < head.len() && rest[i] == step_model(head[j], dt);
                assert(r[i] == step_model(ps[j], dt));
            } else {
                assert(alive(q) && r[i] == q);
                assert(r[i] == step_model(ps[ps.len() - 1], dt));
            }
        }
        // every stepped survivor is present
        assert forall|j: int| 0 <= j < ps.len() && alive(step_model(ps[j], dt))
            implies r.contains(step_model(ps[j], dt)) by {
            let m = step_model(ps[j], dt);
            if j < ps.len() - 1 {
                assert(rest.contains(m));
                let i = choose|i: int| 0 <= i < rest.len() && rest[i] == m;
                assert(r[i] == m);
                assert(r.contains(m));
            } else {
                assert(m == q);
                assert(r[r.len() - 1] == m);
                assert(r.contains(m));
            }
        }
        // every stepped casualty is absent, since everything present is alive
        assert forall|j: int| 0 <= j < ps.len() && !alive(step_model(ps[j], dt))
            implies !r.contains(step_model(ps[j], dt)) by {
            let m = step_model(ps[j], dt);
            if r.contains(m) {
                let i = choose|i: int| 0 <= i < r.len() && r[i] == m;
                assert(alive(r[i]));
            }
        }
    }
}

} // verus!
