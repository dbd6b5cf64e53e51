//! The fire particle system: store, spawner, integrator and the per-frame
//! vertex-building / draw-decision protocol.
//!
//! One `update` tick integrates and culls every particle, then drains the
//! spawn accumulator: the accumulator gains `dt`, and while it holds at
//! least one spawn interval, one particle is emitted and one interval
//! subtracted. The spawn count over any sequence of ticks therefore depends
//! only on the total elapsed time, never on how it was split across frames.
//!
//! `prepare_vertices` rebuilds the cached vertex buffer from scratch: six
//! records per live particle. `render_plan` is the draw decision: no draw
//! at all for an empty store, otherwise the number of vertices to draw,
//! silently truncated to the fixed GPU capacity of `MAX_PARTICLES` -- that
//! truncation is this library's documented overflow policy for a store
//! that outgrows the vertex buffer.

use vstd::prelude::*;
use crate::fixed::{SCALE, MAX_DT};
use crate::particle::{V3, V3Model, Particle, ParticleModel, particle_wf,
    integrate_culled, coord_ok, step_particle};
use crate::spawn::{MAX_CONE_ANGLE, is_spawn, spawn_model, sample_particle};
use crate::vertex::{FireParticleVertex, VertexModel, vertex_model_of};
use crate::rng::random_below;
use vstd::arithmetic::div_mod::{lemma_fundamental_div_mod, lemma_fundamental_div_mod_converse,
    lemma_basic_div, lemma_div_is_ordered_by_denominator, lemma_div_basics_1,
    lemma_mod_division_less_than_divisor, lemma_hoist_over_denominator};

verus! {

/// Cone half-angle the emitter starts with, fixed-point 0.3 radians.
pub const DEFAULT_CONE_ANGLE: i64 = 300_000;

/// Spawn rate the emitter starts with: fixed-point 50 particles per unit time.
pub const DEFAULT_SPAWN_RATE: i64 = 50_000_000;

/// Largest accepted spawn rate; keeps the spawn interval at least one tick.
pub const MAX_SPAWN_RATE: i64 = 1_000_000_000_000;

/// `SCALE * SCALE`: one whole unit of time times one whole unit of rate.
pub const INTERVAL_NUMERATOR: i64 = 1_000_000_000_000;

/// Fixed capacity of the GPU vertex buffer, in particles.
pub const MAX_PARTICLES: usize = 1024;

/// The view of a vector of particles.
pub open spec fn store_view(s: Seq<Particle>) -> Seq<ParticleModel> {
    s.map_values(|q: Particle| q@)
}

/// The view of a vector of vertex records.
pub open spec fn verts_view(s: Seq<FireParticleVertex>) -> Seq<VertexModel> {
    s.map_values(|q: FireParticleVertex| q@)
}

/// The fire particle system: the live particle store, the emitter state,
/// and the cached vertex buffer rebuilt each frame.
pub struct FireSystem {
    particles: Vec<Particle>,
    origin: V3,
    cone_angle: i64,
    spawn_interval: i64,
    accumulator: i64,
    vertices: Vec<FireParticleVertex>,
}

impl FireSystem {
    /// The store as a sequence of particle models.
    pub closed spec fn parts(self) -> Seq<ParticleModel> {
        store_view(self.particles@)
    }

    /// The cached vertex buffer as a sequence of vertex models.
    pub closed spec fn verts(self) -> Seq<VertexModel> {
        verts_view(self.vertices@)
    }

    /// The emitter origin.
    pub closed spec fn emitter_origin(self) -> V3Model {
        self.origin@
    }

    /// The cone half-angle.
    pub closed spec fn cone(self) -> int {
        self.cone_angle as int
    }

    /// The spawn interval: time between two emitted particles.
    pub closed spec fn interval(self) -> int {
        self.spawn_interval as int
    }

    /// The fractional spawn time carried over from earlier ticks.
    pub closed spec fn carry(self) -> int {
        self.accumulator as int
    }

    /// The emitter configuration is in range.
    pub closed spec fn config_wf(self) -> bool {
        &&& coord_ok(self.origin@)
        &&& 0 <= self.cone_angle <= MAX_CONE_ANGLE
        &&& 1 <= self.spawn_interval <= MAX_DT
    }

    /// Every stored particle is well-formed.
    pub closed spec fn store_ok(self) -> bool {
        forall|i: int| 0 <= i < self.parts().len() ==> particle_wf(#[trigger] self.parts()[i])
    }

    /// Well-formedness: configuration and store in range, and the spawn
    /// accumulator fully drained below one interval.
    pub closed spec fn wf(self) -> bool {
        &&& self.config_wf()
        &&& self.store_ok()
        &&& 0 <= self.accumulator < self.spawn_interval
    }

    /// A fresh system with a chosen cone half-angle and spawn rate. The
    /// spawn interval is the fixed-point quotient of one whole unit of
    /// time by the rate.
    pub fn with_config(origin: V3, cone_angle: i64, spawn_rate: i64) -> (sys: Self)
        requires
            coord_ok(origin@),
            0 <= cone_angle <= MAX_CONE_ANGLE,
            1 <= spawn_rate <= MAX_SPAWN_RATE,
        ensures
            sys.wf(),
            sys.parts().len() == 0,
            sys.verts().len() == 0,
            sys.emitter_origin() == origin@,
            sys.cone() == cone_angle,
            sys.interval() == INTERVAL_NUMERATOR as int / spawn_rate as int,
            sys.carry() == 0,
    {
        proof {
            lemma_div_is_ordered_by_denominator(INTERVAL_NUMERATOR as int, spawn_rate as int,
                INTERVAL_NUMERATOR as int);
            lemma_div_is_ordered_by_denominator(INTERVAL_NUMERATOR as int, 1, spawn_rate as int);
            lemma_div_basics_1(INTERVAL_NUMERATOR as int);
        }
        let spawn_interval = INTERVAL_NUMERATOR / spawn_rate;
        FireSystem {
            particles: Vec::new(),
            origin,
            cone_angle,
            spawn_interval,
            accumulator: 0,
            vertices: Vec::new(),
        }
    }

    /// A fresh system with the default plume: a 0.3 radian cone fed at 50
    /// particles per unit time (one spawn every 0.02 units).
    pub fn new(origin: V3) -> (sys: Self)
        requires
            coord_ok(origin@),
        ensures
            sys.wf(),
            sys.parts().len() == 0,
            sys.verts().len() == 0,
            sys.emitter_origin() == origin@,
            sys.cone() == DEFAULT_CONE_ANGLE,
            sys.interval() == 20_000,
            sys.carry() == 0,
    {
        Self::with_config(origin, DEFAULT_CONE_ANGLE, DEFAULT_SPAWN_RATE)
    }

    /// Move the emitter. Already-spawned particles keep the origin they
    /// were born at: the origin is only read at spawn time.
    pub fn set_origin(&mut self, origin: V3)
        requires
            old(self).wf(),
            coord_ok(origin@),
        ensures
            final(self).wf(),
            final(self).emitter_origin() == origin@,
            final(self).parts() == old(self).parts(),
            final(self).verts() == old(self).verts(),
            final(self).cone() == old(self).cone(),
            final(self).interval() == old(self).interval(),
            final(self).carry() == old(self).carry(),
    {
        self.origin = origin;
        proof {
            assert forall|i: int| 0 <= i < self.parts().len()
                implies particle_wf(#[trigger] self.parts()[i]) by {
                assert(self.parts()[i] == old(self).parts()[i]);
            }
        }
    }

    /// Emit one particle from three given unit draws. This is the
    /// deterministic injection point: a caller that wants reproducible
    /// spawning supplies its own samples here instead of relying on the
    /// thread-local generator.
    pub fn spawn_sampled(&mut self, u_angle: i64, u_rot: i64, u_size: i64)
        requires
            old(self).wf(),
            0 <= u_angle < SCALE,
            0 <= u_rot < SCALE,
            0 <= u_size < SCALE,
        ensures
            final(self).wf(),
            final(self).parts() == old(self).parts().push(spawn_model(
                old(self).emitter_origin(), old(self).cone(), u_angle as int, u_rot as int,
                u_size as int)),
            final(self).emitter_origin() == old(self).emitter_origin(),
            final(self).cone() == old(self).cone(),
            final(self).interval() == old(self).interval(),
            final(self).carry() == old(self).carry(),
            final(self).verts() == old(self).verts(),
    {
        let p = sample_particle(self.origin, self.cone_angle, u_angle, u_rot, u_size);
        self.particles.push(p);
        proof {
            assert(self.parts() =~= old(self).parts().push(p@));
            assert forall|i: int| 0 <= i < self.parts().len()
                implies particle_wf(#[trigger] self.parts()[i]) by {
                if i < old(self).parts().len() {
                    assert(self.parts()[i] == old(self).parts()[i]);
                }
            }
        }
    }

    /// Emit one particle from three fresh uniform draws.
    fn spawn_particle(&mut self)
        requires
            old(self).config_wf(),
            old(self).store_ok(),
        ensures
            final(self).config_wf(),
            final(self).store_ok(),
            final(self).parts().len() == old(self).parts().len() + 1,
            forall|i: int| 0 <= i < old(self).parts().len()
                ==> #[trigger] final(self).parts()[i] == old(self).parts()[i],
            is_spawn(final(self).parts().last(), old(self).emitter_origin(), old(self).cone()),
            final(self).emitter_origin() == old(self).emitter_origin(),
            final(self).cone() == old(self).cone(),
            final(self).interval() == old(self).interval(),
            final(self).carry() == old(self).carry(),
            final(self).verts() == old(self).verts(),
    {
        let u_angle = random_below(1_000_000) as i64;
        let u_rot = random_below(1_000_000) as i64;
        let u_size = random_below(1_000_000) as i64;
        let p = sample_particle(self.origin, self.cone_angle, u_angle, u_rot, u_size);
        self.particles.push(p);
        proof {
            assert(self.parts() =~= old(self).parts().push(p@));
        }
    }

    /// One simulation tick. Every particle drifts by `velocity * dt`, ages
    /// by half of `dt` and grows by three tenths of `dt`; the dead are
    /// removed. Then the spawner drains the accumulator: the tick emits
    /// exactly `(carry + dt) / interval` particles of the current emitter
    /// state, appended behind the survivors in spawn order, and keeps the
    /// remainder `(carry + dt) % interval` for later ticks.
    pub fn update(&mut self, dt: i64)
        requires
            old(self).wf(),
            0 <= dt <= MAX_DT,
        ensures
            final(self).wf(),
            final(self).emitter_origin() == old(self).emitter_origin(),
            final(self).cone() == old(self).cone(),
            final(self).interval() == old(self).interval(),
            final(self).verts() == old(self).verts(),
            final(self).carry() == (old(self).carry() + dt) % old(self).interval(),
            ({
                let survivors = integrate_culled(old(self).parts(), dt as int);
                let born = (old(self).carry() + dt) / old(self).interval();
                &&& final(self).parts().len() == survivors.len() + born
                &&& forall|i: int| 0 <= i < survivors.len()
                    ==> #[trigger] final(self).parts()[i] == survivors[i]
                &&& forall|i: int| survivors.len() <= i < final(self).parts().len()
                    ==> is_spawn(#[trigger] final(self).parts()[i], old(self).emitter_origin(),
                        old(self).cone())
            }),
    {
        let ghost g_parts = self.parts();
        let ghost survivors = integrate_culled(g_parts, dt as int);

        // integrate every particle; keep the survivors in order
        let mut kept: Vec<Particle> = Vec::new();
        let n = self.particles.len();
        let mut idx: usize = 0;
        while idx < n
            invariant
                idx <= n,
                n == self.particles@.len(),
                self == old(self),
                old(self).wf(),
                0 <= dt <= MAX_DT,
                g_parts == self.parts(),
                store_view(kept@) == integrate_culled(g_parts.subrange(0, idx as int),
                    dt as int),
                forall|i: int| 0 <= i < kept@.len()
                    ==> particle_wf(#[trigger] store_view(kept@)[i]),
            decreases n - idx,
        {
            let p = self.particles[idx];
            let ghost prev = store_view(kept@);
            let ghost sub = g_parts.subrange(0, idx as int + 1);
            proof {
                assert(sub.drop_last() =~= g_parts.subrange(0, idx as int));
                assert(sub.last() == p@);
            }
            let q = step_particle(&p, dt);
            if q.life < SCALE {
                kept.push(q);
                proof {
                    assert(store_view(kept@) =~= prev.push(q@));
                }
            }
            idx += 1;
        }
        proof {
            assert(g_parts.subrange(0, n as int) =~= g_parts);
        }
        self.particles = kept;

        // drain the spawn accumulator
        let ghost g_origin = self.origin@;
        let ghost g_cone = self.cone_angle as int;
        let ghost ivl = self.spawn_interval as int;
        let ghost g_verts = self.verts();
        let ghost total = self.accumulator + dt;
        self.accumulator = self.accumulator + dt;
        let ghost mut born: int = 0int;
        while self.accumulator >= self.spawn_interval
            invariant
                self.config_wf(),
                self.store_ok(),
                self.origin@ == g_origin,
                self.cone_angle as int == g_cone,
                self.spawn_interval as int == ivl,
                self.verts() == g_verts,
                0 <= self.accumulator,
                born >= 0,
                self.accumulator + born * ivl == total,
                total <= 2 * MAX_DT,
                self.parts().len() == survivors.len() + born,
                forall|i: int| 0 <= i < survivors.len()
                    ==> #[trigger] self.parts()[i] == survivors[i],
                forall|i: int| survivors.len() <= i < self.parts().len()
                    ==> is_spawn(#[trigger] self.parts()[i], g_origin, g_cone),
            decreases self.accumulator,
        {
            self.spawn_particle();
            self.accumulator = self.accumulator - self.spawn_interval;
            proof {
                assert((born + 1) * ivl == born * ivl + ivl) by (nonlinear_arith);
                born = born + 1int;
            }
        }
        proof {
            lemma_fundamental_div_mod_converse(total, ivl, born, self.accumulator as int);
        }
    }

    /// Rebuild the cached vertex buffer from scratch: six corner-tagged
    /// records per live particle, in store order, each carrying the
    /// particle's position, size and life unchanged.
    pub fn prepare_vertices(&mut self)
        requires
            old(self).wf(),
        ensures
            final(self).wf(),
            final(self).parts() == old(self).parts(),
            final(self).emitter_origin() == old(self).emitter_origin(),
            final(self).cone() == old(self).cone(),
            final(self).interval() == old(self).interval(),
            final(self).carry() == old(self).carry(),
            final(self).verts().len() == 6 * final(self).parts().len(),
            forall|v: int| 0 <= v < final(self).verts().len()
                ==> #[trigger] final(self).verts()[v]
                    == vertex_model_of(final(self).parts()[v / 6], v % 6),
    {
        let ghost g_parts = self.parts();
        let mut out: Vec<FireParticleVertex> = Vec::new();
        let n = self.particles.len();
        let mut idx: usize = 0;
        while idx < n
            invariant
                idx <= n,
                n == self.particles@.len(),
                self == old(self),
                old(self).wf(),
                g_parts == self.parts(),
                verts_view(out@).len() == 6 * idx,
                forall|v: int| 0 <= v < 6 * idx
                    ==> #[trigger] verts_view(out@)[v] == vertex_model_of(g_parts[v / 6], v % 6),
            decreases n - idx,
        {
            let p = self.particles[idx];
            let ghost base = 6 * (idx as int);
            let ghost prev = out@;
            let w0 = FireParticleVertex {
                position: p.position, size: p.size, life: p.life, corner_x: -1, corner_y: -1,
            };
            let w1 = FireParticleVertex {
                position: p.position, size: p.size, life: p.life, corner_x: 1, corner_y: -1,
            };
            let w2 = FireParticleVertex {
                position: p.position, size: p.size, life: p.life, corner_x: 1, corner_y: 1,
            };
            let w3 = w0;
            let w4 = w2;
            let w5 = FireParticleVertex {
                position: p.position, size: p.size, life: p.life, corner_x: -1, corner_y: 1,
            };
            out.push(w0);
            out.push(w1);
            out.push(w2);
            out.push(w3);
            out.push(w4);
            out.push(w5);
            proof {
                lemma_fundamental_div_mod_converse(base + 0, 6, idx as int, 0);
                lemma_fundamental_div_mod_converse(base + 1, 6, idx as int, 1);
                lemma_fundamental_div_mod_converse(base + 2, 6, idx as int, 2);
                lemma_fundamental_div_mod_converse(base + 3, 6, idx as int, 3);
                lemma_fundamental_div_mod_converse(base + 4, 6, idx as int, 4);
                lemma_fundamental_div_mod_converse(base + 5, 6, idx as int, 5);
                assert(out@ =~= prev + seq![w0, w1, w2, w3, w4, w5]);
                assert(g_parts[idx as int] == p@);
                assert(w0@ == vertex_model_of(p@, 0));
                assert(w1@ == vertex_model_of(p@, 1));
                assert(w2@ == vertex_model_of(p@, 2));
                assert(w3@ == vertex_model_of(p@, 3));
                assert(w4@ == vertex_model_of(p@, 4));
                assert(w5@ == vertex_model_of(p@, 5));
                assert(verts_view(out@).len() == 6 * (idx as int + 1));
                assert forall|v: int| 0 <= v < 6 * (idx as int + 1)
                    implies #[trigger] verts_view(out@)[v]
                        == vertex_model_of(g_parts[v / 6], v % 6) by {
                    assert(verts_view(out@)[v] == out@[v]@);
                    if v < base {
                        assert(out@[v] == prev[v]);
                        assert(verts_view(prev)[v] == prev[v]@);
                    } else {
                        assert(out@[v] == seq![w0, w1, w2, w3, w4, w5][v - base]);
                    }
                }
            }
            idx += 1;
        }
        self.vertices = out;
        proof {
            assert(self.parts() =~= g_parts);
        }
    }

    /// The draw decision for the current frame: `None` exactly when the
    /// store is empty (the caller must skip the draw call entirely);
    /// otherwise the number of vertex records to draw, truncated to the
    /// buffer capacity of `MAX_PARTICLES` particles.
    pub fn render_plan(&self) -> (plan: Option<u32>)
        requires
            self.wf(),
        ensures
            plan is None <==> self.parts().len() == 0,
            plan is Some ==> plan->Some_0 as int == 6 * (if self.parts().len() > MAX_PARTICLES {
                MAX_PARTICLES as int
            } else {
                self.parts().len() as int
            }),
    {
        let n = self.particles.len();
        if n == 0 {
            None
        } else {
            let m: usize = if n > MAX_PARTICLES {
                MAX_PARTICLES
            } else {
                n
            };
            Some((6 * m) as u32)
        }
    }

    /// Number of live particles.
    pub fn particle_count(&self) -> (n: usize)
        ensures
            n == self.parts().len(),
    {
        self.particles.len()
    }

    /// The `i`-th live particle.
    pub fn particle_at(&self, i: usize) -> (p: Particle)
        requires
            i < self.parts().len(),
        ensures
            p@ == self.parts()[i as int],
    {
        self.particles[i]
    }

    /// Number of records in the cached vertex buffer.
    pub fn vertex_count(&self) -> (n: usize)
        ensures
            n == self.verts().len(),
    {
        self.vertices.len()
    }

    /// The `i`-th cached vertex record.
    pub fn vertex_at(&self, i: usize) -> (v: FireParticleVertex)
        requires
            i < self.verts().len(),
        ensures
            v@ == self.verts()[i as int],
    {
        self.vertices[i]
    }

    /// The emitter origin.
    pub fn origin(&self) -> (o: V3)
        ensures
            o@ == self.emitter_origin(),
    {
        self.origin
    }

    /// The cone half-angle.
    pub fn cone_angle(&self) -> (c: i64)
        ensures
            c as int == self.cone(),
    {
        self.cone_angle
    }

    /// The spawn interval.
    pub fn spawn_interval(&self) -> (v: i64)
        ensures
            v as int == self.interval(),
    {
        self.spawn_interval
    }

    /// The fractional spawn time carried to the next tick.
    pub fn accumulator(&self) -> (a: i64)
        ensures
            a as int == self.carry(),
    {
        self.accumulator
    }
}

/// Total of a sequence of tick durations.
pub open spec fn sum_steps(dts: Seq<int>) -> int
    decreases dts.len(),
{
    if dts.len() == 0 {
        0
    } else {
        dts[0] + sum_steps(dts.drop_first())
    }
}

/// Particles emitted over a sequence of ticks, starting from carry `acc`:
/// each tick emits `(acc + dt) / ivl` and carries `(acc + dt) % ivl`,
/// exactly as `FireSystem::update` ensures.
pub open spec fn total_spawned(acc: int, dts: Seq<int>, ivl: int) -> int
    decreases dts.len(),
{
    if dts.len() == 0 {
        0
    } else {
        (acc + dts[0]) / ivl + total_spawned((acc + dts[0]) % ivl, dts.drop_first(), ivl)
    }
}

/// The spawn-rate exactness law: over any sequence of ticks the spawner
/// emits exactly `(carry + total elapsed time) / interval` particles,
/// however the elapsed time is split across the ticks.
pub proof fn lemma_spawn_rate_exact(acc: int, dts: Seq<int>, ivl: int)
    requires
        0 < ivl,
        0 <= acc < ivl,
        forall|i: int| 0 <= i < dts.len() ==> #[trigger] dts[i] >= 0,
    ensures
        total_spawned(acc, dts, ivl) == (acc + sum_steps(dts)) / ivl,
    decreases dts.len(),
{
    if dts.len() == 0 {
        lemma_basic_div(acc, ivl);
    } else {
        let a = acc + dts[0];
        let rest = dts.drop_first();
        let s_rest = sum_steps(rest);
        lemma_mod_division_less_than_divisor(a, ivl);
        assert(forall|i: int| 0 <= i < rest.len() ==> #[trigger] rest[i] >= 0);
        lemma_spawn_rate_exact(a % ivl, rest, ivl);
        lemma_fundamental_div_mod(a, ivl);
        lemma_hoist_over_denominator(a % ivl + s_rest, a / ivl, ivl as nat);
        assert((a / ivl) * ivl == ivl * (a / ivl)) by (nonlinear_arith);
        assert(a % ivl + s_rest + (a / ivl) * ivl == a + s_rest);
        assert(total_spawned(acc, dts, ivl) == a / ivl + (a % ivl + s_rest) / ivl);
        assert(sum_steps(dts) == dts[0] + s_rest);
    }
}

} // verus!
