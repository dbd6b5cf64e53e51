//! Behavioural tests of the fire particle system: integration and culling,
//! spawn-rate exactness under frame jitter, cone compression, vertex
//! expansion, the empty-store draw decision, and the capacity policy.

use fire_effect::fire::FireSystem;
use fire_effect::particle::V3;
use fire_effect::spawn::sample_particle;

const SCALE: i64 = 1_000_000;

fn origin() -> V3 {
    V3 { x: 2_000_000, y: 500_000, z: -3_000_000 }
}

/// A system whose spawner is effectively idle (one spawn per million time
/// units), so ticks only integrate what the test injected.
fn quiet_system() -> FireSystem {
    FireSystem::with_config(origin(), 300_000, 1)
}

#[test]
fn advance_ages_grows_and_moves_exactly() {
    let mut sys = quiet_system();
    sys.spawn_sampled(500_000, 250_000, 700_000);
    let before = sys.particle_at(0);
    let dt: i64 = 100_000; // a tenth of a unit
    sys.update(dt);
    assert_eq!(sys.particle_count(), 1);
    let after = sys.particle_at(0);
    // life += dt * 0.5 and size += dt * 0.3, exactly
    assert_eq!(after.life, before.life + dt / 2);
    assert_eq!(after.size, before.size + 3 * dt / 10);
    // position += velocity * dt, exactly (no clamping this far from the limit)
    let drift = |v: i64| -> i64 {
        if v >= 0 { v * dt / SCALE } else { -((-v) * dt / SCALE) }
    };
    assert_eq!(after.position.x, before.position.x + drift(before.velocity.x));
    assert_eq!(after.position.y, before.position.y + drift(before.velocity.y));
    assert_eq!(after.position.z, before.position.z + drift(before.velocity.z));
    // velocity is fixed at spawn time
    assert_eq!(after.velocity, before.velocity);
}

#[test]
fn survival_boundary_is_exact() {
    let mut sys = quiet_system();
    sys.spawn_sampled(0, 0, 0);
    // age the particle to life 0.99
    sys.update(1_980_000);
    assert_eq!(sys.particle_count(), 1);
    assert_eq!(sys.particle_at(0).life, 990_000);
    // 0.99 + 0.01 * 0.5 = 0.995: survives
    sys.update(10_000);
    assert_eq!(sys.particle_count(), 1);
    assert_eq!(sys.particle_at(0).life, 995_000);
    // 0.995 + 0.02 * 0.5 = 1.005: removed
    sys.update(20_000);
    assert_eq!(sys.particle_count(), 0);
}

#[test]
fn culling_keeps_younger_survivors() {
    let mut sys = quiet_system();
    sys.spawn_sampled(100_000, 0, 0);
    sys.update(1_900_000); // first particle now at life 0.95
    sys.spawn_sampled(900_000, 0, 999_999); // second particle at life 0
    assert_eq!(sys.particle_count(), 2);
    sys.update(200_000); // +0.1 life: first dies at 1.05, second reaches 0.1
    assert_eq!(sys.particle_count(), 1);
    assert_eq!(sys.particle_at(0).life, 100_000);
}

#[test]
fn single_fifty_hertz_tick_spawns_one() {
    // default emitter: spawn rate 50 per unit, cone 0.3 rad
    let mut sys = FireSystem::new(origin());
    assert_eq!(sys.spawn_interval(), 20_000);
    sys.update(20_000);
    assert_eq!(sys.particle_count(), 1);
    assert_eq!(sys.accumulator(), 0);
    let p = sys.particle_at(0);
    assert_eq!(p.life, 0);
    assert!(p.size >= 100_000 && p.size < 200_000);
    assert_eq!(p.position, origin());
    // forward component is 2 * cos(angle) for a sampled angle below 0.3 rad
    assert!(p.velocity.z > 1_900_000 && p.velocity.z <= 2_000_000);
    assert!(p.velocity.x.abs() <= 150_000);
    assert!(p.velocity.y >= 240_000 && p.velocity.y <= 400_000);
}

#[test]
fn spawn_count_is_independent_of_frame_split() {
    let mut jittery = FireSystem::new(origin());
    jittery.update(30_000);
    assert_eq!(jittery.particle_count(), 1);
    assert_eq!(jittery.accumulator(), 10_000);
    jittery.update(30_000);
    assert_eq!(jittery.particle_count(), 3);
    assert_eq!(jittery.accumulator(), 0);

    let mut steady = FireSystem::new(origin());
    steady.update(60_000);
    assert_eq!(steady.particle_count(), 3);
    assert_eq!(steady.accumulator(), 0);

    let mut choppy = FireSystem::new(origin());
    for _ in 0..6 {
        choppy.update(10_000);
    }
    assert_eq!(choppy.particle_count(), 3);
    assert_eq!(choppy.accumulator(), 0);
}

#[test]
fn cone_compression_holds_at_the_widest_angle() {
    // widest cone, largest angle draw, rotations on both sides
    for u_rot in [0, 250_000, 500_000, 750_000, 999_999] {
        let p = sample_particle(origin(), 1_000_000, 999_999, u_rot, 0);
        assert!(p.velocity.z > 0);
        assert!(p.velocity.z >= 2 * p.velocity.x.abs());
    }
}

#[test]
fn forward_component_is_twice_the_sampled_cosine() {
    // u_angle = 0 gives angle 0: cos is exactly 1, forward exactly 2
    let p = sample_particle(origin(), 300_000, 0, 123_456, 0);
    assert_eq!(p.velocity.z, 2_000_000);
    // angle 0 also zeroes the lateral component and the angle-dependent lift
    assert_eq!(p.velocity.x, 0);
    assert_eq!(p.velocity.y, 240_000); // 0.3 * 0.8
}

#[test]
fn size_draw_spans_its_interval() {
    let low = sample_particle(origin(), 300_000, 0, 0, 0);
    assert_eq!(low.size, 100_000);
    let high = sample_particle(origin(), 300_000, 0, 0, 999_999);
    assert_eq!(high.size, 199_999);
}

#[test]
fn vertices_expand_six_per_particle_in_corner_order() {
    let mut sys = quiet_system();
    sys.spawn_sampled(200_000, 100_000, 300_000);
    sys.spawn_sampled(800_000, 600_000, 900_000);
    sys.update(40_000); // give them distinct positions and lives
    sys.prepare_vertices();
    assert_eq!(sys.vertex_count(), 12);
    let corners = [(-1, -1), (1, -1), (1, 1), (-1, -1), (1, 1), (-1, 1)];
    for i in 0..2 {
        let p = sys.particle_at(i);
        for k in 0..6 {
            let v = sys.vertex_at(6 * i + k);
            assert_eq!(v.position, p.position);
            assert_eq!(v.size, p.size);
            assert_eq!(v.life, p.life);
            assert_eq!((v.corner_x, v.corner_y), corners[k]);
        }
    }
}

#[test]
fn empty_store_builds_nothing_and_skips_the_draw() {
    let mut sys = FireSystem::new(origin());
    sys.prepare_vertices();
    assert_eq!(sys.vertex_count(), 0);
    assert_eq!(sys.render_plan(), None);
    sys.spawn_sampled(0, 0, 0);
    assert_eq!(sys.render_plan(), Some(6));
}

#[test]
fn draw_count_truncates_at_the_buffer_capacity() {
    let mut sys = quiet_system();
    for i in 0..1030i64 {
        sys.spawn_sampled(i, (7 * i) % 1_000_000, (13 * i) % 1_000_000);
    }
    assert_eq!(sys.particle_count(), 1030);
    sys.prepare_vertices();
    assert_eq!(sys.vertex_count(), 6 * 1030);
    assert_eq!(sys.render_plan(), Some(6 * 1024));
}

#[test]
fn origin_moves_are_not_retroactive() {
    let mut sys = quiet_system();
    sys.spawn_sampled(0, 0, 0);
    let moved = V3 { x: 9_000_000, y: 0, z: 0 };
    sys.set_origin(moved);
    sys.spawn_sampled(0, 0, 0);
    assert_eq!(sys.particle_at(0).position, origin());
    assert_eq!(sys.particle_at(1).position, moved);
}

#[test]
fn randomized_spawns_stay_in_their_documented_ranges() {
    let mut sys = FireSystem::new(origin());
    for _ in 0..50 {
        sys.update(20_000);
    }
    assert_eq!(sys.particle_count(), 50);
    for i in 0..50 {
        let p = sys.particle_at(i);
        assert!(p.life < SCALE);
        assert!(p.size >= 100_000 && p.size < 200_000 + SCALE);
        assert!(p.velocity.x.abs() <= 500_000);
        assert!(p.velocity.y >= 240_000 && p.velocity.y <= 400_000);
        assert!(p.velocity.z >= SCALE && p.velocity.z <= 2_000_000);
    }
}
