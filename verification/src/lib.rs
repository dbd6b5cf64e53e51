//! A billboard fire-particle effect: a CPU-side particle simulation with a
//! deterministic spawn-rate accumulator, cone-distributed initial velocities,
//! and a per-frame expansion of live particles into camera-facing quads.
//!
//! All scalar state (time, positions, velocities, life, size, angles) is held
//! in signed 64-bit fixed-point micro-units: the value `SCALE` (1 000 000)
//! stands for 1.0. This makes every numeric policy of the simulation exact
//! and checkable. The GPU half of the effect (buffers, pipeline, draw calls)
//! lives outside this library and consumes the vertex records built here.

pub mod fire;
pub mod fixed;
pub mod particle;
mod rng;
pub mod spawn;
pub mod trig;
pub mod vertex;

pub use fixed::SCALE;
