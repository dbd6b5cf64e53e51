//! GPU-facing vertex records.
//!
//! Each live particle is expanded into six vertices -- two triangles
//! covering a unit quad -- whose `corner` pair tells the vertex shader which
//! quad corner to displace toward the camera axes. The corner values are
//! plain `-1` / `1` units; position, size and life are copied from the
//! particle unchanged.

use vstd::prelude::*;
use crate::particle::{V3, V3Model, ParticleModel};

verus! {

/// Number of vertices one particle expands into.
pub const VERTS_PER_PARTICLE: usize = 6;

/// One vertex record of the fire effect's vertex buffer.
#[derive(Clone, Copy, PartialEq, Eq, Structural, Debug)]
pub struct FireParticleVertex {
    pub position: V3,
    pub size: i64,
    pub life: i64,
    pub corner_x: i64,
    pub corner_y: i64,
}

/// The mathematical model of a vertex record.
pub struct VertexModel {
    pub position: V3Model,
    pub size: int,
    pub life: int,
    pub corner_x: int,
    pub corner_y: int,
}

impl View for FireParticleVertex {
    type V = VertexModel;

    open spec fn view(&self) -> VertexModel {
        VertexModel {
            position: self.position@,
            size: self.size as int,
            life: self.life as int,
            corner_x: self.corner_x as int,
            corner_y: self.corner_y as int,
        }
    }
}

/// Horizontal corner of the `k`-th vertex of a quad, in the fixed order
/// bottom-left, bottom-right, top-right, bottom-left, top-right, top-left.
pub open spec fn corner_x_of(k: int) -> int {
    if k == 0 {
        -1
    } else if k == 1 {
        1
    } else if k == 2 {
        1
    } else if k == 3 {
        -1
    } else if k == 4 {
        1
    } else {
        -1
    }
}

/// Vertical corner of the `k`-th vertex of a quad.
pub open spec fn corner_y_of(k: int) -> int {
    if k == 0 {
        -1
    } else if k == 1 {
        -1
    } else if k == 2 {
        1
    } else if k == 3 {
        -1
    } else if k == 4 {
        1
    } else {
        1
    }
}

/// The `k`-th vertex record a particle expands into.
pub open spec fn vertex_model_of(m: ParticleModel, k: int) -> VertexModel {
    VertexModel {
        position: m.position,
        size: m.size,
        life: m.life,
        corner_x: corner_x_of(k),
        corner_y: corner_y_of(k),
    }
}

} // verus!
