//! Verified core of a batched 2D quad renderer.
//!
//! The library models the CPU side of a sprite batcher: a bounded vertex
//! accumulator filled by `draw_quad` calls between `begin_scene` and
//! `end_scene`, a precomputed quad index pattern, typed GPU buffer and
//! texture descriptions, and atlas subtexture arithmetic. GPU work itself
//! (an OpenGL context, shader compilation, the actual uploads and draw
//! calls) is left to the host program: the renderer hands it a sequence of
//! plain render commands whose exact content is part of the contracts here.
//!
//! Coordinates are integer pixel positions and texture coordinates are
//! exact rationals over the texture's pixel dimensions, so every quantity
//! the renderer computes is stated and proved exactly; the host converts
//! them to the GPU's floating-point attribute formats when it serializes
//! vertices.

use vstd::prelude::*;

pub mod animation;
pub mod batch_renderer;
pub mod buffer;
pub mod commands;
pub mod data;
pub mod resources;
pub mod shader;
pub mod subtexture;
pub mod texture;

verus! {

/// Largest number of quads one scene may accumulate.
pub const MAX_QUADS: usize = 1024;

/// A quad is four corner vertices ...
pub const VERTICES_PER_QUAD: usize = 4;

/// ... drawn as two triangles, six indices.
pub const INDICES_PER_QUAD: usize = 6;

/// On the GPU every vertex component is one 32-bit float.
pub const COMPONENT_SIZE_BYTES: usize = 4;

/// Components of one packed vertex: position 3, color 4, texture
/// coordinates 2, texture slot 1.
pub const VERTEX_COMPONENT_COUNT: usize = 10;

/// Packed byte size of one vertex as uploaded to the GPU.
pub const VERTEX_SIZE_BYTES: usize = VERTEX_COMPONENT_COUNT * COMPONENT_SIZE_BYTES;

/// Each index uploaded to the index buffer is one unsigned 32-bit value.
pub const INDEX_SIZE_BYTES: usize = 4;

/// Byte capacity the vertex buffer is allocated with: room for the
/// vertices of `MAX_QUADS` quads.
pub const VERTEX_BUFFER_CAPACITY_BYTES: usize = MAX_QUADS * VERTICES_PER_QUAD * VERTEX_SIZE_BYTES;

/// Byte capacity of the static index buffer: six indices per quad.
pub const INDEX_BUFFER_CAPACITY_BYTES: usize = MAX_QUADS * INDICES_PER_QUAD * INDEX_SIZE_BYTES;

} // verus!
