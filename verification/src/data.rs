//! Plain vertex data: colors, normalized texture rectangles, packed quad
//! vertices, and the attribute layout under which the host uploads them.

use vstd::prelude::*;

verus! {

use crate::COMPONENT_SIZE_BYTES;
use crate::VERTEX_COMPONENT_COUNT;
use crate::VERTEX_SIZE_BYTES;

/// An RGBA color with straight (non-premultiplied) alpha, one byte per
/// channel. The host divides by 255 when it builds the GPU's float
/// attributes.
#[derive(Clone, Copy, Debug, PartialEq, Eq, Structural)]
pub struct Color {
    pub r: u8,
    pub g: u8,
    pub b: u8,
    pub a: u8,
}

/// A rectangle in normalized texture-coordinate space, held exactly: each
/// axis is a pair of rational numbers with a shared denominator, so an
/// atlas tile's corners are represented without rounding. The denominators
/// are the texture's pixel dimensions when the rectangle comes from a tile
/// grid.
///
/// `x_num / den_x` and `y_num / den_y` are the offset of the rectangle's
/// origin corner; `w_num / den_x` and `h_num / den_y` are its extent.
#[derive(Clone, Copy, Debug, PartialEq, Eq, Structural)]
pub struct NormRect {
    pub x_num: u32,
    pub y_num: u32,
    pub w_num: u32,
    pub h_num: u32,
    pub den_x: u32,
    pub den_y: u32,
}

impl NormRect {
    /// The rectangle lies within the unit square and its denominators are
    /// positive, so every corner coordinate is a rational in `[0, 1]`.
    pub open spec fn wf(self) -> bool {
        &&& self.den_x > 0
        &&& self.den_y > 0
        &&& self.x_num + self.w_num <= self.den_x
        &&& self.y_num + self.h_num <= self.den_y
    }

    /// The whole unit square: offset zero, extent one.
    pub fn full() -> (r: NormRect)
        ensures
            r.wf(),
            r.x_num == 0 && r.y_num == 0,
            r.w_num == 1 && r.h_num == 1,
            r.den_x == 1 && r.den_y == 1,
    {
        NormRect { x_num: 0, y_num: 0, w_num: 1, h_num: 1, den_x: 1, den_y: 1 }
    }
}

/// One corner vertex of a quad, the unit the accumulator collects and the
/// host packs byte-for-byte into the vertex buffer. Positions are integer
/// pixel coordinates (`pos_z` is an advisory layer, not used for depth
/// testing); texture coordinates are exact rationals; `texture_id` is the
/// texture slot, always 0 while batches are single-texture.
#[derive(Clone, Copy, Debug, PartialEq, Eq, Structural)]
pub struct Vertex {
    pub pos_x: i32,
    pub pos_y: i32,
    pub pos_z: i32,
    pub color: Color,
    pub u_num: u32,
    pub u_den: u32,
    pub v_num: u32,
    pub v_den: u32,
    pub texture_id: u32,
}

/// One entry of the vertex layout: where a vertex field lives inside the
/// packed GPU record.
#[derive(Clone, Copy, Debug, PartialEq, Eq, Structural)]
pub struct VertexAttribute {
    /// Attribute slot the shader binds this field to.
    pub location: u32,
    /// Number of float components of the field.
    pub components: u32,
    /// Byte offset of the field from the start of a vertex record.
    pub offset: u32,
}

/// The layout of one packed `Vertex` on the GPU: position, color, texture
/// coordinates and texture slot, in that order, tightly packed.
pub open spec fn vertex_layout() -> Seq<VertexAttribute> {
    seq![
        VertexAttribute { location: 0, components: 3, offset: 0 },
        VertexAttribute { location: 1, components: 4, offset: 12 },
        VertexAttribute { location: 2, components: 2, offset: 28 },
        VertexAttribute { location: 3, components: 1, offset: 36 },
    ]
}

/// The attribute descriptions the host registers with the GPU, one per
/// vertex field. Consecutive attributes are contiguous (no padding) and
/// together they cover exactly one packed vertex, so the stride of the
/// layout is `VERTEX_SIZE_BYTES`.
pub fn vertex_attributes() -> (attrs: Vec<VertexAttribute>)
    ensures
        attrs@ == vertex_layout(),
        // each attribute starts where the previous one ends: tightly packed
        forall|i: int| #![trigger attrs@[i]] 0 <= i < attrs@.len() - 1
            ==> attrs@[i + 1].offset == attrs@[i].offset + attrs@[i].components * COMPONENT_SIZE_BYTES,
        // the last attribute ends at the stride
        attrs@[attrs@.len() - 1].offset + attrs@[attrs@.len() - 1].components * COMPONENT_SIZE_BYTES
            == VERTEX_SIZE_BYTES,
        // the components add up to the full packed record
        attrs@[0].components + attrs@[1].components + attrs@[2].components + attrs@[3].components
            == VERTEX_COMPONENT_COUNT,
{
    let mut attrs: Vec<VertexAttribute> = Vec::new();
    attrs.push(VertexAttribute { location: 0, components: 3, offset: 0 });
    attrs.push(VertexAttribute { location: 1, components: 4, offset: 12 });
    attrs.push(VertexAttribute { location: 2, components: 2, offset: 28 });
    attrs.push(VertexAttribute { location: 3, components: 1, offset: 36 });
    proof {
        assert(attrs@ =~= vertex_layout());
    }
    attrs
}

} // verus!
