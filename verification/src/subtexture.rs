//! Subtextures: a texture paired with a normalized rectangle selecting a
//! region of it, either given explicitly or derived from a tile grid. The
//! tile-grid arithmetic is exact: the rectangle's rationals have the
//! texture's pixel dimensions as denominators.

use vstd::prelude::*;

verus! {

use crate::data::NormRect;
use crate::texture::Texture;

/// A rectangular region of a texture, in normalized texture coordinates.
#[derive(Clone, Copy, Debug, PartialEq, Eq, Structural)]
pub struct Subtexture {
    pub texture: Texture,
    pub normalized_rect: NormRect,
}

impl Subtexture {
    /// The region, as a normalized rectangle.
    pub fn get_normalized_rect(&self) -> (r: NormRect)
        ensures
            r == self.normalized_rect,
    {
        self.normalized_rect
    }

    /// The texture the region selects from.
    pub fn texture(&self) -> (t: Texture)
        ensures
            t == self.texture,
    {
        self.texture
    }

    /// Pair a texture with an explicitly given normalized rectangle.
    pub fn from_texture(texture: &Texture, normalized_rect: NormRect) -> (s: Subtexture)
        requires
            normalized_rect.wf(),
        ensures
            s.texture == texture,
            s.normalized_rect == normalized_rect,
    {
        Subtexture { texture: *texture, normalized_rect }
    }

    /// Select tile `(tile_index_x, tile_index_y)` of a grid of
    /// `tile_width`-by-`tile_height`-pixel tiles laid over the texture.
    ///
    /// The resulting rectangle is exact: its offset is
    /// `(tile_index_x * tile_width / width, tile_index_y * tile_height / height)`
    /// and its extent is `(tile_width / width, tile_height / height)`,
    /// with the texture's pixel dimensions as the denominators.
    pub fn from_tiles(
        texture: &Texture,
        tile_index_x: u16,
        tile_index_y: u16,
        tile_width: u32,
        tile_height: u32,
    ) -> (s: Subtexture)
        requires
            texture.width > 0,
            texture.height > 0,
            // the chosen tile lies within the texture
            (tile_index_x + 1) * tile_width <= texture.width,
            (tile_index_y + 1) * tile_height <= texture.height,
        ensures
            s.texture == texture,
            s.normalized_rect.wf(),
            s.normalized_rect.x_num == tile_index_x * tile_width,
            s.normalized_rect.y_num == tile_index_y * tile_height,
            s.normalized_rect.w_num == tile_width,
            s.normalized_rect.h_num == tile_height,
            s.normalized_rect.den_x == texture.width,
            s.normalized_rect.den_y == texture.height,
    {
        proof {
            assert((tile_index_x + 1) * tile_width == tile_index_x * tile_width + tile_width)
                by (nonlinear_arith);
            assert((tile_index_y + 1) * tile_height == tile_index_y * tile_height + tile_height)
                by (nonlinear_arith);
        }
        let rect = NormRect {
            x_num: (tile_index_x as u32) * tile_width,
            y_num: (tile_index_y as u32) * tile_height,
            w_num: tile_width,
            h_num: tile_height,
            den_x: texture.width,
            den_y: texture.height,
        };
        Subtexture { texture: *texture, normalized_rect: rect }
    }
}

} // verus!
