//! Texture descriptions. A `Texture` records the handle the host
//! allocated on the GPU together with its pixel dimensions — everything
//! the renderer's arithmetic reads of an image. Creating it validates the
//! pixel data's size; the host performs the actual image upload.

use vstd::prelude::*;

verus! {

use crate::commands::RenderCommand;

/// Pixel layout of raw image bytes.
#[derive(Clone, Copy, Debug, PartialEq, Eq, Structural)]
pub enum PixelFormat {
    /// Four bytes per pixel: red, green, blue, alpha.
    Rgba,
    /// Three bytes per pixel: red, green, blue.
    Rgb,
}

impl PixelFormat {
    /// Bytes each pixel of this format occupies.
    pub fn bytes_per_pixel(&self) -> (n: u32)
        ensures
            self is Rgba ==> n == 4,
            self is Rgb ==> n == 3,
    {
        match self {
            PixelFormat::Rgba => 4,
            PixelFormat::Rgb => 3,
        }
    }
}

/// Why a texture could not be created.
#[derive(Clone, Copy, Debug, PartialEq, Eq, Structural)]
pub enum TextureCreationError {
    /// The pixel byte buffer's length is not
    /// `width * height * bytes_per_pixel` for the stated format.
    DataSizeMismatch,
}

/// A GPU image: the host's texture handle plus its pixel dimensions.
#[derive(Clone, Copy, Debug, PartialEq, Eq, Structural)]
pub struct Texture {
    pub id: u32,
    pub width: u32,
    pub height: u32,
}

impl Texture {
    /// Wrap a texture handle the host created, recording its dimensions.
    pub fn new(id: u32, width: u32, height: u32) -> (t: Texture)
        ensures
            t == (Texture { id, width, height }),
    {
        Texture { id, width, height }
    }

    /// Width in pixels.
    pub fn width(&self) -> (w: u32)
        ensures
            w == self.width,
    {
        self.width
    }

    /// Height in pixels.
    pub fn height(&self) -> (h: u32)
        ensures
            h == self.height,
    {
        self.height
    }

    /// The host's texture handle.
    pub fn id(&self) -> (id: u32)
        ensures
            id == self.id,
    {
        self.id
    }

    /// Validate raw pixel bytes against the stated dimensions and format
    /// and describe the resulting texture. Succeeds exactly when the byte
    /// buffer's length is `width * height * bytes_per_pixel`; the host
    /// uploads `data` to the GPU under the handle `id` only on success.
    pub fn from_data(id: u32, data: &Vec<u8>, width: u32, height: u32, format: PixelFormat) -> (r:
        Result<Texture, TextureCreationError>)
        ensures
            r is Ok <==> data@.len() == width * height * (if format is Rgba {
                4int
            } else {
                3int
            }),
            r matches Ok(t) ==> t == (Texture { id, width, height }),
            r is Err ==> r == Err::<Texture, TextureCreationError>(
                TextureCreationError::DataSizeMismatch,
            ),
    {
        let bpp: u32 = format.bytes_per_pixel();
        proof {
            assert((width as u128) * (height as u128) <= 0xffff_ffff_ffff_ffffu128)
                by (nonlinear_arith)
                requires
                    width <= u32::MAX,
                    height <= u32::MAX,
            ;
            assert((width as u128) * (height as u128) * (bpp as u128)
                <= 0x3_ffff_ffff_ffff_fffcu128) by (nonlinear_arith)
                requires
                    width <= u32::MAX,
                    height <= u32::MAX,
                    bpp <= 4u32,
            ;
        }
        let expected: u128 = (width as u128) * (height as u128) * (bpp as u128);
        if (data.len() as u128) == expected {
            Ok(Texture { id, width, height })
        } else {
            Err(TextureCreationError::DataSizeMismatch)
        }
    }

    /// The pixel bytes of the default fill texture: one opaque white RGBA
    /// pixel. Colored, untextured quads sample it so they share the draw
    /// path of textured ones.
    pub fn white_texture_data() -> (data: Vec<u8>)
        ensures
            data@ == seq![255u8, 255u8, 255u8, 255u8],
    {
        let mut data: Vec<u8> = Vec::new();
        data.push(255);
        data.push(255);
        data.push(255);
        data.push(255);
        proof {
            assert(data@ =~= seq![255u8, 255u8, 255u8, 255u8]);
        }
        data
    }

    /// Describe the 1-by-1 solid-white default texture under the handle
    /// `id`; the host uploads `white_texture_data()` to it.
    pub fn with_white_new(id: u32) -> (t: Texture)
        ensures
            t == (Texture { id, width: 1, height: 1 }),
    {
        Texture { id, width: 1, height: 1 }
    }

    /// Bind this texture for sampling.
    pub fn bind(&self) -> (c: RenderCommand)
        ensures
            c == (RenderCommand::BindTexture { texture_id: self.id }),
    {
        RenderCommand::BindTexture { texture_id: self.id }
    }

    /// Clear the 2D texture binding.
    pub fn unbind(&self) -> (c: RenderCommand)
        ensures
            c == (RenderCommand::BindTexture { texture_id: 0 }),
    {
        RenderCommand::BindTexture { texture_id: 0 }
    }
}

} // verus!
