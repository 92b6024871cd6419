//! Pixel formats and texture sizes of the GL readback path.

use vstd::prelude::*;

use crate::obs::graphics::GsColorFormat;

verus! {

/// Pixel format of a captured frame. The GL readback can produce either;
/// only RGBA has an equivalent on the host side.
#[derive(Debug, Clone, Copy, PartialEq, Eq, Structural)]
pub enum TextureFormat {
    Rgb,
    Rgba,
}

impl TextureFormat {
    pub open spec fn spec_bytes_per_pixel(self) -> u8 {
        match self {
            TextureFormat::Rgb => 3u8,
            TextureFormat::Rgba => 4u8,
        }
    }

    /// How many bytes one pixel of this format occupies.
    #[verifier::when_used_as_spec(spec_bytes_per_pixel)]
    pub fn bytes_per_pixel(self) -> (n: u8)
        ensures
            n == self.spec_bytes_per_pixel(),
    {
        match self {
            TextureFormat::Rgb => 3,
            TextureFormat::Rgba => 4,
        }
    }

    pub open spec fn spec_to_gs_format(self) -> Option<GsColorFormat> {
        match self {
            TextureFormat::Rgb => None,
            TextureFormat::Rgba => Some(GsColorFormat::Rgba),
        }
    }

    /// The host renderer's color format for this pixel format, if the
    /// host has one: RGB does not translate and must fail cleanly.
    #[verifier::when_used_as_spec(spec_to_gs_format)]
    pub fn to_gs_format(self) -> (r: Option<GsColorFormat>)
        ensures
            r == self.spec_to_gs_format(),
    {
        match self {
            TextureFormat::Rgb => None,
            TextureFormat::Rgba => Some(GsColorFormat::Rgba),
        }
    }

    pub open spec fn spec_gl_code(self) -> u32 {
        match self {
            TextureFormat::Rgb => 0x1907u32,
            TextureFormat::Rgba => 0x1908u32,
        }
    }

    /// The GL enumerant the readback call takes for this format.
    #[verifier::when_used_as_spec(spec_gl_code)]
    pub fn gl_code(self) -> (r: u32)
        ensures
            r == self.spec_gl_code(),
    {
        match self {
            TextureFormat::Rgb => 0x1907,
            TextureFormat::Rgba => 0x1908,
        }
    }
}

/// Width and height a GL texture-size query reports, in pixels. GL
/// reports them as signed integers; they are never negative.
#[derive(Debug, Clone, Copy, PartialEq, Eq, Structural)]
pub struct GlTextureSize {
    pub width: i32,
    pub height: i32,
}

impl GlTextureSize {
    /// The zero size handed to the query call to be filled in.
    pub fn empty() -> (r: GlTextureSize)
        ensures
            r.width == 0,
            r.height == 0,
    {
        GlTextureSize { width: 0, height: 0 }
    }
}

/// Turns a GL status code into a `Result`: zero is success, anything else
/// is the error code itself.
pub fn gl_error_to_result(status: u32) -> (r: Result<(), u32>)
    ensures
        status == 0 ==> r == Ok::<(), u32>(()),
        status != 0 ==> r == Err::<(), u32>(status),
{
    if status == 0 {
        Ok(())
    } else {
        Err(status)
    }
}

} // verus!
