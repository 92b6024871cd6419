//! The capture context for one eye and its pixel-copy engine.
//!
//! A context owns the mirror-texture handle, the dimensions and pixel
//! format fixed at acquisition, and the capture buffer the GL readback
//! fills. The buffer keeps last-good-frame semantics: a failed copy never
//! clears or corrupts it, it simply leaves the previous frame in place.

use vstd::prelude::*;

use crate::mirror::utils::{GlTextureSize, TextureFormat};
use crate::obs::graphics::Texture;
use crate::openvr::Eye;
use crate::openvr::compositor::MirrorTextureInfo;
use crate::openvr::error_ext::CompositorError;

verus! {

/// Why a host texture could not be built from the capture buffer.
#[derive(Debug, Clone, Copy, PartialEq, Eq, Structural)]
pub enum TextureCreationError {
    /// The pixel format has no equivalent on the host side.
    FormatTranslation(TextureFormat),
    /// The host declined to allocate the texture.
    TextureAllocation,
}

/// Why one copy iteration failed. Either way the iteration is lost and
/// the previous frame stays visible; the loop simply retries.
#[derive(Debug, Clone, Copy, PartialEq, Eq, Structural)]
pub enum CopyTextureError {
    /// The GL readback reported this nonzero error code.
    Gl(u32),
    /// The readback succeeded but the host texture could not be built.
    TextureCreation(TextureCreationError),
}

/// What the GL readback primitive produced for one iteration: the frame's
/// bytes, or a nonzero GL error code.
#[derive(Debug, Clone, PartialEq, Eq)]
pub enum GlCopyResult {
    Frame(Vec<u8>),
    GlError(u32),
}

/// Exact size of a capture buffer: width times height times bytes per
/// pixel.
pub open spec fn spec_required_buffer_size(dimensions: (i32, i32), format: TextureFormat) -> int {
    dimensions.0 * dimensions.1 * format.spec_bytes_per_pixel()
}

/// Computes the byte size a capture buffer must have for the given
/// dimensions and pixel format.
pub fn required_buffer_size(dimensions: (i32, i32), format: TextureFormat) -> (n: usize)
    requires
        0 <= dimensions.0,
        0 <= dimensions.1,
        spec_required_buffer_size(dimensions, format) <= usize::MAX,
    ensures
        n == spec_required_buffer_size(dimensions, format),
{
    let w = dimensions.0 as usize;
    let h = dimensions.1 as usize;
    let bpp = format.bytes_per_pixel() as usize;
    proof {
        assert((w as int) * (h as int) <= (w as int) * (h as int) * (bpp as int) && (w as int) * (
        h as int) * (bpp as int) == spec_required_buffer_size(dimensions, format))
            by (nonlinear_arith)
            requires
                w == dimensions.0,
                h == dimensions.1,
                bpp == format.spec_bytes_per_pixel(),
                0 <= w,
                0 <= h,
                3 <= bpp,
        ;
    }
    w * h * bpp
}

/// The live capture context for one eye: the compositor's texture handle,
/// the dimensions and format fixed when the handle was acquired, the
/// reused capture buffer, and the host texture it feeds.
pub struct OpenVRMirrorCapture {
    eye: Eye,
    texture_info: MirrorTextureInfo,
    dimensions: (i32, i32),
    format: TextureFormat,
    buffer: Vec<u8>,
    texture_flags: u32,
    texture: Option<Texture>,
    has_frame: bool,
}

impl OpenVRMirrorCapture {
    pub closed spec fn spec_eye(&self) -> Eye {
        self.eye
    }

    pub closed spec fn spec_texture_info(&self) -> MirrorTextureInfo {
        self.texture_info
    }

    pub closed spec fn spec_dimensions(&self) -> (i32, i32) {
        self.dimensions
    }

    pub closed spec fn spec_format(&self) -> TextureFormat {
        self.format
    }

    pub closed spec fn spec_buffer(&self) -> Seq<u8> {
        self.buffer@
    }

    pub closed spec fn spec_texture_flags(&self) -> u32 {
        self.texture_flags
    }

    pub closed spec fn spec_texture(&self) -> Option<Texture> {
        self.texture
    }

    pub closed spec fn spec_has_frame(&self) -> bool {
        self.has_frame
    }

    /// Well-formedness: the buffer is sized exactly for the dimensions
    /// and format, the share handle is live, and the cached host texture,
    /// if any, matches the context and holds a published frame.
    pub open spec fn wf(&self) -> bool {
        &&& 0 <= self.spec_dimensions().0
        &&& 0 <= self.spec_dimensions().1
        &&& self.spec_buffer().len() == spec_required_buffer_size(
            self.spec_dimensions(),
            self.spec_format(),
        )
        &&& spec_required_buffer_size(self.spec_dimensions(), self.spec_format()) <= usize::MAX
        &&& self.spec_dimensions().0 * self.spec_format().spec_bytes_per_pixel() <= u32::MAX
        &&& self.spec_texture_info().handle != 0
        &&& (self.spec_format() == TextureFormat::Rgb ==> self.spec_texture() is None)
        &&& (self.spec_texture() is Some ==> self.spec_has_frame())
        &&& match self.spec_texture() {
            Some(t) => {
                &&& t.spec_width() == self.spec_dimensions().0 as u32
                &&& t.spec_height() == self.spec_dimensions().1 as u32
                &&& Some(t.spec_format()) == self.spec_format().spec_to_gs_format()
                &&& t.spec_image().len() == self.spec_buffer().len()
            },
            None => true,
        }
    }

    /// Whether the configuration fixed at acquisition is the same in both
    /// contexts; the buffer, the host texture and the frame flag may
    /// differ.
    pub open spec fn same_config(&self, other: &Self) -> bool {
        &&& self.spec_eye() == other.spec_eye()
        &&& self.spec_texture_info() == other.spec_texture_info()
        &&& self.spec_dimensions() == other.spec_dimensions()
        &&& self.spec_format() == other.spec_format()
        &&& self.spec_texture_flags() == other.spec_texture_flags()
    }

    /// Builds the context for one eye from the compositor's answer to the
    /// mirror-texture acquisition: all-or-nothing, so a failed acquisition
    /// builds nothing and hands the compositor's error back. The buffer is
    /// allocated once, zeroed, at its exact size; its contents count as
    /// undefined until the first successful copy (`has_frame`).
    ///
    /// The caller acquires under the compositor's graphics context and
    /// rejects a success that carries a null share handle, which the
    /// runtime never produces.
    pub fn new(
        eye: Eye,
        acquisition: Result<(MirrorTextureInfo, GlTextureSize), CompositorError>,
        texture_flags: u32,
    ) -> (r: Result<OpenVRMirrorCapture, CompositorError>)
        requires
            acquisition matches Ok(pair) ==> {
                &&& pair.0.handle != 0
                &&& 0 <= pair.1.width
                &&& 0 <= pair.1.height
                &&& spec_required_buffer_size((pair.1.width, pair.1.height), TextureFormat::Rgba)
                    <= usize::MAX
                &&& pair.1.width * 4 <= u32::MAX
            },
        ensures
            acquisition matches Err(e) ==> r == Err::<OpenVRMirrorCapture, CompositorError>(e),
            acquisition matches Ok(pair) ==> (r matches Ok(c) && {
                &&& c.wf()
                &&& c.spec_eye() == eye
                &&& c.spec_texture_info() == pair.0
                &&& c.spec_dimensions() == (pair.1.width, pair.1.height)
                &&& c.spec_format() == TextureFormat::Rgba
                &&& c.spec_texture_flags() == texture_flags
                &&& c.spec_texture() is None
                &&& !c.spec_has_frame()
                &&& forall|i: int| 0 <= i < c.spec_buffer().len() ==> c.spec_buffer()[i] == 0u8
            }),
    {
        Self::new_with_format(eye, acquisition, TextureFormat::Rgba, texture_flags)
    }

    /// `new` with the pixel format chosen by the caller. The GL readback
    /// serves RGB as well as RGBA; a context captured as RGB still copies
    /// into its buffer, and only the host-texture path refuses it.
    pub fn new_with_format(
        eye: Eye,
        acquisition: Result<(MirrorTextureInfo, GlTextureSize), CompositorError>,
        format: TextureFormat,
        texture_flags: u32,
    ) -> (r: Result<OpenVRMirrorCapture, CompositorError>)
        requires
            acquisition matches Ok(pair) ==> {
                &&& pair.0.handle != 0
                &&& 0 <= pair.1.width
                &&& 0 <= pair.1.height
                &&& spec_required_buffer_size((pair.1.width, pair.1.height), format) <= usize::MAX
                &&& pair.1.width * format.spec_bytes_per_pixel() <= u32::MAX
            },
        ensures
            acquisition matches Err(e) ==> r == Err::<OpenVRMirrorCapture, CompositorError>(e),
            acquisition matches Ok(pair) ==> (r matches Ok(c) && {
                &&& c.wf()
                &&& c.spec_eye() == eye
                &&& c.spec_texture_info() == pair.0
                &&& c.spec_dimensions() == (pair.1.width, pair.1.height)
                &&& c.spec_format() == format
                &&& c.spec_texture_flags() == texture_flags
                &&& c.spec_texture() is None
                &&& !c.spec_has_frame()
                &&& forall|i: int| 0 <= i < c.spec_buffer().len() ==> c.spec_buffer()[i] == 0u8
            }),
    {
        match acquisition {
            Err(e) => Err(e),
            Ok((texture_info, size)) => {
                let dimensions = (size.width, size.height);
                let n = required_buffer_size(dimensions, format);
                let mut buffer: Vec<u8> = Vec::new();
                while buffer.len() < n
                    invariant
                        buffer@.len() <= n,
                        forall|i: int| 0 <= i < buffer@.len() ==> buffer@[i] == 0u8,
                    decreases n - buffer@.len(),
                {
                    buffer.push(0u8);
                }
                Ok(
                    OpenVRMirrorCapture {
                        eye,
                        texture_info,
                        dimensions,
                        format,
                        buffer,
                        texture_flags,
                        texture: None,
                        has_frame: false,
                    },
                )
            },
        }
    }

    /// The exact byte size this context's buffer has.
    pub fn required_buffer_size(&self) -> (n: usize)
        requires
            self.wf(),
        ensures
            n == spec_required_buffer_size(self.spec_dimensions(), self.spec_format()),
    {
        required_buffer_size(self.dimensions, self.format)
    }

    pub fn format(&self) -> (r: TextureFormat)
        ensures
            r == self.spec_format(),
    {
        self.format
    }

    pub fn eye(&self) -> (r: Eye)
        ensures
            r == self.spec_eye(),
    {
        self.eye
    }

    pub fn dimensions(&self) -> (r: (i32, i32))
        ensures
            r == self.spec_dimensions(),
    {
        self.dimensions
    }

    pub fn width(&self) -> (r: i32)
        ensures
            r == self.spec_dimensions().0,
    {
        self.dimensions.0
    }

    pub fn height(&self) -> (r: i32)
        ensures
            r == self.spec_dimensions().1,
    {
        self.dimensions.1
    }

    /// Byte length of one row of the image.
    pub fn linesize(&self) -> (r: u32)
        requires
            self.wf(),
        ensures
            r == self.spec_dimensions().0 * self.spec_format().spec_bytes_per_pixel(),
    {
        self.dimensions.0 as u32 * self.format.bytes_per_pixel() as u32
    }

    /// The share handle of the mirror texture; nonzero while the context
    /// is live.
    pub fn texture_info_handle(&self) -> (r: usize)
        ensures
            r == self.spec_texture_info().handle,
    {
        self.texture_info.handle
    }

    /// The capture buffer as last published. Before the first successful
    /// copy (`has_frame` false) its contents are undefined.
    pub fn buffer(&self) -> (r: &Vec<u8>)
        ensures
            r@ == self.spec_buffer(),
    {
        &self.buffer
    }

    /// Whether a copy has ever succeeded, so the buffer holds a frame.
    pub fn has_frame(&self) -> (r: bool)
        ensures
            r == self.spec_has_frame(),
    {
        self.has_frame
    }

    /// The cached host texture, once a frame has been published into one.
    pub fn texture(&self) -> (r: Option<&Texture>)
        ensures
            match r {
                Some(t) => self.spec_texture() == Some(*t),
                None => self.spec_texture() is None,
            },
    {
        self.texture.as_ref()
    }

    /// Commits one readback's outcome to the capture buffer. On success
    /// the buffer holds the new frame; on a GL error the buffer is left
    /// exactly as it was, so readers keep seeing the last good frame.
    ///
    /// The caller holds the shared-texture lock across the readback and
    /// this commit, and hands a frame of exactly the required size.
    pub fn commit_frame(&mut self, copy: GlCopyResult) -> (r: Result<(), u32>)
        requires
            old(self).wf(),
            copy matches GlCopyResult::Frame(f) ==> f@.len() == spec_required_buffer_size(
                old(self).spec_dimensions(),
                old(self).spec_format(),
            ),
            copy matches GlCopyResult::GlError(c) ==> c != 0,
        ensures
            final(self).wf(),
            final(self).same_config(old(self)),
            final(self).spec_texture() == old(self).spec_texture(),
            copy matches GlCopyResult::GlError(c) ==> {
                &&& r == Err::<(), u32>(c)
                &&& final(self).spec_buffer() == old(self).spec_buffer()
                &&& final(self).spec_has_frame() == old(self).spec_has_frame()
            },
            copy matches GlCopyResult::Frame(f) ==> {
                &&& r == Ok::<(), u32>(())
                &&& final(self).spec_buffer() == f@
                &&& final(self).spec_has_frame()
            },
    {
        match copy {
            GlCopyResult::GlError(code) => Err(code),
            GlCopyResult::Frame(frame) => {
                self.buffer = frame;
                self.has_frame = true;
                Ok(())
            },
        }
    }

    /// Pushes the committed frame into the host texture: updates the
    /// cached texture in place when one exists (the steady-state path,
    /// no allocation), otherwise creates one, which the host may decline
    /// (`alloc_ok`) and which an untranslatable format always fails.
    pub fn publish_texture(&mut self, alloc_ok: bool) -> (r: Result<(), TextureCreationError>)
        requires
            old(self).wf(),
            old(self).spec_has_frame(),
        ensures
            final(self).wf(),
            final(self).same_config(old(self)),
            final(self).spec_buffer() == old(self).spec_buffer(),
            final(self).spec_has_frame(),
            old(self).spec_format() == TextureFormat::Rgb ==> {
                &&& r == Err::<(), TextureCreationError>(
                    TextureCreationError::FormatTranslation(TextureFormat::Rgb),
                )
                &&& final(self).spec_texture() == old(self).spec_texture()
            },
            old(self).spec_format() == TextureFormat::Rgba && (old(self).spec_texture() is Some
                || alloc_ok) ==> {
                &&& r == Ok::<(), TextureCreationError>(())
                &&& (final(self).spec_texture() matches Some(t) && t.spec_image() == final(
                    self).spec_buffer())
            },
            old(self).spec_format() == TextureFormat::Rgba && old(self).spec_texture() is None
                && !alloc_ok ==> {
                &&& r == Err::<(), TextureCreationError>(TextureCreationError::TextureAllocation)
                &&& final(self).spec_texture() is None
            },
    {
        let linesize = self.linesize();
        match &mut self.texture {
            Some(t) => {
                t.set_image_unchecked(&self.buffer, linesize, false);
                Ok(())
            },
            None => {
                match self.format.to_gs_format() {
                    None => Err(TextureCreationError::FormatTranslation(self.format)),
                    Some(gs_format) => {
                        match Texture::new(
                            self.dimensions.0 as u32,
                            self.dimensions.1 as u32,
                            gs_format,
                            &self.buffer,
                            self.texture_flags,
                            alloc_ok,
                        ) {
                            Some(t) => {
                                self.texture = Some(t);
                                Ok(())
                            },
                            None => Err(TextureCreationError::TextureAllocation),
                        }
                    },
                }
            },
        }
    }

    /// One full copy: commits the readback's outcome to the buffer, then
    /// publishes a successful frame into the host texture. A GL error
    /// leaves buffer and texture untouched; a texture failure still keeps
    /// the freshly copied frame in the buffer.
    pub fn copy_texture(&mut self, copy: GlCopyResult, alloc_ok: bool) -> (r: Result<
        (),
        CopyTextureError,
    >)
        requires
            old(self).wf(),
            copy matches GlCopyResult::Frame(f) ==> f@.len() == spec_required_buffer_size(
                old(self).spec_dimensions(),
                old(self).spec_format(),
            ),
            copy matches GlCopyResult::GlError(c) ==> c != 0,
        ensures
            final(self).wf(),
            final(self).same_config(old(self)),
            copy matches GlCopyResult::GlError(c) ==> {
                &&& r == Err::<(), CopyTextureError>(CopyTextureError::Gl(c))
                &&& final(self).spec_buffer() == old(self).spec_buffer()
                &&& final(self).spec_has_frame() == old(self).spec_has_frame()
                &&& final(self).spec_texture() == old(self).spec_texture()
            },
            copy matches GlCopyResult::Frame(f) ==> {
                &&& final(self).spec_buffer() == f@
                &&& final(self).spec_has_frame()
                &&& (old(self).spec_format() == TextureFormat::Rgb ==> r == Err::<
                    (),
                    CopyTextureError,
                >(
                    CopyTextureError::TextureCreation(
                        TextureCreationError::FormatTranslation(TextureFormat::Rgb),
                    ),
                ))
                &&& (old(self).spec_format() == TextureFormat::Rgba && (old(self).spec_texture()
                    is Some || alloc_ok) ==> (r == Ok::<(), CopyTextureError>(()) && (final(
                    self).spec_texture() matches Some(t) && t.spec_image() == f@)))
                &&& (old(self).spec_format() == TextureFormat::Rgba && old(self).spec_texture()
                    is None && !alloc_ok ==> (r == Err::<(), CopyTextureError>(
                    CopyTextureError::TextureCreation(TextureCreationError::TextureAllocation),
                ) && final(self).spec_texture() is None))
            },
    {
        match self.commit_frame(copy) {
            Err(code) => Err(CopyTextureError::Gl(code)),
            Ok(()) => match self.publish_texture(alloc_ok) {
                Ok(()) => Ok(()),
                Err(e) => Err(CopyTextureError::TextureCreation(e)),
            },
        }
    }
}

/// The buffer contents after a run of copy iterations starting from
/// `init`: each successful iteration publishes its frame, each failed one
/// changes nothing.
pub open spec fn spec_buffer_after(init: Seq<u8>, outcomes: Seq<GlCopyResult>) -> Seq<u8>
    decreases outcomes.len(),
{
    if outcomes.len() == 0 {
        init
    } else {
        match outcomes.last() {
            GlCopyResult::Frame(f) => f@,
            GlCopyResult::GlError(_) => spec_buffer_after(init, outcomes.drop_last()),
        }
    }
}

/// A failed iteration leaves the buffer exactly as the iteration before
/// left it.
pub proof fn lemma_failed_iteration_preserves_buffer(
    init: Seq<u8>,
    outcomes: Seq<GlCopyResult>,
    n: int,
)
    requires
        0 <= n < outcomes.len(),
        outcomes[n] is GlError,
    ensures
        spec_buffer_after(init, outcomes.take(n + 1)) == spec_buffer_after(init, outcomes.take(n)),
{
    assert(outcomes.take(n + 1).drop_last() =~= outcomes.take(n));
    assert(outcomes.take(n + 1).last() == outcomes[n]);
}

/// While no iteration has succeeded, the buffer still holds its initial
/// contents.
pub proof fn lemma_no_good_frame(init: Seq<u8>, outcomes: Seq<GlCopyResult>, n: int)
    requires
        0 <= n <= outcomes.len(),
        forall|k: int| 0 <= k < n ==> outcomes[k] is GlError,
    ensures
        spec_buffer_after(init, outcomes.take(n)) == init,
    decreases n,
{
    if n == 0 {
        assert(outcomes.take(0) =~= Seq::<GlCopyResult>::empty());
    } else {
        lemma_failed_iteration_preserves_buffer(init, outcomes, n - 1);
        lemma_no_good_frame(init, outcomes, n - 1);
    }
}

/// Last-good-frame: whatever failures follow it, the buffer observed
/// after iteration `n` is the frame of the last successful iteration
/// `m <= n`.
pub proof fn lemma_last_good_frame(init: Seq<u8>, outcomes: Seq<GlCopyResult>, m: int, n: int)
    requires
        0 <= m <= n < outcomes.len(),
        outcomes[m] matches GlCopyResult::Frame(f),
        forall|k: int| m < k <= n ==> outcomes[k] is GlError,
    ensures
        outcomes[m] matches GlCopyResult::Frame(f) && spec_buffer_after(init, outcomes.take(n + 1))
            == f@,
    decreases n - m,
{
    if n == m {
        assert(outcomes.take(n + 1).last() == outcomes[n]);
    } else {
        lemma_failed_iteration_preserves_buffer(init, outcomes, n);
        lemma_last_good_frame(init, outcomes, m, n - 1);
    }
}

} // verus!
