//! The mirror-capture source: its settings, and the facade that owns one
//! capture context at a time and recreates it wholesale whenever the eye
//! selection changes.

use vstd::prelude::*;

pub mod capture;
pub mod utils;

use crate::mirror::capture::{
    CopyTextureError, GlCopyResult, OpenVRMirrorCapture, TextureCreationError,
    spec_required_buffer_size,
};
use crate::mirror::utils::{GlTextureSize, TextureFormat};
use crate::obs::graphics::GraphicsContext;
use crate::openvr::Eye;
use crate::openvr::compositor::{MirrorTextureInfo, MirrorTextureLock};
use crate::openvr::error_ext::CompositorError;

verus! {

/// The settings this source reads from the host: the eye selection,
/// parsed from a string-valued key that is `"left"` or `"right"`; any
/// other value, or no value, falls back to the left eye.
#[derive(Debug, Clone, Copy, PartialEq, Eq, Structural)]
pub struct OpenVRMirrorSourceSettings {
    eye: Eye,
}

/// The eye a settings string selects.
pub open spec fn spec_eye_of_setting(value: Option<Seq<char>>) -> Eye {
    match value {
        Some(s) => if s == seq!['r', 'i', 'g', 'h', 't'] {
            Eye::Right
        } else {
            Eye::Left
        },
        None => Eye::Left,
    }
}

/// Parses the eye selection out of the settings value, defaulting to the
/// left eye for anything but the two known strings.
pub fn get_eye(value: Option<&str>) -> (e: Eye)
    ensures
        e == spec_eye_of_setting(match value {
            Some(s) => Some(s@),
            None => None,
        }),
{
    match value {
        None => Eye::Left,
        Some(s) => {
            if is_right_setting(s) {
                Eye::Right
            } else {
                Eye::Left
            }
        },
    }
}

/// Whether the settings string is exactly `"right"`.
fn is_right_setting(s: &str) -> (r: bool)
    ensures
        r == (s@ == seq!['r', 'i', 'g', 'h', 't']),
{
    if s.unicode_len() != 5 {
        proof {
            assert(seq!['r', 'i', 'g', 'h', 't'].len() == 5);
        }
        false
    } else {
        let r = s.get_char(0) == 'r' && s.get_char(1) == 'i' && s.get_char(2) == 'g' && s.get_char(
            3,
        ) == 'h' && s.get_char(4) == 't';
        proof {
            if r {
                assert(s@ =~= seq!['r', 'i', 'g', 'h', 't']);
            } else {
                assert(s@ != seq!['r', 'i', 'g', 'h', 't']);
            }
        }
        r
    }
}

impl OpenVRMirrorSourceSettings {
    pub closed spec fn spec_eye(&self) -> Eye {
        self.eye
    }

    /// Settings as first read from the host's data object; `value` is the
    /// eye key's string, if the host has one.
    pub fn from_value(value: Option<&str>) -> (r: OpenVRMirrorSourceSettings)
        ensures
            r.spec_eye() == spec_eye_of_setting(match value {
                Some(s) => Some(s@),
                None => None,
            }),
    {
        OpenVRMirrorSourceSettings { eye: get_eye(value) }
    }

    /// Re-reads the eye selection from a fresh settings value.
    pub fn update(&mut self, value: Option<&str>)
        ensures
            final(self).spec_eye() == spec_eye_of_setting(match value {
                Some(s) => Some(s@),
                None => None,
            }),
    {
        self.eye = get_eye(value);
    }

    pub fn eye(&self) -> (e: Eye)
        ensures
            e == self.spec_eye(),
    {
        self.eye
    }
}

/// What a mirror-texture acquisition came back with: the handle pair and
/// the texture's size, or the compositor's error.
pub type Acquisition = Result<(MirrorTextureInfo, GlTextureSize), CompositorError>;

/// The constraints a successful acquisition satisfies before a capture
/// context may be built from it: a live share handle, nonnegative GL
/// dimensions, and a buffer size the machine can represent.
pub open spec fn spec_acquisition_ok(acquisition: Acquisition) -> bool {
    acquisition matches Ok(pair) ==> {
        &&& pair.0.handle != 0
        &&& 0 <= pair.1.width
        &&& 0 <= pair.1.height
        &&& spec_required_buffer_size((pair.1.width, pair.1.height), TextureFormat::Rgba)
            <= usize::MAX
        &&& pair.1.width * 4 <= u32::MAX
    }
}

/// One mirror-capture source: the current settings and the one live
/// capture context, replaced wholesale on every settings change. The host
/// guards the whole source with a single writer lock, so a swap is atomic
/// for every reader: dimensions and buffer are always taken from the same
/// context.
pub struct OpenVRMirrorSource {
    settings: OpenVRMirrorSourceSettings,
    capture_context: Option<OpenVRMirrorCapture>,
}

impl OpenVRMirrorSource {
    pub closed spec fn spec_settings(&self) -> OpenVRMirrorSourceSettings {
        self.settings
    }

    pub closed spec fn spec_capture_context(&self) -> Option<OpenVRMirrorCapture> {
        self.capture_context
    }

    /// Well-formedness: a live capture context is itself well-formed and
    /// captures exactly the eye the settings select.
    pub open spec fn wf(&self) -> bool {
        self.spec_capture_context() matches Some(c) ==> c.wf() && c.spec_eye()
            == self.spec_settings().spec_eye()
    }

    /// Builds the source from its first settings value and the
    /// acquisition made for the eye those settings select. A failed
    /// acquisition leaves the source without a context; it produces no
    /// frames but the host keeps running.
    pub fn new(value: Option<&str>, acquisition: Acquisition, texture_flags: u32) -> (r:
        OpenVRMirrorSource)
        requires
            spec_acquisition_ok(acquisition),
        ensures
            r.wf(),
            r.spec_settings().spec_eye() == spec_eye_of_setting(match value {
                Some(s) => Some(s@),
                None => None,
            }),
            acquisition matches Ok(pair) ==> (r.spec_capture_context() matches Some(c)
                && c.spec_dimensions() == (pair.1.width, pair.1.height) && c.spec_texture_info()
                == pair.0 && !c.spec_has_frame()),
            acquisition is Err ==> r.spec_capture_context() is None,
    {
        let settings = OpenVRMirrorSourceSettings::from_value(value);
        let mut ret = OpenVRMirrorSource { settings, capture_context: None };
        ret.recreate_capture_context(acquisition, texture_flags);
        ret
    }

    pub fn settings(&self) -> (r: &OpenVRMirrorSourceSettings)
        ensures
            *r == self.spec_settings(),
    {
        &self.settings
    }

    /// Replaces the capture context with one freshly built for the
    /// current settings, or with none when the acquisition failed. The
    /// old context is dropped here: its loop has been stopped and joined,
    /// and its handle released, before the new context exists.
    pub fn recreate_capture_context(&mut self, acquisition: Acquisition, texture_flags: u32)
        requires
            spec_acquisition_ok(acquisition),
        ensures
            final(self).wf(),
            final(self).spec_settings() == old(self).spec_settings(),
            acquisition matches Ok(pair) ==> (final(self).spec_capture_context() matches Some(c)
                && c.spec_eye() == old(self).spec_settings().spec_eye() && c.spec_dimensions() == (
            pair.1.width, pair.1.height) && c.spec_texture_info() == pair.0
                && !c.spec_has_frame()),
            acquisition is Err ==> final(self).spec_capture_context() is None,
    {
        let new_context = match OpenVRMirrorCapture::new(
            self.settings.eye(),
            acquisition,
            texture_flags,
        ) {
            Ok(v) => Some(v),
            Err(_) => None,
        };
        self.capture_context = new_context;
    }

    /// Applies a settings change: re-reads the eye selection, then swaps
    /// in a context rebuilt for it. The new eye is visible the moment
    /// this returns, and readers only ever see the old context whole or
    /// the new context whole.
    pub fn update(&mut self, value: Option<&str>, acquisition: Acquisition, texture_flags: u32)
        requires
            spec_acquisition_ok(acquisition),
        ensures
            final(self).wf(),
            final(self).spec_settings().spec_eye() == spec_eye_of_setting(match value {
                Some(s) => Some(s@),
                None => None,
            }),
            acquisition matches Ok(pair) ==> (final(self).spec_capture_context() matches Some(c)
                && c.spec_dimensions() == (pair.1.width, pair.1.height) && c.spec_texture_info()
                == pair.0 && !c.spec_has_frame()),
            acquisition is Err ==> final(self).spec_capture_context() is None,
    {
        self.settings.update(value);
        self.recreate_capture_context(acquisition, texture_flags);
    }

    /// The live context's dimensions for the host, zero by zero while no
    /// context exists.
    pub fn get_dimensions(&self) -> (r: (u32, u32))
        requires
            self.wf(),
        ensures
            match self.spec_capture_context() {
                Some(c) => r == (c.spec_dimensions().0 as u32, c.spec_dimensions().1 as u32),
                None => r == (0u32, 0u32),
            },
    {
        match &self.capture_context {
            Some(c) => (c.width() as u32, c.height() as u32),
            None => (0, 0),
        }
    }

    /// One host tick: when the source is visible and a context is live,
    /// performs one locked copy into the context, inside the host's
    /// graphics critical section, and reports what happened for the
    /// host's log. A failed copy leaves the last good frame in place.
    pub fn video_tick(
        &mut self,
        showing: bool,
        lock: &mut MirrorTextureLock,
        gfx: &mut GraphicsContext,
        copy: GlCopyResult,
        alloc_ok: bool,
    ) -> (r: Option<Result<(), CopyTextureError>>)
        requires
            old(self).wf(),
            old(lock).spec_depth() == 0,
            old(gfx).spec_depth() < u32::MAX,
            old(self).spec_capture_context() matches Some(c) ==> (copy matches
                GlCopyResult::Frame(f) ==> f@.len() == spec_required_buffer_size(
                c.spec_dimensions(),
                c.spec_format(),
            )),
            copy matches GlCopyResult::GlError(code) ==> code != 0,
        ensures
            final(self).wf(),
            final(self).spec_settings() == old(self).spec_settings(),
            final(lock).spec_depth() == 0,
            final(gfx).spec_depth() == old(gfx).spec_depth(),
            !showing || old(self).spec_capture_context() is None ==> r is None && *final(self)
                == *old(self),
            old(self).spec_capture_context() matches Some(c0) ==> (showing ==> {
                &&& (final(self).spec_capture_context() matches Some(c1) && c1.same_config(&c0)
                    && {
                    &&& (copy matches GlCopyResult::GlError(code) ==> c1.spec_buffer()
                        == c0.spec_buffer() && c1.spec_has_frame() == c0.spec_has_frame()
                        && c1.spec_texture() == c0.spec_texture() && r == Some(
                        Err::<(), CopyTextureError>(CopyTextureError::Gl(code)),
                    ))
                    &&& (copy matches GlCopyResult::Frame(f) ==> {
                        &&& c1.spec_buffer() == f@
                        &&& c1.spec_has_frame()
                        &&& (c0.spec_format() == TextureFormat::Rgba && (c0.spec_texture() is Some
                            || alloc_ok) ==> r == Some(Ok::<(), CopyTextureError>(())))
                        &&& (c0.spec_format() == TextureFormat::Rgb ==> r == Some(
                            Err::<(), CopyTextureError>(
                                CopyTextureError::TextureCreation(
                                    TextureCreationError::FormatTranslation(TextureFormat::Rgb),
                                ),
                            ),
                        ))
                        &&& (c0.spec_format() == TextureFormat::Rgba && c0.spec_texture() is None
                            && !alloc_ok ==> r == Some(
                            Err::<(), CopyTextureError>(
                                CopyTextureError::TextureCreation(
                                    TextureCreationError::TextureAllocation,
                                ),
                            ),
                        ))
                    })
                })
            }),
    {
        if !showing {
            return None;
        }
        match &mut self.capture_context {
            None => None,
            Some(c) => {
                gfx.enter_graphics();
                lock.acquire(c.texture_info_handle());
                let committed = c.commit_frame(copy);
                lock.release();
                let result = match committed {
                    Err(code) => Err(CopyTextureError::Gl(code)),
                    Ok(()) => match c.publish_texture(alloc_ok) {
                        Ok(()) => Ok(()),
                        Err(e) => Err(CopyTextureError::TextureCreation(e)),
                    },
                };
                gfx.leave_graphics();
                Some(result)
            },
        }
    }

    /// One host render callback: reads the current context and, only when
    /// a frame has actually been captured, refreshes the host texture and
    /// issues the draw, whose dimensions are returned. Before the first
    /// successful copy, or when the format does not translate or the host
    /// declines the texture, no draw happens at all.
    pub fn video_render(&mut self, gfx: &mut GraphicsContext, alloc_ok: bool) -> (r: Option<
        (u32, u32),
    >)
        requires
            old(self).wf(),
            old(gfx).spec_depth() < u32::MAX,
        ensures
            final(self).wf(),
            final(self).spec_settings() == old(self).spec_settings(),
            final(gfx).spec_depth() == old(gfx).spec_depth(),
            old(self).spec_capture_context() is None ==> r is None && *final(self) == *old(self),
            old(self).spec_capture_context() matches Some(c0) ==> {
                &&& (!c0.spec_has_frame() ==> r is None && *final(self) == *old(self))
                &&& (c0.spec_has_frame() ==> {
                    &&& (final(self).spec_capture_context() matches Some(c1) && c1.same_config(
                        &c0) && c1.spec_buffer() == c0.spec_buffer())
                    &&& (c0.spec_format() == TextureFormat::Rgb ==> r is None)
                    &&& (c0.spec_format() == TextureFormat::Rgba && (c0.spec_texture() is Some
                        || alloc_ok) ==> (r == Some(
                        (c0.spec_dimensions().0 as u32, c0.spec_dimensions().1 as u32),
                    ) && (final(self).spec_capture_context() matches Some(c1)
                        && c1.spec_texture() matches Some(t) && t.spec_image()
                        == c0.spec_buffer())))
                    &&& (c0.spec_format() == TextureFormat::Rgba && c0.spec_texture() is None
                        && !alloc_ok ==> r is None)
                })
            },
    {
        match &mut self.capture_context {
            None => None,
            Some(c) => {
                if !c.has_frame() {
                    return None;
                }
                gfx.enter_graphics();
                let published = c.publish_texture(alloc_ok);
                gfx.leave_graphics();
                match published {
                    Ok(()) => Some((c.width() as u32, c.height() as u32)),
                    Err(_) => None,
                }
            },
        }
    }
}

/// Atomic context swap, as a reader sees it: in every well-formed source
/// the one live context pairs its buffer with its own dimensions, so a
/// reader that takes dimensions and then buffer length under the source's
/// reader lock can never observe dimensions of one context with a buffer
/// sized for another.
pub proof fn lemma_atomic_context_swap(source: &OpenVRMirrorSource)
    requires
        source.wf(),
    ensures
        source.spec_capture_context() matches Some(c) ==> c.spec_buffer().len()
            == spec_required_buffer_size(c.spec_dimensions(), c.spec_format()),
{
}

} // verus!
