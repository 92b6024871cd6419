//! Model of the host renderer's graphics facilities: color formats, a
//! host-owned texture, the render-API critical section, and the bound
//! graphics context.

use vstd::prelude::*;

verus! {

/// Color formats of the host renderer that this source produces.
#[derive(Debug, Clone, Copy, PartialEq, Eq, Structural)]
pub enum GsColorFormat {
    Rgba,
    Bgra,
}

/// A host-owned GPU texture: its dimensions, color format, creation
/// flags, and the bytes most recently uploaded to it.
pub struct Texture {
    width: u32,
    height: u32,
    format: GsColorFormat,
    flags: u32,
    image: Vec<u8>,
}

impl Texture {
    pub closed spec fn spec_width(&self) -> u32 {
        self.width
    }

    pub closed spec fn spec_height(&self) -> u32 {
        self.height
    }

    pub closed spec fn spec_format(&self) -> GsColorFormat {
        self.format
    }

    pub closed spec fn spec_flags(&self) -> u32 {
        self.flags
    }

    pub closed spec fn spec_image(&self) -> Seq<u8> {
        self.image@
    }

    /// Creates a texture initialized with `data`, or nothing when the
    /// host's allocator declines; `alloc_ok` is that verdict.
    pub fn new(width: u32, height: u32, format: GsColorFormat, data: &Vec<u8>, flags: u32,
        alloc_ok: bool) -> (r: Option<Texture>)
        ensures
            alloc_ok ==> (r matches Some(t) && t.spec_width() == width && t.spec_height() == height
                && t.spec_format() == format && t.spec_flags() == flags && t.spec_image()
                == data@),
            !alloc_ok ==> r is None,
    {
        if alloc_ok {
            Some(
                Texture {
                    width,
                    height,
                    format,
                    flags,
                    image: data.clone(),
                },
            )
        } else {
            None
        }
    }

    /// Replaces the texture's image in place, without reallocation. The
    /// caller must hand exactly as many bytes as the texture holds; the
    /// host's own version of this call trusts the caller on that.
    pub fn set_image_unchecked(&mut self, data: &Vec<u8>, _linesize: u32, _inverted: bool)
        requires
            data@.len() == old(self).spec_image().len(),
        ensures
            final(self).spec_image() == data@,
            final(self).spec_width() == old(self).spec_width(),
            final(self).spec_height() == old(self).spec_height(),
            final(self).spec_format() == old(self).spec_format(),
            final(self).spec_flags() == old(self).spec_flags(),
    {
        self.image = data.clone();
    }

    pub fn get_width(&self) -> (r: u32)
        ensures
            r == self.spec_width(),
    {
        self.width
    }

    pub fn get_height(&self) -> (r: u32)
        ensures
            r == self.spec_height(),
    {
        self.height
    }

    pub fn get_color_format(&self) -> (r: GsColorFormat)
        ensures
            r == self.spec_format(),
    {
        self.format
    }

    pub fn get_dimensions(&self) -> (r: (u32, u32))
        ensures
            r == (self.spec_width(), self.spec_height()),
    {
        (self.width, self.height)
    }

    /// Number of image bytes the texture currently holds.
    pub fn image_len(&self) -> (r: usize)
        ensures
            r == self.spec_image().len(),
    {
        self.image.len()
    }
}

/// The host's render-API critical section. GPU calls are legal only while
/// the calling thread is inside it; entries and leaves must balance.
pub struct GraphicsContext {
    depth: u32,
}

impl GraphicsContext {
    pub closed spec fn spec_depth(&self) -> u32 {
        self.depth
    }

    pub fn new() -> (r: GraphicsContext)
        ensures
            r.spec_depth() == 0,
    {
        GraphicsContext { depth: 0 }
    }

    pub fn depth(&self) -> (r: u32)
        ensures
            r == self.spec_depth(),
    {
        self.depth
    }

    /// Enters the critical section (the host's enter-graphics call).
    pub fn enter_graphics(&mut self)
        requires
            old(self).spec_depth() < u32::MAX,
        ensures
            final(self).spec_depth() == old(self).spec_depth() + 1,
    {
        self.depth = self.depth + 1;
    }

    /// Leaves the critical section (the host's leave-graphics call).
    pub fn leave_graphics(&mut self)
        requires
            old(self).spec_depth() > 0,
        ensures
            final(self).spec_depth() == old(self).spec_depth() - 1,
    {
        self.depth = self.depth - 1;
    }
}

/// Which graphics context is bound to the calling thread, if any.
/// Isolation saves the binding, clears it so the body can bind its own
/// context, and afterwards restores exactly the saved binding.
pub struct ContextBinding {
    bound: Option<u32>,
}

impl ContextBinding {
    pub closed spec fn spec_bound(&self) -> Option<u32> {
        self.bound
    }

    pub fn new() -> (r: ContextBinding)
        ensures
            r.spec_bound() is None,
    {
        ContextBinding { bound: None }
    }

    pub fn bound(&self) -> (r: Option<u32>)
        ensures
            r == self.spec_bound(),
    {
        self.bound
    }

    /// Binds a context to the calling thread (make-current).
    pub fn bind(&mut self, context_id: u32)
        ensures
            final(self).spec_bound() == Some(context_id),
    {
        self.bound = Some(context_id);
    }

    /// Starts an isolation scope: records the current binding and clears
    /// it, handing the record back for `isolate_end`.
    pub fn isolate_begin(&mut self) -> (saved: Option<u32>)
        ensures
            saved == old(self).spec_bound(),
            final(self).spec_bound() is None,
    {
        let saved = self.bound;
        self.bound = None;
        saved
    }

    /// Ends an isolation scope: restores exactly the binding that
    /// `isolate_begin` recorded, whatever the body bound meanwhile.
    pub fn isolate_end(&mut self, saved: Option<u32>)
        ensures
            final(self).spec_bound() == saved,
    {
        self.bound = saved;
    }
}

} // verus!
