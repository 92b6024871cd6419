//! Model of the compositor's shared mirror texture: the handle pair the
//! runtime returns, and the exclusive lock that must bracket every read
//! of the texture's backing storage.

use vstd::prelude::*;

use crate::openvr::error_ext::{CompositorError, ErrorType};

verus! {

/// The compositor's mirror texture for one eye: a GL texture id plus the
/// cross-context share handle. The runtime owns the texture; a zero share
/// handle stands for null and is never dereferenced or locked.
#[derive(Debug, Clone, Copy, PartialEq, Eq, Structural)]
pub struct MirrorTextureInfo {
    pub id: u32,
    pub handle: usize,
}

impl MirrorTextureInfo {
    /// The all-zero value used before the runtime has filled the pair in.
    pub fn empty() -> (r: MirrorTextureInfo)
        ensures
            r.id == 0,
            r.handle == 0,
    {
        MirrorTextureInfo { id: 0, handle: 0 }
    }

    /// Marks the handle pair released. The host issues the runtime's
    /// release call exactly once, right before this, at context teardown.
    pub fn release(&mut self)
        ensures
            final(self).id == 0,
            final(self).handle == 0,
    {
        self.id = 0;
        self.handle = 0;
    }
}

/// Translates the raw triple the runtime's mirror-texture query reports
/// into either the handle pair or the compositor's error code.
pub fn get_mirror_texture_gl(status: CompositorError, id: u32, handle: usize) -> (r: Result<
    MirrorTextureInfo,
    CompositorError,
>)
    ensures
        status.spec_is_error() ==> r == Err::<MirrorTextureInfo, CompositorError>(status),
        !status.spec_is_error() ==> r == Ok::<MirrorTextureInfo, CompositorError>(
            MirrorTextureInfo { id, handle },
        ),
{
    if status.is_error() {
        Err(status)
    } else {
        Ok(MirrorTextureInfo { id, handle })
    }
}

/// The exclusive lock on a shared texture, counted: the compositor may
/// write the texture's backing storage at any time, so every read must
/// happen at depth one, and the depth must return to zero on every exit
/// path of an iteration, error or not.
pub struct MirrorTextureLock {
    depth: u32,
}

impl MirrorTextureLock {
    pub closed spec fn spec_depth(&self) -> u32 {
        self.depth
    }

    pub fn new() -> (r: MirrorTextureLock)
        ensures
            r.spec_depth() == 0,
    {
        MirrorTextureLock { depth: 0 }
    }

    pub fn depth(&self) -> (r: u32)
        ensures
            r == self.spec_depth(),
    {
        self.depth
    }

    /// Takes the lock. The lock is never re-entered within one iteration,
    /// and a null share handle is never locked.
    pub fn acquire(&mut self, handle: usize)
        requires
            old(self).spec_depth() == 0,
            handle != 0,
        ensures
            final(self).spec_depth() == 1,
    {
        self.depth = 1;
    }

    /// Releases the lock taken by `acquire`.
    pub fn release(&mut self)
        requires
            old(self).spec_depth() == 1,
        ensures
            final(self).spec_depth() == 0,
    {
        self.depth = 0;
    }
}

} // verus!
