//! Size reported by the runtime's headset-view query.

use vstd::prelude::*;

verus! {

/// Width and height, in pixels, of the headset view.
#[derive(Debug, Clone, Copy, PartialEq, Eq, Structural)]
pub struct HeadsetViewSize {
    pub width: u32,
    pub height: u32,
}

} // verus!
