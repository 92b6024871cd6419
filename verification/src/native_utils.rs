//! Values exchanged with the native copy helper: texture sizes and its
//! status codes.

use vstd::prelude::*;

verus! {

/// Width and height the native copy helper reports for a texture.
#[derive(Debug, Clone, Copy, PartialEq, Eq, Structural)]
pub struct TextureSize {
    pub width: u32,
    pub height: u32,
}

/// Turns the native helper's status code into a `Result`: zero is
/// success, anything else the failing status itself.
pub fn status_to_result(status: i32) -> (r: Result<(), i32>)
    ensures
        status == 0 ==> r == Ok::<(), i32>(()),
        status != 0 ==> r == Err::<(), i32>(status),
{
    if status == 0 {
        Ok(())
    } else {
        Err(status)
    }
}

} // verus!
