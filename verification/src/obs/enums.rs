//! Enumerations the host stores as strings in its settings objects.

use vstd::prelude::*;

use crate::openvr::Eye;

verus! {

/// A settings enumeration with a fixed string form.
pub trait ObsEnum {
    fn as_str(&self) -> &'static str;
}

impl ObsEnum for Eye {
    fn as_str(&self) -> (r: &'static str)
        ensures
            *self == Eye::Left ==> r@ == "left"@,
            *self == Eye::Right ==> r@ == "right"@,
    {
        match *self {
            Eye::Left => "left",
            Eye::Right => "right",
        }
    }
}

} // verus!
