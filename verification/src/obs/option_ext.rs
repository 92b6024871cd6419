//! Option helper used by the host-boundary glue.

use vstd::prelude::*;

verus! {

/// Falls back to the type's default when no value is present.
pub trait OptionExt<T> {
    fn or_default(self) -> T;
}

impl<T: Default> OptionExt<T> for Option<T> {
    fn or_default(self) -> (r: T)
        ensures
            self matches Some(v) ==> r == v,
            self is None ==> call_ensures(T::default, (), r),
    {
        match self {
            Some(v) => v,
            None => Default::default(),
        }
    }
}

} // verus!
