//! Model of the host application's boundary: its renderer's color
//! formats and textures, its graphics critical section and context
//! binding, and small extension traits its glue code uses.

pub mod enums;
pub mod graphics;
pub mod option_ext;

use vstd::prelude::*;

verus! {

/// A loadable plugin module, as the host drives it: a named crate with a
/// load and an unload step, each free to fail with its own error.
pub trait ObsModule {
    type LoadErr;

    type UnloadErr;

    fn crate_name() -> &'static str;

    fn load() -> Result<(), Self::LoadErr>;

    fn unload() -> Result<(), Self::UnloadErr>;
}

/// The yes-or-no shape of module loading that the host ABI expects; the
/// host's glue logs a failure's details before discarding them.
pub trait ObsModuleExt: ObsModule {
    fn do_load() -> bool;

    fn do_unload();
}

impl<T: ObsModule> ObsModuleExt for T {
    fn do_load() -> (r: bool) {
        match T::load() {
            Ok(_) => true,
            Err(_) => false,
        }
    }

    fn do_unload() {
        match T::unload() {
            Ok(_) => (),
            Err(_) => (),
        }
    }
}

} // verus!
