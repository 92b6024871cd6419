//! Model of the VR runtime boundary: the eye selection, the runtime's
//! error codes, and the process-wide initialization lifecycle.

use vstd::prelude::*;

pub mod compositor;
pub mod error_ext;
pub mod headset_view;

use error_ext::{ErrorType, VrInitError};

verus! {

/// Which rendered viewpoint to capture. A change of eye always recreates
/// the whole capture context; it is never mutated in place.
#[derive(Debug, Clone, Copy, PartialEq, Eq, Structural)]
pub enum Eye {
    Left,
    Right,
}

/// Outcome of an initialization request: either this call initialized the
/// runtime, or another initializer had already done so.
#[derive(Debug, Clone, Copy, PartialEq, Eq, Structural)]
pub enum InitResult {
    OtherInitializer(bool),
    Initialized(bool),
}

impl InitResult {
    pub fn new(is_other: bool, value: bool) -> (r: InitResult)
        ensures
            r == (if is_other {
                InitResult::OtherInitializer(value)
            } else {
                InitResult::Initialized(value)
            }),
    {
        if is_other {
            InitResult::OtherInitializer(value)
        } else {
            InitResult::Initialized(value)
        }
    }

    pub fn value(&self) -> (v: bool)
        ensures
            v == self.spec_value(),
    {
        match *self {
            InitResult::OtherInitializer(v) => v,
            InitResult::Initialized(v) => v,
        }
    }

    pub open spec fn spec_value(self) -> bool {
        match self {
            InitResult::OtherInitializer(v) => v,
            InitResult::Initialized(v) => v,
        }
    }

    pub fn is_other(&self) -> (r: bool)
        ensures
            r == (self is OtherInitializer),
    {
        if let InitResult::OtherInitializer(_) = self {
            true
        } else {
            false
        }
    }
}

/// Process-wide flag recording whether the VR runtime has been brought up.
/// The host keeps exactly one of these for the lifetime of the process;
/// `init` and `shutdown` are its only transitions.
pub struct VrSystemState {
    initialized: bool,
}

impl VrSystemState {
    pub closed spec fn spec_initialized(&self) -> bool {
        self.initialized
    }

    pub fn new() -> (r: VrSystemState)
        ensures
            !r.spec_initialized(),
    {
        VrSystemState { initialized: false }
    }

    pub fn initialized(&self) -> (r: bool)
        ensures
            r == self.spec_initialized(),
    {
        self.initialized
    }
}

/// Applies one initialization request to the process-wide state.
///
/// `ffi_status` is the status code the runtime's own initializer returned;
/// it is consulted only when this call is the first initializer. The flag
/// is raised before the outcome is inspected, so a failed attempt still
/// leaves it raised, exactly as a fetch-or on an atomic flag would.
pub fn init(state: &mut VrSystemState, ffi_status: VrInitError) -> (r: Result<
    InitResult,
    VrInitError,
>)
    ensures
        final(state).spec_initialized(),
        old(state).spec_initialized() ==> r == Ok::<InitResult, VrInitError>(
            InitResult::OtherInitializer(true),
        ),
        !old(state).spec_initialized() && ffi_status.spec_is_error() ==> r == Err::<
            InitResult,
            VrInitError,
        >(ffi_status),
        !old(state).spec_initialized() && !ffi_status.spec_is_error() ==> r == Ok::<
            InitResult,
            VrInitError,
        >(InitResult::Initialized(true)),
{
    if state.initialized {
        Ok(InitResult::new(true, true))
    } else {
        state.initialized = true;
        if ffi_status.is_error() {
            Err(ffi_status)
        } else {
            Ok(InitResult::new(false, true))
        }
    }
}

/// Lowers the process-wide flag, returning whether the runtime had been
/// initialized, and so whether the host must actually call the runtime's
/// shutdown routine.
pub fn shutdown(state: &mut VrSystemState) -> (r: bool)
    ensures
        !final(state).spec_initialized(),
        r == old(state).spec_initialized(),
{
    let was = state.initialized;
    state.initialized = false;
    was
}

} // verus!
