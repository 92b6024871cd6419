//! Core logic of an OpenVR mirror-capture video source for a host
//! compositor: pixel-format and buffer-size rules, the shared-texture
//! lock protocol, the pixel-copy engine's last-good-frame semantics, the
//! background capture loop's state machine, and the capture-context
//! facade that ties them together.
//!
//! The host ABI, the GPU calls and the VR runtime itself live outside
//! this crate; they hand plain values in (status codes, frame bytes,
//! texture sizes) and take plain values back.

use vstd::prelude::*;

pub mod build_profile;
pub mod capture;
pub mod logging;
pub mod mirror;
pub mod module;
pub mod native_utils;
pub mod obs;
pub mod openvr;
pub mod option_ext;
mod strutil;
pub mod timing;

verus! {

use crate::openvr::error_ext::VrInitError;
use crate::openvr::{InitResult, VrSystemState};

/// Everything that can go wrong in this module's own lifecycle.
#[derive(Debug, Clone, Copy, PartialEq, Eq, Structural)]
pub enum ObsOpenVRError {
    /// Initialization of the VR runtime has not been attempted yet.
    InitNotAttempted,
    /// The VR runtime failed to initialize, with its error code.
    OpenVRInit(VrInitError),
    /// The VR runtime failed to initialize without reporting an error.
    OpenVRInitNoError,
    /// The VR runtime was not actually shut down at module unload.
    OpenVRShutdown,
}

/// The cached outcome of bringing the VR runtime up, shared by every
/// source of this module. The host guards it with a single lock; callers
/// read the cached result without re-triggering initialization, and only
/// a caller that found it not-ok makes a fresh attempt.
pub struct OpenVrInitState {
    result: Result<(), ObsOpenVRError>,
}

impl OpenVrInitState {
    pub closed spec fn spec_result(&self) -> Result<(), ObsOpenVRError> {
        self.result
    }

    pub fn new() -> (r: OpenVrInitState)
        ensures
            r.spec_result() == Err::<(), ObsOpenVRError>(ObsOpenVRError::InitNotAttempted),
    {
        OpenVrInitState { result: Err(ObsOpenVRError::InitNotAttempted) }
    }

    /// The cached result, readable without triggering anything.
    pub fn result(&self) -> (r: Result<(), ObsOpenVRError>)
        ensures
            r == self.spec_result(),
    {
        self.result
    }
}

/// Applies one initialization attempt to the cached state, idempotently:
/// once the runtime is up, further calls change nothing and succeed.
/// `attempt` is what the runtime's initializer came back with; it is
/// consulted only while the cached result is not ok. Only success is
/// cached — a failed attempt leaves the cache as it was and hands the
/// error to the caller, so the next call tries again.
pub fn init_openvr(state: &mut OpenVrInitState, attempt: Result<InitResult, VrInitError>) -> (r:
    Result<(), ObsOpenVRError>)
    ensures
        old(state).spec_result() is Ok ==> final(state).spec_result() == old(state).spec_result()
            && r == Ok::<(), ObsOpenVRError>(()),
        old(state).spec_result() is Err ==> match attempt {
            Err(e) => final(state).spec_result() == old(state).spec_result() && r == Err::<
                (),
                ObsOpenVRError,
            >(ObsOpenVRError::OpenVRInit(e)),
            Ok(ir) => if ir.spec_value() {
                final(state).spec_result() == Ok::<(), ObsOpenVRError>(()) && r == Ok::<
                    (),
                    ObsOpenVRError,
                >(())
            } else {
                final(state).spec_result() == old(state).spec_result() && r == Err::<
                    (),
                    ObsOpenVRError,
                >(ObsOpenVRError::OpenVRInitNoError)
            },
        },
{
    if state.result().is_ok() {
        return Ok(());
    }
    match attempt {
        Err(e) => Err(ObsOpenVRError::OpenVRInit(e)),
        Ok(ir) => {
            if ir.value() {
                state.result = Ok(());
                Ok(())
            } else {
                Err(ObsOpenVRError::OpenVRInitNoError)
            }
        },
    }
}

/// `init_openvr`, reduced to whether the runtime is usable afterwards.
pub fn try_init_openvr(state: &mut OpenVrInitState, attempt: Result<InitResult, VrInitError>) -> (r:
    bool)
    ensures
        r == (final(state).spec_result() is Ok),
        old(state).spec_result() is Ok ==> r,
{
    match init_openvr(state, attempt) {
        Ok(()) => true,
        Err(_) => false,
    }
}

/// The plugin module as the host sees it; its load-time glue lives with
/// the host, its unload bookkeeping is here.
pub struct ObsOpenVRModule {}

impl ObsOpenVRModule {
    /// Shuts the VR runtime down at module unload, erring when the
    /// runtime turns out not to have been initialized at all.
    pub fn unload_internal(vr: &mut VrSystemState) -> (r: Result<(), ObsOpenVRError>)
        ensures
            !final(vr).spec_initialized(),
            old(vr).spec_initialized() ==> r == Ok::<(), ObsOpenVRError>(()),
            !old(vr).spec_initialized() ==> r == Err::<(), ObsOpenVRError>(
                ObsOpenVRError::OpenVRShutdown,
            ),
    {
        if crate::openvr::shutdown(vr) {
            Ok(())
        } else {
            Err(ObsOpenVRError::OpenVRShutdown)
        }
    }
}

} // verus!
