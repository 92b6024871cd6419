//! The runtime's status codes and their translation into `Result`s.
//!
//! Every foreign call of the VR runtime reports a `u32` status whose zero
//! value means success. Each family of calls gets its own newtype so a
//! compositor status cannot be mistaken for an initialization status.

use vstd::prelude::*;

verus! {

/// Status code of the runtime's initialization calls; zero is success.
#[derive(Debug, Clone, Copy, PartialEq, Eq, Structural)]
pub struct VrInitError(pub u32);

/// Status code of the runtime's compositor calls; zero is success.
#[derive(Debug, Clone, Copy, PartialEq, Eq, Structural)]
pub struct CompositorError(pub u32);

/// Status code of the runtime's overlay calls; zero is success.
#[derive(Debug, Clone, Copy, PartialEq, Eq, Structural)]
pub struct OverlayError(pub u32);

/// A status code with a distinguished non-error value.
pub trait ErrorType: Sized {
    spec fn spec_is_error(&self) -> bool;

    fn non_error() -> (r: Self)
        ensures
            !r.spec_is_error(),
    ;

    fn is_error(&self) -> (r: bool)
        ensures
            r == self.spec_is_error(),
    ;
}

impl ErrorType for VrInitError {
    open spec fn spec_is_error(&self) -> bool {
        self.0 != 0
    }

    fn non_error() -> (r: Self) {
        VrInitError(0)
    }

    fn is_error(&self) -> (r: bool) {
        self.0 != 0
    }
}

impl ErrorType for CompositorError {
    open spec fn spec_is_error(&self) -> bool {
        self.0 != 0
    }

    fn non_error() -> (r: Self) {
        CompositorError(0)
    }

    fn is_error(&self) -> (r: bool) {
        self.0 != 0
    }
}

impl ErrorType for OverlayError {
    open spec fn spec_is_error(&self) -> bool {
        self.0 != 0
    }

    fn non_error() -> (r: Self) {
        OverlayError(0)
    }

    fn is_error(&self) -> (r: bool) {
        self.0 != 0
    }
}

/// Turns a status code into a `Result`, erring exactly on error codes.
pub trait ErrorTypeExt: ErrorType {
    fn into_result(self) -> (r: Result<Self, Self>)
        ensures
            self.spec_is_error() ==> r == Err::<Self, Self>(self),
            !self.spec_is_error() ==> r == Ok::<Self, Self>(self),
    ;

    fn into_empty_result(self) -> (r: Result<(), Self>)
        ensures
            self.spec_is_error() ==> r == Err::<(), Self>(self),
            !self.spec_is_error() ==> r == Ok::<(), Self>(()),
    ;
}

impl<T: ErrorType + Copy> ErrorTypeExt for T {
    fn into_result(self) -> (r: Result<Self, Self>) {
        if self.is_error() {
            Err(self)
        } else {
            Ok(self)
        }
    }

    fn into_empty_result(self) -> (r: Result<(), Self>) {
        if self.is_error() {
            Err(self)
        } else {
            Ok(())
        }
    }
}

} // verus!
