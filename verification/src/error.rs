//! Hard failures of an intercepted call.

use vstd::prelude::*;

verus! {

/// A hard failure of an intercepted call.
///
/// The host process never sees this type: at the boundary of a hook the
/// failure turns into the platform's own error signal, and the call looks as
/// if the native operation had failed with `errno`. The code is kept exactly
/// as it was handed in.
#[derive(Debug, Clone, Copy, PartialEq, Eq, Structural)]
pub struct HookError {
    /// The OS error code that the host process observes.
    pub errno: i32,
}

impl HookError {
    /// A failure that the host observes as the OS error `errno`.
    pub fn new(errno: i32) -> (error: HookError)
        ensures
            error.errno == errno,
    {
        HookError { errno }
    }

    /// The OS error code that the host process observes.
    pub fn errno(&self) -> (code: i32)
        ensures
            code == self.errno,
    {
        self.errno
    }
}

} // verus!
