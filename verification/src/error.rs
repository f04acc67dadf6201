//! The ways a request can fail.

use vstd::prelude::*;

verus! {

/// Why a request could not be served.
#[derive(Clone, Copy, Debug, PartialEq, Eq, Structural)]
pub enum MouseError {
    /// The worker that was to carry out the request never completed it.
    DispatchFailure,
    /// The display reported a width or a height that is not positive.
    InvalidScreen,
    /// A scaled coordinate does not fit the 32-bit field of an input event.
    CoordinateOverflow,
}

} // verus!
