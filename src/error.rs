//! Errors of the library.

use vstd::prelude::*;

verus! {

/// Why an operation failed.
#[derive(Clone, Copy, Debug, PartialEq, Eq, Structural)]
pub enum Error {
    /// The native library could not set up its command queue.
    FailedToInitialize,
    /// The native library could not create a render target.
    CreationFailed,
    /// The target cannot be drawn on.
    InvalidRenderTarget,
    /// A number does not fit the native type it is converted to.
    Overflow,
}

} // verus!
