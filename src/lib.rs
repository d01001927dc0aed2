//! Lifetime-safe handles over the GPU of a handheld console with two
//! screens: the command queue, render targets bound to screens, and the
//! frame scope in which exactly one target receives draws.
//!
//! The native library sits behind [`Backend`]; a [`Gpu`] drives it and keeps
//! the record of every call made, which the contracts speak of. An
//! [`Instance`] takes the context over, creates [`ScreenTarget`]s on borrowed
//! screens and opens frames in which one of them is the active
//! [`RenderTarget`]. Handles are released explicitly: [`Instance::release`]
//! gives the context back, and the command queue is torn down only once the
//! last target is released through [`ScreenTarget::release`] or
//! [`Instance::release_target`].

pub mod color;
pub mod error;
pub mod gpu;
pub mod instance;
pub mod math;
pub mod render;

pub use error::Error;
pub use gpu::{Backend, Call, Gpu, IndexKind, Primitive, Screen, ScreenId, Side, Slot};
pub use instance::Instance;
pub use render::{ClearFlags, ColorFormat, DepthFormat, FramebufferFormat, RenderTarget, ScreenTarget};
