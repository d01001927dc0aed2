//! Colors and the results of drawing two-dimensional shapes.

use std::ops::ControlFlow;

use vstd::prelude::*;
use crate::gpu::{Backend, Call};
use crate::instance::Instance;
use crate::render::RenderTarget;

verus! {

/// The 32-bit value of a color with channels `r`, `g`, `b`, `a`: red in the
/// lowest byte, alpha in the highest.
pub open spec fn rgba_value(r: u8, g: u8, b: u8, a: u8) -> int {
    r as int + g as int * 0x100 + b as int * 0x10000 + a as int * 0x1000000
}

/// A color in RGBA format, stored as a 32-bit integer.
#[derive(Debug, Clone, Copy)]
pub struct Color {
    pub inner: u32,
}

impl Color {
    /// Create a new color with the given RGB values. Alpha is set to 255 (fully opaque).
    pub fn new(r: u8, g: u8, b: u8) -> (c: Color)
        ensures
            c.inner == rgba_value(r, g, b, 255),
    {
        Self::new_with_alpha(r, g, b, 255)
    }

    /// Create a new color with the given RGBA values.
    pub fn new_with_alpha(r: u8, g: u8, b: u8, a: u8) -> (c: Color)
        ensures
            c.inner == rgba_value(r, g, b, a),
    {
        let inner = r as u32 | (g as u32) << 8 | (b as u32) << 16 | (a as u32) << 24;
        assert(r as u32 | (g as u32) << 8 | (b as u32) << 16 | (a as u32) << 24
            == r as u32 + g as u32 * 0x100 + b as u32 * 0x10000 + a as u32 * 0x1000000) by (bit_vector);
        Color { inner }
    }

    /// The color whose 32-bit value is `value`.
    pub fn from_u32(value: u32) -> (c: Color)
        ensures
            c.inner == value,
    {
        Color { inner: value }
    }

    /// The 32-bit value of the color.
    pub fn as_u32(self) -> (r: u32)
        ensures
            r == self.inner,
    {
        self.inner
    }
}

/// Outcome of drawing a shape.
#[derive(Clone, Copy, Debug, PartialEq, Eq, Structural)]
pub enum DrawableResult {
    Success,
    Failure,
}

impl DrawableResult {
    /// Whether the draw succeeded.
    pub fn is_success(&self) -> (r: bool)
        ensures
            r == (*self is Success),
    {
        match self {
            DrawableResult::Success => true,
            DrawableResult::Failure => false,
        }
    }
}

impl DrawableResult {
    /// Whether to go on after a draw: `Continue` on success, `Break` with
    /// the failure otherwise.
    pub fn branch(self) -> (r: ControlFlow<DrawableResult, ()>)
        ensures
            r == (match self {
                DrawableResult::Success => ControlFlow::<DrawableResult, ()>::Continue(()),
                DrawableResult::Failure => ControlFlow::<DrawableResult, ()>::Break(DrawableResult::Failure),
            }),
    {
        match self {
            DrawableResult::Success => ControlFlow::Continue(()),
            DrawableResult::Failure => ControlFlow::Break(DrawableResult::Failure),
        }
    }
}

impl From<bool> for DrawableResult {
    /// `Success` for true, `Failure` for false.
    fn from(value: bool) -> (r: DrawableResult) {
        if value {
            DrawableResult::Success
        } else {
            DrawableResult::Failure
        }
    }
}

impl vstd::std_specs::convert::FromSpecImpl<bool> for DrawableResult {
    open spec fn obeys_from_spec() -> bool {
        true
    }

    open spec fn from_spec(v: bool) -> DrawableResult {
        if v {
            DrawableResult::Success
        } else {
            DrawableResult::Failure
        }
    }
}

/// Colors of the four corners of a shape.
#[derive(Debug, Clone, Copy)]
pub struct MultiColor {
    pub top_left: Color,
    pub top_right: Color,
    pub bottom_left: Color,
    pub bottom_right: Color,
}

/// Two-dimensional operations on a render target.
pub trait TargetExt {
    /// Clears the target to one color.
    fn clear_with_color<B: Backend>(&mut self, instance: &mut Instance<B>, color: Color)
        requires
            old(instance).inv(),
        ensures
            final(instance).inv();
}

impl TargetExt for RenderTarget {
    fn clear_with_color<B: Backend>(&mut self, instance: &mut Instance<B>, color: Color)
        ensures
            *final(self) == *old(self),
            final(instance).log() == old(instance).log().push(Call::TargetClear2d {
                target: old(self).spec_raw(), color: color.inner,
            }),
            final(instance).same_state(*old(instance)),
    {
        let raw = self.as_raw();
        instance.clear_target_2d(raw, color.inner);
    }
}

} // verus!
