//! Render target types and the formats that describe their color and depth
//! buffers, together with the flags that select what a clear overwrites.

use vstd::prelude::*;
use crate::gpu::{Backend, Call, Gpu, Screen, ScreenId, Side, Slot};
use crate::instance::Instance;

verus! {

/// Pixel format of a screen's framebuffer.
#[derive(Clone, Copy, Debug, PartialEq, Eq, Structural)]
pub enum FramebufferFormat {
    Rgba8,
    Bgr8,
    Rgb565,
    Rgb5A1,
    Rgba4,
}

/// The color format to use when rendering on the GPU.
#[derive(Clone, Copy, Debug, PartialEq, Eq, Structural)]
pub enum ColorFormat {
    /// 8-bit Red + 8-bit Green + 8-bit Blue + 8-bit Alpha.
    RGBA8,
    /// 8-bit Red + 8-bit Green + 8-bit Blue.
    RGB8,
    /// 5-bit Red + 5-bit Green + 5-bit Blue + 1-bit Alpha.
    RGBA5551,
    /// 5-bit Red + 6-bit Green + 5-bit Blue.
    RGB565,
    /// 4-bit Red + 4-bit Green + 4-bit Blue + 4-bit Alpha.
    RGBA4,
}

/// The depth buffer format to use when rendering.
#[derive(Clone, Copy, Debug, PartialEq, Eq, Structural)]
pub enum DepthFormat {
    /// 16-bit depth.
    Depth16,
    /// 24-bit depth.
    Depth24,
    /// 24-bit depth + 8-bit stencil.
    Depth24Stencil8,
}

/// Pixel format used by the display transfer engine.
#[derive(Clone, Copy, Debug, PartialEq, Eq, Structural)]
pub enum TransferFormat {
    RGBA8,
    RGB8,
    RGB565,
    RGB5A1,
    RGBA4,
}

/// The color buffer format that renders onto a framebuffer of format `f`.
/// `Bgr8` maps to `RGB8`, a pairing that the hardware accepts.
pub open spec fn color_format_of(f: FramebufferFormat) -> ColorFormat {
    match f {
        FramebufferFormat::Rgba8 => ColorFormat::RGBA8,
        FramebufferFormat::Rgb565 => ColorFormat::RGB565,
        FramebufferFormat::Rgb5A1 => ColorFormat::RGBA5551,
        FramebufferFormat::Rgba4 => ColorFormat::RGBA4,
        FramebufferFormat::Bgr8 => ColorFormat::RGB8,
    }
}

/// Native `GPU_COLORBUF` value of a color format.
pub open spec fn color_format_raw(c: ColorFormat) -> u32 {
    match c {
        ColorFormat::RGBA8 => 0,
        ColorFormat::RGB8 => 1,
        ColorFormat::RGBA5551 => 2,
        ColorFormat::RGB565 => 3,
        ColorFormat::RGBA4 => 4,
    }
}

/// Native `GPU_DEPTHBUF` value of a depth format, with -1 for no depth buffer.
pub open spec fn depth_format_raw(d: Option<DepthFormat>) -> int {
    match d {
        None => -1,
        Some(DepthFormat::Depth16) => 0,
        Some(DepthFormat::Depth24) => 2,
        Some(DepthFormat::Depth24Stencil8) => 3,
    }
}

/// Transfer-engine format that matches a color buffer format.
pub open spec fn transfer_format_of(c: ColorFormat) -> TransferFormat {
    match c {
        ColorFormat::RGBA8 => TransferFormat::RGBA8,
        ColorFormat::RGB8 => TransferFormat::RGB8,
        ColorFormat::RGBA5551 => TransferFormat::RGB5A1,
        ColorFormat::RGB565 => TransferFormat::RGB565,
        ColorFormat::RGBA4 => TransferFormat::RGBA4,
    }
}

/// Native `GX_TRANSFER_FORMAT` value.
pub open spec fn transfer_format_raw(t: TransferFormat) -> u32 {
    match t {
        TransferFormat::RGBA8 => 0,
        TransferFormat::RGB8 => 1,
        TransferFormat::RGB565 => 2,
        TransferFormat::RGB5A1 => 3,
        TransferFormat::RGBA4 => 4,
    }
}

/// Display-transfer flags whose input and output formats are both `t`:
/// the input format sits at bit 8, the output format at bit 12.
pub open spec fn transfer_flags_of(t: TransferFormat) -> u32 {
    (transfer_format_raw(t) * 256 + transfer_format_raw(t) * 4096) as u32
}

impl ColorFormat {
    /// The color format that renders onto a framebuffer of format `format`.
    pub fn from_framebuffer(format: FramebufferFormat) -> (r: ColorFormat)
        ensures
            r == color_format_of(format),
    {
        match format {
            FramebufferFormat::Rgba8 => ColorFormat::RGBA8,
            FramebufferFormat::Rgb565 => ColorFormat::RGB565,
            FramebufferFormat::Rgb5A1 => ColorFormat::RGBA5551,
            FramebufferFormat::Rgba4 => ColorFormat::RGBA4,
            FramebufferFormat::Bgr8 => ColorFormat::RGB8,
        }
    }

    /// The native `GPU_COLORBUF` value.
    pub fn as_raw(self) -> (r: u32)
        ensures
            r == color_format_raw(self),
    {
        match self {
            ColorFormat::RGBA8 => 0,
            ColorFormat::RGB8 => 1,
            ColorFormat::RGBA5551 => 2,
            ColorFormat::RGB565 => 3,
            ColorFormat::RGBA4 => 4,
        }
    }
}

impl DepthFormat {
    /// The native depth type of an optional depth format; `None` gives -1.
    pub fn as_raw(format: Option<DepthFormat>) -> (r: i32)
        ensures
            r == depth_format_raw(format),
    {
        match format {
            None => -1,
            Some(DepthFormat::Depth16) => 0,
            Some(DepthFormat::Depth24) => 2,
            Some(DepthFormat::Depth24Stencil8) => 3,
        }
    }
}

impl TransferFormat {
    /// The transfer-engine format that matches a color buffer format.
    pub fn from_color(c: ColorFormat) -> (r: TransferFormat)
        ensures
            r == transfer_format_of(c),
    {
        match c {
            ColorFormat::RGBA8 => TransferFormat::RGBA8,
            ColorFormat::RGB8 => TransferFormat::RGB8,
            ColorFormat::RGBA5551 => TransferFormat::RGB5A1,
            ColorFormat::RGB565 => TransferFormat::RGB565,
            ColorFormat::RGBA4 => TransferFormat::RGBA4,
        }
    }

    /// The native `GX_TRANSFER_FORMAT` value.
    pub fn as_raw(self) -> (r: u32)
        ensures
            r == transfer_format_raw(self),
    {
        match self {
            TransferFormat::RGBA8 => 0,
            TransferFormat::RGB8 => 1,
            TransferFormat::RGB565 => 2,
            TransferFormat::RGB5A1 => 3,
            TransferFormat::RGBA4 => 4,
        }
    }
}

/// Transfer flags for a target whose output matches `color` on both sides
/// of the display transfer.
pub fn transfer_flags(color: ColorFormat) -> (r: u32)
    ensures
        r == transfer_flags_of(transfer_format_of(color)),
{
    let f = TransferFormat::from_color(color).as_raw();
    f * 256 + f * 4096
}

/// A render target for the GPU, bound to a screen. A value of this type is the
/// target that draws go to inside a frame; outside a frame the same target is
/// a [`ScreenTarget`].
pub struct RenderTarget {
    raw: usize,
    screen: Screen,
    color_format: ColorFormat,
    depth_format: Option<DepthFormat>,
}

/// A render target bound to a screen that is not receiving draws.
///
/// To start rendering to it, use [`Instance::render_to_target`].
pub struct ScreenTarget(RenderTarget);

impl RenderTarget {
    /// The native address of a target is never null.
    #[verifier::type_invariant]
    spec fn non_null(&self) -> bool {
        self.raw != 0
    }

    pub closed spec fn spec_raw(&self) -> usize {
        self.raw
    }

    pub closed spec fn spec_screen(&self) -> Screen {
        self.screen
    }

    pub closed spec fn spec_color_format(&self) -> ColorFormat {
        self.color_format
    }

    pub closed spec fn spec_depth_format(&self) -> Option<DepthFormat> {
        self.depth_format
    }

    pub(crate) fn new(
        raw: usize,
        screen: Screen,
        color_format: ColorFormat,
        depth_format: Option<DepthFormat>,
    ) -> (r: RenderTarget)
        requires
            raw != 0,
        ensures
            r.spec_raw() == raw,
            r.spec_screen() == screen,
            r.spec_color_format() == color_format,
            r.spec_depth_format() == depth_format,
    {
        RenderTarget { raw, screen, color_format, depth_format }
    }

    pub(crate) fn into_parts(self) -> (r: (usize, Screen))
        ensures
            r.0 == self.spec_raw(),
            r.1 == self.spec_screen(),
            r.0 != 0,
    {
        proof { use_type_invariant(&self); }
        (self.raw, self.screen)
    }

    /// The underlying native target.
    pub fn as_raw(&self) -> (r: usize)
        ensures
            r == self.spec_raw(),
            r != 0,
    {
        proof { use_type_invariant(self); }
        self.raw
    }

    /// The screen borrow that the target holds.
    pub fn screen(&self) -> (r: &Screen)
        ensures
            *r == self.spec_screen(),
    {
        &self.screen
    }

    /// The color buffer format.
    pub fn color_format(&self) -> (r: ColorFormat)
        ensures
            r == self.spec_color_format(),
    {
        self.color_format
    }

    /// The depth buffer format, if the target has a depth buffer.
    pub fn depth_format(&self) -> (r: Option<DepthFormat>)
        ensures
            r == self.spec_depth_format(),
    {
        self.depth_format
    }

    /// Clear the render target with the given 32-bit RGBA color and depth
    /// buffer value. `flags` selects whether color and/or depth are overwritten.
    pub fn clear<B: Backend>(&mut self, instance: &mut Instance<B>, flags: ClearFlags, rgba_color: u32, depth: u32)
        requires
            old(instance).inv(),
        ensures
            final(instance).inv(),
            *final(self) == *old(self),
            final(instance).log() == old(instance).log().push(Call::TargetClear {
                target: old(self).spec_raw(), flags: flags.spec_bits(), rgba: rgba_color, depth_value: depth,
            }),
            final(instance).same_state(*old(instance)),
    {
        let raw = self.as_raw();
        instance.clear_target(raw, flags.bits(), rgba_color, depth);
    }
}

impl ScreenTarget {
    pub closed spec fn inner(&self) -> RenderTarget {
        self.0
    }

    pub(crate) fn from_inner(t: RenderTarget) -> (r: ScreenTarget)
        ensures
            r.inner() == t,
    {
        ScreenTarget(t)
    }

    pub(crate) fn into_inner(self) -> (r: RenderTarget)
        ensures
            r == self.inner(),
    {
        self.0
    }

    /// The target, read only.
    pub fn get_inner_ref(&self) -> (r: &RenderTarget)
        ensures
            *r == self.inner(),
    {
        &self.0
    }

    /// Deletes the target once the instance is gone; the screen is free
    /// again, and the command queue is torn down after the last target. A
    /// target that is not the live one of its screen is left alone.
    pub fn release<B: Backend>(self, gpu: &mut Gpu<B>)
        requires
            old(gpu).wf(),
        ensures
            final(gpu).wf(),
            final(gpu).spec_active() == old(gpu).spec_active(),
            final(gpu).spec_instance_live() == old(gpu).spec_instance_live(),
            ({
                let t = self.inner();
                let id = t.spec_screen().spec_id();
                if old(gpu).owns(id, t.spec_raw()) {
                    &&& final(gpu).log() == (if !old(gpu).spec_instance_live() && !(old(gpu).slot(id.other()) is Bound) {
                        old(gpu).log().push(Call::TargetDelete { target: t.spec_raw() }).push(Call::Fini)
                    } else {
                        old(gpu).log().push(Call::TargetDelete { target: t.spec_raw() })
                    })
                    &&& final(gpu).slot(id) == Slot::Free
                    &&& final(gpu).slot(id.other()) == old(gpu).slot(id.other())
                } else {
                    *final(gpu) == *old(gpu)
                }
            }),
    {
        let (raw, screen) = self.0.into_parts();
        let id = screen.id();
        if gpu.screen_slot(id) == Slot::Bound(raw) {
            gpu.delete_target(id, raw);
        }
    }

    /// Clear the target outside a frame: as [`RenderTarget::clear`].
    pub fn clear<B: Backend>(&mut self, instance: &mut Instance<B>, flags: ClearFlags, rgba_color: u32, depth: u32)
        requires
            old(instance).inv(),
        ensures
            final(instance).inv(),
            *final(self) == *old(self),
            final(instance).log() == old(instance).log().push(Call::TargetClear {
                target: old(self).inner().spec_raw(), flags: flags.spec_bits(), rgba: rgba_color, depth_value: depth,
            }),
            final(instance).same_state(*old(instance)),
    {
        self.0.clear(instance, flags, rgba_color, depth);
    }
}

/// Bit of the color buffer in [`ClearFlags`].
pub const CLEAR_COLOR: u8 = 1;

/// Bit of the depth buffer in [`ClearFlags`].
pub const CLEAR_DEPTH: u8 = 2;

/// Both bits of [`ClearFlags`].
pub const CLEAR_ALL: u8 = 3;

/// Indicate whether color, depth buffer, or both values should be cleared.
#[derive(Clone, Copy, Debug, PartialEq, Eq, Structural)]
pub struct ClearFlags {
    bits: u8,
}

impl ClearFlags {
    pub closed spec fn spec_bits(self) -> u8 {
        self.bits
    }

    /// Clear the color of the render target.
    pub fn color() -> (r: ClearFlags)
        ensures
            r.spec_bits() == CLEAR_COLOR,
    {
        ClearFlags { bits: CLEAR_COLOR }
    }

    /// Clear the depth buffer value of the render target.
    pub fn depth() -> (r: ClearFlags)
        ensures
            r.spec_bits() == CLEAR_DEPTH,
    {
        ClearFlags { bits: CLEAR_DEPTH }
    }

    /// Clear both color and depth buffer values of the render target.
    pub fn all() -> (r: ClearFlags)
        ensures
            r.spec_bits() == CLEAR_ALL,
    {
        ClearFlags { bits: CLEAR_ALL }
    }

    /// No buffer at all.
    pub fn empty() -> (r: ClearFlags)
        ensures
            r.spec_bits() == 0,
    {
        ClearFlags { bits: 0 }
    }

    /// Flags from a bit pattern; bits other than color and depth are dropped.
    pub fn from_bits_truncate(bits: u8) -> (r: ClearFlags)
        ensures
            r.spec_bits() == bits & CLEAR_ALL,
    {
        ClearFlags { bits: bits & CLEAR_ALL }
    }

    /// The bit pattern handed to the native clear.
    pub fn bits(&self) -> (r: u8)
        ensures
            r == self.spec_bits(),
    {
        self.bits
    }

    /// The union of two sets of flags.
    pub fn union(self, other: ClearFlags) -> (r: ClearFlags)
        ensures
            r.spec_bits() == self.spec_bits() | other.spec_bits(),
    {
        ClearFlags { bits: self.bits | other.bits }
    }

    /// Whether every flag of `other` is set in `self`.
    pub fn contains(&self, other: ClearFlags) -> (r: bool)
        ensures
            r == (self.spec_bits() & other.spec_bits() == other.spec_bits()),
    {
        self.bits & other.bits == other.bits
    }
}

/// The flag that clears everything is the union of the color and depth flags,
/// as bit patterns.
pub proof fn lemma_clear_all_is_color_or_depth()
    ensures
        CLEAR_ALL == CLEAR_COLOR | CLEAR_DEPTH,
        CLEAR_COLOR & CLEAR_DEPTH == 0,
{
    assert(3u8 == 1u8 | 2u8) by (bit_vector);
    assert(1u8 & 2u8 == 0u8) by (bit_vector);
}

/// Every framebuffer format has exactly one color format, and the table is
/// injective: distinct framebuffer formats give distinct color formats.
pub proof fn lemma_color_format_table(f: FramebufferFormat, g: FramebufferFormat)
    ensures
        color_format_of(f) == color_format_of(g) <==> f == g,
        color_format_raw(color_format_of(f)) <= 4,
        transfer_format_of(color_format_of(f)) == transfer_format_of(color_format_of(g)) <==> f == g,
{
}

} // verus!
