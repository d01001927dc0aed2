//! The console's GPU context: the native command queue, the two screens, and
//! the record of every native call that the library has made.

use vstd::prelude::*;
use crate::render::{
    color_format_raw, depth_format_raw, transfer_flags, transfer_flags_of, transfer_format_of,
    ColorFormat, DepthFormat, FramebufferFormat,
};

verus! {

/// One of the console's two physical screens.
#[derive(Clone, Copy, Debug, PartialEq, Eq, Structural)]
pub enum ScreenId {
    Top,
    Bottom,
}

impl ScreenId {
    /// The other screen.
    pub open spec fn other(self) -> ScreenId {
        match self {
            ScreenId::Top => ScreenId::Bottom,
            ScreenId::Bottom => ScreenId::Top,
        }
    }
}

/// Side of a screen, for stereoscopic output.
#[derive(Clone, Copy, Debug, PartialEq, Eq, Structural)]
pub enum Side {
    Left,
    Right,
}

/// Kind of primitive that a draw call assembles from its vertices.
#[derive(Clone, Copy, Debug, PartialEq, Eq, Structural)]
pub enum Primitive {
    Triangles,
    TriangleStrip,
    TriangleFan,
    GeometryPrim,
}

/// Width of one element of an index buffer.
#[derive(Clone, Copy, Debug, PartialEq, Eq, Structural)]
pub enum IndexKind {
    Byte,
    Short,
}

/// A native call made by the library, with the result that decided what came next.
pub enum Call {
    Init { size: usize, ok: bool },
    Fini,
    FrameBegin { flags: u8 },
    FrameDrawOn { target: usize, ok: bool },
    FrameEnd { flags: u8 },
    TargetCreate { width: i16, height: i16, color_buf: u32, depth_buf: i32, result: usize },
    TargetSetOutput { target: usize, screen: ScreenId, side: Side, transfer: u32 },
    TargetClear { target: usize, flags: u8, rgba: u32, depth_value: u32 },
    TargetDelete { target: usize },
    SetBufInfo { info: usize },
    SetAttrInfo { info: usize },
    DrawArrays { primitive: Primitive, first: i32, count: i32 },
    DrawElements { primitive: Primitive, count: i32, kind: IndexKind, indices: usize },
    BindProgram { program: usize },
    LightEnvBind { env: usize },
    TexEnvInit { stage: usize },
    TargetClear2d { target: usize, color: u32 },
}

/// The native graphics library as the library drives it. Pointers travel as
/// addresses, with 0 for null. Nothing is assumed of what an implementation
/// returns: every result is checked by the caller.
pub trait Backend {
    /// `C3D_Init`: sets up the command queue; false on failure.
    fn init(&mut self, cmdbuf_size: usize) -> bool;

    /// `C3D_Fini`: tears the command queue down.
    fn fini(&mut self);

    /// `C3D_FrameBegin`.
    fn frame_begin(&mut self, flags: u8) -> bool;

    /// `C3D_FrameDrawOn`: false when the target cannot be drawn on.
    fn frame_draw_on(&mut self, target: usize) -> bool;

    /// `C3D_FrameEnd`.
    fn frame_end(&mut self, flags: u8);

    /// `C3D_RenderTargetCreate`: the new target's address, 0 on failure.
    fn target_create(&mut self, width: i16, height: i16, color: u32, depth: i32) -> usize;

    /// `C3D_RenderTargetSetOutput`.
    fn target_set_output(&mut self, target: usize, screen: ScreenId, side: Side, transfer: u32);

    /// `C3D_RenderTargetClear`.
    fn target_clear(&mut self, target: usize, flags: u8, color: u32, depth: u32);

    /// `C3D_RenderTargetDelete`.
    fn target_delete(&mut self, target: usize);

    /// `C3D_SetBufInfo`.
    fn set_buf_info(&mut self, info: usize);

    /// `C3D_SetAttrInfo`.
    fn set_attr_info(&mut self, info: usize);

    /// `C3D_DrawArrays`.
    fn draw_arrays(&mut self, primitive: Primitive, first: i32, count: i32);

    /// `C3D_DrawElements`.
    fn draw_elements(&mut self, primitive: Primitive, count: i32, kind: IndexKind, indices: usize);

    /// `C3D_BindProgram`.
    fn bind_program(&mut self, program: usize);

    /// `C3D_LightEnvBind`, with 0 to unbind.
    fn light_env_bind(&mut self, env: usize);

    /// `C3D_TexEnvInit` on the environment of a stage.
    fn texenv_init(&mut self, stage: usize);

    /// `C2D_TargetClear`: clears a target to one color.
    fn target_clear_2d(&mut self, target: usize, color: u32);
}

/// `C3D_FRAME_SYNCDRAW`: frame begin waits for the previous frame's draws.
pub const FRAME_SYNCDRAW: u8 = 1;

/// What a screen is used for at a given moment.
#[derive(Clone, Copy, Debug, PartialEq, Eq, Structural)]
pub enum Slot {
    /// Nobody holds the screen.
    Free,
    /// A [`Screen`] borrow is out, not yet bound to a target.
    Held,
    /// The live target at this address owns the screen.
    Bound(usize),
}

/// An exclusive borrow of one screen's framebuffer.
pub struct Screen {
    id: ScreenId,
    side: Side,
    format: FramebufferFormat,
}

impl Screen {
    pub closed spec fn spec_id(&self) -> ScreenId {
        self.id
    }

    pub closed spec fn spec_side(&self) -> Side {
        self.side
    }

    pub closed spec fn spec_format(&self) -> FramebufferFormat {
        self.format
    }

    /// Which screen is borrowed.
    pub fn id(&self) -> (r: ScreenId)
        ensures
            r == self.spec_id(),
    {
        self.id
    }

    /// The side that output goes to.
    pub fn side(&self) -> (r: Side)
        ensures
            r == self.spec_side(),
    {
        self.side
    }

    /// Pixel format of the framebuffer.
    pub fn framebuffer_format(&self) -> (r: FramebufferFormat)
        ensures
            r == self.spec_format(),
    {
        self.format
    }
}

/// Whether the last frame marker of `log` opens a frame.
pub open spec fn open_in(log: Seq<Call>) -> bool
    decreases log.len(),
{
    if log.len() == 0 {
        false
    } else {
        match log.last() {
            Call::FrameBegin { .. } => true,
            Call::FrameEnd { .. } => false,
            _ => open_in(log.drop_last()),
        }
    }
}

/// Frames in `log` never nest: a frame begins only when none is open, and
/// ends only when one is.
pub open spec fn frames_ok(log: Seq<Call>) -> bool
    decreases log.len(),
{
    if log.len() == 0 {
        true
    } else {
        frames_ok(log.drop_last()) && match log.last() {
            Call::FrameBegin { .. } => !open_in(log.drop_last()),
            Call::FrameEnd { .. } => open_in(log.drop_last()),
            _ => true,
        }
    }
}

/// Targets created through `log` and not deleted since.
pub open spec fn live_count(log: Seq<Call>) -> int
    decreases log.len(),
{
    if log.len() == 0 {
        0
    } else {
        live_count(log.drop_last()) + match log.last() {
            Call::TargetCreate { result, .. } => if result != 0 { 1int } else { 0int },
            Call::TargetDelete { .. } => -1int,
            _ => 0int,
        }
    }
}

/// Every teardown of the command queue in `log` comes when no target is live.
pub open spec fn teardown_ok(log: Seq<Call>) -> bool
    decreases log.len(),
{
    if log.len() == 0 {
        true
    } else {
        teardown_ok(log.drop_last()) && (log.last() is Fini ==> live_count(log.drop_last()) == 0)
    }
}

impl Slot {
    /// Whether a target owns the screen.
    pub fn is_bound(&self) -> (r: bool)
        ensures
            r == (*self is Bound),
    {
        match self {
            Slot::Bound(_) => true,
            _ => false,
        }
    }
}

pub open spec fn slot_bound(s: Slot) -> int {
    if s is Bound { 1 } else { 0 }
}

/// The GPU context of the console: the native library behind a [`Backend`],
/// the state of its command queue and screens, and the calls made so far.
pub struct Gpu<B: Backend> {
    backend: B,
    queue_live: bool,
    instance_live: bool,
    top: Slot,
    bottom: Slot,
    active: Option<ScreenId>,
    log: Ghost<Seq<Call>>,
}

/// A prefix of a prefix is a prefix, and agrees with the whole on its indices.
pub proof fn lemma_prefix_trans(a: Seq<Call>, b: Seq<Call>, c: Seq<Call>)
    requires
        a.is_prefix_of(b),
        b.is_prefix_of(c),
    ensures
        a.is_prefix_of(c),
        forall|k: int| 0 <= k < a.len() ==> a[k] == c[k],
{
    assert forall|k: int| 0 <= k < a.len() implies a[k] == c[k] by {
        assert(a[k] == b.subrange(0, a.len() as int)[k]);
        assert(b[k] == c.subrange(0, b.len() as int)[k]);
    }
    assert(a =~= c.subrange(0, a.len() as int));
}

/// A sequence is a prefix of itself with one more element.
pub proof fn lemma_prefix_push(a: Seq<Call>, c: Call)
    ensures
        a.is_prefix_of(a.push(c)),
{
    assert(a =~= a.push(c).subrange(0, a.len() as int));
}

proof fn lemma_take_step(log: Seq<Call>, n: int)
    requires
        0 <= n < log.len(),
    ensures
        log.take(n + 1).len() > 0,
        log.take(n + 1).drop_last() == log.take(n),
        log.take(n + 1).last() == log[n],
{
    assert(log.take(n + 1).drop_last() =~= log.take(n));
}

proof fn lemma_frames_take(log: Seq<Call>, n: int)
    requires
        frames_ok(log),
        0 <= n <= log.len(),
    ensures
        frames_ok(log.take(n)),
    decreases log.len() - n,
{
    if n == log.len() {
        assert(log.take(n) =~= log);
    } else {
        lemma_take_step(log, n);
        lemma_frames_take(log, n + 1);
    }
}

proof fn lemma_teardown_take(log: Seq<Call>, n: int)
    requires
        teardown_ok(log),
        0 <= n <= log.len(),
    ensures
        teardown_ok(log.take(n)),
    decreases log.len() - n,
{
    if n == log.len() {
        assert(log.take(n) =~= log);
    } else {
        lemma_take_step(log, n);
        lemma_teardown_take(log, n + 1);
    }
}

/// The command queue outlives every target: wherever a history that the
/// library keeps tears the queue down, every target created before has
/// already been deleted.
pub proof fn lemma_queue_outlives_targets(log: Seq<Call>, i: int)
    requires
        teardown_ok(log),
        0 <= i < log.len(),
        log[i] is Fini,
    ensures
        live_count(log.take(i)) == 0,
{
    lemma_teardown_take(log, i + 1);
    lemma_take_step(log, i);
}

proof fn lemma_stays_open(log: Seq<Call>, i: int, m: int)
    requires
        frames_ok(log),
        0 <= i < m <= log.len(),
        log[i] is FrameBegin,
        forall|k: int| i < k < m ==> !(#[trigger] log[k] is FrameEnd),
    ensures
        open_in(log.take(m)),
    decreases m - i,
{
    lemma_take_step(log, m - 1);
    if m - 1 > i {
        lemma_stays_open(log, i, m - 1);
    }
}

/// Frames never nest: between two frame begins of a history that the library
/// keeps there is a frame end, so each begun frame ends exactly once before
/// the next one begins.
pub proof fn lemma_frames_balanced(log: Seq<Call>, i: int, j: int)
    requires
        frames_ok(log),
        0 <= i < j < log.len(),
        log[i] is FrameBegin,
        log[j] is FrameBegin,
    ensures
        exists|k: int| i < k < j && #[trigger] log[k] is FrameEnd,
{
    if forall|k: int| i < k < j ==> !(#[trigger] log[k] is FrameEnd) {
        lemma_stays_open(log, i, j);
        lemma_frames_take(log, j + 1);
        lemma_take_step(log, j);
    }
}

/// A frame end in a history that the library keeps always closes an open frame.
pub proof fn lemma_frame_end_closes(log: Seq<Call>, j: int)
    requires
        frames_ok(log),
        0 <= j < log.len(),
        log[j] is FrameEnd,
    ensures
        open_in(log.take(j)),
        !open_in(log.take(j + 1)),
{
    lemma_frames_take(log, j + 1);
    lemma_take_step(log, j);
}

proof fn lemma_push(log: Seq<Call>, c: Call)
    ensures
        log.push(c).len() > 0,
        log.push(c).drop_last() == log,
        log.push(c).last() == c,
{
    assert(log.push(c).drop_last() =~= log);
}

impl<B: Backend> Gpu<B> {
    /// The context's state agrees with the calls that it made.
    pub closed spec fn wf(&self) -> bool {
        &&& self.queue_live == (self.instance_live || self.top is Bound || self.bottom is Bound)
        &&& self.history_ok()
    }

    closed spec fn history_ok(&self) -> bool {
        &&& live_count(self.log@) == slot_bound(self.top) + slot_bound(self.bottom)
        &&& teardown_ok(self.log@)
        &&& frames_ok(self.log@)
        &&& open_in(self.log@) == self.active.is_some()
    }

    /// Every call made through this context, oldest first.
    pub closed spec fn log(&self) -> Seq<Call> {
        self.log@
    }

    pub closed spec fn spec_queue_live(&self) -> bool {
        self.queue_live
    }

    pub closed spec fn spec_instance_live(&self) -> bool {
        self.instance_live
    }

    pub closed spec fn spec_active(&self) -> Option<ScreenId> {
        self.active
    }

    pub closed spec fn slot(&self, id: ScreenId) -> Slot {
        match id {
            ScreenId::Top => self.top,
            ScreenId::Bottom => self.bottom,
        }
    }

    pub closed spec fn spec_backend(&self) -> B {
        self.backend
    }

    /// Whether a frame is open.
    pub open spec fn in_frame(&self) -> bool {
        self.spec_active().is_some()
    }

    /// The context before the command queue is set up: no screen borrowed,
    /// nothing called yet.
    pub fn new(backend: B) -> (r: Gpu<B>)
        ensures
            r.log() == Seq::<Call>::empty(),
            !r.spec_queue_live(),
            !r.spec_instance_live(),
            r.slot(ScreenId::Top) == Slot::Free,
            r.slot(ScreenId::Bottom) == Slot::Free,
            r.spec_active().is_none(),
            r.spec_backend() == backend,
            r.wf(),
    {
        Gpu {
            backend,
            queue_live: false,
            instance_live: false,
            top: Slot::Free,
            bottom: Slot::Free,
            active: None,
            log: Ghost(Seq::empty()),
        }
    }

    /// The native library.
    pub fn backend(&self) -> (r: &B)
        ensures
            *r == self.spec_backend(),
    {
        &self.backend
    }

    /// Whether the command queue is set up and not yet torn down.
    pub fn queue_live(&self) -> (r: bool)
        ensures
            r == self.spec_queue_live(),
    {
        self.queue_live
    }

    /// Whether an [`Instance`](crate::Instance) holds this context.
    pub fn instance_live(&self) -> (r: bool)
        ensures
            r == self.spec_instance_live(),
    {
        self.instance_live
    }

    /// The screen of the target that draws receive, inside a frame.
    pub fn active(&self) -> (r: Option<ScreenId>)
        ensures
            r == self.spec_active(),
    {
        self.active
    }

    /// What screen `id` is used for.
    pub fn screen_slot(&self, id: ScreenId) -> (r: Slot)
        ensures
            r == self.slot(id),
    {
        match id {
            ScreenId::Top => self.top,
            ScreenId::Bottom => self.bottom,
        }
    }

    /// Borrows screen `id`, whose framebuffer has format `format`, for output
    /// to `side`. `None` when the screen is already borrowed.
    pub fn borrow_screen(&mut self, id: ScreenId, side: Side, format: FramebufferFormat) -> (r: Option<Screen>)
        requires
            old(self).wf(),
        ensures
            final(self).wf(),
            r.is_some() == (old(self).slot(id) == Slot::Free),
            r.is_some() ==> ({
                let s = r.unwrap();
                s.spec_id() == id && s.spec_side() == side && s.spec_format() == format
            }),
            final(self).slot(id) == (if r.is_some() { Slot::Held } else { old(self).slot(id) }),
            final(self).same_but_screen(*old(self), id),
    {
        if self.screen_slot(id) == Slot::Free {
            self.set_slot(id, Slot::Held);
            Some(Screen { id, side, format })
        } else {
            None
        }
    }

    /// Gives back a screen borrow that no target took.
    pub fn return_screen(&mut self, screen: Screen)
        requires
            old(self).wf(),
        ensures
            final(self).wf(),
            final(self).slot(screen.spec_id()) == (if old(self).slot(screen.spec_id()) == Slot::Held {
                Slot::Free
            } else {
                old(self).slot(screen.spec_id())
            }),
            final(self).same_but_screen(*old(self), screen.spec_id()),
    {
        if self.screen_slot(screen.id) == Slot::Held {
            self.set_slot(screen.id, Slot::Free);
        }
    }

    /// Everything but the slot of screen `id` is as in `other`.
    pub open spec fn same_but_screen(&self, other: Self, id: ScreenId) -> bool {
        &&& self.log() == other.log()
        &&& self.spec_queue_live() == other.spec_queue_live()
        &&& self.spec_instance_live() == other.spec_instance_live()
        &&& self.spec_active() == other.spec_active()
        &&& self.spec_backend() == other.spec_backend()
        &&& forall|o: ScreenId| o != id ==> self.slot(o) == other.slot(o)
    }

    /// What a well-formed context guarantees of its history: the queue was
    /// torn down only with no target live, frames never nested, a frame is
    /// open exactly when one screen's target receives draws, and each live
    /// target owns a screen of its own.
    pub proof fn lemma_history(&self)
        requires
            self.wf(),
        ensures
            teardown_ok(self.log()),
            frames_ok(self.log()),
            open_in(self.log()) == self.in_frame(),
            live_count(self.log()) == slot_bound(self.slot(ScreenId::Top)) + slot_bound(self.slot(ScreenId::Bottom)),
            self.spec_instance_live() ==> self.spec_queue_live(),
            !self.spec_queue_live() ==> live_count(self.log()) == 0,
    {
    }

    /// Inside a frame exactly one screen's target receives draws; outside
    /// a frame none does.
    pub proof fn lemma_active_unique(&self)
        requires
            self.wf(),
        ensures
            self.in_frame() <==> open_in(self.log()),
            self.in_frame() ==> exists|id: ScreenId| self.spec_active() == Some(id),
            forall|a: ScreenId, b: ScreenId|
                self.spec_active() == Some(a) && self.spec_active() == Some(b) ==> a == b,
            !self.in_frame() ==> self.spec_active().is_none(),
    {
        if self.in_frame() {
            let id = self.spec_active().unwrap();
            assert(self.spec_active() == Some(id));
        }
    }

    /// Screen exclusivity: two live targets on the same screen are the same target.
    pub proof fn lemma_screen_exclusive(&self, id1: ScreenId, raw1: usize, id2: ScreenId, raw2: usize)
        requires
            self.owns(id1, raw1),
            self.owns(id2, raw2),
            raw1 != raw2,
        ensures
            id1 != id2,
    {
    }

    /// Whether `c` leaves frames, live targets and teardown alone.
    pub open spec fn neutral(c: Call) -> bool {
        !(c is FrameBegin || c is FrameEnd || c is TargetCreate || c is TargetDelete || c is Fini)
    }

    proof fn lemma_push_neutral(log: Seq<Call>, c: Call)
        requires
            Self::neutral(c),
        ensures
            open_in(log.push(c)) == open_in(log),
            frames_ok(log.push(c)) == frames_ok(log),
            live_count(log.push(c)) == live_count(log),
            teardown_ok(log.push(c)) == teardown_ok(log),
    {
        lemma_push(log, c);
    }

    /// `C3D_Init`; on success an instance holds the context and the queue is up.
    pub(crate) fn start_instance(&mut self, size: usize) -> (ok: bool)
        requires
            old(self).wf(),
            !old(self).spec_instance_live(),
        ensures
            final(self).wf(),
            final(self).log() == old(self).log().push(Call::Init { size, ok }),
            final(self).spec_instance_live() == ok,
            final(self).spec_queue_live() == (ok || old(self).spec_queue_live()),
            final(self).spec_active() == old(self).spec_active(),
            forall|o: ScreenId| final(self).slot(o) == old(self).slot(o),
    {
        let ok = self.backend.init(size);
        proof {
            Self::lemma_push_neutral(self.log@, Call::Init { size, ok });
            self.log@ = self.log@.push(Call::Init { size, ok });
        }
        if ok {
            self.instance_live = true;
            self.queue_live = true;
        }
        ok
    }

    /// `C3D_Fini`, when nothing holds the queue any more.
    fn fini_if_unused(&mut self)
        requires
            old(self).history_ok(),
            !old(self).spec_instance_live(),
            old(self).spec_queue_live(),
        ensures
            final(self).wf(),
            final(self).log() == (if !(old(self).slot(ScreenId::Top) is Bound)
                && !(old(self).slot(ScreenId::Bottom) is Bound) {
                old(self).log().push(Call::Fini)
            } else {
                old(self).log()
            }),
            final(self).spec_queue_live() == (old(self).slot(ScreenId::Top) is Bound || old(self).slot(ScreenId::Bottom) is Bound),
            final(self).spec_instance_live() == old(self).spec_instance_live(),
            final(self).spec_active() == old(self).spec_active(),
            forall|o: ScreenId| final(self).slot(o) == old(self).slot(o),
    {
        if !self.top.is_bound() && !self.bottom.is_bound() {
            self.backend.fini();
            proof {
                lemma_push(self.log@, Call::Fini);
                self.log@ = self.log@.push(Call::Fini);
            }
            self.queue_live = false;
        }
    }

    /// The instance lets go of the context; the queue is torn down unless a
    /// target still holds it.
    pub(crate) fn end_instance(&mut self)
        requires
            old(self).wf(),
            old(self).spec_instance_live(),
        ensures
            final(self).wf(),
            final(self).log() == (if !(old(self).slot(ScreenId::Top) is Bound)
                && !(old(self).slot(ScreenId::Bottom) is Bound) {
                old(self).log().push(Call::Fini)
            } else {
                old(self).log()
            }),
            final(self).spec_queue_live() == (old(self).slot(ScreenId::Top) is Bound || old(self).slot(ScreenId::Bottom) is Bound),
            !final(self).spec_instance_live(),
            final(self).spec_active() == old(self).spec_active(),
            forall|o: ScreenId| final(self).slot(o) == old(self).slot(o),
    {
        self.instance_live = false;
        self.fini_if_unused();
    }

    /// Whether `raw` is the live target that owns screen `id`.
    pub open spec fn owns(&self, id: ScreenId, raw: usize) -> bool {
        self.slot(id) == Slot::Bound(raw)
    }

    /// The parts of the state that only frames and targets change are as in `other`.
    pub open spec fn same_queue(&self, other: Self) -> bool {
        &&& self.spec_queue_live() == other.spec_queue_live()
        &&& self.spec_instance_live() == other.spec_instance_live()
        &&& forall|o: ScreenId| self.slot(o) == other.slot(o)
    }

    /// `C3D_RenderTargetCreate` on the held screen `id`, then
    /// `C3D_RenderTargetSetOutput` when the target was created; the target
    /// then owns the screen.
    pub(crate) fn create_target(
        &mut self,
        width: i16,
        height: i16,
        color: ColorFormat,
        depth: Option<DepthFormat>,
        id: ScreenId,
        side: Side,
    ) -> (raw: usize)
        requires
            old(self).wf(),
            old(self).spec_instance_live(),
            old(self).slot(id) == Slot::Held,
        ensures
            final(self).wf(),
            final(self).log() == (if raw == 0 {
                old(self).log().push(Call::TargetCreate {
                    width, height, color_buf: color_format_raw(color), depth_buf: depth_format_raw(depth) as i32, result: raw,
                })
            } else {
                old(self).log().push(Call::TargetCreate {
                    width, height, color_buf: color_format_raw(color), depth_buf: depth_format_raw(depth) as i32, result: raw,
                }).push(Call::TargetSetOutput {
                    target: raw, screen: id, side, transfer: transfer_flags_of(transfer_format_of(color)),
                })
            }),
            final(self).slot(id) == (if raw == 0 { Slot::Held } else { Slot::Bound(raw) }),
            forall|o: ScreenId| o != id ==> final(self).slot(o) == old(self).slot(o),
            final(self).spec_queue_live() == old(self).spec_queue_live(),
            final(self).spec_instance_live() == old(self).spec_instance_live(),
            final(self).spec_active() == old(self).spec_active(),
    {
        let color_buf = color.as_raw();
        let depth_buf = DepthFormat::as_raw(depth);
        let raw = self.backend.target_create(width, height, color_buf, depth_buf);
        let ghost c = Call::TargetCreate { width, height, color_buf, depth_buf, result: raw };
        proof {
            lemma_push(self.log@, c);
            self.log@ = self.log@.push(c);
        }
        if raw != 0 {
            let transfer = transfer_flags(color);
            self.backend.target_set_output(raw, id, side, transfer);
            proof {
                let o = Call::TargetSetOutput { target: raw, screen: id, side, transfer };
                Self::lemma_push_neutral(self.log@, o);
                self.log@ = self.log@.push(o);
            }
            match id {
                ScreenId::Top => self.top = Slot::Bound(raw),
                ScreenId::Bottom => self.bottom = Slot::Bound(raw),
            }
        }
        raw
    }

    /// `C3D_RenderTargetDelete` on the target that owns screen `id`; the
    /// screen is free again, and the queue is torn down when nothing else
    /// holds it.
    pub(crate) fn delete_target(&mut self, id: ScreenId, raw: usize)
        requires
            old(self).wf(),
            old(self).owns(id, raw),
        ensures
            final(self).wf(),
            final(self).log() == (if !old(self).spec_instance_live() && !(old(self).slot(id.other()) is Bound) {
                old(self).log().push(Call::TargetDelete { target: raw }).push(Call::Fini)
            } else {
                old(self).log().push(Call::TargetDelete { target: raw })
            }),
            final(self).slot(id) == Slot::Free,
            forall|o: ScreenId| o != id ==> final(self).slot(o) == old(self).slot(o),
            final(self).spec_instance_live() == old(self).spec_instance_live(),
            final(self).spec_active() == old(self).spec_active(),
    {
        self.backend.target_delete(raw);
        proof {
            lemma_push(self.log@, Call::TargetDelete { target: raw });
            self.log@ = self.log@.push(Call::TargetDelete { target: raw });
        }
        match id {
            ScreenId::Top => self.top = Slot::Free,
            ScreenId::Bottom => self.bottom = Slot::Free,
        }
        if !self.instance_live {
            self.fini_if_unused();
        }
    }

    /// `C3D_FrameBegin` with the flag that waits for the previous frame's
    /// draws; draws go to the target of screen `id` from now on.
    pub(crate) fn open_frame(&mut self, id: ScreenId)
        requires
            old(self).wf(),
            !old(self).in_frame(),
        ensures
            final(self).wf(),
            final(self).log() == old(self).log().push(Call::FrameBegin { flags: FRAME_SYNCDRAW }),
            final(self).spec_active() == Some(id),
            final(self).same_queue(*old(self)),
    {
        let _ = self.backend.frame_begin(FRAME_SYNCDRAW);
        proof {
            lemma_push(self.log@, Call::FrameBegin { flags: FRAME_SYNCDRAW });
            self.log@ = self.log@.push(Call::FrameBegin { flags: FRAME_SYNCDRAW });
        }
        self.active = Some(id);
    }

    /// `C3D_FrameEnd`.
    pub(crate) fn close_frame(&mut self)
        requires
            old(self).wf(),
            old(self).in_frame(),
        ensures
            final(self).wf(),
            final(self).log() == old(self).log().push(Call::FrameEnd { flags: 0 }),
            final(self).spec_active().is_none(),
            final(self).same_queue(*old(self)),
    {
        self.backend.frame_end(0);
        proof {
            lemma_push(self.log@, Call::FrameEnd { flags: 0 });
            self.log@ = self.log@.push(Call::FrameEnd { flags: 0 });
        }
        self.active = None;
    }

    /// Draws now go to the target of screen `id`.
    pub(crate) fn set_active(&mut self, id: ScreenId)
        requires
            old(self).wf(),
            old(self).in_frame(),
        ensures
            final(self).wf(),
            final(self).log() == old(self).log(),
            final(self).spec_active() == Some(id),
            final(self).same_queue(*old(self)),
    {
        self.active = Some(id);
    }

    /// `C3D_FrameDrawOn`: whether the target can be drawn on.
    pub(crate) fn draw_on(&mut self, target: usize) -> (ok: bool)
        requires
            old(self).wf(),
        ensures
            final(self).wf(),
            final(self).log() == old(self).log().push(Call::FrameDrawOn { target, ok }),
            final(self).spec_active() == old(self).spec_active(),
            final(self).same_queue(*old(self)),
    {
        let ok = self.backend.frame_draw_on(target);
        proof {
            Self::lemma_push_neutral(self.log@, Call::FrameDrawOn { target, ok });
            self.log@ = self.log@.push(Call::FrameDrawOn { target, ok });
        }
        ok
    }

    /// `C3D_RenderTargetClear`.
    pub(crate) fn clear(&mut self, target: usize, flags: u8, rgba: u32, depth_value: u32)
        requires
            old(self).wf(),
        ensures
            final(self).wf(),
            final(self).log() == old(self).log().push(Call::TargetClear { target, flags, rgba, depth_value }),
            final(self).spec_active() == old(self).spec_active(),
            final(self).same_queue(*old(self)),
    {
        self.backend.target_clear(target, flags, rgba, depth_value);
        proof {
            Self::lemma_push_neutral(self.log@, Call::TargetClear { target, flags, rgba, depth_value });
            self.log@ = self.log@.push(Call::TargetClear { target, flags, rgba, depth_value });
        }
    }

    /// `C2D_TargetClear`.
    pub(crate) fn clear_2d(&mut self, target: usize, color: u32)
        requires
            old(self).wf(),
        ensures
            final(self).wf(),
            final(self).log() == old(self).log().push(Call::TargetClear2d { target, color }),
            final(self).spec_active() == old(self).spec_active(),
            final(self).same_queue(*old(self)),
    {
        self.backend.target_clear_2d(target, color);
        proof {
            Self::lemma_push_neutral(self.log@, Call::TargetClear2d { target, color });
            self.log@ = self.log@.push(Call::TargetClear2d { target, color });
        }
    }

    /// `C3D_SetBufInfo`.
    pub(crate) fn set_buf_info(&mut self, info: usize)
        requires
            old(self).wf(),
        ensures
            final(self).wf(),
            final(self).log() == old(self).log().push(Call::SetBufInfo { info }),
            final(self).spec_active() == old(self).spec_active(),
            final(self).same_queue(*old(self)),
    {
        self.backend.set_buf_info(info);
        proof {
            Self::lemma_push_neutral(self.log@, Call::SetBufInfo { info });
            self.log@ = self.log@.push(Call::SetBufInfo { info });
        }
    }

    /// `C3D_SetAttrInfo`.
    pub(crate) fn set_attr_info(&mut self, info: usize)
        requires
            old(self).wf(),
        ensures
            final(self).wf(),
            final(self).log() == old(self).log().push(Call::SetAttrInfo { info }),
            final(self).spec_active() == old(self).spec_active(),
            final(self).same_queue(*old(self)),
    {
        self.backend.set_attr_info(info);
        proof {
            Self::lemma_push_neutral(self.log@, Call::SetAttrInfo { info });
            self.log@ = self.log@.push(Call::SetAttrInfo { info });
        }
    }

    /// `C3D_DrawArrays`.
    pub(crate) fn draw_arrays(&mut self, primitive: Primitive, first: i32, count: i32)
        requires
            old(self).wf(),
        ensures
            final(self).wf(),
            final(self).log() == old(self).log().push(Call::DrawArrays { primitive, first, count }),
            final(self).spec_active() == old(self).spec_active(),
            final(self).same_queue(*old(self)),
    {
        self.backend.draw_arrays(primitive, first, count);
        proof {
            Self::lemma_push_neutral(self.log@, Call::DrawArrays { primitive, first, count });
            self.log@ = self.log@.push(Call::DrawArrays { primitive, first, count });
        }
    }

    /// `C3D_DrawElements`.
    pub(crate) fn draw_elements(&mut self, primitive: Primitive, count: i32, kind: IndexKind, indices: usize)
        requires
            old(self).wf(),
        ensures
            final(self).wf(),
            final(self).log() == old(self).log().push(Call::DrawElements { primitive, count, kind, indices }),
            final(self).spec_active() == old(self).spec_active(),
            final(self).same_queue(*old(self)),
    {
        self.backend.draw_elements(primitive, count, kind, indices);
        proof {
            Self::lemma_push_neutral(self.log@, Call::DrawElements { primitive, count, kind, indices });
            self.log@ = self.log@.push(Call::DrawElements { primitive, count, kind, indices });
        }
    }

    /// `C3D_BindProgram`.
    pub(crate) fn bind_program(&mut self, program: usize)
        requires
            old(self).wf(),
        ensures
            final(self).wf(),
            final(self).log() == old(self).log().push(Call::BindProgram { program }),
            final(self).spec_active() == old(self).spec_active(),
            final(self).same_queue(*old(self)),
    {
        self.backend.bind_program(program);
        proof {
            Self::lemma_push_neutral(self.log@, Call::BindProgram { program });
            self.log@ = self.log@.push(Call::BindProgram { program });
        }
    }

    /// `C3D_LightEnvBind`.
    pub(crate) fn light_env_bind(&mut self, env: usize)
        requires
            old(self).wf(),
        ensures
            final(self).wf(),
            final(self).log() == old(self).log().push(Call::LightEnvBind { env }),
            final(self).spec_active() == old(self).spec_active(),
            final(self).same_queue(*old(self)),
    {
        self.backend.light_env_bind(env);
        proof {
            Self::lemma_push_neutral(self.log@, Call::LightEnvBind { env });
            self.log@ = self.log@.push(Call::LightEnvBind { env });
        }
    }

    /// `C3D_TexEnvInit`.
    pub(crate) fn texenv_init(&mut self, stage: usize)
        requires
            old(self).wf(),
        ensures
            final(self).wf(),
            final(self).log() == old(self).log().push(Call::TexEnvInit { stage }),
            final(self).spec_active() == old(self).spec_active(),
            final(self).same_queue(*old(self)),
    {
        self.backend.texenv_init(stage);
        proof {
            Self::lemma_push_neutral(self.log@, Call::TexEnvInit { stage });
            self.log@ = self.log@.push(Call::TexEnvInit { stage });
        }
    }

    fn set_slot(&mut self, id: ScreenId, s: Slot)
        requires
            old(self).wf(),
            (old(self).slot(id) is Bound) == (s is Bound),
        ensures
            final(self).wf(),
            final(self).slot(id) == s,
            final(self).same_but_screen(*old(self), id),
    {
        match id {
            ScreenId::Top => self.top = s,
            ScreenId::Bottom => self.bottom = s,
        }
    }
}

} // verus!
