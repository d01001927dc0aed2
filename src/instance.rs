//! The single instance through which an application uses the GPU: it sets up
//! the command queue, creates targets, and opens the frames that draw on them.

use vstd::prelude::*;
use crate::error::Error;
use crate::gpu::{lemma_prefix_push, lemma_prefix_trans, Backend, Call, Gpu, IndexKind, Primitive, Screen, ScreenId, Side, Slot, FRAME_SYNCDRAW};
use crate::render::{
    color_format_of, color_format_raw, depth_format_raw, transfer_flags_of, transfer_format_of,
    ColorFormat, DepthFormat, FramebufferFormat, RenderTarget, ScreenTarget,
};

verus! {

/// Number of texture environment stages.
pub const TEXENV_COUNT: usize = 6;

/// Command buffer size that the native library uses by default.
pub const DEFAULT_CMDBUF_SIZE: usize = 0x40000;

/// Largest width or height of a target: dimensions travel as `i16`.
pub const MAX_DIMENSION: usize = 0x7fff;

/// A texture environment stage, below [`TEXENV_COUNT`].
#[derive(Clone, Copy, Debug, PartialEq, Eq, Structural)]
pub struct Stage(usize);

impl Stage {
    #[verifier::type_invariant]
    spec fn in_range(&self) -> bool {
        self.0 < TEXENV_COUNT
    }

    pub closed spec fn index(self) -> usize {
        self.0
    }

    /// The stage `index`, when it exists.
    pub fn new(index: usize) -> (r: Option<Stage>)
        ensures
            r.is_some() == (index < TEXENV_COUNT),
            r.is_some() ==> r.unwrap().index() == index,
    {
        if index < TEXENV_COUNT {
            Some(Stage(index))
        } else {
            None
        }
    }
}

/// The texture environment of one stage, set up on first access.
#[derive(Clone, Copy, Debug, PartialEq, Eq, Structural)]
pub struct TexEnv {
    pub stage: usize,
}

/// A block of native lighting state at a stable address. The native library
/// keeps that address while the environment is bound.
#[derive(Debug, PartialEq, Eq, Structural)]
pub struct LightEnv {
    pub raw: usize,
}

/// A shader program, by the address of its native state.
#[derive(Clone, Copy, Debug, PartialEq, Eq, Structural)]
pub struct Program {
    pub raw: usize,
}

/// Vertex buffer information, by the address of its native state.
#[derive(Clone, Copy, Debug, PartialEq, Eq, Structural)]
pub struct BufferInfo {
    pub raw: usize,
}

/// Vertex attribute information, by the address of its native state.
#[derive(Clone, Copy, Debug, PartialEq, Eq, Structural)]
pub struct AttrInfo {
    pub raw: usize,
}

/// A run of vertices in a vertex buffer.
#[derive(Clone, Copy, Debug, PartialEq, Eq, Structural)]
pub struct Slice {
    pub info: BufferInfo,
    pub index: i32,
    pub len: i32,
}

/// An index buffer in memory that the GPU reads directly. It must stay
/// alive until the current frame ends.
#[derive(Clone, Copy, Debug, PartialEq, Eq, Structural)]
pub struct Indices {
    pub addr: usize,
    pub len: usize,
    pub kind: IndexKind,
}

/// The single instance for using the GPU.
pub struct Instance<B: Backend> {
    gpu: Gpu<B>,
    texenvs: Vec<bool>,
    light_env: Option<Box<LightEnv>>,
}

impl<B: Backend> Instance<B> {
    /// The instance holds a well-formed context, marked as held by an instance.
    pub closed spec fn inv(&self) -> bool {
        &&& self.gpu.wf()
        &&& self.gpu.spec_instance_live()
        &&& self.texenvs.len() == TEXENV_COUNT
    }

    pub closed spec fn spec_gpu(&self) -> Gpu<B> {
        self.gpu
    }

    /// Whether the texture environment of `stage` is set up.
    pub closed spec fn texenv_ready(&self, stage: int) -> bool {
        self.texenvs@[stage]
    }

    /// Texture environments and light environment are as in `other`.
    pub closed spec fn same_extras(&self, other: Self) -> bool {
        &&& self.texenvs@ == other.texenvs@
        &&& self.light_env == other.light_env
    }

    pub closed spec fn spec_light_env(&self) -> Option<Box<LightEnv>> {
        self.light_env
    }

    /// Every native call made so far.
    pub open spec fn log(&self) -> Seq<Call> {
        self.spec_gpu().log()
    }

    /// Whether a frame is open.
    pub open spec fn in_frame(&self) -> bool {
        self.spec_gpu().in_frame()
    }

    /// Whether `t` is the live target that owns its screen.
    pub open spec fn owns(&self, t: RenderTarget) -> bool {
        self.spec_gpu().owns(t.spec_screen().spec_id(), t.spec_raw())
    }

    /// Queue, screens, active target, texture environments and light
    /// environment are as in `other`.
    pub open spec fn same_state(&self, other: Self) -> bool {
        &&& self.spec_gpu().same_queue(other.spec_gpu())
        &&& self.spec_gpu().spec_active() == other.spec_gpu().spec_active()
        &&& forall|k: int| 0 <= k < TEXENV_COUNT ==> self.texenv_ready(k) == other.texenv_ready(k)
        &&& self.spec_light_env() == other.spec_light_env()
    }

    /// Initialize the instance with the default command buffer size.
    pub fn new(gpu: Gpu<B>) -> (r: Result<Instance<B>, (Gpu<B>, Error)>)
        requires
            gpu.wf(),
            !gpu.spec_instance_live(),
        ensures
            Self::init_outcome(gpu, DEFAULT_CMDBUF_SIZE, r),
    {
        Self::with_cmdbuf_size(gpu, DEFAULT_CMDBUF_SIZE)
    }

    /// What initialization with `size` on `gpu` gives: an instance exactly
    /// when the native library set up its queue, else the context back.
    pub open spec fn init_outcome(gpu: Gpu<B>, size: usize, r: Result<Instance<B>, (Gpu<B>, Error)>) -> bool {
        match r {
            Ok(i) => {
                &&& i.inv()
                &&& i.log() == gpu.log().push(Call::Init { size, ok: true })
                &&& i.spec_gpu().spec_queue_live()
                &&& i.spec_gpu().spec_active() == gpu.spec_active()
                &&& forall|o: ScreenId| i.spec_gpu().slot(o) == gpu.slot(o)
                &&& forall|k: int| 0 <= k < TEXENV_COUNT ==> !i.texenv_ready(k)
                &&& i.spec_light_env().is_none()
            },
            Err((g, e)) => {
                &&& e == Error::FailedToInitialize
                &&& g.wf()
                &&& g.log() == gpu.log().push(Call::Init { size, ok: false })
                &&& !g.spec_instance_live()
                &&& g.spec_queue_live() == gpu.spec_queue_live()
                &&& g.spec_active() == gpu.spec_active()
                &&& forall|o: ScreenId| g.slot(o) == gpu.slot(o)
            },
        }
    }

    /// Initialize the instance with a specified command buffer size.
    pub fn with_cmdbuf_size(gpu: Gpu<B>, size: usize) -> (r: Result<Instance<B>, (Gpu<B>, Error)>)
        requires
            gpu.wf(),
            !gpu.spec_instance_live(),
        ensures
            Self::init_outcome(gpu, size, r),
    {
        let mut gpu = gpu;
        if gpu.start_instance(size) {
            let texenvs: Vec<bool> = vec![false; TEXENV_COUNT];
            Ok(Instance { gpu, texenvs, light_env: None })
        } else {
            Err((gpu, Error::FailedToInitialize))
        }
    }

    /// Ends the instance and hands the context back. The command queue is
    /// torn down now if no target holds it, else when the last target is released.
    pub fn release(self) -> (r: Gpu<B>)
        requires
            self.inv(),
        ensures
            r.wf(),
            !r.spec_instance_live(),
            r.log() == (if !(self.spec_gpu().slot(ScreenId::Top) is Bound)
                && !(self.spec_gpu().slot(ScreenId::Bottom) is Bound) {
                self.log().push(Call::Fini)
            } else {
                self.log()
            }),
            r.spec_queue_live() == (self.spec_gpu().slot(ScreenId::Top) is Bound
                || self.spec_gpu().slot(ScreenId::Bottom) is Bound),
            forall|o: ScreenId| r.slot(o) == self.spec_gpu().slot(o),
    {
        let mut gpu = self.gpu;
        gpu.end_instance();
        gpu
    }

    /// The context that the instance holds.
    pub fn gpu(&self) -> (r: &Gpu<B>)
        ensures
            *r == self.spec_gpu(),
    {
        &self.gpu
    }

    /// Borrows screen `id` as [`Gpu::borrow_screen`] does.
    pub fn borrow_screen(&mut self, id: ScreenId, side: Side, format: FramebufferFormat) -> (r: Option<Screen>)
        requires
            old(self).inv(),
        ensures
            final(self).inv(),
            r.is_some() == (old(self).spec_gpu().slot(id) == Slot::Free),
            r.is_some() ==> ({
                let s = r.unwrap();
                s.spec_id() == id && s.spec_side() == side && s.spec_format() == format
            }),
            final(self).spec_gpu().slot(id) == (if r.is_some() { Slot::Held } else { old(self).spec_gpu().slot(id) }),
            final(self).spec_gpu().same_but_screen(old(self).spec_gpu(), id),
            final(self).same_extras(*old(self)),
    {
        self.gpu.borrow_screen(id, side, format)
    }

    /// Create a render target of `width` by `height` on `screen`, with a
    /// color buffer that matches the screen's framebuffer format and an
    /// optional depth buffer; output goes to the screen's side.
    ///
    /// Fails with [`Error::Overflow`] when a dimension exceeds
    /// [`MAX_DIMENSION`], and with [`Error::CreationFailed`] when the screen
    /// is not held from this context or the native library creates no target.
    /// On failure the screen borrow is given back.
    pub fn create_screen_target(
        &mut self,
        width: usize,
        height: usize,
        screen: Screen,
        depth_format: Option<DepthFormat>,
    ) -> (r: Result<ScreenTarget, Error>)
        requires
            old(self).inv(),
        ensures
            final(self).inv(),
            final(self).spec_gpu().spec_active() == old(self).spec_gpu().spec_active(),
            final(self).spec_gpu().spec_queue_live() == old(self).spec_gpu().spec_queue_live(),
            forall|o: ScreenId| o != screen.spec_id() ==> final(self).spec_gpu().slot(o) == old(self).spec_gpu().slot(o),
            final(self).same_extras(*old(self)),
            Self::create_outcome(*old(self), *final(self), width, height, screen, depth_format, r),
    {
        let id = screen.id();
        let held = self.gpu.screen_slot(id) == Slot::Held;
        if width > MAX_DIMENSION || height > MAX_DIMENSION {
            self.gpu.return_screen(screen);
            return Err(Error::Overflow);
        }
        if !held {
            return Err(Error::CreationFailed);
        }
        let color = ColorFormat::from_framebuffer(screen.framebuffer_format());
        let raw = self.gpu.create_target(width as i16, height as i16, color, depth_format, id, screen.side());
        if raw == 0 {
            self.gpu.return_screen(screen);
            Err(Error::CreationFailed)
        } else {
            Ok(ScreenTarget::from_inner(RenderTarget::new(raw, screen, color, depth_format)))
        }
    }

    /// The log and the slot of `screen` after creating a target: see
    /// [`Instance::create_screen_target`].
    pub open spec fn create_outcome(
        pre: Self,
        post: Self,
        width: usize,
        height: usize,
        screen: Screen,
        depth_format: Option<DepthFormat>,
        r: Result<ScreenTarget, Error>,
    ) -> bool {
        let id = screen.spec_id();
        let color = color_format_of(screen.spec_format());
        let create = |raw: usize| Call::TargetCreate {
            width: width as i16,
            height: height as i16,
            color_buf: color_format_raw(color),
            depth_buf: depth_format_raw(depth_format) as i32,
            result: raw,
        };
        if width > MAX_DIMENSION || height > MAX_DIMENSION {
            &&& r == Err::<ScreenTarget, Error>(Error::Overflow)
            &&& post.log() == pre.log()
            &&& post.spec_gpu().slot(id) == (if pre.spec_gpu().slot(id) == Slot::Held { Slot::Free } else { pre.spec_gpu().slot(id) })
        } else if pre.spec_gpu().slot(id) != Slot::Held {
            &&& r == Err::<ScreenTarget, Error>(Error::CreationFailed)
            &&& post.log() == pre.log()
            &&& post.spec_gpu().slot(id) == pre.spec_gpu().slot(id)
        } else {
            match r {
                Ok(t) => {
                    let raw = t.inner().spec_raw();
                    &&& raw != 0
                    &&& t.inner().spec_screen() == screen
                    &&& t.inner().spec_color_format() == color
                    &&& t.inner().spec_depth_format() == depth_format
                    &&& post.log() == pre.log().push(create(raw)).push(Call::TargetSetOutput {
                        target: raw,
                        screen: id,
                        side: screen.spec_side(),
                        transfer: transfer_flags_of(transfer_format_of(color)),
                    })
                    &&& post.spec_gpu().slot(id) == Slot::Bound(raw)
                },
                Err(e) => {
                    &&& e == Error::CreationFailed
                    &&& post.log() == pre.log().push(create(0))
                    &&& post.spec_gpu().slot(id) == Slot::Free
                },
            }
        }
    }

    /// Activates `target` inside the open frame: `C3D_FrameDrawOn` when the
    /// target is the live one of its screen. Fails with
    /// [`Error::InvalidRenderTarget`] otherwise, or when the native call refuses.
    fn draw_on(&mut self, target: &RenderTarget) -> (r: Result<(), Error>)
        requires
            old(self).inv(),
            old(self).in_frame(),
        ensures
            final(self).inv(),
            final(self).same_state(*old(self)),
            final(self).same_extras(*old(self)),
            old(self).owns(*target) ==> exists|ok: bool| {
                &&& final(self).log() == old(self).log().push(Call::FrameDrawOn { target: target.spec_raw(), ok })
                &&& r.is_ok() == ok
            },
            !old(self).owns(*target) ==> final(self).log() == old(self).log(),
            r.is_err() ==> r == Err::<(), Error>(Error::InvalidRenderTarget),
            r.is_ok() ==> old(self).owns(*target),
    {
        let id = target.screen().id();
        let raw = target.as_raw();
        if self.gpu.screen_slot(id) != Slot::Bound(raw) {
            return Err(Error::InvalidRenderTarget);
        }
        if self.gpu.draw_on(raw) {
            Ok(())
        } else {
            Err(Error::InvalidRenderTarget)
        }
    }

    /// Render a frame.
    ///
    /// Begins a frame that waits for the previous frame's draws, and makes
    /// `target` the target that draws go to. `f` then receives the instance
    /// and the active target, and must hand back the target that is active
    /// when it returns, with a value of its own. The frame ends on every path
    /// out: if `target` cannot be drawn on, the frame is ended, the target is
    /// deleted, and [`Error::InvalidRenderTarget`] comes back.
    pub fn render_to_target<F, T>(&mut self, target: ScreenTarget, f: F) -> (r: Result<(ScreenTarget, T), Error>)
        where
            F: FnOnce(&mut Instance<B>, RenderTarget) -> (RenderTarget, T),
        requires
            old(self).inv(),
            !old(self).in_frame(),
            forall|i: &mut Instance<B>, t: RenderTarget| i.inv() && i.in_frame() ==> f.requires((i, t)),
            forall|i: &mut Instance<B>, t: RenderTarget, out: (RenderTarget, T)|
                #[trigger] f.ensures((i, t), out) ==> {
                    &&& final(i).inv()
                    &&& final(i).in_frame()
                    &&& i.log().is_prefix_of(final(i).log())
                },
        ensures
            final(self).inv(),
            !final(self).in_frame(),
            final(self).log().len() > old(self).log().len() + 1,
            final(self).log()[old(self).log().len() as int] == (Call::FrameBegin { flags: FRAME_SYNCDRAW }),
            old(self).log().is_prefix_of(final(self).log()),
            ({
                let t = target.inner();
                let raw = t.spec_raw();
                let begun = old(self).log().push(Call::FrameBegin { flags: FRAME_SYNCDRAW });
                match r {
                    Ok((st, v)) => {
                        &&& exists|i: &mut Instance<B>, out: (RenderTarget, T)|
                            #[trigger] f.ensures((i, t), out) && out.0 == st.inner() && out.1 == v
                        &&& old(self).owns(t)
                        &&& begun.push(Call::FrameDrawOn { target: raw, ok: true }).is_prefix_of(final(self).log())
                        &&& final(self).log().last() == (Call::FrameEnd { flags: 0 })
                    },
                    Err(e) => {
                        &&& e == Error::InvalidRenderTarget
                        &&& final(self).log() == (if old(self).owns(t) {
                            begun.push(Call::FrameDrawOn { target: raw, ok: false })
                                .push(Call::FrameEnd { flags: 0 })
                                .push(Call::TargetDelete { target: raw })
                        } else {
                            begun.push(Call::FrameEnd { flags: 0 })
                        })
                        &&& old(self).owns(t) ==> final(self).spec_gpu().slot(t.spec_screen().spec_id()) == Slot::Free
                        &&& final(self).same_extras(*old(self))
                    },
                }
            }),
    {
        let id = target.get_inner_ref().screen().id();
        self.gpu.open_frame(id);
        let ghost begun = self.gpu.log();
        match self.draw_on(target.get_inner_ref()) {
            Ok(()) => {},
            Err(e) => {
                let owned = self.gpu.screen_slot(id) == Slot::Bound(target.get_inner_ref().as_raw());
                self.gpu.close_frame();
                if owned {
                    let (raw, _screen) = target.into_inner().into_parts();
                    self.gpu.delete_target(id, raw);
                }
                return Err(e);
            },
        }
        let ghost mid = self.gpu.log();
        let (active, value) = f(self, target.into_inner());
        let ghost after = self.log();
        self.gpu.close_frame();
        proof {
            lemma_prefix_push(old(self).log(), Call::FrameBegin { flags: FRAME_SYNCDRAW });
            lemma_prefix_push(begun, mid.last());
            lemma_prefix_push(after, Call::FrameEnd { flags: 0 });
            lemma_prefix_trans(begun, mid, after);
            lemma_prefix_trans(mid, after, self.log());
            lemma_prefix_trans(old(self).log(), begun, self.log());
        }
        Ok((ScreenTarget::from_inner(active), value))
    }

    /// Change the render target for drawing the frame: `new_target` becomes
    /// the active one and `old_target` passive. Nothing changes on failure:
    /// both targets come back with [`Error::InvalidRenderTarget`], when
    /// `new_target` is not the live target of its screen or cannot be drawn on.
    pub fn swap_render_target(
        &mut self,
        old_target: RenderTarget,
        new_target: ScreenTarget,
    ) -> (r: Result<(ScreenTarget, RenderTarget), (RenderTarget, ScreenTarget, Error)>)
        requires
            old(self).inv(),
            old(self).in_frame(),
        ensures
            final(self).inv(),
            final(self).in_frame(),
            final(self).spec_gpu().same_queue(old(self).spec_gpu()),
            final(self).same_extras(*old(self)),
            old(self).owns(new_target.inner()) ==> exists|ok: bool|
                final(self).log() == old(self).log().push(Call::FrameDrawOn { target: new_target.inner().spec_raw(), ok })
                && r.is_ok() == ok,
            !old(self).owns(new_target.inner()) ==> final(self).log() == old(self).log() && r.is_err(),
            match r {
                Ok((passive, active)) => {
                    &&& passive.inner() == old_target
                    &&& active == new_target.inner()
                    &&& final(self).spec_gpu().spec_active() == Some(new_target.inner().spec_screen().spec_id())
                },
                Err((a, b, e)) => {
                    &&& a == old_target
                    &&& b == new_target
                    &&& e == Error::InvalidRenderTarget
                    &&& final(self).spec_gpu().spec_active() == old(self).spec_gpu().spec_active()
                },
            },
    {
        match self.draw_on(new_target.get_inner_ref()) {
            Ok(()) => {
                let id = new_target.get_inner_ref().screen().id();
                self.gpu.set_active(id);
                Ok((ScreenTarget::from_inner(old_target), new_target.into_inner()))
            },
            Err(e) => Err((old_target, new_target, e)),
        }
    }

    /// Deletes `target` while the instance lives; the screen is free again.
    /// A target that is not the live one of its screen is left alone.
    pub fn release_target(&mut self, target: ScreenTarget)
        requires
            old(self).inv(),
        ensures
            final(self).inv(),
            final(self).same_extras(*old(self)),
            final(self).spec_gpu().spec_active() == old(self).spec_gpu().spec_active(),
            ({
                let t = target.inner();
                let id = t.spec_screen().spec_id();
                if old(self).owns(t) {
                    &&& final(self).log() == old(self).log().push(Call::TargetDelete { target: t.spec_raw() })
                    &&& final(self).spec_gpu().slot(id) == Slot::Free
                    &&& final(self).spec_gpu().slot(id.other()) == old(self).spec_gpu().slot(id.other())
                } else {
                    &&& final(self).log() == old(self).log()
                    &&& final(self).spec_gpu() == old(self).spec_gpu()
                }
            }),
    {
        let (raw, screen) = target.into_inner().into_parts();
        let id = screen.id();
        if self.gpu.screen_slot(id) == Slot::Bound(raw) {
            self.gpu.delete_target(id, raw);
        }
    }

    /// Set the buffer info to use for any following draw calls.
    pub fn set_buffer_info(&mut self, buffer_info: &BufferInfo)
        requires
            old(self).inv(),
        ensures
            final(self).inv(),
            final(self).log() == old(self).log().push(Call::SetBufInfo { info: buffer_info.raw }),
            final(self).same_state(*old(self)),
            final(self).same_extras(*old(self)),
    {
        self.gpu.set_buf_info(buffer_info.raw);
    }

    /// Set the attribute info to use for any following draw calls.
    pub fn set_attr_info(&mut self, attr_info: &AttrInfo)
        requires
            old(self).inv(),
        ensures
            final(self).inv(),
            final(self).log() == old(self).log().push(Call::SetAttrInfo { info: attr_info.raw }),
            final(self).same_state(*old(self)),
            final(self).same_extras(*old(self)),
    {
        self.gpu.set_attr_info(attr_info.raw);
    }

    /// Render primitives from the vertices of `vbo_data`: its buffer info is
    /// set, then its run of vertices drawn.
    pub fn draw_arrays(&mut self, primitive: Primitive, vbo_data: Slice)
        requires
            old(self).inv(),
            old(self).in_frame(),
        ensures
            final(self).inv(),
            final(self).log() == old(self).log().push(Call::SetBufInfo { info: vbo_data.info.raw }).push(
                Call::DrawArrays { primitive, first: vbo_data.index, count: vbo_data.len },
            ),
            final(self).same_state(*old(self)),
            final(self).same_extras(*old(self)),
    {
        self.set_buffer_info(&vbo_data.info);
        self.gpu.draw_arrays(primitive, vbo_data.index, vbo_data.len);
    }

    /// Indexed drawing: draws the vertices of `vbo_data` in the order that
    /// `indices` gives. Fails with [`Error::Overflow`], drawing nothing, when
    /// the index count does not fit an `i32`.
    pub fn draw_elements(&mut self, primitive: Primitive, vbo_data: Slice, indices: &Indices) -> (r: Result<(), Error>)
        requires
            old(self).inv(),
            old(self).in_frame(),
        ensures
            final(self).inv(),
            final(self).same_state(*old(self)),
            final(self).same_extras(*old(self)),
            r.is_ok() == (indices.len <= i32::MAX),
            r.is_err() ==> r == Err::<(), Error>(Error::Overflow) && final(self).log() == old(self).log(),
            r.is_ok() ==> final(self).log() == old(self).log().push(Call::SetBufInfo { info: vbo_data.info.raw }).push(
                Call::DrawElements { primitive, count: indices.len as i32, kind: indices.kind, indices: indices.addr },
            ),
    {
        if indices.len > i32::MAX as usize {
            return Err(Error::Overflow);
        }
        self.set_buffer_info(&vbo_data.info);
        self.gpu.draw_elements(primitive, indices.len as i32, indices.kind, indices.addr);
        Ok(())
    }

    /// Use `program` for subsequent draw calls.
    pub fn bind_program(&mut self, program: &Program)
        requires
            old(self).inv(),
        ensures
            final(self).inv(),
            final(self).log() == old(self).log().push(Call::BindProgram { program: program.raw }),
            final(self).same_state(*old(self)),
            final(self).same_extras(*old(self)),
    {
        self.gpu.bind_program(program.raw);
    }

    /// Binds a new light environment, or none, returning the previous one.
    /// The native library is told the stable address of the new environment,
    /// or 0 when none is bound.
    pub fn bind_light_env(&mut self, new_env: Option<Box<LightEnv>>) -> (r: Option<Box<LightEnv>>)
        requires
            old(self).inv(),
        ensures
            final(self).inv(),
            r == old(self).spec_light_env(),
            final(self).spec_light_env() == new_env,
            final(self).log() == old(self).log().push(Call::LightEnvBind {
                env: match new_env {
                    Some(e) => e.raw,
                    None => 0,
                },
            }),
            final(self).spec_gpu().same_queue(old(self).spec_gpu()),
            final(self).spec_gpu().spec_active() == old(self).spec_gpu().spec_active(),
            forall|k: int| 0 <= k < TEXENV_COUNT ==> final(self).texenv_ready(k) == old(self).texenv_ready(k),
    {
        let addr = match &new_env {
            Some(e) => e.raw,
            None => 0,
        };
        let mut env = new_env;
        std::mem::swap(&mut self.light_env, &mut env);
        self.gpu.light_env_bind(addr);
        env
    }

    /// The bound light environment, if any.
    pub fn light_env(&self) -> (r: Option<&LightEnv>)
        ensures
            r == match self.spec_light_env() {
                Some(e) => Some(&*e),
                None => None::<&LightEnv>,
            },
    {
        match &self.light_env {
            Some(e) => Some(&**e),
            None => None,
        }
    }

    /// The texture environment of `stage`, set up on first access: the first
    /// access makes one native call, later ones none.
    pub fn texenv(&mut self, stage: Stage) -> (r: TexEnv)
        requires
            old(self).inv(),
        ensures
            final(self).inv(),
            r.stage == stage.index(),
            final(self).texenv_ready(stage.index() as int),
            forall|k: int| 0 <= k < TEXENV_COUNT && k != stage.index() ==> final(self).texenv_ready(k) == old(self).texenv_ready(k),
            final(self).log() == (if old(self).texenv_ready(stage.index() as int) {
                old(self).log()
            } else {
                old(self).log().push(Call::TexEnvInit { stage: stage.index() })
            }),
            final(self).spec_gpu().same_queue(old(self).spec_gpu()),
            final(self).spec_gpu().spec_active() == old(self).spec_gpu().spec_active(),
            final(self).spec_light_env() == old(self).spec_light_env(),
    {
        proof { use_type_invariant(&stage); }
        let i = stage.0;
        if !self.texenvs[i] {
            self.gpu.texenv_init(i);
            self.texenvs.set(i, true);
        }
        TexEnv { stage: i }
    }

    pub(crate) fn clear_target_2d(&mut self, raw: usize, color: u32)
        requires
            old(self).inv(),
        ensures
            final(self).inv(),
            final(self).log() == old(self).log().push(Call::TargetClear2d { target: raw, color }),
            final(self).same_state(*old(self)),
            final(self).same_extras(*old(self)),
    {
        self.gpu.clear_2d(raw, color);
    }

    pub(crate) fn clear_target(&mut self, raw: usize, flags: u8, rgba: u32, depth: u32)
        requires
            old(self).inv(),
        ensures
            final(self).inv(),
            final(self).log() == old(self).log().push(Call::TargetClear { target: raw, flags, rgba, depth_value: depth }),
            final(self).same_state(*old(self)),
            final(self).same_extras(*old(self)),
    {
        self.gpu.clear(raw, flags, rgba, depth);
    }
}

} // verus!
