use std::cell::Cell;
use std::ops::ControlFlow;
use std::rc::Rc;

use citro3d::color::{Color, DrawableResult, MultiColor, TargetExt};
use citro3d::instance::{BufferInfo, Indices, LightEnv, Program, Slice, Stage, DEFAULT_CMDBUF_SIZE};
use citro3d::math::IVec;
use citro3d::render::{transfer_flags, TransferFormat, CLEAR_ALL, CLEAR_COLOR, CLEAR_DEPTH};
use citro3d::{
    Backend, ClearFlags, ColorFormat, DepthFormat, Error, FramebufferFormat, Gpu, IndexKind, Instance,
    Primitive, ScreenId, Side, Slot,
};

#[derive(Debug, Clone, PartialEq)]
enum Ev {
    Init(usize),
    Fini,
    Begin(u8),
    DrawOn(usize),
    End(u8),
    Create(i16, i16, u32, i32),
    SetOutput(usize, ScreenId, Side, u32),
    Clear(usize, u8, u32, u32),
    Delete(usize),
    BufInfo(usize),
    AttrInfo(usize),
    DrawArrays(Primitive, i32, i32),
    DrawElements(Primitive, i32, IndexKind, usize),
    Program(usize),
    LightEnv(usize),
    TexEnv(usize),
    Clear2d(usize, u32),
}

/// A native library in memory: every target holds one color and one depth
/// value for its whole buffer.
struct Sim {
    events: Vec<Ev>,
    init_ok: bool,
    create_ok: bool,
    draw_on_ok: Rc<Cell<bool>>,
    initialised: bool,
    next: usize,
    buffers: Vec<(usize, u32, u32)>,
}

impl Sim {
    fn new() -> Sim {
        Sim {
            events: Vec::new(),
            init_ok: true,
            create_ok: true,
            draw_on_ok: Rc::new(Cell::new(true)),
            initialised: false,
            next: 0x1000,
            buffers: Vec::new(),
        }
    }

    fn buffer(&self, raw: usize) -> (u32, u32) {
        let b = self.buffers.iter().find(|b| b.0 == raw).unwrap();
        (b.1, b.2)
    }
}

impl Backend for Sim {
    fn init(&mut self, cmdbuf_size: usize) -> bool {
        self.events.push(Ev::Init(cmdbuf_size));
        if self.init_ok && !self.initialised {
            self.initialised = true;
            true
        } else {
            false
        }
    }
    fn fini(&mut self) {
        self.events.push(Ev::Fini);
        self.initialised = false;
    }
    fn frame_begin(&mut self, flags: u8) -> bool {
        self.events.push(Ev::Begin(flags));
        true
    }
    fn frame_draw_on(&mut self, target: usize) -> bool {
        self.events.push(Ev::DrawOn(target));
        self.draw_on_ok.get()
    }
    fn frame_end(&mut self, flags: u8) {
        self.events.push(Ev::End(flags));
    }
    fn target_create(&mut self, width: i16, height: i16, color: u32, depth: i32) -> usize {
        self.events.push(Ev::Create(width, height, color, depth));
        if !self.create_ok {
            return 0;
        }
        self.next += 0x100;
        self.buffers.push((self.next, 0, 0));
        self.next
    }
    fn target_set_output(&mut self, target: usize, screen: ScreenId, side: Side, transfer: u32) {
        self.events.push(Ev::SetOutput(target, screen, side, transfer));
    }
    fn target_clear(&mut self, target: usize, flags: u8, color: u32, depth: u32) {
        self.events.push(Ev::Clear(target, flags, color, depth));
        for b in self.buffers.iter_mut() {
            if b.0 == target {
                if flags & 1 != 0 {
                    b.1 = color;
                }
                if flags & 2 != 0 {
                    b.2 = depth;
                }
            }
        }
    }
    fn target_delete(&mut self, target: usize) {
        self.events.push(Ev::Delete(target));
        self.buffers.retain(|b| b.0 != target);
    }
    fn set_buf_info(&mut self, info: usize) {
        self.events.push(Ev::BufInfo(info));
    }
    fn set_attr_info(&mut self, info: usize) {
        self.events.push(Ev::AttrInfo(info));
    }
    fn draw_arrays(&mut self, primitive: Primitive, first: i32, count: i32) {
        self.events.push(Ev::DrawArrays(primitive, first, count));
    }
    fn draw_elements(&mut self, primitive: Primitive, count: i32, kind: IndexKind, indices: usize) {
        self.events.push(Ev::DrawElements(primitive, count, kind, indices));
    }
    fn bind_program(&mut self, program: usize) {
        self.events.push(Ev::Program(program));
    }
    fn light_env_bind(&mut self, env: usize) {
        self.events.push(Ev::LightEnv(env));
    }
    fn texenv_init(&mut self, stage: usize) {
        self.events.push(Ev::TexEnv(stage));
    }
    fn target_clear_2d(&mut self, target: usize, color: u32) {
        self.events.push(Ev::Clear2d(target, color));
    }
}

fn instance_of(sim: Sim) -> Instance<Sim> {
    match Instance::new(Gpu::new(sim)) {
        Ok(i) => i,
        Err(_) => panic!("the simulated library failed to initialise"),
    }
}

fn events(instance: &Instance<Sim>) -> Vec<Ev> {
    instance.gpu().backend().events.clone()
}

#[test]
fn select_render_target() {
    let mut instance = instance_of(Sim::new());
    let top_screen = instance.borrow_screen(ScreenId::Top, Side::Left, FramebufferFormat::Bgr8).unwrap();
    let bottom_screen = instance.borrow_screen(ScreenId::Bottom, Side::Left, FramebufferFormat::Bgr8).unwrap();

    let top_target = instance.create_screen_target(10, 10, top_screen, None).unwrap();
    let bottom_target = instance.create_screen_target(10, 10, bottom_screen, None).unwrap();

    let (bottom_target, top_target) = instance
        .render_to_target(top_target, |instance, top_target| {
            let (top_screen_target, bottom_target) = match instance.swap_render_target(top_target, bottom_target) {
                Ok(pair) => pair,
                Err(_) => panic!("swap failed"),
            };
            (bottom_target, top_screen_target)
        })
        .unwrap();

    // Check that we don't get a double-free or use-after-free by dropping
    // the global instance before dropping the targets.
    let mut gpu = instance.release();
    assert!(gpu.queue_live());
    bottom_target.release(&mut gpu);
    assert!(gpu.queue_live());
    top_target.release(&mut gpu);
    assert!(!gpu.queue_live());
    let ev = &gpu.backend().events;
    assert_eq!(ev.last(), Some(&Ev::Fini));
    assert_eq!(ev.iter().filter(|e| **e == Ev::Fini).count(), 1);
    assert_eq!(ev.iter().filter(|e| matches!(e, Ev::Delete(_))).count(), 2);
}

#[test]
fn ivec_getters_work() {
    let iv = IVec::new(1, 2, 3, 4);
    assert_eq!(iv.x(), 1);
    assert_eq!(iv.y(), 2);
    assert_eq!(iv.z(), 3);
    assert_eq!(iv.w(), 4);
}

#[test]
fn ivec_packs_wzyx() {
    let iv = IVec::new(0x11, 0x22, 0x33, 0x44);
    assert_eq!(*iv.as_raw(), 0x4433_2211);
}

#[test]
fn two_screen_swap_returns_top_as_passive() {
    let mut instance = instance_of(Sim::new());
    let top = instance.borrow_screen(ScreenId::Top, Side::Left, FramebufferFormat::Rgba8).unwrap();
    let bottom = instance.borrow_screen(ScreenId::Bottom, Side::Left, FramebufferFormat::Rgba8).unwrap();
    let top_t = instance.create_screen_target(10, 10, top, None).unwrap();
    let bottom_t = instance.create_screen_target(10, 10, bottom, None).unwrap();
    let top_raw = top_t.get_inner_ref().as_raw();
    let bottom_raw = bottom_t.get_inner_ref().as_raw();

    let (returned, other) = instance
        .render_to_target(top_t, |inst, active| {
            assert_eq!(inst.gpu().active(), Some(ScreenId::Top));
            let (passive, now_active) = match inst.swap_render_target(active, bottom_t) {
                Ok(p) => p,
                Err(_) => panic!("swap failed"),
            };
            assert_eq!(inst.gpu().active(), Some(ScreenId::Bottom));
            (now_active, passive)
        })
        .unwrap();
    assert_eq!(returned.get_inner_ref().as_raw(), bottom_raw);
    assert_eq!(other.get_inner_ref().as_raw(), top_raw);
    assert_eq!(instance.gpu().active(), None);

    let ev = events(&instance);
    let n = ev.len();
    assert_eq!(ev[n - 4..].to_vec(), vec![Ev::Begin(1), Ev::DrawOn(top_raw), Ev::DrawOn(bottom_raw), Ev::End(0)]);
}

#[test]
fn failed_activation_on_swap_returns_both() {
    let sim = Sim::new();
    let draw_on_ok = sim.draw_on_ok.clone();
    let mut instance = instance_of(sim);
    let top = instance.borrow_screen(ScreenId::Top, Side::Left, FramebufferFormat::Rgba8).unwrap();
    let bottom = instance.borrow_screen(ScreenId::Bottom, Side::Left, FramebufferFormat::Rgba8).unwrap();
    let a = instance.create_screen_target(10, 10, top, None).unwrap();
    let b = instance.create_screen_target(10, 10, bottom, None).unwrap();
    let a_raw = a.get_inner_ref().as_raw();
    let b_raw = b.get_inner_ref().as_raw();

    let (a_back, b_back) = instance
        .render_to_target(a, |inst, a_active| {
            draw_on_ok.set(false);
            match inst.swap_render_target(a_active, b) {
                Err((a2, b2, e)) => {
                    assert_eq!(e, Error::InvalidRenderTarget);
                    assert_eq!(a2.as_raw(), a_raw);
                    assert_eq!(b2.get_inner_ref().as_raw(), b_raw);
                    // a is still the active target, b still passive
                    assert_eq!(inst.gpu().active(), Some(ScreenId::Top));
                    (a2, b2)
                }
                Ok(_) => panic!("the swap should have failed"),
            }
        })
        .unwrap();
    assert_eq!(a_back.get_inner_ref().as_raw(), a_raw);
    assert_eq!(b_back.get_inner_ref().as_raw(), b_raw);
    assert_eq!(instance.gpu().screen_slot(ScreenId::Top), Slot::Bound(a_raw));
    assert_eq!(instance.gpu().screen_slot(ScreenId::Bottom), Slot::Bound(b_raw));
}

#[test]
fn failed_activation_on_render_ends_the_frame() {
    let sim = Sim::new();
    sim.draw_on_ok.set(false);
    let mut instance = instance_of(sim);
    let top = instance.borrow_screen(ScreenId::Top, Side::Left, FramebufferFormat::Rgba8).unwrap();
    let a = instance.create_screen_target(10, 10, top, None).unwrap();
    let a_raw = a.get_inner_ref().as_raw();
    let r = instance.render_to_target(a, |_inst, a_active| (a_active, 7u32));
    assert!(matches!(r, Err(Error::InvalidRenderTarget)));
    let ev = events(&instance);
    let n = ev.len();
    assert_eq!(ev[n - 4..].to_vec(), vec![Ev::Begin(1), Ev::DrawOn(a_raw), Ev::End(0), Ev::Delete(a_raw)]);
    assert_eq!(instance.gpu().screen_slot(ScreenId::Top), Slot::Free);
    assert_eq!(instance.gpu().active(), None);
}

#[test]
fn frames_begin_and_end_once_each() {
    let mut instance = instance_of(Sim::new());
    let top = instance.borrow_screen(ScreenId::Top, Side::Left, FramebufferFormat::Rgba8).unwrap();
    let mut t = instance.create_screen_target(400, 240, top, Some(DepthFormat::Depth24Stencil8)).unwrap();
    for frame in 0..3u32 {
        let (back, value) = instance.render_to_target(t, |_inst, active| (active, frame * 2)).unwrap();
        assert_eq!(value, frame * 2);
        t = back;
    }
    let ev = events(&instance);
    let markers: Vec<&Ev> = ev.iter().filter(|e| matches!(e, Ev::Begin(_) | Ev::End(_))).collect();
    assert_eq!(markers.len(), 6);
    for (k, m) in markers.iter().enumerate() {
        if k % 2 == 0 {
            assert_eq!(**m, Ev::Begin(1));
        } else {
            assert_eq!(**m, Ev::End(0));
        }
    }
}

#[test]
fn clear_semantics() {
    let mut instance = instance_of(Sim::new());
    let top = instance.borrow_screen(ScreenId::Top, Side::Left, FramebufferFormat::Rgba8).unwrap();
    let t = instance.create_screen_target(10, 10, top, Some(DepthFormat::Depth16)).unwrap();
    let raw = t.get_inner_ref().as_raw();
    let (t, ()) = instance
        .render_to_target(t, |inst, mut active| {
            active.clear(inst, ClearFlags::all(), 0xFF0000FF, 0);
            assert_eq!(inst.gpu().backend().buffer(raw), (0xFF0000FF, 0));
            active.clear(inst, ClearFlags::color(), 0x00FF00FF, 42);
            assert_eq!(inst.gpu().backend().buffer(raw), (0x00FF00FF, 0));
            (active, ())
        })
        .unwrap();
    let ev = events(&instance);
    assert!(ev.contains(&Ev::Clear(raw, 3, 0xFF0000FF, 0)));
    assert!(ev.contains(&Ev::Clear(raw, 1, 0x00FF00FF, 42)));
    // clearing a passive target, outside any frame
    let mut t = t;
    t.clear(&mut instance, ClearFlags::depth(), 0, 9);
    assert_eq!(instance.gpu().backend().buffer(raw), (0x00FF00FF, 9));
}

#[test]
fn format_mapping_coverage() {
    let table = [
        (FramebufferFormat::Rgba8, ColorFormat::RGBA8, 0u32, 0u32),
        (FramebufferFormat::Rgb565, ColorFormat::RGB565, 3, 2),
        (FramebufferFormat::Rgb5A1, ColorFormat::RGBA5551, 2, 3),
        (FramebufferFormat::Rgba4, ColorFormat::RGBA4, 4, 4),
        (FramebufferFormat::Bgr8, ColorFormat::RGB8, 1, 1),
    ];
    for (fb, color, raw_color, transfer) in table {
        assert_eq!(ColorFormat::from_framebuffer(fb), color);
        assert_eq!(color.as_raw(), raw_color);
        assert_eq!(TransferFormat::from_color(color).as_raw(), transfer);
        let mut instance = instance_of(Sim::new());
        let top = instance.borrow_screen(ScreenId::Top, Side::Right, fb).unwrap();
        let t = instance.create_screen_target(10, 20, top, None).unwrap();
        assert_eq!(t.get_inner_ref().color_format(), color);
        let raw = t.get_inner_ref().as_raw();
        let ev = events(&instance);
        let n = ev.len();
        assert_eq!(ev[n - 2], Ev::Create(10, 20, raw_color, -1));
        assert_eq!(ev[n - 1], Ev::SetOutput(raw, ScreenId::Top, Side::Right, transfer << 8 | transfer << 12));
    }
}

#[test]
fn color_format_is_deterministic() {
    let formats = [
        FramebufferFormat::Rgba8,
        FramebufferFormat::Bgr8,
        FramebufferFormat::Rgb565,
        FramebufferFormat::Rgb5A1,
        FramebufferFormat::Rgba4,
    ];
    for f in formats {
        assert_eq!(ColorFormat::from_framebuffer(f), ColorFormat::from_framebuffer(f));
        for g in formats {
            assert_eq!(ColorFormat::from_framebuffer(f) == ColorFormat::from_framebuffer(g), f == g);
        }
    }
    assert_eq!(transfer_flags(ColorFormat::RGB565), 0x2200);
}

#[test]
fn depth_formats_map_to_native_values() {
    assert_eq!(DepthFormat::as_raw(None), -1);
    assert_eq!(DepthFormat::as_raw(Some(DepthFormat::Depth16)), 0);
    assert_eq!(DepthFormat::as_raw(Some(DepthFormat::Depth24)), 2);
    assert_eq!(DepthFormat::as_raw(Some(DepthFormat::Depth24Stencil8)), 3);
}

#[test]
fn dimension_overflow() {
    let mut instance = instance_of(Sim::new());
    let top = instance.borrow_screen(ScreenId::Top, Side::Left, FramebufferFormat::Rgba8).unwrap();
    let before = events(&instance).len();
    let r = instance.create_screen_target(70000, 10, top, None);
    assert!(matches!(r, Err(Error::Overflow)));
    // no native target was created, and the screen is free again
    assert_eq!(events(&instance).len(), before);
    assert_eq!(instance.gpu().screen_slot(ScreenId::Top), Slot::Free);
    let top = instance.borrow_screen(ScreenId::Top, Side::Left, FramebufferFormat::Rgba8).unwrap();
    let r = instance.create_screen_target(10, 32768, top, None);
    assert!(matches!(r, Err(Error::Overflow)));
    let top = instance.borrow_screen(ScreenId::Top, Side::Left, FramebufferFormat::Rgba8).unwrap();
    assert!(instance.create_screen_target(32767, 10, top, None).is_ok());
}

#[test]
fn null_target_is_creation_failure() {
    let mut sim = Sim::new();
    sim.create_ok = false;
    let mut instance = instance_of(sim);
    let top = instance.borrow_screen(ScreenId::Top, Side::Left, FramebufferFormat::Rgba8).unwrap();
    let r = instance.create_screen_target(10, 10, top, None);
    assert!(matches!(r, Err(Error::CreationFailed)));
    assert_eq!(instance.gpu().screen_slot(ScreenId::Top), Slot::Free);
}

#[test]
fn foreign_screen_is_creation_failure() {
    let mut other = Gpu::new(Sim::new());
    let foreign = other.borrow_screen(ScreenId::Bottom, Side::Left, FramebufferFormat::Rgba8).unwrap();
    let mut instance = instance_of(Sim::new());
    let before = events(&instance).len();
    let r = instance.create_screen_target(10, 10, foreign, None);
    assert!(matches!(r, Err(Error::CreationFailed)));
    assert_eq!(events(&instance).len(), before);
}

#[test]
fn drop_order() {
    let mut instance = instance_of(Sim::new());
    let top = instance.borrow_screen(ScreenId::Top, Side::Left, FramebufferFormat::Rgba8).unwrap();
    let t = instance.create_screen_target(10, 10, top, None).unwrap();
    let raw = t.get_inner_ref().as_raw();
    let mut gpu = instance.release();
    assert!(gpu.queue_live());
    assert!(!gpu.backend().events.contains(&Ev::Fini));
    t.release(&mut gpu);
    let n = gpu.backend().events.len();
    assert_eq!(gpu.backend().events[n - 2..].to_vec(), vec![Ev::Delete(raw), Ev::Fini]);
    // a second instance can be made
    let second = Instance::new(gpu);
    assert!(second.is_ok());
}

#[test]
fn release_without_targets_tears_down_at_once() {
    let instance = instance_of(Sim::new());
    let gpu = instance.release();
    assert!(!gpu.queue_live());
    assert_eq!(gpu.backend().events, vec![Ev::Init(DEFAULT_CMDBUF_SIZE), Ev::Fini]);
}

#[test]
fn failed_init_gives_the_context_back() {
    let mut sim = Sim::new();
    sim.init_ok = false;
    match Instance::with_cmdbuf_size(Gpu::new(sim), 0x1000) {
        Ok(_) => panic!("init should fail"),
        Err((gpu, e)) => {
            assert_eq!(e, Error::FailedToInitialize);
            assert!(!gpu.instance_live());
            assert_eq!(gpu.backend().events, vec![Ev::Init(0x1000)]);
        }
    }
}

#[test]
fn screen_borrow_is_exclusive() {
    let mut gpu = Gpu::new(Sim::new());
    let top = gpu.borrow_screen(ScreenId::Top, Side::Left, FramebufferFormat::Rgba8).unwrap();
    assert!(gpu.borrow_screen(ScreenId::Top, Side::Right, FramebufferFormat::Rgba8).is_none());
    assert!(gpu.borrow_screen(ScreenId::Bottom, Side::Left, FramebufferFormat::Rgba8).is_some());
    gpu.return_screen(top);
    assert!(gpu.borrow_screen(ScreenId::Top, Side::Left, FramebufferFormat::Rgba8).is_some());

    let mut instance = instance_of(Sim::new());
    let top = instance.borrow_screen(ScreenId::Top, Side::Left, FramebufferFormat::Rgba8).unwrap();
    let _t = instance.create_screen_target(10, 10, top, None).unwrap();
    assert!(instance.borrow_screen(ScreenId::Top, Side::Left, FramebufferFormat::Rgba8).is_none());
}

#[test]
fn clear_flags_all_is_color_or_depth() {
    assert_eq!(CLEAR_ALL, CLEAR_COLOR | CLEAR_DEPTH);
    assert_eq!(ClearFlags::all(), ClearFlags::color().union(ClearFlags::depth()));
    assert_eq!(ClearFlags::all().bits(), 3);
    assert!(ClearFlags::all().contains(ClearFlags::depth()));
    assert!(!ClearFlags::color().contains(ClearFlags::depth()));
    assert_eq!(ClearFlags::from_bits_truncate(0xff).bits(), 3);
}

#[test]
fn draws_set_buffer_info_first() {
    let mut instance = instance_of(Sim::new());
    let top = instance.borrow_screen(ScreenId::Top, Side::Left, FramebufferFormat::Rgba8).unwrap();
    let t = instance.create_screen_target(10, 10, top, None).unwrap();
    let slice = Slice { info: BufferInfo { raw: 0x55 }, index: 3, len: 9 };
    let indices = Indices { addr: 0x77, len: 6, kind: IndexKind::Short };
    let huge = Indices { addr: 0x77, len: i32::MAX as usize + 1, kind: IndexKind::Byte };
    let _ = instance
        .render_to_target(t, |inst, active| {
            inst.bind_program(&Program { raw: 0x99 });
            inst.draw_arrays(Primitive::Triangles, slice);
            assert_eq!(inst.draw_elements(Primitive::TriangleStrip, slice, &indices), Ok(()));
            let before = inst.gpu().backend().events.len();
            assert_eq!(inst.draw_elements(Primitive::TriangleStrip, slice, &huge), Err(Error::Overflow));
            assert_eq!(inst.gpu().backend().events.len(), before);
            (active, ())
        })
        .unwrap();
    let ev = events(&instance);
    let n = ev.len();
    assert_eq!(
        ev[n - 6..n - 1].to_vec(),
        vec![
            Ev::Program(0x99),
            Ev::BufInfo(0x55),
            Ev::DrawArrays(Primitive::Triangles, 3, 9),
            Ev::BufInfo(0x55),
            Ev::DrawElements(Primitive::TriangleStrip, 6, IndexKind::Short, 0x77),
        ]
    );
}

#[test]
fn light_env_rebind_returns_previous() {
    let mut instance = instance_of(Sim::new());
    assert!(instance.light_env().is_none());
    assert!(instance.bind_light_env(Some(Box::new(LightEnv { raw: 0x40 }))).is_none());
    assert_eq!(instance.light_env().map(|e| e.raw), Some(0x40));
    let prev = instance.bind_light_env(Some(Box::new(LightEnv { raw: 0x80 })));
    assert_eq!(prev.map(|e| e.raw), Some(0x40));
    let prev = instance.bind_light_env(None);
    assert_eq!(prev.map(|e| e.raw), Some(0x80));
    let ev = events(&instance);
    assert_eq!(ev[ev.len() - 3..].to_vec(), vec![Ev::LightEnv(0x40), Ev::LightEnv(0x80), Ev::LightEnv(0)]);
}

#[test]
fn texenv_is_set_up_once() {
    let mut instance = instance_of(Sim::new());
    assert!(Stage::new(6).is_none());
    let stage = Stage::new(2).unwrap();
    assert_eq!(instance.texenv(stage).stage, 2);
    assert_eq!(instance.texenv(stage).stage, 2);
    let ev = events(&instance);
    assert_eq!(ev.iter().filter(|e| **e == Ev::TexEnv(2)).count(), 1);
}

#[test]
fn color_packing() {
    assert_eq!(Color::new_with_alpha(0x12, 0x34, 0x56, 0x78).inner, 0x7856_3412);
    assert_eq!(Color::new(255, 0, 0).inner, 0xFF00_00FF);
    assert_eq!(Color::from_u32(7).as_u32(), 7);
    let m = MultiColor {
        top_left: Color::new(1, 2, 3),
        top_right: Color::new(4, 5, 6),
        bottom_left: Color::new(7, 8, 9),
        bottom_right: Color::new(10, 11, 12),
    };
    assert_eq!(m.bottom_right.inner, 0xFF0C_0B0A);
}

#[test]
fn drawable_result_from_bool() {
    assert_eq!(DrawableResult::from(true), DrawableResult::Success);
    assert_eq!(DrawableResult::from(false), DrawableResult::Failure);
    assert!(DrawableResult::Success.is_success());
    assert!(!DrawableResult::Failure.is_success());
}

#[test]
fn clear_with_color_goes_to_the_target() {
    let mut instance = instance_of(Sim::new());
    let top = instance.borrow_screen(ScreenId::Top, Side::Left, FramebufferFormat::Rgba8).unwrap();
    let t = instance.create_screen_target(10, 10, top, None).unwrap();
    let raw = t.get_inner_ref().as_raw();
    let _ = instance
        .render_to_target(t, |inst, mut active| {
            active.clear_with_color(inst, Color::new(0, 0, 255));
            (active, ())
        })
        .unwrap();
    assert!(events(&instance).contains(&Ev::Clear2d(raw, 0xFFFF_0000)));
}

#[test]
fn release_while_instance_lives_keeps_the_queue() {
    let mut instance = instance_of(Sim::new());
    let top = instance.borrow_screen(ScreenId::Top, Side::Left, FramebufferFormat::Rgba8).unwrap();
    let t = instance.create_screen_target(10, 10, top, None).unwrap();
    let raw = t.get_inner_ref().as_raw();
    instance.release_target(t);
    assert_eq!(events(&instance).last(), Some(&Ev::Delete(raw)));
    assert!(instance.gpu().queue_live());
    assert_eq!(instance.gpu().screen_slot(ScreenId::Top), Slot::Free);
}

#[test]
fn drawable_result_branch() {
    assert_eq!(DrawableResult::Success.branch(), ControlFlow::Continue(()));
    assert_eq!(DrawableResult::Failure.branch(), ControlFlow::Break(DrawableResult::Failure));
}
