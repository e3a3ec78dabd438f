use dust::effects::{DebugEffect, DebugType};
use dust::pipeline::{
    BlendFunc, CullType, DeferredPipeline, DepthFunc, ForwardPipeline, GeometryOutput, RenderStep,
};
use dust::resource::{load_string, Error};
use std::cell::Cell;
use std::rc::Rc;

struct CountedTarget {
    width: usize,
    height: usize,
    live: Rc<Cell<i32>>,
}

impl CountedTarget {
    fn new(live: &Rc<Cell<i32>>, width: usize, height: usize) -> CountedTarget {
        live.set(live.get() + 1);
        CountedTarget { width, height, live: live.clone() }
    }
}

impl Drop for CountedTarget {
    fn drop(&mut self) {
        self.live.set(self.live.get() - 1);
    }
}

#[test]
fn deferred_resize_keeps_last_size_and_releases_old_targets() {
    let live = Rc::new(Cell::new(0));
    let mut p = DeferredPipeline::create(
        800,
        600,
        CountedTarget::new(&live, 800, 600),
        CountedTarget::new(&live, 800, 600),
    );
    assert_eq!(live.get(), 2);
    p.resize(800, 600, CountedTarget::new(&live, 800, 600), CountedTarget::new(&live, 800, 600));
    p.resize(400, 300, CountedTarget::new(&live, 400, 300), CountedTarget::new(&live, 400, 300));
    assert_eq!((p.width(), p.height()), (400, 300));
    let g = p.geometry_pass_rendertarget();
    assert_eq!((g.width, g.height), (400, 300));
    assert_eq!(live.get(), 2);
    drop(p);
    assert_eq!(live.get(), 0);
}

#[test]
fn forward_resize_replaces_target() {
    let live = Rc::new(Cell::new(0));
    let mut p = ForwardPipeline::create(640, 480, CountedTarget::new(&live, 640, 480));
    p.resize(320, 200, CountedTarget::new(&live, 320, 200));
    assert_eq!((p.width(), p.height()), (320, 200));
    assert_eq!(p.rendertarget().width, 320);
    assert_eq!(live.get(), 1);
}

#[test]
fn deferred_frame_order() {
    let p = DeferredPipeline::create(4, 4, (), ());
    let steps = p.render();
    assert_eq!(steps.len(), 21);
    assert_eq!(
        &steps[..4],
        &[
            RenderStep::SetDepthWrite(true),
            RenderStep::SetDepthTest(true),
            RenderStep::SetCull(CullType::Disabled),
            RenderStep::SetBlend(false),
        ]
    );
    let opaque = steps.iter().position(|s| *s == RenderStep::RenderOpaque).unwrap();
    let lights = steps.iter().position(|s| *s == RenderStep::ShineLights).unwrap();
    assert_eq!((opaque, lights), (6, 20));
    assert!(steps.contains(&RenderStep::SetBlendFunc(BlendFunc::OneOne)));
    assert!(steps.contains(&RenderStep::SetDepthFunc(DepthFunc::LessEqual)));
    let depth = steps
        .iter()
        .position(|s| *s == RenderStep::BindInput(GeometryOutput::Depth, 3))
        .unwrap();
    assert!(opaque < depth && depth < lights);
}

#[test]
fn forward_pass_uses_alpha_blending() {
    let p = DeferredPipeline::create(4, 4, (), ());
    assert_eq!(
        p.forward_pass_begin(),
        vec![
            RenderStep::SetBlend(true),
            RenderStep::SetBlendFunc(BlendFunc::SrcAlphaOneMinusSrcAlpha),
        ]
    );
}

#[test]
fn debug_type_cycles_through_all_views() {
    let mut t = DebugType::Nothing;
    let mut seen = Vec::new();
    for _ in 0..8 {
        t = t.next();
        seen.push(t.code());
    }
    assert_eq!(seen, vec![0, 1, 2, 3, 4, 5, 6, 7]);
    assert_eq!(t, DebugType::Nothing);
    assert!(!t.is_shown());
    assert!(DebugType::Depth.is_shown());
    assert_eq!(DebugType::from_code(8), None);
}

#[test]
fn load_string_accepts_utf8_text() {
    assert_eq!(load_string("void main() {}\n".as_bytes()), Ok("void main() {}\n".to_string()));
    assert_eq!(load_string("µ".as_bytes()), Ok("µ".to_string()));
    assert_eq!(load_string(&[]), Ok(String::new()));
}

#[test]
fn load_string_refuses_nil_and_bad_utf8() {
    assert_eq!(load_string(&[b'a', 0, b'b']), Err(Error::FileContainsNil));
    assert_eq!(load_string(&[0xff, 0xfe]), Err(Error::InvalidUtf8));
    assert_eq!(load_string(&[0xff, 0]), Err(Error::FileContainsNil));
}

#[test]
fn debug_effect_starts_hidden_and_cycles() {
    let mut e = DebugEffect::new("program");
    assert_eq!(e.debug_type(), DebugType::Nothing);
    e.change_type();
    assert_eq!(e.debug_type(), DebugType::Position);
    e.change_type();
    assert_eq!(e.debug_type(), DebugType::Normal);
    assert_eq!(*e.program(), "program");
}
