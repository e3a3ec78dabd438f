//! The deferred and forward pipelines: the GPU state each pass needs, the
//! order of one frame's work, and the render targets the pipelines own.
use vstd::prelude::*;

verus! {

/// Which faces the rasterizer discards.
#[derive(Debug, Clone, Copy, PartialEq, Eq, Structural)]
pub enum CullType {
    Disabled,
    Back,
}

/// The blend factors, source then destination.
#[derive(Debug, Clone, Copy, PartialEq, Eq, Structural)]
pub enum BlendFunc {
    /// `ONE, ONE`: contributions add up.
    OneOne,
    /// `SRC_ALPHA, ONE_MINUS_SRC_ALPHA`: ordinary transparency.
    SrcAlphaOneMinusSrcAlpha,
}

/// The depth comparison.
#[derive(Debug, Clone, Copy, PartialEq, Eq, Structural)]
pub enum DepthFunc {
    Less,
    LessEqual,
}

/// The part of the GPU's fixed-function state that the passes set.
#[derive(Debug, Clone, Copy, PartialEq, Eq, Structural)]
pub struct GpuState {
    pub depth_write: bool,
    pub depth_test: bool,
    pub cull: CullType,
    pub blend: bool,
    pub blend_func: BlendFunc,
    pub depth_func: DepthFunc,
}

/// One output of the geometry pass.
#[derive(Debug, Clone, Copy, PartialEq, Eq, Structural)]
pub enum GeometryOutput {
    Color,
    Position,
    Normal,
    Depth,
}

/// One piece of a frame's work, in the order the GPU must receive it.
#[derive(Debug, Clone, Copy, PartialEq, Eq, Structural)]
pub enum RenderStep {
    SetDepthWrite(bool),
    SetDepthTest(bool),
    SetCull(CullType),
    SetBlend(bool),
    SetDepthFunc(DepthFunc),
    SetBlendFunc(BlendFunc),
    BindGeometryTarget,
    ClearGeometryTarget,
    /// The caller draws the opaque scene into the geometry target.
    RenderOpaque,
    BindScreenTarget,
    ClearScreenTarget,
    /// Binds a geometry output as a texture at the unit, and sets the light
    /// pass program's sampler of that output to the unit.
    BindInput(GeometryOutput, u32),
    /// Sets the light pass program's eye position to the camera's.
    UploadEyePosition,
    /// The caller runs the shadow passes and draws each light.
    ShineLights,
}

/// The state after `step`.
pub open spec fn apply_step(s: GpuState, step: RenderStep) -> GpuState {
    match step {
        RenderStep::SetDepthWrite(b) => GpuState { depth_write: b, ..s },
        RenderStep::SetDepthTest(b) => GpuState { depth_test: b, ..s },
        RenderStep::SetCull(c) => GpuState { cull: c, ..s },
        RenderStep::SetBlend(b) => GpuState { blend: b, ..s },
        RenderStep::SetDepthFunc(f) => GpuState { depth_func: f, ..s },
        RenderStep::SetBlendFunc(f) => GpuState { blend_func: f, ..s },
        _ => s,
    }
}

/// The state after `steps`, from `s`.
pub open spec fn run_steps(s: GpuState, steps: Seq<RenderStep>) -> GpuState
    decreases steps.len(),
{
    if steps.len() == 0 {
        s
    } else {
        apply_step(run_steps(s, steps.drop_last()), steps.last())
    }
}

/// The texture unit each geometry output is bound to in the light pass.
pub open spec fn input_unit(o: GeometryOutput) -> u32 {
    match o {
        GeometryOutput::Color => 0,
        GeometryOutput::Position => 1,
        GeometryOutput::Normal => 2,
        GeometryOutput::Depth => 3,
    }
}

/// One frame of the deferred pipeline: the geometry pass with depth write
/// and test on, no culling and no blending; then the light pass with depth
/// write and test off, back faces culled and lights added up.
pub open spec fn deferred_frame() -> Seq<RenderStep> {
    seq![
        RenderStep::SetDepthWrite(true),
        RenderStep::SetDepthTest(true),
        RenderStep::SetCull(CullType::Disabled),
        RenderStep::SetBlend(false),
        RenderStep::BindGeometryTarget,
        RenderStep::ClearGeometryTarget,
        RenderStep::RenderOpaque,
        RenderStep::BindScreenTarget,
        RenderStep::ClearScreenTarget,
        RenderStep::SetDepthWrite(false),
        RenderStep::SetDepthTest(false),
        RenderStep::SetCull(CullType::Back),
        RenderStep::SetBlend(true),
        RenderStep::SetDepthFunc(DepthFunc::LessEqual),
        RenderStep::SetBlendFunc(BlendFunc::OneOne),
        RenderStep::BindInput(GeometryOutput::Color, 0),
        RenderStep::BindInput(GeometryOutput::Position, 1),
        RenderStep::BindInput(GeometryOutput::Normal, 2),
        RenderStep::BindInput(GeometryOutput::Depth, 3),
        RenderStep::UploadEyePosition,
        RenderStep::ShineLights,
    ]
}

/// Where the frame hands over to the caller's opaque drawing.
pub open spec fn opaque_step() -> int {
    6
}

/// Where the frame binds geometry output `o`.
pub open spec fn input_step(o: GeometryOutput) -> int {
    15 + input_unit(o)
}

/// Where the frame hands over to the caller's lights.
pub open spec fn lights_step() -> int {
    20
}

/// Whatever the state before a frame, the opaque scene is drawn with depth
/// write and test on, no culling and no blending, and the lights with depth
/// write and test off, back faces culled, blending `ONE, ONE` and depth
/// compared less-or-equal; every geometry output is bound at its unit after
/// the opaque scene is drawn and before the lights.
pub proof fn lemma_frame_states(s: GpuState)
    ensures
        deferred_frame()[opaque_step()] == RenderStep::RenderOpaque,
        run_steps(s, deferred_frame().take(opaque_step())).depth_write,
        run_steps(s, deferred_frame().take(opaque_step())).depth_test,
        run_steps(s, deferred_frame().take(opaque_step())).cull == CullType::Disabled,
        !run_steps(s, deferred_frame().take(opaque_step())).blend,
        deferred_frame()[lights_step()] == RenderStep::ShineLights,
        run_steps(s, deferred_frame().take(lights_step())) == (GpuState {
            depth_write: false,
            depth_test: false,
            cull: CullType::Back,
            blend: true,
            blend_func: BlendFunc::OneOne,
            depth_func: DepthFunc::LessEqual,
        }),
        forall|o: GeometryOutput|
            opaque_step() < #[trigger] input_step(o) < lights_step() && deferred_frame()[input_step(
                o,
            )] == RenderStep::BindInput(o, input_unit(o)),
{
    let f = deferred_frame();
    reveal_with_fuel(run_steps, 21);
    assert(f.take(21).drop_last() =~= f.take(20));
    assert(f.take(20).drop_last() =~= f.take(19));
    assert(f.take(19).drop_last() =~= f.take(18));
    assert(f.take(18).drop_last() =~= f.take(17));
    assert(f.take(17).drop_last() =~= f.take(16));
    assert(f.take(16).drop_last() =~= f.take(15));
    assert(f.take(15).drop_last() =~= f.take(14));
    assert(f.take(14).drop_last() =~= f.take(13));
    assert(f.take(13).drop_last() =~= f.take(12));
    assert(f.take(12).drop_last() =~= f.take(11));
    assert(f.take(11).drop_last() =~= f.take(10));
    assert(f.take(10).drop_last() =~= f.take(9));
    assert(f.take(9).drop_last() =~= f.take(8));
    assert(f.take(8).drop_last() =~= f.take(7));
    assert(f.take(7).drop_last() =~= f.take(6));
    assert(f.take(6).drop_last() =~= f.take(5));
    assert(f.take(5).drop_last() =~= f.take(4));
    assert(f.take(4).drop_last() =~= f.take(3));
    assert(f.take(3).drop_last() =~= f.take(2));
    assert(f.take(2).drop_last() =~= f.take(1));
    assert(f.take(1).drop_last() =~= f.take(0));
    assert forall|o: GeometryOutput|
        opaque_step() < #[trigger] input_step(o) < lights_step() && deferred_frame()[input_step(
            o,
        )] == RenderStep::BindInput(o, input_unit(o)) by {
        match o {
            GeometryOutput::Color => {},
            GeometryOutput::Position => {},
            GeometryOutput::Normal => {},
            GeometryOutput::Depth => {},
        }
    }
}

/// The deferred pipeline: a screen target of type `S` and a geometry target
/// of type `G` with its color, position, normal and depth outputs, both of
/// the pipeline's size. Dropping a target releases it.
pub struct DeferredPipeline<S, G> {
    width: usize,
    height: usize,
    rendertarget: S,
    geometry_pass_rendertarget: G,
}

impl<S, G> DeferredPipeline<S, G> {
    pub closed spec fn spec_width(&self) -> usize {
        self.width
    }

    pub closed spec fn spec_height(&self) -> usize {
        self.height
    }

    pub fn width(&self) -> (r: usize)
        ensures
            r == self.spec_width(),
    {
        self.width
    }

    pub fn height(&self) -> (r: usize)
        ensures
            r == self.spec_height(),
    {
        self.height
    }

    pub closed spec fn spec_rendertarget(&self) -> S {
        self.rendertarget
    }

    pub closed spec fn spec_geometry_target(&self) -> G {
        self.geometry_pass_rendertarget
    }

    /// A pipeline of the given size over targets made at that size.
    pub fn create(width: usize, height: usize, rendertarget: S, geometry_pass_rendertarget: G) -> (r:
        Self)
        ensures
            r.spec_width() == width,
            r.spec_height() == height,
            r.spec_rendertarget() == rendertarget,
            r.spec_geometry_target() == geometry_pass_rendertarget,
    {
        DeferredPipeline { width, height, rendertarget, geometry_pass_rendertarget }
    }

    /// Takes targets made at the new size; the old ones are dropped.
    pub fn resize(
        &mut self,
        width: usize,
        height: usize,
        rendertarget: S,
        geometry_pass_rendertarget: G,
    )
        ensures
            final(self).spec_width() == width,
            final(self).spec_height() == height,
            final(self).spec_rendertarget() == rendertarget,
            final(self).spec_geometry_target() == geometry_pass_rendertarget,
    {
        self.rendertarget = rendertarget;
        self.geometry_pass_rendertarget = geometry_pass_rendertarget;
        self.width = width;
        self.height = height;
    }

    pub fn rendertarget(&self) -> (r: &S)
        ensures
            *r == self.spec_rendertarget(),
    {
        &self.rendertarget
    }

    pub fn geometry_pass_rendertarget(&self) -> (r: &G)
        ensures
            *r == self.spec_geometry_target(),
    {
        &self.geometry_pass_rendertarget
    }

    /// The work of one frame, in order.
    pub fn render(&self) -> (r: Vec<RenderStep>)
        ensures
            r@ == deferred_frame(),
    {
        let r = vec![
            RenderStep::SetDepthWrite(true),
            RenderStep::SetDepthTest(true),
            RenderStep::SetCull(CullType::Disabled),
            RenderStep::SetBlend(false),
            RenderStep::BindGeometryTarget,
            RenderStep::ClearGeometryTarget,
            RenderStep::RenderOpaque,
            RenderStep::BindScreenTarget,
            RenderStep::ClearScreenTarget,
            RenderStep::SetDepthWrite(false),
            RenderStep::SetDepthTest(false),
            RenderStep::SetCull(CullType::Back),
            RenderStep::SetBlend(true),
            RenderStep::SetDepthFunc(DepthFunc::LessEqual),
            RenderStep::SetBlendFunc(BlendFunc::OneOne),
            RenderStep::BindInput(GeometryOutput::Color, 0),
            RenderStep::BindInput(GeometryOutput::Position, 1),
            RenderStep::BindInput(GeometryOutput::Normal, 2),
            RenderStep::BindInput(GeometryOutput::Depth, 3),
            RenderStep::UploadEyePosition,
            RenderStep::ShineLights,
        ];
        assert(r@ =~= deferred_frame());
        r
    }

    /// The state change before transparent geometry is drawn forward:
    /// ordinary alpha blending.
    pub fn forward_pass_begin(&self) -> (r: Vec<RenderStep>)
        ensures
            r@ == seq![
                RenderStep::SetBlend(true),
                RenderStep::SetBlendFunc(BlendFunc::SrcAlphaOneMinusSrcAlpha),
            ],
    {
        let r = vec![
            RenderStep::SetBlend(true),
            RenderStep::SetBlendFunc(BlendFunc::SrcAlphaOneMinusSrcAlpha),
        ];
        assert(r@ =~= seq![
            RenderStep::SetBlend(true),
            RenderStep::SetBlendFunc(BlendFunc::SrcAlphaOneMinusSrcAlpha),
        ]);
        r
    }
}

/// The forward pipeline: one screen target of type `S` of the pipeline's
/// size.
pub struct ForwardPipeline<S> {
    width: usize,
    height: usize,
    rendertarget: S,
}

impl<S> ForwardPipeline<S> {
    pub closed spec fn spec_width(&self) -> usize {
        self.width
    }

    pub closed spec fn spec_height(&self) -> usize {
        self.height
    }

    pub fn width(&self) -> (r: usize)
        ensures
            r == self.spec_width(),
    {
        self.width
    }

    pub fn height(&self) -> (r: usize)
        ensures
            r == self.spec_height(),
    {
        self.height
    }

    pub closed spec fn spec_rendertarget(&self) -> S {
        self.rendertarget
    }

    pub fn create(width: usize, height: usize, rendertarget: S) -> (r: Self)
        ensures
            r.spec_width() == width,
            r.spec_height() == height,
            r.spec_rendertarget() == rendertarget,
    {
        ForwardPipeline { width, height, rendertarget }
    }

    /// Takes a target made at the new size; the old one is dropped.
    pub fn resize(&mut self, width: usize, height: usize, rendertarget: S)
        ensures
            final(self).spec_width() == width,
            final(self).spec_height() == height,
            final(self).spec_rendertarget() == rendertarget,
    {
        self.rendertarget = rendertarget;
        self.width = width;
        self.height = height;
    }

    pub fn rendertarget(&self) -> (r: &S)
        ensures
            *r == self.spec_rendertarget(),
    {
        &self.rendertarget
    }
}

} // verus!
