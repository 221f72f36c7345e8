use vstd::prelude::*;

use crate::base::{spec_preload, WgpuBase, MAX_PUSH_CONSTANT_SIZE};
use crate::bind_group::{
    BindGroupLayoutEntry, BindGroupResourceEntry, BindGroupResult, SHADER_STAGE_COMPUTE,
    SHADER_STAGE_FRAGMENT,
};
use crate::format::TextureFormat;
use crate::sampler::SamplerDescriptor;

verus! {

/// Name of the vertex shader every render pipeline uses: it draws one
/// triangle covering the screen from the vertex index alone.
pub const FULLSCREEN_VERTEX_SHADER: &'static str = "fullscreen.vert";

/// Color-write bits: all four channels.
pub const COLOR_WRITE_ALL: u32 = 15;

#[derive(Clone, Copy, Debug, PartialEq, Eq, Structural)]
pub struct PushConstantRange {
    /// Bit set of `SHADER_STAGE_*`.
    pub stages: u32,
    pub start: u32,
    pub end: u32,
}

/// All bind-group layouts of a pipeline, in order, and its push constants.
#[derive(Clone, Debug)]
pub struct PipelineLayoutDesc {
    pub bind_group_layouts: Vec<Vec<BindGroupLayoutEntry>>,
    pub push_constant_ranges: Vec<PushConstantRange>,
}

/// The bound half of a bind group, with the samplers it refers to.
#[derive(Clone, Debug)]
pub struct BoundGroup {
    pub bind: Vec<BindGroupResourceEntry>,
    pub samplers: Vec<SamplerDescriptor>,
}

#[derive(Clone, Copy, Debug, PartialEq, Eq, Structural)]
pub enum BlendState {
    /// The new color replaces the old one, alpha included.
    Replace,
    AlphaBlending,
}

#[derive(Clone, Copy, Debug, PartialEq, Eq, Structural)]
pub struct ColorTargetState {
    pub format: TextureFormat,
    pub blend: Option<BlendState>,
    /// Bit set of color channels written.
    pub write_mask: u32,
}

impl From<TextureFormat> for ColorTargetState {
    fn from(format: TextureFormat) -> (r: ColorTargetState)
        ensures
            r == (ColorTargetState {
                format,
                blend: Some(BlendState::Replace),
                write_mask: COLOR_WRITE_ALL,
            }),
    {
        ColorTargetState { format, blend: Some(BlendState::Replace), write_mask: COLOR_WRITE_ALL }
    }
}

impl vstd::std_specs::convert::FromSpecImpl<TextureFormat> for ColorTargetState {
    open spec fn obeys_from_spec() -> bool {
        true
    }

    open spec fn from_spec(format: TextureFormat) -> ColorTargetState {
        ColorTargetState { format, blend: Some(BlendState::Replace), write_mask: COLOR_WRITE_ALL }
    }
}

#[derive(Clone, Copy, Debug, PartialEq, Eq, Structural)]
pub enum Face {
    Front,
    Back,
}

pub struct RenderPipelineDesc {
    pub bind_groups: Vec<BindGroupResult>,
    /// Fragment shader name.
    pub shader: String,
    /// Format of the single color target.
    pub target: TextureFormat,
    /// Size in bytes of the fragment stage's push constants.
    pub push_constants: Option<u32>,
}

pub struct ComputePipelineDesc {
    pub bind_groups: Vec<BindGroupResult>,
    pub shader: String,
    /// Size in bytes of the compute stage's push constants.
    pub push_constants: Option<u32>,
}

/// A render pipeline: full-screen vertex stage, the caller's fragment stage,
/// one color target, back faces culled, no depth or stencil, no vertex
/// buffers. It keeps the groups it binds before each draw.
pub struct FullRenderPipeline {
    pub layout: PipelineLayoutDesc,
    pub vertex_shader: String,
    pub vertex_module: Vec<u8>,
    pub fragment_shader: String,
    pub fragment_module: Vec<u8>,
    pub target: ColorTargetState,
    pub cull_mode: Option<Face>,
    pub bind_groups: Vec<BoundGroup>,
}

/// A compute pipeline and the groups it binds before each dispatch.
pub struct FullComputePipeline {
    pub layout: PipelineLayoutDesc,
    pub shader: String,
    pub module: Vec<u8>,
    pub bind_groups: Vec<BoundGroup>,
}

/// A push-constant size the device accepts: whole words, within its limit.
pub open spec fn valid_push_constants(size: Option<u32>) -> bool {
    match size {
        Some(s) => s <= MAX_PUSH_CONSTANT_SIZE && s % 4 == 0,
        None => true,
    }
}

/// One range `[0, s)` for the given stages when a size is given, else none.
pub open spec fn spec_push_ranges(size: Option<u32>, stages: u32) -> Seq<PushConstantRange> {
    match size {
        Some(s) => seq![PushConstantRange { stages, start: 0, end: s }],
        None => Seq::empty(),
    }
}

/// A push-constant size `s` gives exactly one range, covering bytes `[0, s)`;
/// no size gives no range.
pub proof fn lemma_push_constant_range(size: Option<u32>, stages: u32)
    ensures
        match size {
            Some(s) => spec_push_ranges(size, stages).len() == 1 && spec_push_ranges(
                size,
                stages,
            )[0] == (PushConstantRange { stages, start: 0, end: s }),
            None => spec_push_ranges(size, stages).len() == 0,
        },
{
}

/// The layout that `groups` and `size` give, and the groups it binds.
pub open spec fn spec_pipeline_parts(
    groups: Seq<BindGroupResult>,
    size: Option<u32>,
    stages: u32,
    layout: PipelineLayoutDesc,
    bound: Seq<BoundGroup>,
) -> bool {
    &&& layout.push_constant_ranges@ == spec_push_ranges(size, stages)
    &&& layout.bind_group_layouts@.len() == groups.len()
    &&& bound.len() == groups.len()
    &&& forall|i: int|
        0 <= i < groups.len() ==> (#[trigger] layout.bind_group_layouts@[i])@ == groups[i].layout@
    &&& forall|i: int|
        0 <= i < groups.len() ==> (#[trigger] bound[i]).bind@ == groups[i].bind@
            && bound[i].samplers@ == groups[i].samplers@
}

/// The color target of every render pipeline: the given format, replace
/// blending, all channels written.
pub open spec fn spec_color_target(format: TextureFormat) -> ColorTargetState {
    ColorTargetState { format, blend: Some(BlendState::Replace), write_mask: COLOR_WRITE_ALL }
}

impl WgpuBase {
    /// Splits built groups into their layouts, which go into the pipeline
    /// layout in order, and their bound halves, which the pipeline keeps. A
    /// push-constant size `s` adds exactly one range `[0, s)` for `stages`;
    /// no size adds none.
    pub fn pipeline(
        &self,
        bind_groups: Vec<BindGroupResult>,
        push_constants: Option<u32>,
        stages: u32,
    ) -> (r: (PipelineLayoutDesc, Vec<BoundGroup>))
        ensures
            spec_pipeline_parts(bind_groups@, push_constants, stages, r.0, r.1@),
            r.0.push_constant_ranges@.len() == if push_constants is Some { 1int } else { 0int },
            push_constants is Some ==> r.0.push_constant_ranges@[0] == (PushConstantRange {
                stages,
                start: 0,
                end: push_constants->Some_0,
            }),
    {
        let ghost orig = bind_groups@;
        let mut rest = bind_groups;
        let n = rest.len();
        let mut layouts: Vec<Vec<BindGroupLayoutEntry>> = Vec::with_capacity(n);
        let mut binds: Vec<BoundGroup> = Vec::with_capacity(n);
        let mut i: usize = 0;
        while i < n
            invariant
                n == orig.len(),
                i <= n,
                rest@ == orig.skip(i as int),
                layouts@.len() == i,
                binds@.len() == i,
                forall|k: int| 0 <= k < i ==> (#[trigger] layouts@[k])@ == orig[k].layout@,
                forall|k: int|
                    0 <= k < i ==> (#[trigger] binds@[k]).bind@ == orig[k].bind@
                        && binds@[k].samplers@ == orig[k].samplers@,
            decreases n - i,
        {
            let group = rest.remove(0);
            assert(group == orig[i as int]);
            assert(rest@ =~= orig.skip(i as int + 1));
            layouts.push(group.layout);
            binds.push(BoundGroup { bind: group.bind, samplers: group.samplers });
            i = i + 1;
        }
        let push_constant_ranges: Vec<PushConstantRange> = match push_constants {
            Some(size) => vec![PushConstantRange { stages, start: 0, end: size }],
            None => Vec::new(),
        };
        assert(push_constant_ranges@ =~= spec_push_ranges(push_constants, stages));
        (PipelineLayoutDesc { bind_group_layouts: layouts, push_constant_ranges }, binds)
    }

    /// Builds a render pipeline; both of its shaders are loaded first.
    pub fn render_pipeline(&mut self, desc: RenderPipelineDesc) -> (r: FullRenderPipeline)
        requires
            old(self).can_load(FULLSCREEN_VERTEX_SHADER@),
            old(self).can_load(desc.shader@),
            valid_push_constants(desc.push_constants),
        ensures
            spec_pipeline_parts(
                desc.bind_groups@,
                desc.push_constants,
                SHADER_STAGE_FRAGMENT,
                r.layout,
                r.bind_groups@,
            ),
            final(self).shader_table == old(self).shader_table,
            final(self).validate_shaders == old(self).validate_shaders,
            final(self).shader_modules() == spec_preload(
                spec_preload(
                    old(self).shader_modules(),
                    old(self).shader_table,
                    FULLSCREEN_VERTEX_SHADER@,
                ),
                old(self).shader_table,
                desc.shader@,
            ),
            r.vertex_shader@ == FULLSCREEN_VERTEX_SHADER@,
            r.vertex_module@ == final(self).shader_modules()[FULLSCREEN_VERTEX_SHADER@],
            r.fragment_shader@ == desc.shader@,
            r.fragment_module@ == final(self).shader_modules()[desc.shader@],
            r.target == spec_color_target(desc.target),
            r.cull_mode == Some(Face::Back),
    {
        let (layout, bind_groups) = self.pipeline(
            desc.bind_groups,
            desc.push_constants,
            SHADER_STAGE_FRAGMENT,
        );
        let vertex_shader = FULLSCREEN_VERTEX_SHADER.to_owned();
        let fragment_shader = desc.shader;
        self.shader_preload(&vertex_shader);
        proof {
            assert(self.shader_table.spec_get(fragment_shader@) == old(self).shader_table.spec_get(
                fragment_shader@,
            ));
        }
        self.shader_preload(&fragment_shader);
        let vertex_module = self.shader(&vertex_shader).clone();
        let fragment_module = self.shader(&fragment_shader).clone();
        proof {
            assert(vertex_module@ =~= self.shader_modules()[vertex_shader@]);
            assert(fragment_module@ =~= self.shader_modules()[fragment_shader@]);
        }
        FullRenderPipeline {
            layout,
            vertex_shader,
            vertex_module,
            fragment_shader,
            fragment_module,
            target: ColorTargetState::from(desc.target),
            cull_mode: Some(Face::Back),
            bind_groups,
        }
    }

    /// Builds a compute pipeline whose entry point is `main`.
    pub fn compute_pipeline(&mut self, desc: ComputePipelineDesc) -> (r: FullComputePipeline)
        requires
            old(self).can_load(desc.shader@),
            valid_push_constants(desc.push_constants),
        ensures
            spec_pipeline_parts(
                desc.bind_groups@,
                desc.push_constants,
                SHADER_STAGE_COMPUTE,
                r.layout,
                r.bind_groups@,
            ),
            final(self).shader_table == old(self).shader_table,
            final(self).validate_shaders == old(self).validate_shaders,
            final(self).shader_modules() == spec_preload(
                old(self).shader_modules(),
                old(self).shader_table,
                desc.shader@,
            ),
            r.shader@ == desc.shader@,
            r.module@ == final(self).shader_modules()[desc.shader@],
    {
        let (layout, bind_groups) = self.pipeline(
            desc.bind_groups,
            desc.push_constants,
            SHADER_STAGE_COMPUTE,
        );
        let shader = desc.shader;
        self.shader_preload(&shader);
        let module = self.shader(&shader).clone();
        assert(module@ =~= self.shader_modules()[shader@]);
        FullComputePipeline { layout, shader, module, bind_groups }
    }
}

} // verus!
