use gpu_sandbox::base::{FrameStep, LoadOp, RenderPassDesc, WgpuBase};
use gpu_sandbox::bind_group::{
    BindGroupEntry, BufferBindingType, SHADER_STAGE_COMPUTE, SHADER_STAGE_FRAGMENT,
};
use gpu_sandbox::format::{TextureFormat, BUFFER_USAGE_STORAGE, TEXTURE_USAGE_COPY_DST, TEXTURE_USAGE_SAMPLED};
use gpu_sandbox::init::InitType;
use gpu_sandbox::pipeline::{
    BlendState, ColorTargetState, ComputePipelineDesc, Face, PushConstantRange,
    RenderPipelineDesc, COLOR_WRITE_ALL,
};
use gpu_sandbox::resources::BufferDesc;
use gpu_sandbox::sampler::SamplerDesc;
use gpu_sandbox::shaders::{load, ShaderError, ShaderSource, ShaderTable};
use gpu_sandbox::texture::TextureDesc;

fn table() -> ShaderTable {
    ShaderTable {
        entries: vec![
            ShaderSource { name: "fullscreen.vert".to_string(), compiled: Ok(vec![1, 2, 3, 4]) },
            ShaderSource { name: "shader.frag".to_string(), compiled: Ok(vec![5, 6, 7, 8]) },
            ShaderSource { name: "init_agents.comp".to_string(), compiled: Ok(vec![9, 9]) },
            ShaderSource { name: "broken.frag".to_string(), compiled: Err("syntax error".to_string()) },
        ],
    }
}

fn sampler_group(base: &WgpuBase) -> gpu_sandbox::bind_group::BindGroupResult {
    base.bind_group(&vec![BindGroupEntry::Sampler { desc: SamplerDesc::default() }])
}

#[test]
fn render_pipeline_with_push_constants() {
    let mut base = WgpuBase::new(table(), false);
    let group = sampler_group(&base);
    let group_layout = group.layout.clone();
    let p = base.render_pipeline(RenderPipelineDesc {
        bind_groups: vec![group],
        shader: "shader.frag".to_string(),
        target: TextureFormat::Bgra8Unorm,
        push_constants: Some(16),
    });
    assert_eq!(
        p.layout.push_constant_ranges,
        vec![PushConstantRange { stages: SHADER_STAGE_FRAGMENT, start: 0, end: 16 }]
    );
    assert_eq!(p.target.format, TextureFormat::Bgra8Unorm);
    assert_eq!(p.target.blend, Some(BlendState::Replace));
    assert_eq!(p.target.write_mask, COLOR_WRITE_ALL);
    assert_eq!(p.cull_mode, Some(Face::Back));
    assert_eq!(p.vertex_shader, "fullscreen.vert");
    assert_eq!(p.vertex_module, vec![1, 2, 3, 4]);
    assert_eq!(p.fragment_shader, "shader.frag");
    assert_eq!(p.fragment_module, vec![5, 6, 7, 8]);
    assert_eq!(p.layout.bind_group_layouts, vec![group_layout]);
    assert_eq!(p.bind_groups.len(), 1);
    assert_eq!(p.bind_groups[0].samplers.len(), 1);
}

#[test]
fn render_pipeline_without_push_constants() {
    let mut base = WgpuBase::new(table(), false);
    let p = base.render_pipeline(RenderPipelineDesc {
        bind_groups: vec![],
        shader: "shader.frag".to_string(),
        target: TextureFormat::Rgba8Unorm,
        push_constants: None,
    });
    assert!(p.layout.push_constant_ranges.is_empty());
    assert!(p.layout.bind_group_layouts.is_empty());
    assert_eq!(p.target, ColorTargetState::from(TextureFormat::Rgba8Unorm));
    assert!(p.bind_groups.is_empty());
}

#[test]
fn compute_pipeline_keeps_groups_in_order() {
    let mut base = WgpuBase::new(table(), false);
    let first = base.bind_group(&vec![BindGroupEntry::Buffer {
        ty: BufferBindingType::Storage { read_only: false },
        buffer: 11,
    }]);
    let second = sampler_group(&base);
    let (l0, l1) = (first.layout.clone(), second.layout.clone());
    let p = base.compute_pipeline(ComputePipelineDesc {
        bind_groups: vec![first, second],
        shader: "init_agents.comp".to_string(),
        push_constants: Some(8),
    });
    assert_eq!(p.layout.bind_group_layouts, vec![l0, l1]);
    assert_eq!(
        p.layout.push_constant_ranges,
        vec![PushConstantRange { stages: SHADER_STAGE_COMPUTE, start: 0, end: 8 }]
    );
    assert_eq!(p.module, vec![9, 9]);
    assert_eq!(p.bind_groups.len(), 2);
}

#[test]
fn shader_cache_loads_once() {
    let mut base = WgpuBase::new(table(), true);
    let name = "shader.frag".to_string();
    assert!(base.shader_available(&name));
    base.shader_preload(&name);
    assert_eq!(base.shader(&name), &vec![5, 6, 7, 8]);
    base.shader_preload(&name);
    assert_eq!(base.shader(&name), &vec![5, 6, 7, 8]);
}

#[test]
fn missing_and_broken_shaders_are_unavailable() {
    let base = WgpuBase::new(table(), true);
    assert!(!base.shader_available(&"nope.frag".to_string()));
    assert!(!base.shader_available(&"broken.frag".to_string()));
}

#[test]
fn lookup_reports_not_found_and_compile_errors() {
    let t = table();
    assert_eq!(t.lookup(&"nope.frag".to_string()), Err(ShaderError::NotFound));
    assert_eq!(
        t.lookup(&"broken.frag".to_string()),
        Err(ShaderError::Compile("syntax error".to_string()))
    );
    assert_eq!(t.lookup(&"shader.frag".to_string()), Ok(&vec![5, 6, 7, 8]));
}

#[test]
fn load_labels_module_with_name() {
    let m = load(&table(), &"shader.frag".to_string(), true);
    assert_eq!(m.label, "shader.frag");
    assert_eq!(m.spirv, vec![5, 6, 7, 8]);
    assert!(m.validate);
}

#[test]
fn frame_runs_hooks_around_one_pass() {
    let base = WgpuBase::new(table(), false);
    let steps = base.render(42);
    assert_eq!(
        steps,
        vec![
            FrameStep::BeginCommands,
            FrameStep::PrePass,
            FrameStep::BeginRenderPass(RenderPassDesc {
                view: 42,
                resolve_target: None,
                load: LoadOp::Clear,
                store: true
            }),
            FrameStep::MainPass,
            FrameStep::EndRenderPass,
            FrameStep::PostPass,
            FrameStep::Submit,
        ]
    );
    assert_eq!(steps.iter().filter(|s| **s == FrameStep::Submit).count(), 1);
}

#[test]
fn texture_with_data_is_copy_destination() {
    let base = WgpuBase::new(table(), false);
    let desc = TextureDesc { width: 2, height: 2, format: TextureFormat::R32Float }
        .into_2d(TEXTURE_USAGE_SAMPLED);
    let zeroed = base.texture(&desc, InitType::Zeros);
    assert_eq!(zeroed.data, Some(vec![0u8; 16]));
    assert_eq!(zeroed.desc.usage, TEXTURE_USAGE_SAMPLED | TEXTURE_USAGE_COPY_DST);
    let empty = base.texture(&desc, InitType::Uninit);
    assert_eq!(empty.data, None);
    assert_eq!(empty.desc.usage, TEXTURE_USAGE_SAMPLED);
}

#[test]
fn buffer_init_policies() {
    let base = WgpuBase::new(table(), false);
    let desc = BufferDesc { size: 6, usage: BUFFER_USAGE_STORAGE };
    assert_eq!(base.buffer(desc, InitType::Uninit).contents, None);
    assert_eq!(base.buffer(desc, InitType::Repeated(vec![1, 2, 3, 4])).contents, Some(vec![1, 2, 3, 4, 1, 2]));
    let r = base.buffer(desc, InitType::Data(vec![7; 6]));
    assert_eq!(r.contents, Some(vec![7; 6]));
    assert_eq!(r.desc, desc);
}

#[test]
fn pipeline_layout_push_constant_ranges() {
    let base = WgpuBase::new(table(), false);
    let (layout, bound) = base.pipeline(vec![sampler_group(&base)], Some(128), SHADER_STAGE_FRAGMENT);
    assert_eq!(
        layout.push_constant_ranges,
        vec![PushConstantRange { stages: SHADER_STAGE_FRAGMENT, start: 0, end: 128 }]
    );
    assert_eq!(layout.bind_group_layouts.len(), 1);
    assert_eq!(bound.len(), 1);
    let (none, _) = base.pipeline(vec![], None, SHADER_STAGE_COMPUTE);
    assert!(none.push_constant_ranges.is_empty());
}

#[test]
fn color_target_has_replace_blend_and_full_mask() {
    let t = ColorTargetState::from(TextureFormat::Bgra8UnormSrgb);
    assert_eq!(t.format, TextureFormat::Bgra8UnormSrgb);
    assert_eq!(t.blend, Some(BlendState::Replace));
    assert_eq!(t.write_mask, COLOR_WRITE_ALL);
}
