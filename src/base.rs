use vstd::prelude::*;

use crate::bind_group::{
    bind_group, spec_as_layout, spec_resource, spec_samplers, BindGroupEntry,
    BindGroupLayoutEntry, BindGroupResourceEntry, BindGroupResult, SHADER_STAGE_ALL,
};
use crate::shaders::{
    cache_get, cache_insert, cache_new, cached_modules, load, ShaderCache, ShaderTable,
};

verus! {

/// Largest push-constant block, in bytes, that the device is asked for.
pub const MAX_PUSH_CONSTANT_SIZE: u32 = 128;

/// The GPU context as the pipeline-building logic sees it: the table of
/// compiled shaders and the modules loaded from it so far.
pub struct WgpuBase {
    pub shader_table: ShaderTable,
    pub validate_shaders: bool,
    pub shaders: ShaderCache,
}

/// How the color attachment of a pass starts.
#[derive(Clone, Copy, Debug, PartialEq, Eq, Structural)]
pub enum LoadOp {
    /// Cleared to the background color.
    Clear,
    /// Keeps what the attachment held.
    Load,
}

/// A render pass with a single color attachment and no depth or stencil.
#[derive(Clone, Copy, Debug, PartialEq, Eq, Structural)]
pub struct RenderPassDesc {
    /// Handle of the view drawn into.
    pub view: u64,
    pub resolve_target: Option<u64>,
    pub load: LoadOp,
    pub store: bool,
}

/// One step of a frame, in the order the steps are carried out.
#[derive(Clone, Copy, Debug, PartialEq, Eq, Structural)]
pub enum FrameStep {
    /// Opens the frame's only command buffer.
    BeginCommands,
    /// Work recorded before the render pass (compute dispatches).
    PrePass,
    BeginRenderPass(RenderPassDesc),
    /// Drawing inside the render pass.
    MainPass,
    EndRenderPass,
    /// Work recorded after the render pass (copies out of the target).
    PostPass,
    /// Submits the command buffer.
    Submit,
}

/// The pass of a frame: clears `view` at the start and stores at the end.
pub fn begin_render_pass(view: u64) -> (r: RenderPassDesc)
    ensures
        r == (RenderPassDesc { view, resolve_target: None, load: LoadOp::Clear, store: true }),
{
    RenderPassDesc { view, resolve_target: None, load: LoadOp::Clear, store: true }
}

pub open spec fn spec_frame(view: u64) -> Seq<FrameStep> {
    seq![
        FrameStep::BeginCommands,
        FrameStep::PrePass,
        FrameStep::BeginRenderPass(
            RenderPassDesc { view, resolve_target: None, load: LoadOp::Clear, store: true },
        ),
        FrameStep::MainPass,
        FrameStep::EndRenderPass,
        FrameStep::PostPass,
        FrameStep::Submit,
    ]
}

/// The loaded modules after asking for `name`: unchanged if it was loaded,
/// else with its bytecode from the table added.
pub open spec fn spec_preload(
    modules: Map<Seq<char>, Seq<u8>>,
    table: ShaderTable,
    name: Seq<char>,
) -> Map<Seq<char>, Seq<u8>> {
    if modules.contains_key(name) {
        modules
    } else {
        modules.insert(name, table.spec_get(name)->Ok_0)
    }
}

impl WgpuBase {
    pub open spec fn shader_modules(&self) -> Map<Seq<char>, Seq<u8>> {
        cached_modules(self.shaders)
    }

    /// Whether `name` is loaded or can be loaded without error.
    pub open spec fn can_load(&self, name: Seq<char>) -> bool {
        self.shader_modules().contains_key(name) || self.shader_table.spec_get(name) is Ok
    }

    pub fn new(shader_table: ShaderTable, validate_shaders: bool) -> (r: WgpuBase)
        ensures
            r.shader_table == shader_table,
            r.validate_shaders == validate_shaders,
            r.shader_modules().dom() == Set::<Seq<char>>::empty(),
    {
        WgpuBase { shader_table, validate_shaders, shaders: cache_new() }
    }

    pub fn shader_available(&self, name: &String) -> (r: bool)
        ensures
            r == self.can_load(name@),
    {
        match cache_get(&self.shaders, name) {
            Some(_) => true,
            None => self.shader_table.lookup(name).is_ok(),
        }
    }

    /// Loads `name` once and keeps it; a name already loaded is left alone.
    pub fn shader_preload(&mut self, name: &String)
        requires
            old(self).can_load(name@),
        ensures
            final(self).shader_table == old(self).shader_table,
            final(self).validate_shaders == old(self).validate_shaders,
            final(self).shader_modules() == spec_preload(
                old(self).shader_modules(),
                old(self).shader_table,
                name@,
            ),
    {
        if cache_get(&self.shaders, name).is_none() {
            let module = load(&self.shader_table, name, self.validate_shaders);
            cache_insert(&mut self.shaders, name.clone(), module.spirv);
        }
    }

    /// The module loaded under `name`; loading it first is the caller's job.
    pub fn shader(&self, name: &String) -> (r: &Vec<u8>)
        requires
            self.shader_modules().contains_key(name@),
        ensures
            r@ == self.shader_modules()[name@],
    {
        cache_get(&self.shaders, name).unwrap()
    }

    /// See [`bind_group`].
    pub fn bind_group(&self, entries: &Vec<BindGroupEntry>) -> (r: BindGroupResult)
        requires
            entries@.len() <= u32::MAX,
        ensures
            r.layout@.len() == entries@.len(),
            r.bind@.len() == entries@.len(),
            r.samplers@ == spec_samplers(entries@),
            forall|i: int|
                0 <= i < entries@.len() ==> (#[trigger] r.layout@[i]) == (BindGroupLayoutEntry {
                    binding: i as u32,
                    visibility: SHADER_STAGE_ALL,
                    ty: spec_as_layout(entries@[i]),
                    count: None,
                }),
            forall|i: int|
                0 <= i < entries@.len() ==> (#[trigger] r.bind@[i]) == (BindGroupResourceEntry {
                    binding: i as u32,
                    resource: spec_resource(entries@, i),
                }),
    {
        bind_group(entries)
    }

    /// The steps of one frame drawn into `view`: one command buffer, the
    /// pre-pass hook, one render pass around the main hook, the post-pass
    /// hook, and a single submission at the end.
    pub fn render(&self, view: u64) -> (r: Vec<FrameStep>)
        ensures
            r@ == spec_frame(view),
    {
        let v: Vec<FrameStep> = vec![
            FrameStep::BeginCommands,
            FrameStep::PrePass,
            FrameStep::BeginRenderPass(begin_render_pass(view)),
            FrameStep::MainPass,
            FrameStep::EndRenderPass,
            FrameStep::PostPass,
            FrameStep::Submit,
        ];
        assert(v@ =~= spec_frame(view));
        v
    }
}

} // verus!
