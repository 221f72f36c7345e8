use vstd::prelude::*;

use crate::format::{spec_sample_type, TextureFormat, TextureSampleType};
use crate::sampler::{spec_sampler_descriptor, SamplerDesc, SamplerDescriptor};
use crate::texture::{spec_view_dimension, texture_view_dimension, TextureDescriptor, TextureViewDimension};

verus! {

/// Shader stage bits.
pub const SHADER_STAGE_VERTEX: u32 = 1;
pub const SHADER_STAGE_FRAGMENT: u32 = 2;
pub const SHADER_STAGE_COMPUTE: u32 = 4;
/// Every stage at once.
pub const SHADER_STAGE_ALL: u32 = 7;

#[derive(Clone, Copy, Debug, PartialEq, Eq, Structural)]
pub enum BufferBindingType {
    Uniform,
    Storage { read_only: bool },
}

#[derive(Clone, Copy, Debug, PartialEq, Eq, Structural)]
pub enum StorageTextureAccess {
    ReadOnly,
    WriteOnly,
    ReadWrite,
}

/// The type half of a binding: what a layout records about one slot.
#[derive(Clone, Copy, Debug, PartialEq, Eq, Structural)]
pub enum BindingType {
    Buffer { ty: BufferBindingType, has_dynamic_offset: bool, min_binding_size: Option<u64> },
    Sampler { filtering: bool, comparison: bool },
    Texture {
        sample_type: TextureSampleType,
        view_dimension: TextureViewDimension,
        multisampled: bool,
    },
    StorageTexture {
        access: StorageTextureAccess,
        format: TextureFormat,
        view_dimension: TextureViewDimension,
    },
}

#[derive(Clone, Copy, Debug, PartialEq, Eq, Structural)]
pub struct BindGroupLayoutEntry {
    pub binding: u32,
    /// Bit set of `SHADER_STAGE_*`.
    pub visibility: u32,
    pub ty: BindingType,
    pub count: Option<u32>,
}

/// The value half of a binding. Buffers and views are named by the handles
/// the caller gave them; samplers by their position in the group's own list
/// of samplers.
#[derive(Clone, Copy, Debug, PartialEq, Eq, Structural)]
pub enum BindingResource {
    /// The whole of the buffer.
    Buffer(u64),
    Sampler(usize),
    TextureView(u64),
}

#[derive(Clone, Copy, Debug, PartialEq, Eq, Structural)]
pub struct BindGroupResourceEntry {
    pub binding: u32,
    pub resource: BindingResource,
}

/// One slot of a bind group, in the order of the slots.
#[allow(inconsistent_fields)]
#[derive(Clone, Copy, Debug, PartialEq, Eq, Structural)]
pub enum BindGroupEntry {
    Buffer { ty: BufferBindingType, buffer: u64 },
    Sampler { desc: SamplerDesc },
    /// A sampled texture when `storage` is `None`, else a storage texture
    /// with that access. Only the dimensionality and format of `desc` count.
    Texture { storage: Option<StorageTextureAccess>, desc: TextureDescriptor, view: u64 },
}

/// A layout and the resources bound to it, derived from one list of entries.
/// The samplers created for the group live as long as the group does.
#[derive(Clone, Debug)]
pub struct BindGroupResult {
    pub layout: Vec<BindGroupLayoutEntry>,
    pub bind: Vec<BindGroupResourceEntry>,
    pub samplers: Vec<SamplerDescriptor>,
}

pub open spec fn spec_as_layout(entry: BindGroupEntry) -> BindingType {
    match entry {
        BindGroupEntry::Buffer { ty, .. } => BindingType::Buffer {
            ty,
            has_dynamic_offset: false,
            min_binding_size: None,
        },
        BindGroupEntry::Sampler { desc } => BindingType::Sampler {
            filtering: desc.filter,
            comparison: false,
        },
        BindGroupEntry::Texture { storage: None, desc, .. } => BindingType::Texture {
            sample_type: spec_sample_type(desc.format),
            view_dimension: spec_view_dimension(desc),
            multisampled: false,
        },
        BindGroupEntry::Texture { storage: Some(access), desc, .. } => BindingType::StorageTexture {
            access,
            format: desc.format,
            view_dimension: spec_view_dimension(desc),
        },
    }
}

/// Descriptors of the samplers that `entries` ask for, in order.
pub open spec fn spec_samplers(entries: Seq<BindGroupEntry>) -> Seq<SamplerDescriptor>
    decreases entries.len(),
{
    if entries.len() == 0 {
        Seq::empty()
    } else {
        let prev = spec_samplers(entries.drop_last());
        match entries.last() {
            BindGroupEntry::Sampler { desc } => prev.push(spec_sampler_descriptor(desc)),
            _ => prev,
        }
    }
}

/// The resource bound in slot `i`; a sampler is the one made for that slot.
pub open spec fn spec_resource(entries: Seq<BindGroupEntry>, i: int) -> BindingResource {
    match entries[i] {
        BindGroupEntry::Buffer { buffer, .. } => BindingResource::Buffer(buffer),
        BindGroupEntry::Sampler { .. } => BindingResource::Sampler(
            spec_samplers(entries.take(i)).len() as usize,
        ),
        BindGroupEntry::Texture { view, .. } => BindingResource::TextureView(view),
    }
}

impl BindGroupEntry {
    /// The binding type of this slot: samplers filter as their descriptor
    /// says; a texture is sampled unless it has a storage access, in which
    /// case it is a storage texture with exactly that access.
    pub fn as_layout(&self) -> (r: BindingType)
        ensures
            r == spec_as_layout(*self),
            match *self {
                BindGroupEntry::Texture { storage: None, .. } => r is Texture,
                BindGroupEntry::Texture { storage: Some(access), .. } => (r is StorageTexture
                    && r->StorageTexture_access == access),
                _ => true,
            },
    {
        match self {
            BindGroupEntry::Buffer { ty, .. } => BindingType::Buffer {
                ty: *ty,
                has_dynamic_offset: false,
                min_binding_size: None,
            },
            BindGroupEntry::Sampler { desc } => BindingType::Sampler {
                filtering: desc.filter,
                comparison: false,
            },
            BindGroupEntry::Texture { storage: None, desc, .. } => BindingType::Texture {
                sample_type: desc.format.sample_type(),
                view_dimension: texture_view_dimension(desc),
                multisampled: false,
            },
            BindGroupEntry::Texture { storage: Some(access), desc, .. } => {
                BindingType::StorageTexture {
                    access: *access,
                    format: desc.format,
                    view_dimension: texture_view_dimension(desc),
                }
            },
        }
    }

    /// The resource of this slot. A sampler entry adds its sampler to
    /// `samplers`, which keeps it alive next to the group.
    pub fn as_bind(&self, samplers: &mut Vec<SamplerDescriptor>) -> (r: BindingResource)
        requires
            old(samplers)@.len() < usize::MAX,
        ensures
            match *self {
                BindGroupEntry::Buffer { buffer, .. } => r == BindingResource::Buffer(buffer)
                    && final(samplers)@ == old(samplers)@,
                BindGroupEntry::Sampler { desc } => r == BindingResource::Sampler(
                    old(samplers)@.len() as usize,
                ) && final(samplers)@ == old(samplers)@.push(spec_sampler_descriptor(desc)),
                BindGroupEntry::Texture { view, .. } => r == BindingResource::TextureView(view)
                    && final(samplers)@ == old(samplers)@,
            },
    {
        match self {
            BindGroupEntry::Buffer { buffer, .. } => BindingResource::Buffer(*buffer),
            BindGroupEntry::Sampler { desc } => {
                let index = samplers.len();
                samplers.push(SamplerDescriptor::from(*desc));
                BindingResource::Sampler(index)
            },
            BindGroupEntry::Texture { view, .. } => BindingResource::TextureView(*view),
        }
    }
}

/// Derives the layout and the bound resources of one group from the same
/// ordered entries: both lists have one element per entry, and slot `i` is
/// bound at index `i`, visible to every stage.
pub fn bind_group(entries: &Vec<BindGroupEntry>) -> (r: BindGroupResult)
    requires
        entries@.len() <= u32::MAX,
    ensures
        r.layout@.len() == entries@.len(),
        r.bind@.len() == entries@.len(),
        r.samplers@ == spec_samplers(entries@),
        forall|i: int|
            0 <= i < entries@.len() ==> (#[trigger] r.layout@[i]) == (BindGroupLayoutEntry {
                binding: i as u32,
                visibility: SHADER_STAGE_ALL,
                ty: spec_as_layout(entries@[i]),
                count: None,
            }),
        forall|i: int|
            0 <= i < entries@.len() ==> (#[trigger] r.bind@[i]) == (BindGroupResourceEntry {
                binding: i as u32,
                resource: spec_resource(entries@, i),
            }),
{
    let n = entries.len();
    let mut layout: Vec<BindGroupLayoutEntry> = Vec::with_capacity(n);
    let mut bind: Vec<BindGroupResourceEntry> = Vec::with_capacity(n);
    let mut samplers: Vec<SamplerDescriptor> = Vec::new();
    let mut i: usize = 0;
    while i < n
        invariant
            n == entries@.len(),
            n <= u32::MAX,
            i <= n,
            layout@.len() == i,
            bind@.len() == i,
            samplers@ == spec_samplers(entries@.take(i as int)),
            samplers@.len() <= i,
            forall|k: int|
                0 <= k < i ==> (#[trigger] layout@[k]) == (BindGroupLayoutEntry {
                    binding: k as u32,
                    visibility: SHADER_STAGE_ALL,
                    ty: spec_as_layout(entries@[k]),
                    count: None,
                }),
            forall|k: int|
                0 <= k < i ==> (#[trigger] bind@[k]) == (BindGroupResourceEntry {
                    binding: k as u32,
                    resource: spec_resource(entries@, k),
                }),
        decreases n - i,
    {
        let entry = &entries[i];
        let ghost before = samplers@;
        let ty = entry.as_layout();
        let resource = entry.as_bind(&mut samplers);
        proof {
            let t = entries@.take(i as int + 1);
            assert(t.drop_last() =~= entries@.take(i as int));
            assert(t.last() == entries@[i as int]);
            assert(samplers@ == spec_samplers(t));
        }
        layout.push(BindGroupLayoutEntry {
            binding: i as u32,
            visibility: SHADER_STAGE_ALL,
            ty,
            count: None,
        });
        bind.push(BindGroupResourceEntry { binding: i as u32, resource });
        i = i + 1;
    }
    assert(entries@.take(n as int) =~= entries@);
    BindGroupResult { layout, bind, samplers }
}

} // verus!
