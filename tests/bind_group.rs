use gpu_sandbox::base::WgpuBase;
use gpu_sandbox::bind_group::{
    BindGroupEntry, BindingResource, BindingType, BufferBindingType, StorageTextureAccess,
    SHADER_STAGE_ALL,
};
use gpu_sandbox::format::{TextureFormat, TextureSampleType};
use gpu_sandbox::sampler::{AddressMode, FilterMode, SamplerDesc, SamplerDescriptor};
use gpu_sandbox::shaders::ShaderTable;
use gpu_sandbox::texture::{TextureDesc, TextureViewDimension};

fn base() -> WgpuBase {
    WgpuBase::new(ShaderTable { entries: vec![] }, true)
}

fn texture_entry(storage: Option<StorageTextureAccess>) -> BindGroupEntry {
    let desc = TextureDesc { width: 960, height: 507, format: TextureFormat::R32Float }.into_2d(0);
    BindGroupEntry::Texture { storage, desc, view: 7 }
}

#[test]
fn layout_and_bind_have_one_entry_per_slot() {
    let entries = vec![
        texture_entry(None),
        BindGroupEntry::Sampler { desc: SamplerDesc { filter: false, address: AddressMode::Repeat } },
        BindGroupEntry::Buffer { ty: BufferBindingType::Uniform, buffer: 3 },
        BindGroupEntry::Sampler { desc: SamplerDesc { filter: true, address: AddressMode::ClampToEdge } },
    ];
    let r = base().bind_group(&entries);
    assert_eq!(r.layout.len(), 4);
    assert_eq!(r.bind.len(), 4);
    for i in 0..4 {
        assert_eq!(r.layout[i].binding, i as u32);
        assert_eq!(r.bind[i].binding, i as u32);
        assert_eq!(r.layout[i].visibility, SHADER_STAGE_ALL);
        assert_eq!(r.layout[i].count, None);
    }
    assert_eq!(r.bind[0].resource, BindingResource::TextureView(7));
    assert_eq!(r.bind[1].resource, BindingResource::Sampler(0));
    assert_eq!(r.bind[2].resource, BindingResource::Buffer(3));
    assert_eq!(r.bind[3].resource, BindingResource::Sampler(1));
    assert_eq!(r.samplers.len(), 2);
    assert_eq!(r.samplers[0].address_mode_u, AddressMode::Repeat);
    assert_eq!(r.samplers[0].mag_filter, FilterMode::Nearest);
    assert_eq!(r.samplers[1].min_filter, FilterMode::Linear);
    assert_eq!(
        r.layout[1].ty,
        BindingType::Sampler { filtering: false, comparison: false }
    );
    assert_eq!(
        r.layout[2].ty,
        BindingType::Buffer {
            ty: BufferBindingType::Uniform,
            has_dynamic_offset: false,
            min_binding_size: None
        }
    );
}

#[test]
fn empty_entry_list_gives_empty_group() {
    let r = base().bind_group(&vec![]);
    assert!(r.layout.is_empty());
    assert!(r.bind.is_empty());
    assert!(r.samplers.is_empty());
}

#[test]
fn texture_without_storage_is_sampled() {
    assert_eq!(
        texture_entry(None).as_layout(),
        BindingType::Texture {
            sample_type: TextureSampleType::Float { filterable: false },
            view_dimension: TextureViewDimension::D2,
            multisampled: false,
        }
    );
}

#[test]
fn texture_with_storage_keeps_access() {
    for access in [
        StorageTextureAccess::ReadOnly,
        StorageTextureAccess::WriteOnly,
        StorageTextureAccess::ReadWrite,
    ] {
        assert_eq!(
            texture_entry(Some(access)).as_layout(),
            BindingType::StorageTexture {
                access,
                format: TextureFormat::R32Float,
                view_dimension: TextureViewDimension::D2,
            }
        );
    }
}

#[test]
fn sampler_descriptor_from_desc() {
    let d = SamplerDescriptor::from(SamplerDesc { filter: true, address: AddressMode::MirrorRepeat });
    assert_eq!(d.address_mode_u, AddressMode::MirrorRepeat);
    assert_eq!(d.address_mode_v, AddressMode::MirrorRepeat);
    assert_eq!(d.address_mode_w, AddressMode::MirrorRepeat);
    assert_eq!(d.mag_filter, FilterMode::Linear);
    assert_eq!(d.mipmap_filter, FilterMode::Linear);
    let default = SamplerDesc::default();
    assert!(!default.filter);
    assert_eq!(default.address, AddressMode::ClampToEdge);
}
