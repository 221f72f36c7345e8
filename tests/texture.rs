use gpu_sandbox::format::{
    TextureFormat, TextureSampleType, TEXTURE_USAGE_COPY_DST, TEXTURE_USAGE_SAMPLED,
    TEXTURE_USAGE_STORAGE,
};
use gpu_sandbox::init::InitType;
use gpu_sandbox::texture::{
    texture_image_layout, texture_size, texture_view_dimension, Extent3d, ImageDataLayout,
    TextureDesc, TextureDimension, TextureViewDimension,
};

fn desc(width: u32, height: u32, format: TextureFormat) -> TextureDesc {
    TextureDesc { width, height, format }
}

#[test]
fn into_2d_sets_single_layer() {
    let usage = TEXTURE_USAGE_COPY_DST | TEXTURE_USAGE_SAMPLED;
    let d = desc(960, 507, TextureFormat::R32Float).into_2d(usage);
    assert_eq!(d.size, Extent3d { width: 960, height: 507, depth_or_array_layers: 1 });
    assert_eq!(d.dimension, TextureDimension::D2);
    assert_eq!(d.mip_level_count, 1);
    assert_eq!(d.sample_count, 1);
    assert_eq!(d.usage, usage);
    assert_eq!(d.format, TextureFormat::R32Float);
}

#[test]
fn into_2d_array_and_3d_set_depth() {
    let a = desc(4, 4, TextureFormat::Rgba8Unorm).into_2d_array(TEXTURE_USAGE_STORAGE, 6);
    assert_eq!(a.size.depth_or_array_layers, 6);
    assert_eq!(a.dimension, TextureDimension::D2);
    let v = desc(4, 4, TextureFormat::Rgba8Unorm).into_3d(TEXTURE_USAGE_STORAGE, 8);
    assert_eq!(v.size.depth_or_array_layers, 8);
    assert_eq!(v.dimension, TextureDimension::D3);
}

#[test]
fn view_dimension_follows_dimension_and_layers() {
    let d = desc(8, 8, TextureFormat::Rgba8Unorm);
    assert_eq!(texture_view_dimension(&d.into_2d(0)), TextureViewDimension::D2);
    assert_eq!(texture_view_dimension(&d.into_2d_array(0, 2)), TextureViewDimension::D2Array);
    assert_eq!(texture_view_dimension(&d.into_2d_array(0, 1)), TextureViewDimension::D2);
    assert_eq!(texture_view_dimension(&d.into_3d(0, 4)), TextureViewDimension::D3);
    let mut one = d.into_2d(0);
    one.dimension = TextureDimension::D1;
    assert_eq!(texture_view_dimension(&one), TextureViewDimension::D1);
}

#[test]
fn aligned_pads_width_to_copy_alignment() {
    let a = desc(800, 600, TextureFormat::Bgra8Unorm).aligned();
    assert_eq!(a, desc(832, 600, TextureFormat::Bgra8Unorm));
    let exact = desc(64, 3, TextureFormat::Bgra8Unorm).aligned();
    assert_eq!(exact.width, 64);
    let one = desc(1, 1, TextureFormat::R32Float).aligned();
    assert_eq!(one.width, 64);
}

#[test]
fn image_layout_strides() {
    let flat = desc(10, 20, TextureFormat::Rgba8Unorm).into_2d(0);
    assert_eq!(
        texture_image_layout(&flat),
        ImageDataLayout { offset: 0, bytes_per_row: Some(40), rows_per_image: None }
    );
    let row = desc(10, 1, TextureFormat::Rgba8Unorm).into_2d(0);
    assert_eq!(texture_image_layout(&row).bytes_per_row, None);
    let layered = desc(10, 20, TextureFormat::Rgba8Unorm).into_2d_array(0, 3);
    assert_eq!(texture_image_layout(&layered).rows_per_image, Some(20));
}

#[test]
fn texture_size_counts_every_texel() {
    assert_eq!(texture_size(&desc(832, 600, TextureFormat::Bgra8Unorm).into_2d(0)), 1_996_800);
    assert_eq!(texture_size(&desc(3, 5, TextureFormat::R32Float).into_3d(0, 7)), 420);
    assert_eq!(texture_size(&desc(0, 5, TextureFormat::R32Float).into_2d(0)), 0);
}

#[test]
fn format_properties() {
    assert_eq!(TextureFormat::Bgra8Unorm.block_size(), 4);
    assert_eq!(
        TextureFormat::R32Float.sample_type(),
        TextureSampleType::Float { filterable: false }
    );
    assert_eq!(TextureFormat::R32Uint.sample_type(), TextureSampleType::Uint);
    assert_eq!(
        TextureFormat::Rgba8Unorm.sample_type(),
        TextureSampleType::Float { filterable: true }
    );
    assert!(TextureFormat::Bgra8UnormSrgb.is_srgb());
    assert!(!TextureFormat::Bgra8Unorm.is_srgb());
}

#[test]
fn init_uninit_gives_nothing() {
    assert_eq!(InitType::Uninit.create(16), None);
}

#[test]
fn init_zeros_fills_size() {
    assert_eq!(InitType::Zeros.create(5), Some(vec![0u8; 5]));
    assert_eq!(InitType::Zeros.create(0), Some(vec![]));
}

#[test]
fn init_repeated_cycles_pattern() {
    assert_eq!(InitType::Repeated(vec![1, 2, 3]).create(7), Some(vec![1, 2, 3, 1, 2, 3, 1]));
    assert_eq!(InitType::Repeated(vec![9, 8]).create(1), Some(vec![9]));
}

#[test]
fn init_data_is_passed_through() {
    assert_eq!(InitType::Data(vec![4, 5, 6]).create(3), Some(vec![4, 5, 6]));
}

#[test]
fn init_repeated_to_zero_size_is_empty() {
    assert_eq!(InitType::Repeated(vec![1, 2]).create(0), Some(vec![]));
}

#[test]
fn aligned_keeps_height_and_format() {
    let a = desc(65, 9, TextureFormat::R32Uint).aligned();
    assert_eq!(a, desc(128, 9, TextureFormat::R32Uint));
}

#[test]
fn init_empty_pattern_with_zero_size() {
    assert_eq!(InitType::Repeated(vec![]).create(0), Some(vec![]));
}

#[test]
fn srgb_correction_only_for_linear_targets() {
    assert!(TextureFormat::Bgra8Unorm.needs_srgb_correction());
    assert!(!TextureFormat::Bgra8UnormSrgb.needs_srgb_correction());
    assert!(!TextureFormat::Rgba8UnormSrgb.needs_srgb_correction());
}
