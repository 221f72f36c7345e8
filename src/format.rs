use vstd::prelude::*;

verus! {

/// Byte alignment that every row of a texture-to-buffer copy must respect.
pub const COPY_BYTES_PER_ROW_ALIGNMENT: u32 = 256;

/// Texture usage bits.
pub const TEXTURE_USAGE_COPY_SRC: u32 = 1;
pub const TEXTURE_USAGE_COPY_DST: u32 = 2;
pub const TEXTURE_USAGE_SAMPLED: u32 = 4;
pub const TEXTURE_USAGE_STORAGE: u32 = 8;
pub const TEXTURE_USAGE_RENDER_ATTACHMENT: u32 = 16;

/// Buffer usage bits.
pub const BUFFER_USAGE_MAP_READ: u32 = 1;
pub const BUFFER_USAGE_MAP_WRITE: u32 = 2;
pub const BUFFER_USAGE_COPY_SRC: u32 = 4;
pub const BUFFER_USAGE_COPY_DST: u32 = 8;
pub const BUFFER_USAGE_UNIFORM: u32 = 64;
pub const BUFFER_USAGE_STORAGE: u32 = 128;

/// Pixel formats the sandbox works with. All of them are uncompressed, so a
/// block is a single texel.
#[derive(Clone, Copy, Debug, PartialEq, Eq, Structural)]
pub enum TextureFormat {
    R32Uint,
    R32Float,
    Rgba8Unorm,
    Rgba8UnormSrgb,
    Bgra8Unorm,
    Bgra8UnormSrgb,
}

/// How a shader may sample a texture of a given format.
#[derive(Clone, Copy, Debug, PartialEq, Eq, Structural)]
pub enum TextureSampleType {
    Float { filterable: bool },
    Depth,
    Sint,
    Uint,
}

/// Bytes per texel of a format.
pub open spec fn spec_block_size(f: TextureFormat) -> nat {
    match f {
        TextureFormat::R32Uint => 4,
        TextureFormat::R32Float => 4,
        TextureFormat::Rgba8Unorm => 4,
        TextureFormat::Rgba8UnormSrgb => 4,
        TextureFormat::Bgra8Unorm => 4,
        TextureFormat::Bgra8UnormSrgb => 4,
    }
}

/// Sample type of a format: 32-bit floats cannot be filtered.
pub open spec fn spec_sample_type(f: TextureFormat) -> TextureSampleType {
    match f {
        TextureFormat::R32Uint => TextureSampleType::Uint,
        TextureFormat::R32Float => TextureSampleType::Float { filterable: false },
        _ => TextureSampleType::Float { filterable: true },
    }
}

/// Whether reads convert from sRGB to linear (and writes the other way).
pub open spec fn spec_is_srgb(f: TextureFormat) -> bool {
    f == TextureFormat::Rgba8UnormSrgb || f == TextureFormat::Bgra8UnormSrgb
}

impl TextureFormat {
    pub fn block_size(&self) -> (r: u32)
        ensures
            r == spec_block_size(*self),
            1 <= r <= 16,
    {
        match self {
            TextureFormat::R32Uint => 4,
            TextureFormat::R32Float => 4,
            TextureFormat::Rgba8Unorm => 4,
            TextureFormat::Rgba8UnormSrgb => 4,
            TextureFormat::Bgra8Unorm => 4,
            TextureFormat::Bgra8UnormSrgb => 4,
        }
    }

    pub fn sample_type(&self) -> (r: TextureSampleType)
        ensures
            r == spec_sample_type(*self),
    {
        match self {
            TextureFormat::R32Uint => TextureSampleType::Uint,
            TextureFormat::R32Float => TextureSampleType::Float { filterable: false },
            _ => TextureSampleType::Float { filterable: true },
        }
    }

    /// Whether something drawing linear colors into a target of this format
    /// must convert them to sRGB itself: only a linear target leaves the
    /// conversion to it, an sRGB target converts on write.
    pub fn needs_srgb_correction(&self) -> (r: bool)
        ensures
            r == !spec_is_srgb(*self),
    {
        !self.is_srgb()
    }

    pub fn is_srgb(&self) -> (r: bool)
        ensures
            r == spec_is_srgb(*self),
    {
        match self {
            TextureFormat::Rgba8UnormSrgb | TextureFormat::Bgra8UnormSrgb => true,
            _ => false,
        }
    }
}

} // verus!
