use vstd::prelude::*;

use crate::format::{spec_block_size, TextureFormat};

verus! {

#[derive(Clone, Copy, Debug, PartialEq, Eq, Structural)]
pub struct Extent3d {
    pub width: u32,
    pub height: u32,
    pub depth_or_array_layers: u32,
}

#[derive(Clone, Copy, Debug, PartialEq, Eq, Structural)]
pub enum TextureDimension {
    D1,
    D2,
    D3,
}

#[derive(Clone, Copy, Debug, PartialEq, Eq, Structural)]
pub enum TextureViewDimension {
    D1,
    D2,
    D2Array,
    Cube,
    CubeArray,
    D3,
}

/// Everything needed to allocate a texture on the device.
#[derive(Clone, Copy, Debug, PartialEq, Eq, Structural)]
pub struct TextureDescriptor {
    pub size: Extent3d,
    pub mip_level_count: u32,
    pub sample_count: u32,
    pub dimension: TextureDimension,
    pub format: TextureFormat,
    /// Bit set of `TEXTURE_USAGE_*`.
    pub usage: u32,
}

/// A 2d size and format, from which full texture descriptors are derived.
#[derive(Clone, Copy, Debug, PartialEq, Eq, Structural)]
pub struct TextureDesc {
    pub width: u32,
    pub height: u32,
    pub format: TextureFormat,
}

/// Texels in one `COPY_BYTES_PER_ROW_ALIGNMENT`-byte row.
pub open spec fn spec_pixel_align(f: TextureFormat) -> int {
    256int / (spec_block_size(f) as int)
}

/// Width rounded up to the next whole multiple of `align`.
pub open spec fn round_up(width: int, align: int) -> int
    recommends
        align > 0,
{
    ((width + align - 1) / align) * align
}

impl TextureDesc {
    pub open spec fn into_2d_spec(&self, usage: u32) -> TextureDescriptor {
        TextureDescriptor {
            size: Extent3d { width: self.width, height: self.height, depth_or_array_layers: 1 },
            mip_level_count: 1,
            sample_count: 1,
            dimension: TextureDimension::D2,
            format: self.format,
            usage,
        }
    }

    pub fn into_2d(&self, usage: u32) -> (r: TextureDescriptor)
        ensures
            r == self.into_2d_spec(usage),
    {
        TextureDescriptor {
            size: Extent3d { width: self.width, height: self.height, depth_or_array_layers: 1 },
            mip_level_count: 1,
            sample_count: 1,
            dimension: TextureDimension::D2,
            format: self.format,
            usage,
        }
    }

    pub fn into_2d_array(&self, usage: u32, length: u32) -> (r: TextureDescriptor)
        ensures
            r == (TextureDescriptor {
                size: Extent3d {
                    width: self.width,
                    height: self.height,
                    depth_or_array_layers: length,
                },
                mip_level_count: 1,
                sample_count: 1,
                dimension: TextureDimension::D2,
                format: self.format,
                usage,
            }),
    {
        let base = self.into_2d(usage);
        TextureDescriptor {
            size: Extent3d { depth_or_array_layers: length, ..base.size },
            ..base
        }
    }

    pub fn into_3d(&self, usage: u32, depth: u32) -> (r: TextureDescriptor)
        ensures
            r == (TextureDescriptor {
                size: Extent3d {
                    width: self.width,
                    height: self.height,
                    depth_or_array_layers: depth,
                },
                mip_level_count: 1,
                sample_count: 1,
                dimension: TextureDimension::D3,
                format: self.format,
                usage,
            }),
    {
        let base = self.into_2d_array(usage, depth);
        TextureDescriptor { dimension: TextureDimension::D3, ..base }
    }

    /// The same texture with its width padded so that one row of texels is a
    /// whole multiple of `COPY_BYTES_PER_ROW_ALIGNMENT` bytes.
    pub fn aligned(&self) -> (r: TextureDesc)
        requires
            self.width >= 1,
            round_up(self.width as int, spec_pixel_align(self.format)) <= u32::MAX,
        ensures
            r.height == self.height,
            r.format == self.format,
            r.width == round_up(self.width as int, spec_pixel_align(self.format)),
            (r.width as int * spec_block_size(self.format)) % 256 == 0,
            self.width <= r.width,
            r.width < self.width + spec_pixel_align(self.format),
    {
        let pixel_align = crate::format::COPY_BYTES_PER_ROW_ALIGNMENT / self.format.block_size();
        assert(pixel_align == 64);
        let q = (self.width - 1) / pixel_align;
        assert(round_up(self.width as int, 64) == (q + 1) * 64);
        assert((q + 1) * 64 <= u32::MAX);
        let width = (q + 1) * pixel_align;
        TextureDesc { width, ..*self }
    }
}

/// The view dimension a whole-texture view of `desc` gets.
pub open spec fn spec_view_dimension(desc: TextureDescriptor) -> TextureViewDimension {
    match desc.dimension {
        TextureDimension::D1 => TextureViewDimension::D1,
        TextureDimension::D2 => if desc.size.depth_or_array_layers > 1 {
            TextureViewDimension::D2Array
        } else {
            TextureViewDimension::D2
        },
        TextureDimension::D3 => TextureViewDimension::D3,
    }
}

pub fn texture_view_dimension(desc: &TextureDescriptor) -> (r: TextureViewDimension)
    ensures
        r == spec_view_dimension(*desc),
{
    match desc.dimension {
        TextureDimension::D1 => TextureViewDimension::D1,
        TextureDimension::D2 => if desc.size.depth_or_array_layers > 1 {
            TextureViewDimension::D2Array
        } else {
            TextureViewDimension::D2
        },
        TextureDimension::D3 => TextureViewDimension::D3,
    }
}

/// Layout of texel data in a linear buffer. Strides are `None` where they
/// are not needed or would be zero.
#[derive(Clone, Copy, Debug, PartialEq, Eq, Structural)]
pub struct ImageDataLayout {
    pub offset: u64,
    pub bytes_per_row: Option<u32>,
    pub rows_per_image: Option<u32>,
}

/// Tightly packed layout of the texels of `desc`: a row stride only when there
/// is more than one row, an image stride only when there is more than one
/// layer.
pub fn texture_image_layout(desc: &TextureDescriptor) -> (r: ImageDataLayout)
    requires
        desc.size.width as int * spec_block_size(desc.format) <= u32::MAX,
    ensures
        r.offset == 0,
        r.bytes_per_row == if desc.size.height > 1 && desc.size.width > 0 {
            Some((desc.size.width as int * spec_block_size(desc.format)) as u32)
        } else {
            None
        },
        r.rows_per_image == if desc.size.depth_or_array_layers > 1 && desc.size.height > 0 {
            Some(desc.size.height)
        } else {
            None
        },
{
    let size = desc.size;
    let block = desc.format.block_size();
    let bytes_per_row = if size.height > 1 && size.width > 0 {
        Some(size.width * block)
    } else {
        None
    };
    let rows_per_image = if size.depth_or_array_layers > 1 && size.height > 0 {
        Some(size.height)
    } else {
        None
    };
    ImageDataLayout { offset: 0, bytes_per_row, rows_per_image }
}

/// Bytes taken by all texels of `desc`.
pub open spec fn spec_texture_size(desc: TextureDescriptor) -> int {
    spec_block_size(desc.format) * desc.size.width * desc.size.height
        * desc.size.depth_or_array_layers
}

/// Byte size of a texture with a single mip level.
pub fn texture_size(desc: &TextureDescriptor) -> (r: usize)
    requires
        desc.mip_level_count == 1,
        spec_texture_size(*desc) <= usize::MAX,
    ensures
        r == spec_texture_size(*desc),
{
    let block = desc.format.block_size() as usize;
    let w = desc.size.width as usize;
    let h = desc.size.height as usize;
    let d = desc.size.depth_or_array_layers as usize;
    proof {
        let b = block as int;
        assert(0 <= b * w <= b * w * h * d || h == 0 || d == 0) by (nonlinear_arith)
            requires b >= 1, w >= 0, h >= 0, d >= 0;
        assert(0 <= b * w * h <= b * w * h * d || d == 0) by (nonlinear_arith)
            requires b >= 1, w >= 0, h >= 0, d >= 0;
    }
    if h == 0 || d == 0 {
        proof {
            let b = block as int;
            assert(b * w * h * d == 0) by (nonlinear_arith) requires h == 0 || d == 0;
        }
        return 0;
    }
    block * w * h * d
}

} // verus!
