use vstd::prelude::*;

use crate::format::{
    spec_block_size, TextureFormat, BUFFER_USAGE_COPY_DST, BUFFER_USAGE_MAP_READ,
    TEXTURE_USAGE_COPY_SRC, TEXTURE_USAGE_RENDER_ATTACHMENT, TEXTURE_USAGE_SAMPLED,
};
use crate::resources::BufferDesc;
use crate::texture::{
    round_up, spec_pixel_align, spec_texture_size, texture_image_layout, texture_size,
    ImageDataLayout, TextureDesc, TextureDescriptor,
};

verus! {

/// Everything a screenshot of a window needs on the device: an off-screen
/// target as wide as the window rounded up to the copy alignment, a readable
/// buffer of the same bytes, and the layout of the copy between them.
#[derive(Clone, Copy, Debug, PartialEq, Eq, Structural)]
pub struct ScreenshotPlan {
    /// The window's size: what the image file holds.
    pub image: TextureDesc,
    /// The padded size the frame is drawn at.
    pub aligned: TextureDesc,
    pub texture: TextureDescriptor,
    pub buffer: BufferDesc,
    pub layout: ImageDataLayout,
}

/// Usage of the off-screen target: drawn into, sampled, copied from.
pub open spec fn screenshot_texture_usage() -> u32 {
    TEXTURE_USAGE_COPY_SRC | TEXTURE_USAGE_SAMPLED | TEXTURE_USAGE_RENDER_ATTACHMENT
}

pub fn screenshot_plan(window: &TextureDesc) -> (r: ScreenshotPlan)
    requires
        window.width >= 1,
        round_up(window.width as int, spec_pixel_align(window.format)) * spec_block_size(
            window.format,
        ) <= u32::MAX,
        round_up(window.width as int, spec_pixel_align(window.format)) * spec_block_size(
            window.format,
        ) * window.height <= usize::MAX,
    ensures
        r.image == *window,
        r.aligned.width == round_up(window.width as int, spec_pixel_align(window.format)),
        r.aligned.height == window.height,
        r.aligned.format == window.format,
        r.texture == r.aligned.into_2d_spec(screenshot_texture_usage()),
        r.buffer == (BufferDesc {
            size: spec_texture_size(r.texture) as usize,
            usage: BUFFER_USAGE_COPY_DST | BUFFER_USAGE_MAP_READ,
        }),
        r.layout.offset == 0,
        r.layout.bytes_per_row == if window.height > 1 {
            Some((r.aligned.width * spec_block_size(window.format)) as u32)
        } else {
            None
        },
        r.layout.rows_per_image is None,
{
    let aligned = window.aligned();
    let texture = aligned.into_2d(
        TEXTURE_USAGE_COPY_SRC | TEXTURE_USAGE_SAMPLED | TEXTURE_USAGE_RENDER_ATTACHMENT,
    );
    proof {
        let w = aligned.width as int;
        let b = spec_block_size(window.format) as int;
        let h = window.height as int;
        assert(b * w * h * 1 == w * b * h) by (nonlinear_arith);
    }
    let buffer = BufferDesc {
        size: texture_size(&texture),
        usage: BUFFER_USAGE_COPY_DST | BUFFER_USAGE_MAP_READ,
    };
    let layout = texture_image_layout(&texture);
    ScreenshotPlan { image: *window, aligned, texture, buffer, layout }
}

/// Rows of `row_bytes` bytes each, taken from the start of every
/// `pitch`-byte row of a padded copy.
pub open spec fn spec_unpadded(data: Seq<u8>, pitch: nat, row_bytes: nat, height: nat) -> Seq<u8> {
    Seq::new(row_bytes * height, |i: int| data[(i / row_bytes as int) * pitch + i % row_bytes as int])
}

/// Drops the padding at the end of each row of a texture copy.
pub fn unpad_rows(data: &Vec<u8>, pitch: usize, row_bytes: usize, height: usize) -> (r: Vec<u8>)
    requires
        row_bytes <= pitch,
        pitch * height <= data@.len(),
        row_bytes * height <= usize::MAX,
    ensures
        r@ == spec_unpadded(data@, pitch as nat, row_bytes as nat, height as nat),
{
    let len = data.len();
    let mut out: Vec<u8> = Vec::with_capacity(row_bytes * height);
    let mut y: usize = 0;
    while y < height
        invariant
            row_bytes <= pitch,
            pitch * height <= data@.len(),
            row_bytes * height <= usize::MAX,
            len == data@.len(),
            y <= height,
            out@.len() == row_bytes * y,
            forall|i: int|
                0 <= i < out@.len() ==> #[trigger] out@[i] == data@[(i / row_bytes as int)
                    * pitch + i % row_bytes as int],
        decreases height - y,
    {
        proof {
            assert(pitch * y + pitch <= pitch * height) by (nonlinear_arith)
                requires y < height, pitch >= 0;
            assert(row_bytes * y + row_bytes <= row_bytes * height) by (nonlinear_arith)
                requires y < height;
        }
        let start = pitch * y;
        let mut x: usize = 0;
        while x < row_bytes
            invariant
                row_bytes <= pitch,
                pitch * height <= data@.len(),
                row_bytes * height <= usize::MAX,
                y < height,
                start == pitch * y,
                start + pitch <= data@.len(),
                len == data@.len(),
                row_bytes * y + row_bytes <= row_bytes * height,
                x <= row_bytes,
                out@.len() == row_bytes * y + x,
                forall|i: int|
                    0 <= i < out@.len() ==> #[trigger] out@[i] == data@[(i / row_bytes as int)
                        * pitch + i % row_bytes as int],
            decreases row_bytes - x,
        {
            let ghost i0 = row_bytes * y + x;
            proof {
                assert(i0 / row_bytes as int == y && i0 % row_bytes as int == x) by (nonlinear_arith)
                    requires i0 == row_bytes * y + x, x < row_bytes, x >= 0, y >= 0;
                assert(y * pitch == pitch * y) by (nonlinear_arith);
            }
            let ghost before = out@;
            out.push(data[start + x]);
            proof {
                assert(out@[i0] == data@[(i0 / row_bytes as int) * pitch + i0 % row_bytes as int]);
                assert forall|i: int| 0 <= i < out@.len() implies #[trigger] out@[i] == data@[(i
                    / row_bytes as int) * pitch + i % row_bytes as int] by {
                    if i < i0 {
                        assert(out@[i] == before[i]);
                    }
                }
            }
            x = x + 1;
        }
        proof {
            assert(row_bytes * (y + 1) == row_bytes * y + row_bytes) by (nonlinear_arith);
        }
        y = y + 1;
    }
    assert(out@ =~= spec_unpadded(data@, pitch as nat, row_bytes as nat, height as nat));
    out
}

/// Byte `i` of an RGBA image made from BGRA bytes: blue and red trade places.
pub open spec fn spec_rgba_from_bgra(data: Seq<u8>) -> Seq<u8> {
    Seq::new(
        data.len(),
        |i: int|
            {
                let p = i - i % 4;
                if i % 4 == 0 {
                    data[p + 2]
                } else if i % 4 == 2 {
                    data[p]
                } else {
                    data[i]
                }
            },
    )
}

/// Relies on image's `DynamicImage::into_rgba8` on a BGRA image of
/// `width` x `height` pixels: every pixel keeps green and alpha and swaps
/// blue with red.
#[verifier::external_body]
fn rgba_from_bgra(width: u32, height: u32, data: Vec<u8>) -> (r: Vec<u8>)
    requires
        data@.len() == 4 * width * height,
    ensures
        r@ == spec_rgba_from_bgra(data@),
{
    let bgra = image::ImageBuffer::<image::Bgra<u8>, Vec<u8>>::from_raw(width, height, data);
    image::DynamicImage::ImageBgra8(bgra.unwrap()).into_rgba8().into_raw()
}

/// The RGBA pixels of a screenshot: the padded rows of a BGRA copy cut back
/// to the window's width, then converted.
pub fn to_image(data: &Vec<u8>, desc: &TextureDesc, pitch: usize) -> (r: Vec<u8>)
    requires
        desc.format == TextureFormat::Bgra8Unorm,
        4 * desc.width <= pitch,
        pitch * desc.height <= data@.len(),
    ensures
        r@ == spec_rgba_from_bgra(
            spec_unpadded(data@, pitch as nat, 4 * desc.width as nat, desc.height as nat),
        ),
        r@.len() == 4 * desc.width * desc.height,
{
    let row_bytes = 4 * desc.width as usize;
    let height = desc.height as usize;
    let len = data.len();
    proof {
        assert(row_bytes * height <= pitch * height) by (nonlinear_arith)
            requires row_bytes <= pitch, height >= 0;
    }
    let rows = unpad_rows(data, pitch, row_bytes, height);
    proof {
        assert(row_bytes * height == 4 * desc.width * desc.height) by (nonlinear_arith)
            requires row_bytes == 4 * desc.width, height == desc.height;
    }
    rgba_from_bgra(desc.width, desc.height, rows)
}

} // verus!
