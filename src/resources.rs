use vstd::prelude::*;

use crate::base::WgpuBase;
use crate::format::TEXTURE_USAGE_COPY_DST;
use crate::init::{spec_init_data, InitType};
use crate::texture::{spec_texture_size, texture_size, TextureDescriptor};

verus! {

/// A texture to allocate, and its initial contents if it has any. A texture
/// that is given contents is always writable as a copy destination.
#[derive(Clone, Debug)]
pub struct TextureResult {
    pub desc: TextureDescriptor,
    pub data: Option<Vec<u8>>,
}

#[derive(Clone, Copy, Debug, PartialEq, Eq, Structural)]
pub struct BufferDesc {
    pub size: usize,
    /// Bit set of `BUFFER_USAGE_*`.
    pub usage: u32,
}

/// A buffer to allocate: empty when `contents` is `None`, else created
/// holding exactly `contents`.
#[derive(Clone, Debug)]
pub struct BufferResult {
    pub desc: BufferDesc,
    pub contents: Option<Vec<u8>>,
}

impl WgpuBase {
    pub fn texture(&self, desc: &TextureDescriptor, init: InitType) -> (r: TextureResult)
        requires
            desc.mip_level_count == 1,
            spec_texture_size(*desc) <= usize::MAX,
            init.can_fill(spec_texture_size(*desc) as nat),
        ensures
            r.data is Some == spec_init_data(init, spec_texture_size(*desc) as nat) is Some,
            r.data is Some ==> r.data->Some_0@ == spec_init_data(
                init,
                spec_texture_size(*desc) as nat,
            )->Some_0,
            r.desc == (TextureDescriptor {
                usage: if r.data is Some {
                    desc.usage | TEXTURE_USAGE_COPY_DST
                } else {
                    desc.usage
                },
                ..*desc
            }),
    {
        let data = init.create(texture_size(desc));
        let usage = if data.is_some() {
            desc.usage | TEXTURE_USAGE_COPY_DST
        } else {
            desc.usage
        };
        TextureResult { desc: TextureDescriptor { usage, ..*desc }, data }
    }

    pub fn buffer(&self, desc: BufferDesc, init: InitType) -> (r: BufferResult)
        requires
            init.can_fill(desc.size as nat),
        ensures
            r.desc == desc,
            r.contents is Some == spec_init_data(init, desc.size as nat) is Some,
            r.contents is Some ==> r.contents->Some_0@ == spec_init_data(
                init,
                desc.size as nat,
            )->Some_0,
    {
        let contents = init.create(desc.size);
        BufferResult { desc, contents }
    }
}

} // verus!
