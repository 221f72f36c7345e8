use vstd::prelude::*;

verus! {

#[derive(Clone, Copy, Debug, PartialEq, Eq, Structural)]
pub enum AddressMode {
    ClampToEdge,
    Repeat,
    MirrorRepeat,
    ClampToBorder,
}

#[derive(Clone, Copy, Debug, PartialEq, Eq, Structural)]
pub enum FilterMode {
    Nearest,
    Linear,
}

/// A sampler as the demos ask for it: one filter switch and one wrap mode.
#[derive(Clone, Copy, Debug, PartialEq, Eq, Structural)]
pub struct SamplerDesc {
    pub filter: bool,
    pub address: AddressMode,
}

impl Default for SamplerDesc {
    fn default() -> (r: SamplerDesc)
        ensures
            r == (SamplerDesc { filter: false, address: AddressMode::ClampToEdge }),
    {
        SamplerDesc { filter: false, address: AddressMode::ClampToEdge }
    }
}

/// Full sampler state handed to the device.
#[derive(Clone, Copy, Debug, PartialEq, Eq, Structural)]
pub struct SamplerDescriptor {
    pub address_mode_u: AddressMode,
    pub address_mode_v: AddressMode,
    pub address_mode_w: AddressMode,
    pub mag_filter: FilterMode,
    pub min_filter: FilterMode,
    pub mipmap_filter: FilterMode,
}

pub open spec fn spec_sampler_descriptor(desc: SamplerDesc) -> SamplerDescriptor {
    let filter = if desc.filter { FilterMode::Linear } else { FilterMode::Nearest };
    SamplerDescriptor {
        address_mode_u: desc.address,
        address_mode_v: desc.address,
        address_mode_w: desc.address,
        mag_filter: filter,
        min_filter: filter,
        mipmap_filter: filter,
    }
}

impl From<SamplerDesc> for SamplerDescriptor {
    fn from(desc: SamplerDesc) -> (r: SamplerDescriptor)
        ensures
            r == spec_sampler_descriptor(desc),
    {
        let filter = if desc.filter {
            FilterMode::Linear
        } else {
            FilterMode::Nearest
        };
        SamplerDescriptor {
            address_mode_u: desc.address,
            address_mode_v: desc.address,
            address_mode_w: desc.address,
            mag_filter: filter,
            min_filter: filter,
            mipmap_filter: filter,
        }
    }
}

impl vstd::std_specs::convert::FromSpecImpl<SamplerDesc> for SamplerDescriptor {
    open spec fn obeys_from_spec() -> bool {
        true
    }

    open spec fn from_spec(desc: SamplerDesc) -> SamplerDescriptor {
        spec_sampler_descriptor(desc)
    }
}

} // verus!
