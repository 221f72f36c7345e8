//! The logic of a small real-time graphics sandbox, stated and proved:
//! texture and sampler descriptors, the derivation of bind-group layouts and
//! bound resources from one list of entries, pipeline layouts with their
//! push-constant ranges, the shader cache, the steps of a frame, swapchain
//! presentation with its recovery from a lost surface, screenshots, and the
//! decisions of the drivers. Creating the device objects these describe is
//! left to the program that links the library.

pub mod base;
pub mod bind_group;
pub mod format;
pub mod init;
pub mod mainloop;
pub mod pipeline;
pub mod resources;
pub mod sampler;
pub mod screenshot;
pub mod shaders;
pub mod texture;
pub mod windowed;
