use vstd::prelude::*;

use crate::base::{spec_frame, FrameStep, WgpuBase};
use crate::format::{TextureFormat, TEXTURE_USAGE_RENDER_ATTACHMENT};
use crate::texture::TextureDesc;

verus! {

#[derive(Clone, Copy, Debug, PartialEq, Eq, Structural)]
pub struct WindowSize {
    pub width: u32,
    pub height: u32,
}

#[derive(Clone, Copy, Debug, PartialEq, Eq, Structural)]
pub enum PresentMode {
    /// Presents at once; may tear.
    Immediate,
    Mailbox,
    /// Waits for vertical sync.
    Fifo,
}

/// What the swapchain is built from.
#[derive(Clone, Copy, Debug, PartialEq, Eq, Structural)]
pub struct SwapChainDescriptor {
    /// Bit set of `TEXTURE_USAGE_*`.
    pub usage: u32,
    pub format: TextureFormat,
    pub width: u32,
    pub height: u32,
    pub present_mode: PresentMode,
}

/// Why no image could be acquired.
#[derive(Clone, Copy, Debug, PartialEq, Eq, Structural)]
pub enum SwapChainError {
    Timeout,
    Outdated,
    Lost,
    OutOfMemory,
}

#[derive(Clone, Copy, Debug, PartialEq, Eq, Structural)]
pub enum PresentState {
    /// No image is held.
    NoImage,
    /// An image was acquired; it is presented when released.
    ImagePresented,
    /// The swapchain is being rebuilt; this tick draws nothing.
    Resizing,
}

/// What the caller does with the outcome of an acquisition.
#[derive(Clone, Copy, Debug, PartialEq, Eq, Structural)]
pub enum FrameAction {
    /// Draw into the acquired image (a view handle).
    Render(u64),
    /// Rebuild the swapchain from this descriptor and skip the tick.
    Recreate(SwapChainDescriptor),
    /// Skip the tick.
    Skip,
    /// The device is out of memory: terminate.
    Abort,
}

/// A window's presentation: the context, the descriptor the swapchain is
/// built from, and where presentation stands.
pub struct WgpuWindowed {
    pub base: WgpuBase,
    pub swap_chain_desc: SwapChainDescriptor,
    pub state: PresentState,
}

/// The descriptor after a resize: only width and height follow the new size.
pub open spec fn spec_resized(desc: SwapChainDescriptor, size: Option<WindowSize>) -> SwapChainDescriptor {
    match size {
        Some(s) => SwapChainDescriptor { width: s.width, height: s.height, ..desc },
        None => desc,
    }
}

/// Next descriptor, state and action after trying to acquire an image.
pub open spec fn spec_next_frame(
    desc: SwapChainDescriptor,
    state: PresentState,
    acquired: Result<u64, SwapChainError>,
) -> (SwapChainDescriptor, PresentState, FrameAction) {
    match acquired {
        Ok(view) => (desc, PresentState::ImagePresented, FrameAction::Render(view)),
        Err(SwapChainError::Lost) | Err(SwapChainError::Outdated) => (
            desc,
            PresentState::Resizing,
            FrameAction::Recreate(desc),
        ),
        Err(SwapChainError::Timeout) => (desc, PresentState::NoImage, FrameAction::Skip),
        Err(SwapChainError::OutOfMemory) => (desc, PresentState::NoImage, FrameAction::Abort),
    }
}

/// Resizing twice to the same size gives the same swapchain descriptor as
/// resizing once.
pub proof fn lemma_resize_idempotent(desc: SwapChainDescriptor, size: WindowSize)
    ensures
        spec_resized(spec_resized(desc, Some(size)), Some(size)) == spec_resized(desc, Some(size)),
        spec_resized(desc, Some(size)).width == size.width,
        spec_resized(desc, Some(size)).height == size.height,
{
}

/// Two acquisitions in a row with no submission between them are handled
/// like any other: the second image supersedes the first, and the
/// swapchain descriptor is untouched.
pub proof fn lemma_acquire_twice(
    desc: SwapChainDescriptor,
    state: PresentState,
    first: u64,
    second: u64,
)
    ensures
        ({
            let (d1, s1, a1) = spec_next_frame(desc, state, Ok(first));
            let (d2, s2, a2) = spec_next_frame(d1, s1, Ok(second));
            &&& a1 == FrameAction::Render(first)
            &&& a2 == FrameAction::Render(second)
            &&& d2 == desc
            &&& s2 == PresentState::ImagePresented
        }),
{
}

/// A lost or outdated surface rebuilds the swapchain with the same width,
/// height and format, and nothing is drawn.
pub proof fn lemma_lost_surface_recreates(
    desc: SwapChainDescriptor,
    state: PresentState,
    err: SwapChainError,
)
    requires
        err == SwapChainError::Lost || err == SwapChainError::Outdated,
    ensures
        ({
            let (d, s, a) = spec_next_frame(desc, state, Err(err));
            &&& a == FrameAction::Recreate(desc)
            &&& d == desc
            &&& s == PresentState::Resizing
            &&& !(a is Render)
        }),
{
}

impl WgpuWindowed {
    /// Presentation for a window of `size`, in a linear BGRA format that
    /// waits for vertical sync.
    pub fn new(base: WgpuBase, size: WindowSize) -> (r: WgpuWindowed)
        ensures
            r.base == base,
            r.state == PresentState::NoImage,
            r.swap_chain_desc == (SwapChainDescriptor {
                usage: TEXTURE_USAGE_RENDER_ATTACHMENT,
                format: TextureFormat::Bgra8Unorm,
                width: size.width,
                height: size.height,
                present_mode: PresentMode::Fifo,
            }),
    {
        let swap_chain_desc = SwapChainDescriptor {
            usage: TEXTURE_USAGE_RENDER_ATTACHMENT,
            format: TextureFormat::Bgra8Unorm,
            width: size.width,
            height: size.height,
            present_mode: PresentMode::Fifo,
        };
        WgpuWindowed { base, swap_chain_desc, state: PresentState::NoImage }
    }

    /// Size and format of the current swapchain images.
    pub fn desc(&self) -> (r: TextureDesc)
        ensures
            r == (TextureDesc {
                width: self.swap_chain_desc.width,
                height: self.swap_chain_desc.height,
                format: self.swap_chain_desc.format,
            }),
    {
        TextureDesc {
            width: self.swap_chain_desc.width,
            height: self.swap_chain_desc.height,
            format: self.swap_chain_desc.format,
        }
    }

    /// Takes the new size, if any, and returns the descriptor the swapchain
    /// is rebuilt from; the rebuild happens whatever the size.
    pub fn resize(&mut self, size: Option<WindowSize>) -> (r: SwapChainDescriptor)
        ensures
            final(self).swap_chain_desc == spec_resized(old(self).swap_chain_desc, size),
            r == final(self).swap_chain_desc,
            final(self).state == PresentState::NoImage,
            final(self).base == old(self).base,
    {
        if let Some(size) = size {
            self.swap_chain_desc.width = size.width;
            self.swap_chain_desc.height = size.height;
        }
        self.state = PresentState::NoImage;
        self.swap_chain_desc
    }

    /// Decides what to do with the result of acquiring the next image: draw
    /// into it; rebuild a lost or outdated swapchain from the unchanged
    /// descriptor and draw nothing; skip on a timeout; abort when out of
    /// memory.
    pub fn next_frame(&mut self, acquired: Result<u64, SwapChainError>) -> (r: FrameAction)
        ensures
            (final(self).swap_chain_desc, final(self).state, r) == spec_next_frame(
                old(self).swap_chain_desc,
                old(self).state,
                acquired,
            ),
            final(self).base == old(self).base,
    {
        match acquired {
            Ok(view) => {
                self.state = PresentState::ImagePresented;
                FrameAction::Render(view)
            },
            Err(SwapChainError::Lost) | Err(SwapChainError::Outdated) => {
                let desc = self.resize(None);
                self.state = PresentState::Resizing;
                FrameAction::Recreate(desc)
            },
            Err(SwapChainError::Timeout) => {
                self.state = PresentState::NoImage;
                FrameAction::Skip
            },
            Err(SwapChainError::OutOfMemory) => {
                self.state = PresentState::NoImage;
                FrameAction::Abort
            },
        }
    }

    /// One tick: the action for the acquisition, and the frame's steps when
    /// an image was acquired (none otherwise).
    pub fn render(&mut self, acquired: Result<u64, SwapChainError>) -> (r: (
        FrameAction,
        Vec<FrameStep>,
    ))
        ensures
            (final(self).swap_chain_desc, final(self).state, r.0) == spec_next_frame(
                old(self).swap_chain_desc,
                old(self).state,
                acquired,
            ),
            final(self).base == old(self).base,
            match r.0 {
                FrameAction::Render(view) => r.1@ == spec_frame(view),
                _ => r.1@.len() == 0,
            },
    {
        let action = self.next_frame(acquired);
        match action {
            FrameAction::Render(view) => (action, self.base.render(view)),
            _ => (action, Vec::new()),
        }
    }
}

} // verus!
