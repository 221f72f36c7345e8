use vstd::prelude::*;

verus! {

/// Keys the drivers react to.
#[derive(Clone, Copy, Debug, PartialEq, Eq, Structural)]
pub enum Key {
    /// Takes a screenshot.
    F1,
    /// Suspends the overlay.
    F5,
    /// Enables the overlay.
    F6,
    Escape,
    Q,
    Other,
}

/// Whether the overlay takes part in frames.
#[derive(Clone, Copy, Debug, PartialEq, Eq, Structural)]
pub enum ImguiStatus {
    Enabled,
    Suspended,
}

/// The three ways of driving frames.
#[derive(Clone, Copy, Debug, PartialEq, Eq, Structural)]
pub enum Strategy {
    /// The demo alone, straight to the swapchain.
    Plain,
    /// The demo with the UI overlay drawn on top in the same pass.
    Overlay,
    /// As `Overlay`, and a key renders one frame to an image file instead.
    Screenshot,
}

#[derive(Clone, Copy, Debug, PartialEq, Eq, Structural)]
pub enum KeyOutcome {
    /// The event loop ends.
    Exit,
    /// The key was passed on to the driver.
    Handled,
    /// The overlay holds the keyboard; the key is dropped.
    Ignored,
}

/// Where the next frame goes.
#[derive(Clone, Copy, Debug, PartialEq, Eq, Structural)]
pub enum RenderTarget {
    Swapchain,
    /// Off-screen, then copied out and written to an image file.
    Screenshot,
}

#[derive(Clone, Copy, Debug, PartialEq, Eq, Structural)]
pub struct Mainloop {
    pub strategy: Strategy,
    pub imgui: ImguiStatus,
    pub should_screenshot: bool,
}

pub open spec fn has_overlay(strategy: Strategy) -> bool {
    strategy != Strategy::Plain
}

/// The driver after `key` reached it (exit keys are handled before).
pub open spec fn spec_keyboard(m: Mainloop, key: Key) -> Mainloop {
    if !has_overlay(m.strategy) {
        m
    } else if key == Key::F5 {
        Mainloop { imgui: ImguiStatus::Suspended, ..m }
    } else if key == Key::F6 {
        Mainloop { imgui: ImguiStatus::Enabled, ..m }
    } else if key == Key::F1 && m.strategy == Strategy::Screenshot {
        Mainloop { should_screenshot: true, ..m }
    } else {
        m
    }
}

impl Mainloop {
    pub fn new(strategy: Strategy) -> (r: Mainloop)
        ensures
            r == (Mainloop { strategy, imgui: ImguiStatus::Enabled, should_screenshot: false }),
    {
        Mainloop { strategy, imgui: ImguiStatus::Enabled, should_screenshot: false }
    }

    /// Whether the overlay receives events and is drawn over this frame.
    pub fn overlay_active(&self) -> (r: bool)
        ensures
            r == (has_overlay(self.strategy) && self.imgui == ImguiStatus::Enabled),
    {
        match (self.strategy, self.imgui) {
            (Strategy::Plain, _) => false,
            (_, ImguiStatus::Enabled) => true,
            (_, ImguiStatus::Suspended) => false,
        }
    }

    /// Keys are left to the overlay while it is enabled and asks for them.
    pub fn ignore_keyboard(&self, overlay_wants_keyboard: bool) -> (r: bool)
        ensures
            r == (has_overlay(self.strategy) && self.imgui == ImguiStatus::Enabled
                && overlay_wants_keyboard),
    {
        match self.strategy {
            Strategy::Plain => false,
            _ => match self.imgui {
                ImguiStatus::Enabled => overlay_wants_keyboard,
                ImguiStatus::Suspended => false,
            },
        }
    }

    /// A key press: dropped while the overlay holds the keyboard; Escape and
    /// Q end the loop; any other key goes to the driver.
    pub fn key_pressed(&mut self, key: Key, overlay_wants_keyboard: bool) -> (r: KeyOutcome)
        ensures
            r == if old(self).ignore_keyboard_spec(overlay_wants_keyboard) {
                KeyOutcome::Ignored
            } else if key == Key::Escape || key == Key::Q {
                KeyOutcome::Exit
            } else {
                KeyOutcome::Handled
            },
            *final(self) == if r == KeyOutcome::Handled {
                spec_keyboard(*old(self), key)
            } else {
                *old(self)
            },
    {
        if self.ignore_keyboard(overlay_wants_keyboard) {
            return KeyOutcome::Ignored;
        }
        match key {
            Key::Escape | Key::Q => KeyOutcome::Exit,
            _ => {
                self.keyboard(key);
                KeyOutcome::Handled
            },
        }
    }

    pub open spec fn ignore_keyboard_spec(&self, overlay_wants_keyboard: bool) -> bool {
        has_overlay(self.strategy) && self.imgui == ImguiStatus::Enabled && overlay_wants_keyboard
    }

    pub fn keyboard(&mut self, key: Key)
        ensures
            *final(self) == spec_keyboard(*old(self), key),
    {
        if let Strategy::Plain = self.strategy {
            return;
        }
        match key {
            Key::F5 => self.imgui = ImguiStatus::Suspended,
            Key::F6 => self.imgui = ImguiStatus::Enabled,
            Key::F1 => {
                if let Strategy::Screenshot = self.strategy {
                    self.should_screenshot = true;
                }
            },
            _ => {},
        }
    }

    /// Where this frame goes; a pending screenshot is taken once.
    pub fn render(&mut self) -> (r: RenderTarget)
        ensures
            r == if old(self).should_screenshot {
                RenderTarget::Screenshot
            } else {
                RenderTarget::Swapchain
            },
            *final(self) == (Mainloop { should_screenshot: false, ..*old(self) }),
    {
        if self.should_screenshot {
            self.should_screenshot = false;
            RenderTarget::Screenshot
        } else {
            RenderTarget::Swapchain
        }
    }
}

} // verus!
