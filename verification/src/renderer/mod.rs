//! The rendering system: the graphics-API core and what is built on it.

use vstd::prelude::*;

pub mod opengl;
pub mod surface;
pub mod vulkan;

use crate::error_handler::ERendering;
use surface::{CSurface, WindowRequest};
use vulkan::failure::VlkFailure;
use vulkan::swapchain::Recreation;

verus! {

/// What the rendering system does about the frame that is due.
#[derive(Debug, Clone, Copy, PartialEq, Eq, Structural)]
pub enum FrameDecision {
    /// The work of the frame is handed to the device.
    Submit,
    /// The frame before is still with the device; nothing is handed in.
    Wait,
}

/// The rendering system: the window surface, whether the swapchain is due for
/// recreation, and whether a frame is with the device.
#[derive(Debug)]
pub struct RenderingSys {
    surface: CSurface,
    recreate_sc: bool,
    frame_in_flight: bool,
}

impl RenderingSys {
    /// The window surface.
    pub closed spec fn window(self) -> CSurface {
        self.surface
    }

    /// The swapchain is due for recreation.
    pub closed spec fn recreation_due(self) -> bool {
        self.recreate_sc
    }

    /// A frame was handed to the device and is not known to be finished.
    pub closed spec fn in_flight(self) -> bool {
        self.frame_in_flight
    }

    /// A rendering system on a window surface: no recreation is due, no frame is
    /// with the device.
    pub fn new(surface: CSurface) -> (r: Self)
        ensures
            r.window() == surface,
            !r.recreation_due(),
            !r.in_flight(),
    {
        RenderingSys { surface, recreate_sc: false, frame_in_flight: false }
    }

    pub fn need_to_recreate_swapchain(&self) -> (r: bool)
        ensures
            r == self.recreation_due(),
    {
        self.recreate_sc
    }

    pub fn should_recreate_swapchain(&self) -> (r: bool)
        ensures
            r == self.recreation_due(),
    {
        self.recreate_sc
    }

    pub fn set_recreate_swapchain(&mut self, due: bool)
        ensures
            final(self).recreation_due() == due,
            final(self).window() == old(self).window(),
            final(self).in_flight() == old(self).in_flight(),
    {
        self.recreate_sc = due;
    }

    /// Gives the window a new title and says what the window is to be rebuilt with.
    pub fn set_window_title(&mut self, title: &str) -> (r: WindowRequest)
        ensures
            final(self).window().title_text() == title@,
            final(self).window().size() == old(self).window().size(),
            final(self).window().surface() == old(self).window().surface(),
            final(self).recreation_due() == old(self).recreation_due(),
            final(self).in_flight() == old(self).in_flight(),
            r.title@ == title@,
            (r.width, r.height) == old(self).window().size(),
    {
        self.surface.set_title(title)
    }

    /// Gives the window a new size and says what the window is to be rebuilt with.
    pub fn set_window_size(&mut self, w: u16, h: u16) -> (r: WindowRequest)
        ensures
            final(self).window().size() == (w, h),
            final(self).window().title_text() == old(self).window().title_text(),
            final(self).window().surface() == old(self).window().surface(),
            final(self).recreation_due() == old(self).recreation_due(),
            final(self).in_flight() == old(self).in_flight(),
            r.title@ == old(self).window().title_text(),
            (r.width, r.height) == (w, h),
    {
        self.surface.set_win_size(w, h)
    }

    /// Takes over the surface of the rebuilt window, or reports why the window
    /// could not be rebuilt.
    pub fn window_rebuilt(&mut self, built: Result<u64, String>) -> (r: Result<
        (),
        (ERendering, String),
    >)
        ensures
            final(self).recreation_due() == old(self).recreation_due(),
            final(self).in_flight() == old(self).in_flight(),
            final(self).window().title_text() == old(self).window().title_text(),
            final(self).window().size() == old(self).window().size(),
            match built {
                Ok(handle) => r is Ok && final(self).window().surface() == handle,
                Err(why) => r == Err::<(), _>((ERendering::Surface, why)) && final(self).window().surface() == old(self).window().surface(),
            },
    {
        self.surface.change_vk_surface(built)
    }

    /// Takes note of how a recreation of the swapchain ended. After a recreation
    /// that replaced the chain, or that was skipped because the extent is not
    /// supported at present, none is due until the next resize. After a failure
    /// the recreation stays due, and the failure goes on to the caller.
    pub fn swapchain_recreated(&mut self, outcome: Result<Recreation, VlkFailure>) -> (r: Result<
        Recreation,
        VlkFailure,
    >)
        ensures
            r == outcome,
            final(self).window() == old(self).window(),
            final(self).in_flight() == old(self).in_flight(),
            final(self).recreation_due() == (old(self).recreation_due() && outcome is Err),
    {
        if outcome.is_ok() {
            self.recreate_sc = false;
        }
        outcome
    }

    /// Decides about the frame that is due. A frame is handed to the device only
    /// when the frame before it is known to be finished, so that at most one
    /// frame is with the device at any time.
    pub fn begin_frame(&mut self, previous_finished: bool) -> (r: FrameDecision)
        ensures
            final(self).window() == old(self).window(),
            final(self).recreation_due() == old(self).recreation_due(),
            r == if old(self).in_flight() && !previous_finished {
                FrameDecision::Wait
            } else {
                FrameDecision::Submit
            },
            final(self).in_flight(),
    {
        if self.frame_in_flight && !previous_finished {
            FrameDecision::Wait
        } else {
            self.frame_in_flight = true;
            FrameDecision::Submit
        }
    }

    /// Takes note that the device is done with every frame it was handed.
    pub fn free_gpu_resource(&mut self)
        ensures
            final(self).window() == old(self).window(),
            final(self).recreation_due() == old(self).recreation_due(),
            !final(self).in_flight(),
    {
        self.frame_in_flight = false;
    }
}

} // verus!
