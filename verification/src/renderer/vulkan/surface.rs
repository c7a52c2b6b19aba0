//! What a presentation surface reports of itself, and how a surface is bound to a window.

use vstd::prelude::*;
use crate::error_handler::EVlkApi;
use super::failure::{VlkCause, VlkFailure};
use super::swapchain::SurfaceQuery;

verus! {

/// Width and height of an image, in pixels.
#[derive(Debug, Clone, Copy, PartialEq, Eq, Structural)]
pub struct Extent2D {
    pub width: u32,
    pub height: u32,
}

/// A color format paired with the color space it is shown in. Both are held as the
/// codes of the graphics API.
#[derive(Debug, Clone, Copy, PartialEq, Eq, Structural)]
pub struct SurfaceFormat {
    pub format: i32,
    pub color_space: i32,
}

/// How finished images reach the screen, held as the code of the graphics API.
#[derive(Debug, Clone, Copy, PartialEq, Eq, Structural)]
pub struct PresentMode {
    pub code: i32,
}

/// How the surface is blended with what lies under it, held as the bit of the graphics API.
#[derive(Debug, Clone, Copy, PartialEq, Eq, Structural)]
pub struct CompositeAlpha {
    pub bit: u32,
}

/// Code of the 8-bit BGRA format with sRGB encoding.
pub const FORMAT_B8G8R8A8_SRGB: i32 = 50;

/// Code of the standard non-linear sRGB color space.
pub const COLOR_SPACE_SRGB_NONLINEAR: i32 = 0;

/// Code of the low-latency present mode that replaces a waiting image (triple buffering).
pub const PRESENT_MODE_MAILBOX: i32 = 1;

/// The width by which a surface says that its current extent is not fixed.
pub const UNDEFINED_EXTENT: u32 = 0xFFFF_FFFF;

/// The capabilities of a surface on one physical device.
#[derive(Debug)]
pub struct SurfaceCapabilities {
    /// The least number of images a swapchain must hold.
    pub min_image_count: u32,
    /// The greatest number of images a swapchain may hold; zero when none is declared.
    pub max_image_count: u32,
    /// The extent of the surface, or the undefined width when the swapchain decides.
    pub current_extent: Extent2D,
    pub min_image_extent: Extent2D,
    pub max_image_extent: Extent2D,
    /// The transform the surface currently applies, as the bit of the graphics API.
    pub current_transform: u32,
    /// The blending modes the surface supports, in the driver's order.
    pub supported_composite_alpha: Vec<CompositeAlpha>,
}

/// The surface leaves the extent to the swapchain.
pub open spec fn extent_undefined(caps: SurfaceCapabilities) -> bool {
    caps.current_extent.width == UNDEFINED_EXTENT
}

/// The least supported extent does not exceed the greatest, in either direction.
pub open spec fn extent_range_ordered(caps: SurfaceCapabilities) -> bool {
    &&& caps.min_image_extent.width <= caps.max_image_extent.width
    &&& caps.min_image_extent.height <= caps.max_image_extent.height
}

/// The extent lies within the supported range, bounds included.
pub open spec fn extent_supported(extent: Extent2D, caps: SurfaceCapabilities) -> bool {
    &&& caps.min_image_extent.width <= extent.width <= caps.max_image_extent.width
    &&& caps.min_image_extent.height <= extent.height <= caps.max_image_extent.height
}

/// Where a greatest image count is declared, the least does not exceed it.
pub open spec fn image_count_range_ordered(caps: SurfaceCapabilities) -> bool {
    caps.max_image_count > 0 ==> caps.min_image_count <= caps.max_image_count
}

/// One more image than the least can be asked for without leaving 32 bits.
pub open spec fn image_count_representable(caps: SurfaceCapabilities) -> bool {
    caps.max_image_count == 0 ==> caps.min_image_count < u32::MAX
}

/// The capabilities can be planned on: an extent can be clamped into their range
/// and an image count computed from them.
pub open spec fn plannable(caps: SurfaceCapabilities) -> bool {
    &&& extent_undefined(caps) ==> extent_range_ordered(caps)
    &&& image_count_representable(caps)
}

impl SurfaceCapabilities {
    /// Tells whether an extent lies within the supported range.
    pub fn supports_extent(&self, extent: Extent2D) -> (r: bool)
        ensures
            r == extent_supported(extent, *self),
    {
        self.min_image_extent.width <= extent.width && extent.width <= self.max_image_extent.width
            && self.min_image_extent.height <= extent.height && extent.height
            <= self.max_image_extent.height
    }

    /// Tells whether the capabilities can be planned on.
    pub fn is_plannable(&self) -> (r: bool)
        ensures
            r == plannable(*self),
    {
        let extent_ok = self.current_extent.width != UNDEFINED_EXTENT || (
        self.min_image_extent.width <= self.max_image_extent.width && self.min_image_extent.height
            <= self.max_image_extent.height);
        let count_ok = self.max_image_count != 0 || self.min_image_count < u32::MAX;
        extent_ok && count_ok
    }
}

// ------------------------------------------------------------------------------------------------
// Binding a surface to a window
//
/// The native handles of a window, as far as the windowing system gives them out.
#[derive(Debug, Clone, Copy, PartialEq, Eq, Structural)]
pub struct WindowHandles {
    /// Address of the Xlib display, where the session is an Xlib session.
    pub xlib_display: Option<u64>,
    /// Identifier of the Xlib window, where the window is an Xlib window.
    pub xlib_window: Option<u64>,
}

/// The request that creates a surface on an Xlib window.
#[derive(Debug, Clone, Copy, PartialEq, Eq, Structural)]
pub struct XlibSurfaceCreateInfo {
    pub dpy: u64,
    pub window: u64,
}

/// Builds the request for a surface on the window. The engine binds surfaces to
/// Xlib windows: a window of another windowing system is reported, and which of
/// the two handles was missing is told apart.
pub fn plan_surface(window: WindowHandles) -> (r: Result<XlibSurfaceCreateInfo, VlkFailure>)
    ensures
        r == (match (window.xlib_display, window.xlib_window) {
            (None, _) => Err(
                VlkFailure { kind: EVlkApi::Surface, cause: VlkCause::DisplayNotXlib },
            ),
            (Some(_), None) => Err(
                VlkFailure { kind: EVlkApi::Surface, cause: VlkCause::WindowNotXlib },
            ),
            (Some(dpy), Some(win)) => Ok(XlibSurfaceCreateInfo { dpy, window: win }),
        }),
{
    let dpy = match window.xlib_display {
        Some(d) => d,
        None => {
            return Err(VlkFailure { kind: EVlkApi::Surface, cause: VlkCause::DisplayNotXlib });
        },
    };
    let win = match window.xlib_window {
        Some(w) => w,
        None => {
            return Err(VlkFailure { kind: EVlkApi::Surface, cause: VlkCause::WindowNotXlib });
        },
    };
    Ok(XlibSurfaceCreateInfo { dpy, window: win })
}

/// A surface bound to one window.
#[derive(Debug)]
pub struct VSurface {
    surface: u64,
}

impl VSurface {
    /// Handle of the surface.
    pub closed spec fn handle(self) -> u64 {
        self.surface
    }

    /// Takes over the surface that the driver created, or reports its refusal.
    pub fn new(created: Result<u64, String>) -> (r: Result<Self, VlkFailure>)
        ensures
            match created {
                Ok(handle) => r matches Ok(s) && s.handle() == handle,
                Err(why) => r matches Err(f) && f.kind == EVlkApi::Surface && f.cause
                    == VlkCause::DriverRejected(why),
            },
    {
        match created {
            Ok(surface) => Ok(VSurface { surface }),
            Err(why) => Err(
                VlkFailure { kind: EVlkApi::Surface, cause: VlkCause::DriverRejected(why) },
            ),
        }
    }

    pub fn get_surface(&self) -> (r: u64)
        ensures
            r == self.handle(),
    {
        self.surface
    }

    /// Passes on what the driver answered when asked for the capabilities of the
    /// surface; a failure is reported as one of this query.
    pub fn get_pdev_surface_capabilities(&self, answer: Result<SurfaceCapabilities, String>) -> (r:
        Result<SurfaceCapabilities, VlkFailure>)
        ensures
            match answer {
                Ok(caps) => r matches Ok(c) && c == caps,
                Err(why) => r matches Err(f) && f.kind == EVlkApi::Surface && f.cause
                    == VlkCause::QueryFailed(SurfaceQuery::Capabilities, why),
            },
    {
        match answer {
            Ok(caps) => Ok(caps),
            Err(why) => Err(
                VlkFailure {
                    kind: EVlkApi::Surface,
                    cause: VlkCause::QueryFailed(SurfaceQuery::Capabilities, why),
                },
            ),
        }
    }

    /// Passes on what the driver answered when asked for the formats of the
    /// surface; a failure is reported as one of this query.
    pub fn get_pdev_surface_format(&self, answer: Result<Vec<SurfaceFormat>, String>) -> (r: Result<
        Vec<SurfaceFormat>,
        VlkFailure,
    >)
        ensures
            match answer {
                Ok(formats) => r matches Ok(f) && f == formats,
                Err(why) => r matches Err(f) && f.kind == EVlkApi::Surface && f.cause
                    == VlkCause::QueryFailed(SurfaceQuery::Formats, why),
            },
    {
        match answer {
            Ok(formats) => Ok(formats),
            Err(why) => Err(
                VlkFailure {
                    kind: EVlkApi::Surface,
                    cause: VlkCause::QueryFailed(SurfaceQuery::Formats, why),
                },
            ),
        }
    }

    /// Passes on what the driver answered when asked for the present modes of the
    /// surface; a failure is reported as one of this query.
    pub fn get_pdev_surface_present_mode(&self, answer: Result<Vec<PresentMode>, String>) -> (r:
        Result<Vec<PresentMode>, VlkFailure>)
        ensures
            match answer {
                Ok(modes) => r matches Ok(m) && m == modes,
                Err(why) => r matches Err(f) && f.kind == EVlkApi::Surface && f.cause
                    == VlkCause::QueryFailed(SurfaceQuery::PresentModes, why),
            },
    {
        match answer {
            Ok(modes) => Ok(modes),
            Err(why) => Err(
                VlkFailure {
                    kind: EVlkApi::Surface,
                    cause: VlkCause::QueryFailed(SurfaceQuery::PresentModes, why),
                },
            ),
        }
    }
}

} // verus!
