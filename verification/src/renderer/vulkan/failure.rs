//! What a failed step of the graphics core reports.

use vstd::prelude::*;
use vstd::string::StringExecFns;
use crate::error_handler::EVlkApi;
use super::pipeline::ShaderStage;
use super::swapchain::SurfaceQuery;

verus! {

/// Why a step failed, by origin.
#[derive(Debug)]
pub enum VlkCause {
    /// The driver refused a well-formed request; the text is the driver's own.
    DriverRejected(String),
    /// The driver could not enumerate what it was asked for; the text is the driver's own.
    EnumerationFailed(String),
    /// A query on the surface failed; the text is the driver's own.
    QueryFailed(SurfaceQuery, String),
    /// The graphics library could not be loaded; the text is the loader's own.
    LibraryUnavailable(String),
    /// The application's name holds a NUL character and cannot be handed to the driver.
    NameHoldsNul,
    /// The debug-utilities extension, which the engine requires, is not supported.
    DebugUtilsUnsupported,
    /// No physical device passed the filters.
    NoSuitableDevice,
    /// The device was created but handed back no queue.
    NoQueue,
    /// The surface supports no format.
    NoSurfaceFormat,
    /// The surface supports no present mode.
    NoPresentMode,
    /// The surface supports no composite alpha mode.
    NoCompositeAlpha,
    /// The driver handed back a swapchain without images, or views that do not match them.
    MalformedSwapchain,
    /// The shader of this stage has no entry point of the expected name.
    NoEntryPoint(ShaderStage),
    /// The display session of the window is not of the platform the engine binds to.
    DisplayNotXlib,
    /// The window is not of the platform the engine binds to.
    WindowNotXlib,
}

/// Where a failure comes from. Every one of them ends the step that met it and is
/// fatal at start-up; an extent that is not supported at present is no failure at
/// all, but a warning of the swapchain.
#[derive(Debug, Clone, Copy, PartialEq, Eq, Structural)]
pub enum FailureOrigin {
    /// The driver refused a request that was well formed.
    DriverRejected,
    /// Nothing on the host meets what the engine needs.
    Unsatisfiable,
    /// The window does not belong to the platform the engine binds to.
    PlatformMismatch,
    /// The driver or the host itself is broken: it could not even enumerate.
    Enumeration,
    /// The engine was handed something it cannot pass on to the driver.
    InvalidInput,
}

/// A failed step: the component it arose in and why.
#[derive(Debug)]
pub struct VlkFailure {
    pub kind: EVlkApi,
    pub cause: VlkCause,
}

pub const NO_SUITABLE_DEVICE: &'static str = "No suitable physical device found";

pub const NO_QUEUE: &'static str = "no queue could be found";

pub const DEBUG_UTILS_UNSUPPORTED: &'static str = "ext_debug_utils unsupported";

pub const NAME_HOLDS_NUL: &'static str = "app_name have a null character";

pub const NO_SURFACE_FORMAT: &'static str = "The surface has no format available";

pub const NO_PRESENT_MODE: &'static str = "The surface has no present mode available";

pub const NO_COMPOSITE_ALPHA: &'static str = "The surface has no composite alpha available";

pub const MALFORMED_SWAPCHAIN: &'static str =
    "The swapchain came without images or without a view for each image";

pub const DISPLAY_NOT_XLIB: &'static str = "Current display session doesn't use xlib";

pub const WINDOW_NOT_XLIB: &'static str = "Current window doesn't use xlib";

pub const NO_VERTEX_ENTRY: &'static str = "Vertex shader have no entry function name 'main'";

pub const NO_FRAGMENT_ENTRY: &'static str = "Fragment shader have no entry function name 'main'";

pub const CAPABILITIES_QUERY: &'static str =
    "Can't access physical surface capabilities for swapchain info: ";

pub const FORMATS_QUERY: &'static str = "Can't access physical surface format for swapchain info: ";

pub const PRESENT_MODES_QUERY: &'static str =
    "Can't access physical surface present modes for swapchain info: ";

impl VlkCause {
    /// Where the cause comes from.
    pub open spec fn origin_of(self) -> FailureOrigin {
        match self {
            VlkCause::DriverRejected(_) => FailureOrigin::DriverRejected,
            VlkCause::QueryFailed(_, _) => FailureOrigin::DriverRejected,
            VlkCause::MalformedSwapchain => FailureOrigin::DriverRejected,
            VlkCause::EnumerationFailed(_) => FailureOrigin::Enumeration,
            VlkCause::LibraryUnavailable(_) => FailureOrigin::Enumeration,
            VlkCause::NameHoldsNul => FailureOrigin::InvalidInput,
            VlkCause::NoEntryPoint(_) => FailureOrigin::InvalidInput,
            VlkCause::DebugUtilsUnsupported => FailureOrigin::Unsatisfiable,
            VlkCause::NoSuitableDevice => FailureOrigin::Unsatisfiable,
            VlkCause::NoQueue => FailureOrigin::Unsatisfiable,
            VlkCause::NoSurfaceFormat => FailureOrigin::Unsatisfiable,
            VlkCause::NoPresentMode => FailureOrigin::Unsatisfiable,
            VlkCause::NoCompositeAlpha => FailureOrigin::Unsatisfiable,
            VlkCause::DisplayNotXlib => FailureOrigin::PlatformMismatch,
            VlkCause::WindowNotXlib => FailureOrigin::PlatformMismatch,
        }
    }

    /// Tells where the cause comes from.
    pub fn origin(&self) -> (r: FailureOrigin)
        ensures
            r == self.origin_of(),
    {
        match self {
            VlkCause::DriverRejected(_) => FailureOrigin::DriverRejected,
            VlkCause::QueryFailed(_, _) => FailureOrigin::DriverRejected,
            VlkCause::MalformedSwapchain => FailureOrigin::DriverRejected,
            VlkCause::EnumerationFailed(_) => FailureOrigin::Enumeration,
            VlkCause::LibraryUnavailable(_) => FailureOrigin::Enumeration,
            VlkCause::NameHoldsNul => FailureOrigin::InvalidInput,
            VlkCause::NoEntryPoint(_) => FailureOrigin::InvalidInput,
            VlkCause::DebugUtilsUnsupported => FailureOrigin::Unsatisfiable,
            VlkCause::NoSuitableDevice => FailureOrigin::Unsatisfiable,
            VlkCause::NoQueue => FailureOrigin::Unsatisfiable,
            VlkCause::NoSurfaceFormat => FailureOrigin::Unsatisfiable,
            VlkCause::NoPresentMode => FailureOrigin::Unsatisfiable,
            VlkCause::NoCompositeAlpha => FailureOrigin::Unsatisfiable,
            VlkCause::DisplayNotXlib => FailureOrigin::PlatformMismatch,
            VlkCause::WindowNotXlib => FailureOrigin::PlatformMismatch,
        }
    }

    /// What the cause says when it is shown.
    pub open spec fn text(self) -> Seq<char> {
        match self {
            VlkCause::DriverRejected(why) => why@,
            VlkCause::EnumerationFailed(why) => why@,
            VlkCause::QueryFailed(query, why) => (match query {
                SurfaceQuery::Capabilities => CAPABILITIES_QUERY@,
                SurfaceQuery::Formats => FORMATS_QUERY@,
                SurfaceQuery::PresentModes => PRESENT_MODES_QUERY@,
            }) + why@,
            VlkCause::LibraryUnavailable(why) => why@,
            VlkCause::NameHoldsNul => NAME_HOLDS_NUL@,
            VlkCause::DebugUtilsUnsupported => DEBUG_UTILS_UNSUPPORTED@,
            VlkCause::NoSuitableDevice => NO_SUITABLE_DEVICE@,
            VlkCause::NoQueue => NO_QUEUE@,
            VlkCause::NoSurfaceFormat => NO_SURFACE_FORMAT@,
            VlkCause::NoPresentMode => NO_PRESENT_MODE@,
            VlkCause::NoCompositeAlpha => NO_COMPOSITE_ALPHA@,
            VlkCause::MalformedSwapchain => MALFORMED_SWAPCHAIN@,
            VlkCause::NoEntryPoint(stage) => match stage {
                ShaderStage::Vertex => NO_VERTEX_ENTRY@,
                ShaderStage::Fragment => NO_FRAGMENT_ENTRY@,
            },
            VlkCause::DisplayNotXlib => DISPLAY_NOT_XLIB@,
            VlkCause::WindowNotXlib => WINDOW_NOT_XLIB@,
        }
    }

    /// Words the cause.
    pub fn message(&self) -> (r: String)
        ensures
            r@ == self.text(),
    {
        match self {
            VlkCause::DriverRejected(why) => why.clone(),
            VlkCause::EnumerationFailed(why) => why.clone(),
            VlkCause::QueryFailed(query, why) => {
                let mut r = match query {
                    SurfaceQuery::Capabilities => CAPABILITIES_QUERY.to_owned(),
                    SurfaceQuery::Formats => FORMATS_QUERY.to_owned(),
                    SurfaceQuery::PresentModes => PRESENT_MODES_QUERY.to_owned(),
                };
                r.append(why.as_str());
                r
            },
            VlkCause::LibraryUnavailable(why) => why.clone(),
            VlkCause::NameHoldsNul => NAME_HOLDS_NUL.to_owned(),
            VlkCause::DebugUtilsUnsupported => DEBUG_UTILS_UNSUPPORTED.to_owned(),
            VlkCause::NoSuitableDevice => NO_SUITABLE_DEVICE.to_owned(),
            VlkCause::NoQueue => NO_QUEUE.to_owned(),
            VlkCause::NoSurfaceFormat => NO_SURFACE_FORMAT.to_owned(),
            VlkCause::NoPresentMode => NO_PRESENT_MODE.to_owned(),
            VlkCause::NoCompositeAlpha => NO_COMPOSITE_ALPHA.to_owned(),
            VlkCause::MalformedSwapchain => MALFORMED_SWAPCHAIN.to_owned(),
            VlkCause::NoEntryPoint(stage) => match stage {
                ShaderStage::Vertex => NO_VERTEX_ENTRY.to_owned(),
                ShaderStage::Fragment => NO_FRAGMENT_ENTRY.to_owned(),
            },
            VlkCause::DisplayNotXlib => DISPLAY_NOT_XLIB.to_owned(),
            VlkCause::WindowNotXlib => WINDOW_NOT_XLIB.to_owned(),
        }
    }
}

impl VlkFailure {
    /// The failure as it is shown: the heading of the component, then the cause.
    pub open spec fn text(self) -> Seq<char> {
        self.kind.heading() + " "@ + self.cause.text()
    }

    /// Words the failure.
    pub fn message(&self) -> (r: String)
        ensures
            r@ == self.text(),
    {
        let mut r = self.kind.describe().to_owned();
        r.append(" ");
        let cause = self.cause.message();
        r.append(cause.as_str());
        r
    }
}

} // verus!
