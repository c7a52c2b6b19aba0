//! The swapchain: what is asked of the driver, and the chain that is kept alive.

use vstd::prelude::*;
use crate::error_handler::EVlkApi;
use crate::logs::{filled, validate_msg, Level};
use crate::text::{decimal, decimal_string};
use super::failure::{VlkCause, VlkFailure};
use super::queue_family::QueueFamilyIndices;
use super::surface::{
    extent_range_ordered, extent_supported, extent_undefined, image_count_range_ordered,
    image_count_representable, plannable, CompositeAlpha, Extent2D, PresentMode,
    SurfaceCapabilities, SurfaceFormat, COLOR_SPACE_SRGB_NONLINEAR, FORMAT_B8G8R8A8_SRGB,
    PRESENT_MODE_MAILBOX, UNDEFINED_EXTENT,
};

verus! {

// ------------------------------------------------------------------------------------------------
// Selection rules
//
/// The format the engine prefers: 8-bit BGRA, sRGB encoded, in the non-linear sRGB space.
pub open spec fn preferred_format(format: SurfaceFormat) -> bool {
    format.format == FORMAT_B8G8R8A8_SRGB && format.color_space == COLOR_SPACE_SRGB_NONLINEAR
}

/// The position that format selection picks in a list: the first preferred format,
/// or the head of the list where none is preferred.
pub open spec fn is_chosen_format(formats: Seq<SurfaceFormat>, index: int) -> bool {
    ||| {
        &&& 0 <= index < formats.len()
        &&& preferred_format(formats[index])
        &&& forall|j: int| 0 <= j < index ==> !preferred_format(#[trigger] formats[j])
    }
    ||| {
        &&& index == 0
        &&& forall|j: int| 0 <= j < formats.len() ==> !preferred_format(#[trigger] formats[j])
    }
}

/// The present mode the engine prefers.
pub open spec fn preferred_present_mode(mode: PresentMode) -> bool {
    mode.code == PRESENT_MODE_MAILBOX
}

/// The position that present-mode selection picks in a list: the first preferred
/// mode, or the head of the list where none is preferred.
pub open spec fn is_chosen_present_mode(modes: Seq<PresentMode>, index: int) -> bool {
    ||| {
        &&& 0 <= index < modes.len()
        &&& preferred_present_mode(modes[index])
        &&& forall|j: int| 0 <= j < index ==> !preferred_present_mode(#[trigger] modes[j])
    }
    ||| {
        &&& index == 0
        &&& forall|j: int| 0 <= j < modes.len() ==> !preferred_present_mode(#[trigger] modes[j])
    }
}

/// A value bounded by a least and a greatest value.
pub open spec fn clamped(input: int, min: int, max: int) -> int {
    if input < min {
        min
    } else if input > max {
        max
    } else {
        input
    }
}

/// The extent a swapchain gets: the surface's own where it is fixed, else what was
/// asked for, clamped into the supported range.
pub open spec fn resolved_extent(w: u32, h: u32, caps: SurfaceCapabilities) -> Extent2D {
    if !extent_undefined(caps) {
        caps.current_extent
    } else {
        Extent2D {
            width: clamped(
                w as int,
                caps.min_image_extent.width as int,
                caps.max_image_extent.width as int,
            ) as u32,
            height: clamped(
                h as int,
                caps.min_image_extent.height as int,
                caps.max_image_extent.height as int,
            ) as u32,
        }
    }
}

/// The number of images a swapchain asks for: one more than the least, but no more
/// than the greatest where one is declared.
pub open spec fn chosen_image_count(caps: SurfaceCapabilities) -> int {
    if caps.max_image_count > 0 && caps.min_image_count + 1 > caps.max_image_count {
        caps.max_image_count as int
    } else {
        caps.min_image_count + 1
    }
}

/// Calls `num::clamp` on 32-bit unsigned integers. The contract is the function's
/// documentation: the least value where the input lies under it, the greatest where
/// the input lies over it, else the input. The function asserts in debug builds
/// that the least value does not exceed the greatest.
#[verifier::external_body]
fn clamp_u32(input: u32, min: u32, max: u32) -> (r: u32)
    requires
        min <= max,
    ensures
        r == clamped(input as int, min as int, max as int),
{
    num::clamp(input, min, max)
}

/// Picks the position of the surface format to use: the first 8-bit BGRA sRGB
/// format in the non-linear sRGB space, or position zero where the list holds none.
pub fn choose_format(available_formats: &Vec<SurfaceFormat>) -> (index: usize)
    ensures
        is_chosen_format(available_formats@, index as int),
{
    let mut index: usize = 0;
    while index < available_formats.len()
        invariant
            index <= available_formats.len(),
            forall|j: int| 0 <= j < index ==> !preferred_format(#[trigger] available_formats@[j]),
        decreases available_formats.len() - index,
    {
        let format = available_formats[index];
        if format.format == FORMAT_B8G8R8A8_SRGB && format.color_space
            == COLOR_SPACE_SRGB_NONLINEAR {
            return index;
        }
        index += 1;
    }
    0
}

/// Picks the position of the present mode to use: the first low-latency
/// triple-buffering mode, or position zero where the list holds none.
pub fn choose_present_mode(available_present_modes: &Vec<PresentMode>) -> (index: usize)
    ensures
        is_chosen_present_mode(available_present_modes@, index as int),
{
    let mut index: usize = 0;
    while index < available_present_modes.len()
        invariant
            index <= available_present_modes.len(),
            forall|j: int|
                0 <= j < index ==> !preferred_present_mode(#[trigger] available_present_modes@[j]),
        decreases available_present_modes.len() - index,
    {
        if available_present_modes[index].code == PRESENT_MODE_MAILBOX {
            return index;
        }
        index += 1;
    }
    0
}

/// Resolves the extent of the swapchain images: the surface's current extent where
/// it is fixed, else the width and height asked for, each clamped into the
/// supported range.
pub fn choose_extent(w: u32, h: u32, capability: &SurfaceCapabilities) -> (extent: Extent2D)
    requires
        extent_undefined(*capability) ==> extent_range_ordered(*capability),
    ensures
        extent == resolved_extent(w, h, *capability),
        extent_undefined(*capability) ==> extent_supported(extent, *capability),
{
    if capability.current_extent.width != UNDEFINED_EXTENT {
        capability.current_extent
    } else {
        Extent2D {
            width: clamp_u32(
                w,
                capability.min_image_extent.width,
                capability.max_image_extent.width,
            ),
            height: clamp_u32(
                h,
                capability.min_image_extent.height,
                capability.max_image_extent.height,
            ),
        }
    }
}

/// Computes the number of images to ask for: one more than the least the surface
/// needs, brought down to the greatest it allows where it declares one.
pub fn choose_image_count(capability: &SurfaceCapabilities) -> (count: u32)
    requires
        image_count_representable(*capability),
    ensures
        count == chosen_image_count(*capability),
        capability.max_image_count == 0 ==> count == capability.min_image_count + 1,
        capability.max_image_count > 0 && image_count_range_ordered(*capability)
            ==> capability.min_image_count <= count <= capability.max_image_count,
{
    if capability.max_image_count > 0 && capability.min_image_count
        >= capability.max_image_count {
        capability.max_image_count
    } else {
        capability.min_image_count + 1
    }
}

// ------------------------------------------------------------------------------------------------
// What is asked of the driver
//
/// Bit of the graphics API for images that are drawn to as color attachments.
pub const IMAGE_USAGE_COLOR_ATTACHMENT: u32 = 0x10;

/// Whether the images of a swapchain are used by one queue family or by several.
#[derive(Debug, Clone, Copy, PartialEq, Eq, Structural)]
pub enum SharingMode {
    Exclusive,
    Concurrent,
}

/// One of the three queries a swapchain is planned from.
#[derive(Debug, Clone, Copy, PartialEq, Eq, Structural)]
pub enum SurfaceQuery {
    Capabilities,
    Formats,
    PresentModes,
}

/// What a surface supports on one physical device.
#[derive(Debug)]
pub struct VSwapChainInfo {
    pub capabilities: SurfaceCapabilities,
    pub formats: Vec<SurfaceFormat>,
    pub present_modes: Vec<PresentMode>,
}

/// The request that creates a swapchain.
#[derive(Debug)]
pub struct SwapchainCreateInfo {
    pub min_image_count: u32,
    pub image_format: i32,
    pub image_color_space: i32,
    pub image_extent: Extent2D,
    pub image_array_layers: u32,
    pub image_usage: u32,
    pub image_sharing_mode: SharingMode,
    /// The queue families that share the images; empty where one family owns them.
    pub queue_family_indices: Vec<u32>,
    pub pre_transform: u32,
    pub composite_alpha: CompositeAlpha,
    pub present_mode: PresentMode,
    pub clipped: bool,
    /// The chain that the new one replaces, so that the driver can reuse its resources.
    pub old_swapchain: Option<u64>,
}

/// The sharing mode for a pair of roles: one family owns the images where both
/// roles fall to it, several share them where the roles fall to different families.
pub open spec fn sharing_mode_for(indices: QueueFamilyIndices) -> SharingMode {
    if indices.graphic() == indices.present() {
        SharingMode::Exclusive
    } else {
        SharingMode::Concurrent
    }
}

/// The families named in the request: none where one family owns the images, else
/// the graphics family followed by the present family.
pub open spec fn sharing_families_for(indices: QueueFamilyIndices) -> Seq<u32> {
    if indices.graphic() == indices.present() {
        Seq::empty()
    } else {
        seq![indices.graphic().unwrap(), indices.present().unwrap()]
    }
}

/// A swapchain can be planned on what the surface supports.
pub open spec fn creation_possible(info: VSwapChainInfo) -> bool {
    &&& info.formats@.len() > 0
    &&& info.present_modes@.len() > 0
    &&& info.capabilities.supported_composite_alpha@.len() > 0
}

/// `request` is the request that creation makes for a window of `w` by `h` pixels
/// on a surface that supports `info`, with the queue roles `indices`, replacing `old`.
pub open spec fn describes_creation(
    request: SwapchainCreateInfo,
    w: u32,
    h: u32,
    info: VSwapChainInfo,
    indices: QueueFamilyIndices,
    old: Option<u64>,
) -> bool {
    &&& request.min_image_count == chosen_image_count(info.capabilities)
    &&& exists|f: int|
        is_chosen_format(info.formats@, f) && f < info.formats@.len() && request.image_format
            == (#[trigger] info.formats@[f]).format && request.image_color_space
            == info.formats@[f].color_space
    &&& exists|p: int|
        is_chosen_present_mode(info.present_modes@, p) && p < info.present_modes@.len()
            && request.present_mode == #[trigger] info.present_modes@[p]
    &&& request.image_extent == resolved_extent(w, h, info.capabilities)
    &&& request.image_array_layers == 1
    &&& request.image_usage == IMAGE_USAGE_COLOR_ATTACHMENT
    &&& request.image_sharing_mode == sharing_mode_for(indices)
    &&& request.queue_family_indices@ == sharing_families_for(indices)
    &&& request.pre_transform == info.capabilities.current_transform
    &&& request.composite_alpha == info.capabilities.supported_composite_alpha@[0]
    &&& request.clipped
    &&& request.old_swapchain == old
}

/// The failure that planning reports on what the surface supports, if any. The
/// format is looked at first, then the present mode, then the composite alpha.
pub open spec fn creation_failure(info: VSwapChainInfo) -> Option<VlkCause> {
    if info.formats@.len() == 0 {
        Some(VlkCause::NoSurfaceFormat)
    } else if info.present_modes@.len() == 0 {
        Some(VlkCause::NoPresentMode)
    } else if info.capabilities.supported_composite_alpha@.len() == 0 {
        Some(VlkCause::NoCompositeAlpha)
    } else {
        None
    }
}

impl VSwapChainInfo {
    /// Gathers the answers to the three surface queries. Each query may have failed
    /// on its own; the first failure, in the order capabilities, formats, present
    /// modes, is reported with the query it belongs to.
    pub fn new(
        capabilities: Result<SurfaceCapabilities, String>,
        formats: Result<Vec<SurfaceFormat>, String>,
        present_modes: Result<Vec<PresentMode>, String>,
    ) -> (r: Result<Self, VlkFailure>)
        ensures
            match (capabilities, formats, present_modes) {
                (Err(why), _, _) => r matches Err(f) && f.kind == EVlkApi::Swapchain && f.cause
                    == VlkCause::QueryFailed(SurfaceQuery::Capabilities, why),
                (Ok(_), Err(why), _) => r matches Err(f) && f.kind == EVlkApi::Swapchain
                    && f.cause == VlkCause::QueryFailed(SurfaceQuery::Formats, why),
                (Ok(_), Ok(_), Err(why)) => r matches Err(f) && f.kind == EVlkApi::Swapchain
                    && f.cause == VlkCause::QueryFailed(SurfaceQuery::PresentModes, why),
                (Ok(c), Ok(f), Ok(p)) => r matches Ok(info) && info.capabilities == c
                    && info.formats == f && info.present_modes == p,
            },
    {
        let capabilities = match capabilities {
            Ok(c) => c,
            Err(why) => {
                return Err(
                    VlkFailure {
                        kind: EVlkApi::Swapchain,
                        cause: VlkCause::QueryFailed(SurfaceQuery::Capabilities, why),
                    },
                );
            },
        };
        let formats = match formats {
            Ok(f) => f,
            Err(why) => {
                return Err(
                    VlkFailure {
                        kind: EVlkApi::Swapchain,
                        cause: VlkCause::QueryFailed(SurfaceQuery::Formats, why),
                    },
                );
            },
        };
        let present_modes = match present_modes {
            Ok(p) => p,
            Err(why) => {
                return Err(
                    VlkFailure {
                        kind: EVlkApi::Swapchain,
                        cause: VlkCause::QueryFailed(SurfaceQuery::PresentModes, why),
                    },
                );
            },
        };
        Ok(VSwapChainInfo { capabilities, formats, present_modes })
    }

    pub fn get_available_formats(&self) -> (r: &Vec<SurfaceFormat>)
        ensures
            r == &self.formats,
    {
        &self.formats
    }

    pub fn get_available_present_modes(&self) -> (r: &Vec<PresentMode>)
        ensures
            r == &self.present_modes,
    {
        &self.present_modes
    }

    pub fn get_capabilities(&self) -> (r: &SurfaceCapabilities)
        ensures
            r == &self.capabilities,
    {
        &self.capabilities
    }
}

/// Decides how the images are shared between the graphics and the present family:
/// owned by one family where both roles fall to the same index, shared by the two
/// where they differ.
pub fn choose_sharing(indices: &QueueFamilyIndices) -> (r: (SharingMode, Vec<u32>))
    requires
        indices.complete(),
    ensures
        r.0 == sharing_mode_for(*indices),
        r.1@ == sharing_families_for(*indices),
{
    let graphic = indices.get_graphic_index();
    let present = indices.get_present_index();
    match (graphic, present) {
        (Some(g), Some(p)) => {
            if g == p {
                (SharingMode::Exclusive, Vec::new())
            } else {
                let mut families: Vec<u32> = Vec::new();
                families.push(g);
                families.push(p);
                assert(families@ =~= seq![g, p]);
                (SharingMode::Concurrent, families)
            }
        },
        _ => (SharingMode::Exclusive, Vec::new()),
    }
}

/// Builds the request for a swapchain of a window of `width` by `height` pixels.
/// Format, present mode, extent, image count and sharing follow the selection
/// rules; the transform is the surface's current one, the blending the first the
/// surface supports. Fails where the surface supports no format, no present mode
/// or no blending at all.
pub fn plan_swapchain(
    width: u32,
    height: u32,
    info: &VSwapChainInfo,
    indices: &QueueFamilyIndices,
    old_swapchain: Option<u64>,
) -> (r: Result<SwapchainCreateInfo, VlkFailure>)
    requires
        plannable(info.capabilities),
        indices.complete(),
    ensures
        r.is_ok() <==> creation_possible(*info),
        r matches Ok(request) ==> describes_creation(
            request,
            width,
            height,
            *info,
            *indices,
            old_swapchain,
        ),
        r matches Err(f) ==> f.kind == EVlkApi::Swapchain && Some(f.cause) == creation_failure(
            *info,
        ),
{
    if info.formats.len() == 0 {
        return Err(VlkFailure { kind: EVlkApi::Swapchain, cause: VlkCause::NoSurfaceFormat });
    }
    if info.present_modes.len() == 0 {
        return Err(VlkFailure { kind: EVlkApi::Swapchain, cause: VlkCause::NoPresentMode });
    }
    if info.capabilities.supported_composite_alpha.len() == 0 {
        return Err(VlkFailure { kind: EVlkApi::Swapchain, cause: VlkCause::NoCompositeAlpha });
    }
    let findex = choose_format(&info.formats);
    let format = info.formats[findex];
    let pindex = choose_present_mode(&info.present_modes);
    let present_mode = info.present_modes[pindex];
    let extent = choose_extent(width, height, &info.capabilities);
    let image_count = choose_image_count(&info.capabilities);
    let (image_sharing_mode, queue_family_indices) = choose_sharing(indices);
    let request = SwapchainCreateInfo {
        min_image_count: image_count,
        image_format: format.format,
        image_color_space: format.color_space,
        image_extent: extent,
        image_array_layers: 1,
        image_usage: IMAGE_USAGE_COLOR_ATTACHMENT,
        image_sharing_mode,
        queue_family_indices,
        pre_transform: info.capabilities.current_transform,
        composite_alpha: info.capabilities.supported_composite_alpha[0],
        present_mode,
        clipped: true,
        old_swapchain,
    };
    assert(is_chosen_format(info.formats@, findex as int) && info.formats@[findex as int]
        == format);
    assert(is_chosen_present_mode(info.present_modes@, pindex as int)
        && info.present_modes@[pindex as int] == present_mode);
    Ok(request)
}

// ------------------------------------------------------------------------------------------------
// Image views
//
/// Code of the graphics API for a two-dimensional image view.
pub const IMAGE_VIEW_TYPE_2D: i32 = 1;

/// Code of the graphics API for a color component that is passed on unchanged.
pub const COMPONENT_SWIZZLE_IDENTITY: i32 = 0;

/// Bit of the graphics API for the color aspect of an image.
pub const IMAGE_ASPECT_COLOR: u32 = 0x1;

/// The request that creates the view of one swapchain image.
#[derive(Debug, Clone, Copy, PartialEq, Eq, Structural)]
pub struct ImageViewCreateInfo {
    pub image: u64,
    pub view_type: i32,
    pub format: i32,
    pub swizzle_r: i32,
    pub swizzle_g: i32,
    pub swizzle_b: i32,
    pub swizzle_a: i32,
    pub aspect_mask: u32,
    pub base_mip_level: u32,
    pub level_count: u32,
    pub base_array_layer: u32,
    pub layer_count: u32,
}

/// The view that the engine takes of a swapchain image: two-dimensional, of the
/// color aspect, with every component passed on unchanged, one mip level and one
/// array layer.
pub open spec fn color_view_of(image: u64, format: i32) -> ImageViewCreateInfo {
    ImageViewCreateInfo {
        image,
        view_type: IMAGE_VIEW_TYPE_2D,
        format,
        swizzle_r: COMPONENT_SWIZZLE_IDENTITY,
        swizzle_g: COMPONENT_SWIZZLE_IDENTITY,
        swizzle_b: COMPONENT_SWIZZLE_IDENTITY,
        swizzle_a: COMPONENT_SWIZZLE_IDENTITY,
        aspect_mask: IMAGE_ASPECT_COLOR,
        base_mip_level: 0,
        level_count: 1,
        base_array_layer: 0,
        layer_count: 1,
    }
}

/// Builds, for each image of a swapchain and in their order, the request for its view.
pub fn create_image_views(surface_format: i32, images: &Vec<u64>) -> (requests: Vec<
    ImageViewCreateInfo,
>)
    ensures
        requests@.len() == images@.len(),
        forall|i: int|
            0 <= i < images@.len() ==> #[trigger] requests@[i] == color_view_of(
                images@[i],
                surface_format,
            ),
{
    let mut requests: Vec<ImageViewCreateInfo> = Vec::new();
    let mut index: usize = 0;
    while index < images.len()
        invariant
            index <= images.len(),
            requests@.len() == index,
            forall|i: int|
                0 <= i < index ==> #[trigger] requests@[i] == color_view_of(
                    images@[i],
                    surface_format,
                ),
        decreases images.len() - index,
    {
        requests.push(
            ImageViewCreateInfo {
                image: images[index],
                view_type: IMAGE_VIEW_TYPE_2D,
                format: surface_format,
                swizzle_r: COMPONENT_SWIZZLE_IDENTITY,
                swizzle_g: COMPONENT_SWIZZLE_IDENTITY,
                swizzle_b: COMPONENT_SWIZZLE_IDENTITY,
                swizzle_a: COMPONENT_SWIZZLE_IDENTITY,
                aspect_mask: IMAGE_ASPECT_COLOR,
                base_mip_level: 0,
                level_count: 1,
                base_array_layer: 0,
                layer_count: 1,
            },
        );
        index += 1;
    }
    requests
}

// ------------------------------------------------------------------------------------------------
// The live chain
//
/// What the driver hands back for a created swapchain: its handle, its images, and
/// one view per image.
#[derive(Debug)]
pub struct SwapchainHandles {
    pub swapchain: u64,
    pub images: Vec<u64>,
    pub image_views: Vec<u64>,
}

/// The handles make a chain: at least one image, and as many views as images.
pub open spec fn handles_usable(handles: SwapchainHandles) -> bool {
    handles.images@.len() > 0 && handles.image_views@.len() == handles.images@.len()
}

/// A resource of a chain that is to be released.
#[derive(Debug, Clone, Copy, PartialEq, Eq, Structural)]
pub enum Release {
    ImageView(u64),
    Swapchain(u64),
}

/// The order in which a chain is released: every view, in their order, then the chain.
pub open spec fn release_order(views: Seq<u64>, swapchain: u64) -> Seq<Release> {
    Seq::new(views.len(), |i: int| Release::ImageView(views[i])).push(Release::Swapchain(swapchain))
}

/// A requested extent that the surface does not support at present.
#[derive(Debug, Clone, Copy, PartialEq, Eq, Structural)]
pub struct ExtentWarning {
    pub provided: Extent2D,
    pub min_supported: Extent2D,
    pub max_supported: Extent2D,
}

/// The words of the warning for an extent that is not supported; each pair of
/// brackets stands for one of its numbers.
pub const EXTENT_WARNING_TEXT: &'static str =
    "New sized provided width: {} height: {} is not in the range of supported size. width range: {} to {} height range: {} to {}";

impl ExtentWarning {
    /// The numbers of the warning in the order its words name them.
    pub open spec fn numbers(self) -> Seq<Seq<char>> {
        seq![
            decimal(self.provided.width as nat),
            decimal(self.provided.height as nat),
            decimal(self.min_supported.width as nat),
            decimal(self.max_supported.width as nat),
            decimal(self.min_supported.height as nat),
            decimal(self.max_supported.height as nat),
        ]
    }

    /// The level at which the warning is logged. It is never more than a warning:
    /// the chain is as it was, and the next resize asks again.
    pub fn level(&self) -> (r: Level)
        ensures
            r == Level::WARN,
    {
        Level::WARN
    }

    /// The text of the warning: the extent that was asked for and the range that
    /// is supported.
    pub fn message(&self) -> (r: String)
        ensures
            r@ == filled(EXTENT_WARNING_TEXT@, self.numbers()),
    {
        let provided_w = decimal_string(self.provided.width as u64);
        let provided_h = decimal_string(self.provided.height as u64);
        let min_w = decimal_string(self.min_supported.width as u64);
        let max_w = decimal_string(self.max_supported.width as u64);
        let min_h = decimal_string(self.min_supported.height as u64);
        let max_h = decimal_string(self.max_supported.height as u64);
        let args: [&str; 6] = [
            provided_w.as_str(),
            provided_h.as_str(),
            min_w.as_str(),
            max_w.as_str(),
            min_h.as_str(),
            max_h.as_str(),
        ];
        let r = validate_msg(EXTENT_WARNING_TEXT, args.as_slice());
        assert(crate::logs::texts_of(args@) =~= self.numbers());
        r
    }
}

/// What a recreation did.
#[derive(Debug)]
pub enum Recreation {
    /// The chain was replaced. The resources of the old chain are to be released
    /// in the order given.
    Replaced(Vec<Release>),
    /// The requested extent is not supported at present. The chain is as it was;
    /// the caller logs the warning and asks again at the next resize.
    Skipped(ExtentWarning),
}

/// What the next step of a recreation is.
#[derive(Debug)]
pub enum RecreatePlan {
    /// The driver is to create a chain from this request.
    Create(SwapchainCreateInfo),
    /// Nothing is asked of the driver.
    Skip(ExtentWarning),
}

/// The warning for an extent that does not lie in the supported range.
pub open spec fn extent_warning(size: Extent2D, caps: SurfaceCapabilities) -> ExtentWarning {
    ExtentWarning {
        provided: size,
        min_supported: caps.min_image_extent,
        max_supported: caps.max_image_extent,
    }
}

/// All that a recreation replaces at once.
#[derive(Debug)]
struct ChainState {
    swapchain: u64,
    image: Vec<u64>,
    image_view: Vec<u64>,
    request: SwapchainCreateInfo,
    capabilities: SurfaceCapabilities,
}

/// The live swapchain with its images and their views.
#[derive(Debug)]
pub struct VSwapChain {
    state: ChainState,
    indices: QueueFamilyIndices,
    formats: Vec<SurfaceFormat>,
    present_modes: Vec<PresentMode>,
}

/// `request` is the request that recreation makes for a window of `size` on a
/// surface with the capabilities `caps`: extent and image count are computed anew,
/// the sharing follows the queue roles, the live chain is named as the one to
/// replace, and all else is as the live chain was asked for.
pub open spec fn describes_recreation(
    request: SwapchainCreateInfo,
    chain: VSwapChain,
    size: Extent2D,
    caps: SurfaceCapabilities,
) -> bool {
    &&& request.image_extent == resolved_extent(size.width, size.height, caps)
    &&& request.min_image_count == chosen_image_count(caps)
    &&& request.image_sharing_mode == sharing_mode_for(chain.queue_roles())
    &&& request.queue_family_indices@ == sharing_families_for(chain.queue_roles())
    &&& request.old_swapchain == Some(chain.handle())
    &&& request.image_format == chain.request().image_format
    &&& request.image_color_space == chain.request().image_color_space
    &&& request.image_array_layers == chain.request().image_array_layers
    &&& request.image_usage == chain.request().image_usage
    &&& request.pre_transform == chain.request().pre_transform
    &&& request.composite_alpha == chain.request().composite_alpha
    &&& request.present_mode == chain.request().present_mode
    &&& request.clipped == chain.request().clipped
}

impl VSwapChain {
    /// What holds of every chain: it has at least one image and one view per image;
    /// its extent and the number of images it asked for follow from the
    /// capabilities it was last created on.
    #[verifier::type_invariant]
    pub closed spec fn wf(self) -> bool {
        &&& self.state.image@.len() > 0
        &&& self.state.image_view@.len() == self.state.image@.len()
        &&& self.indices.complete()
        &&& self.state.request.min_image_count == chosen_image_count(self.state.capabilities)
        &&& self.state.request.image_extent == resolved_extent(
            self.state.request.image_extent.width,
            self.state.request.image_extent.height,
            self.state.capabilities,
        )
    }

    /// Handle of the live chain.
    pub closed spec fn handle(self) -> u64 {
        self.state.swapchain
    }

    /// Handles of the live images, in the driver's order.
    pub closed spec fn images(self) -> Seq<u64> {
        self.state.image@
    }

    /// Handles of the views of the live images, one per image.
    pub closed spec fn views(self) -> Seq<u64> {
        self.state.image_view@
    }

    /// The request the live chain was created from.
    pub closed spec fn request(self) -> SwapchainCreateInfo {
        self.state.request
    }

    /// The capabilities of the surface that the live chain was created on.
    pub closed spec fn capabilities(self) -> SurfaceCapabilities {
        self.state.capabilities
    }

    /// The queue roles the chain was created for.
    pub closed spec fn queue_roles(self) -> QueueFamilyIndices {
        self.indices
    }

    /// The formats the surface supported when the chain was first created.
    pub closed spec fn available_formats(self) -> Seq<SurfaceFormat> {
        self.formats@
    }

    /// The present modes the surface supported when the chain was first created.
    pub closed spec fn available_present_modes(self) -> Seq<PresentMode> {
        self.present_modes@
    }

    /// Every well-formed chain has images, and its request lies within what the
    /// surface declared: where the declared maximum is not under the minimum, the
    /// image count is at least the minimum and at most the maximum, if one is
    /// declared; the extent lies in the supported range where the surface leaves it
    /// open and orders that range, and is the surface's own where it does not leave
    /// it open.
    pub proof fn lemma_chain_within_capabilities(self)
        requires
            self.wf(),
        ensures
            self.images().len() > 0,
            self.views().len() == self.images().len(),
            self.queue_roles().complete(),
            self.request().min_image_count == chosen_image_count(self.capabilities()),
            image_count_range_ordered(self.capabilities()) ==> self.request().min_image_count
                >= self.capabilities().min_image_count,
            self.capabilities().max_image_count > 0 && image_count_range_ordered(
                self.capabilities(),
            ) ==> self.request().min_image_count <= self.capabilities().max_image_count,
            extent_undefined(self.capabilities()) && extent_range_ordered(self.capabilities())
                ==> extent_supported(self.request().image_extent, self.capabilities()),
            !extent_undefined(self.capabilities()) ==> self.request().image_extent
                == self.capabilities().current_extent,
    {
    }

    /// Takes over the chain that the driver created for a window of `width` by
    /// `height` pixels. Fails as planning does where the surface supports too
    /// little; else with the driver's refusal where it refused; else where the
    /// driver handed back no image or not one view per image.
    pub fn new(
        width: u32,
        height: u32,
        info: VSwapChainInfo,
        indices: &QueueFamilyIndices,
        created: Result<SwapchainHandles, String>,
    ) -> (r: Result<Self, VlkFailure>)
        requires
            plannable(info.capabilities),
            indices.complete(),
        ensures
            r.is_ok() <==> creation_possible(info) && (created matches Ok(h) && handles_usable(h)),
            r matches Ok(chain) ==> {
                &&& chain.wf()
                &&& chain.handle() == created->Ok_0.swapchain
                &&& chain.images() == created->Ok_0.images@
                &&& chain.views() == created->Ok_0.image_views@
                &&& describes_creation(chain.request(), width, height, info, *indices, None)
                &&& chain.capabilities() == info.capabilities
                &&& chain.queue_roles() == *indices
                &&& chain.available_formats() == info.formats@
                &&& chain.available_present_modes() == info.present_modes@
            },
            r matches Err(f) ==> f.kind == EVlkApi::Swapchain && f.cause == (match creation_failure(
                info,
            ) {
                Some(cause) => cause,
                None => match created {
                    Err(why) => VlkCause::DriverRejected(why),
                    Ok(_) => VlkCause::MalformedSwapchain,
                },
            }),
    {
        let request = match plan_swapchain(width, height, &info, indices, None) {
            Ok(request) => request,
            Err(failure) => {
                return Err(failure);
            },
        };
        let handles = match created {
            Ok(handles) => handles,
            Err(why) => {
                return Err(
                    VlkFailure { kind: EVlkApi::Swapchain, cause: VlkCause::DriverRejected(why) },
                );
            },
        };
        if handles.images.len() == 0 || handles.image_views.len() != handles.images.len() {
            return Err(VlkFailure { kind: EVlkApi::Swapchain, cause: VlkCause::MalformedSwapchain });
        }
        proof {
            lemma_resolving_twice(width, height, info.capabilities);
        }
        Ok(
            VSwapChain {
                state: ChainState {
                    swapchain: handles.swapchain,
                    image: handles.images,
                    image_view: handles.image_views,
                    request,
                    capabilities: info.capabilities,
                },
                indices: *indices,
                formats: info.formats,
                present_modes: info.present_modes,
            },
        )
    }

    /// Decides the next step of a recreation for a window of `size`, on the
    /// capabilities the surface reports now. Where `size` lies in the supported
    /// range the driver is to create a chain that replaces the live one; where it
    /// does not, nothing is asked of the driver.
    pub fn plan_recreate(&self, size: Extent2D, capabilities: &SurfaceCapabilities) -> (r:
        RecreatePlan)
        requires
            image_count_representable(*capabilities),
        ensures
            !extent_supported(size, *capabilities) ==> (r matches RecreatePlan::Skip(w) && w
                == extent_warning(size, *capabilities)),
            extent_supported(size, *capabilities) ==> (r matches RecreatePlan::Create(request)
                && describes_recreation(request, *self, size, *capabilities)),
    {
        proof {
            use_type_invariant(self);
        }
        if !capabilities.supports_extent(size) {
            return RecreatePlan::Skip(
                ExtentWarning {
                    provided: size,
                    min_supported: capabilities.min_image_extent,
                    max_supported: capabilities.max_image_extent,
                },
            );
        }
        let (image_sharing_mode, queue_family_indices) = choose_sharing(&self.indices);
        RecreatePlan::Create(
            SwapchainCreateInfo {
                min_image_count: choose_image_count(capabilities),
                image_format: self.state.request.image_format,
                image_color_space: self.state.request.image_color_space,
                image_extent: choose_extent(size.width, size.height, capabilities),
                image_array_layers: self.state.request.image_array_layers,
                image_usage: self.state.request.image_usage,
                image_sharing_mode,
                queue_family_indices,
                pre_transform: self.state.request.pre_transform,
                composite_alpha: self.state.request.composite_alpha,
                present_mode: self.state.request.present_mode,
                clipped: self.state.request.clipped,
                old_swapchain: Some(self.state.swapchain),
            },
        )
    }

    /// Completes a recreation for a window of `size`, on the capabilities the
    /// surface reports now and with what the driver answered to the request of
    /// `plan_recreate`.
    ///
    /// Where `size` lies outside the supported range the chain stays as it is, and
    /// the outcome is a warning, not a failure. Where it lies inside and the driver
    /// delivered a usable chain, the live chain and every view are replaced at once,
    /// and the old ones are handed back for release, views first. Where the driver
    /// refused, or delivered no image or not one view per image, the chain stays as
    /// it is and the failure is reported.
    pub fn recreate_swapchain(
        &mut self,
        size: Extent2D,
        capabilities: SurfaceCapabilities,
        created: Result<SwapchainHandles, String>,
    ) -> (r: Result<Recreation, VlkFailure>)
        requires
            image_count_representable(capabilities),
        ensures
            final(self).wf(),
            final(self).images().len() > 0,
            final(self).views().len() == final(self).images().len(),
            final(self).queue_roles() == old(self).queue_roles(),
            final(self).available_formats() == old(self).available_formats(),
            final(self).available_present_modes() == old(self).available_present_modes(),
            !extent_supported(size, capabilities) ==> {
                &&& *final(self) == *old(self)
                &&& r matches Ok(Recreation::Skipped(w)) && w == extent_warning(size, capabilities)
            },
            extent_supported(size, capabilities) ==> match created {
                Ok(h) => if handles_usable(h) {
                    &&& r matches Ok(Recreation::Replaced(retired)) && retired@ == release_order(
                        old(self).views(),
                        old(self).handle(),
                    )
                    &&& final(self).handle() == h.swapchain
                    &&& final(self).images() == h.images@
                    &&& final(self).views() == h.image_views@
                    &&& final(self).capabilities() == capabilities
                    &&& describes_recreation(
                        final(self).request(),
                        *old(self),
                        size,
                        capabilities,
                    )
                } else {
                    &&& *final(self) == *old(self)
                    &&& r matches Err(f) && f.kind == EVlkApi::SwapchainChange && f.cause
                        == VlkCause::MalformedSwapchain
                },
                Err(why) => {
                    &&& *final(self) == *old(self)
                    &&& r matches Err(f) && f.kind == EVlkApi::SwapchainChange && f.cause
                        == VlkCause::DriverRejected(why)
                },
            },
    {
        proof {
            use_type_invariant(&*self);
        }
        let request = match self.plan_recreate(size, &capabilities) {
            RecreatePlan::Create(request) => request,
            RecreatePlan::Skip(warning) => {
                return Ok(Recreation::Skipped(warning));
            },
        };
        let handles = match created {
            Ok(handles) => handles,
            Err(why) => {
                return Err(
                    VlkFailure {
                        kind: EVlkApi::SwapchainChange,
                        cause: VlkCause::DriverRejected(why),
                    },
                );
            },
        };
        if handles.images.len() == 0 || handles.image_views.len() != handles.images.len() {
            return Err(
                VlkFailure { kind: EVlkApi::SwapchainChange, cause: VlkCause::MalformedSwapchain },
            );
        }
        let retired = release_steps(&self.state.image_view, self.state.swapchain);
        proof {
            lemma_resolving_twice(size.width, size.height, capabilities);
        }
        self.state = ChainState {
            swapchain: handles.swapchain,
            image: handles.images,
            image_view: handles.image_views,
            request,
            capabilities,
        };
        Ok(Recreation::Replaced(retired))
    }

    /// Ends the chain. What it held is handed back for release: every view in
    /// their order, then the chain itself.
    pub fn destroy(self) -> (steps: Vec<Release>)
        ensures
            steps@ == release_order(self.views(), self.handle()),
            steps@.len() == self.views().len() + 1,
            steps@.last() == Release::Swapchain(self.handle()),
    {
        release_steps(&self.state.image_view, self.state.swapchain)
    }

    pub fn get_swapchain(&self) -> (r: u64)
        ensures
            r == self.handle(),
    {
        self.state.swapchain
    }

    pub fn get_images(&self) -> (r: &Vec<u64>)
        ensures
            r@ == self.images(),
            r@.len() > 0,
    {
        proof {
            use_type_invariant(self);
        }
        &self.state.image
    }

    pub fn get_image_views(&self) -> (r: &Vec<u64>)
        ensures
            r@ == self.views(),
            r@.len() == self.images().len(),
    {
        proof {
            use_type_invariant(self);
        }
        &self.state.image_view
    }

    pub fn get_format(&self) -> (r: i32)
        ensures
            r == self.request().image_format,
    {
        self.state.request.image_format
    }

    pub fn get_extent(&self) -> (r: Extent2D)
        ensures
            r == self.request().image_extent,
    {
        self.state.request.image_extent
    }

    pub fn get_request(&self) -> (r: &SwapchainCreateInfo)
        ensures
            *r == self.request(),
    {
        &self.state.request
    }

    pub fn get_capabilities(&self) -> (r: &SurfaceCapabilities)
        ensures
            *r == self.capabilities(),
    {
        &self.state.capabilities
    }

    pub fn get_available_formats(&self) -> (r: &Vec<SurfaceFormat>)
        ensures
            r@ == self.available_formats(),
    {
        &self.formats
    }

    pub fn get_available_present_modes(&self) -> (r: &Vec<PresentMode>)
        ensures
            r@ == self.available_present_modes(),
    {
        &self.present_modes
    }
}

/// Lists what a chain held in the order of release: every view, then the chain.
fn release_steps(views: &Vec<u64>, swapchain: u64) -> (steps: Vec<Release>)
    ensures
        steps@ == release_order(views@, swapchain),
{
    let mut steps: Vec<Release> = Vec::new();
    let mut index: usize = 0;
    while index < views.len()
        invariant
            index <= views.len(),
            steps@ == Seq::new(index as nat, |i: int| Release::ImageView(views@[i])),
        decreases views.len() - index,
    {
        steps.push(Release::ImageView(views[index]));
        index += 1;
        assert(steps@ =~= Seq::new(index as nat, |i: int| Release::ImageView(views@[i])));
    }
    steps.push(Release::Swapchain(swapchain));
    steps
}

/// An extent that was resolved on some capabilities resolves to itself on them.
proof fn lemma_resolving_twice(w: u32, h: u32, caps: SurfaceCapabilities)
    requires
        extent_undefined(caps) ==> extent_range_ordered(caps),
    ensures
        resolved_extent(
            resolved_extent(w, h, caps).width,
            resolved_extent(w, h, caps).height,
            caps,
        ) == resolved_extent(w, h, caps),
{
}

// ------------------------------------------------------------------------------------------------
// Laws of the selection rules
//
/// Without a declared maximum the image count is the minimum plus one, exactly.
pub proof fn lemma_image_count_without_maximum(caps: SurfaceCapabilities)
    requires
        caps.max_image_count == 0,
    ensures
        chosen_image_count(caps) == caps.min_image_count + 1,
{
}

/// With a declared maximum that is not under the minimum, the image count lies
/// between the two, bounds included.
pub proof fn lemma_image_count_within_bounds(caps: SurfaceCapabilities)
    requires
        caps.max_image_count > 0,
        caps.min_image_count <= caps.max_image_count,
    ensures
        caps.min_image_count <= chosen_image_count(caps) <= caps.max_image_count,
{
}

/// Where the surface leaves the extent open, the resolved extent is what was asked
/// for, clamped in each direction; where it fixes the extent, that extent is taken
/// as it is. Where the supported range is ordered, a clamped extent lies in it,
/// and an extent that lies in it is left as it is.
pub proof fn lemma_resolved_extent(w: u32, h: u32, caps: SurfaceCapabilities)
    ensures
        extent_undefined(caps) ==> resolved_extent(w, h, caps).width == clamped(
            w as int,
            caps.min_image_extent.width as int,
            caps.max_image_extent.width as int,
        ) && resolved_extent(w, h, caps).height == clamped(
            h as int,
            caps.min_image_extent.height as int,
            caps.max_image_extent.height as int,
        ),
        !extent_undefined(caps) ==> resolved_extent(w, h, caps) == caps.current_extent,
        extent_undefined(caps) && extent_range_ordered(caps) ==> extent_supported(
            resolved_extent(w, h, caps),
            caps,
        ),
        extent_undefined(caps) && extent_supported(Extent2D { width: w, height: h }, caps)
            ==> resolved_extent(w, h, caps) == (Extent2D { width: w, height: h }),
{
}

/// Format selection is a function of the list: whatever position is picked from a
/// list, picking again from the same list gives the same position, hence the same
/// format.
pub proof fn lemma_format_selection_repeatable(formats: Seq<SurfaceFormat>, first: int, second: int)
    requires
        is_chosen_format(formats, first),
        is_chosen_format(formats, second),
    ensures
        first == second,
        formats[first] == formats[second],
{
    if first < second {
        assert(!preferred_format(formats[first]));
    } else if second < first {
        assert(!preferred_format(formats[second]));
    }
}

/// Present-mode selection is a function of the list.
pub proof fn lemma_present_mode_selection_repeatable(
    modes: Seq<PresentMode>,
    first: int,
    second: int,
)
    requires
        is_chosen_present_mode(modes, first),
        is_chosen_present_mode(modes, second),
    ensures
        first == second,
{
    if first < second {
        assert(!preferred_present_mode(modes[first]));
    } else if second < first {
        assert(!preferred_present_mode(modes[second]));
    }
}

} // verus!
