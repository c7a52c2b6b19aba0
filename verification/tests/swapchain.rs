use cobia::error_handler::EVlkApi;
use cobia::logs::Level;
use cobia::renderer::vulkan::failure::VlkCause;
use cobia::renderer::vulkan::pipeline::{
    create_graphic_pipeline, empty_viewport, finish_graphic_pipeline, window_size_dependent_setup,
    ShaderModuleInfo, ShaderStage,
};
use cobia::renderer::vulkan::queue_family::QueueFamilyIndices;
use cobia::renderer::vulkan::surface::{
    plan_surface, CompositeAlpha, Extent2D, PresentMode, SurfaceCapabilities, SurfaceFormat,
    VSurface, WindowHandles, COLOR_SPACE_SRGB_NONLINEAR, FORMAT_B8G8R8A8_SRGB,
    PRESENT_MODE_MAILBOX, UNDEFINED_EXTENT,
};
use cobia::renderer::vulkan::swapchain::{
    choose_extent, choose_format, choose_image_count, choose_present_mode, choose_sharing,
    create_image_views, plan_swapchain, ExtentWarning, RecreatePlan, Recreation, Release,
    SharingMode, SurfaceQuery, SwapchainHandles, VSwapChain, VSwapChainInfo,
    COMPONENT_SWIZZLE_IDENTITY, IMAGE_ASPECT_COLOR, IMAGE_USAGE_COLOR_ATTACHMENT,
    IMAGE_VIEW_TYPE_2D,
};

fn extent(width: u32, height: u32) -> Extent2D {
    Extent2D { width, height }
}

fn caps(min_count: u32, max_count: u32, current: Extent2D, min: Extent2D, max: Extent2D) -> SurfaceCapabilities {
    SurfaceCapabilities {
        min_image_count: min_count,
        max_image_count: max_count,
        current_extent: current,
        min_image_extent: min,
        max_image_extent: max,
        current_transform: 1,
        supported_composite_alpha: vec![CompositeAlpha { bit: 8 }, CompositeAlpha { bit: 1 }],
    }
}

fn open_caps() -> SurfaceCapabilities {
    caps(2, 4, extent(UNDEFINED_EXTENT, UNDEFINED_EXTENT), extent(100, 50), extent(2000, 1000))
}

fn srgb() -> SurfaceFormat {
    SurfaceFormat { format: FORMAT_B8G8R8A8_SRGB, color_space: COLOR_SPACE_SRGB_NONLINEAR }
}

fn other_format(format: i32) -> SurfaceFormat {
    SurfaceFormat { format, color_space: COLOR_SPACE_SRGB_NONLINEAR }
}

fn info(capabilities: SurfaceCapabilities) -> VSwapChainInfo {
    VSwapChainInfo {
        capabilities,
        formats: vec![other_format(44), srgb(), other_format(37)],
        present_modes: vec![PresentMode { code: 2 }, PresentMode { code: 0 }],
    }
}

fn handles(swapchain: u64, images: Vec<u64>, image_views: Vec<u64>) -> SwapchainHandles {
    SwapchainHandles { swapchain, images, image_views }
}

fn same_family() -> QueueFamilyIndices {
    QueueFamilyIndices::new(Some(0), Some(0))
}

fn live_chain() -> VSwapChain {
    VSwapChain::new(800, 600, info(open_caps()), &same_family(), Ok(handles(10, vec![11, 12, 13], vec![21, 22, 23]))).unwrap()
}

#[test]
fn image_count_without_declared_maximum_is_minimum_plus_one() {
    for min in [0u32, 1, 2, 7, u32::MAX - 1] {
        let c = caps(min, 0, extent(1, 1), extent(1, 1), extent(1, 1));
        assert_eq!(choose_image_count(&c), min + 1);
    }
}

#[test]
fn image_count_stays_within_declared_bounds() {
    for (min, max, expected) in [(2u32, 3u32, 3u32), (2, 2, 2), (2, 8, 3), (1, 1, 1), (u32::MAX, u32::MAX, u32::MAX)] {
        let c = caps(min, max, extent(1, 1), extent(1, 1), extent(1, 1));
        let count = choose_image_count(&c);
        assert_eq!(count, expected);
        assert!(min <= count && count <= max);
    }
}

#[test]
fn extent_is_clamped_only_where_the_surface_leaves_it_open() {
    let open = open_caps();
    assert_eq!(choose_extent(800, 600, &open), extent(800, 600));
    assert_eq!(choose_extent(10, 600, &open), extent(100, 600));
    assert_eq!(choose_extent(800, 7, &open), extent(800, 50));
    assert_eq!(choose_extent(5000, 5000, &open), extent(2000, 1000));
    assert_eq!(choose_extent(100, 1000, &open), extent(100, 1000));
    let fixed = caps(2, 4, extent(640, 480), extent(100, 50), extent(2000, 1000));
    assert_eq!(choose_extent(5000, 1, &fixed), extent(640, 480));
    let fixed_height_only = caps(2, 4, extent(640, UNDEFINED_EXTENT), extent(100, 50), extent(2000, 1000));
    assert_eq!(choose_extent(1, 1, &fixed_height_only), extent(640, UNDEFINED_EXTENT));
}

#[test]
fn format_selection_prefers_srgb_and_is_repeatable() {
    let formats = vec![other_format(44), srgb(), other_format(37), srgb()];
    assert_eq!(choose_format(&formats), 1);
    assert_eq!(choose_format(&formats), choose_format(&formats));
    let wrong_space = vec![SurfaceFormat { format: FORMAT_B8G8R8A8_SRGB, color_space: 7 }, other_format(37)];
    assert_eq!(choose_format(&wrong_space), 0);
    assert_eq!(choose_format(&vec![]), 0);
    assert_eq!(choose_format(&vec![formats[choose_format(&formats)]]), 0);
}

#[test]
fn present_mode_selection_prefers_mailbox() {
    let mailbox = PresentMode { code: PRESENT_MODE_MAILBOX };
    assert_eq!(choose_present_mode(&vec![PresentMode { code: 2 }, PresentMode { code: 0 }, mailbox]), 2);
    assert_eq!(choose_present_mode(&vec![PresentMode { code: 2 }, PresentMode { code: 3 }]), 0);
    assert_eq!(choose_present_mode(&vec![]), 0);
}

#[test]
fn one_family_owns_the_images_two_share_them() {
    let (mode, families) = choose_sharing(&same_family());
    assert_eq!(mode, SharingMode::Exclusive);
    assert!(families.is_empty());
    let (mode, families) = choose_sharing(&QueueFamilyIndices::new(Some(2), Some(5)));
    assert_eq!(mode, SharingMode::Concurrent);
    assert_eq!(families, vec![2, 5]);
}

#[test]
fn surface_queries_fail_apart() {
    let ok_caps = || Ok(open_caps());
    let ok_formats = || Ok(vec![srgb()]);
    let ok_modes = || Ok(vec![PresentMode { code: 2 }]);
    let failed = |r: Result<VSwapChainInfo, _>| match r {
        Err(cobia::renderer::vulkan::failure::VlkFailure { kind, cause: VlkCause::QueryFailed(q, why) }) => {
            assert_eq!(kind, EVlkApi::Swapchain);
            (q, why)
        }
        _ => panic!("a failed query was expected"),
    };
    assert_eq!(failed(VSwapChainInfo::new(Err("a".to_string()), Err("b".to_string()), Err("c".to_string()))), (SurfaceQuery::Capabilities, "a".to_string()));
    assert_eq!(failed(VSwapChainInfo::new(ok_caps(), Err("b".to_string()), Err("c".to_string()))), (SurfaceQuery::Formats, "b".to_string()));
    assert_eq!(failed(VSwapChainInfo::new(ok_caps(), ok_formats(), Err("c".to_string()))), (SurfaceQuery::PresentModes, "c".to_string()));
    let all = VSwapChainInfo::new(ok_caps(), ok_formats(), ok_modes()).unwrap();
    assert_eq!(all.get_available_formats(), &vec![srgb()]);
    assert_eq!(all.get_available_present_modes(), &vec![PresentMode { code: 2 }]);
    assert_eq!(all.get_capabilities().min_image_count, 2);

    let surface = VSurface::new(Ok(99)).unwrap();
    assert_eq!(surface.get_surface(), 99);
    let e = surface.get_pdev_surface_capabilities(Err("lost".to_string())).unwrap_err();
    assert_eq!(e.kind, EVlkApi::Surface);
    assert!(matches!(e.cause, VlkCause::QueryFailed(SurfaceQuery::Capabilities, _)));
    let e = surface.get_pdev_surface_format(Err("lost".to_string())).unwrap_err();
    assert!(matches!(e.cause, VlkCause::QueryFailed(SurfaceQuery::Formats, _)));
    let e = surface.get_pdev_surface_present_mode(Err("lost".to_string())).unwrap_err();
    assert!(matches!(e.cause, VlkCause::QueryFailed(SurfaceQuery::PresentModes, _)));
    assert_eq!(surface.get_pdev_surface_format(Ok(vec![srgb()])).unwrap(), vec![srgb()]);
    assert_eq!(e.message(), "Vulkan Surface Error: Can't access physical surface present modes for swapchain info: lost");
    assert!(matches!(VSurface::new(Err("no".to_string())).unwrap_err().cause, VlkCause::DriverRejected(_)));
}

#[test]
fn window_of_another_platform_is_reported() {
    let both = WindowHandles { xlib_display: Some(4), xlib_window: Some(5) };
    let plan = plan_surface(both).unwrap();
    assert_eq!((plan.dpy, plan.window), (4, 5));
    let no_display = plan_surface(WindowHandles { xlib_display: None, xlib_window: Some(5) }).unwrap_err();
    assert_eq!(no_display.kind, EVlkApi::Surface);
    assert!(matches!(no_display.cause, VlkCause::DisplayNotXlib));
    assert_eq!(no_display.cause.message(), "Current display session doesn't use xlib");
    let no_window = plan_surface(WindowHandles { xlib_display: Some(4), xlib_window: None }).unwrap_err();
    assert!(matches!(no_window.cause, VlkCause::WindowNotXlib));
    assert_eq!(no_window.cause.message(), "Current window doesn't use xlib");
}

#[test]
fn request_follows_the_selection_rules() {
    let request = plan_swapchain(5000, 10, &info(open_caps()), &QueueFamilyIndices::new(Some(1), Some(3)), None).unwrap();
    assert_eq!(request.min_image_count, 3);
    assert_eq!(request.image_format, FORMAT_B8G8R8A8_SRGB);
    assert_eq!(request.image_color_space, COLOR_SPACE_SRGB_NONLINEAR);
    assert_eq!(request.image_extent, extent(2000, 50));
    assert_eq!(request.image_array_layers, 1);
    assert_eq!(request.image_usage, IMAGE_USAGE_COLOR_ATTACHMENT);
    assert_eq!(request.image_sharing_mode, SharingMode::Concurrent);
    assert_eq!(request.queue_family_indices, vec![1, 3]);
    assert_eq!(request.pre_transform, 1);
    assert_eq!(request.composite_alpha, CompositeAlpha { bit: 8 });
    assert_eq!(request.present_mode, PresentMode { code: 2 });
    assert!(request.clipped);
    assert_eq!(request.old_swapchain, None);
}

#[test]
fn surface_that_supports_too_little_cannot_be_planned_on() {
    let cause = |i: VSwapChainInfo| plan_swapchain(1, 1, &i, &same_family(), None).unwrap_err();
    let mut no_formats = info(open_caps());
    no_formats.formats.clear();
    no_formats.present_modes.clear();
    let f = cause(no_formats);
    assert_eq!(f.kind, EVlkApi::Swapchain);
    assert!(matches!(f.cause, VlkCause::NoSurfaceFormat));
    let mut no_modes = info(open_caps());
    no_modes.present_modes.clear();
    no_modes.capabilities.supported_composite_alpha.clear();
    assert!(matches!(cause(no_modes).cause, VlkCause::NoPresentMode));
    let mut no_alpha = info(open_caps());
    no_alpha.capabilities.supported_composite_alpha.clear();
    let f = cause(no_alpha);
    assert!(matches!(f.cause, VlkCause::NoCompositeAlpha));
    assert_eq!(f.message(), "Swapchain Error: The surface has no composite alpha available");
}

#[test]
fn every_image_gets_a_plain_color_view() {
    let views = create_image_views(50, &vec![7, 8]);
    assert_eq!(views.len(), 2);
    for (view, image) in views.iter().zip([7u64, 8]) {
        assert_eq!(view.image, image);
        assert_eq!(view.view_type, IMAGE_VIEW_TYPE_2D);
        assert_eq!(view.format, 50);
        assert_eq!(view.swizzle_r, COMPONENT_SWIZZLE_IDENTITY);
        assert_eq!(view.swizzle_g, COMPONENT_SWIZZLE_IDENTITY);
        assert_eq!(view.swizzle_b, COMPONENT_SWIZZLE_IDENTITY);
        assert_eq!(view.swizzle_a, COMPONENT_SWIZZLE_IDENTITY);
        assert_eq!(view.aspect_mask, IMAGE_ASPECT_COLOR);
        assert_eq!((view.base_mip_level, view.level_count), (0, 1));
        assert_eq!((view.base_array_layer, view.layer_count), (0, 1));
    }
    assert!(create_image_views(50, &vec![]).is_empty());
}

#[test]
fn chain_takes_over_what_the_driver_created() {
    let chain = live_chain();
    assert_eq!(chain.get_swapchain(), 10);
    assert_eq!(chain.get_images(), &vec![11, 12, 13]);
    assert_eq!(chain.get_image_views(), &vec![21, 22, 23]);
    assert_eq!(chain.get_format(), FORMAT_B8G8R8A8_SRGB);
    assert_eq!(chain.get_extent(), extent(800, 600));
    assert_eq!(chain.get_request().min_image_count, 3);
    assert_eq!(chain.get_capabilities().max_image_count, 4);
    assert_eq!(chain.get_available_formats().len(), 3);
    assert_eq!(chain.get_available_present_modes().len(), 2);

    let refused = VSwapChain::new(800, 600, info(open_caps()), &same_family(), Err("out of memory".to_string())).unwrap_err();
    assert_eq!(refused.kind, EVlkApi::Swapchain);
    assert!(matches!(refused.cause, VlkCause::DriverRejected(ref why) if why == "out of memory"));
    let empty = VSwapChain::new(800, 600, info(open_caps()), &same_family(), Ok(handles(1, vec![], vec![]))).unwrap_err();
    assert!(matches!(empty.cause, VlkCause::MalformedSwapchain));
    let uneven = VSwapChain::new(800, 600, info(open_caps()), &same_family(), Ok(handles(1, vec![1, 2], vec![3]))).unwrap_err();
    assert!(matches!(uneven.cause, VlkCause::MalformedSwapchain));
    let mut poor = info(open_caps());
    poor.formats.clear();
    let unplanned = VSwapChain::new(800, 600, poor, &same_family(), Ok(handles(1, vec![1], vec![2]))).unwrap_err();
    assert!(matches!(unplanned.cause, VlkCause::NoSurfaceFormat));
}

#[test]
fn recreation_inside_the_supported_range_replaces_chain_and_views() {
    let mut chain = live_chain();
    let now = caps(3, 0, extent(UNDEFINED_EXTENT, UNDEFINED_EXTENT), extent(100, 50), extent(2000, 1000));
    match chain.plan_recreate(extent(1024, 768), &now) {
        RecreatePlan::Create(request) => {
            assert_eq!(request.old_swapchain, Some(10));
            assert_eq!(request.image_extent, extent(1024, 768));
            assert_eq!(request.min_image_count, 4);
            assert_eq!(request.image_format, FORMAT_B8G8R8A8_SRGB);
            assert_eq!(request.present_mode, PresentMode { code: 2 });
            assert_eq!(request.composite_alpha, CompositeAlpha { bit: 8 });
            assert_eq!(request.image_sharing_mode, SharingMode::Exclusive);
        }
        RecreatePlan::Skip(_) => panic!("the extent is supported"),
    }
    let outcome = chain.recreate_swapchain(extent(1024, 768), now, Ok(handles(30, vec![31, 32], vec![41, 42]))).unwrap();
    match outcome {
        Recreation::Replaced(retired) => assert_eq!(
            retired,
            vec![Release::ImageView(21), Release::ImageView(22), Release::ImageView(23), Release::Swapchain(10)]
        ),
        Recreation::Skipped(_) => panic!("the extent is supported"),
    }
    assert_eq!(chain.get_swapchain(), 30);
    assert_eq!(chain.get_images(), &vec![31, 32]);
    assert_eq!(chain.get_image_views(), &vec![41, 42]);
    assert_eq!(chain.get_extent(), extent(1024, 768));
    assert_eq!(chain.get_request().min_image_count, 4);
    assert_eq!(chain.get_request().old_swapchain, Some(10));
    assert_eq!(chain.get_capabilities().min_image_count, 3);
    assert!(!chain.get_images().is_empty());
}

#[test]
fn recreation_outside_the_supported_range_leaves_the_chain_intact() {
    let mut chain = live_chain();
    for size in [extent(99, 600), extent(2001, 600), extent(800, 49), extent(800, 1001), extent(0, 0)] {
        match chain.plan_recreate(size, &open_caps()) {
            RecreatePlan::Skip(w) => assert_eq!(w.provided, size),
            RecreatePlan::Create(_) => panic!("the extent is not supported"),
        }
        let outcome = chain.recreate_swapchain(size, open_caps(), Ok(handles(30, vec![31], vec![41])));
        match outcome {
            Ok(Recreation::Skipped(w)) => {
                assert_eq!(w, ExtentWarning { provided: size, min_supported: extent(100, 50), max_supported: extent(2000, 1000) });
                assert_eq!(w.level(), Level::WARN);
            }
            _ => panic!("a skipped recreation was expected"),
        }
        assert_eq!(chain.get_swapchain(), 10);
        assert_eq!(chain.get_images(), &vec![11, 12, 13]);
        assert_eq!(chain.get_image_views(), &vec![21, 22, 23]);
        assert_eq!(chain.get_extent(), extent(800, 600));
    }
}

#[test]
fn recreation_that_the_driver_fails_keeps_the_chain_and_reports() {
    let mut chain = live_chain();
    let refused = chain.recreate_swapchain(extent(1024, 768), open_caps(), Err("surface lost".to_string())).unwrap_err();
    assert_eq!(refused.kind, EVlkApi::SwapchainChange);
    assert!(matches!(refused.cause, VlkCause::DriverRejected(ref why) if why == "surface lost"));
    assert_eq!(refused.message(), "Swapchain change Error: surface lost");
    let empty = chain.recreate_swapchain(extent(1024, 768), open_caps(), Ok(handles(30, vec![], vec![]))).unwrap_err();
    assert_eq!(empty.kind, EVlkApi::SwapchainChange);
    assert!(matches!(empty.cause, VlkCause::MalformedSwapchain));
    assert_eq!(chain.get_swapchain(), 10);
    assert_eq!(chain.get_images(), &vec![11, 12, 13]);
    assert_eq!(chain.get_image_views(), &vec![21, 22, 23]);
}

#[test]
fn recreation_on_a_fixed_extent_takes_the_surface_extent() {
    let mut chain = live_chain();
    let fixed = caps(2, 4, extent(640, 480), extent(640, 480), extent(640, 480));
    let outcome = chain.recreate_swapchain(extent(640, 480), fixed, Ok(handles(30, vec![31], vec![41])));
    assert!(matches!(outcome, Ok(Recreation::Replaced(_))));
    assert_eq!(chain.get_extent(), extent(640, 480));
}

#[test]
fn extent_warning_names_what_was_asked_and_what_is_supported() {
    let w = ExtentWarning { provided: extent(3000, 20), min_supported: extent(100, 50), max_supported: extent(2000, 1000) };
    assert_eq!(
        w.message(),
        "New sized provided width: 3000 height: 20 is not in the range of supported size. width range: 100 to 2000 height range: 50 to 1000"
    );
}

#[test]
fn views_are_released_before_the_chain() {
    let steps = live_chain().destroy();
    assert_eq!(
        steps,
        vec![Release::ImageView(21), Release::ImageView(22), Release::ImageView(23), Release::Swapchain(10)]
    );
}

#[test]
fn capabilities_that_cannot_be_planned_on_are_told_apart() {
    assert!(open_caps().is_plannable());
    assert!(!caps(u32::MAX, 0, extent(1, 1), extent(1, 1), extent(1, 1)).is_plannable());
    assert!(!caps(1, 0, extent(UNDEFINED_EXTENT, 0), extent(10, 10), extent(5, 50)).is_plannable());
    assert!(caps(1, 0, extent(7, 7), extent(10, 10), extent(5, 50)).is_plannable());
    assert!(open_caps().supports_extent(extent(100, 1000)));
    assert!(!open_caps().supports_extent(extent(100, 1001)));
}

#[test]
fn pipeline_follows_the_live_chain() {
    let chain = live_chain();
    let module = |module: u64, has_entry_point: bool| Ok(ShaderModuleInfo { module, has_entry_point });
    let info = create_graphic_pipeline(&chain, module(1, true), module(2, true)).unwrap();
    assert_eq!(info.color_attachment_formats, vec![Some(FORMAT_B8G8R8A8_SRGB)]);
    assert_eq!((info.vertex_shader, info.fragment_shader), (1, 2));
    let f = create_graphic_pipeline(&chain, module(1, false), module(2, false)).unwrap_err();
    assert_eq!(f.kind, EVlkApi::Shader);
    assert!(matches!(f.cause, VlkCause::NoEntryPoint(ShaderStage::Vertex)));
    assert_eq!(f.cause.message(), "Vertex shader have no entry function name 'main'");
    let f = create_graphic_pipeline(&chain, module(1, true), module(2, false)).unwrap_err();
    assert!(matches!(f.cause, VlkCause::NoEntryPoint(ShaderStage::Fragment)));
    let f = create_graphic_pipeline(&chain, Err("no file".to_string()), module(2, false)).unwrap_err();
    assert!(matches!(f.cause, VlkCause::DriverRejected(_)));
    let f = create_graphic_pipeline(&chain, module(1, false), Err("no file".to_string())).unwrap_err();
    assert!(matches!(f.cause, VlkCause::DriverRejected(_)));
    assert_eq!(finish_graphic_pipeline(Ok(5)).unwrap(), 5);
    assert_eq!(finish_graphic_pipeline(Err("x".to_string())).unwrap_err().kind, EVlkApi::GraphicPipeline);

    let mut viewport = empty_viewport();
    assert_eq!(viewport.dimensions, extent(0, 0));
    let views = window_size_dependent_setup(&chain, &mut viewport);
    assert_eq!(viewport.dimensions, extent(800, 600));
    assert_eq!(viewport.origin, extent(0, 0));
    assert_eq!((viewport.min_depth, viewport.max_depth), (0, 1));
    assert_eq!(views.iter().map(|v| v.image).collect::<Vec<_>>(), vec![11, 12, 13]);
}
