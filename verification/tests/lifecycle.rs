use cobia::error_handler::{ERendering, EVlkApi};
use cobia::renderer::vulkan::base::{rendering_context, Action, Stage, VlkBase};
use cobia::renderer::vulkan::debug::{
    classify_category, classify_severity, init_debug_utils, log_callback, Category,
    DebugUtilsMessageSeverity, DebugUtilsMessageType, Severity,
};
use cobia::renderer::vulkan::failure::{VlkCause, VlkFailure};
use cobia::renderer::vulkan::instance::{
    create_instance, create_vlk_instance, InstanceDiagnostic, LibraryInfo,
    ValidationFeatureEnable,
};
use cobia::renderer::vulkan::logical_device::{create_logical_device, LogicDevice};
use cobia::renderer::vulkan::physical_device::{PhysicalDeviceInfo, PhysicalDeviceType};
use cobia::renderer::vulkan::validation_layer::{
    check_validation_layer_support, contains_layer, LayerDiagnostic, ValidationLayer,
    KHRONOS_VALIDATION_LAYER,
};
use cobia::logs::Level;

const ORDER: [Stage; 7] = [
    Stage::Instance,
    Stage::DebugMessenger,
    Stage::Surface,
    Stage::PhysicalDevice,
    Stage::LogicalDevice,
    Stage::Swapchain,
    Stage::Pipeline,
];

fn position(stage: Stage) -> usize {
    ORDER.iter().position(|s| *s == stage).unwrap()
}

fn failure() -> VlkFailure {
    VlkFailure { kind: EVlkApi::Device, cause: VlkCause::DriverRejected("refused".to_string()) }
}

#[test]
fn full_chain_is_torn_down_in_reverse_without_anything_still_in_use() {
    let mut base = VlkBase::init();
    let mut built = Vec::new();
    while let Some(stage) = base.next_stage() {
        built.push(stage);
        match base.advance(Ok(())) {
            Action::Build(next) => assert_eq!(Some(next), base.next_stage()),
            Action::Ready => assert_eq!(base.next_stage(), None),
            Action::Unwind(..) => panic!("nothing failed"),
        }
    }
    assert_eq!(built, ORDER.to_vec());
    for stage in ORDER {
        assert!(base.is_built(stage));
    }
    let released = base.teardown();
    let mut reversed = ORDER.to_vec();
    reversed.reverse();
    assert_eq!(released, reversed);
    let mut live: Vec<Stage> = ORDER.to_vec();
    for stage in released {
        assert!(
            live.iter().all(|other| position(*other) <= position(stage)),
            "{:?} is released while something built on it is still in use",
            stage
        );
        live.retain(|s| *s != stage);
    }
    assert!(live.is_empty());
    assert_eq!(base.next_stage(), Some(Stage::Instance));
    assert!(base.teardown().is_empty());
}

#[test]
fn failed_step_releases_everything_built_before_it() {
    let mut base = VlkBase::init();
    for _ in 0..4 {
        base.advance(Ok(()));
    }
    assert_eq!(base.next_stage(), Some(Stage::LogicalDevice));
    match base.advance(Err(failure())) {
        Action::Unwind(steps, f) => {
            assert_eq!(steps, vec![Stage::PhysicalDevice, Stage::Surface, Stage::DebugMessenger, Stage::Instance]);
            assert_eq!(f.kind, EVlkApi::Device);
            assert_eq!(rendering_context(&f), ERendering::VulkanBase);
        }
        _ => panic!("an unwinding was expected"),
    }
    for stage in ORDER {
        assert!(!base.is_built(stage));
    }
    let mut fresh = VlkBase::init();
    match fresh.advance(Err(failure())) {
        Action::Unwind(steps, _) => assert!(steps.is_empty()),
        _ => panic!("an unwinding was expected"),
    }
    let mut complete = VlkBase::init();
    for _ in 0..7 {
        complete.advance(Ok(()));
    }
    assert!(matches!(complete.advance(Err(failure())), Action::Ready));
    assert!(complete.is_built(Stage::Pipeline));
}

#[test]
fn failures_reach_start_up_under_their_component() {
    let of = |kind| rendering_context(&VlkFailure { kind, cause: VlkCause::NoQueue });
    assert_eq!(of(EVlkApi::Surface), ERendering::Surface);
    assert_eq!(of(EVlkApi::Library), ERendering::System);
    assert_eq!(of(EVlkApi::Instance), ERendering::System);
    assert_eq!(of(EVlkApi::Swapchain), ERendering::VulkanBase);
    assert_eq!(of(EVlkApi::Queue), ERendering::VulkanBase);
    assert_eq!(ERendering::VulkanBase.describe(), "Vulkan Rendering System");
    assert_eq!(EVlkApi::Library.describe(), "Api Entry Point Error:");
    assert_eq!(EVlkApi::Memory.describe(), "Memory Error:");
}

fn library(debug: bool, validation: bool) -> Result<LibraryInfo, String> {
    Ok(LibraryInfo {
        window_extensions: vec!["VK_KHR_surface".to_string(), "VK_KHR_xlib_surface".to_string()],
        ext_debug_utils: debug,
        ext_validation_features: validation,
    })
}

#[test]
fn instance_needs_the_library_and_debug_utils_but_not_validation_features() {
    let layers = ValidationLayer::new([KHRONOS_VALIDATION_LAYER]);
    let (request, diagnostics) = create_vlk_instance("demo", (0, 2, 1), library(true, true), &layers).unwrap();
    assert_eq!(request.application_name, "demo");
    assert_eq!(request.application_version, (0, 2, 1));
    assert_eq!(request.engine_name, "Cobia");
    assert_eq!(request.engine_version, (1, 0, 0));
    assert_eq!(request.window_extensions, vec!["VK_KHR_surface", "VK_KHR_xlib_surface"]);
    assert!(request.ext_debug_utils && request.ext_validation_features && request.enumerate_portability);
    assert_eq!(request.enabled_layers, vec!["VK_LAYER_KHRONOS_validation"]);
    assert_eq!(
        request.enabled_validation_features,
        vec![ValidationFeatureEnable::BestPractices, ValidationFeatureEnable::DebugPrintf, ValidationFeatureEnable::SynchronizationValidation]
    );
    assert_eq!(diagnostics, vec![InstanceDiagnostic::DebugUtilsSupported, InstanceDiagnostic::ValidationFeaturesSupported]);
    assert_eq!(diagnostics[1].level(), Level::DEBUG);

    let (request, diagnostics) = create_vlk_instance("demo", (0, 2, 1), library(true, false), &layers).unwrap();
    assert!(!request.ext_validation_features);
    assert!(request.enabled_validation_features.is_empty());
    assert_eq!(diagnostics[1], InstanceDiagnostic::ValidationFeaturesUnsupported);
    assert_eq!(diagnostics[1].level(), Level::WARN);
    let record = create_instance(&request, Ok(42)).unwrap();
    assert_eq!((record.instance, record.validation_features, record.validation_layers), (42, false, true));

    let f = create_vlk_instance("demo", (0, 2, 1), library(false, true), &layers).unwrap_err();
    assert_eq!(f.kind, EVlkApi::Instance);
    assert!(matches!(f.cause, VlkCause::DebugUtilsUnsupported));
    let f = create_vlk_instance("demo", (0, 2, 1), Err("libvulkan.so not found".to_string()), &layers).unwrap_err();
    assert_eq!(f.kind, EVlkApi::Library);
    assert!(matches!(f.cause, VlkCause::LibraryUnavailable(ref why) if why == "libvulkan.so not found"));
    let f = create_vlk_instance("de\0mo", (0, 2, 1), library(false, true), &layers).unwrap_err();
    assert!(matches!(f.cause, VlkCause::NameHoldsNul));
    let f = create_instance(&request, Err("incompatible driver".to_string())).unwrap_err();
    assert_eq!(f.message(), "Instance Error: incompatible driver");
}

#[test]
fn missing_layers_switch_validation_off_without_failing_anything() {
    let found = |names: &[&str]| Ok(names.iter().map(|n| n.to_string()).collect::<Vec<_>>());
    let mut layers = ValidationLayer::new([KHRONOS_VALIDATION_LAYER]);
    assert!(layers.is_enabled());
    assert!(layers.check(found(&["VK_LAYER_MESA_overlay", "VK_LAYER_KHRONOS_validation"])).is_empty());
    assert!(layers.is_enabled());
    assert_eq!(layers.get_enable_layer(), vec!["VK_LAYER_KHRONOS_validation"]);

    let diagnostics = layers.check(found(&["VK_LAYER_MESA_overlay"]));
    assert!(matches!(diagnostics[..], [LayerDiagnostic::LayerMissing(0)]));
    assert_eq!(diagnostics[0].level(), Level::WARN);
    assert!(!layers.is_enabled());
    assert!(layers.get_enable_layer().is_empty());

    let diagnostics = layers.check(found(&[]));
    assert!(matches!(diagnostics[..], [LayerDiagnostic::NoLayerAvailable]));
    assert!(!layers.is_enabled());
    let diagnostics = layers.check(Err("enumeration failed".to_string()));
    assert!(matches!(diagnostics[..], [LayerDiagnostic::EnumerationFailed(ref why)] if why == "enumeration failed"));
    assert_eq!(diagnostics[0].level(), Level::ERROR);
    assert!(!layers.is_enabled());
    assert!(layers.check(found(&["VK_LAYER_KHRONOS_validation"])).is_empty());
    assert!(layers.is_enabled());

    assert!(check_validation_layer_support([KHRONOS_VALIDATION_LAYER], found(&["VK_LAYER_KHRONOS_validation"])));
    assert!(!check_validation_layer_support([KHRONOS_VALIDATION_LAYER], found(&["VK_LAYER_KHRONOS_validatio"])));
    assert!(!check_validation_layer_support([KHRONOS_VALIDATION_LAYER], Err("x".to_string())));
    assert!(contains_layer(&vec!["a".to_string(), "b".to_string()], "b"));
    assert!(!contains_layer(&vec!["a".to_string(), "b".to_string()], "ab"));

    let device = PhysicalDeviceInfo {
        device_type: PhysicalDeviceType::DiscreteGpu,
        api_major: 1,
        api_minor: 2,
        khr_swapchain: true,
        khr_dynamic_rendering: true,
        queue_families: vec![],
    };
    layers.check(found(&["other"]));
    let degraded = create_logical_device(&device, 3, &layers);
    assert!(degraded.enabled_layers.is_empty());
    let (request, _) = create_vlk_instance("demo", (1, 0, 0), library(true, true), &layers).unwrap();
    assert!(request.enabled_layers.is_empty());
    assert!(!create_instance(&request, Ok(1)).unwrap().validation_layers);
}

#[test]
fn logical_device_asks_for_what_the_api_version_lacks() {
    let layers = ValidationLayer::new([KHRONOS_VALIDATION_LAYER]);
    let device = |api_major, api_minor| PhysicalDeviceInfo {
        device_type: PhysicalDeviceType::DiscreteGpu,
        api_major,
        api_minor,
        khr_swapchain: true,
        khr_dynamic_rendering: true,
        queue_families: vec![],
    };
    let old = create_logical_device(&device(1, 2), 3, &layers);
    assert!(old.khr_swapchain && old.khr_dynamic_rendering && old.dynamic_rendering);
    assert_eq!((old.queue_family_index, old.queue_count), (3, 1));
    assert_eq!(old.enabled_layers, vec!["VK_LAYER_KHRONOS_validation"]);
    let unified = create_logical_device(&device(1, 3), 0, &layers);
    assert!(unified.khr_swapchain && !unified.khr_dynamic_rendering && unified.dynamic_rendering);
    assert!(!create_logical_device(&device(2, 0), 0, &layers).khr_dynamic_rendering);

    let dev = LogicDevice::new(Ok((8, vec![80, 81]))).unwrap();
    assert_eq!(dev.get_device(), 8);
    assert_eq!(dev.get_image_queue(), 80);
    assert_eq!(dev.get_queues(), &vec![80, 81]);
    let refused = LogicDevice::new(Err("feature not present".to_string())).unwrap_err();
    assert_eq!(refused.kind, EVlkApi::Device);
    assert!(matches!(refused.cause, VlkCause::DriverRejected(_)));
    let no_queue = LogicDevice::new(Ok((8, vec![]))).unwrap_err();
    assert_eq!(no_queue.kind, EVlkApi::Queue);
    assert!(matches!(no_queue.cause, VlkCause::NoQueue));
    assert_eq!(no_queue.message(), "Queue Error: no queue could be found");
}

fn severity(error: bool, warning: bool, information: bool, verbose: bool) -> DebugUtilsMessageSeverity {
    DebugUtilsMessageSeverity { error, warning, information, verbose }
}

fn category(general: bool, validation: bool, performance: bool, address_binding: bool) -> DebugUtilsMessageType {
    DebugUtilsMessageType { general, validation, performance, address_binding }
}

#[test]
fn driver_messages_are_classified_worded_and_escalated() {
    let registration = init_debug_utils();
    assert_eq!(registration.message_severity, severity(true, true, true, true));
    assert_eq!(registration.message_type, category(true, true, true, true));

    assert_eq!(classify_severity(severity(true, true, true, true)), Severity::Error);
    assert_eq!(classify_severity(severity(false, true, true, true)), Severity::Warning);
    assert_eq!(classify_severity(severity(false, false, true, true)), Severity::Verbose);
    assert_eq!(classify_severity(severity(false, false, true, false)), Severity::Information);
    assert_eq!(classify_severity(severity(false, false, false, false)), Severity::Unknown);
    assert_eq!(classify_category(category(true, true, true, true)), Category::General);
    assert_eq!(classify_category(category(false, true, true, true)), Category::Performance);
    assert_eq!(classify_category(category(false, true, false, true)), Category::Validation);
    assert_eq!(classify_category(category(false, false, false, true)), Category::AddressBinding);
    assert_eq!(classify_category(category(false, false, false, false)), Category::Unknown);

    let log = log_callback(severity(false, true, false, false), category(false, true, false, false), Some("Validation"), "image layout mismatch");
    assert_eq!(log.level, Level::WARN);
    assert!(!log.escalate);
    assert_eq!(log.text, "[Validation]  [WARN] [VALIDATION]\n                       image layout mismatch");
    let log = log_callback(severity(true, false, false, false), category(true, false, false, false), None, "device lost");
    assert_eq!(log.level, Level::ERROR);
    assert!(log.escalate);
    assert_eq!(log.text, "[UNKNOWN]  [ERROR] [GENERAL]\n                       device lost");
    let log = log_callback(severity(false, false, true, false), category(false, false, true, false), Some("Loader"), "x");
    assert_eq!((log.level, log.escalate), (Level::INFO, false));
    assert_eq!(log.text, "[Loader]  [INFO] [PERFORM]\n                       x");
    let log = log_callback(severity(false, false, false, true), category(false, false, false, true), Some("Loader"), "x");
    assert_eq!((log.level, log.escalate), (Level::DEBUG, false));
    assert_eq!(log.text, "[Loader]  [VERBOSE] [ADDRESS BINDING]\n                       x");
    let log = log_callback(severity(false, false, false, false), category(true, false, false, false), Some("Loader"), "x");
    assert_eq!((log.level, log.escalate), (Level::FATAL, true));
    assert_eq!(log.text, "[Loader]  [UNKNOWN] [GENERAL]\n                       x");
    let log = log_callback(severity(false, true, false, false), category(false, false, false, false), Some("Loader"), "x");
    assert_eq!((log.level, log.escalate), (Level::FATAL, true));
    assert_eq!(log.text, "[Loader]  [WARN] [UNKNOWN]\n                       x");
}
