use cobia::renderer::vulkan::physical_device::{
    choose_pdevice, device_rank, get_physical_devices, is_pdevice_suitable,
    select_physical_device, suitable_queue_family, PhysicalDeviceInfo, PhysicalDeviceType,
};
use cobia::renderer::vulkan::queue_family::{find_queue_family, QueueFamilyProperties};
use cobia::renderer::vulkan::failure::VlkCause;
use cobia::error_handler::EVlkApi;

fn family(graphics: bool, present: bool) -> QueueFamilyProperties {
    QueueFamilyProperties { graphics, present }
}

fn device(device_type: PhysicalDeviceType, families: Vec<QueueFamilyProperties>) -> PhysicalDeviceInfo {
    PhysicalDeviceInfo {
        device_type,
        api_major: 1,
        api_minor: 3,
        khr_swapchain: true,
        khr_dynamic_rendering: false,
        queue_families: families,
    }
}

#[test]
fn discrete_gpu_wins_over_integrated() {
    let devices = vec![
        device(PhysicalDeviceType::IntegratedGpu, vec![family(true, true)]),
        device(PhysicalDeviceType::DiscreteGpu, vec![family(false, true), family(true, true)]),
    ];
    let choice = choose_pdevice(&devices).unwrap();
    assert_eq!(choice.device, 1);
    assert_eq!(choice.queue_family, 1);
    assert_eq!(choice.rank, 0);
}

#[test]
fn classes_rank_from_discrete_to_other_and_ties_go_to_the_first() {
    assert_eq!(device_rank(PhysicalDeviceType::DiscreteGpu), 0);
    assert_eq!(device_rank(PhysicalDeviceType::IntegratedGpu), 1);
    assert_eq!(device_rank(PhysicalDeviceType::VirtualGpu), 2);
    assert_eq!(device_rank(PhysicalDeviceType::Cpu), 3);
    assert_eq!(device_rank(PhysicalDeviceType::Other), 4);
    let devices = vec![
        device(PhysicalDeviceType::Other, vec![family(true, true)]),
        device(PhysicalDeviceType::Cpu, vec![family(true, true)]),
        device(PhysicalDeviceType::VirtualGpu, vec![family(true, true)]),
        device(PhysicalDeviceType::VirtualGpu, vec![family(true, true)]),
    ];
    let choice = choose_pdevice(&devices).unwrap();
    assert_eq!((choice.device, choice.rank), (2, 2));
}

#[test]
fn extensions_are_required_according_to_the_api_version() {
    let mut old = device(PhysicalDeviceType::DiscreteGpu, vec![family(true, true)]);
    old.api_minor = 2;
    assert!(!is_pdevice_suitable(&old));
    old.khr_dynamic_rendering = true;
    assert!(is_pdevice_suitable(&old));
    assert_eq!(suitable_queue_family(&old), Some(0));
    old.khr_swapchain = false;
    assert!(!is_pdevice_suitable(&old));
    assert_eq!(suitable_queue_family(&old), None);
    let mut next = device(PhysicalDeviceType::DiscreteGpu, vec![family(true, true)]);
    next.api_major = 2;
    next.api_minor = 0;
    assert!(is_pdevice_suitable(&next));
    let enumerated = Ok(vec![old, next]);
    assert_eq!(select_physical_device(&enumerated).unwrap().device, 1);
    let failed = select_physical_device(&Err("lost".to_string())).unwrap_err();
    assert!(matches!(failed.cause, VlkCause::EnumerationFailed(ref why) if why == "lost"));
    let none = select_physical_device(&Ok(vec![])).unwrap_err();
    assert!(matches!(none.cause, VlkCause::NoSuitableDevice));
}

#[test]
fn only_discrete_gpu_without_usable_family_is_excluded() {
    let devices = vec![
        device(PhysicalDeviceType::DiscreteGpu, vec![family(true, false), family(false, true)]),
        device(PhysicalDeviceType::Cpu, vec![family(true, true)]),
    ];
    let choice = choose_pdevice(&devices).unwrap();
    assert_eq!(choice.device, 0 + 1);
    assert_eq!(choice.queue_family, 0);
    assert_eq!(get_physical_devices(Ok(devices)).unwrap(), vec![1]);
}

#[test]
fn no_suitable_device_differs_from_enumeration_failure() {
    let none = choose_pdevice(&vec![device(PhysicalDeviceType::DiscreteGpu, vec![])]).unwrap_err();
    assert_eq!(none.kind, EVlkApi::PhysicalDevice);
    assert!(matches!(none.cause, VlkCause::NoSuitableDevice));
    let empty = get_physical_devices(Ok(vec![])).unwrap_err();
    assert!(matches!(empty.cause, VlkCause::NoSuitableDevice));
    let failed = get_physical_devices(Err("device lost".to_string())).unwrap_err();
    assert_eq!(failed.kind, EVlkApi::PhysicalDevice);
    match failed.cause {
        VlkCause::EnumerationFailed(why) => assert_eq!(why, "device lost"),
        _ => panic!("enumeration failure expected"),
    }
}

#[test]
fn first_family_that_draws_and_presents_gets_both_roles() {
    let indices = find_queue_family(&vec![family(true, false), family(false, true), family(true, true), family(true, true)]);
    assert!(indices.is_complete());
    assert_eq!(indices.get_graphic_index(), Some(2));
    assert_eq!(indices.get_present_index(), Some(2));
    let none = find_queue_family(&vec![family(true, false)]);
    assert!(!none.is_complete());
    assert_eq!(none.get_graphic_index(), None);
}
