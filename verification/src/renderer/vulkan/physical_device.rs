//! Filtering and ranking of the physical devices that the driver exposes.

use vstd::prelude::*;
use crate::error_handler::EVlkApi;
use super::failure::{VlkCause, VlkFailure};
use super::queue_family::{
    find_queue_family, has_usable_family, is_first_usable_family, QueueFamilyProperties,
};

verus! {

/// Class of a physical device as the driver reports it.
#[derive(Debug, Clone, Copy, PartialEq, Eq, Structural)]
pub enum PhysicalDeviceType {
    DiscreteGpu,
    IntegratedGpu,
    VirtualGpu,
    Cpu,
    Other,
}

/// What the engine reads of one physical device.
#[derive(Debug)]
pub struct PhysicalDeviceInfo {
    pub device_type: PhysicalDeviceType,
    /// Major number of the API version the device implements.
    pub api_major: u32,
    /// Minor number of the API version the device implements.
    pub api_minor: u32,
    /// The device supports the swapchain extension.
    pub khr_swapchain: bool,
    /// The device supports the dynamic-rendering extension.
    pub khr_dynamic_rendering: bool,
    /// The queue families of the device, in the driver's order, with presentation
    /// support resolved against the bound surface.
    pub queue_families: Vec<QueueFamilyProperties>,
}

/// The API version at which dynamic rendering is part of the core feature set.
pub open spec fn unified_api(major: u32, minor: u32) -> bool {
    major > 1 || (major == 1 && minor >= 3)
}

/// Rank of a device class; the lowest rank wins.
pub open spec fn rank_of(device_type: PhysicalDeviceType) -> int {
    match device_type {
        PhysicalDeviceType::DiscreteGpu => 0,
        PhysicalDeviceType::IntegratedGpu => 1,
        PhysicalDeviceType::VirtualGpu => 2,
        PhysicalDeviceType::Cpu => 3,
        PhysicalDeviceType::Other => 4,
    }
}

/// The device offers the extensions the engine needs: the swapchain, and dynamic
/// rendering where the API version does not bring it.
pub open spec fn has_required_extensions(device: PhysicalDeviceInfo) -> bool {
    device.khr_swapchain && (unified_api(device.api_major, device.api_minor)
        || device.khr_dynamic_rendering)
}

/// The device passes every filter.
pub open spec fn device_suitable(device: PhysicalDeviceInfo) -> bool {
    has_required_extensions(device) && has_usable_family(device.queue_families@)
}

/// Some device of the list passes every filter.
pub open spec fn has_suitable_device(devices: Seq<PhysicalDeviceInfo>) -> bool {
    exists|i: int| 0 <= i < devices.len() && device_suitable(#[trigger] devices[i])
}

/// `index` is the device that selection picks: it is suitable, no suitable device
/// ranks strictly better, and no suitable device of the same rank comes before it.
pub open spec fn is_best_device(devices: Seq<PhysicalDeviceInfo>, index: int) -> bool {
    &&& 0 <= index < devices.len()
    &&& device_suitable(devices[index])
    &&& forall|j: int|
        0 <= j < devices.len() && device_suitable(#[trigger] devices[j]) ==> rank_of(
            devices[index].device_type,
        ) <= rank_of(devices[j].device_type)
    &&& forall|j: int|
        0 <= j < index && device_suitable(#[trigger] devices[j]) ==> rank_of(
            devices[index].device_type,
        ) < rank_of(devices[j].device_type)
}

/// Every list of queue families that the library handles fits the driver's 32-bit indices.
pub open spec fn families_indexable(devices: Seq<PhysicalDeviceInfo>) -> bool {
    forall|i: int| 0 <= i < devices.len() ==> (#[trigger] devices[i]).queue_families@.len() <= u32::MAX
}

/// The outcome of device selection: the chosen device with what was worked out
/// of it at selection time.
#[derive(Debug, Clone, Copy, PartialEq, Eq, Structural)]
pub struct DeviceChoice {
    /// Position of the chosen device in the enumerated list.
    pub device: usize,
    /// The queue family that serves both graphics and presentation on it.
    pub queue_family: u32,
    /// The rank of its class.
    pub rank: u8,
}

/// Rank of a device class: discrete, integrated, virtual, software, other.
pub fn device_rank(device_type: PhysicalDeviceType) -> (r: u8)
    ensures
        r == rank_of(device_type),
{
    match device_type {
        PhysicalDeviceType::DiscreteGpu => 0,
        PhysicalDeviceType::IntegratedGpu => 1,
        PhysicalDeviceType::VirtualGpu => 2,
        PhysicalDeviceType::Cpu => 3,
        PhysicalDeviceType::Other => 4,
    }
}

/// Tells whether a device passes the extension filter and owns a queue family that
/// both draws and presents. Gives that family's index when it does.
pub fn suitable_queue_family(device: &PhysicalDeviceInfo) -> (r: Option<u32>)
    requires
        device.queue_families@.len() <= u32::MAX,
    ensures
        r.is_some() <==> device_suitable(*device),
        r matches Some(q) ==> is_first_usable_family(device.queue_families@, q as int),
{
    let api_ok = device.api_major > 1 || (device.api_major == 1 && device.api_minor >= 3);
    if !(device.khr_swapchain && (api_ok || device.khr_dynamic_rendering)) {
        return None;
    }
    let indices = find_queue_family(&device.queue_families);
    if indices.is_complete() {
        indices.get_graphic_index()
    } else {
        None
    }
}

/// Tells whether a device passes every filter.
pub fn is_pdevice_suitable(device: &PhysicalDeviceInfo) -> (r: bool)
    requires
        device.queue_families@.len() <= u32::MAX,
    ensures
        r == device_suitable(*device),
{
    suitable_queue_family(device).is_some()
}

/// Keeps the positions of the devices that pass every filter, in the driver's order.
/// Fails when the driver could not enumerate, and, with another cause, when no
/// device is left.
pub fn get_physical_devices(enumerated: Result<Vec<PhysicalDeviceInfo>, String>) -> (r: Result<
    Vec<usize>,
    VlkFailure,
>)
    requires
        enumerated matches Ok(devices) ==> families_indexable(devices@),
    ensures
        match enumerated {
            Err(why) => r matches Err(f) && f.kind == EVlkApi::PhysicalDevice && f.cause
                == VlkCause::EnumerationFailed(why),
            Ok(devices) => match r {
                Ok(kept) => {
                    &&& has_suitable_device(devices@)
                    &&& kept@.len() > 0
                    &&& forall|k: int|
                        0 <= k < kept@.len() ==> 0 <= #[trigger] kept@[k] < devices@.len()
                            && device_suitable(devices@[kept@[k] as int])
                    &&& forall|k: int, l: int|
                        0 <= k < l < kept@.len() ==> kept@[k] < kept@[l]
                    &&& forall|i: int|
                        0 <= i < devices@.len() && device_suitable(#[trigger] devices@[i])
                            ==> kept@.contains(i as usize)
                },
                Err(f) => {
                    &&& !has_suitable_device(devices@)
                    &&& f.kind == EVlkApi::PhysicalDevice
                    &&& f.cause == VlkCause::NoSuitableDevice
                },
            },
        },
{
    let devices = match enumerated {
        Ok(devices) => devices,
        Err(why) => {
            return Err(
                VlkFailure { kind: EVlkApi::PhysicalDevice, cause: VlkCause::EnumerationFailed(why) },
            );
        },
    };
    let mut kept: Vec<usize> = Vec::new();
    let mut index: usize = 0;
    while index < devices.len()
        invariant
            index <= devices.len(),
            families_indexable(devices@),
            forall|k: int|
                0 <= k < kept@.len() ==> 0 <= #[trigger] kept@[k] < index && device_suitable(
                    devices@[kept@[k] as int],
                ),
            forall|k: int, l: int| 0 <= k < l < kept@.len() ==> kept@[k] < kept@[l],
            forall|i: int|
                0 <= i < index && device_suitable(#[trigger] devices@[i]) ==> kept@.contains(
                    i as usize,
                ),
        decreases devices.len() - index,
    {
        if is_pdevice_suitable(&devices[index]) {
            let ghost before = kept@;
            kept.push(index);
            proof {
                assert(kept@[before.len() as int] == index);
                assert forall|i: int|
                    0 <= i < index + 1 && device_suitable(#[trigger] devices@[i]) implies kept@.contains(
                    i as usize,
                ) by {
                    if i < index {
                        let k = choose|k: int| 0 <= k < before.len() && before[k] == i as usize;
                        assert(kept@[k] == i as usize);
                    }
                }
            }
        }
        index += 1;
    }
    if kept.len() == 0 {
        proof {
            assert forall|i: int| 0 <= i < devices@.len() implies !device_suitable(
                #[trigger] devices@[i],
            ) by {
                if device_suitable(devices@[i]) {
                    assert(kept@.contains(i as usize));
                }
            }
        }
        return Err(VlkFailure { kind: EVlkApi::PhysicalDevice, cause: VlkCause::NoSuitableDevice });
    }
    proof {
        assert(device_suitable(devices@[kept@[0] as int]));
    }
    Ok(kept)
}

/// Picks the device to render with: among the devices that pass every filter, the
/// one of the best class, and the first of them in the driver's order where several
/// share that class. With it comes the first of its queue families that both draws
/// and presents. Fails exactly when no device passes the filters.
pub fn choose_pdevice(devices: &Vec<PhysicalDeviceInfo>) -> (r: Result<DeviceChoice, VlkFailure>)
    requires
        families_indexable(devices@),
    ensures
        r.is_ok() <==> has_suitable_device(devices@),
        r matches Ok(choice) ==> {
            &&& is_best_device(devices@, choice.device as int)
            &&& is_first_usable_family(
                devices@[choice.device as int].queue_families@,
                choice.queue_family as int,
            )
            &&& choice.rank == rank_of(devices@[choice.device as int].device_type)
        },
        r matches Err(f) ==> f.kind == EVlkApi::PhysicalDevice && f.cause
            == VlkCause::NoSuitableDevice,
{
    let mut best: Option<DeviceChoice> = None;
    let mut best_rank: u8 = 0;
    let mut index: usize = 0;
    while index < devices.len()
        invariant
            index <= devices.len(),
            families_indexable(devices@),
            best.is_none() ==> forall|j: int|
                0 <= j < index ==> !device_suitable(#[trigger] devices@[j]),
            best matches Some(choice) ==> {
                &&& choice.device < index
                &&& choice.rank == best_rank
                &&& best_rank == rank_of(devices@[choice.device as int].device_type)
                &&& device_suitable(devices@[choice.device as int])
                &&& is_first_usable_family(
                    devices@[choice.device as int].queue_families@,
                    choice.queue_family as int,
                )
                &&& forall|j: int|
                    0 <= j < index && device_suitable(#[trigger] devices@[j]) ==> best_rank
                        <= rank_of(devices@[j].device_type)
                &&& forall|j: int|
                    0 <= j < choice.device && device_suitable(#[trigger] devices@[j])
                        ==> best_rank < rank_of(devices@[j].device_type)
            },
        decreases devices.len() - index,
    {
        let device = &devices[index];
        match suitable_queue_family(device) {
            Some(queue_family) => {
                let rank = device_rank(device.device_type);
                if best.is_none() || rank < best_rank {
                    best = Some(DeviceChoice { device: index, queue_family, rank });
                    best_rank = rank;
                }
            },
            None => {},
        }
        index += 1;
    }
    match best {
        Some(choice) => Ok(choice),
        None => Err(VlkFailure { kind: EVlkApi::PhysicalDevice, cause: VlkCause::NoSuitableDevice }),
    }
}

/// Picks the device to render with from what the driver enumerated. A driver that
/// could not enumerate is one failure, a host without a suitable device another.
pub fn select_physical_device(enumerated: &Result<Vec<PhysicalDeviceInfo>, String>) -> (r: Result<
    DeviceChoice,
    VlkFailure,
>)
    requires
        enumerated matches Ok(devices) ==> families_indexable(devices@),
    ensures
        match enumerated {
            Err(why) => r matches Err(f) && f.kind == EVlkApi::PhysicalDevice && f.cause
                == VlkCause::EnumerationFailed(*why),
            Ok(devices) => {
                &&& r.is_ok() <==> has_suitable_device(devices@)
                &&& r matches Ok(choice) ==> {
                    &&& is_best_device(devices@, choice.device as int)
                    &&& is_first_usable_family(
                        devices@[choice.device as int].queue_families@,
                        choice.queue_family as int,
                    )
                    &&& choice.rank == rank_of(devices@[choice.device as int].device_type)
                }
                &&& r matches Err(f) ==> f.kind == EVlkApi::PhysicalDevice && f.cause
                    == VlkCause::NoSuitableDevice
            },
        },
{
    match enumerated {
        Ok(devices) => choose_pdevice(devices),
        Err(why) => Err(
            VlkFailure {
                kind: EVlkApi::PhysicalDevice,
                cause: VlkCause::EnumerationFailed(why.clone()),
            },
        ),
    }
}

/// A device without a queue family that both draws and presents is never chosen,
/// whatever its class and whatever else the list holds.
pub proof fn lemma_device_without_usable_family_excluded(
    devices: Seq<PhysicalDeviceInfo>,
    index: int,
)
    requires
        0 <= index < devices.len(),
        !has_usable_family(devices[index].queue_families@),
    ensures
        !device_suitable(devices[index]),
        !is_best_device(devices, index),
{
}

/// Selection is a function of the list: two devices cannot both be the pick.
pub proof fn lemma_best_device_unique(devices: Seq<PhysicalDeviceInfo>, a: int, b: int)
    requires
        is_best_device(devices, a),
        is_best_device(devices, b),
    ensures
        a == b,
{
    if a < b {
        assert(device_suitable(devices[a]));
    } else if b < a {
        assert(device_suitable(devices[b]));
    }
}

} // verus!
