//! The logical device and its queues.

use vstd::prelude::*;
use crate::error_handler::EVlkApi;
use super::failure::{VlkCause, VlkFailure};
use super::physical_device::{unified_api, PhysicalDeviceInfo};
use super::validation_layer::ValidationLayer;

verus! {

/// The request that creates the logical device.
#[derive(Debug)]
pub struct DeviceCreateInfo {
    /// The swapchain extension is enabled.
    pub khr_swapchain: bool,
    /// The dynamic-rendering extension is enabled.
    pub khr_dynamic_rendering: bool,
    /// The dynamic-rendering feature is enabled.
    pub dynamic_rendering: bool,
    /// The layers to enable; none where validation is switched off.
    pub enabled_layers: Vec<&'static str>,
    /// The family the queues are taken from.
    pub queue_family_index: u32,
    /// The number of queues asked for.
    pub queue_count: u32,
}

/// `request` is the request for a logical device on `device` with queues of the
/// family `qfamily_index`: the swapchain extension, the dynamic-rendering extension
/// only where the API version does not bring it, the dynamic-rendering feature,
/// one queue, and the layers only where they are usable.
pub open spec fn describes_device(
    request: DeviceCreateInfo,
    device: PhysicalDeviceInfo,
    qfamily_index: u32,
    vlayer: ValidationLayer,
) -> bool {
    &&& request.khr_swapchain
    &&& request.khr_dynamic_rendering == !unified_api(device.api_major, device.api_minor)
    &&& request.dynamic_rendering
    &&& request.enabled_layers@ == if vlayer.enabled() {
        vlayer.requested()
    } else {
        Seq::empty()
    }
    &&& request.queue_family_index == qfamily_index
    &&& request.queue_count == 1
}

/// Builds the request for the logical device. Validation layers that were found
/// unusable are left out; the request is as good without them.
pub fn create_logical_device(
    device: &PhysicalDeviceInfo,
    qfamily_index: u32,
    vlayer: &ValidationLayer,
) -> (request: DeviceCreateInfo)
    ensures
        describes_device(request, *device, qfamily_index, *vlayer),
{
    let unified = device.api_major > 1 || (device.api_major == 1 && device.api_minor >= 3);
    DeviceCreateInfo {
        khr_swapchain: true,
        khr_dynamic_rendering: !unified,
        dynamic_rendering: true,
        enabled_layers: vlayer.get_enable_layer(),
        queue_family_index: qfamily_index,
        queue_count: 1,
    }
}

/// The logical device with the queues that were created on it.
#[derive(Debug)]
pub struct LogicDevice {
    device: u64,
    queue: Vec<u64>,
}

impl LogicDevice {
    /// Every logical device owns at least one queue.
    #[verifier::type_invariant]
    pub closed spec fn wf(self) -> bool {
        self.queue@.len() > 0
    }

    /// Handle of the device.
    pub closed spec fn handle(self) -> u64 {
        self.device
    }

    /// Handles of the queues, in the order they were created.
    pub closed spec fn queues(self) -> Seq<u64> {
        self.queue@
    }

    /// Takes over the device and the queues that the driver created. Fails with the
    /// driver's refusal where it refused, and, as a fault of the engine's own,
    /// where the device came without a queue.
    pub fn new(created: Result<(u64, Vec<u64>), String>) -> (r: Result<Self, VlkFailure>)
        ensures
            match created {
                Err(why) => r matches Err(f) && f.kind == EVlkApi::Device && f.cause
                    == VlkCause::DriverRejected(why),
                Ok((device, queues)) => if queues@.len() == 0 {
                    r matches Err(f) && f.kind == EVlkApi::Queue && f.cause == VlkCause::NoQueue
                } else {
                    r matches Ok(dev) && dev.wf() && dev.handle() == device && dev.queues()
                        == queues@
                },
            },
    {
        match created {
            Err(why) => Err(
                VlkFailure { kind: EVlkApi::Device, cause: VlkCause::DriverRejected(why) },
            ),
            Ok((device, queue)) => {
                if queue.len() == 0 {
                    Err(VlkFailure { kind: EVlkApi::Queue, cause: VlkCause::NoQueue })
                } else {
                    Ok(LogicDevice { device, queue })
                }
            },
        }
    }

    pub fn get_device(&self) -> (r: u64)
        ensures
            r == self.handle(),
    {
        self.device
    }

    /// The queue that images are drawn and presented on: the first that was created.
    pub fn get_image_queue(&self) -> (r: u64)
        ensures
            self.queues().len() > 0,
            r == self.queues()[0],
    {
        proof {
            use_type_invariant(self);
        }
        self.queue[0]
    }

    pub fn get_queues(&self) -> (r: &Vec<u64>)
        ensures
            r@ == self.queues(),
            r@.len() > 0,
    {
        proof {
            use_type_invariant(self);
        }
        &self.queue
    }
}

} // verus!
