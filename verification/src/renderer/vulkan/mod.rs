//! Decisions of the graphics-API core, from instance creation to the swapchain.

pub mod base;
pub mod debug;
pub mod failure;
pub mod instance;
pub mod logical_device;
pub mod physical_device;
pub mod pipeline;
pub mod queue_family;
pub mod surface;
pub mod swapchain;
pub mod utils;
pub mod validation_layer;
