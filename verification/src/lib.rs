//! GPU device and presentation-surface management for a real-time rendering engine.
//!
//! The library holds every decision the engine takes while it negotiates with the
//! graphics driver: which physical device and queue family to use, how the logical
//! device and the swapchain are described, when a swapchain is recreated, and in
//! which order resources are built and released. The driver itself is never called
//! from here: callers hand in what the driver reported and carry out what the
//! library decided.

pub mod application;
pub mod define;
pub mod ecs;
pub mod error_handler;
pub mod event;
pub mod file;
pub mod io;
pub mod logs;
pub mod renderer;
pub mod text;
