//! Verified core of a single-triangle Vulkan renderer: adapter selection,
//! swapchain parameters, per-image resource tables and the present loop.

pub mod device;
pub mod error;
pub mod ordering;
pub mod present;
pub mod resources;
pub mod swapchain;
pub mod triangle;
