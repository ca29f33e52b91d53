//! Startup negotiation for a Vulkan application: which physical device and
//! queue families serve a surface, which parameters its swapchain gets, what a
//! minimal graphics pipeline is made of, and in which order the objects that
//! were created are destroyed again.
//!
//! The library decides and keeps the books; it never talks to a driver. Its
//! caller enumerates what the host offers, hands that over as plain values,
//! performs the creation that the library describes and reports the handles
//! that came back.

pub mod vk;
pub mod entry;
pub mod device;
pub mod surface;
pub mod swapchain;
pub mod instance;
pub mod shaders;
pub mod graphics_pipeline;
pub mod app;
