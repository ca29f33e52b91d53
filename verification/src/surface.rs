//! The surface that a swapchain presents to.

use vstd::prelude::*;
use crate::swapchain::SwapchainCreateInfo;

verus! {

/// A presentation surface, tied to one window and one instance.
#[derive(Clone, Copy, Debug, PartialEq, Eq, Structural)]
pub struct VulkanSurface {
    /// The surface's handle.
    pub surface: u64,
}

impl VulkanSurface {
    /// Records the surface that was created for a window.
    pub fn new_from_glfw_window(surface: u64) -> (created: Self)
        ensures
            created.surface == surface,
    {
        VulkanSurface { surface }
    }

    /// Names this surface as the one that the swapchain presents to, and
    /// changes nothing else.
    pub fn set_surface_in_swapchain_create_info_khr(
        &self,
        swapchain_create_info: &mut SwapchainCreateInfo,
    )
        ensures
            *final(swapchain_create_info) == (SwapchainCreateInfo {
                surface: self.surface,
                ..*old(swapchain_create_info)
            }),
    {
        swapchain_create_info.surface = self.surface;
    }
}

} // verus!
