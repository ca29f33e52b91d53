use ash::vk;
use vulkan_bootstrap::device::{GraphicsAndPresentQueueFamilyId, VulkanDevice};
use vulkan_bootstrap::surface::VulkanSurface;
use vulkan_bootstrap::swapchain::{
    choose_format, choose_image_count, choose_present_mode, Extent2D, SharingMode,
    SurfaceCapabilities, SurfaceFormat, SurfaceSupport, SwapchainCreateInfo, VulkanSwapchain,
};
use vulkan_bootstrap::vk::{
    COLOR_SPACE_SRGB_NONLINEAR, COMPOSITE_ALPHA_OPAQUE, FORMAT_B8G8R8A8_SRGB,
    IMAGE_USAGE_COLOR_ATTACHMENT, PRESENT_MODE_FIFO, PRESENT_MODE_MAILBOX,
};

fn device(graphics: u32, presents: u32) -> VulkanDevice {
    VulkanDevice {
        physical_device: 1,
        logical_device: 2,
        queue_family_ids: GraphicsAndPresentQueueFamilyId { graphics, presents },
        graphics_queue: 3,
        present_queue: 4,
    }
}

fn capabilities(min_image_count: u32, max_image_count: u32) -> SurfaceCapabilities {
    SurfaceCapabilities {
        min_image_count,
        max_image_count,
        current_extent: Extent2D { width: 700, height: 500 },
        current_transform: vk::SurfaceTransformFlagsKHR::ROTATE_90.as_raw(),
    }
}

fn format(format: vk::Format, color_space: vk::ColorSpaceKHR) -> SurfaceFormat {
    SurfaceFormat { format: format.as_raw(), color_space: color_space.as_raw() }
}

fn support(formats: Vec<SurfaceFormat>, present_modes: Vec<vk::PresentModeKHR>) -> SurfaceSupport {
    SurfaceSupport {
        capabilities: capabilities(1, 8),
        formats,
        present_modes: present_modes.iter().map(|mode| mode.as_raw()).collect(),
    }
}

#[test]
fn constants_are_those_of_the_bindings() {
    assert_eq!(PRESENT_MODE_MAILBOX, vk::PresentModeKHR::MAILBOX.as_raw());
    assert_eq!(PRESENT_MODE_FIFO, vk::PresentModeKHR::FIFO.as_raw());
    assert_eq!(FORMAT_B8G8R8A8_SRGB, vk::Format::B8G8R8A8_SRGB.as_raw());
    assert_eq!(COLOR_SPACE_SRGB_NONLINEAR, vk::ColorSpaceKHR::SRGB_NONLINEAR.as_raw());
    assert_eq!(IMAGE_USAGE_COLOR_ATTACHMENT, vk::ImageUsageFlags::COLOR_ATTACHMENT.as_raw());
    assert_eq!(COMPOSITE_ALPHA_OPAQUE, vk::CompositeAlphaFlagsKHR::OPAQUE.as_raw());
}

#[test]
fn sole_format_is_selected_when_preferred_is_absent() {
    let only = format(vk::Format::R8G8B8A8_UNORM, vk::ColorSpaceKHR::SRGB_NONLINEAR);
    let info = VulkanSwapchain::new_from_device_and_surface(
        &device(0, 0),
        &VulkanSurface::new_from_glfw_window(9),
        &support(vec![only], vec![vk::PresentModeKHR::FIFO]),
    );
    assert_eq!(info.image_format, vk::Format::R8G8B8A8_UNORM.as_raw());
    assert_eq!(info.image_format, 37);
    assert_eq!(info.image_color_space, vk::ColorSpaceKHR::SRGB_NONLINEAR.as_raw());
}

#[test]
fn preferred_format_is_selected_wherever_it_stands() {
    let formats = vec![
        format(vk::Format::R8G8B8A8_UNORM, vk::ColorSpaceKHR::SRGB_NONLINEAR),
        format(vk::Format::B8G8R8A8_SRGB, vk::ColorSpaceKHR::EXTENDED_SRGB_LINEAR_EXT),
        format(vk::Format::B8G8R8A8_SRGB, vk::ColorSpaceKHR::SRGB_NONLINEAR),
    ];
    assert_eq!(
        choose_format(&formats),
        SurfaceFormat { format: 50, color_space: 0 }
    );
}

#[test]
fn first_format_is_selected_when_only_half_of_the_preferred_pair_matches() {
    let formats = vec![
        format(vk::Format::B8G8R8A8_SRGB, vk::ColorSpaceKHR::EXTENDED_SRGB_LINEAR_EXT),
        format(vk::Format::R8G8B8A8_UNORM, vk::ColorSpaceKHR::SRGB_NONLINEAR),
    ];
    assert_eq!(choose_format(&formats), formats[0]);
}

#[test]
fn mailbox_is_selected_when_offered() {
    let modes = vec![vk::PresentModeKHR::FIFO.as_raw(), vk::PresentModeKHR::MAILBOX.as_raw()];
    assert_eq!(choose_present_mode(&modes), vk::PresentModeKHR::MAILBOX.as_raw());
    assert_eq!(choose_present_mode(&modes), 1);
}

#[test]
fn fifo_is_selected_when_mailbox_is_not_offered() {
    let modes = vec![vk::PresentModeKHR::FIFO.as_raw()];
    assert_eq!(choose_present_mode(&modes), vk::PresentModeKHR::FIFO.as_raw());
    let more = vec![
        vk::PresentModeKHR::IMMEDIATE.as_raw(),
        vk::PresentModeKHR::FIFO_RELAXED.as_raw(),
        vk::PresentModeKHR::FIFO.as_raw(),
    ];
    assert_eq!(choose_present_mode(&more), 2);
}

#[test]
fn chosen_present_mode_is_one_of_the_reported() {
    let reported = vec![vec![2], vec![0, 2], vec![2, 1], vec![1, 2, 3], vec![3, 2, 0]];
    for modes in reported {
        let mode = choose_present_mode(&modes);
        assert!(modes.contains(&mode));
        assert_eq!(mode == 1, modes.contains(&1));
    }
}

#[test]
fn image_count_is_the_minimum_raised_to_two() {
    assert_eq!(choose_image_count(&capabilities(0, 0)), 2);
    assert_eq!(choose_image_count(&capabilities(1, 0)), 2);
    assert_eq!(choose_image_count(&capabilities(2, 3)), 2);
    assert_eq!(choose_image_count(&capabilities(3, 8)), 3);
    assert_eq!(choose_image_count(&capabilities(u32::MAX, 0)), u32::MAX);
}

#[test]
fn negotiation_fills_every_parameter() {
    let formats = vec![format(vk::Format::B8G8R8A8_SRGB, vk::ColorSpaceKHR::SRGB_NONLINEAR)];
    let info = VulkanSwapchain::new_from_device_and_surface(
        &device(0, 0),
        &VulkanSurface::new_from_glfw_window(9),
        &support(formats, vec![vk::PresentModeKHR::FIFO, vk::PresentModeKHR::MAILBOX]),
    );
    assert_eq!(info.surface, 9);
    assert_eq!(info.min_image_count, 2);
    assert_eq!(info.image_format, 50);
    assert_eq!(info.image_color_space, 0);
    assert_eq!(info.image_extent, Extent2D { width: 700, height: 500 });
    assert_eq!(info.image_array_layers, 1);
    assert_eq!(info.image_usage, vk::ImageUsageFlags::COLOR_ATTACHMENT.as_raw());
    assert_eq!(info.pre_transform, vk::SurfaceTransformFlagsKHR::ROTATE_90.as_raw());
    assert_eq!(info.composite_alpha, vk::CompositeAlphaFlagsKHR::OPAQUE.as_raw());
    assert_eq!(info.present_mode, vk::PresentModeKHR::MAILBOX.as_raw());
    assert!(info.clipped);
    assert_eq!(info.image_sharing_mode, SharingMode::Exclusive);
    assert!(info.queue_family_indices.is_empty());
}

#[test]
fn sharing_is_concurrent_exactly_for_two_families() {
    let formats = vec![format(vk::Format::B8G8R8A8_SRGB, vk::ColorSpaceKHR::SRGB_NONLINEAR)];
    let surface = VulkanSurface::new_from_glfw_window(9);
    for graphics in 0..4u32 {
        for presents in 0..4u32 {
            let info = VulkanSwapchain::new_from_device_and_surface(
                &device(graphics, presents),
                &surface,
                &support(formats.clone(), vec![vk::PresentModeKHR::FIFO]),
            );
            if graphics == presents {
                assert_eq!(info.image_sharing_mode, SharingMode::Exclusive);
                assert!(info.queue_family_indices.is_empty());
            } else {
                assert_eq!(info.image_sharing_mode, SharingMode::Concurrent);
                assert_eq!(info.queue_family_indices, vec![graphics, presents]);
            }
        }
    }
}

#[test]
fn create_swapchain_changes_the_sharing_only() {
    let mut info = SwapchainCreateInfo {
        surface: 5,
        min_image_count: 3,
        image_format: 37,
        image_color_space: 0,
        image_extent: Extent2D { width: 1, height: 2 },
        image_array_layers: 1,
        image_usage: 16,
        image_sharing_mode: SharingMode::Exclusive,
        queue_family_indices: Vec::new(),
        pre_transform: 1,
        composite_alpha: 1,
        present_mode: 2,
        clipped: true,
    };
    device(2, 0).create_swapchain(&mut info);
    assert_eq!(info.image_sharing_mode, SharingMode::Concurrent);
    assert_eq!(info.queue_family_indices, vec![2, 0]);
    assert_eq!(info.surface, 5);
    assert_eq!(info.min_image_count, 3);
    assert_eq!(info.image_format, 37);
    assert_eq!(info.present_mode, 2);
    device(1, 1).create_swapchain(&mut info);
    assert_eq!(info.image_sharing_mode, SharingMode::Exclusive);
    assert!(info.queue_family_indices.is_empty());
}

#[test]
fn surface_names_itself_in_the_parameters() {
    let formats = vec![format(vk::Format::B8G8R8A8_SRGB, vk::ColorSpaceKHR::SRGB_NONLINEAR)];
    let mut info = VulkanSwapchain::new_from_device_and_surface(
        &device(0, 0),
        &VulkanSurface::new_from_glfw_window(9),
        &support(formats, vec![vk::PresentModeKHR::FIFO]),
    );
    VulkanSurface::new_from_glfw_window(77).set_surface_in_swapchain_create_info_khr(&mut info);
    assert_eq!(info.surface, 77);
    assert_eq!(info.present_mode, 2);
}

#[test]
fn swapchain_remembers_its_device() {
    let swapchain = VulkanSwapchain::new(&device(0, 1), 42);
    assert_eq!(swapchain, VulkanSwapchain { swapchain: 42, logical_device: 2 });
}

#[test]
fn platform_guarantees_are_a_format_and_fifo() {
    let some_format = vec![format(vk::Format::R8G8B8A8_UNORM, vk::ColorSpaceKHR::SRGB_NONLINEAR)];
    assert!(support(some_format.clone(), vec![vk::PresentModeKHR::FIFO]).meets_platform_guarantees());
    assert!(support(
        some_format.clone(),
        vec![vk::PresentModeKHR::MAILBOX, vk::PresentModeKHR::FIFO]
    )
    .meets_platform_guarantees());
    assert!(!support(some_format.clone(), vec![vk::PresentModeKHR::MAILBOX]).meets_platform_guarantees());
    assert!(!support(some_format, Vec::new()).meets_platform_guarantees());
    assert!(!support(Vec::new(), vec![vk::PresentModeKHR::FIFO]).meets_platform_guarantees());
}
