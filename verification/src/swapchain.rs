//! Negotiating the parameters of a swapchain from what a device and a surface
//! report.

use vstd::prelude::*;
use crate::device::VulkanDevice;
use crate::surface::VulkanSurface;
use crate::vk::{
    color_space_srgb_nonlinear, composite_alpha_opaque, format_b8g8r8a8_srgb,
    image_usage_color_attachment, present_mode_fifo, present_mode_mailbox,
    COLOR_SPACE_SRGB_NONLINEAR, COMPOSITE_ALPHA_OPAQUE, FORMAT_B8G8R8A8_SRGB,
    IMAGE_USAGE_COLOR_ATTACHMENT, PRESENT_MODE_FIFO, PRESENT_MODE_MAILBOX,
};

verus! {

/// A size in pixels.
#[derive(Clone, Copy, Debug, PartialEq, Eq, Structural)]
pub struct Extent2D {
    pub width: u32,
    pub height: u32,
}

/// A pixel format together with the color space in which it is shown, both as
/// raw values.
#[derive(Clone, Copy, Debug, PartialEq, Eq, Structural)]
pub struct SurfaceFormat {
    pub format: i32,
    pub color_space: i32,
}

/// What a surface can do on a device.
#[derive(Clone, Copy, Debug, PartialEq, Eq, Structural)]
pub struct SurfaceCapabilities {
    /// The least number of images that a swapchain must have.
    pub min_image_count: u32,
    /// The greatest number of images that a swapchain may have; 0 where there
    /// is no limit.
    pub max_image_count: u32,
    /// The surface's current size.
    pub current_extent: Extent2D,
    /// The surface's current transform, as a raw value.
    pub current_transform: u32,
}

/// Who may use the images of a swapchain.
#[derive(Clone, Copy, Debug, PartialEq, Eq, Structural)]
pub enum SharingMode {
    /// One queue family at a time.
    Exclusive,
    /// The listed queue families, concurrently.
    Concurrent,
}

/// The parameters with which a swapchain is created.
#[derive(Debug)]
pub struct SwapchainCreateInfo {
    /// The surface that the swapchain presents to.
    pub surface: u64,
    pub min_image_count: u32,
    pub image_format: i32,
    pub image_color_space: i32,
    pub image_extent: Extent2D,
    pub image_array_layers: u32,
    /// What the images are used for, as raw flags.
    pub image_usage: u32,
    pub image_sharing_mode: SharingMode,
    /// The families that share the images; empty for exclusive use.
    pub queue_family_indices: Vec<u32>,
    /// The transform applied before presenting, as a raw value.
    pub pre_transform: u32,
    /// How the alpha channel is composited, as a raw flag.
    pub composite_alpha: u32,
    pub present_mode: i32,
    /// Whether pixels that are not visible may be left out.
    pub clipped: bool,
}

/// What a surface reports for one device.
pub struct SurfaceSupport {
    pub capabilities: SurfaceCapabilities,
    /// The supported formats, in the host's order.
    pub formats: Vec<SurfaceFormat>,
    /// The supported present modes, as raw values.
    pub present_modes: Vec<i32>,
}

impl SurfaceSupport {
    /// What every platform guarantees of a surface: it supports at least one
    /// format, and the present mode FIFO.
    pub open spec fn is_guaranteed(&self) -> bool {
        self.formats@.len() > 0 && self.present_modes@.contains(PRESENT_MODE_FIFO)
    }

    /// Tells whether the report holds what every platform guarantees.
    pub fn meets_platform_guarantees(&self) -> (guaranteed: bool)
        ensures
            guaranteed == self.is_guaranteed(),
    {
        if self.formats.len() == 0 {
            return false;
        }
        let fifo: i32 = present_mode_fifo();
        let mut i: usize = 0;
        while i < self.present_modes.len()
            invariant
                i <= self.present_modes.len(),
                self.formats@.len() > 0,
                fifo == PRESENT_MODE_FIFO,
                forall|j: int| 0 <= j < i ==> self.present_modes@[j] != PRESENT_MODE_FIFO,
            decreases self.present_modes.len() - i,
        {
            if self.present_modes[i] == fifo {
                return true;
            }
            i += 1;
        }
        false
    }
}

/// The format that is taken wherever the surface offers it.
pub open spec fn preferred_format() -> SurfaceFormat {
    SurfaceFormat { format: FORMAT_B8G8R8A8_SRGB, color_space: COLOR_SPACE_SRGB_NONLINEAR }
}

/// The present mode for a surface that supports `modes`: mailbox where it is
/// offered, else FIFO, which every surface has.
pub open spec fn chosen_present_mode(modes: Seq<i32>) -> i32 {
    if modes.contains(PRESENT_MODE_MAILBOX) {
        PRESENT_MODE_MAILBOX
    } else {
        PRESENT_MODE_FIFO
    }
}

/// The format for a surface that supports `formats`: the preferred one where
/// it is offered, else the first.
pub open spec fn chosen_format(formats: Seq<SurfaceFormat>) -> SurfaceFormat
    recommends
        formats.len() > 0,
{
    if formats.contains(preferred_format()) {
        preferred_format()
    } else {
        formats[0]
    }
}

/// The number of images to ask for: what the surface needs at least, and never
/// fewer than two, so that one image can be drawn while another is shown.
pub open spec fn chosen_image_count(capabilities: SurfaceCapabilities) -> u32 {
    if capabilities.min_image_count >= 2 {
        capabilities.min_image_count
    } else {
        2
    }
}

/// Picks the present mode: mailbox where the surface offers it, else FIFO.
pub fn choose_present_mode(present_modes: &Vec<i32>) -> (mode: i32)
    ensures
        mode == chosen_present_mode(present_modes@),
        present_modes@.contains(PRESENT_MODE_MAILBOX) || present_modes@.contains(
            PRESENT_MODE_FIFO,
        ) ==> present_modes@.contains(mode),
{
    let mailbox: i32 = present_mode_mailbox();
    let mut i: usize = 0;
    while i < present_modes.len()
        invariant
            i <= present_modes.len(),
            mailbox == PRESENT_MODE_MAILBOX,
            forall|j: int| 0 <= j < i ==> present_modes@[j] != PRESENT_MODE_MAILBOX,
        decreases present_modes.len() - i,
    {
        if present_modes[i] == mailbox {
            return mailbox;
        }
        i += 1;
    }
    present_mode_fifo()
}

/// Picks the format: the preferred one where the surface offers it, else the
/// first that it offers.
pub fn choose_format(formats: &Vec<SurfaceFormat>) -> (format: SurfaceFormat)
    requires
        formats@.len() > 0,
    ensures
        format == chosen_format(formats@),
        formats@.contains(format),
{
    let preferred = SurfaceFormat {
        format: format_b8g8r8a8_srgb(),
        color_space: color_space_srgb_nonlinear(),
    };
    let mut i: usize = 0;
    while i < formats.len()
        invariant
            i <= formats.len(),
            preferred == preferred_format(),
            forall|j: int| 0 <= j < i ==> formats@[j] != preferred_format(),
        decreases formats.len() - i,
    {
        if formats[i].format == preferred.format && formats[i].color_space
            == preferred.color_space {
            return preferred;
        }
        i += 1;
    }
    formats[0]
}

/// Picks the number of images: the surface's minimum, raised to two.
pub fn choose_image_count(capabilities: &SurfaceCapabilities) -> (count: u32)
    ensures
        count == chosen_image_count(*capabilities),
        count >= 2,
        count >= capabilities.min_image_count,
        capabilities.min_image_count <= capabilities.max_image_count
            && capabilities.max_image_count >= 2 ==> count <= capabilities.max_image_count,
{
    if capabilities.min_image_count >= 2 {
        capabilities.min_image_count
    } else {
        2
    }
}

/// Whether `info` holds the parameters that are negotiated for `device` on
/// `surface`, given what the surface supports there.
pub open spec fn negotiated(
    device: VulkanDevice,
    surface: VulkanSurface,
    support: SurfaceSupport,
    info: SwapchainCreateInfo,
) -> bool {
    &&& info.surface == surface.surface
    &&& info.min_image_count == chosen_image_count(support.capabilities)
    &&& info.image_format == chosen_format(support.formats@).format
    &&& info.image_color_space == chosen_format(support.formats@).color_space
    &&& info.image_extent == support.capabilities.current_extent
    &&& info.image_array_layers == 1
    &&& info.image_usage == IMAGE_USAGE_COLOR_ATTACHMENT
    &&& info.pre_transform == support.capabilities.current_transform
    &&& info.composite_alpha == COMPOSITE_ALPHA_OPAQUE
    &&& info.present_mode == chosen_present_mode(support.present_modes@)
    &&& info.clipped
    &&& info.image_sharing_mode == if device.shares_images() {
        SharingMode::Concurrent
    } else {
        SharingMode::Exclusive
    }
    &&& info.queue_family_indices@ == if device.shares_images() {
        seq![device.queue_family_ids.graphics, device.queue_family_ids.presents]
    } else {
        Seq::<u32>::empty()
    }
}

/// A swapchain that was created on a device.
#[derive(Clone, Copy, Debug, PartialEq, Eq, Structural)]
pub struct VulkanSwapchain {
    /// The swapchain's handle.
    pub swapchain: u64,
    /// The device that created it, and that destroys it.
    pub logical_device: u64,
}

impl VulkanSwapchain {
    /// Negotiates the parameters of a swapchain for `vulkan_device` on
    /// `vulkan_surface`: the policy's choice among what the surface supports,
    /// the surface's current size and transform, and the sharing mode that the
    /// device's queues call for.
    pub fn new_from_device_and_surface(
        vulkan_device: &VulkanDevice,
        vulkan_surface: &VulkanSurface,
        support: &SurfaceSupport,
    ) -> (info: SwapchainCreateInfo)
        requires
            support.formats@.len() > 0,
        ensures
            negotiated(*vulkan_device, *vulkan_surface, *support, info),
            info.min_image_count >= 2,
            info.min_image_count >= support.capabilities.min_image_count,
            support.capabilities.min_image_count <= support.capabilities.max_image_count
                && support.capabilities.max_image_count >= 2 ==> info.min_image_count
                <= support.capabilities.max_image_count,
            support.present_modes@.contains(PRESENT_MODE_MAILBOX) ==> info.present_mode
                == PRESENT_MODE_MAILBOX,
            !support.present_modes@.contains(PRESENT_MODE_MAILBOX) ==> info.present_mode
                == PRESENT_MODE_FIFO,
            support.present_modes@.contains(PRESENT_MODE_MAILBOX)
                || support.present_modes@.contains(PRESENT_MODE_FIFO)
                ==> support.present_modes@.contains(info.present_mode),
            support.formats@.contains(
                SurfaceFormat { format: info.image_format, color_space: info.image_color_space },
            ),
            info.image_sharing_mode == SharingMode::Concurrent
                <==> vulkan_device.queue_family_ids.graphics
                != vulkan_device.queue_family_ids.presents,
    {
        let selected_format: SurfaceFormat = choose_format(&support.formats);
        let mut swapchain_create_info = SwapchainCreateInfo {
            surface: 0,
            min_image_count: choose_image_count(&support.capabilities),
            image_format: selected_format.format,
            image_color_space: selected_format.color_space,
            image_extent: support.capabilities.current_extent,
            image_array_layers: 1,
            image_usage: image_usage_color_attachment(),
            image_sharing_mode: SharingMode::Exclusive,
            queue_family_indices: Vec::new(),
            pre_transform: support.capabilities.current_transform,
            composite_alpha: composite_alpha_opaque(),
            present_mode: choose_present_mode(&support.present_modes),
            clipped: true,
        };
        vulkan_surface.set_surface_in_swapchain_create_info_khr(&mut swapchain_create_info);
        vulkan_device.create_swapchain(&mut swapchain_create_info);
        swapchain_create_info
    }

    /// Records the swapchain that `vulkan_device` created.
    pub fn new(vulkan_device: &VulkanDevice, swapchain: u64) -> (created: Self)
        ensures
            created.swapchain == swapchain,
            created.logical_device == vulkan_device.logical_device,
    {
        VulkanSwapchain { swapchain, logical_device: vulkan_device.logical_device }
    }
}

} // verus!
