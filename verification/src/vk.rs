//! The values and helpers that the library takes from the `ash` bindings and
//! from `bytemuck`. Everything here is believed, not proved: each contract
//! restates what the named outside item is defined to be.

use vstd::prelude::*;

verus! {

/// Raw value of the queue capability flag "graphics".
pub const QUEUE_GRAPHICS: u32 = 1;

/// Raw value of the present mode "mailbox".
pub const PRESENT_MODE_MAILBOX: i32 = 1;

/// Raw value of the present mode "FIFO".
pub const PRESENT_MODE_FIFO: i32 = 2;

/// Raw value of the format B8G8R8A8_SRGB.
pub const FORMAT_B8G8R8A8_SRGB: i32 = 50;

/// Raw value of the color space SRGB_NONLINEAR.
pub const COLOR_SPACE_SRGB_NONLINEAR: i32 = 0;

/// Raw value of the image usage flag "color attachment".
pub const IMAGE_USAGE_COLOR_ATTACHMENT: u32 = 16;

/// Raw value of the composite alpha flag "opaque".
pub const COMPOSITE_ALPHA_OPAQUE: u32 = 1;

/// Whether the capability flags `flags` hold every bit of `wanted`.
pub open spec fn flags_contain(flags: u32, wanted: u32) -> bool {
    flags & wanted == wanted
}

/// The 32-bit word whose bytes are `b0 .. b3`, least significant first.
pub open spec fn le_word(b0: u8, b1: u8, b2: u8, b3: u8) -> u32 {
    (b0 as u32) | ((b1 as u32) << 8) | ((b2 as u32) << 16) | ((b3 as u32) << 24)
}

/// The words of a byte stream on a little-endian host: each group of four
/// bytes is one word, least significant byte first.
pub open spec fn le_words(bytes: Seq<u8>) -> Seq<u32> {
    Seq::new(
        (bytes.len() / 4) as nat,
        |i: int| le_word(bytes[4 * i], bytes[4 * i + 1], bytes[4 * i + 2], bytes[4 * i + 3]),
    )
}

/// The words of a byte stream on a big-endian host: each group of four bytes
/// is one word, most significant byte first.
pub open spec fn be_words(bytes: Seq<u8>) -> Seq<u32> {
    Seq::new(
        (bytes.len() / 4) as nat,
        |i: int| le_word(bytes[4 * i + 3], bytes[4 * i + 2], bytes[4 * i + 1], bytes[4 * i]),
    )
}

/// The words that a host may read out of a byte stream: in its own byte order,
/// which is the same for the whole stream.
pub open spec fn host_words(bytes: Seq<u8>, words: Seq<u32>) -> bool {
    words == le_words(bytes) || words == be_words(bytes)
}

/// `ash::vk::QueueFlags::contains` on the flags with the raw values `flags` and
/// `wanted`: ash defines it as `flags & wanted == wanted`.
#[verifier::external_body]
pub(crate) fn queue_flags_contain(flags: u32, wanted: u32) -> (r: bool)
    ensures
        r == flags_contain(flags, wanted),
{
    ash::vk::QueueFlags::from_raw(flags).contains(ash::vk::QueueFlags::from_raw(wanted))
}

/// The raw value of `ash::vk::QueueFlags::GRAPHICS`, which ash defines as bit 0.
#[verifier::external_body]
pub(crate) fn queue_graphics() -> (r: u32)
    ensures
        r == QUEUE_GRAPHICS,
{
    ash::vk::QueueFlags::GRAPHICS.as_raw()
}

/// The raw value of `ash::vk::PresentModeKHR::MAILBOX`, which ash defines as 1.
#[verifier::external_body]
pub(crate) fn present_mode_mailbox() -> (r: i32)
    ensures
        r == PRESENT_MODE_MAILBOX,
{
    ash::vk::PresentModeKHR::MAILBOX.as_raw()
}

/// The raw value of `ash::vk::PresentModeKHR::FIFO`, which ash defines as 2.
#[verifier::external_body]
pub(crate) fn present_mode_fifo() -> (r: i32)
    ensures
        r == PRESENT_MODE_FIFO,
{
    ash::vk::PresentModeKHR::FIFO.as_raw()
}

/// The raw value of `ash::vk::Format::B8G8R8A8_SRGB`, which ash defines as 50.
#[verifier::external_body]
pub(crate) fn format_b8g8r8a8_srgb() -> (r: i32)
    ensures
        r == FORMAT_B8G8R8A8_SRGB,
{
    ash::vk::Format::B8G8R8A8_SRGB.as_raw()
}

/// The raw value of `ash::vk::ColorSpaceKHR::SRGB_NONLINEAR`, which ash defines
/// as 0.
#[verifier::external_body]
pub(crate) fn color_space_srgb_nonlinear() -> (r: i32)
    ensures
        r == COLOR_SPACE_SRGB_NONLINEAR,
{
    ash::vk::ColorSpaceKHR::SRGB_NONLINEAR.as_raw()
}

/// The raw value of `ash::vk::ImageUsageFlags::COLOR_ATTACHMENT`, which ash
/// defines as bit 4.
#[verifier::external_body]
pub(crate) fn image_usage_color_attachment() -> (r: u32)
    ensures
        r == IMAGE_USAGE_COLOR_ATTACHMENT,
{
    ash::vk::ImageUsageFlags::COLOR_ATTACHMENT.as_raw()
}

/// The raw value of `ash::vk::CompositeAlphaFlagsKHR::OPAQUE`, which ash
/// defines as bit 0.
#[verifier::external_body]
pub(crate) fn composite_alpha_opaque() -> (r: u32)
    ensures
        r == COMPOSITE_ALPHA_OPAQUE,
{
    ash::vk::CompositeAlphaFlagsKHR::OPAQUE.as_raw()
}

/// The text of `ash::vk::KHR_SWAPCHAIN_NAME`, the name of the device extension
/// for swapchains: ash defines it as the C string `VK_KHR_swapchain`.
#[verifier::external_body]
pub(crate) fn swapchain_extension_name() -> (r: String)
    ensures
        r@ == "VK_KHR_swapchain"@,
{
    ash::vk::KHR_SWAPCHAIN_NAME.to_string_lossy().into_owned()
}

/// `bytemuck::pod_collect_to_vec` from bytes to 32-bit words: it copies the
/// bytes into a fresh vector of words, so each word holds four consecutive
/// bytes in the byte order of the host. A stream whose length is not a
/// multiple of four would be padded with zero bytes; such a stream is not
/// handed over.
#[verifier::external_body]
pub(crate) fn collect_words(bytes: &[u8]) -> (words: Vec<u32>)
    requires
        bytes@.len() % 4 == 0,
    ensures
        words@.len() * 4 == bytes@.len(),
        host_words(bytes@, words@),
{
    bytemuck::pod_collect_to_vec(bytes)
}

} // verus!
