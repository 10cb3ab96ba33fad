//! The boundary to the Vulkan binding.
//!
//! What the library takes from `ash` and from the standard library on trust
//! stands in this file and nowhere else: the handle types that are carried
//! without a look inside, and small functions that fetch an enumerant, a
//! name or a helper. Each function states the value that the binding
//! defines, as a named constant or a definition of this file; the rest of
//! the library is proved against these statements.

use ash::vk::Device as DeviceHandle;
use ash::vk::Instance as InstanceHandle;
use ash::vk::PhysicalDevice as PhysicalDeviceHandle;
use vstd::prelude::*;
use vstd::utf8::{decode_utf8, valid_utf8};

verus! {

// ---------------------------------------------------------------------------
// Handles and codes that are carried through unchanged.
// ---------------------------------------------------------------------------

/// `ash::vk::Instance`, the handle of an instance.
#[verifier::external_type_specification]
#[verifier::external_body]
pub struct ExInstanceHandle(InstanceHandle);

/// `ash::vk::PhysicalDevice`, the handle of an adapter.
#[verifier::external_type_specification]
#[verifier::external_body]
pub struct ExPhysicalDeviceHandle(PhysicalDeviceHandle);

/// `Clone` of `ash::vk::PhysicalDevice`, which the binding derives for a
/// handle that is `Copy`: the clone is the handle itself.
pub assume_specification[ <PhysicalDeviceHandle as Clone>::clone ](
    handle: &PhysicalDeviceHandle,
) -> (copy: PhysicalDeviceHandle)
    ensures
        copy == *handle,
;

/// `ash::vk::Device`, the handle of a device.
#[verifier::external_type_specification]
#[verifier::external_body]
pub struct ExDeviceHandle(DeviceHandle);

/// `ash::vk::Queue`, the handle of a queue.
#[verifier::external_type_specification]
#[verifier::external_body]
pub struct ExQueueHandle(ash::vk::Queue);

/// `ash::vk::SurfaceKHR`, the handle of a surface.
#[verifier::external_type_specification]
#[verifier::external_body]
pub struct ExSurfaceHandle(ash::vk::SurfaceKHR);

/// `ash::vk::SwapchainKHR`, the handle of a chain of images.
#[verifier::external_type_specification]
#[verifier::external_body]
pub struct ExSwapchainHandle(ash::vk::SwapchainKHR);

/// `ash::vk::Image`, the handle of an image.
#[verifier::external_type_specification]
#[verifier::external_body]
pub struct ExImageHandle(ash::vk::Image);

/// `ash::vk::ImageView`, the handle of an image view.
#[verifier::external_type_specification]
#[verifier::external_body]
pub struct ExImageViewHandle(ash::vk::ImageView);

/// `ash::vk::Result`, the code with which the driver answers a call.
#[verifier::external_type_specification]
#[verifier::external_body]
pub struct ExDriverCode(ash::vk::Result);

// ---------------------------------------------------------------------------
// Versions.
// ---------------------------------------------------------------------------

/// The packed form of an API version: three bits of variant, seven of major,
/// ten of minor and twelve of patch, from the top down.
pub open spec fn packed_version(variant: u32, major: u32, minor: u32, patch: u32) -> u32 {
    (variant << 29) | (major << 22) | (minor << 12) | patch
}

/// `ash::vk::make_api_version`: shifts the four parts into place and ors them
/// together, without masking any of them.
#[verifier::external_body]
pub(crate) fn make_api_version(variant: u32, major: u32, minor: u32, patch: u32) -> (version: u32)
    ensures
        version == packed_version(variant, major, minor, patch),
{
    ash::vk::make_api_version(variant, major, minor, patch)
}

/// `ash::vk::API_VERSION_1_2`: version 1.2.0 of variant 0, packed.
#[verifier::external_body]
pub(crate) fn api_version_1_2() -> (version: u32)
    ensures
        version == packed_version(0, 1, 2, 0),
{
    ash::vk::API_VERSION_1_2
}

// ---------------------------------------------------------------------------
// Extension names.
// ---------------------------------------------------------------------------

/// `ash::extensions::khr::Surface::name`: the name of the surface extension.
#[verifier::external_body]
pub(crate) fn surface_extension_name() -> (name: &'static str)
    ensures
        name@ == "VK_KHR_surface"@,
{
    ash::extensions::khr::Surface::name().to_str().unwrap_or_default()
}

/// `ash::extensions::khr::Win32Surface::name`: the name of the Win32 surface
/// extension.
#[verifier::external_body]
pub(crate) fn win32_surface_extension_name() -> (name: &'static str)
    ensures
        name@ == "VK_KHR_win32_surface"@,
{
    ash::extensions::khr::Win32Surface::name().to_str().unwrap_or_default()
}

/// `ash::extensions::khr::Swapchain::name`: the name of the swapchain
/// extension.
#[verifier::external_body]
pub(crate) fn swapchain_extension_name() -> (name: &'static str)
    ensures
        name@ == "VK_KHR_swapchain"@,
{
    ash::extensions::khr::Swapchain::name().to_str().unwrap_or_default()
}

/// `ash::extensions::khr::DynamicRendering::name`: the name of the dynamic
/// rendering extension.
#[verifier::external_body]
pub(crate) fn dynamic_rendering_extension_name() -> (name: &'static str)
    ensures
        name@ == "VK_KHR_dynamic_rendering"@,
{
    ash::extensions::khr::DynamicRendering::name().to_str().unwrap_or_default()
}

// ---------------------------------------------------------------------------
// Flags.
// ---------------------------------------------------------------------------

/// Whether every bit of `other` is set in `flags`.
pub open spec fn flags_contain(flags: u32, other: u32) -> bool {
    flags & other == other
}

/// `ash::vk::QueueFlags::contains`: whether `other` is a subset of `flags`.
#[verifier::external_body]
pub(crate) fn queue_flags_contains(flags: u32, other: u32) -> (contained: bool)
    ensures
        contained == flags_contain(flags, other),
{
    ash::vk::QueueFlags::from_raw(flags).contains(ash::vk::QueueFlags::from_raw(other))
}

/// The bit by which a queue family reports graphics support.
pub const QUEUE_GRAPHICS_BIT: u32 = 0x1;

/// `ash::vk::QueueFlags::GRAPHICS`
#[verifier::external_body]
pub(crate) fn queue_flags_graphics() -> (bit: u32)
    ensures
        bit == QUEUE_GRAPHICS_BIT,
{
    ash::vk::QueueFlags::GRAPHICS.as_raw()
}

/// The usage bit of an image that serves as a color attachment.
pub const IMAGE_USAGE_COLOR_ATTACHMENT_BIT: u32 = 0x10;

/// `ash::vk::ImageUsageFlags::COLOR_ATTACHMENT`
#[verifier::external_body]
pub(crate) fn image_usage_flags_color_attachment() -> (bit: u32)
    ensures
        bit == IMAGE_USAGE_COLOR_ATTACHMENT_BIT,
{
    ash::vk::ImageUsageFlags::COLOR_ATTACHMENT.as_raw()
}

/// The composite-alpha bit that ignores the alpha channel.
pub const COMPOSITE_ALPHA_OPAQUE_BIT: u32 = 0x1;

/// `ash::vk::CompositeAlphaFlagsKHR::OPAQUE`
#[verifier::external_body]
pub(crate) fn composite_alpha_flags_opaque() -> (bit: u32)
    ensures
        bit == COMPOSITE_ALPHA_OPAQUE_BIT,
{
    ash::vk::CompositeAlphaFlagsKHR::OPAQUE.as_raw()
}

/// The aspect bit of the color planes of an image.
pub const IMAGE_ASPECT_COLOR_BIT: u32 = 0x1;

/// `ash::vk::ImageAspectFlags::COLOR`
#[verifier::external_body]
pub(crate) fn image_aspect_flags_color() -> (bit: u32)
    ensures
        bit == IMAGE_ASPECT_COLOR_BIT,
{
    ash::vk::ImageAspectFlags::COLOR.as_raw()
}

// ---------------------------------------------------------------------------
// Enumerants.
// ---------------------------------------------------------------------------

/// The device type of a discrete GPU.
pub const PHYSICAL_DEVICE_TYPE_DISCRETE_GPU: i32 = 2;

/// `ash::vk::PhysicalDeviceType::DISCRETE_GPU`
#[verifier::external_body]
pub(crate) fn physical_device_type_discrete_gpu() -> (raw: i32)
    ensures
        raw == PHYSICAL_DEVICE_TYPE_DISCRETE_GPU,
{
    ash::vk::PhysicalDeviceType::DISCRETE_GPU.as_raw()
}

/// The present mode that replaces a waiting image by a newer one.
pub const PRESENT_MODE_MAILBOX: i32 = 1;

/// `ash::vk::PresentModeKHR::MAILBOX`
#[verifier::external_body]
pub(crate) fn present_mode_mailbox() -> (raw: i32)
    ensures
        raw == PRESENT_MODE_MAILBOX,
{
    ash::vk::PresentModeKHR::MAILBOX.as_raw()
}

/// The present mode that queues images and shows one per vertical blank.
pub const PRESENT_MODE_FIFO: i32 = 2;

/// `ash::vk::PresentModeKHR::FIFO`
#[verifier::external_body]
pub(crate) fn present_mode_fifo() -> (raw: i32)
    ensures
        raw == PRESENT_MODE_FIFO,
{
    ash::vk::PresentModeKHR::FIFO.as_raw()
}

/// The format of four 8-bit channels in the order blue, green, red, alpha,
/// with sRGB encoding.
pub const FORMAT_B8G8R8A8_SRGB: i32 = 50;

/// `ash::vk::Format::B8G8R8A8_SRGB`
#[verifier::external_body]
pub(crate) fn format_b8g8r8a8_srgb() -> (raw: i32)
    ensures
        raw == FORMAT_B8G8R8A8_SRGB,
{
    ash::vk::Format::B8G8R8A8_SRGB.as_raw()
}

/// The non-linear sRGB color space.
pub const COLOR_SPACE_SRGB_NONLINEAR: i32 = 0;

/// `ash::vk::ColorSpaceKHR::SRGB_NONLINEAR`
#[verifier::external_body]
pub(crate) fn color_space_srgb_nonlinear() -> (raw: i32)
    ensures
        raw == COLOR_SPACE_SRGB_NONLINEAR,
{
    ash::vk::ColorSpaceKHR::SRGB_NONLINEAR.as_raw()
}

/// The sharing mode under which one queue family at a time owns an image.
pub const SHARING_MODE_EXCLUSIVE: i32 = 0;

/// `ash::vk::SharingMode::EXCLUSIVE`
#[verifier::external_body]
pub(crate) fn sharing_mode_exclusive() -> (raw: i32)
    ensures
        raw == SHARING_MODE_EXCLUSIVE,
{
    ash::vk::SharingMode::EXCLUSIVE.as_raw()
}

/// The view type of a plain two-dimensional image.
pub const IMAGE_VIEW_TYPE_2D: i32 = 1;

/// `ash::vk::ImageViewType::TYPE_2D`
#[verifier::external_body]
pub(crate) fn image_view_type_2d() -> (raw: i32)
    ensures
        raw == IMAGE_VIEW_TYPE_2D,
{
    ash::vk::ImageViewType::TYPE_2D.as_raw()
}

/// The swizzle that reads the red channel.
pub const COMPONENT_SWIZZLE_R: i32 = 3;

/// `ash::vk::ComponentSwizzle::R`
#[verifier::external_body]
pub(crate) fn component_swizzle_r() -> (raw: i32)
    ensures
        raw == COMPONENT_SWIZZLE_R,
{
    ash::vk::ComponentSwizzle::R.as_raw()
}

/// The swizzle that reads the green channel.
pub const COMPONENT_SWIZZLE_G: i32 = 4;

/// `ash::vk::ComponentSwizzle::G`
#[verifier::external_body]
pub(crate) fn component_swizzle_g() -> (raw: i32)
    ensures
        raw == COMPONENT_SWIZZLE_G,
{
    ash::vk::ComponentSwizzle::G.as_raw()
}

/// The swizzle that reads the blue channel.
pub const COMPONENT_SWIZZLE_B: i32 = 5;

/// `ash::vk::ComponentSwizzle::B`
#[verifier::external_body]
pub(crate) fn component_swizzle_b() -> (raw: i32)
    ensures
        raw == COMPONENT_SWIZZLE_B,
{
    ash::vk::ComponentSwizzle::B.as_raw()
}

/// The swizzle that reads the alpha channel.
pub const COMPONENT_SWIZZLE_A: i32 = 6;

/// `ash::vk::ComponentSwizzle::A`
#[verifier::external_body]
pub(crate) fn component_swizzle_a() -> (raw: i32)
    ensures
        raw == COMPONENT_SWIZZLE_A,
{
    ash::vk::ComponentSwizzle::A.as_raw()
}

// ---------------------------------------------------------------------------
// Text.
// ---------------------------------------------------------------------------

/// The text that lossy UTF-8 decoding makes of a byte string.
pub uninterp spec fn utf8_lossy(bytes: Seq<u8>) -> Seq<char>;

/// `String::from_utf8_lossy`: decodes valid UTF-8 as it stands and puts
/// U+FFFD in place of each malformed sequence. The result is a function of
/// the bytes alone, and for bytes that are valid UTF-8 it is the text that
/// they encode. Two consequences are stated for all bytes: input that is
/// not empty gives text that is not empty, and text holds U+0000 only where
/// the input holds a zero byte, since no other sequence decodes to it.
#[verifier::external_body]
pub(crate) fn from_utf8_lossy(bytes: &[u8]) -> (text: String)
    ensures
        text@ == utf8_lossy(bytes@),
        valid_utf8(bytes@) ==> text@ == decode_utf8(bytes@),
        bytes@.len() > 0 ==> text@.len() > 0,
        !bytes@.contains(0u8) ==> !text@.contains('\0'),
{
    String::from_utf8_lossy(bytes).into_owned()
}

} // verus!
