//! The swapchain: what is negotiated with the surface, the parameters of the
//! chain and of its image views, and the steps by which they come to be.
//!
//! The driver is not called from here. `SwapchainSetup` is the state of a
//! construction under way: it is started with `begin`, which says what to
//! ask of the driver first, and each answer is handed to `advance`, which
//! says what to do next, until the swapchain is handed out or an error ends
//! the construction.

use crate::binding::{
    color_space_srgb_nonlinear, component_swizzle_a, component_swizzle_b, component_swizzle_g,
    component_swizzle_r, composite_alpha_flags_opaque, format_b8g8r8a8_srgb,
    image_aspect_flags_color, image_usage_flags_color_attachment, image_view_type_2d,
    present_mode_fifo, present_mode_mailbox, sharing_mode_exclusive, COLOR_SPACE_SRGB_NONLINEAR,
    COMPONENT_SWIZZLE_A, COMPONENT_SWIZZLE_B, COMPONENT_SWIZZLE_G, COMPONENT_SWIZZLE_R,
    COMPOSITE_ALPHA_OPAQUE_BIT, FORMAT_B8G8R8A8_SRGB, IMAGE_ASPECT_COLOR_BIT,
    IMAGE_USAGE_COLOR_ATTACHMENT_BIT, IMAGE_VIEW_TYPE_2D, PRESENT_MODE_FIFO, PRESENT_MODE_MAILBOX,
    SHARING_MODE_EXCLUSIVE,
};
use crate::device::Device;
use crate::error::Error;
use crate::physical_device::PhysicalDevice;
use crate::surface::Surface;
use vstd::prelude::*;

verus! {

#[derive(Debug, Clone, Copy, PartialEq, Eq)]
pub struct Extent2D {
    pub width: u32,
    pub height: u32,
}

/// What a surface can do on an adapter, as the driver reports it.
#[derive(Debug, Clone, Copy, PartialEq, Eq)]
pub struct SurfaceCapabilities {
    pub min_image_count: u32,
    pub max_image_count: u32,
    pub current_extent: Extent2D,
    pub min_image_extent: Extent2D,
    pub max_image_extent: Extent2D,
    pub max_image_array_layers: u32,
    pub supported_transforms: u32,
    pub current_transform: u32,
    pub supported_composite_alpha: u32,
    pub supported_usage_flags: u32,
}

/// A pixel format together with the color space in which it is shown.
#[derive(Debug, Clone, Copy, PartialEq, Eq)]
pub struct SurfaceFormat {
    pub format: i32,
    pub color_space: i32,
}

impl SurfaceFormat {
    /// The one format that the swapchain is built on: BGRA with 8 bits per
    /// channel, sRGB encoded, in the non-linear sRGB color space.
    pub open spec fn required() -> SurfaceFormat {
        SurfaceFormat { format: FORMAT_B8G8R8A8_SRGB, color_space: COLOR_SPACE_SRGB_NONLINEAR }
    }
}

/// The present mode to use on a surface that offers `modes`: mailbox where
/// it is offered, else FIFO, which every surface has.
pub open spec fn preferred_present_mode(modes: Seq<i32>) -> i32 {
    if modes.contains(PRESENT_MODE_MAILBOX) {
        PRESENT_MODE_MAILBOX
    } else {
        PRESENT_MODE_FIFO
    }
}

/// Chooses the present mode for a surface that offers `modes`.
pub fn select_present_mode(modes: &[i32]) -> (mode: i32)
    ensures
        mode == preferred_present_mode(modes@),
{
    let mailbox = present_mode_mailbox();
    let mut i: usize = 0;
    while i < modes.len()
        invariant
            i <= modes@.len(),
            mailbox == PRESENT_MODE_MAILBOX,
            forall|j: int| 0 <= j < i ==> modes@[j] != mailbox,
        decreases modes@.len() - i,
    {
        if modes[i] == mailbox {
            return mailbox;
        }
        i += 1;
    }
    present_mode_fifo()
}

/// Whether the surface offers the required format.
pub open spec fn offers_required_format(formats: Seq<SurfaceFormat>) -> bool {
    formats.contains(SurfaceFormat::required())
}

/// Chooses the surface format: the required one, exactly. A surface that
/// does not offer it is refused; no other format stands in.
pub fn select_surface_format(formats: &[SurfaceFormat]) -> (selected: Result<SurfaceFormat, Error>)
    ensures
        selected == if offers_required_format(formats@) {
            Ok(SurfaceFormat::required())
        } else {
            Err::<SurfaceFormat, Error>(Error::NoMatchingSurfaceFormat)
        },
{
    let format = format_b8g8r8a8_srgb();
    let color_space = color_space_srgb_nonlinear();
    let mut i: usize = 0;
    while i < formats.len()
        invariant
            i <= formats@.len(),
            format == FORMAT_B8G8R8A8_SRGB,
            color_space == COLOR_SPACE_SRGB_NONLINEAR,
            forall|j: int| 0 <= j < i ==> formats@[j] != SurfaceFormat::required(),
        decreases formats@.len() - i,
    {
        if formats[i].format == format && formats[i].color_space == color_space {
            return Ok(formats[i]);
        }
        i += 1;
    }
    Err(Error::NoMatchingSurfaceFormat)
}

/// The parameters from which the driver makes the chain.
#[derive(Debug, Clone, Copy, PartialEq, Eq)]
pub struct SwapchainCreateInfo {
    pub surface: ash::vk::SurfaceKHR,
    pub min_image_count: u32,
    pub image_format: i32,
    pub image_color_space: i32,
    pub image_extent: Extent2D,
    pub image_array_layers: u32,
    pub image_usage: u32,
    pub image_sharing_mode: i32,
    /// The one queue family that is named as the owner of the images.
    pub queue_family_index: u32,
    pub pre_transform: u32,
    pub composite_alpha: u32,
    pub present_mode: i32,
    pub clipped: bool,
}

impl SwapchainCreateInfo {
    /// The parameters of a chain on `surface`: as many images as the surface
    /// needs at least, in its current extent and transform and with all the
    /// layers it allows; images that are color attachments, owned by queue
    /// family 0 alone; opaque, and not clipped.
    pub open spec fn spec_new(
        surface: ash::vk::SurfaceKHR,
        capabilities: SurfaceCapabilities,
        format: SurfaceFormat,
        present_mode: i32,
    ) -> SwapchainCreateInfo {
        SwapchainCreateInfo {
            surface,
            min_image_count: capabilities.min_image_count,
            image_format: format.format,
            image_color_space: format.color_space,
            image_extent: capabilities.current_extent,
            image_array_layers: capabilities.max_image_array_layers,
            image_usage: IMAGE_USAGE_COLOR_ATTACHMENT_BIT,
            image_sharing_mode: SHARING_MODE_EXCLUSIVE,
            queue_family_index: 0,
            pre_transform: capabilities.current_transform,
            composite_alpha: COMPOSITE_ALPHA_OPAQUE_BIT,
            present_mode,
            clipped: false,
        }
    }

    /// The parameters of a chain on `surface` with the negotiated format and
    /// present mode.
    pub fn new(
        surface: ash::vk::SurfaceKHR,
        capabilities: &SurfaceCapabilities,
        format: SurfaceFormat,
        present_mode: i32,
    ) -> (create_info: SwapchainCreateInfo)
        ensures
            create_info == SwapchainCreateInfo::spec_new(
                surface,
                *capabilities,
                format,
                present_mode,
            ),
    {
        SwapchainCreateInfo {
            surface,
            min_image_count: capabilities.min_image_count,
            image_format: format.format,
            image_color_space: format.color_space,
            image_extent: capabilities.current_extent,
            image_array_layers: capabilities.max_image_array_layers,
            image_usage: image_usage_flags_color_attachment(),
            image_sharing_mode: sharing_mode_exclusive(),
            queue_family_index: 0,
            pre_transform: capabilities.current_transform,
            composite_alpha: composite_alpha_flags_opaque(),
            present_mode,
            clipped: false,
        }
    }
}

/// From which channel of the image each channel of the view is read.
#[derive(Debug, Clone, Copy, PartialEq, Eq)]
pub struct ComponentMapping {
    pub r: i32,
    pub g: i32,
    pub b: i32,
    pub a: i32,
}

/// The part of an image that a view shows.
#[derive(Debug, Clone, Copy, PartialEq, Eq)]
pub struct ImageSubresourceRange {
    pub aspect_mask: u32,
    pub base_mip_level: u32,
    pub level_count: u32,
    pub base_array_layer: u32,
    pub layer_count: u32,
}

/// The parameters from which the driver makes the view of one image.
#[derive(Debug, Clone, Copy, PartialEq, Eq)]
pub struct ImageViewCreateInfo {
    pub image: ash::vk::Image,
    pub view_type: i32,
    pub format: i32,
    pub components: ComponentMapping,
    pub subresource_range: ImageSubresourceRange,
}

impl ImageViewCreateInfo {
    /// The view of a presentable image: two-dimensional, each channel read
    /// from itself, the color aspect of the first mip level and the first
    /// layer.
    pub open spec fn spec_new(image: ash::vk::Image, format: i32) -> ImageViewCreateInfo {
        ImageViewCreateInfo {
            image,
            view_type: IMAGE_VIEW_TYPE_2D,
            format,
            components: ComponentMapping {
                r: COMPONENT_SWIZZLE_R,
                g: COMPONENT_SWIZZLE_G,
                b: COMPONENT_SWIZZLE_B,
                a: COMPONENT_SWIZZLE_A,
            },
            subresource_range: ImageSubresourceRange {
                aspect_mask: IMAGE_ASPECT_COLOR_BIT,
                base_mip_level: 0,
                level_count: 1,
                base_array_layer: 0,
                layer_count: 1,
            },
        }
    }

    /// The parameters of the view of `image`.
    pub fn new(image: ash::vk::Image, format: i32) -> (create_info: ImageViewCreateInfo)
        ensures
            create_info == ImageViewCreateInfo::spec_new(image, format),
    {
        ImageViewCreateInfo {
            image,
            view_type: image_view_type_2d(),
            format,
            components: ComponentMapping {
                r: component_swizzle_r(),
                g: component_swizzle_g(),
                b: component_swizzle_b(),
                a: component_swizzle_a(),
            },
            subresource_range: ImageSubresourceRange {
                aspect_mask: image_aspect_flags_color(),
                base_mip_level: 0,
                level_count: 1,
                base_array_layer: 0,
                layer_count: 1,
            },
        }
    }
}

/// A live swapchain: the chain and one view for each of its images. The
/// images themselves stay with the chain.
#[derive(Debug, PartialEq, Eq)]
pub struct Swapchain {
    pub handle: ash::vk::SwapchainKHR,
    pub image_views: Vec<ash::vk::ImageView>,
}

impl Swapchain {
    /// The swapchain of the chain `handle` with the views `image_views`.
    pub fn new(
        handle: ash::vk::SwapchainKHR,
        image_views: Vec<ash::vk::ImageView>,
    ) -> (swapchain: Swapchain)
        ensures
            swapchain.handle == handle,
            swapchain.image_views == image_views,
    {
        Swapchain { handle, image_views }
    }
}

/// What a swapchain is made on: the adapter and the surface that are
/// negotiated with, and the device that makes the chain and the views.
#[derive(Debug, Clone, Copy, PartialEq, Eq)]
pub struct SwapchainTarget {
    pub physical_device: ash::vk::PhysicalDevice,
    pub surface: ash::vk::SurfaceKHR,
    pub device: ash::vk::Device,
}

/// What the host is to do next.
#[derive(Debug, PartialEq, Eq)]
pub enum SwapchainAction {
    /// Query the capabilities of the surface on the adapter.
    QueryCapabilities { physical_device: ash::vk::PhysicalDevice, surface: ash::vk::SurfaceKHR },
    /// Query the present modes of the surface on the adapter.
    QueryPresentModes { physical_device: ash::vk::PhysicalDevice, surface: ash::vk::SurfaceKHR },
    /// Query the formats of the surface on the adapter.
    QueryFormats { physical_device: ash::vk::PhysicalDevice, surface: ash::vk::SurfaceKHR },
    /// Create the chain.
    CreateSwapchain { device: ash::vk::Device, create_info: SwapchainCreateInfo },
    /// Get the images of the chain.
    GetImages { device: ash::vk::Device, swapchain: ash::vk::SwapchainKHR },
    /// Create the view of one image.
    CreateImageView { device: ash::vk::Device, view_info: ImageViewCreateInfo },
    /// Nothing more: the swapchain is live.
    Done(Swapchain),
    /// Nothing more: the construction has failed.
    Fail(Error),
    /// Nothing: the answer was not the one that is waited for.
    Idle,
}

/// What the driver answered.
#[derive(Debug, PartialEq, Eq)]
pub enum SwapchainReply {
    Capabilities(Result<SurfaceCapabilities, ash::vk::Result>),
    PresentModes(Result<Vec<i32>, ash::vk::Result>),
    Formats(Result<Vec<SurfaceFormat>, ash::vk::Result>),
    Swapchain(Result<ash::vk::SwapchainKHR, ash::vk::Result>),
    Images(Result<Vec<ash::vk::Image>, ash::vk::Result>),
    ImageView(Result<ash::vk::ImageView, ash::vk::Result>),
}

/// A construction under way, named by the answer that it waits for.
#[derive(Debug, PartialEq, Eq)]
pub enum SwapchainSetup {
    AwaitCapabilities { target: SwapchainTarget },
    AwaitPresentModes { target: SwapchainTarget, capabilities: SurfaceCapabilities },
    AwaitFormats { target: SwapchainTarget, capabilities: SurfaceCapabilities, present_mode: i32 },
    AwaitSwapchain { target: SwapchainTarget, format: i32 },
    AwaitImages { target: SwapchainTarget, handle: ash::vk::SwapchainKHR, format: i32 },
    /// Waits for the view of the image at position `image_views.len()`.
    AwaitImageView {
        target: SwapchainTarget,
        handle: ash::vk::SwapchainKHR,
        format: i32,
        images: Vec<ash::vk::Image>,
        image_views: Vec<ash::vk::ImageView>,
    },
    /// The construction is over, and its outcome has been handed out.
    Finished,
}

/// The construction ends with `error`.
pub open spec fn fails(next: SwapchainSetup, action: SwapchainAction, error: Error) -> bool {
    next == SwapchainSetup::Finished && action == SwapchainAction::Fail(error)
}

/// The construction ends with the swapchain of `handle` and `image_views`.
pub open spec fn finishes(
    next: SwapchainSetup,
    action: SwapchainAction,
    handle: ash::vk::SwapchainKHR,
    image_views: Seq<ash::vk::ImageView>,
) -> bool {
    &&& next == SwapchainSetup::Finished
    &&& action matches SwapchainAction::Done(swapchain)
    &&& swapchain.handle == handle
    &&& swapchain.image_views@ == image_views
}

/// The construction goes on to wait for the view of the image that follows
/// those of `image_views`.
pub open spec fn awaits_view(
    next: SwapchainSetup,
    action: SwapchainAction,
    target: SwapchainTarget,
    handle: ash::vk::SwapchainKHR,
    format: i32,
    images: Seq<ash::vk::Image>,
    image_views: Seq<ash::vk::ImageView>,
) -> bool {
    &&& next matches SwapchainSetup::AwaitImageView {
        target: next_target,
        handle: next_handle,
        format: next_format,
        images: next_images,
        image_views: next_views,
    }
    &&& next_target == target
    &&& next_handle == handle
    &&& next_format == format
    &&& next_images@ == images
    &&& next_views@ == image_views
    &&& action == SwapchainAction::CreateImageView {
        device: target.device,
        view_info: ImageViewCreateInfo::spec_new(images[image_views.len() as int], format),
    }
}

impl SwapchainSetup {
    /// While views are waited for, at least one image is still without.
    pub open spec fn wf(self) -> bool {
        self matches SwapchainSetup::AwaitImageView { images, image_views, .. }
            ==> image_views@.len() < images@.len()
    }

    /// Whether `reply` is the answer that is waited for.
    pub open spec fn awaits(self, reply: SwapchainReply) -> bool {
        match (self, reply) {
            (SwapchainSetup::AwaitCapabilities { .. }, SwapchainReply::Capabilities(_)) => true,
            (SwapchainSetup::AwaitPresentModes { .. }, SwapchainReply::PresentModes(_)) => true,
            (SwapchainSetup::AwaitFormats { .. }, SwapchainReply::Formats(_)) => true,
            (SwapchainSetup::AwaitSwapchain { .. }, SwapchainReply::Swapchain(_)) => true,
            (SwapchainSetup::AwaitImages { .. }, SwapchainReply::Images(_)) => true,
            (SwapchainSetup::AwaitImageView { .. }, SwapchainReply::ImageView(_)) => true,
            _ => false,
        }
    }

    /// The rule of the construction: from the state `self`, the answer
    /// `reply` leads to the state `next` and asks for `action`.
    ///
    /// The capabilities, the present modes and the formats are queried in
    /// this order; then the chain is created, its images are fetched, and
    /// one view is created for each image in turn. A failure that the driver
    /// reports ends the construction with the driver's code, and so does a
    /// surface without the required format, with an error of its own. An
    /// answer that is not waited for changes nothing.
    pub open spec fn step(
        self,
        reply: SwapchainReply,
        next: SwapchainSetup,
        action: SwapchainAction,
    ) -> bool {
        match (self, reply) {
            (
                SwapchainSetup::AwaitCapabilities { target },
                SwapchainReply::Capabilities(Ok(capabilities)),
            ) => {
                &&& next == SwapchainSetup::AwaitPresentModes { target, capabilities }
                &&& action == SwapchainAction::QueryPresentModes {
                    physical_device: target.physical_device,
                    surface: target.surface,
                }
            },
            (
                SwapchainSetup::AwaitCapabilities { .. },
                SwapchainReply::Capabilities(Err(code)),
            ) => fails(next, action, Error::Driver(code)),
            (
                SwapchainSetup::AwaitPresentModes { target, capabilities },
                SwapchainReply::PresentModes(Ok(modes)),
            ) => {
                &&& next == SwapchainSetup::AwaitFormats {
                    target,
                    capabilities,
                    present_mode: preferred_present_mode(modes@),
                }
                &&& action == SwapchainAction::QueryFormats {
                    physical_device: target.physical_device,
                    surface: target.surface,
                }
            },
            (
                SwapchainSetup::AwaitPresentModes { .. },
                SwapchainReply::PresentModes(Err(code)),
            ) => fails(next, action, Error::Driver(code)),
            (
                SwapchainSetup::AwaitFormats { target, capabilities, present_mode },
                SwapchainReply::Formats(Ok(formats)),
            ) => {
                if offers_required_format(formats@) {
                    &&& next == SwapchainSetup::AwaitSwapchain {
                        target,
                        format: SurfaceFormat::required().format,
                    }
                    &&& action == SwapchainAction::CreateSwapchain {
                        device: target.device,
                        create_info: SwapchainCreateInfo::spec_new(
                            target.surface,
                            capabilities,
                            SurfaceFormat::required(),
                            present_mode,
                        ),
                    }
                } else {
                    fails(next, action, Error::NoMatchingSurfaceFormat)
                }
            },
            (SwapchainSetup::AwaitFormats { .. }, SwapchainReply::Formats(Err(code))) => fails(
                next,
                action,
                Error::Driver(code),
            ),
            (
                SwapchainSetup::AwaitSwapchain { target, format },
                SwapchainReply::Swapchain(Ok(handle)),
            ) => {
                &&& next == SwapchainSetup::AwaitImages { target, handle, format }
                &&& action == SwapchainAction::GetImages {
                    device: target.device,
                    swapchain: handle,
                }
            },
            (SwapchainSetup::AwaitSwapchain { .. }, SwapchainReply::Swapchain(Err(code))) => fails(
                next,
                action,
                Error::Driver(code),
            ),
            (
                SwapchainSetup::AwaitImages { target, handle, format },
                SwapchainReply::Images(Ok(images)),
            ) => {
                if images@.len() == 0 {
                    finishes(next, action, handle, Seq::empty())
                } else {
                    awaits_view(next, action, target, handle, format, images@, Seq::empty())
                }
            },
            (SwapchainSetup::AwaitImages { .. }, SwapchainReply::Images(Err(code))) => fails(
                next,
                action,
                Error::Driver(code),
            ),
            (
                SwapchainSetup::AwaitImageView { target, handle, format, images, image_views },
                SwapchainReply::ImageView(Ok(view)),
            ) => {
                if image_views@.len() + 1 >= images@.len() {
                    finishes(next, action, handle, image_views@.push(view))
                } else {
                    awaits_view(
                        next,
                        action,
                        target,
                        handle,
                        format,
                        images@,
                        image_views@.push(view),
                    )
                }
            },
            (SwapchainSetup::AwaitImageView { .. }, SwapchainReply::ImageView(Err(code))) => fails(
                next,
                action,
                Error::Driver(code),
            ),
            _ => next == self && action == SwapchainAction::Idle,
        }
    }

    /// Starts the construction of a swapchain for `surface`, negotiated with
    /// `physical_device` and made by `device`.
    pub fn begin(
        surface: &Surface,
        physical_device: &PhysicalDevice,
        device: &Device,
    ) -> (start: (SwapchainSetup, SwapchainAction))
        ensures
            start.0 == (SwapchainSetup::AwaitCapabilities {
                target: SwapchainTarget {
                    physical_device: physical_device.handle,
                    surface: surface.handle,
                    device: device.handle,
                },
            }),
            start.1 == (SwapchainAction::QueryCapabilities {
                physical_device: physical_device.handle,
                surface: surface.handle,
            }),
    {
        let target = SwapchainTarget {
            physical_device: physical_device.handle,
            surface: surface.handle,
            device: device.handle,
        };
        (
            SwapchainSetup::AwaitCapabilities { target },
            SwapchainAction::QueryCapabilities {
                physical_device: target.physical_device,
                surface: target.surface,
            },
        )
    }

    /// Takes the driver's answer and says what follows.
    pub fn advance(self, reply: SwapchainReply) -> (step: (SwapchainSetup, SwapchainAction))
        ensures
            self.step(reply, step.0, step.1),
            self.wf() ==> step.0.wf(),
    {
        match (self, reply) {
            (
                SwapchainSetup::AwaitCapabilities { target },
                SwapchainReply::Capabilities(Ok(capabilities)),
            ) => (
                SwapchainSetup::AwaitPresentModes { target, capabilities },
                SwapchainAction::QueryPresentModes {
                    physical_device: target.physical_device,
                    surface: target.surface,
                },
            ),
            (SwapchainSetup::AwaitCapabilities { .. }, SwapchainReply::Capabilities(Err(code))) => (
                SwapchainSetup::Finished,
                SwapchainAction::Fail(Error::Driver(code)),
            ),
            (
                SwapchainSetup::AwaitPresentModes { target, capabilities },
                SwapchainReply::PresentModes(Ok(modes)),
            ) => (
                SwapchainSetup::AwaitFormats {
                    target,
                    capabilities,
                    present_mode: select_present_mode(modes.as_slice()),
                },
                SwapchainAction::QueryFormats {
                    physical_device: target.physical_device,
                    surface: target.surface,
                },
            ),
            (SwapchainSetup::AwaitPresentModes { .. }, SwapchainReply::PresentModes(Err(code))) => (
                SwapchainSetup::Finished,
                SwapchainAction::Fail(Error::Driver(code)),
            ),
            (
                SwapchainSetup::AwaitFormats { target, capabilities, present_mode },
                SwapchainReply::Formats(Ok(formats)),
            ) => match select_surface_format(formats.as_slice()) {
                Ok(format) => (
                    SwapchainSetup::AwaitSwapchain { target, format: format.format },
                    SwapchainAction::CreateSwapchain {
                        device: target.device,
                        create_info: SwapchainCreateInfo::new(
                            target.surface,
                            &capabilities,
                            format,
                            present_mode,
                        ),
                    },
                ),
                Err(error) => (SwapchainSetup::Finished, SwapchainAction::Fail(error)),
            },
            (SwapchainSetup::AwaitFormats { .. }, SwapchainReply::Formats(Err(code))) => (
                SwapchainSetup::Finished,
                SwapchainAction::Fail(Error::Driver(code)),
            ),
            (
                SwapchainSetup::AwaitSwapchain { target, format },
                SwapchainReply::Swapchain(Ok(handle)),
            ) => (
                SwapchainSetup::AwaitImages { target, handle, format },
                SwapchainAction::GetImages { device: target.device, swapchain: handle },
            ),
            (SwapchainSetup::AwaitSwapchain { .. }, SwapchainReply::Swapchain(Err(code))) => (
                SwapchainSetup::Finished,
                SwapchainAction::Fail(Error::Driver(code)),
            ),
            (
                SwapchainSetup::AwaitImages { target, handle, format },
                SwapchainReply::Images(Ok(images)),
            ) => {
                if images.len() == 0 {
                    let swapchain = Swapchain::new(handle, Vec::new());
                    (SwapchainSetup::Finished, SwapchainAction::Done(swapchain))
                } else {
                    let view_info = ImageViewCreateInfo::new(images[0], format);
                    (
                        SwapchainSetup::AwaitImageView {
                            target,
                            handle,
                            format,
                            images,
                            image_views: Vec::new(),
                        },
                        SwapchainAction::CreateImageView { device: target.device, view_info },
                    )
                }
            },
            (SwapchainSetup::AwaitImages { .. }, SwapchainReply::Images(Err(code))) => (
                SwapchainSetup::Finished,
                SwapchainAction::Fail(Error::Driver(code)),
            ),
            (
                SwapchainSetup::AwaitImageView { target, handle, format, images, image_views },
                SwapchainReply::ImageView(Ok(view)),
            ) => {
                let mut image_views = image_views;
                image_views.push(view);
                if image_views.len() >= images.len() {
                    let swapchain = Swapchain::new(handle, image_views);
                    (SwapchainSetup::Finished, SwapchainAction::Done(swapchain))
                } else {
                    let view_info = ImageViewCreateInfo::new(images[image_views.len()], format);
                    (
                        SwapchainSetup::AwaitImageView {
                            target,
                            handle,
                            format,
                            images,
                            image_views,
                        },
                        SwapchainAction::CreateImageView { device: target.device, view_info },
                    )
                }
            },
            (SwapchainSetup::AwaitImageView { .. }, SwapchainReply::ImageView(Err(code))) => (
                SwapchainSetup::Finished,
                SwapchainAction::Fail(Error::Driver(code)),
            ),
            (state, _) => (state, SwapchainAction::Idle),
        }
    }
}


/// A run of the construction: each answer of `replies` in turn leads from
/// one state of `states` to the next and asks for one action of `actions`.
pub open spec fn is_run(
    states: Seq<SwapchainSetup>,
    replies: Seq<SwapchainReply>,
    actions: Seq<SwapchainAction>,
) -> bool {
    &&& states.len() == replies.len() + 1
    &&& actions.len() == replies.len()
    &&& forall|i: int|
        #![trigger replies[i]]
        0 <= i < replies.len() ==> states[i].step(replies[i], states[i + 1], actions[i])
}

/// Whether `reply` is the answer by which the driver hands out `images` as
/// the images of the chain, and `state` waits for it.
pub open spec fn hands_out_images(
    state: SwapchainSetup,
    reply: SwapchainReply,
    images: Seq<ash::vk::Image>,
) -> bool {
    &&& state is AwaitImages
    &&& reply matches SwapchainReply::Images(Ok(reported))
    &&& reported@ == images
}

/// Whether, before step `end` of the run, the driver handed out `images` as
/// the images of the chain.
pub open spec fn images_reported_before(
    states: Seq<SwapchainSetup>,
    replies: Seq<SwapchainReply>,
    end: int,
    images: Seq<ash::vk::Image>,
) -> bool {
    exists|k: int| 0 <= k < end && #[trigger] hands_out_images(states[k], replies[k], images)
}

/// A surface that lacks the required format gets no swapchain: the
/// construction ends with `NoMatchingSurfaceFormat` as soon as the formats
/// are known, whatever other formats the surface offers.
pub proof fn lemma_missing_format_fails(
    state: SwapchainSetup,
    formats: Vec<SurfaceFormat>,
    next: SwapchainSetup,
    action: SwapchainAction,
)
    requires
        state is AwaitFormats,
        !offers_required_format(formats@),
        state.step(SwapchainReply::Formats(Ok(formats)), next, action),
    ensures
        next == SwapchainSetup::Finished,
        action == SwapchainAction::Fail(Error::NoMatchingSurfaceFormat),
{
}

/// A surface that offers the required format gets a chain of exactly that
/// format, with the preferred present mode of the modes that it reported.
pub proof fn lemma_offered_format_is_taken(
    state: SwapchainSetup,
    formats: Vec<SurfaceFormat>,
    next: SwapchainSetup,
    action: SwapchainAction,
)
    requires
        state is AwaitFormats,
        offers_required_format(formats@),
        state.step(SwapchainReply::Formats(Ok(formats)), next, action),
    ensures
        ({
            &&& action matches SwapchainAction::CreateSwapchain { create_info, .. }
            &&& create_info.image_format == FORMAT_B8G8R8A8_SRGB
            &&& create_info.image_color_space == COLOR_SPACE_SRGB_NONLINEAR
            &&& create_info.present_mode == state->AwaitFormats_present_mode
        }),
{
}

/// The chosen present mode is mailbox exactly where the surface offers
/// mailbox, and FIFO everywhere else.
pub proof fn lemma_present_mode_preference(modes: Seq<i32>)
    ensures
        preferred_present_mode(modes) == PRESENT_MODE_MAILBOX <==> modes.contains(
            PRESENT_MODE_MAILBOX,
        ),
        preferred_present_mode(modes) == PRESENT_MODE_FIFO <==> !modes.contains(
            PRESENT_MODE_MAILBOX,
        ),
{
}

/// An answer that is not waited for changes nothing and asks for nothing.
/// In particular, a construction that is over stays over.
pub proof fn lemma_unawaited_reply_is_ignored(
    state: SwapchainSetup,
    reply: SwapchainReply,
    next: SwapchainSetup,
    action: SwapchainAction,
)
    requires
        !state.awaits(reply),
        state.step(reply, next, action),
    ensures
        next == state,
        action == SwapchainAction::Idle,
{
}

/// One step keeps the promise of one view per image: where it hands out
/// the swapchain, the swapchain has as many views as the chain has images.
pub proof fn lemma_step_one_view_per_image(
    state: SwapchainSetup,
    reply: SwapchainReply,
    next: SwapchainSetup,
    action: SwapchainAction,
)
    requires
        state.wf(),
        state.step(reply, next, action),
        action is Done,
    ensures
        state matches SwapchainSetup::AwaitImages { .. } ==> reply matches SwapchainReply::Images(
            Ok(images),
        ) && action->Done_0.image_views@.len() == images@.len(),
        state matches SwapchainSetup::AwaitImageView { images, .. }
            ==> action->Done_0.image_views@.len() == images@.len(),
        state is AwaitImages || state is AwaitImageView,
{
}

/// What holds of every state of a run that did not start in the middle:
/// while views are waited for, the images are those that the driver handed
/// out, and at least one of them is still without a view.
proof fn lemma_run_keeps_images(
    states: Seq<SwapchainSetup>,
    replies: Seq<SwapchainReply>,
    actions: Seq<SwapchainAction>,
    end: int,
)
    requires
        is_run(states, replies, actions),
        states[0] is AwaitCapabilities,
        0 <= end <= replies.len(),
    ensures
        states[end] matches SwapchainSetup::AwaitImageView { images, image_views, .. }
            ==> image_views@.len() < images@.len() && images_reported_before(
            states,
            replies,
            end,
            images@,
        ),
    decreases end,
{
    if end > 0 {
        let k = end - 1;
        lemma_run_keeps_images(states, replies, actions, k);
        assert(states[k].step(replies[k], states[k + 1], actions[k]));
        if let SwapchainSetup::AwaitImageView { images, image_views, .. } = states[end] {
            match states[k] {
                SwapchainSetup::AwaitImages { .. } => {
                    assert(hands_out_images(states[k], replies[k], images@));
                },
                SwapchainSetup::AwaitImageView { images: before, .. } => {
                    let earlier = choose|e: int|
                        0 <= e < k && #[trigger] hands_out_images(states[e], replies[e], before@);
                    assert(hands_out_images(states[earlier], replies[earlier], images@));
                },
                _ => {},
            }
        }
    }
}

/// One view per image, over a whole construction: in every run from the
/// start that ends by handing out the swapchain, the driver did hand out
/// the images of the chain, and the swapchain has exactly as many views as
/// there were images.
pub proof fn lemma_run_one_view_per_image(
    states: Seq<SwapchainSetup>,
    replies: Seq<SwapchainReply>,
    actions: Seq<SwapchainAction>,
)
    requires
        is_run(states, replies, actions),
        states[0] is AwaitCapabilities,
        replies.len() > 0,
        actions.last() is Done,
    ensures
        exists|images: Seq<ash::vk::Image>|
            #![trigger images_reported_before(states, replies, replies.len() as int, images)]
            images_reported_before(states, replies, replies.len() as int, images)
                && actions.last()->Done_0.image_views@.len() == images.len(),
{
    let last = replies.len() - 1;
    lemma_run_keeps_images(states, replies, actions, last);
    assert(states[last].step(replies[last], states[last + 1], actions[last]));
    match states[last] {
        SwapchainSetup::AwaitImages { .. } => {
            let images = replies[last]->Images_0->Ok_0@;
            assert(hands_out_images(states[last], replies[last], images));
            assert(images_reported_before(states, replies, replies.len() as int, images));
        },
        SwapchainSetup::AwaitImageView { images, .. } => {
            let earlier = choose|e: int|
                0 <= e < last && #[trigger] hands_out_images(states[e], replies[e], images@);
            assert(hands_out_images(states[earlier], replies[earlier], images@));
            assert(images_reported_before(states, replies, replies.len() as int, images@));
        },
        _ => {},
    }
}

/// While the driver makes one view after the other, the construction keeps
/// asking for the next: after the first `made` views of a run as in
/// `lemma_run_succeeds`, it holds those views and waits for one more.
proof fn lemma_run_collects_views(
    target: SwapchainTarget,
    handle: ash::vk::SwapchainKHR,
    images: Seq<ash::vk::Image>,
    views: Seq<ash::vk::ImageView>,
    states: Seq<SwapchainSetup>,
    replies: Seq<SwapchainReply>,
    actions: Seq<SwapchainAction>,
    made: int,
)
    requires
        is_run(states, replies, actions),
        replies.len() == 5 + views.len(),
        views.len() == images.len(),
        0 <= made < views.len(),
        awaits_view(
            states[5],
            actions[4],
            target,
            handle,
            FORMAT_B8G8R8A8_SRGB,
            images,
            Seq::empty(),
        ),
        forall|i: int|
            0 <= i < views.len() ==> #[trigger] replies[5 + i] == SwapchainReply::ImageView(
                Ok(views[i]),
            ),
    ensures
        awaits_view(
            states[5 + made],
            actions[4 + made],
            target,
            handle,
            FORMAT_B8G8R8A8_SRGB,
            images,
            views.take(made),
        ),
    decreases made,
{
    if made == 0 {
        assert(views.take(0) =~= Seq::empty());
    } else {
        let before = made - 1;
        lemma_run_collects_views(target, handle, images, views, states, replies, actions, before);
        assert(replies[5 + before] == SwapchainReply::ImageView(Ok(views[before])));
        assert(states[5 + before].step(
            replies[5 + before],
            states[5 + before + 1],
            actions[5 + before],
        ));
        assert(views.take(before).push(views[before]) =~= views.take(made));
    }
}

/// Success is owed: on a surface that offers the required format, and with
/// a driver that refuses nothing, the construction creates the chain with
/// the negotiated parameters and hands out the swapchain of that chain, with
/// the views that the driver made, one for each image and in the order of
/// the images.
pub proof fn lemma_run_succeeds(
    target: SwapchainTarget,
    capabilities: SurfaceCapabilities,
    modes: Vec<i32>,
    formats: Vec<SurfaceFormat>,
    handle: ash::vk::SwapchainKHR,
    images: Vec<ash::vk::Image>,
    views: Seq<ash::vk::ImageView>,
    states: Seq<SwapchainSetup>,
    replies: Seq<SwapchainReply>,
    actions: Seq<SwapchainAction>,
)
    requires
        offers_required_format(formats@),
        views.len() == images@.len(),
        is_run(states, replies, actions),
        states[0] == (SwapchainSetup::AwaitCapabilities { target }),
        replies.len() == 5 + views.len(),
        replies[0] == SwapchainReply::Capabilities(Ok(capabilities)),
        replies[1] == SwapchainReply::PresentModes(Ok(modes)),
        replies[2] == SwapchainReply::Formats(Ok(formats)),
        replies[3] == SwapchainReply::Swapchain(Ok(handle)),
        replies[4] == SwapchainReply::Images(Ok(images)),
        forall|i: int|
            0 <= i < views.len() ==> #[trigger] replies[5 + i] == SwapchainReply::ImageView(
                Ok(views[i]),
            ),
    ensures
        actions[2] == (SwapchainAction::CreateSwapchain {
            device: target.device,
            create_info: SwapchainCreateInfo::spec_new(
                target.surface,
                capabilities,
                SurfaceFormat::required(),
                preferred_present_mode(modes@),
            ),
        }),
        ({
            &&& actions.last() matches SwapchainAction::Done(swapchain)
            &&& swapchain.handle == handle
            &&& swapchain.image_views@ == views
        }),
        states.last() == SwapchainSetup::Finished,
{
    assert(states[0].step(replies[0], states[1], actions[0]));
    assert(states[1].step(replies[1], states[2], actions[1]));
    assert(states[2].step(replies[2], states[3], actions[2]));
    assert(states[3].step(replies[3], states[4], actions[3]));
    assert(states[4].step(replies[4], states[5], actions[4]));
    if views.len() == 0 {
        assert(views =~= Seq::empty());
    } else {
        let last = views.len() - 1;
        lemma_run_collects_views(target, handle, images@, views, states, replies, actions, last);
        assert(replies[5 + last] == SwapchainReply::ImageView(Ok(views[last])));
        assert(states[5 + last].step(replies[5 + last], states[5 + last + 1], actions[5 + last]));
        assert(views.take(last).push(views[last]) =~= views);
    }
}

} // verus!
