//! What can go wrong while the context, the device and the swapchain are
//! brought up. Nothing is retried and nothing is replaced by a default: each
//! error ends the construction that met it.

use vstd::prelude::*;

verus! {

/// A device extension that the library asks for.
#[derive(Debug, Clone, Copy, PartialEq, Eq)]
pub enum DeviceExtension {
    /// Presentation through a chain of images.
    Swapchain,
    /// Rendering without a render-pass object.
    DynamicRendering,
}

/// The four families of errors.
#[derive(Debug, Clone, Copy, PartialEq, Eq)]
pub enum ErrorKind {
    /// The host lacks something: the loader, an adapter, a queue family, a
    /// surface format.
    Environment,
    /// The chosen adapter lacks an extension that the device is built on.
    Negotiation,
    /// The window comes from a windowing system without a surface path.
    Platform,
    /// The driver refused a call.
    Driver,
}

#[derive(Debug, Clone, Copy, PartialEq, Eq)]
pub enum Error {
    /// The Vulkan entry point could not be loaded.
    EntryUnavailable,
    /// No adapter is of the wanted type.
    NoMatchingAdapter,
    /// No queue family of the adapter supports graphics.
    NoGraphicsQueueFamily,
    /// The surface offers no BGRA 8-bit sRGB format in the non-linear sRGB
    /// color space.
    NoMatchingSurfaceFormat,
    /// The adapter does not report the extension.
    MissingExtension(DeviceExtension),
    /// The window handle is of a kind for which no surface can be made.
    UnsupportedPlatform,
    /// The driver answered a call with this code.
    Driver(ash::vk::Result),
}

impl Error {
    /// The family of each error.
    pub open spec fn spec_kind(self) -> ErrorKind {
        match self {
            Error::EntryUnavailable => ErrorKind::Environment,
            Error::NoMatchingAdapter => ErrorKind::Environment,
            Error::NoGraphicsQueueFamily => ErrorKind::Environment,
            Error::NoMatchingSurfaceFormat => ErrorKind::Environment,
            Error::MissingExtension(_) => ErrorKind::Negotiation,
            Error::UnsupportedPlatform => ErrorKind::Platform,
            Error::Driver(_) => ErrorKind::Driver,
        }
    }

    /// The family that the error belongs to.
    pub fn kind(&self) -> (kind: ErrorKind)
        ensures
            kind == self.spec_kind(),
    {
        match self {
            Error::EntryUnavailable
            | Error::NoMatchingAdapter
            | Error::NoGraphicsQueueFamily
            | Error::NoMatchingSurfaceFormat => ErrorKind::Environment,
            Error::MissingExtension(_) => ErrorKind::Negotiation,
            Error::UnsupportedPlatform => ErrorKind::Platform,
            Error::Driver(_) => ErrorKind::Driver,
        }
    }

    /// A sentence for the user.
    pub fn message(&self) -> (text: &'static str)
        ensures
            text@ == self.spec_message(),
    {
        match self {
            Error::EntryUnavailable => "the Vulkan entry point could not be loaded",
            Error::NoMatchingAdapter => "no adapter of the wanted type was found",
            Error::NoGraphicsQueueFamily => "the adapter has no queue family with graphics support",
            Error::NoMatchingSurfaceFormat => "the surface offers no BGRA8 sRGB format",
            Error::MissingExtension(DeviceExtension::Swapchain) => {
                "the adapter lacks the swapchain extension"
            },
            Error::MissingExtension(DeviceExtension::DynamicRendering) => {
                "the adapter lacks the dynamic rendering extension"
            },
            Error::UnsupportedPlatform => "windows of this platform are not supported",
            Error::Driver(_) => "the driver reported a failure",
        }
    }

    pub open spec fn spec_message(self) -> Seq<char> {
        match self {
            Error::EntryUnavailable => "the Vulkan entry point could not be loaded"@,
            Error::NoMatchingAdapter => "no adapter of the wanted type was found"@,
            Error::NoGraphicsQueueFamily => {
                "the adapter has no queue family with graphics support"@
            },
            Error::NoMatchingSurfaceFormat => "the surface offers no BGRA8 sRGB format"@,
            Error::MissingExtension(DeviceExtension::Swapchain) => {
                "the adapter lacks the swapchain extension"@
            },
            Error::MissingExtension(DeviceExtension::DynamicRendering) => {
                "the adapter lacks the dynamic rendering extension"@
            },
            Error::UnsupportedPlatform => "windows of this platform are not supported"@,
            Error::Driver(_) => "the driver reported a failure"@,
        }
    }
}

} // verus!
