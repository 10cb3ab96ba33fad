use ash::vk;
use vulkan::error::{DeviceExtension, Error, ErrorKind};

#[test]
fn every_error_has_its_kind() {
    assert_eq!(Error::EntryUnavailable.kind(), ErrorKind::Environment);
    assert_eq!(Error::NoMatchingAdapter.kind(), ErrorKind::Environment);
    assert_eq!(Error::NoGraphicsQueueFamily.kind(), ErrorKind::Environment);
    assert_eq!(Error::NoMatchingSurfaceFormat.kind(), ErrorKind::Environment);
    assert_eq!(
        Error::MissingExtension(DeviceExtension::Swapchain).kind(),
        ErrorKind::Negotiation
    );
    assert_eq!(
        Error::MissingExtension(DeviceExtension::DynamicRendering).kind(),
        ErrorKind::Negotiation
    );
    assert_eq!(Error::UnsupportedPlatform.kind(), ErrorKind::Platform);
    assert_eq!(
        Error::Driver(vk::Result::ERROR_INITIALIZATION_FAILED).kind(),
        ErrorKind::Driver
    );
}

#[test]
fn every_error_has_its_message() {
    assert_eq!(
        Error::EntryUnavailable.message(),
        "the Vulkan entry point could not be loaded"
    );
    assert_eq!(
        Error::NoMatchingAdapter.message(),
        "no adapter of the wanted type was found"
    );
    assert_eq!(
        Error::NoGraphicsQueueFamily.message(),
        "the adapter has no queue family with graphics support"
    );
    assert_eq!(
        Error::NoMatchingSurfaceFormat.message(),
        "the surface offers no BGRA8 sRGB format"
    );
    assert_eq!(
        Error::MissingExtension(DeviceExtension::Swapchain).message(),
        "the adapter lacks the swapchain extension"
    );
    assert_eq!(
        Error::MissingExtension(DeviceExtension::DynamicRendering).message(),
        "the adapter lacks the dynamic rendering extension"
    );
    assert_eq!(
        Error::UnsupportedPlatform.message(),
        "windows of this platform are not supported"
    );
    assert_eq!(
        Error::Driver(vk::Result::ERROR_DEVICE_LOST).message(),
        "the driver reported a failure"
    );
}

#[test]
fn driver_errors_keep_their_code() {
    let error = Error::Driver(vk::Result::ERROR_OUT_OF_HOST_MEMORY);
    assert_eq!(error, Error::Driver(vk::Result::ERROR_OUT_OF_HOST_MEMORY));
    assert_ne!(error, Error::Driver(vk::Result::ERROR_OUT_OF_DEVICE_MEMORY));
}

#[test]
fn prelude_names_the_main_types() {
    let error = vulkan::prelude::Error::Driver(vulkan::prelude::vk::Result::ERROR_UNKNOWN);
    assert_eq!(error.kind(), vulkan::prelude::ErrorKind::Driver);
    assert_eq!(error, Error::Driver(vk::Result::ERROR_UNKNOWN));
}
