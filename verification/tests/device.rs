use ash::vk;
use ash::vk::Handle;
use vulkan::device::{
    check_supported_device_extensions, has_extension, Device, DeviceAction, DeviceCreateInfo,
    DeviceFeatures, DeviceQueueCreateInfo, DeviceReply, DeviceSetup, ExtensionProperties,
};
use vulkan::error::{DeviceExtension, Error};
use vulkan::physical_device::{
    Extent3D, PhysicalDevice, PhysicalDeviceProperties, QueueFamily, QueueFamilyProperties,
};

fn extension(name: &str) -> ExtensionProperties {
    let mut extension_name = name.as_bytes().to_vec();
    extension_name.resize(256, 0);
    ExtensionProperties { extension_name, spec_version: 1 }
}

fn extensions(names: &[&str]) -> Vec<ExtensionProperties> {
    names.iter().map(|name| extension(name)).collect()
}

fn family(index: u32, queue_flags: vk::QueueFlags) -> QueueFamily {
    QueueFamily {
        index,
        properties: QueueFamilyProperties {
            queue_flags: queue_flags.as_raw(),
            queue_count: 4,
            timestamp_valid_bits: 64,
            min_image_transfer_granularity: Extent3D { width: 1, height: 1, depth: 1 },
        },
    }
}

fn adapter(flags: &[vk::QueueFlags]) -> PhysicalDevice {
    PhysicalDevice {
        handle: vk::PhysicalDevice::from_raw(0xad),
        name: "adapter".to_string(),
        properties: PhysicalDeviceProperties {
            api_version: vk::API_VERSION_1_2,
            driver_version: 1,
            vendor_id: 2,
            device_id: 3,
            device_type: vk::PhysicalDeviceType::DISCRETE_GPU.as_raw(),
        },
        queue_families: flags
            .iter()
            .enumerate()
            .map(|(index, flags)| family(index as u32, *flags))
            .collect(),
    }
}

fn usual_adapter() -> PhysicalDevice {
    adapter(&[
        vk::QueueFlags::TRANSFER,
        vk::QueueFlags::GRAPHICS | vk::QueueFlags::COMPUTE | vk::QueueFlags::TRANSFER,
        vk::QueueFlags::GRAPHICS,
    ])
}

fn awaiting_device() -> DeviceSetup {
    let (setup, _) = DeviceSetup::begin(&usual_adapter());
    let reply = DeviceReply::Extensions(Ok(extensions(&[
        "VK_KHR_swapchain",
        "VK_KHR_dynamic_rendering",
    ])));
    setup.advance(reply).0
}

#[test]
fn device_extension_names_are_those_of_the_binding() {
    assert_eq!(DeviceExtension::Swapchain.name(), "VK_KHR_swapchain");
    assert_eq!(DeviceExtension::DynamicRendering.name(), "VK_KHR_dynamic_rendering");
    assert_eq!(
        DeviceExtension::Swapchain.name(),
        ash::extensions::khr::Swapchain::name().to_str().unwrap()
    );
    assert_eq!(
        DeviceExtension::DynamicRendering.name(),
        ash::extensions::khr::DynamicRendering::name().to_str().unwrap()
    );
}

#[test]
fn reported_extension_is_found() {
    let reported = extensions(&["VK_KHR_maintenance1", "VK_KHR_swapchain", "VK_EXT_debug_utils"]);
    assert!(has_extension(&reported, "VK_KHR_swapchain"));
    assert!(has_extension(&reported, "VK_KHR_maintenance1"));
    assert!(has_extension(&reported, "VK_EXT_debug_utils"));
}

#[test]
fn extension_that_is_not_reported_is_not_found() {
    let reported = extensions(&["VK_KHR_maintenance1", "VK_KHR_swapchain_mutable_format"]);
    assert!(!has_extension(&reported, "VK_KHR_swapchain"));
    assert!(!has_extension(&reported, "VK_KHR_maintenance"));
    assert!(!has_extension(&reported, ""));
    assert!(!has_extension(&[], "VK_KHR_swapchain"));
}

#[test]
fn extension_names_end_at_the_first_zero_byte() {
    let mut odd = extension("VK_KHR_swapchain");
    odd.extension_name[20] = b'x';
    assert!(has_extension(&[odd], "VK_KHR_swapchain"));
    let short = ExtensionProperties { extension_name: b"VK_KHR_swapchain".to_vec(), spec_version: 70 };
    assert!(has_extension(&[short], "VK_KHR_swapchain"));
}

#[test]
fn every_required_extension_must_be_reported() {
    let reported = extensions(&["VK_KHR_swapchain", "VK_KHR_dynamic_rendering", "VK_KHR_maintenance1"]);
    assert!(check_supported_device_extensions(
        &reported,
        &["VK_KHR_swapchain", "VK_KHR_dynamic_rendering"]
    ));
    assert!(check_supported_device_extensions(&reported, &["VK_KHR_maintenance1"]));
    assert!(check_supported_device_extensions(&reported, &[]));
    assert!(check_supported_device_extensions(&[], &[]));
    assert!(!check_supported_device_extensions(
        &reported,
        &["VK_KHR_swapchain", "VK_KHR_ray_query"]
    ));
    assert!(!check_supported_device_extensions(
        &reported,
        &["VK_KHR_ray_query", "VK_KHR_swapchain"]
    ));
    assert!(!check_supported_device_extensions(&[], &["VK_KHR_swapchain"]));
}

#[test]
fn extension_reported_twice_is_supported() {
    let reported = extensions(&["VK_KHR_swapchain", "VK_KHR_swapchain", "VK_KHR_dynamic_rendering"]);
    assert!(check_supported_device_extensions(
        &reported,
        &["VK_KHR_swapchain", "VK_KHR_dynamic_rendering"]
    ));
}

#[test]
fn create_info_asks_for_one_queue_and_the_features() {
    assert_eq!(
        DeviceCreateInfo::new(3),
        DeviceCreateInfo {
            queue_create_info: DeviceQueueCreateInfo {
                queue_family_index: 3,
                queue_count: 1,
                priority_percent: 100,
            },
            swapchain_extension: true,
            dynamic_rendering_extension: true,
            features: DeviceFeatures {
                sampler_anisotropy: true,
                fill_mode_non_solid: true,
                sample_rate_shading: true,
                dynamic_rendering: true,
            },
        }
    );
}

#[test]
fn create_info_names_its_extensions() {
    let create_info = DeviceCreateInfo::new(0);
    assert_eq!(
        create_info.enabled_extensions(),
        vec![DeviceExtension::Swapchain, DeviceExtension::DynamicRendering]
    );
    assert_eq!(
        create_info.enabled_extension_names(),
        vec!["VK_KHR_swapchain", "VK_KHR_dynamic_rendering"]
    );
    let mut bare = create_info;
    bare.swapchain_extension = false;
    assert_eq!(bare.enabled_extension_names(), vec!["VK_KHR_dynamic_rendering"]);
    bare.dynamic_rendering_extension = false;
    assert!(bare.enabled_extension_names().is_empty());
    assert!(bare.enabled_extensions().is_empty());
}

#[test]
fn device_needs_a_graphics_queue_family() {
    let handle = vk::Device::from_raw(0xd0);
    let queue = vk::Queue::from_raw(0xe0);
    let graphics = family(1, vk::QueueFlags::GRAPHICS | vk::QueueFlags::TRANSFER);
    assert_eq!(
        Device::new(handle, queue, graphics),
        Ok(Device { handle, queue, queue_family: graphics })
    );
    let compute = family(0, vk::QueueFlags::COMPUTE);
    assert_eq!(Device::new(handle, queue, compute), Err(Error::NoGraphicsQueueFamily));
}

#[test]
fn setup_starts_by_listing_the_extensions() {
    let adapter = usual_adapter();
    let (setup, action) = DeviceSetup::begin(&adapter);
    assert_eq!(
        setup,
        DeviceSetup::AwaitExtensions {
            physical_device: adapter.handle,
            queue_family: adapter.queue_families[1],
        }
    );
    assert_eq!(action, DeviceAction::EnumerateExtensions { physical_device: adapter.handle });
}

#[test]
fn setup_without_graphics_family_fails_at_once() {
    let adapter = adapter(&[vk::QueueFlags::COMPUTE, vk::QueueFlags::TRANSFER]);
    assert_eq!(
        DeviceSetup::begin(&adapter),
        (DeviceSetup::Finished, DeviceAction::Fail(Error::NoGraphicsQueueFamily))
    );
    let bare = self::adapter(&[]);
    assert_eq!(
        DeviceSetup::begin(&bare),
        (DeviceSetup::Finished, DeviceAction::Fail(Error::NoGraphicsQueueFamily))
    );
}

#[test]
fn setup_creates_the_device_on_the_chosen_family() {
    let adapter = usual_adapter();
    let (setup, _) = DeviceSetup::begin(&adapter);
    let reply = DeviceReply::Extensions(Ok(extensions(&[
        "VK_KHR_maintenance1",
        "VK_KHR_dynamic_rendering",
        "VK_KHR_swapchain",
    ])));
    let (setup, action) = setup.advance(reply);
    assert_eq!(setup, DeviceSetup::AwaitDevice { queue_family: adapter.queue_families[1] });
    assert_eq!(
        action,
        DeviceAction::CreateDevice {
            physical_device: adapter.handle,
            create_info: DeviceCreateInfo::new(1),
        }
    );
}

#[test]
fn setup_fails_without_swapchain_extension() {
    let (setup, _) = DeviceSetup::begin(&usual_adapter());
    let reply = DeviceReply::Extensions(Ok(extensions(&[
        "VK_KHR_maintenance1",
        "VK_KHR_dynamic_rendering",
    ])));
    assert_eq!(
        setup.advance(reply),
        (
            DeviceSetup::Finished,
            DeviceAction::Fail(Error::MissingExtension(DeviceExtension::Swapchain))
        )
    );
}

#[test]
fn setup_fails_without_dynamic_rendering_extension() {
    let (setup, _) = DeviceSetup::begin(&usual_adapter());
    let reply = DeviceReply::Extensions(Ok(extensions(&["VK_KHR_swapchain", "VK_KHR_maintenance1"])));
    assert_eq!(
        setup.advance(reply),
        (
            DeviceSetup::Finished,
            DeviceAction::Fail(Error::MissingExtension(DeviceExtension::DynamicRendering))
        )
    );
}

#[test]
fn setup_without_any_extension_names_the_swapchain_extension() {
    let (setup, _) = DeviceSetup::begin(&usual_adapter());
    assert_eq!(
        setup.advance(DeviceReply::Extensions(Ok(Vec::new()))),
        (
            DeviceSetup::Finished,
            DeviceAction::Fail(Error::MissingExtension(DeviceExtension::Swapchain))
        )
    );
}

#[test]
fn setup_fails_when_the_extensions_cannot_be_listed() {
    let (setup, _) = DeviceSetup::begin(&usual_adapter());
    assert_eq!(
        setup.advance(DeviceReply::Extensions(Err(vk::Result::ERROR_OUT_OF_HOST_MEMORY))),
        (
            DeviceSetup::Finished,
            DeviceAction::Fail(Error::Driver(vk::Result::ERROR_OUT_OF_HOST_MEMORY))
        )
    );
}

#[test]
fn setup_takes_queue_zero_of_the_chosen_family() {
    let handle = vk::Device::from_raw(0xd0);
    let (setup, action) = awaiting_device().advance(DeviceReply::Device(Ok(handle)));
    assert_eq!(
        setup,
        DeviceSetup::AwaitQueue { handle, queue_family: usual_adapter().queue_families[1] }
    );
    assert_eq!(
        action,
        DeviceAction::GetQueue { device: handle, queue_family_index: 1, queue_index: 0 }
    );
}

#[test]
fn setup_fails_when_the_driver_refuses_the_device() {
    assert_eq!(
        awaiting_device().advance(DeviceReply::Device(Err(vk::Result::ERROR_FEATURE_NOT_PRESENT))),
        (
            DeviceSetup::Finished,
            DeviceAction::Fail(Error::Driver(vk::Result::ERROR_FEATURE_NOT_PRESENT))
        )
    );
}

#[test]
fn setup_hands_out_the_device_with_its_queue() {
    let handle = vk::Device::from_raw(0xd0);
    let queue = vk::Queue::from_raw(0xe0);
    let (setup, _) = awaiting_device().advance(DeviceReply::Device(Ok(handle)));
    let (setup, action) = setup.advance(DeviceReply::Queue(queue));
    assert_eq!(setup, DeviceSetup::Finished);
    assert_eq!(
        action,
        DeviceAction::Done(Device {
            handle,
            queue,
            queue_family: usual_adapter().queue_families[1],
        })
    );
}

#[test]
fn setup_refuses_a_family_without_graphics_to_the_end() {
    let handle = vk::Device::from_raw(0xd0);
    let setup = DeviceSetup::AwaitQueue { handle, queue_family: family(0, vk::QueueFlags::COMPUTE) };
    assert_eq!(
        setup.advance(DeviceReply::Queue(vk::Queue::from_raw(0xe0))),
        (DeviceSetup::Finished, DeviceAction::Fail(Error::NoGraphicsQueueFamily))
    );
}

#[test]
fn device_setup_ignores_answers_that_it_does_not_wait_for() {
    let (setup, _) = DeviceSetup::begin(&usual_adapter());
    let (next, action) = setup.advance(DeviceReply::Queue(vk::Queue::from_raw(1)));
    assert_eq!(next, setup);
    assert_eq!(action, DeviceAction::Idle);
    let (next, action) = setup.advance(DeviceReply::Device(Err(vk::Result::ERROR_DEVICE_LOST)));
    assert_eq!(next, setup);
    assert_eq!(action, DeviceAction::Idle);

    let waiting = awaiting_device();
    let (next, action) = waiting.advance(DeviceReply::Extensions(Ok(Vec::new())));
    assert_eq!(next, waiting);
    assert_eq!(action, DeviceAction::Idle);
}

#[test]
fn device_setup_that_is_over_stays_over() {
    let replies = vec![
        DeviceReply::Extensions(Ok(extensions(&["VK_KHR_swapchain", "VK_KHR_dynamic_rendering"]))),
        DeviceReply::Extensions(Err(vk::Result::ERROR_DEVICE_LOST)),
        DeviceReply::Device(Ok(vk::Device::from_raw(1))),
        DeviceReply::Device(Err(vk::Result::ERROR_DEVICE_LOST)),
        DeviceReply::Queue(vk::Queue::from_raw(1)),
    ];
    for reply in replies {
        assert_eq!(
            DeviceSetup::Finished.advance(reply),
            (DeviceSetup::Finished, DeviceAction::Idle)
        );
    }
}
