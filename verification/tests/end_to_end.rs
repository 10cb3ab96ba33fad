use ash::vk;
use ash::vk::Handle;
use vulkan::device::{Device, DeviceAction, DeviceReply, DeviceSetup, ExtensionProperties};
use vulkan::error::{DeviceExtension, Error, ErrorKind};
use vulkan::instance::{HostPlatform, Instance, InstanceCreateInfo, InstanceReply};
use vulkan::physical_device::{
    select_discrete_gpu, Extent3D, PhysicalDevice, PhysicalDeviceProperties,
    PhysicalDeviceReport, QueueFamilyProperties,
};
use vulkan::surface::{Surface, WindowHandle};
use vulkan::swapchain::{
    Extent2D, SurfaceCapabilities, SurfaceFormat, Swapchain, SwapchainAction, SwapchainReply,
    SwapchainSetup,
};

/// A host that answers from what it holds, as a driver would.
struct Host {
    adapters: Vec<PhysicalDeviceReport>,
    extensions: Vec<&'static str>,
    capabilities: SurfaceCapabilities,
    present_modes: Vec<vk::PresentModeKHR>,
    formats: Vec<vk::SurfaceFormatKHR>,
    image_count: u64,
}

fn report(name: &str, device_type: vk::PhysicalDeviceType, flags: &[vk::QueueFlags]) -> PhysicalDeviceReport {
    let mut device_name = name.as_bytes().to_vec();
    device_name.resize(256, 0);
    PhysicalDeviceReport {
        handle: vk::PhysicalDevice::from_raw(0xad),
        properties: PhysicalDeviceProperties {
            api_version: vk::API_VERSION_1_3,
            driver_version: 1,
            vendor_id: 0x10de,
            device_id: 0x2206,
            device_type: device_type.as_raw(),
        },
        device_name,
        queue_families: flags
            .iter()
            .map(|flags| QueueFamilyProperties {
                queue_flags: flags.as_raw(),
                queue_count: 16,
                timestamp_valid_bits: 64,
                min_image_transfer_granularity: Extent3D { width: 1, height: 1, depth: 1 },
            })
            .collect(),
    }
}

fn usual_host() -> Host {
    Host {
        adapters: vec![report(
            "NVIDIA GeForce RTX 3080",
            vk::PhysicalDeviceType::DISCRETE_GPU,
            &[vk::QueueFlags::GRAPHICS | vk::QueueFlags::COMPUTE | vk::QueueFlags::TRANSFER],
        )],
        extensions: vec!["VK_KHR_maintenance1", "VK_KHR_swapchain", "VK_KHR_dynamic_rendering"],
        capabilities: SurfaceCapabilities {
            min_image_count: 3,
            max_image_count: 8,
            current_extent: Extent2D { width: 1920, height: 1080 },
            min_image_extent: Extent2D { width: 1, height: 1 },
            max_image_extent: Extent2D { width: 16384, height: 16384 },
            max_image_array_layers: 1,
            supported_transforms: 0x1,
            current_transform: 0x1,
            supported_composite_alpha: 0x1,
            supported_usage_flags: 0x9f,
        },
        present_modes: vec![vk::PresentModeKHR::FIFO, vk::PresentModeKHR::MAILBOX],
        formats: vec![
            vk::SurfaceFormatKHR {
                format: vk::Format::B8G8R8A8_UNORM,
                color_space: vk::ColorSpaceKHR::SRGB_NONLINEAR,
            },
            vk::SurfaceFormatKHR {
                format: vk::Format::B8G8R8A8_SRGB,
                color_space: vk::ColorSpaceKHR::SRGB_NONLINEAR,
            },
        ],
        image_count: 3,
    }
}

fn create_instance(debug_build: bool) -> Result<Instance, Error> {
    let create_info = InstanceCreateInfo::new(debug_build, HostPlatform::Windows);
    Instance::new(create_info, InstanceReply::Created(vk::Instance::from_raw(0x1000)))
}

fn create_surface(window: WindowHandle) -> Result<Surface, Error> {
    Surface::create_info(window)?;
    Surface::new(Ok(vk::SurfaceKHR::from_raw(0x5a)))
}

fn create_device(host: &Host, physical_device: &PhysicalDevice) -> Result<Device, Error> {
    let (mut setup, mut action) = DeviceSetup::begin(physical_device);
    loop {
        let reply = match action {
            DeviceAction::EnumerateExtensions { physical_device: adapter } => {
                assert_eq!(adapter, physical_device.handle);
                let reported = host
                    .extensions
                    .iter()
                    .map(|name| {
                        let mut extension_name = name.as_bytes().to_vec();
                        extension_name.resize(256, 0);
                        ExtensionProperties { extension_name, spec_version: 1 }
                    })
                    .collect();
                DeviceReply::Extensions(Ok(reported))
            }
            DeviceAction::CreateDevice { physical_device: adapter, create_info } => {
                assert_eq!(adapter, physical_device.handle);
                for name in create_info.enabled_extension_names() {
                    assert!(host.extensions.contains(&name));
                }
                DeviceReply::Device(Ok(vk::Device::from_raw(0xd0)))
            }
            DeviceAction::GetQueue { device, queue_index, .. } => {
                assert_eq!(device, vk::Device::from_raw(0xd0));
                assert_eq!(queue_index, 0);
                DeviceReply::Queue(vk::Queue::from_raw(0xe0))
            }
            DeviceAction::Done(device) => return Ok(device),
            DeviceAction::Fail(error) => return Err(error),
            DeviceAction::Idle => panic!("the setup asked for nothing"),
        };
        let step = setup.advance(reply);
        setup = step.0;
        action = step.1;
    }
}

fn create_swapchain(
    host: &Host,
    surface: &Surface,
    physical_device: &PhysicalDevice,
    device: &Device,
) -> Result<Swapchain, Error> {
    let (mut setup, mut action) = SwapchainSetup::begin(surface, physical_device, device);
    let mut views = 0;
    loop {
        let reply = match action {
            SwapchainAction::QueryCapabilities { .. } => {
                SwapchainReply::Capabilities(Ok(host.capabilities))
            }
            SwapchainAction::QueryPresentModes { .. } => SwapchainReply::PresentModes(Ok(host
                .present_modes
                .iter()
                .map(|mode| mode.as_raw())
                .collect())),
            SwapchainAction::QueryFormats { .. } => SwapchainReply::Formats(Ok(host
                .formats
                .iter()
                .map(|format| SurfaceFormat {
                    format: format.format.as_raw(),
                    color_space: format.color_space.as_raw(),
                })
                .collect())),
            SwapchainAction::CreateSwapchain { create_info, .. } => {
                assert_eq!(create_info.surface, surface.handle);
                assert_eq!(create_info.min_image_count, host.capabilities.min_image_count);
                SwapchainReply::Swapchain(Ok(vk::SwapchainKHR::from_raw(0xc4)))
            }
            SwapchainAction::GetImages { swapchain, .. } => {
                assert_eq!(swapchain, vk::SwapchainKHR::from_raw(0xc4));
                SwapchainReply::Images(Ok((0..host.image_count)
                    .map(|i| vk::Image::from_raw(0x100 + i))
                    .collect()))
            }
            SwapchainAction::CreateImageView { .. } => {
                views += 1;
                SwapchainReply::ImageView(Ok(vk::ImageView::from_raw(0x200 + views)))
            }
            SwapchainAction::Done(swapchain) => return Ok(swapchain),
            SwapchainAction::Fail(error) => return Err(error),
            SwapchainAction::Idle => panic!("the setup asked for nothing"),
        };
        let step = setup.advance(reply);
        setup = step.0;
        action = step.1;
    }
}

fn bring_up(host: &Host, window: WindowHandle) -> Result<(Device, Surface, Swapchain), Error> {
    let instance = create_instance(true)?;
    let surface = create_surface(window)?;
    let adapters = instance.physical_devices(Ok(host.adapters.clone()))?;
    let chosen = select_discrete_gpu(&adapters)?;
    let device = create_device(host, &adapters[chosen])?;
    let swapchain = create_swapchain(host, &surface, &adapters[chosen], &device)?;
    Ok((device, surface, swapchain))
}

fn win32_window() -> WindowHandle {
    WindowHandle::Win32 { hinstance: 0x40_0000, hwnd: 0x1_0a2c }
}

#[test]
fn debug_instance_enables_the_validation_layer() {
    let instance = create_instance(true).unwrap();
    assert!(instance.create_info.validation_layer);
    assert_eq!(
        instance.create_info.enabled_layer_names(),
        vec!["VK_LAYER_KHRONOS_validation"]
    );
    let release = create_instance(false).unwrap();
    assert!(release.create_info.enabled_layer_names().is_empty());
}

#[test]
fn usual_host_comes_up() {
    let host = usual_host();
    let (device, surface, swapchain) = bring_up(&host, win32_window()).unwrap();
    assert_eq!(device.handle, vk::Device::from_raw(0xd0));
    assert_eq!(device.queue, vk::Queue::from_raw(0xe0));
    assert_eq!(device.queue_family.index, 0);
    assert!(device.queue_family.supports_graphics());
    assert_eq!(surface.handle, vk::SurfaceKHR::from_raw(0x5a));
    assert_eq!(swapchain.handle, vk::SwapchainKHR::from_raw(0xc4));
    assert_eq!(swapchain.image_views.len(), host.capabilities.min_image_count as usize);
    assert_eq!(swapchain.image_views.len(), 3);
}

#[test]
fn host_without_dynamic_rendering_gets_no_device() {
    let mut host = usual_host();
    host.extensions = vec!["VK_KHR_maintenance1", "VK_KHR_swapchain"];
    let error = bring_up(&host, win32_window()).unwrap_err();
    assert_eq!(error, Error::MissingExtension(DeviceExtension::DynamicRendering));
    assert_eq!(error.kind(), ErrorKind::Negotiation);
}

#[test]
fn host_without_swapchain_extension_gets_no_device() {
    let mut host = usual_host();
    host.extensions = vec!["VK_KHR_maintenance1", "VK_KHR_dynamic_rendering"];
    assert_eq!(
        bring_up(&host, win32_window()).unwrap_err(),
        Error::MissingExtension(DeviceExtension::Swapchain)
    );
}

#[test]
fn host_with_integrated_adapters_only_reports_an_error() {
    let mut host = usual_host();
    host.adapters = vec![
        report(
            "Intel(R) UHD Graphics 630",
            vk::PhysicalDeviceType::INTEGRATED_GPU,
            &[vk::QueueFlags::GRAPHICS],
        ),
        report("llvmpipe", vk::PhysicalDeviceType::CPU, &[vk::QueueFlags::GRAPHICS]),
    ];
    let error = bring_up(&host, win32_window()).unwrap_err();
    assert_eq!(error, Error::NoMatchingAdapter);
    assert_eq!(error.kind(), ErrorKind::Environment);
}

#[test]
fn host_without_graphics_queue_gets_no_device() {
    let mut host = usual_host();
    host.adapters = vec![report(
        "compute card",
        vk::PhysicalDeviceType::DISCRETE_GPU,
        &[vk::QueueFlags::COMPUTE, vk::QueueFlags::TRANSFER],
    )];
    assert_eq!(bring_up(&host, win32_window()).unwrap_err(), Error::NoGraphicsQueueFamily);
}

#[test]
fn host_without_the_required_format_gets_no_swapchain() {
    let mut host = usual_host();
    host.formats = vec![vk::SurfaceFormatKHR {
        format: vk::Format::B8G8R8A8_UNORM,
        color_space: vk::ColorSpaceKHR::SRGB_NONLINEAR,
    }];
    assert_eq!(bring_up(&host, win32_window()).unwrap_err(), Error::NoMatchingSurfaceFormat);
}

#[test]
fn window_of_another_platform_gets_no_surface() {
    let host = usual_host();
    let error = bring_up(&host, WindowHandle::Unsupported).unwrap_err();
    assert_eq!(error, Error::UnsupportedPlatform);
    assert_eq!(error.kind(), ErrorKind::Platform);
}

#[test]
fn views_follow_the_images_that_the_chain_reports() {
    for count in [2u64, 3, 4] {
        let mut host = usual_host();
        host.image_count = count;
        host.capabilities.min_image_count = count as u32;
        let (_, _, swapchain) = bring_up(&host, win32_window()).unwrap();
        assert_eq!(swapchain.image_views.len() as u64, count);
    }
}
