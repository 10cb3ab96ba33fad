//! The names that a program which brings up a window needs.

pub use ash::vk;

pub use crate::device::{Device, DeviceAction, DeviceReply, DeviceSetup};
pub use crate::error::{Error, ErrorKind};
pub use crate::instance::{Instance, InstanceCreateInfo, InstanceReply};
pub use crate::physical_device::{PhysicalDevice, QueueFamily};
pub use crate::surface::Surface;
pub use crate::swapchain::{Swapchain, SwapchainAction, SwapchainReply, SwapchainSetup};
