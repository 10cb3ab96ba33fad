//! The decisions of bringing up Vulkan for a window, verified.
//!
//! Five things are made in turn, each from the ones before: the instance,
//! the surface of the window, the choice of an adapter, the device with its
//! graphics queue, and the swapchain with one view for each of its images.
//! What this library holds is every decision on the way: which parameters
//! the driver is handed, which adapter, queue family, present mode and
//! surface format are chosen, in which order the driver is asked, and which
//! error ends a construction. The calls into the driver itself are left to
//! the program: it does what it is told and hands the answer back.
//!
//! - [`instance`], [`surface`]: the parameters are computed first, and the
//!   live value is made of the driver's answer.
//! - [`physical_device`]: the snapshots of the adapters, and the choice.
//! - [`device`], [`swapchain`]: a construction in several steps, as a state
//!   that is advanced with each answer of the driver.
//! - [`name`]: the names that the driver reports in fixed-size buffers.
//! - [`binding`]: what is taken from `ash` on trust.

pub mod binding;
pub mod device;
pub mod error;
pub mod instance;
pub mod name;
pub mod physical_device;
pub mod prelude;
pub mod surface;
pub mod swapchain;
