//! The presentation target: a surface made from a native window.

use crate::error::Error;
use vstd::prelude::*;

verus! {

/// What the library reads of a native window handle. The program makes it
/// of the handle that its windowing system hands out.
#[derive(Debug, Clone, Copy, PartialEq, Eq)]
pub enum WindowHandle {
    /// A Win32 window: the addresses of its module instance and of the
    /// window itself.
    Win32 { hinstance: usize, hwnd: usize },
    /// A window of any other windowing system.
    Unsupported,
}

/// The parameters from which the driver makes a surface for a Win32 window.
#[derive(Debug, Clone, Copy, PartialEq, Eq)]
pub struct Win32SurfaceCreateInfo {
    pub hinstance: usize,
    pub hwnd: usize,
}

impl Win32SurfaceCreateInfo {
    /// The parameters for `window`. Only Win32 windows have a surface path;
    /// any other kind is refused.
    pub fn new(window: WindowHandle) -> (create_info: Result<Win32SurfaceCreateInfo, Error>)
        ensures
            create_info == match window {
                WindowHandle::Win32 { hinstance, hwnd } => Ok(
                    Win32SurfaceCreateInfo { hinstance, hwnd },
                ),
                WindowHandle::Unsupported => Err::<Win32SurfaceCreateInfo, Error>(
                    Error::UnsupportedPlatform,
                ),
            },
    {
        match window {
            WindowHandle::Win32 { hinstance, hwnd } => Ok(
                Win32SurfaceCreateInfo { hinstance, hwnd },
            ),
            WindowHandle::Unsupported => Err(Error::UnsupportedPlatform),
        }
    }
}

/// A live surface. It belongs to the window and to the instance that it was
/// made from.
#[derive(Debug, Clone, Copy, PartialEq, Eq)]
pub struct Surface {
    pub handle: ash::vk::SurfaceKHR,
}

impl Surface {
    /// The parameters for a surface on `window`: those of the Win32 path
    /// for a Win32 window, with the window's own two addresses. A window of
    /// any other kind has no surface path and is refused.
    pub fn create_info(window: WindowHandle) -> (create_info: Result<Win32SurfaceCreateInfo, Error>)
        ensures
            create_info == match window {
                WindowHandle::Win32 { hinstance, hwnd } => Ok(
                    Win32SurfaceCreateInfo { hinstance, hwnd },
                ),
                WindowHandle::Unsupported => Err::<Win32SurfaceCreateInfo, Error>(
                    Error::UnsupportedPlatform,
                ),
            },
    {
        Win32SurfaceCreateInfo::new(window)
    }

    /// The surface that the driver made, or the error that it reported.
    pub fn new(
        created: Result<ash::vk::SurfaceKHR, ash::vk::Result>,
    ) -> (surface: Result<Surface, Error>)
        ensures
            surface == match created {
                Ok(handle) => Ok(Surface { handle }),
                Err(code) => Err::<Surface, Error>(Error::Driver(code)),
            },
    {
        match created {
            Ok(handle) => Ok(Surface { handle }),
            Err(code) => Err(Error::Driver(code)),
        }
    }
}

} // verus!
