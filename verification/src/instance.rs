//! The context: the parameters from which the instance is made, the live
//! instance, and the adapters that it reports.

use crate::binding::{
    api_version_1_2, make_api_version, packed_version, surface_extension_name,
    win32_surface_extension_name,
};
use crate::error::Error;
use crate::name::holds_name;
use crate::physical_device::{is_snapshot_of, PhysicalDevice, PhysicalDeviceReport};
use vstd::prelude::*;

verus! {

/// The name under which the application is declared.
pub const APP_NAME: &'static str = "vulkan";

/// The name under which the engine is declared.
pub const ENGINE_NAME: &'static str = "vulkan";

/// The name of the layer that checks the use of the API.
pub const VALIDATION_LAYER: &'static str = "VK_LAYER_KHRONOS_validation";

/// The operating system that the program is built for.
#[derive(Debug, Clone, Copy, PartialEq, Eq)]
pub enum HostPlatform {
    Windows,
    Other,
}

/// What the application declares of itself.
#[derive(Debug, Clone, Copy, PartialEq, Eq)]
pub struct ApplicationInfo {
    pub application_version: u32,
    pub engine_version: u32,
    pub api_version: u32,
}

/// The parameters from which the driver makes the instance.
#[derive(Debug, Clone, Copy, PartialEq, Eq)]
pub struct InstanceCreateInfo {
    pub application_info: ApplicationInfo,
    /// Whether the validation layer is enabled.
    pub validation_layer: bool,
    /// Whether the surface extension is enabled.
    pub surface_extension: bool,
    /// Whether the Win32 surface extension is enabled.
    pub win32_surface_extension: bool,
}

impl InstanceCreateInfo {
    /// The parameters of the instance: application and engine in version
    /// 1.0.0, the API in version 1.2; the validation layer in debug builds
    /// and in no other; the surface extension always, and the Win32 surface
    /// extension on Windows.
    pub open spec fn spec_new(debug_build: bool, platform: HostPlatform) -> InstanceCreateInfo {
        InstanceCreateInfo {
            application_info: ApplicationInfo {
                application_version: packed_version(0, 1, 0, 0),
                engine_version: packed_version(0, 1, 0, 0),
                api_version: packed_version(0, 1, 2, 0),
            },
            validation_layer: debug_build,
            surface_extension: true,
            win32_surface_extension: platform == HostPlatform::Windows,
        }
    }

    /// The parameters of the instance for a build of the given kind on the
    /// given platform.
    pub fn new(debug_build: bool, platform: HostPlatform) -> (create_info: InstanceCreateInfo)
        ensures
            create_info == InstanceCreateInfo::spec_new(debug_build, platform),
    {
        InstanceCreateInfo {
            application_info: ApplicationInfo {
                application_version: make_api_version(0, 1, 0, 0),
                engine_version: make_api_version(0, 1, 0, 0),
                api_version: api_version_1_2(),
            },
            validation_layer: debug_build,
            surface_extension: true,
            win32_surface_extension: match platform {
                HostPlatform::Windows => true,
                HostPlatform::Other => false,
            },
        }
    }

    /// The name that the application declares.
    pub fn application_name(&self) -> (name: &'static str)
        ensures
            name@ == APP_NAME@,
    {
        APP_NAME
    }

    /// The name that the application declares of its engine.
    pub fn engine_name(&self) -> (name: &'static str)
        ensures
            name@ == ENGINE_NAME@,
    {
        ENGINE_NAME
    }

    /// The names of the layers that the instance enables.
    pub open spec fn spec_enabled_layer_names(self) -> Seq<Seq<char>> {
        if self.validation_layer {
            seq![VALIDATION_LAYER@]
        } else {
            Seq::<Seq<char>>::empty()
        }
    }

    /// The names of the extensions that the instance enables, in the order
    /// in which they are handed to the driver.
    pub open spec fn spec_enabled_extension_names(self) -> Seq<Seq<char>> {
        let surface = if self.surface_extension {
            seq!["VK_KHR_surface"@]
        } else {
            Seq::<Seq<char>>::empty()
        };
        let win32_surface = if self.win32_surface_extension {
            seq!["VK_KHR_win32_surface"@]
        } else {
            Seq::<Seq<char>>::empty()
        };
        surface + win32_surface
    }

    /// The names of the layers that the instance enables.
    pub fn enabled_layer_names(&self) -> (names: Vec<&'static str>)
        ensures
            names@.map_values(|name: &'static str| name@) == self.spec_enabled_layer_names(),
    {
        let mut names: Vec<&'static str> = Vec::new();
        if self.validation_layer {
            names.push(VALIDATION_LAYER);
        }
        assert(names@.map_values(|name: &'static str| name@) =~= self.spec_enabled_layer_names());
        names
    }

    /// The names of the extensions that the instance enables.
    pub fn enabled_extension_names(&self) -> (names: Vec<&'static str>)
        ensures
            names@.map_values(|name: &'static str| name@) == self.spec_enabled_extension_names(),
    {
        let mut names: Vec<&'static str> = Vec::new();
        if self.surface_extension {
            names.push(surface_extension_name());
        }
        if self.win32_surface_extension {
            names.push(win32_surface_extension_name());
        }
        assert(names@.map_values(|name: &'static str| name@)
            =~= self.spec_enabled_extension_names());
        names
    }
}

/// How the making of the instance went.
#[derive(Debug, Clone, Copy, PartialEq, Eq)]
pub enum InstanceReply {
    /// The entry point of the API could not be loaded; the driver was never
    /// asked.
    EntryUnavailable,
    /// The driver refused, with this code.
    Refused(ash::vk::Result),
    /// The driver made the instance.
    Created(ash::vk::Instance),
}

/// A live instance, with the parameters that it was made from.
#[derive(Debug, Clone, Copy, PartialEq, Eq)]
pub struct Instance {
    pub handle: ash::vk::Instance,
    pub create_info: InstanceCreateInfo,
}

impl Instance {
    /// The instance that the driver made from `create_info`, or the error
    /// that stands for what happened instead.
    pub fn new(
        create_info: InstanceCreateInfo,
        reply: InstanceReply,
    ) -> (instance: Result<Instance, Error>)
        ensures
            instance == match reply {
                InstanceReply::EntryUnavailable => Err::<Instance, Error>(Error::EntryUnavailable),
                InstanceReply::Refused(code) => Err::<Instance, Error>(Error::Driver(code)),
                InstanceReply::Created(handle) => Ok(Instance { handle, create_info }),
            },
    {
        match reply {
            InstanceReply::EntryUnavailable => Err(Error::EntryUnavailable),
            InstanceReply::Refused(code) => Err(Error::Driver(code)),
            InstanceReply::Created(handle) => Ok(Instance { handle, create_info }),
        }
    }

    /// The adapters of the instance, one snapshot for each adapter that the
    /// host reported, in the same order; or the driver's error, where the
    /// enumeration failed.
    ///
    /// No name holds U+0000, and a name is not empty where the adapter's
    /// name buffer holds one.
    pub fn physical_devices(
        &self,
        reported: Result<Vec<PhysicalDeviceReport>, ash::vk::Result>,
    ) -> (devices: Result<Vec<PhysicalDevice>, Error>)
        ensures
            match reported {
                Err(code) => devices == Err::<Vec<PhysicalDevice>, Error>(Error::Driver(code)),
                Ok(reports) => {
                    &&& devices matches Ok(snapshots)
                    &&& snapshots@.len() == reports@.len()
                    &&& forall|i: int|
                        0 <= i < snapshots@.len() ==> {
                            &&& is_snapshot_of(#[trigger] snapshots@[i], reports@[i])
                            &&& snapshots@[i].wf()
                            &&& !snapshots@[i].name@.contains('\0')
                            &&& holds_name(reports@[i].device_name@) ==> snapshots@[i].name@.len()
                                > 0
                        }
                },
            },
    {
        match reported {
            Err(code) => Err(Error::Driver(code)),
            Ok(reports) => {
                let mut snapshots: Vec<PhysicalDevice> = Vec::new();
                let mut i: usize = 0;
                while i < reports.len()
                    invariant
                        i <= reports@.len(),
                        snapshots@.len() == i,
                        forall|j: int|
                            0 <= j < i ==> {
                                &&& is_snapshot_of(#[trigger] snapshots@[j], reports@[j])
                                &&& snapshots@[j].wf()
                                &&& !snapshots@[j].name@.contains('\0')
                                &&& holds_name(reports@[j].device_name@)
                                    ==> snapshots@[j].name@.len() > 0
                            },
                    decreases reports@.len() - i,
                {
                    snapshots.push(PhysicalDevice::new(&reports[i]));
                    i += 1;
                }
                Ok(snapshots)
            },
        }
    }
}

} // verus!
