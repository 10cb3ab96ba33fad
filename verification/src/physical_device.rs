//! Adapters as the host reports them: a snapshot of each one's name, type and
//! queue families, and the choice among them.

use crate::binding::{
    flags_contain, physical_device_type_discrete_gpu, queue_flags_contains, queue_flags_graphics,
    utf8_lossy, PHYSICAL_DEVICE_TYPE_DISCRETE_GPU, QUEUE_GRAPHICS_BIT,
};
use crate::error::Error;
use crate::name::{decode_name, holds_name, name_bytes};
use vstd::prelude::*;
use vstd::utf8::{decode_utf8, valid_utf8};

verus! {

#[derive(Debug, Clone, Copy, PartialEq, Eq)]
pub struct Extent3D {
    pub width: u32,
    pub height: u32,
    pub depth: u32,
}

/// What the driver reports of one queue family.
#[derive(Debug, Clone, Copy, PartialEq, Eq)]
pub struct QueueFamilyProperties {
    /// The capabilities of the family's queues, one bit each.
    pub queue_flags: u32,
    pub queue_count: u32,
    pub timestamp_valid_bits: u32,
    pub min_image_transfer_granularity: Extent3D,
}

/// A queue family together with its position in the adapter's list.
#[derive(Debug, Clone, Copy, PartialEq, Eq)]
pub struct QueueFamily {
    pub index: u32,
    pub properties: QueueFamilyProperties,
}

impl QueueFamily {
    /// Whether the family's queues take graphics commands.
    pub open spec fn spec_supports_graphics(self) -> bool {
        flags_contain(self.properties.queue_flags, QUEUE_GRAPHICS_BIT)
    }

    /// Whether the family's queues take graphics commands.
    pub fn supports_graphics(&self) -> (supported: bool)
        ensures
            supported == self.spec_supports_graphics(),
    {
        queue_flags_contains(self.properties.queue_flags, queue_flags_graphics())
    }
}

/// What the driver reports of an adapter, but for its name and its limits.
#[derive(Debug, Clone, Copy, PartialEq, Eq)]
pub struct PhysicalDeviceProperties {
    pub api_version: u32,
    pub driver_version: u32,
    pub vendor_id: u32,
    pub device_id: u32,
    /// The kind of adapter, as the API numbers it.
    pub device_type: i32,
}

/// A snapshot of one adapter. It owns nothing of the adapter and can be
/// taken again at any time.
#[derive(Debug, Clone, PartialEq, Eq)]
pub struct PhysicalDevice {
    pub handle: ash::vk::PhysicalDevice,
    pub name: String,
    pub properties: PhysicalDeviceProperties,
    pub queue_families: Vec<QueueFamily>,
}

/// What the host reports of one adapter.
#[derive(Debug, Clone, PartialEq, Eq)]
pub struct PhysicalDeviceReport {
    pub handle: ash::vk::PhysicalDevice,
    pub properties: PhysicalDeviceProperties,
    /// The buffer that holds the adapter's name, which ends at the first
    /// zero byte.
    pub device_name: Vec<u8>,
    /// The adapter's queue families, in the driver's order.
    pub queue_families: Vec<QueueFamilyProperties>,
}

/// The number of queue families that a 32-bit index can tell apart, out of
/// `count`.
pub open spec fn indexable(count: nat) -> nat {
    if count <= 0x1_0000_0000 {
        count
    } else {
        0x1_0000_0000
    }
}

/// The queue families of `reported`, each together with its position.
pub open spec fn indexed_families(reported: Seq<QueueFamilyProperties>) -> Seq<QueueFamily> {
    Seq::new(
        indexable(reported.len()),
        |i: int| QueueFamily { index: i as u32, properties: reported[i] },
    )
}

/// Whether `device` is the snapshot of the adapter that `report` describes:
/// the same handle and properties; the name decoded from the name buffer,
/// which for a name in valid UTF-8 is the text that it encodes; and the
/// queue families numbered from zero in the driver's order.
pub open spec fn is_snapshot_of(device: PhysicalDevice, report: PhysicalDeviceReport) -> bool {
    &&& device.handle == report.handle
    &&& device.properties == report.properties
    &&& device.name@ == utf8_lossy(name_bytes(report.device_name@))
    &&& valid_utf8(name_bytes(report.device_name@)) ==> device.name@ == decode_utf8(
        name_bytes(report.device_name@),
    )
    &&& device.queue_families@ == indexed_families(report.queue_families@)
}

/// Numbers the queue families from zero. Families that a 32-bit index
/// cannot reach are left out.
pub fn index_queue_families(reported: &[QueueFamilyProperties]) -> (families: Vec<QueueFamily>)
    ensures
        families@ == indexed_families(reported@),
{
    let mut families: Vec<QueueFamily> = Vec::new();
    let mut i: usize = 0;
    while i < reported.len() && i <= 0xffff_ffff
        invariant
            i <= reported@.len(),
            i <= 0x1_0000_0000,
            families@.len() == i,
            forall|j: int|
                0 <= j < i ==> families@[j] == (QueueFamily {
                    index: j as u32,
                    properties: reported@[j],
                }),
        decreases reported@.len() - i,
    {
        families.push(QueueFamily { index: i as u32, properties: reported[i] });
        i += 1;
    }
    assert(families@ =~= indexed_families(reported@));
    families
}

impl PhysicalDevice {
    /// The snapshot of the adapter that `report` describes. Its name holds
    /// no U+0000, and is not empty where the name buffer holds a name.
    pub fn new(report: &PhysicalDeviceReport) -> (device: PhysicalDevice)
        ensures
            is_snapshot_of(device, *report),
            device.wf(),
            !device.name@.contains('\0'),
            holds_name(report.device_name@) ==> device.name@.len() > 0,
    {
        PhysicalDevice {
            handle: report.handle,
            name: decode_name(report.device_name.as_slice()),
            properties: report.properties,
            queue_families: index_queue_families(report.queue_families.as_slice()),
        }
    }

    /// Each queue family carries its own position as its index.
    pub open spec fn wf(self) -> bool {
        forall|i: int|
            0 <= i < self.queue_families@.len() ==> (#[trigger] self.queue_families@[i]).index == i
    }

    /// Whether some queue family supports graphics.
    pub open spec fn has_graphics_family(self) -> bool {
        exists|i: int|
            0 <= i < self.queue_families@.len()
                && (#[trigger] self.queue_families@[i]).spec_supports_graphics()
    }

    /// Whether position `i` holds the first queue family that supports
    /// graphics.
    pub open spec fn is_first_graphics_family(self, i: int) -> bool {
        &&& 0 <= i < self.queue_families@.len()
        &&& self.queue_families@[i].spec_supports_graphics()
        &&& forall|j: int|
            0 <= j < i ==> !(#[trigger] self.queue_families@[j]).spec_supports_graphics()
    }

    /// The position of the first queue family that supports graphics.
    pub fn graphics_queue_family(&self) -> (position: Option<usize>)
        ensures
            match position {
                Some(i) => self.is_first_graphics_family(i as int),
                None => !self.has_graphics_family(),
            },
    {
        let mut i: usize = 0;
        while i < self.queue_families.len()
            invariant
                i <= self.queue_families@.len(),
                forall|j: int|
                    0 <= j < i ==> !(#[trigger] self.queue_families@[j]).spec_supports_graphics(),
            decreases self.queue_families@.len() - i,
        {
            if self.queue_families[i].supports_graphics() {
                return Some(i);
            }
            i += 1;
        }
        None
    }

    /// Whether the adapter is a discrete GPU.
    pub fn is_discrete_gpu(&self) -> (discrete: bool)
        ensures
            discrete == (self.properties.device_type == PHYSICAL_DEVICE_TYPE_DISCRETE_GPU),
    {
        self.properties.device_type == physical_device_type_discrete_gpu()
    }
}

/// Whether some adapter of the list is of the given type.
pub open spec fn has_device_of_type(devices: Seq<PhysicalDevice>, device_type: i32) -> bool {
    exists|i: int|
        0 <= i < devices.len() && (#[trigger] devices[i]).properties.device_type == device_type
}

/// Whether position `i` holds the first adapter of the given type.
pub open spec fn is_first_of_type(devices: Seq<PhysicalDevice>, device_type: i32, i: int) -> bool {
    &&& 0 <= i < devices.len()
    &&& devices[i].properties.device_type == device_type
    &&& forall|j: int| 0 <= j < i ==> (#[trigger] devices[j]).properties.device_type != device_type
}

/// Chooses the first adapter of the given type and returns its position.
/// Where the list holds none, that is an error, whatever else it holds.
pub fn select_physical_device(
    devices: &[PhysicalDevice],
    device_type: i32,
) -> (selected: Result<usize, Error>)
    ensures
        match selected {
            Ok(i) => is_first_of_type(devices@, device_type, i as int),
            Err(error) => error == Error::NoMatchingAdapter && !has_device_of_type(
                devices@,
                device_type,
            ),
        },
{
    let mut i: usize = 0;
    while i < devices.len()
        invariant
            i <= devices@.len(),
            forall|j: int|
                0 <= j < i ==> (#[trigger] devices@[j]).properties.device_type != device_type,
        decreases devices@.len() - i,
    {
        if devices[i].properties.device_type == device_type {
            return Ok(i);
        }
        i += 1;
    }
    Err(Error::NoMatchingAdapter)
}

/// Chooses the first adapter whose type `accepts` takes, and returns its
/// position. Where `accepts` takes the type of no adapter of the list, that
/// is an error, whatever the list holds.
pub fn select_physical_device_by<F: Fn(i32) -> bool>(
    devices: &[PhysicalDevice],
    accepts: F,
) -> (selected: Result<usize, Error>)
    requires
        forall|j: int|
            0 <= j < devices@.len() ==> accepts.requires(
                ((#[trigger] devices@[j]).properties.device_type,),
            ),
    ensures
        match selected {
            Ok(i) => {
                &&& i < devices@.len()
                &&& accepts.ensures((devices@[i as int].properties.device_type,), true)
                &&& forall|j: int|
                    0 <= j < i ==> accepts.ensures(
                        ((#[trigger] devices@[j]).properties.device_type,),
                        false,
                    )
            },
            Err(error) => {
                &&& error == Error::NoMatchingAdapter
                &&& forall|j: int|
                    0 <= j < devices@.len() ==> accepts.ensures(
                        ((#[trigger] devices@[j]).properties.device_type,),
                        false,
                    )
            },
        },
{
    let mut i: usize = 0;
    while i < devices.len()
        invariant
            i <= devices@.len(),
            forall|j: int|
                0 <= j < devices@.len() ==> accepts.requires(
                    ((#[trigger] devices@[j]).properties.device_type,),
                ),
            forall|j: int|
                0 <= j < i ==> accepts.ensures(
                    ((#[trigger] devices@[j]).properties.device_type,),
                    false,
                ),
        decreases devices@.len() - i,
    {
        if accepts(devices[i].properties.device_type) {
            return Ok(i);
        }
        i += 1;
    }
    Err(Error::NoMatchingAdapter)
}

/// The default choice: the first discrete GPU.
pub fn select_discrete_gpu(devices: &[PhysicalDevice]) -> (selected: Result<usize, Error>)
    ensures
        match selected {
            Ok(i) => is_first_of_type(devices@, PHYSICAL_DEVICE_TYPE_DISCRETE_GPU, i as int),
            Err(error) => error == Error::NoMatchingAdapter && !has_device_of_type(
                devices@,
                PHYSICAL_DEVICE_TYPE_DISCRETE_GPU,
            ),
        },
{
    select_physical_device(devices, physical_device_type_discrete_gpu())
}

} // verus!
