//! The logical device: what is asked of the adapter, and the steps by which
//! the device and its queue come to be.
//!
//! The driver is not called from here. `DeviceSetup` is the state of a
//! construction under way: it is started with `begin`, which says what to
//! ask of the driver first, and each answer is handed to `advance`, which
//! says what to do next, until the device is handed out or an error ends the
//! construction.

use crate::binding::{dynamic_rendering_extension_name, swapchain_extension_name};
pub use crate::error::DeviceExtension;
use crate::error::Error;
use crate::name::{holds_name_of, name_bytes};
use crate::physical_device::{PhysicalDevice, QueueFamily};
use vstd::prelude::*;
use vstd::utf8::encode_utf8;

verus! {

impl DeviceExtension {
    /// The name under which the adapter reports the extension and the
    /// device enables it.
    pub open spec fn spec_name(self) -> Seq<char> {
        match self {
            DeviceExtension::Swapchain => "VK_KHR_swapchain"@,
            DeviceExtension::DynamicRendering => "VK_KHR_dynamic_rendering"@,
        }
    }

    /// The name under which the adapter reports the extension and the
    /// device enables it.
    pub fn name(self) -> (name: &'static str)
        ensures
            name@ == self.spec_name(),
    {
        match self {
            DeviceExtension::Swapchain => swapchain_extension_name(),
            DeviceExtension::DynamicRendering => dynamic_rendering_extension_name(),
        }
    }
}

/// An extension as the adapter reports it.
#[derive(Debug, Clone, PartialEq, Eq)]
pub struct ExtensionProperties {
    /// The buffer that holds the name, which ends at the first zero byte.
    pub extension_name: Vec<u8>,
    pub spec_version: u32,
}

/// Whether one of `extensions` is named `name`.
pub open spec fn reports_extension(extensions: Seq<ExtensionProperties>, name: Seq<char>) -> bool {
    exists|i: int|
        0 <= i < extensions.len() && name_bytes((#[trigger] extensions[i]).extension_name@)
            == encode_utf8(name)
}

/// Whether one of `extensions` is named `name`.
pub fn has_extension(extensions: &[ExtensionProperties], name: &str) -> (reported: bool)
    ensures
        reported == reports_extension(extensions@, name@),
{
    let mut i: usize = 0;
    while i < extensions.len()
        invariant
            i <= extensions@.len(),
            forall|j: int|
                0 <= j < i ==> name_bytes((#[trigger] extensions@[j]).extension_name@)
                    != encode_utf8(name@),
        decreases extensions@.len() - i,
    {
        if holds_name_of(extensions[i].extension_name.as_slice(), name) {
            return true;
        }
        i += 1;
    }
    false
}

/// Whether the adapter reports every one of `required_extensions`.
pub fn check_supported_device_extensions(
    extensions: &[ExtensionProperties],
    required_extensions: &[&str],
) -> (supported: bool)
    ensures
        supported == (forall|i: int|
            0 <= i < required_extensions@.len() ==> reports_extension(
                extensions@,
                (#[trigger] required_extensions@[i])@,
            )),
{
    let mut i: usize = 0;
    while i < required_extensions.len()
        invariant
            i <= required_extensions@.len(),
            forall|j: int|
                0 <= j < i ==> reports_extension(
                    extensions@,
                    (#[trigger] required_extensions@[j])@,
                ),
        decreases required_extensions@.len() - i,
    {
        if !has_extension(extensions, required_extensions[i]) {
            return false;
        }
        i += 1;
    }
    true
}

/// The features that are asked of the device.
#[derive(Debug, Clone, Copy, PartialEq, Eq)]
pub struct DeviceFeatures {
    pub sampler_anisotropy: bool,
    pub fill_mode_non_solid: bool,
    pub sample_rate_shading: bool,
    /// The feature that belongs to the dynamic rendering extension. It is
    /// asked for through a structure of its own, chained to the others.
    pub dynamic_rendering: bool,
}

/// The queues that are asked of one family.
#[derive(Debug, Clone, Copy, PartialEq, Eq)]
pub struct DeviceQueueCreateInfo {
    pub queue_family_index: u32,
    pub queue_count: u32,
    /// The priority of each of the queues, in hundredths: 100 is the
    /// highest priority, 1.0.
    pub priority_percent: u32,
}

/// The parameters from which the driver makes the device.
#[derive(Debug, Clone, Copy, PartialEq, Eq)]
pub struct DeviceCreateInfo {
    pub queue_create_info: DeviceQueueCreateInfo,
    pub swapchain_extension: bool,
    pub dynamic_rendering_extension: bool,
    pub features: DeviceFeatures,
}

impl DeviceCreateInfo {
    /// At least one queue is asked for, at a priority that exists, and the
    /// feature of dynamic rendering is asked for exactly where its extension
    /// is enabled.
    pub open spec fn wf(self) -> bool {
        &&& self.queue_create_info.queue_count >= 1
        &&& self.queue_create_info.priority_percent <= 100
        &&& self.features.dynamic_rendering == self.dynamic_rendering_extension
    }

    /// The parameters of a device with one queue of the given family, at the
    /// highest priority; with the swapchain and the dynamic rendering
    /// extension; with anisotropic sampling, non-solid fill modes, per-sample
    /// shading and dynamic rendering.
    pub open spec fn spec_new(queue_family_index: u32) -> DeviceCreateInfo {
        DeviceCreateInfo {
            queue_create_info: DeviceQueueCreateInfo {
                queue_family_index,
                queue_count: 1,
                priority_percent: 100,
            },
            swapchain_extension: true,
            dynamic_rendering_extension: true,
            features: DeviceFeatures {
                sampler_anisotropy: true,
                fill_mode_non_solid: true,
                sample_rate_shading: true,
                dynamic_rendering: true,
            },
        }
    }

    /// The parameters of a device with one queue of the given family.
    pub fn new(queue_family_index: u32) -> (create_info: DeviceCreateInfo)
        ensures
            create_info == DeviceCreateInfo::spec_new(queue_family_index),
            create_info.wf(),
    {
        DeviceCreateInfo {
            queue_create_info: DeviceQueueCreateInfo {
                queue_family_index,
                queue_count: 1,
                priority_percent: 100,
            },
            swapchain_extension: true,
            dynamic_rendering_extension: true,
            features: DeviceFeatures {
                sampler_anisotropy: true,
                fill_mode_non_solid: true,
                sample_rate_shading: true,
                dynamic_rendering: true,
            },
        }
    }

    /// The extensions that the device enables, in the order in which they
    /// are handed to the driver.
    pub open spec fn spec_enabled_extensions(self) -> Seq<DeviceExtension> {
        let swapchain = if self.swapchain_extension {
            seq![DeviceExtension::Swapchain]
        } else {
            Seq::<DeviceExtension>::empty()
        };
        let dynamic_rendering = if self.dynamic_rendering_extension {
            seq![DeviceExtension::DynamicRendering]
        } else {
            Seq::<DeviceExtension>::empty()
        };
        swapchain + dynamic_rendering
    }

    /// The extensions that the device enables, in the order in which they
    /// are handed to the driver.
    pub fn enabled_extensions(&self) -> (extensions: Vec<DeviceExtension>)
        ensures
            extensions@ == self.spec_enabled_extensions(),
    {
        let mut extensions: Vec<DeviceExtension> = Vec::new();
        if self.swapchain_extension {
            extensions.push(DeviceExtension::Swapchain);
        }
        if self.dynamic_rendering_extension {
            extensions.push(DeviceExtension::DynamicRendering);
        }
        extensions
    }

    /// The names of the extensions that the device enables.
    pub fn enabled_extension_names(&self) -> (names: Vec<&'static str>)
        ensures
            names@.len() == self.spec_enabled_extensions().len(),
            forall|i: int|
                0 <= i < names@.len() ==> (#[trigger] names@[i])@
                    == self.spec_enabled_extensions()[i].spec_name(),
    {
        let extensions = self.enabled_extensions();
        let mut names: Vec<&'static str> = Vec::new();
        let mut i: usize = 0;
        while i < extensions.len()
            invariant
                i <= extensions@.len(),
                names@.len() == i,
                extensions@ == self.spec_enabled_extensions(),
                forall|j: int| 0 <= j < i ==> (#[trigger] names@[j])@ == extensions@[j].spec_name(),
            decreases extensions@.len() - i,
        {
            names.push(extensions[i].name());
            i += 1;
        }
        names
    }
}

/// A live device and the queue that was taken from it.
#[derive(Debug, Clone, Copy, PartialEq, Eq)]
pub struct Device {
    pub handle: ash::vk::Device,
    pub queue: ash::vk::Queue,
    /// The family that `queue` belongs to.
    pub queue_family: QueueFamily,
}

impl Device {
    /// The queue family in use supports graphics.
    pub open spec fn wf(self) -> bool {
        self.queue_family.spec_supports_graphics()
    }

    /// The device `handle` with its queue `queue` of the family
    /// `queue_family`. A family without graphics support is refused.
    pub fn new(
        handle: ash::vk::Device,
        queue: ash::vk::Queue,
        queue_family: QueueFamily,
    ) -> (device: Result<Device, Error>)
        ensures
            device == if queue_family.spec_supports_graphics() {
                Ok(Device { handle, queue, queue_family })
            } else {
                Err::<Device, Error>(Error::NoGraphicsQueueFamily)
            },
            device matches Ok(live) ==> live.wf(),
    {
        if queue_family.supports_graphics() {
            Ok(Device { handle, queue, queue_family })
        } else {
            Err(Error::NoGraphicsQueueFamily)
        }
    }
}

/// What the host is to do next.
#[derive(Debug, Clone, Copy, PartialEq, Eq)]
pub enum DeviceAction {
    /// List the extensions of the adapter.
    EnumerateExtensions { physical_device: ash::vk::PhysicalDevice },
    /// Create the device on the adapter.
    CreateDevice { physical_device: ash::vk::PhysicalDevice, create_info: DeviceCreateInfo },
    /// Take the queue at `queue_index` of the family from the device.
    GetQueue { device: ash::vk::Device, queue_family_index: u32, queue_index: u32 },
    /// Nothing more: the device is live.
    Done(Device),
    /// Nothing more: the construction has failed.
    Fail(Error),
    /// Nothing: the answer was not the one that is waited for.
    Idle,
}

/// What the driver answered.
#[derive(Debug, PartialEq, Eq)]
pub enum DeviceReply {
    Extensions(Result<Vec<ExtensionProperties>, ash::vk::Result>),
    Device(Result<ash::vk::Device, ash::vk::Result>),
    Queue(ash::vk::Queue),
}

/// A construction under way, named by the answer that it waits for.
#[derive(Debug, Clone, Copy, PartialEq, Eq)]
pub enum DeviceSetup {
    AwaitExtensions { physical_device: ash::vk::PhysicalDevice, queue_family: QueueFamily },
    AwaitDevice { queue_family: QueueFamily },
    AwaitQueue { handle: ash::vk::Device, queue_family: QueueFamily },
    /// The construction is over, and its outcome has been handed out.
    Finished,
}

/// The extensions without which no device is made, in the order in which
/// they are looked for.
pub open spec fn required_extensions() -> Seq<DeviceExtension> {
    seq![DeviceExtension::Swapchain, DeviceExtension::DynamicRendering]
}

/// Whether `extension` is the first of the required extensions that the
/// adapter does not report.
pub open spec fn is_first_missing(
    extensions: Seq<ExtensionProperties>,
    extension: DeviceExtension,
) -> bool {
    match extension {
        DeviceExtension::Swapchain => !reports_extension(
            extensions,
            DeviceExtension::Swapchain.spec_name(),
        ),
        DeviceExtension::DynamicRendering => reports_extension(
            extensions,
            DeviceExtension::Swapchain.spec_name(),
        ) && !reports_extension(extensions, DeviceExtension::DynamicRendering.spec_name()),
    }
}

/// Whether the adapter reports every required extension.
pub open spec fn reports_required_extensions(extensions: Seq<ExtensionProperties>) -> bool {
    forall|i: int|
        0 <= i < required_extensions().len() ==> reports_extension(
            extensions,
            (#[trigger] required_extensions()[i]).spec_name(),
        )
}

/// Whether `queue_family` is the one that a device on `physical_device` is
/// built on: the first of its queue families that supports graphics.
pub open spec fn is_chosen_family(
    physical_device: PhysicalDevice,
    queue_family: QueueFamily,
) -> bool {
    exists|i: int|
        physical_device.is_first_graphics_family(i) && queue_family
            == #[trigger] physical_device.queue_families@[i]
}

impl DeviceSetup {
    /// The queue family that the construction goes on with supports
    /// graphics.
    pub open spec fn wf(self) -> bool {
        match self {
            DeviceSetup::AwaitExtensions { queue_family, .. }
            | DeviceSetup::AwaitDevice { queue_family }
            | DeviceSetup::AwaitQueue { queue_family, .. } => queue_family.spec_supports_graphics(),
            DeviceSetup::Finished => true,
        }
    }

    /// Whether `reply` is the answer that is waited for.
    pub open spec fn awaits(self, reply: DeviceReply) -> bool {
        match (self, reply) {
            (DeviceSetup::AwaitExtensions { .. }, DeviceReply::Extensions(_)) => true,
            (DeviceSetup::AwaitDevice { .. }, DeviceReply::Device(_)) => true,
            (DeviceSetup::AwaitQueue { .. }, DeviceReply::Queue(_)) => true,
            _ => false,
        }
    }

    /// How a construction on `physical_device` starts: with the first queue
    /// family that supports graphics, by asking for the adapter's
    /// extensions; or, where no family supports graphics, not at all.
    pub open spec fn starts(
        physical_device: PhysicalDevice,
        start: DeviceSetup,
        action: DeviceAction,
    ) -> bool {
        if physical_device.has_graphics_family() {
            &&& start matches DeviceSetup::AwaitExtensions { physical_device: handle, queue_family }
            &&& handle == physical_device.handle
            &&& is_chosen_family(physical_device, queue_family)
            &&& action == DeviceAction::EnumerateExtensions {
                physical_device: physical_device.handle,
            }
        } else {
            &&& start == DeviceSetup::Finished
            &&& action == DeviceAction::Fail(Error::NoGraphicsQueueFamily)
        }
    }

    /// The rule of the construction: from the state `self`, the answer
    /// `reply` leads to the state `next` and asks for `action`.
    ///
    /// The adapter's extensions are checked first: the device is created
    /// only on an adapter that reports every required extension, and the
    /// first one that is missing is named in the error. Then the device is
    /// created, and queue 0 of the chosen family is taken from it. A failure
    /// that the driver reports ends the construction with the driver's code.
    /// An answer that is not waited for changes nothing.
    pub open spec fn step(
        self,
        reply: DeviceReply,
        next: DeviceSetup,
        action: DeviceAction,
    ) -> bool {
        match (self, reply) {
            (
                DeviceSetup::AwaitExtensions { physical_device, queue_family },
                DeviceReply::Extensions(Ok(extensions)),
            ) => {
                if reports_required_extensions(extensions@) {
                    &&& next == DeviceSetup::AwaitDevice { queue_family }
                    &&& action == DeviceAction::CreateDevice {
                        physical_device,
                        create_info: DeviceCreateInfo::spec_new(queue_family.index),
                    }
                } else {
                    &&& next == DeviceSetup::Finished
                    &&& action matches DeviceAction::Fail(Error::MissingExtension(extension))
                    &&& is_first_missing(extensions@, extension)
                }
            },
            (DeviceSetup::AwaitExtensions { .. }, DeviceReply::Extensions(Err(code))) => {
                &&& next == DeviceSetup::Finished
                &&& action == DeviceAction::Fail(Error::Driver(code))
            },
            (DeviceSetup::AwaitDevice { queue_family }, DeviceReply::Device(Ok(handle))) => {
                &&& next == DeviceSetup::AwaitQueue { handle, queue_family }
                &&& action == DeviceAction::GetQueue {
                    device: handle,
                    queue_family_index: queue_family.index,
                    queue_index: 0,
                }
            },
            (DeviceSetup::AwaitDevice { .. }, DeviceReply::Device(Err(code))) => {
                &&& next == DeviceSetup::Finished
                &&& action == DeviceAction::Fail(Error::Driver(code))
            },
            (DeviceSetup::AwaitQueue { handle, queue_family }, DeviceReply::Queue(queue)) => {
                &&& next == DeviceSetup::Finished
                &&& action == if queue_family.spec_supports_graphics() {
                    DeviceAction::Done(Device { handle, queue, queue_family })
                } else {
                    DeviceAction::Fail(Error::NoGraphicsQueueFamily)
                }
            },
            _ => next == self && action == DeviceAction::Idle,
        }
    }

    /// Starts the construction of a device on `physical_device`.
    pub fn begin(physical_device: &PhysicalDevice) -> (start: (DeviceSetup, DeviceAction))
        ensures
            DeviceSetup::starts(*physical_device, start.0, start.1),
            start.0.wf(),
    {
        match physical_device.graphics_queue_family() {
            Some(position) => (
                DeviceSetup::AwaitExtensions {
                    physical_device: physical_device.handle,
                    queue_family: physical_device.queue_families[position],
                },
                DeviceAction::EnumerateExtensions { physical_device: physical_device.handle },
            ),
            None => (DeviceSetup::Finished, DeviceAction::Fail(Error::NoGraphicsQueueFamily)),
        }
    }

    /// Takes the driver's answer and says what follows.
    pub fn advance(self, reply: DeviceReply) -> (step: (DeviceSetup, DeviceAction))
        ensures
            self.step(reply, step.0, step.1),
            self.wf() ==> step.0.wf(),
            step.1 matches DeviceAction::Done(device) ==> device.wf(),
    {
        match (self, reply) {
            (
                DeviceSetup::AwaitExtensions { physical_device, queue_family },
                DeviceReply::Extensions(Ok(extensions)),
            ) => {
                let create_info = DeviceCreateInfo::new(queue_family.index);
                let names = create_info.enabled_extension_names();
                let supported = check_supported_device_extensions(
                    extensions.as_slice(),
                    names.as_slice(),
                );
                proof {
                    assert(create_info.spec_enabled_extensions() =~= required_extensions());
                    assert(names@[0]@ == required_extensions()[0].spec_name());
                    assert(names@[1]@ == required_extensions()[1].spec_name());
                }
                if supported {
                    (
                        DeviceSetup::AwaitDevice { queue_family },
                        DeviceAction::CreateDevice { physical_device, create_info },
                    )
                } else if !has_extension(extensions.as_slice(), DeviceExtension::Swapchain.name()) {
                    (
                        DeviceSetup::Finished,
                        DeviceAction::Fail(Error::MissingExtension(DeviceExtension::Swapchain)),
                    )
                } else {
                    (
                        DeviceSetup::Finished,
                        DeviceAction::Fail(
                            Error::MissingExtension(DeviceExtension::DynamicRendering),
                        ),
                    )
                }
            },
            (DeviceSetup::AwaitExtensions { .. }, DeviceReply::Extensions(Err(code))) => (
                DeviceSetup::Finished,
                DeviceAction::Fail(Error::Driver(code)),
            ),
            (DeviceSetup::AwaitDevice { queue_family }, DeviceReply::Device(Ok(handle))) => (
                DeviceSetup::AwaitQueue { handle, queue_family },
                DeviceAction::GetQueue {
                    device: handle,
                    queue_family_index: queue_family.index,
                    queue_index: 0,
                },
            ),
            (DeviceSetup::AwaitDevice { .. }, DeviceReply::Device(Err(code))) => (
                DeviceSetup::Finished,
                DeviceAction::Fail(Error::Driver(code)),
            ),
            (DeviceSetup::AwaitQueue { handle, queue_family }, DeviceReply::Queue(queue)) => {
                match Device::new(handle, queue, queue_family) {
                    Ok(device) => (DeviceSetup::Finished, DeviceAction::Done(device)),
                    Err(error) => (DeviceSetup::Finished, DeviceAction::Fail(error)),
                }
            },
            (state, _) => (state, DeviceAction::Idle),
        }
    }
}


/// A run of the construction: each answer of `replies` in turn leads from
/// one state of `states` to the next and asks for one action of `actions`.
pub open spec fn is_run(
    states: Seq<DeviceSetup>,
    replies: Seq<DeviceReply>,
    actions: Seq<DeviceAction>,
) -> bool {
    &&& states.len() == replies.len() + 1
    &&& actions.len() == replies.len()
    &&& forall|i: int|
        #![trigger replies[i]]
        0 <= i < replies.len() ==> states[i].step(replies[i], states[i + 1], actions[i])
}

/// Whether `reply` is an extension list with every required extension in
/// it, and `state` waits for it.
pub open spec fn passes_extension_check(state: DeviceSetup, reply: DeviceReply) -> bool {
    &&& state is AwaitExtensions
    &&& reply matches DeviceReply::Extensions(Ok(extensions))
    &&& reports_required_extensions(extensions@)
}

/// Whether, before step `end` of the run, the adapter's extensions were
/// listed and held every required extension.
pub open spec fn extensions_checked_before(
    states: Seq<DeviceSetup>,
    replies: Seq<DeviceReply>,
    end: int,
) -> bool {
    exists|k: int| 0 <= k < end && #[trigger] passes_extension_check(states[k], replies[k])
}

/// No device is made on an adapter that lacks the swapchain extension: the
/// construction ends with an error that names the extension, as soon as the
/// adapter's extensions are known.
pub proof fn lemma_missing_swapchain_extension_fails(
    state: DeviceSetup,
    extensions: Vec<ExtensionProperties>,
    next: DeviceSetup,
    action: DeviceAction,
)
    requires
        state is AwaitExtensions,
        !reports_extension(extensions@, DeviceExtension::Swapchain.spec_name()),
        state.step(DeviceReply::Extensions(Ok(extensions)), next, action),
    ensures
        next == DeviceSetup::Finished,
        action == DeviceAction::Fail(Error::MissingExtension(DeviceExtension::Swapchain)),
{
    assert(required_extensions()[0] == DeviceExtension::Swapchain);
}

/// No device is made on an adapter that lacks the dynamic rendering
/// extension either: the device is not made with fewer features, the
/// construction ends with an error that names the extension.
pub proof fn lemma_missing_dynamic_rendering_extension_fails(
    state: DeviceSetup,
    extensions: Vec<ExtensionProperties>,
    next: DeviceSetup,
    action: DeviceAction,
)
    requires
        state is AwaitExtensions,
        reports_extension(extensions@, DeviceExtension::Swapchain.spec_name()),
        !reports_extension(extensions@, DeviceExtension::DynamicRendering.spec_name()),
        state.step(DeviceReply::Extensions(Ok(extensions)), next, action),
    ensures
        next == DeviceSetup::Finished,
        action == DeviceAction::Fail(Error::MissingExtension(DeviceExtension::DynamicRendering)),
{
    assert(required_extensions()[1] == DeviceExtension::DynamicRendering);
}

/// What the device enables is what was negotiated: every extension in the
/// parameters of a device is one that the adapter reported.
pub proof fn lemma_enabled_extensions_are_reported(
    state: DeviceSetup,
    extensions: Vec<ExtensionProperties>,
    next: DeviceSetup,
    action: DeviceAction,
)
    requires
        state.step(DeviceReply::Extensions(Ok(extensions)), next, action),
        action is CreateDevice,
    ensures
        forall|i: int|
            0 <= i < action->create_info.spec_enabled_extensions().len() ==> reports_extension(
                extensions@,
                (#[trigger] action->create_info.spec_enabled_extensions()[i]).spec_name(),
            ),
{
    let enabled = action->create_info.spec_enabled_extensions();
    assert(enabled =~= required_extensions());
    assert forall|i: int| 0 <= i < enabled.len() implies reports_extension(
        extensions@,
        (#[trigger] enabled[i]).spec_name(),
    ) by {
        assert(enabled[i] == required_extensions()[i]);
    }
}

/// An answer that is not waited for changes nothing and asks for nothing.
/// In particular, a construction that is over stays over.
pub proof fn lemma_unawaited_reply_is_ignored(
    state: DeviceSetup,
    reply: DeviceReply,
    next: DeviceSetup,
    action: DeviceAction,
)
    requires
        !state.awaits(reply),
        state.step(reply, next, action),
    ensures
        next == state,
        action == DeviceAction::Idle,
{
}

/// The queue family that a state of the construction goes on with.
pub open spec fn queue_family_of(state: DeviceSetup) -> Option<QueueFamily> {
    match state {
        DeviceSetup::AwaitExtensions { queue_family, .. } => Some(queue_family),
        DeviceSetup::AwaitDevice { queue_family } => Some(queue_family),
        DeviceSetup::AwaitQueue { queue_family, .. } => Some(queue_family),
        DeviceSetup::Finished => None,
    }
}

/// What holds of every state of a run from the start: the queue family is
/// the one chosen at the start, and the device is created only after the
/// adapter's extensions passed the check.
proof fn lemma_run_keeps_choice(
    physical_device: PhysicalDevice,
    first: DeviceAction,
    states: Seq<DeviceSetup>,
    replies: Seq<DeviceReply>,
    actions: Seq<DeviceAction>,
    end: int,
)
    requires
        DeviceSetup::starts(physical_device, states[0], first),
        is_run(states, replies, actions),
        0 <= end <= replies.len(),
    ensures
        queue_family_of(states[end]) matches Some(queue_family) ==> is_chosen_family(
            physical_device,
            queue_family,
        ),
        states[end] is AwaitDevice || states[end] is AwaitQueue ==> extensions_checked_before(
            states,
            replies,
            end,
        ),
    decreases end,
{
    if end > 0 {
        let k = end - 1;
        lemma_run_keeps_choice(physical_device, first, states, replies, actions, k);
        assert(states[k].step(replies[k], states[k + 1], actions[k]));
        if states[end] is AwaitDevice || states[end] is AwaitQueue {
            if states[k] is AwaitExtensions {
                assert(passes_extension_check(states[k], replies[k]));
            } else {
                let earlier = choose|e: int|
                    0 <= e < k && #[trigger] passes_extension_check(states[e], replies[e]);
                assert(passes_extension_check(states[earlier], replies[earlier]));
            }
        }
    }
}

/// Over a whole construction: in every run from the start that ends by
/// handing out the device, the adapter reported every required extension,
/// and the device's queue belongs to the first queue family of the adapter
/// that supports graphics.
pub proof fn lemma_run_device_is_negotiated(
    physical_device: PhysicalDevice,
    first: DeviceAction,
    states: Seq<DeviceSetup>,
    replies: Seq<DeviceReply>,
    actions: Seq<DeviceAction>,
)
    requires
        DeviceSetup::starts(physical_device, states[0], first),
        is_run(states, replies, actions),
        replies.len() > 0,
        actions.last() is Done,
    ensures
        extensions_checked_before(states, replies, replies.len() as int),
        is_chosen_family(physical_device, actions.last()->Done_0.queue_family),
        actions.last()->Done_0.wf(),
{
    let last = replies.len() - 1;
    lemma_run_keeps_choice(physical_device, first, states, replies, actions, last);
    assert(states[last].step(replies[last], states[last + 1], actions[last]));
    let earlier = choose|e: int|
        0 <= e < last && #[trigger] passes_extension_check(states[e], replies[e]);
    assert(passes_extension_check(states[earlier], replies[earlier]));
}

/// Success is owed: on an adapter with a graphics queue family that reports
/// every required extension, and with a driver that refuses nothing, the
/// construction asks for the device with the parameters of the chosen
/// family, then for queue 0 of that family, and hands out the device that
/// the driver made with the queue that it gave.
pub proof fn lemma_run_succeeds(
    physical_device: PhysicalDevice,
    first: DeviceAction,
    extensions: Vec<ExtensionProperties>,
    handle: ash::vk::Device,
    queue: ash::vk::Queue,
    states: Seq<DeviceSetup>,
    replies: Seq<DeviceReply>,
    actions: Seq<DeviceAction>,
)
    requires
        physical_device.has_graphics_family(),
        reports_required_extensions(extensions@),
        DeviceSetup::starts(physical_device, states[0], first),
        is_run(states, replies, actions),
        replies.len() == 3,
        replies[0] == DeviceReply::Extensions(Ok(extensions)),
        replies[1] == DeviceReply::Device(Ok(handle)),
        replies[2] == DeviceReply::Queue(queue),
    ensures
        first == (DeviceAction::EnumerateExtensions { physical_device: physical_device.handle }),
        ({
            &&& actions[2] matches DeviceAction::Done(device)
            &&& device.handle == handle
            &&& device.queue == queue
            &&& is_chosen_family(physical_device, device.queue_family)
            &&& actions[0] == DeviceAction::CreateDevice {
                physical_device: physical_device.handle,
                create_info: DeviceCreateInfo::spec_new(device.queue_family.index),
            }
            &&& actions[1] == DeviceAction::GetQueue {
                device: handle,
                queue_family_index: device.queue_family.index,
                queue_index: 0,
            }
        }),
        states[3] == DeviceSetup::Finished,
{
    assert(states[0].step(replies[0], states[1], actions[0]));
    assert(states[1].step(replies[1], states[2], actions[1]));
    assert(states[2].step(replies[2], states[3], actions[2]));
}

} // verus!
