//! Choosing the physical device to render on and the queue family to submit
//! to.

use vstd::prelude::*;

verus! {

/// What is read of a physical device when one is chosen.
#[derive(Clone, Copy, Debug, PartialEq, Eq, Structural)]
pub struct PhysicalDeviceInfo {
    /// The shared memory a compute workgroup may use, in bytes.
    pub max_compute_shared_memory_size: u32,
}

/// What is read of a queue family when one is chosen.
#[derive(Clone, Copy, Debug, PartialEq, Eq, Structural)]
pub struct QueueFamilyInfo {
    /// Whether queues of the family take graphics work.
    pub supports_graphics: bool,
    /// Whether queues of the family can present to the surface; `None`
    /// where the platform could not tell.
    pub supports_surface: Option<bool>,
}

impl QueueFamilyInfo {
    /// Whether the family serves both graphics and presentation. A family
    /// whose presentation support could not be told does not.
    pub open spec fn spec_is_suitable(self) -> bool {
        self.supports_graphics && self.supports_surface == Some(true)
    }

    /// Whether the family serves both graphics and presentation.
    #[verifier::when_used_as_spec(spec_is_suitable)]
    pub fn is_suitable(self) -> (suitable: bool)
        ensures
            suitable == self.spec_is_suitable(),
    {
        self.supports_graphics && match self.supports_surface {
            Some(supported) => supported,
            None => false,
        }
    }
}

/// What a logical device is created with.
#[derive(Clone, Copy, Debug, PartialEq, Eq, Structural)]
pub struct DeviceRequest {
    /// The index of the family of the one queue, which takes both graphics
    /// work and presentation.
    pub queue_family: usize,
    /// Whether the swapchain extension is enabled; it always is.
    pub khr_swapchain: bool,
}

/// Whether the device at `index` has the most shared memory, and is the first
/// to have that much.
pub open spec fn is_most_performant(devices: Seq<PhysicalDeviceInfo>, index: int) -> bool {
    &&& 0 <= index < devices.len()
    &&& forall|j: int|
        0 <= j < devices.len() ==> (#[trigger] devices[j]).max_compute_shared_memory_size
            <= devices[index].max_compute_shared_memory_size
    &&& forall|j: int|
        0 <= j < index ==> (#[trigger] devices[j]).max_compute_shared_memory_size
            < devices[index].max_compute_shared_memory_size
}

/// Whether the family at `index` is suitable and no family before it is.
pub open spec fn is_first_suitable(families: Seq<QueueFamilyInfo>, index: int) -> bool {
    &&& 0 <= index < families.len()
    &&& families[index].is_suitable()
    &&& forall|j: int| 0 <= j < index ==> !(#[trigger] families[j]).is_suitable()
}

/// Picks the device with the most shared memory for compute workgroups, the
/// first of them where several have as much; `None` where there is no
/// device.
pub fn select_physical_device(devices: &Vec<PhysicalDeviceInfo>) -> (chosen: Option<usize>)
    ensures
        match chosen {
            Some(index) => is_most_performant(devices@, index as int),
            None => devices@.len() == 0,
        },
{
    if devices.len() == 0 {
        return None;
    }
    let mut best: usize = 0;
    let mut i: usize = 1;
    while i < devices.len()
        invariant
            1 <= i <= devices.len(),
            best < i,
            forall|j: int|
                0 <= j < i ==> (#[trigger] devices@[j]).max_compute_shared_memory_size
                    <= devices@[best as int].max_compute_shared_memory_size,
            forall|j: int|
                0 <= j < best ==> (#[trigger] devices@[j]).max_compute_shared_memory_size
                    < devices@[best as int].max_compute_shared_memory_size,
        decreases devices.len() - i,
    {
        if devices[best].max_compute_shared_memory_size < devices[i].max_compute_shared_memory_size {
            best = i;
        }
        i += 1;
    }
    Some(best)
}

/// Picks the first queue family that serves both graphics and presentation;
/// `None` where no family does.
pub fn select_queue_family(families: &Vec<QueueFamilyInfo>) -> (chosen: Option<usize>)
    ensures
        match chosen {
            Some(index) => is_first_suitable(families@, index as int),
            None => !has_suitable(families@),
        },
{
    let mut i: usize = 0;
    while i < families.len()
        invariant
            i <= families.len(),
            forall|j: int| 0 <= j < i ==> !(#[trigger] families@[j]).is_suitable(),
        decreases families.len() - i,
    {
        if families[i].is_suitable() {
            return Some(i);
        }
        i += 1;
    }
    None
}

/// Whether some family serves both graphics and presentation.
pub open spec fn has_suitable(families: Seq<QueueFamilyInfo>) -> bool {
    exists|j: int| 0 <= j < families.len() && (#[trigger] families[j]).is_suitable()
}

/// Describes the logical device to create: one queue of the first suitable
/// family, with the swapchain extension enabled. That no family is suitable
/// is fatal: the caller ends the program on it and does not call;
/// `select_queue_family` tells.
pub fn create_device(families: &Vec<QueueFamilyInfo>) -> (device: DeviceRequest)
    requires
        has_suitable(families@),
    ensures
        is_first_suitable(families@, device.queue_family as int),
        device.khr_swapchain,
{
    DeviceRequest { queue_family: select_queue_family(families).unwrap(), khr_swapchain: true }
}

} // verus!
