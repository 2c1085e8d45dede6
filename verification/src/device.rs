//! Choice of the physical device, its queue family and its queues.
//!
//! A device is described by the graphics capability of each of its queue
//! families, in the order the driver lists them. The first device that has
//! a graphics-capable family is chosen, and of its families the first one
//! that is graphics-capable.

use crate::error::SetupError;
use vstd::prelude::*;

verus! {

/// One queue family of a physical device.
#[derive(Clone, Copy, Debug, PartialEq, Eq, Structural)]
pub struct QueueFamily {
    /// Whether queues of this family accept graphics work.
    pub supports_graphics: bool,
}

/// One physical device, as the driver lists it.
#[derive(Clone, Debug, PartialEq, Eq)]
pub struct PhysicalDevice {
    /// The device's queue families, in the driver's order.
    pub queue_families: Vec<QueueFamily>,
}

/// The chosen device and queue family, by their positions in the driver's lists.
#[derive(Clone, Copy, Debug, PartialEq, Eq, Structural)]
pub struct Selection {
    pub device: usize,
    pub queue_family: usize,
}

/// Which of the logical device's queues takes graphics work and which presents.
#[derive(Clone, Copy, Debug, PartialEq, Eq, Structural)]
pub struct QueueAssignment {
    pub graphics: usize,
    pub present: usize,
}

/// Some family in `families` supports graphics.
pub open spec fn has_graphics_family(families: Seq<QueueFamily>) -> bool {
    exists|i: int| 0 <= i < families.len() && families[i].supports_graphics
}

/// `index` is the first family in `families` that supports graphics.
pub open spec fn is_first_graphics_family(families: Seq<QueueFamily>, index: int) -> bool {
    &&& 0 <= index < families.len()
    &&& families[index].supports_graphics
    &&& forall|i: int| 0 <= i < index ==> !families[i].supports_graphics
}

/// Some device in `devices` has a family that supports graphics.
pub open spec fn has_graphics_device(devices: Seq<PhysicalDevice>) -> bool {
    exists|d: int| 0 <= d < devices.len() && has_graphics_family(devices[d].queue_families@)
}

/// `selection` names the first device in `devices` that has a family that
/// supports graphics, and the first such family of that device.
pub open spec fn is_selection(devices: Seq<PhysicalDevice>, selection: Selection) -> bool {
    &&& 0 <= selection.device < devices.len()
    &&& is_first_graphics_family(
        devices[selection.device as int].queue_families@,
        selection.queue_family as int,
    )
    &&& forall|d: int|
        0 <= d < selection.device ==> !has_graphics_family((#[trigger] devices[d]).queue_families@)
}

/// The queues to use when the logical device came with `queue_count`
/// queues: the first for graphics; the second for presenting where there is
/// one, else the first again.
pub open spec fn queue_assignment_of(queue_count: nat) -> Result<QueueAssignment, SetupError> {
    if queue_count == 0 {
        Err(SetupError::NoQueue)
    } else if queue_count == 1 {
        Ok(QueueAssignment { graphics: 0, present: 0 })
    } else {
        Ok(QueueAssignment { graphics: 0, present: 1 })
    }
}

/// Finds the first queue family of `device` that supports graphics.
pub fn find_queue_families(device: &PhysicalDevice) -> (found: Option<usize>)
    ensures
        match found {
            Some(index) => is_first_graphics_family(device.queue_families@, index as int),
            None => !has_graphics_family(device.queue_families@),
        },
{
    let mut index: usize = 0;
    while index < device.queue_families.len()
        invariant
            index <= device.queue_families.len(),
            forall|i: int| 0 <= i < index ==> !device.queue_families@[i].supports_graphics,
        decreases device.queue_families.len() - index,
    {
        if device.queue_families[index].supports_graphics {
            return Some(index);
        }
        index = index + 1;
    }
    None
}

/// Picks the first device that has a graphics-capable queue family, together
/// with the first such family.
///
/// Fails with `NoDeviceAvailable` where no device is listed, and with
/// `NoGraphicsQueueFamily` where devices are listed but none of them has a
/// graphics-capable family.
pub fn pick_physical_device(devices: &Vec<PhysicalDevice>) -> (picked: Result<
    Selection,
    SetupError,
>)
    ensures
        picked is Ok <==> has_graphics_device(devices@),
        match picked {
            Ok(selection) => is_selection(devices@, selection),
            Err(error) => error == if devices@.len() == 0 {
                SetupError::NoDeviceAvailable
            } else {
                SetupError::NoGraphicsQueueFamily
            },
        },
{
    if devices.len() == 0 {
        return Err(SetupError::NoDeviceAvailable);
    }
    let mut device: usize = 0;
    while device < devices.len()
        invariant
            device <= devices.len(),
            forall|d: int|
                0 <= d < device ==> !has_graphics_family((#[trigger] devices@[d]).queue_families@),
        decreases devices.len() - device,
    {
        match find_queue_families(&devices[device]) {
            Some(queue_family) => {
                proof {
                    let families = devices@[device as int].queue_families@;
                    assert(families[queue_family as int].supports_graphics);
                    assert(has_graphics_family(families));
                }
                return Ok(Selection { device, queue_family });
            },
            None => {},
        }
        device = device + 1;
    }
    Err(SetupError::NoGraphicsQueueFamily)
}

/// Assigns the graphics and the present queue among the `queue_count`
/// queues the logical device came with. Fails with `NoQueue` where it came
/// with none.
pub fn assign_queues(queue_count: usize) -> (queues: Result<QueueAssignment, SetupError>)
    ensures
        queues == queue_assignment_of(queue_count as nat),
{
    if queue_count == 0 {
        Err(SetupError::NoQueue)
    } else if queue_count == 1 {
        Ok(QueueAssignment { graphics: 0, present: 0 })
    } else {
        Ok(QueueAssignment { graphics: 0, present: 1 })
    }
}

/// The choice is determined by the devices: two selections for the same
/// list of devices name the same device and the same queue family.
pub proof fn lemma_selection_unique(devices: Seq<PhysicalDevice>, a: Selection, b: Selection)
    requires
        is_selection(devices, a),
        is_selection(devices, b),
    ensures
        a == b,
{
    let families_a = devices[a.device as int].queue_families@;
    let families_b = devices[b.device as int].queue_families@;
    assert(has_graphics_family(families_a)) by {
        assert(families_a[a.queue_family as int].supports_graphics);
    }
    assert(has_graphics_family(families_b)) by {
        assert(families_b[b.queue_family as int].supports_graphics);
    }
    assert(a.device == b.device);
    assert(a.queue_family == b.queue_family);
}

} // verus!
