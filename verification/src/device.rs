//! Choosing the physical device and the queue family to draw with.

use vstd::prelude::*;
use vulkano::device::physical::PhysicalDeviceType;
use crate::error::RenderError;

verus! {

/// What the choice of a device reads of one queue family.
#[derive(Clone, Copy, Debug, PartialEq, Eq, Structural)]
pub struct QueueFamilyInfo {
    /// Queues of the family accept graphics work.
    pub supports_graphics: bool,
    /// Queues of the family can present to the surface.
    pub supports_present: bool,
}

/// What the choice of a device reads of one physical device. The queue
/// families stand in the order of their indices.
#[derive(Debug)]
pub struct PhysicalDeviceInfo {
    pub name: String,
    pub ty: PhysicalDeviceType,
    pub queue_families: Vec<QueueFamilyInfo>,
}

/// A chosen device and queue family, by their places in the enumeration.
#[derive(Clone, Copy, Debug, PartialEq, Eq, Structural)]
pub struct Selection {
    pub device: usize,
    pub queue_family: usize,
}

/// A queue family can be drawn with if it takes graphics work and presents to
/// the surface.
pub open spec fn usable(family: QueueFamilyInfo) -> bool {
    family.supports_graphics && family.supports_present
}

/// Some family of the list can be drawn with.
pub open spec fn has_usable(families: Seq<QueueFamilyInfo>) -> bool {
    exists|i: int| 0 <= i < families.len() && usable(#[trigger] families[i])
}

/// `i` is the first family of the list that can be drawn with.
pub open spec fn is_first_usable(families: Seq<QueueFamilyInfo>, i: int) -> bool {
    &&& 0 <= i < families.len()
    &&& usable(families[i])
    &&& forall|j: int| 0 <= j < i ==> !usable(#[trigger] families[j])
}

/// `selection` names the first device that has a usable queue family, and the
/// first such family of that device.
pub open spec fn is_selected(devices: Seq<PhysicalDeviceInfo>, selection: Selection) -> bool {
    &&& selection.device < devices.len()
    &&& is_first_usable(
        devices[selection.device as int].queue_families@,
        selection.queue_family as int,
    )
    &&& forall|d: int|
        0 <= d < selection.device ==> !has_usable((#[trigger] devices[d]).queue_families@)
}

/// No device of the list has a usable queue family.
pub open spec fn none_selectable(devices: Seq<PhysicalDeviceInfo>) -> bool {
    forall|d: int| 0 <= d < devices.len() ==> !has_usable((#[trigger] devices[d]).queue_families@)
}

/// The selection that an enumeration admits, if it admits one. It admits at
/// most one (see `lemma_selection_deterministic`).
pub open spec fn selection_of(devices: Seq<PhysicalDeviceInfo>) -> Option<Selection> {
    if exists|s: Selection| is_selected(devices, s) {
        Some(choose|s: Selection| is_selected(devices, s))
    } else {
        None
    }
}

/// `selection` names a device of the enumeration and a queue family of that
/// device that can be drawn with. A caller who chooses the device may choose
/// any such, not only the first.
pub open spec fn is_usable_selection(devices: Seq<PhysicalDeviceInfo>, selection: Selection) -> bool {
    &&& selection.device < devices.len()
    &&& selection.queue_family < devices[selection.device as int].queue_families@.len()
    &&& usable(devices[selection.device as int].queue_families@[selection.queue_family as int])
}

/// The error that a selection of the caller's is answered with where it will
/// not do: it names no device of the enumeration, or no usable queue family
/// of the device it names.
pub open spec fn preset_error(devices: Seq<PhysicalDeviceInfo>, selection: Selection) -> RenderError {
    if selection.device >= devices.len() {
        RenderError::NoPhysicalDevice
    } else {
        RenderError::NoQueueFamily
    }
}

/// The selection a renderer goes by: that of the caller where there is one
/// and it will do, else the first that the enumeration admits.
pub open spec fn resolve_selection(
    preset: Option<Selection>,
    devices: Seq<PhysicalDeviceInfo>,
) -> Result<Selection, RenderError> {
    match preset {
        Some(selection) => if is_usable_selection(devices, selection) {
            Ok(selection)
        } else {
            Err(preset_error(devices, selection))
        },
        None => match selection_of(devices) {
            Some(selection) => Ok(selection),
            None => Err(selection_error(devices)),
        },
    }
}

/// The error that an enumeration without a selection is answered with.
pub open spec fn selection_error(devices: Seq<PhysicalDeviceInfo>) -> RenderError {
    if devices.len() == 0 {
        RenderError::NoPhysicalDevice
    } else {
        RenderError::NoQueueFamily
    }
}

/// The priority a queue is requested with: a number from 0 to 1, held as the
/// bits of its IEEE 754 single-precision representation.
#[derive(Clone, Copy, Debug, PartialEq, Eq, Structural)]
pub struct Priority {
    bits: u32,
}

/// The bits of 1.0 in single precision. The bit patterns from 0 up to this
/// one are those of the numbers from +0 to 1, in the same order.
pub const PRIORITY_ONE_BITS: u32 = 0x3F80_0000;

/// The bits of 0.5 in single precision.
pub const PRIORITY_HALF_BITS: u32 = 0x3F00_0000;

impl Priority {
    /// The bits of the priority.
    pub closed spec fn spec_bits(self) -> u32 {
        self.bits
    }

    /// Every priority lies between 0 and 1.
    #[verifier::type_invariant]
    closed spec fn in_range(self) -> bool {
        self.bits <= PRIORITY_ONE_BITS
    }

    /// The priority with the given bits; none if they stand for a number
    /// outside 0 to 1, or for no number.
    pub fn from_bits(bits: u32) -> (priority: Option<Priority>)
        ensures
            priority is Some <==> bits <= PRIORITY_ONE_BITS,
            priority matches Some(p) ==> p.spec_bits() == bits,
    {
        if bits <= PRIORITY_ONE_BITS {
            Some(Priority { bits })
        } else {
            None
        }
    }

    /// The priority used where the caller chooses none: one half.
    pub fn half() -> (priority: Priority)
        ensures
            priority.spec_bits() == PRIORITY_HALF_BITS,
    {
        Priority { bits: PRIORITY_HALF_BITS }
    }

    #[verifier::when_used_as_spec(spec_bits)]
    pub fn bits(self) -> (bits: u32)
        ensures
            bits == self.spec_bits(),
            bits <= PRIORITY_ONE_BITS,
    {
        proof {
            use_type_invariant(self);
        }
        self.bits
    }
}

/// The first queue family that both draws and presents, if there is one.
pub fn find_queue_family(families: &Vec<QueueFamilyInfo>) -> (found: Option<usize>)
    ensures
        match found {
            Some(i) => is_first_usable(families@, i as int),
            None => !has_usable(families@),
        },
{
    let mut i: usize = 0;
    while i < families.len()
        invariant
            i <= families.len(),
            forall|j: int| 0 <= j < i ==> !usable(#[trigger] families@[j]),
        decreases families.len() - i,
    {
        if families[i].supports_graphics && families[i].supports_present {
            return Some(i);
        }
        i += 1;
    }
    None
}

/// Picks the first device that has a queue family to draw with, and that
/// family. Without any device the error is `NoPhysicalDevice`; with devices
/// of which none will do it is `NoQueueFamily`.
pub fn select_device(devices: &Vec<PhysicalDeviceInfo>) -> (selected: Result<Selection, RenderError>)
    ensures
        match selected {
            Ok(selection) => is_selected(devices@, selection),
            Err(error) => none_selectable(devices@) && error == selection_error(devices@),
        },
        selected == match selection_of(devices@) {
            Some(selection) => Ok::<Selection, RenderError>(selection),
            None => Err(selection_error(devices@)),
        },
{
    let mut d: usize = 0;
    while d < devices.len()
        invariant
            d <= devices.len(),
            forall|e: int| 0 <= e < d ==> !has_usable((#[trigger] devices@[e]).queue_families@),
        decreases devices.len() - d,
    {
        match find_queue_family(&devices[d].queue_families) {
            Some(q) => {
                let selection = Selection { device: d, queue_family: q };
                proof {
                    lemma_selection_of(devices@, selection);
                }
                return Ok(selection);
            },
            None => {},
        }
        d += 1;
    }
    proof {
        lemma_no_selection(devices@);
    }
    if devices.len() == 0 {
        Err(RenderError::NoPhysicalDevice)
    } else {
        Err(RenderError::NoQueueFamily)
    }
}

/// The selection to go by: the caller's, if there is one and it names a
/// usable queue family of an enumerated device, else the first that will do.
pub fn choose_device(preset: Option<Selection>, devices: &Vec<PhysicalDeviceInfo>) -> (chosen:
    Result<Selection, RenderError>)
    ensures
        chosen == resolve_selection(preset, devices@),
        chosen matches Ok(selection) ==> is_usable_selection(devices@, selection),
{
    match preset {
        Some(selection) => {
            if selection.device >= devices.len() {
                return Err(RenderError::NoPhysicalDevice);
            }
            let families = &devices[selection.device].queue_families;
            if selection.queue_family < families.len() && families[selection.queue_family].supports_graphics
                && families[selection.queue_family].supports_present {
                Ok(selection)
            } else {
                Err(RenderError::NoQueueFamily)
            }
        },
        None => select_device(devices),
    }
}

/// The first usable family of a list is unique.
pub proof fn lemma_first_usable_unique(families: Seq<QueueFamilyInfo>, i: int, j: int)
    requires
        is_first_usable(families, i),
        is_first_usable(families, j),
    ensures
        i == j,
{
    if i < j {
        assert(!usable(families[i]));
    } else if j < i {
        assert(!usable(families[j]));
    }
}

/// Selection is deterministic: one enumeration admits one selection, so two
/// constructions from the same enumeration choose the same device and family.
pub proof fn lemma_selection_deterministic(
    devices: Seq<PhysicalDeviceInfo>,
    first: Selection,
    second: Selection,
)
    requires
        is_selected(devices, first),
        is_selected(devices, second),
    ensures
        first == second,
{
    let a = first.device as int;
    let b = second.device as int;
    if a < b {
        assert(usable(devices[a].queue_families@[first.queue_family as int]));
        assert(has_usable(devices[a].queue_families@));
        assert(!has_usable(devices[a].queue_families@));
    } else if b < a {
        assert(usable(devices[b].queue_families@[second.queue_family as int]));
        assert(has_usable(devices[b].queue_families@));
        assert(!has_usable(devices[b].queue_families@));
    }
    lemma_first_usable_unique(
        devices[a].queue_families@,
        first.queue_family as int,
        second.queue_family as int,
    );
}

/// An enumeration that admits a selection has it as its `selection_of`.
pub proof fn lemma_selection_of(devices: Seq<PhysicalDeviceInfo>, selection: Selection)
    requires
        is_selected(devices, selection),
    ensures
        selection_of(devices) == Some(selection),
{
    let chosen = choose|s: Selection| is_selected(devices, s);
    lemma_selection_deterministic(devices, chosen, selection);
}

/// An enumeration of which no device will do admits no selection.
pub proof fn lemma_no_selection(devices: Seq<PhysicalDeviceInfo>)
    requires
        none_selectable(devices),
    ensures
        selection_of(devices) is None,
{
    if exists|s: Selection| is_selected(devices, s) {
        let s = choose|s: Selection| is_selected(devices, s);
        lemma_selection_excludes_failure(devices, s);
    }
}

/// A selection and a failure exclude each other.
pub proof fn lemma_selection_excludes_failure(devices: Seq<PhysicalDeviceInfo>, selection: Selection)
    requires
        is_selected(devices, selection),
    ensures
        !none_selectable(devices),
{
    let d = selection.device as int;
    assert(usable(devices[d].queue_families@[selection.queue_family as int]));
    assert(has_usable(devices[d].queue_families@));
}

/// The choice reads only which families can be drawn with: two enumerations
/// that agree on that, device by device and family by family, admit the same
/// selections, whatever the devices are called.
pub open spec fn same_profile(a: Seq<PhysicalDeviceInfo>, b: Seq<PhysicalDeviceInfo>) -> bool {
    &&& a.len() == b.len()
    &&& forall|d: int|
        0 <= d < a.len() ==> (#[trigger] a[d]).queue_families@.len() == b[d].queue_families@.len()
    &&& forall|d: int, q: int|
        0 <= d < a.len() && 0 <= q < a[d].queue_families@.len() ==> usable(
            #[trigger] a[d].queue_families@[q],
        ) == usable(b[d].queue_families@[q])
}

/// Enumerations of the same profile admit the same selection.
pub proof fn lemma_selection_reads_profile(
    a: Seq<PhysicalDeviceInfo>,
    b: Seq<PhysicalDeviceInfo>,
    selection: Selection,
)
    requires
        same_profile(a, b),
        is_selected(a, selection),
    ensures
        is_selected(b, selection),
{
    let s = selection.device as int;
    let fa = a[s].queue_families@;
    let fb = b[s].queue_families@;
    assert(fa.len() == fb.len());
    assert(usable(fa[selection.queue_family as int]) == usable(fb[selection.queue_family as int]));
    assert forall|j: int| 0 <= j < selection.queue_family implies !usable(#[trigger] fb[j]) by {
        assert(usable(fa[j]) == usable(fb[j]));
    }
    assert forall|d: int| 0 <= d < selection.device implies !has_usable(
        (#[trigger] b[d]).queue_families@,
    ) by {
        if has_usable(b[d].queue_families@) {
            let q = choose|q: int|
                0 <= q < b[d].queue_families@.len() && usable(#[trigger] b[d].queue_families@[q]);
            assert(a[d].queue_families@.len() == b[d].queue_families@.len());
            assert(usable(a[d].queue_families@[q]) == usable(b[d].queue_families@[q]));
            assert(has_usable(a[d].queue_families@));
        }
    }
}

} // verus!
