use vstd::prelude::*;

verus! {

/// The kind of a physical graphics device.
#[derive(Debug, Clone, Copy, PartialEq, Eq, Structural)]
pub enum DeviceKind {
    DiscreteGpu,
    IntegratedGpu,
    VirtualGpu,
    Cpu,
    /// A device that supports graphics but whose kind is not known.
    Other,
}

/// Preference order of device kinds: lower is better. Real GPUs come first,
/// a CPU only when nothing else is there.
pub open spec fn kind_priority(kind: DeviceKind) -> nat {
    match kind {
        DeviceKind::DiscreteGpu => 0,
        DeviceKind::IntegratedGpu => 1,
        DeviceKind::VirtualGpu => 2,
        DeviceKind::Cpu => 3,
        DeviceKind::Other => 4,
    }
}

impl DeviceKind {
    /// Preference rank of the kind (0 is preferred most).
    pub fn priority(self) -> (r: u8)
        ensures
            r == kind_priority(self),
    {
        match self {
            DeviceKind::DiscreteGpu => 0,
            DeviceKind::IntegratedGpu => 1,
            DeviceKind::VirtualGpu => 2,
            DeviceKind::Cpu => 3,
            DeviceKind::Other => 4,
        }
    }
}

/// What matters of one queue family of a device.
#[derive(Debug, Clone, Copy, PartialEq, Eq, Structural)]
pub struct QueueFamilyInfo {
    /// The family supports graphics operations.
    pub graphics: bool,
    /// The family can present to the window's surface (false when the query failed).
    pub presentable: bool,
}

/// What matters of one physical device when choosing where to render.
pub struct PhysicalDeviceInfo {
    pub device_id: u32,
    pub kind: DeviceKind,
    /// The device supports the swapchain extension.
    pub supports_swapchain: bool,
    pub queue_families: Vec<QueueFamilyInfo>,
}

/// A device that can render to the window, with the queue family to use.
#[derive(Debug, Clone, Copy, PartialEq, Eq, Structural)]
pub struct DeviceCandidate {
    /// Position of the device in the enumeration it came from.
    pub position: usize,
    pub device_id: u32,
    pub kind: DeviceKind,
    pub queue_family_index: u32,
}

/// A queue family that can both draw and present.
pub open spec fn family_usable(f: QueueFamilyInfo) -> bool {
    f.graphics && f.presentable
}

/// Index of the first usable family at or after `i`.
pub open spec fn first_usable_from(families: Seq<QueueFamilyInfo>, i: int) -> Option<int>
    decreases families.len() - i,
{
    if i < 0 || i >= families.len() {
        None
    } else if family_usable(families[i]) {
        Some(i)
    } else {
        first_usable_from(families, i + 1)
    }
}

/// Index of the first family that can both draw and present.
pub open spec fn first_usable(families: Seq<QueueFamilyInfo>) -> Option<int> {
    first_usable_from(families, 0)
}

/// The index of the first queue family that supports graphics and can present.
pub fn graphics_queue_family(families: &Vec<QueueFamilyInfo>) -> (r: Option<u32>)
    ensures
        r is Some <==> first_usable(families@) is Some,
        r matches Some(q) ==> q == first_usable(families@)->0 as u32,
{
    let mut i: usize = 0;
    while i < families.len()
        invariant
            i <= families@.len(),
            first_usable(families@) == first_usable_from(families@, i as int),
        decreases families@.len() - i,
    {
        if families[i].graphics && families[i].presentable {
            return Some(i as u32);
        }
        i = i + 1;
    }
    None
}

/// The devices that support the swapchain extension and have a usable queue
/// family, in enumeration order, each with its first usable family.
pub open spec fn spec_candidates(devices: Seq<PhysicalDeviceInfo>) -> Seq<DeviceCandidate>
    decreases devices.len(),
{
    if devices.len() == 0 {
        Seq::empty()
    } else {
        let earlier = spec_candidates(devices.drop_last());
        let d = devices.last();
        match first_usable(d.queue_families@) {
            Some(q) => if d.supports_swapchain {
                earlier.push(
                    DeviceCandidate {
                        position: (devices.len() - 1) as usize,
                        device_id: d.device_id,
                        kind: d.kind,
                        queue_family_index: q as u32,
                    },
                )
            } else {
                earlier
            },
            None => earlier,
        }
    }
}

/// Keeps the devices that can render to the window, with their queue family.
pub fn compatible_devices(devices: &Vec<PhysicalDeviceInfo>) -> (r: Vec<DeviceCandidate>)
    ensures
        r@ == spec_candidates(devices@),
{
    let mut out: Vec<DeviceCandidate> = Vec::new();
    let mut i: usize = 0;
    while i < devices.len()
        invariant
            i <= devices@.len(),
            out@ == spec_candidates(devices@.take(i as int)),
        decreases devices@.len() - i,
    {
        let d = &devices[i];
        assert(devices@.take(i + 1).drop_last() =~= devices@.take(i as int));
        assert(devices@.take(i + 1).last() == devices@[i as int]);
        if d.supports_swapchain {
            match graphics_queue_family(&d.queue_families) {
                Some(q) => {
                    out.push(
                        DeviceCandidate {
                            position: i,
                            device_id: d.device_id,
                            kind: d.kind,
                            queue_family_index: q,
                        },
                    );
                },
                None => {},
            }
        }
        i = i + 1;
    }
    assert(devices@.take(devices@.len() as int) =~= devices@);
    out
}

/// `i` is the device to use by default: its kind is preferred at least as much
/// as every other's, and no earlier device's kind is preferred as much.
pub open spec fn is_default_choice(candidates: Seq<DeviceCandidate>, i: int) -> bool {
    &&& 0 <= i < candidates.len()
    &&& forall|j: int|
        0 <= j < candidates.len() ==> kind_priority(candidates[i].kind) <= kind_priority(
            #[trigger] candidates[j].kind,
        )
    &&& forall|j: int|
        0 <= j < i ==> kind_priority(candidates[i].kind) < kind_priority(
            #[trigger] candidates[j].kind,
        )
}

/// `i` is the first device with this id.
pub open spec fn is_first_with_id(candidates: Seq<DeviceCandidate>, device_id: u32, i: int) -> bool {
    &&& 0 <= i < candidates.len()
    &&& candidates[i].device_id == device_id
    &&& forall|j: int| 0 <= j < i ==> (#[trigger] candidates[j]).device_id != device_id
}

/// Some device has this id.
pub open spec fn has_device_id(candidates: Seq<DeviceCandidate>, device_id: u32) -> bool {
    exists|j: int| 0 <= j < candidates.len() && (#[trigger] candidates[j]).device_id == device_id
}

/// The position of the first device with this id, if any.
pub fn find_device_id(candidates: &Vec<DeviceCandidate>, device_id: u32) -> (r: Option<usize>)
    ensures
        r is Some <==> has_device_id(candidates@, device_id),
        r matches Some(i) ==> is_first_with_id(candidates@, device_id, i as int),
{
    let mut i: usize = 0;
    while i < candidates.len()
        invariant
            i <= candidates@.len(),
            forall|j: int| 0 <= j < i ==> (#[trigger] candidates@[j]).device_id != device_id,
        decreases candidates@.len() - i,
    {
        if candidates[i].device_id == device_id {
            return Some(i);
        }
        i = i + 1;
    }
    None
}

/// The number of swapchain images: one more than the surface's minimum, or the
/// requested count if that is larger, but no more than the surface's maximum
/// (three when the surface gives none).
pub open spec fn spec_image_count(min_image_count: u32, max_image_count: Option<u32>, requested: u8) -> int {
    let wanted = if min_image_count + 1 >= requested {
        min_image_count + 1
    } else {
        requested as int
    };
    let cap = match max_image_count {
        Some(m) => m as int,
        None => 3,
    };
    if wanted <= cap {
        wanted
    } else {
        cap
    }
}

// ---------------------------------------------------------------------------
// Laws of device selection
// ---------------------------------------------------------------------------

/// There is exactly one default device: the contracts above pin the choice.
pub proof fn lemma_default_choice_unique(candidates: Seq<DeviceCandidate>, i: int, k: int)
    requires
        is_default_choice(candidates, i),
        is_default_choice(candidates, k),
    ensures
        i == k,
{
    if i < k {
        assert(kind_priority(candidates[k].kind) < kind_priority(candidates[i].kind));
    } else if k < i {
        assert(kind_priority(candidates[i].kind) < kind_priority(candidates[k].kind));
    }
}

/// A discrete GPU, when there is one, is always the default choice over any
/// other kind.
pub proof fn lemma_discrete_gpu_preferred(candidates: Seq<DeviceCandidate>, i: int, j: int)
    requires
        is_default_choice(candidates, i),
        0 <= j < candidates.len(),
        candidates[j].kind == DeviceKind::DiscreteGpu,
    ensures
        candidates[i].kind == DeviceKind::DiscreteGpu,
{
    assert(kind_priority(candidates[i].kind) <= kind_priority(candidates[j].kind));
}

/// The queue family chosen is usable and every earlier family is not.
pub proof fn lemma_first_usable_is_first(families: Seq<QueueFamilyInfo>, from: int)
    requires
        0 <= from,
    ensures
        first_usable_from(families, from) matches Some(q) ==> from <= q < families.len()
            && family_usable(families[q]) && forall|j: int|
            from <= j < q ==> !family_usable(#[trigger] families[j]),
        first_usable_from(families, from) is None ==> forall|j: int|
            from <= j < families.len() ==> !family_usable(#[trigger] families[j]),
    decreases families.len() - from,
{
    if from < families.len() {
        lemma_first_usable_is_first(families, from + 1);
    }
}

/// Every candidate kept supports the swapchain extension and renders through a
/// usable queue family of its device.
pub proof fn lemma_candidates_are_compatible(devices: Seq<PhysicalDeviceInfo>, k: int)
    requires
        0 <= k < spec_candidates(devices).len(),
        devices.len() <= usize::MAX,
    ensures
        ({
            let c = spec_candidates(devices)[k];
            let d = devices[c.position as int];
            &&& c.position < devices.len()
            &&& d.supports_swapchain
            &&& d.device_id == c.device_id
            &&& d.kind == c.kind
            &&& first_usable(d.queue_families@) matches Some(q) && c.queue_family_index == q as u32
        }),
    decreases devices.len(),
{
    let earlier = spec_candidates(devices.drop_last());
    if k < earlier.len() {
        lemma_candidates_are_compatible(devices.drop_last(), k);
        let c = earlier[k];
        assert(spec_candidates(devices)[k] == c);
        assert(devices.drop_last()[c.position as int] == devices[c.position as int]);
    }
}

/// Every device that supports the swapchain extension and has a queue family
/// that can both draw and present is kept, whatever its kind, with its id, its
/// kind and its first such family.
pub proof fn lemma_candidates_complete(devices: Seq<PhysicalDeviceInfo>, p: int)
    requires
        0 <= p < devices.len(),
        devices.len() <= usize::MAX,
        devices[p].supports_swapchain,
        first_usable(devices[p].queue_families@) is Some,
    ensures
        exists|k: int|
            0 <= k < spec_candidates(devices).len() && (#[trigger] spec_candidates(devices)[k]).position
                == p && spec_candidates(devices)[k].device_id == devices[p].device_id
                && spec_candidates(devices)[k].kind == devices[p].kind
                && spec_candidates(devices)[k].queue_family_index == first_usable(
                devices[p].queue_families@,
            )->0 as u32,
    decreases devices.len(),
{
    let earlier = spec_candidates(devices.drop_last());
    if p == devices.len() - 1 {
        let k = earlier.len() as int;
        assert(spec_candidates(devices)[k].position == p);
    } else {
        lemma_candidates_complete(devices.drop_last(), p);
        let k = choose|k: int|
            0 <= k < earlier.len() && (#[trigger] earlier[k]).position == p && earlier[k].device_id
                == devices.drop_last()[p].device_id && earlier[k].kind == devices.drop_last()[p].kind
                && earlier[k].queue_family_index == first_usable(
                devices.drop_last()[p].queue_families@,
            )->0 as u32;
        assert(spec_candidates(devices)[k] == earlier[k]);
    }
}

/// The candidates keep the order of the enumeration: their positions strictly increase.
pub proof fn lemma_candidates_in_order(devices: Seq<PhysicalDeviceInfo>, j: int, k: int)
    requires
        0 <= j < k < spec_candidates(devices).len(),
        devices.len() <= usize::MAX,
    ensures
        spec_candidates(devices)[j].position < spec_candidates(devices)[k].position,
    decreases devices.len(),
{
    let earlier = spec_candidates(devices.drop_last());
    if k < earlier.len() {
        lemma_candidates_in_order(devices.drop_last(), j, k);
        assert(spec_candidates(devices)[j] == earlier[j]);
        assert(spec_candidates(devices)[k] == earlier[k]);
    } else {
        lemma_candidates_are_compatible(devices.drop_last(), j);
        assert(spec_candidates(devices)[j] == earlier[j]);
    }
}

/// The swapchain never holds more images than the surface allows, and holds
/// exactly the requested count when that is within the surface's range.
pub proof fn lemma_image_count_bounds(min_image_count: u32, max_image_count: Option<u32>, requested: u8)
    ensures
        ({
            let cap = match max_image_count {
                Some(m) => m as int,
                None => 3,
            };
            &&& spec_image_count(min_image_count, max_image_count, requested) <= cap
            &&& min_image_count + 1 <= requested <= cap ==> spec_image_count(
                min_image_count,
                max_image_count,
                requested,
            ) == requested
            &&& min_image_count + 1 <= cap ==> spec_image_count(
                min_image_count,
                max_image_count,
                requested,
            ) >= min_image_count + 1
        }),
{
}

} // verus!
