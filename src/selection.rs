use vstd::prelude::*;
use crate::names::{contains_name, names_contain, names_view};

verus! {

/// What one queue family of a physical device can do.
#[derive(Clone, Copy, Debug, PartialEq, Eq, Structural)]
pub struct QueueFamilySupport {
    /// The family's flags include graphics.
    pub graphics: bool,
    /// The family can present to the window's surface.
    pub present: bool,
}

/// The queue families chosen for graphics and for presentation; they may be
/// the same family.
#[derive(Clone, Copy, Debug, PartialEq, Eq, Structural)]
pub struct QueueFamilyIndices {
    pub graphics: u32,
    pub present: u32,
}

/// The physical device chosen, as its position in the enumeration, and its
/// queue families.
#[derive(Clone, Copy, Debug, PartialEq, Eq, Structural)]
pub struct DeviceSelection {
    pub device_index: usize,
    pub families: QueueFamilyIndices,
}

/// `i` is the last family of the list with graphics support.
pub open spec fn is_last_graphics(families: Seq<QueueFamilySupport>, i: int) -> bool {
    &&& 0 <= i < families.len()
    &&& families[i].graphics
    &&& forall|j: int| i < j < families.len() ==> !(#[trigger] families[j]).graphics
}

/// `i` is the last family of the list that can present.
pub open spec fn is_last_present(families: Seq<QueueFamilySupport>, i: int) -> bool {
    &&& 0 <= i < families.len()
    &&& families[i].present
    &&& forall|j: int| i < j < families.len() ==> !(#[trigger] families[j]).present
}

pub open spec fn has_graphics(families: Seq<QueueFamilySupport>) -> bool {
    exists|i: int| 0 <= i < families.len() && (#[trigger] families[i]).graphics
}

pub open spec fn has_present(families: Seq<QueueFamilySupport>) -> bool {
    exists|i: int| 0 <= i < families.len() && (#[trigger] families[i]).present
}

/// A device is eligible when some family has graphics and some family can
/// present.
pub open spec fn eligible(families: Seq<QueueFamilySupport>) -> bool {
    has_graphics(families) && has_present(families)
}

/// The families chosen on an eligible device: the last graphics family and
/// the last presenting family.
pub open spec fn families_chosen(families: Seq<QueueFamilySupport>, q: QueueFamilyIndices) -> bool {
    is_last_graphics(families, q.graphics as int) && is_last_present(families, q.present as int)
}

pub open spec fn fits_family_index(families: Seq<QueueFamilySupport>) -> bool {
    families.len() <= u32::MAX as int + 1
}

/// Finds a graphics family and a presenting family of one device: the last
/// of each in the list. `None` when either is missing.
pub fn find_queue_families(families: &Vec<QueueFamilySupport>) -> (r: Option<QueueFamilyIndices>)
    requires
        fits_family_index(families@),
    ensures
        r is Some <==> eligible(families@),
        r matches Some(q) ==> families_chosen(families@, q),
{
    let mut graphics: Option<u32> = None;
    let mut present: Option<u32> = None;
    let mut i: usize = 0;
    while i < families.len()
        invariant
            i <= families@.len(),
            fits_family_index(families@),
            graphics is None ==> forall|j: int| 0 <= j < i ==> !(#[trigger] families@[j]).graphics,
            graphics matches Some(g) ==> g < i && families@[g as int].graphics && forall|j: int|
                g < j < i ==> !(#[trigger] families@[j]).graphics,
            present is None ==> forall|j: int| 0 <= j < i ==> !(#[trigger] families@[j]).present,
            present matches Some(p) ==> p < i && families@[p as int].present && forall|j: int|
                p < j < i ==> !(#[trigger] families@[j]).present,
        decreases families@.len() - i,
    {
        let f = families[i];
        if f.graphics {
            graphics = Some(i as u32);
        }
        if f.present {
            present = Some(i as u32);
        }
        i = i + 1;
    }
    match (graphics, present) {
        (Some(g), Some(p)) => Some(QueueFamilyIndices { graphics: g, present: p }),
        _ => {
            proof {
                if graphics is None {
                    assert(!has_graphics(families@));
                } else {
                    assert(!has_present(families@));
                }
            }
            None
        },
    }
}

/// Picks the first enumerated device that has both a graphics family and a
/// presenting family. There is no ranking: order alone decides. `None` when
/// no device qualifies.
pub fn select_device(devices: &Vec<Vec<QueueFamilySupport>>) -> (r: Option<DeviceSelection>)
    requires
        forall|d: int| 0 <= d < devices@.len() ==> fits_family_index(#[trigger] devices@[d]@),
    ensures
        r is None <==> forall|d: int| 0 <= d < devices@.len() ==> !eligible(#[trigger] devices@[d]@),
        r matches Some(s) ==> {
            &&& s.device_index < devices@.len()
            &&& eligible(devices@[s.device_index as int]@)
            &&& forall|d: int| 0 <= d < s.device_index ==> !eligible(#[trigger] devices@[d]@)
            &&& families_chosen(devices@[s.device_index as int]@, s.families)
        },
{
    let mut i: usize = 0;
    while i < devices.len()
        invariant
            i <= devices@.len(),
            forall|d: int| 0 <= d < devices@.len() ==> fits_family_index(#[trigger] devices@[d]@),
            forall|d: int| 0 <= d < i ==> !eligible(#[trigger] devices@[d]@),
        decreases devices@.len() - i,
    {
        match find_queue_families(&devices[i]) {
            Some(families) => {
                return Some(DeviceSelection { device_index: i, families });
            },
            None => {},
        }
        i = i + 1;
    }
    None
}

/// The families that get a queue-creation request: the graphics family, and
/// the present family when it is another one.
pub open spec fn queue_request_families(q: QueueFamilyIndices) -> Seq<u32> {
    if q.graphics == q.present {
        seq![q.graphics]
    } else {
        seq![q.graphics, q.present]
    }
}

/// One queue-creation request per distinct family, graphics first; each asks
/// for a single queue at full priority.
pub fn queue_family_requests(q: QueueFamilyIndices) -> (r: Vec<u32>)
    ensures
        r@ == queue_request_families(q),
        r@.no_duplicates(),
        r@.contains(q.graphics) && r@.contains(q.present),
        q.graphics == q.present ==> r@.len() == 1,
{
    let mut r: Vec<u32> = Vec::new();
    r.push(q.graphics);
    if q.graphics != q.present {
        r.push(q.present);
    }
    assert(r@ =~= queue_request_families(q));
    assert(r@[0] == q.graphics);
    assert(r@[r@.len() - 1] == q.present);
    r
}

pub open spec fn swapchain_extension() -> Seq<char> {
    "VK_KHR_swapchain"@
}

pub open spec fn portability_subset_extension() -> Seq<char> {
    "VK_KHR_portability_subset"@
}

/// The device extensions to enable given those the device offers.
pub open spec fn device_extension_choice(available: Seq<String>) -> Seq<Seq<char>> {
    if names_contain(available, portability_subset_extension()) {
        seq![swapchain_extension(), portability_subset_extension()]
    } else {
        seq![swapchain_extension()]
    }
}

/// The device extensions to enable: the swapchain extension always, the
/// portability-subset extension when the device offers it.
pub fn device_extensions(available: &Vec<String>) -> (r: Vec<String>)
    ensures
        names_view(r@) == device_extension_choice(available@),
{
    let mut r: Vec<String> = Vec::new();
    r.push(String::from_str("VK_KHR_swapchain"));
    let portability = String::from_str("VK_KHR_portability_subset");
    if contains_name(available, &portability) {
        r.push(portability);
    }
    assert(names_view(r@) =~= device_extension_choice(available@));
    r
}

} // verus!
