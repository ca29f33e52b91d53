//! Choosing a physical device for a surface, and the queue families that will
//! draw and present on it.

use vstd::prelude::*;
use crate::entry::{clone_names, contains_all_names, has_all_names};
use crate::swapchain::{SharingMode, SwapchainCreateInfo};
use crate::vk::{
    flags_contain, queue_flags_contain, queue_graphics, swapchain_extension_name, QUEUE_GRAPHICS,
};

verus! {

/// One queue family of a physical device, as the host reports it.
#[derive(Clone, Copy, Debug)]
pub struct QueueFamily {
    /// The capability flags of the family's queues, as a raw value.
    pub queue_flags: u32,
    /// How many queues the family has.
    pub queue_count: u32,
    /// Whether queues of this family can present to the surface in question.
    pub present_support: bool,
}

impl QueueFamily {
    /// Whether the family's queues can draw.
    pub open spec fn is_graphics(self) -> bool {
        flags_contain(self.queue_flags, QUEUE_GRAPHICS)
    }
}

/// Whether `index` is the first family of `families` that can draw.
pub open spec fn is_first_graphics(families: Seq<QueueFamily>, index: int) -> bool {
    &&& 0 <= index < families.len()
    &&& families[index].is_graphics()
    &&& forall|j: int| 0 <= j < index ==> !(#[trigger] families[j]).is_graphics()
}

/// Whether `index` is the first family of `families` that can present.
pub open spec fn is_first_present(families: Seq<QueueFamily>, index: int) -> bool {
    &&& 0 <= index < families.len()
    &&& families[index].present_support
    &&& forall|j: int| 0 <= j < index ==> !(#[trigger] families[j]).present_support
}

/// Whether some family of `families` can draw.
pub open spec fn has_graphics(families: Seq<QueueFamily>) -> bool {
    exists|i: int| 0 <= i < families.len() && (#[trigger] families[i]).is_graphics()
}

/// Whether some family of `families` can present.
pub open spec fn has_present(families: Seq<QueueFamily>) -> bool {
    exists|i: int| 0 <= i < families.len() && (#[trigger] families[i]).present_support
}

/// The family that draws and the family that presents, by their indices in the
/// device's list of queue families.
#[derive(Clone, Copy, Debug, PartialEq, Eq, Structural)]
pub struct GraphicsAndPresentQueueFamilyId {
    /// Index of the family whose queue draws.
    pub graphics: u32,
    /// Index of the family whose queue presents.
    pub presents: u32,
}

/// What the resolver owes for `families`: the first family that can draw and
/// the first that can present, or nothing where one of the two roles cannot be
/// filled.
pub open spec fn resolves_to(
    families: Seq<QueueFamily>,
    result: Option<GraphicsAndPresentQueueFamilyId>,
) -> bool {
    match result {
        Some(id) => is_first_graphics(families, id.graphics as int) && is_first_present(
            families,
            id.presents as int,
        ),
        None => !has_graphics(families) || !has_present(families),
    }
}

impl GraphicsAndPresentQueueFamilyId {
    /// Scans the families in index order and takes, independently, the first
    /// that can draw and the first that can present. The scan ends as soon as
    /// both are found.
    pub fn get_from_device_and_surface(queue_families: &Vec<QueueFamily>) -> (result: Option<Self>)
        requires
            queue_families@.len() <= u32::MAX,
        ensures
            resolves_to(queue_families@, result),
            result.is_some() <==> has_graphics(queue_families@) && has_present(queue_families@),
            result matches Some(id) ==> id.graphics < queue_families@.len() && id.presents
                < queue_families@.len(),
    {
        let graphics_flag: u32 = queue_graphics();
        let mut graphics: Option<u32> = None;
        let mut presents: Option<u32> = None;
        let mut i: u32 = 0;
        while (i as usize) < queue_families.len()
            invariant
                i <= queue_families@.len() <= u32::MAX,
                graphics_flag == QUEUE_GRAPHICS,
                graphics.is_none() || presents.is_none(),
                match graphics {
                    Some(g) => is_first_graphics(queue_families@, g as int) && g < i,
                    None => forall|j: int| 0 <= j < i ==> !(#[trigger] queue_families@[j]).is_graphics(),
                },
                match presents {
                    Some(p) => is_first_present(queue_families@, p as int) && p < i,
                    None => forall|j: int| 0 <= j < i ==> !(#[trigger] queue_families@[j]).present_support,
                },
            decreases queue_families@.len() - i,
        {
            let family: &QueueFamily = &queue_families[i as usize];
            if graphics.is_none() && queue_flags_contain(family.queue_flags, graphics_flag) {
                graphics = Some(i);
            }
            if presents.is_none() && family.present_support {
                presents = Some(i);
            }
            match (graphics, presents) {
                (Some(g), Some(p)) => {
                    return Some(GraphicsAndPresentQueueFamilyId { graphics: g, presents: p });
                },
                _ => {},
            }
            i += 1;
        }
        None
    }

    /// Tells whether one family both draws and presents.
    pub fn is_same_queue_family(&self) -> (same: bool)
        ensures
            same == (self.graphics == self.presents),
    {
        self.graphics == self.presents
    }
}

/// A device whose only family can both draw and present resolves to that
/// family in both roles.
pub proof fn lemma_single_shared_family_is_unified(
    families: Seq<QueueFamily>,
    result: Option<GraphicsAndPresentQueueFamilyId>,
)
    requires
        families.len() == 1,
        families[0].is_graphics(),
        families[0].present_support,
        resolves_to(families, result),
    ensures
        result == Some(GraphicsAndPresentQueueFamilyId { graphics: 0, presents: 0 }),
{
    assert(has_graphics(families));
    assert(has_present(families));
}

/// What the resolver owes is owed once: two answers for the same families are
/// the same answer.
pub proof fn lemma_resolution_is_unique(
    families: Seq<QueueFamily>,
    first: Option<GraphicsAndPresentQueueFamilyId>,
    second: Option<GraphicsAndPresentQueueFamilyId>,
)
    requires
        resolves_to(families, first),
        resolves_to(families, second),
    ensures
        first == second,
{
    match (first, second) {
        (Some(a), Some(b)) => {
            assert(a.graphics == b.graphics) by {
                if a.graphics < b.graphics {
                    assert(families[a.graphics as int].is_graphics());
                } else if b.graphics < a.graphics {
                    assert(families[b.graphics as int].is_graphics());
                }
            }
            assert(a.presents == b.presents) by {
                if a.presents < b.presents {
                    assert(families[a.presents as int].present_support);
                } else if b.presents < a.presents {
                    assert(families[b.presents as int].present_support);
                }
            }
        },
        (Some(a), None) => {
            assert(families[a.graphics as int].is_graphics());
            assert(families[a.presents as int].present_support);
        },
        (None, Some(b)) => {
            assert(families[b.graphics as int].is_graphics());
            assert(families[b.presents as int].present_support);
        },
        (None, None) => {},
    }
}

/// A physical device as it was enumerated: the host's handle for it, the names
/// of the device extensions that it offers, and its queue families, each with
/// the answer to whether it can present to the surface in question.
pub struct PhysicalDeviceCandidate {
    /// The host's handle for the device, as a raw value.
    pub physical_device: u64,
    /// The names of the device extensions that the device offers.
    pub extension_names: Vec<String>,
    /// The device's queue families, in the host's order.
    pub queue_families: Vec<QueueFamily>,
}

/// Why a candidate cannot serve.
#[derive(Clone, Copy, Debug, PartialEq, Eq, Structural)]
pub enum Rejection {
    /// A required device extension is not offered.
    MissingExtension,
    /// The extensions are there, but no family can draw or none can present.
    MissingQueueRole,
}

impl PhysicalDeviceCandidate {
    /// A host counts queue families in 32 bits.
    pub open spec fn wf(&self) -> bool {
        self.queue_families@.len() <= u32::MAX
    }

    /// Whether the device offers every name of `required` and has a family for
    /// each of the two roles.
    pub open spec fn is_suitable(&self, required: Seq<String>) -> bool {
        &&& has_all_names(self.extension_names@, required)
        &&& has_graphics(self.queue_families@)
        &&& has_present(self.queue_families@)
    }

    /// Why the device is turned down, if it is: a missing extension is found
    /// before a missing queue role.
    pub open spec fn rejection(&self, required: Seq<String>) -> Option<Rejection> {
        if !has_all_names(self.extension_names@, required) {
            Some(Rejection::MissingExtension)
        } else if !has_graphics(self.queue_families@) || !has_present(self.queue_families@) {
            Some(Rejection::MissingQueueRole)
        } else {
            None
        }
    }

    /// Tells why the device is turned down, or `None` where it is suitable.
    pub fn examine(&self, required: &Vec<String>) -> (verdict: Option<Rejection>)
        requires
            self.wf(),
        ensures
            verdict == self.rejection(required@),
            verdict.is_none() <==> self.is_suitable(required@),
    {
        if !is_physical_device_supported_extensions(self, required) {
            Some(Rejection::MissingExtension)
        } else if GraphicsAndPresentQueueFamilyId::get_from_device_and_surface(
            &self.queue_families,
        ).is_none() {
            Some(Rejection::MissingQueueRole)
        } else {
            None
        }
    }
}

/// Tells whether the device offers every extension of
/// `all_required_extension_names`.
pub fn is_physical_device_supported_extensions(
    physical_device: &PhysicalDeviceCandidate,
    all_required_extension_names: &Vec<String>,
) -> (supported: bool)
    ensures
        supported == has_all_names(
            physical_device.extension_names@,
            all_required_extension_names@,
        ),
{
    contains_all_names(&physical_device.extension_names, all_required_extension_names)
}

/// The device extensions without which no device can show anything on a
/// surface: the swapchain extension, and nothing else.
pub open spec fn required_extensions(names: Seq<String>) -> bool {
    names.len() == 1 && names[0]@ == "VK_KHR_swapchain"@
}

/// The names of the device extensions that a device must offer to be chosen.
pub fn required_extension_names_for_surface() -> (names: Vec<String>)
    ensures
        required_extensions(names@),
{
    let mut names: Vec<String> = Vec::new();
    names.push(swapchain_extension_name());
    names
}

/// The request for the queues of one family: a single queue, at the default
/// priority.
#[derive(Clone, Copy, Debug, PartialEq, Eq, Structural)]
pub struct DeviceQueueCreateInfo {
    /// Index of the family.
    pub queue_family_index: u32,
    /// How many queues of the family are created.
    pub queue_count: u32,
}

/// The queue requests that go with an assignment: one where a single family
/// serves both roles, else one for the family that draws followed by one for
/// the family that presents.
pub open spec fn queue_requests(id: GraphicsAndPresentQueueFamilyId) -> Seq<
    DeviceQueueCreateInfo,
> {
    if id.graphics == id.presents {
        seq![DeviceQueueCreateInfo { queue_family_index: id.graphics, queue_count: 1 }]
    } else {
        seq![
            DeviceQueueCreateInfo { queue_family_index: id.graphics, queue_count: 1 },
            DeviceQueueCreateInfo { queue_family_index: id.presents, queue_count: 1 },
        ]
    }
}

/// What the logical device of the chosen candidate is created with.
pub struct DeviceCreateInfo {
    /// Position of the chosen candidate among those that were offered.
    pub candidate_index: usize,
    /// The chosen candidate's handle.
    pub physical_device: u64,
    /// The families that draw and present.
    pub queue_family_ids: GraphicsAndPresentQueueFamilyId,
    /// One request per family in use.
    pub queue_create_infos: Vec<DeviceQueueCreateInfo>,
    /// The device extensions to enable: those that were required.
    pub enabled_extension_names: Vec<String>,
}

/// Whether `info` describes the first suitable candidate of `candidates`.
pub open spec fn selects(
    candidates: Seq<PhysicalDeviceCandidate>,
    required: Seq<String>,
    info: DeviceCreateInfo,
) -> bool {
    let i = info.candidate_index as int;
    &&& 0 <= i < candidates.len()
    &&& candidates[i].is_suitable(required)
    &&& forall|j: int| 0 <= j < i ==> !(#[trigger] candidates[j]).is_suitable(required)
    &&& info.physical_device == candidates[i].physical_device
    &&& resolves_to(candidates[i].queue_families@, Some(info.queue_family_ids))
    &&& info.queue_create_infos@ == queue_requests(info.queue_family_ids)
    &&& info.enabled_extension_names@ == required
}

/// Whether no candidate of `candidates` is suitable.
pub open spec fn none_suitable(
    candidates: Seq<PhysicalDeviceCandidate>,
    required: Seq<String>,
) -> bool {
    forall|j: int| 0 <= j < candidates.len() ==> !(#[trigger] candidates[j]).is_suitable(required)
}

/// Whether every candidate of `candidates` is well formed.
pub open spec fn all_wf(candidates: Seq<PhysicalDeviceCandidate>) -> bool {
    forall|j: int| 0 <= j < candidates.len() ==> (#[trigger] candidates[j]).wf()
}

/// The selection is decided by the candidates and the required names: two
/// descriptions of the first suitable candidate name the same candidate, the
/// same families and the same queue requests.
pub proof fn lemma_selection_is_unique(
    candidates: Seq<PhysicalDeviceCandidate>,
    required: Seq<String>,
    first: DeviceCreateInfo,
    second: DeviceCreateInfo,
)
    requires
        selects(candidates, required, first),
        selects(candidates, required, second),
    ensures
        first.candidate_index == second.candidate_index,
        first.physical_device == second.physical_device,
        first.queue_family_ids == second.queue_family_ids,
        first.queue_create_infos@ == second.queue_create_infos@,
        first.enabled_extension_names@ == second.enabled_extension_names@,
{
    let i = first.candidate_index as int;
    let j = second.candidate_index as int;
    assert(i == j) by {
        if i < j {
            assert(candidates[i].is_suitable(required));
        } else if j < i {
            assert(candidates[j].is_suitable(required));
        }
    }
    lemma_resolution_is_unique(
        candidates[i].queue_families@,
        Some(first.queue_family_ids),
        Some(second.queue_family_ids),
    );
}

/// Builds the queue requests that go with an assignment.
pub fn queue_create_infos_for(id: GraphicsAndPresentQueueFamilyId) -> (infos: Vec<
    DeviceQueueCreateInfo,
>)
    ensures
        infos@ == queue_requests(id),
{
    let mut infos: Vec<DeviceQueueCreateInfo> = Vec::new();
    infos.push(DeviceQueueCreateInfo { queue_family_index: id.graphics, queue_count: 1 });
    if !id.is_same_queue_family() {
        infos.push(DeviceQueueCreateInfo { queue_family_index: id.presents, queue_count: 1 });
    }
    proof {
        assert(infos@ =~= queue_requests(id));
    }
    infos
}

/// A logical device that was created for a surface, with the queues that draw
/// and present.
#[derive(Clone, Copy, Debug, PartialEq, Eq, Structural)]
pub struct VulkanDevice {
    /// The physical device's handle.
    pub physical_device: u64,
    /// The logical device's handle.
    pub logical_device: u64,
    /// The families of the two queues.
    pub queue_family_ids: GraphicsAndPresentQueueFamilyId,
    /// The queue that draws.
    pub graphics_queue: u64,
    /// The queue that presents; where one family serves both roles, the queue
    /// that draws.
    pub present_queue: u64,
}

impl VulkanDevice {
    /// Takes the first candidate, in the order given, that offers every
    /// required extension and has a family for each role, and describes the
    /// logical device to create on it. Later candidates are not compared with
    /// it. `None` means that no candidate is suitable.
    pub fn select_suitable_device_for_surface(
        candidates: &Vec<PhysicalDeviceCandidate>,
        required_extension_names: &Vec<String>,
    ) -> (selection: Option<DeviceCreateInfo>)
        requires
            all_wf(candidates@),
        ensures
            match selection {
                Some(info) => selects(candidates@, required_extension_names@, info),
                None => none_suitable(candidates@, required_extension_names@),
            },
            selection matches Some(info) ==> has_all_names(
                candidates@[info.candidate_index as int].extension_names@,
                required_extension_names@,
            ),
            selection matches Some(info) ==> (info.queue_family_ids.graphics as int)
                < candidates@[info.candidate_index as int].queue_families@.len() && (
            info.queue_family_ids.presents as int)
                < candidates@[info.candidate_index as int].queue_families@.len(),
    {
        let mut i: usize = 0;
        while i < candidates.len()
            invariant
                i <= candidates.len(),
                all_wf(candidates@),
                forall|j: int|
                    0 <= j < i ==> !(#[trigger] candidates@[j]).is_suitable(
                        required_extension_names@,
                    ),
            decreases candidates.len() - i,
        {
            let candidate: &PhysicalDeviceCandidate = &candidates[i];
            if is_physical_device_supported_extensions(candidate, required_extension_names) {
                match GraphicsAndPresentQueueFamilyId::get_from_device_and_surface(
                    &candidate.queue_families,
                ) {
                    Some(id) => {
                        return Some(
                            DeviceCreateInfo {
                                candidate_index: i,
                                physical_device: candidate.physical_device,
                                queue_family_ids: id,
                                queue_create_infos: queue_create_infos_for(id),
                                enabled_extension_names: clone_names(required_extension_names),
                            },
                        );
                    },
                    None => {},
                }
            }
            i += 1;
        }
        None
    }

    /// Tells of each candidate why it is turned down, in the order given;
    /// `None` stands for a suitable candidate.
    pub fn explain_rejections(
        candidates: &Vec<PhysicalDeviceCandidate>,
        required_extension_names: &Vec<String>,
    ) -> (verdicts: Vec<Option<Rejection>>)
        requires
            all_wf(candidates@),
        ensures
            verdicts@.len() == candidates@.len(),
            forall|j: int|
                0 <= j < candidates@.len() ==> #[trigger] verdicts@[j] == candidates@[j].rejection(
                    required_extension_names@,
                ),
    {
        let mut verdicts: Vec<Option<Rejection>> = Vec::new();
        let mut i: usize = 0;
        while i < candidates.len()
            invariant
                i <= candidates.len(),
                all_wf(candidates@),
                verdicts@.len() == i,
                forall|j: int|
                    0 <= j < i ==> #[trigger] verdicts@[j] == candidates@[j].rejection(
                        required_extension_names@,
                    ),
            decreases candidates.len() - i,
        {
            verdicts.push(candidates[i].examine(required_extension_names));
            i += 1;
        }
        verdicts
    }

    /// Records the logical device that was created from `info`, and its
    /// queues. Where one family serves both roles there is one queue, the one
    /// that draws, and `present_queue` is not looked at.
    pub fn new(
        info: &DeviceCreateInfo,
        logical_device: u64,
        graphics_queue: u64,
        present_queue: u64,
    ) -> (device: Self)
        ensures
            device.physical_device == info.physical_device,
            device.logical_device == logical_device,
            device.queue_family_ids == info.queue_family_ids,
            device.graphics_queue == graphics_queue,
            device.present_queue == if info.queue_family_ids.graphics
                == info.queue_family_ids.presents {
                graphics_queue
            } else {
                present_queue
            },
    {
        let same: bool = info.queue_family_ids.is_same_queue_family();
        VulkanDevice {
            physical_device: info.physical_device,
            logical_device,
            queue_family_ids: info.queue_family_ids,
            graphics_queue,
            present_queue: if same {
                graphics_queue
            } else {
                present_queue
            },
        }
    }

    /// Whether images of a swapchain on this device are shared between two
    /// families.
    pub open spec fn shares_images(&self) -> bool {
        self.queue_family_ids.graphics != self.queue_family_ids.presents
    }

    /// Completes the parameters of a swapchain with what depends on the
    /// device's queues. Where two families are in use the images are shared
    /// concurrently between exactly those two, else they belong to one family
    /// exclusively. Nothing else is changed.
    pub fn create_swapchain(&self, swapchain_create_info: &mut SwapchainCreateInfo)
        ensures
            final(swapchain_create_info).image_sharing_mode == if self.shares_images() {
                SharingMode::Concurrent
            } else {
                SharingMode::Exclusive
            },
            final(swapchain_create_info).queue_family_indices@ == if self.shares_images() {
                seq![self.queue_family_ids.graphics, self.queue_family_ids.presents]
            } else {
                Seq::<u32>::empty()
            },
            *final(swapchain_create_info) == (SwapchainCreateInfo {
                image_sharing_mode: final(swapchain_create_info).image_sharing_mode,
                queue_family_indices: final(swapchain_create_info).queue_family_indices,
                ..*old(swapchain_create_info)
            }),
    {
        let mut indices: Vec<u32> = Vec::new();
        if self.queue_family_ids.is_same_queue_family() {
            swapchain_create_info.image_sharing_mode = SharingMode::Exclusive;
        } else {
            swapchain_create_info.image_sharing_mode = SharingMode::Concurrent;
            indices.push(self.queue_family_ids.graphics);
            indices.push(self.queue_family_ids.presents);
        }
        proof {
            if self.shares_images() {
                assert(indices@ =~= seq![
                    self.queue_family_ids.graphics,
                    self.queue_family_ids.presents,
                ]);
            }
        }
        swapchain_create_info.queue_family_indices = indices;
    }
}

} // verus!
