//! Choosing the queue family a logical device is made with.

use vstd::prelude::*;

use crate::graphics::vulkan::queue::{
    has_bit,
    holds_all,
    lemma_supports_bit_by_bit,
    spelled,
    CapabilitiesSupport,
    FmtQueueCapabilities,
    QueueCapabilities,
    QueueFamily,
};
use crate::graphics::vulkan::VulkanError;

verus! {

/// Why a device could not be made.
#[derive(Debug, Clone)]
pub enum DeviceError {
    /// No family of the physical device offers the requested capabilities
    /// with the requested number of queues; `found` lists all its families.
    NoSatisfyingQueueFamilyFound {
        requested_queue_flags: FmtQueueCapabilities,
        requested_queue_count: u32,
        found: Vec<QueueFamily>,
    },
    DeviceInstantiationError { source: VulkanError },
}

impl From<VulkanError> for DeviceError {
    fn from(source: VulkanError) -> (error: DeviceError) {
        DeviceError::DeviceInstantiationError { source }
    }
}

impl vstd::std_specs::convert::FromSpecImpl<VulkanError> for DeviceError {
    open spec fn obeys_from_spec() -> bool {
        true
    }

    open spec fn from_spec(source: VulkanError) -> DeviceError {
        DeviceError::DeviceInstantiationError { source }
    }
}

/// The family offers every requested capability and at least `queue_count`
/// queues.
pub open spec fn fits(family: QueueFamily, capabilities: QueueCapabilities, queue_count: u32) -> bool {
    holds_all(family.spec_capabilities(), capabilities.mask) && family.spec_queues() >= queue_count
}

/// The families that fit, in the order of the device.
pub open spec fn spec_queue_families(
    families: Seq<QueueFamily>,
    capabilities: QueueCapabilities,
    queue_count: u32,
) -> Seq<QueueFamily> {
    families.filter(|family: QueueFamily| fits(family, capabilities, queue_count))
}

/// The families of a device that offer the capabilities with at least
/// `queue_count` queues, in the order of the device.
pub fn queue_families(
    families: &Vec<QueueFamily>,
    capabilities: QueueCapabilities,
    queue_count: u32,
) -> (found: Vec<QueueFamily>)
    ensures
        found@ == spec_queue_families(families@, capabilities, queue_count),
{
    let ghost pred = |family: QueueFamily| fits(family, capabilities, queue_count);
    let mut found: Vec<QueueFamily> = Vec::new();
    let mut i: usize = 0;
    while i < families.len()
        invariant
            0 <= i <= families@.len(),
            pred == (|family: QueueFamily| fits(family, capabilities, queue_count)),
            found@ == families@.take(i as int).filter(pred),
        decreases families@.len() - i,
    {
        let family = families[i];
        proof {
            reveal(Seq::filter);
            assert(families@.take(i + 1).drop_last() =~= families@.take(i as int));
            assert(families@.take(i + 1).last() == family);
        }
        if family.supports(capabilities) && family.queues() >= queue_count {
            found.push(family);
        }
        i = i + 1;
    }
    assert(families@.take(families@.len() as int) =~= families@);
    found
}

/// The family a device is made with: the first that fits, or the error
/// that lists every family of the device.
pub open spec fn spec_select_queue_family(
    families: Seq<QueueFamily>,
    capabilities: QueueCapabilities,
    queue_count: u32,
) -> Option<QueueFamily> {
    let fitting = spec_queue_families(families, capabilities, queue_count);
    if fitting.len() > 0 {
        Some(fitting[0])
    } else {
        None
    }
}

/// Chooses the queue family for a device that is to have `queue_count`
/// queues with the given capabilities.
pub fn select_queue_family(
    families: &Vec<QueueFamily>,
    capabilities: QueueCapabilities,
    queue_count: u32,
) -> (selected: Result<QueueFamily, DeviceError>)
    ensures
        match selected {
            Ok(family) => spec_select_queue_family(families@, capabilities, queue_count) == Some(
                family,
            ),
            Err(error) => {
                &&& spec_select_queue_family(families@, capabilities, queue_count) is None
                &&& error matches DeviceError::NoSatisfyingQueueFamilyFound {
                    requested_queue_flags,
                    requested_queue_count,
                    found,
                }
                &&& requested_queue_flags == spelled(capabilities.mask)
                &&& requested_queue_count == queue_count
                &&& found@ == spec_queue_families(families@, QueueCapabilities { mask: 0 }, 0)
            },
        },
{
    let fitting = queue_families(families, capabilities, queue_count);
    if fitting.len() > 0 {
        Ok(fitting[0])
    } else {
        Err(
            DeviceError::NoSatisfyingQueueFamilyFound {
                requested_queue_flags: FmtQueueCapabilities::from(capabilities),
                requested_queue_count: queue_count,
                found: queue_families(families, QueueCapabilities::ANY(), 0),
            },
        )
    }
}

/// What the selection promises: the chosen family offers the capabilities
/// and the queues, and no family before it in the device's order does;
/// nothing is chosen only when no family does.
pub proof fn lemma_selected_family_is_first_fit(
    families: Seq<QueueFamily>,
    capabilities: QueueCapabilities,
    queue_count: u32,
)
    ensures
        match spec_select_queue_family(families, capabilities, queue_count) {
            Some(family) => {
                &&& fits(family, capabilities, queue_count)
                &&& exists|i: int|
                    0 <= i < families.len() && families[i] == family && (forall|j: int|
                        0 <= j < i ==> !fits(#[trigger] families[j], capabilities, queue_count))
            },
            None => forall|i: int|
                0 <= i < families.len() ==> !fits(#[trigger] families[i], capabilities, queue_count),
        },
    decreases families.len(),
{
    reveal(Seq::filter);
    let pred = |family: QueueFamily| fits(family, capabilities, queue_count);
    if families.len() == 0 {
    } else {
        let rest = families.drop_last();
        lemma_selected_family_is_first_fit(rest, capabilities, queue_count);
        assert(spec_queue_families(families, capabilities, queue_count) == if pred(families.last()) {
            spec_queue_families(rest, capabilities, queue_count).push(families.last())
        } else {
            spec_queue_families(rest, capabilities, queue_count)
        });
        match spec_select_queue_family(rest, capabilities, queue_count) {
            Some(family) => {
                let i = choose|i: int|
                    0 <= i < rest.len() && rest[i] == family && (forall|j: int|
                        0 <= j < i ==> !fits(#[trigger] rest[j], capabilities, queue_count));
                assert(families[i] == family);
                assert forall|j: int| 0 <= j < i implies !fits(
                    #[trigger] families[j],
                    capabilities,
                    queue_count,
                ) by {
                    assert(families[j] == rest[j]);
                }
            },
            None => {
                assert forall|i: int| 0 <= i < rest.len() implies !fits(
                    #[trigger] families[i],
                    capabilities,
                    queue_count,
                ) by {
                    assert(families[i] == rest[i]);
                }
                if pred(families.last()) {
                    let i = families.len() - 1;
                    assert(families[i] == families.last());
                }
            },
        }
    }
}

/// A family is listed, or chosen, only when its queues have every requested
/// capability: a family that lacks a requested capability bit is neither
/// listed nor chosen.
pub proof fn lemma_families_have_requested_bits(
    families: Seq<QueueFamily>,
    capabilities: QueueCapabilities,
    queue_count: u32,
    bit: u32,
)
    requires
        bit < 32,
        has_bit(capabilities.mask, bit),
    ensures
        forall|k: int|
            0 <= k < spec_queue_families(families, capabilities, queue_count).len() ==> has_bit(
                (#[trigger] spec_queue_families(families, capabilities, queue_count)[k]).spec_capabilities(),
                bit,
            ),
        forall|k: int|
            0 <= k < families.len() && !has_bit(families[k].spec_capabilities(), bit)
                ==> !spec_queue_families(families, capabilities, queue_count).contains(
                #[trigger] families[k],
            ),
        spec_select_queue_family(families, capabilities, queue_count) matches Some(family)
            ==> has_bit(family.spec_capabilities(), bit),
{
    let pred = |family: QueueFamily| fits(family, capabilities, queue_count);
    let listed = spec_queue_families(families, capabilities, queue_count);
    families.filter_lemma(pred);
    assert forall|k: int| 0 <= k < listed.len() implies has_bit(
        (#[trigger] listed[k]).spec_capabilities(),
        bit,
    ) by {
        assert(pred(listed[k]));
        lemma_supports_bit_by_bit(listed[k].spec_capabilities(), capabilities.mask, bit);
    }
    assert forall|k: int|
        0 <= k < families.len() && !has_bit(families[k].spec_capabilities(), bit) implies !listed.contains(
        #[trigger] families[k],
    ) by {
        if listed.contains(families[k]) {
            let m = choose|m: int| 0 <= m < listed.len() && listed[m] == families[k];
            assert(has_bit(listed[m].spec_capabilities(), bit));
        }
    }
    if listed.len() > 0 {
        assert(has_bit(listed[0].spec_capabilities(), bit));
    }
}

/// Every family offers no capability in particular with at least no
/// queue, so asking for that lists all families.
pub proof fn lemma_any_capabilities_keep_all(families: Seq<QueueFamily>)
    ensures
        spec_queue_families(families, QueueCapabilities { mask: 0 }, 0) == families,
    decreases families.len(),
{
    reveal(Seq::filter);
    if families.len() > 0 {
        lemma_any_capabilities_keep_all(families.drop_last());
        let mask = families.last().spec_capabilities();
        assert(mask & 0 == 0) by (bit_vector);
        assert(families.drop_last().push(families.last()) =~= families);
    }
}

} // verus!
