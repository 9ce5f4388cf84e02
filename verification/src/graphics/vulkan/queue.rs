//! Queue families and the capabilities of their queues.

use vstd::prelude::*;

verus! {

/// A family of device queues: its index, the capability bits of its
/// queues (`VkQueueFlags`) and how many queues it has.
#[derive(Debug, Copy, Clone, PartialEq, Eq, Structural)]
pub struct QueueFamily {
    index: u32,
    capabilities: u32,
    queues: u32,
}

/// A set of queue capabilities, as `VkQueueFlags` bits.
#[derive(Debug, Copy, Clone, PartialEq, Eq, Structural)]
pub struct QueueCapabilities {
    pub mask: u32,
}

/// `mask` holds every bit of `required`.
pub open spec fn holds_all(mask: u32, required: u32) -> bool {
    mask & required == required
}

/// Bit number `bit` of `mask` is set.
pub open spec fn has_bit(mask: u32, bit: u32) -> bool {
    mask & (1u32 << bit) != 0
}

impl QueueFamily {
    pub closed spec fn spec_index(&self) -> u32 {
        self.index
    }

    pub closed spec fn spec_capabilities(&self) -> u32 {
        self.capabilities
    }

    pub closed spec fn spec_queues(&self) -> u32 {
        self.queues
    }

    pub fn new(index: u32, capabilities: u32, queues: u32) -> (family: QueueFamily)
        ensures
            family.spec_index() == index,
            family.spec_capabilities() == capabilities,
            family.spec_queues() == queues,
    {
        QueueFamily { index, capabilities, queues }
    }

    /// The index of the family on its device.
    pub fn index(&self) -> (index: u32)
        ensures
            index == self.spec_index(),
    {
        self.index
    }

    /// What the queues of the family can do.
    pub fn capabilities(&self) -> (capabilities: QueueCapabilities)
        ensures
            capabilities.mask == self.spec_capabilities(),
    {
        QueueCapabilities { mask: self.capabilities }
    }

    /// Returns the number of queues of this queue family.
    pub fn queues(&self) -> (queues: u32)
        ensures
            queues == self.spec_queues(),
    {
        self.queues
    }
}

/// Something that offers queue capabilities.
pub trait CapabilitiesSupport {
    spec fn spec_supports(&self, capabilities: QueueCapabilities) -> bool;

    /// Whether it offers every capability of `capabilities`.
    fn supports(&self, capabilities: QueueCapabilities) -> (supported: bool)
        ensures
            supported == self.spec_supports(capabilities),
    ;
}

impl CapabilitiesSupport for QueueFamily {
    open spec fn spec_supports(&self, capabilities: QueueCapabilities) -> bool {
        holds_all(self.spec_capabilities(), capabilities.mask)
    }

    fn supports(&self, capabilities: QueueCapabilities) -> (supported: bool) {
        QueueCapabilities::from(self.capabilities).supports(capabilities)
    }
}

impl QueueCapabilities {
    /// No capability in particular.
    #[allow(non_snake_case)]
    pub fn ANY() -> (capabilities: QueueCapabilities)
        ensures
            capabilities.mask == 0,
    {
        QueueCapabilities { mask: 0 }
    }

    #[allow(non_snake_case)]
    pub fn GRAPHICS_OPERATIONS() -> (capabilities: QueueCapabilities)
        ensures
            capabilities.mask == 1,
    {
        QueueCapabilities { mask: 1 }
    }

    #[allow(non_snake_case)]
    pub fn COMPUTE_OPERATIONS() -> (capabilities: QueueCapabilities)
        ensures
            capabilities.mask == 2,
    {
        QueueCapabilities { mask: 2 }
    }

    #[allow(non_snake_case)]
    pub fn TRANSFER_OPERATIONS() -> (capabilities: QueueCapabilities)
        ensures
            capabilities.mask == 4,
    {
        QueueCapabilities { mask: 4 }
    }

    #[allow(non_snake_case)]
    pub fn SPARSE_BINDING() -> (capabilities: QueueCapabilities)
        ensures
            capabilities.mask == 8,
    {
        QueueCapabilities { mask: 8 }
    }

    /// Whether these capabilities include every one of `other`.
    pub fn supports(&self, other: QueueCapabilities) -> (supported: bool)
        ensures
            supported == holds_all(self.mask, other.mask),
            supported <==> forall|bit: u32|
                bit < 32 ==> (#[trigger] has_bit(other.mask, bit) ==> has_bit(self.mask, bit)),
    {
        proof {
            lemma_supports_bit_by_bit(self.mask, other.mask, 0);
        }
        self.mask & other.mask == other.mask
    }
}

/// `a & b` asks for the capabilities of both `a` and `b`: its mask is the
/// union of theirs.
impl core::ops::BitAnd for QueueCapabilities {
    type Output = QueueCapabilities;

    fn bitand(self, rhs: QueueCapabilities) -> (combined: QueueCapabilities) {
        QueueCapabilities { mask: self.mask | rhs.mask }
    }
}

impl vstd::std_specs::ops::BitAndSpecImpl for QueueCapabilities {
    open spec fn obeys_bitand_spec() -> bool {
        true
    }

    open spec fn bitand_req(self, rhs: QueueCapabilities) -> bool {
        true
    }

    open spec fn bitand_spec(self, rhs: QueueCapabilities) -> QueueCapabilities {
        QueueCapabilities { mask: self.mask | rhs.mask }
    }
}

impl From<u32> for QueueCapabilities {
    fn from(value: u32) -> (capabilities: QueueCapabilities) {
        QueueCapabilities { mask: value }
    }
}

impl vstd::std_specs::convert::FromSpecImpl<u32> for QueueCapabilities {
    open spec fn obeys_from_spec() -> bool {
        true
    }

    open spec fn from_spec(value: u32) -> QueueCapabilities {
        QueueCapabilities { mask: value }
    }
}

/// Queue capabilities spelled out one by one.
#[derive(Debug, Clone, PartialEq, Eq, Structural)]
pub struct FmtQueueCapabilities {
    pub graphics_operations: bool,
    pub compute_operations: bool,
    pub transfer_operations: bool,
    pub sparse_binding: bool,
}

/// The capabilities of a mask, one by one.
pub open spec fn spelled(capabilities: u32) -> FmtQueueCapabilities {
    FmtQueueCapabilities {
        graphics_operations: capabilities & 1 > 0,
        compute_operations: capabilities & 2 > 0,
        transfer_operations: capabilities & 4 > 0,
        sparse_binding: capabilities & 8 > 0,
    }
}

impl From<u32> for FmtQueueCapabilities {
    fn from(capabilities: u32) -> (spelled: FmtQueueCapabilities) {
        FmtQueueCapabilities {
            graphics_operations: capabilities & 1 > 0,
            compute_operations: capabilities & 2 > 0,
            transfer_operations: capabilities & 4 > 0,
            sparse_binding: capabilities & 8 > 0,
        }
    }
}

impl vstd::std_specs::convert::FromSpecImpl<u32> for FmtQueueCapabilities {
    open spec fn obeys_from_spec() -> bool {
        true
    }

    open spec fn from_spec(capabilities: u32) -> FmtQueueCapabilities {
        spelled(capabilities)
    }
}

impl From<QueueCapabilities> for FmtQueueCapabilities {
    fn from(capabilities: QueueCapabilities) -> (spelled: FmtQueueCapabilities) {
        FmtQueueCapabilities::from(capabilities.mask)
    }
}

impl vstd::std_specs::convert::FromSpecImpl<QueueCapabilities> for FmtQueueCapabilities {
    open spec fn obeys_from_spec() -> bool {
        true
    }

    open spec fn from_spec(capabilities: QueueCapabilities) -> FmtQueueCapabilities {
        spelled(capabilities.mask)
    }
}

/// Capabilities are held bit by bit: a mask supports a single capability
/// bit exactly when it has that bit, and a set of capabilities exactly when
/// it has each bit of the set.
pub proof fn lemma_supports_bit_by_bit(mask: u32, required: u32, bit: u32)
    requires
        bit < 32,
    ensures
        holds_all(mask, 1u32 << bit) <==> has_bit(mask, bit),
        holds_all(mask, required) <==> forall|i: u32|
            i < 32 ==> (#[trigger] has_bit(required, i) ==> has_bit(mask, i)),
{
    assert(bit < 32 ==> ((mask & (1u32 << bit) == (1u32 << bit)) <==> (mask & (1u32 << bit) != 0)))
        by (bit_vector);
    if holds_all(mask, required) {
        assert forall|i: u32| i < 32 implies (#[trigger] has_bit(required, i) ==> has_bit(mask, i)) by {
            assert(mask & required == required && i < 32 ==> (required & (1u32 << i) != 0 ==> mask
                & (1u32 << i) != 0)) by (bit_vector);
        }
    }
    if forall|i: u32| i < 32 ==> (#[trigger] has_bit(required, i) ==> has_bit(mask, i)) {
        assert(has_bit(required, 0) ==> has_bit(mask, 0));
        assert(has_bit(required, 1) ==> has_bit(mask, 1));
        assert(has_bit(required, 2) ==> has_bit(mask, 2));
        assert(has_bit(required, 3) ==> has_bit(mask, 3));
        assert(has_bit(required, 4) ==> has_bit(mask, 4));
        assert(has_bit(required, 5) ==> has_bit(mask, 5));
        assert(has_bit(required, 6) ==> has_bit(mask, 6));
        assert(has_bit(required, 7) ==> has_bit(mask, 7));
        assert(has_bit(required, 8) ==> has_bit(mask, 8));
        assert(has_bit(required, 9) ==> has_bit(mask, 9));
        assert(has_bit(required, 10) ==> has_bit(mask, 10));
        assert(has_bit(required, 11) ==> has_bit(mask, 11));
        assert(has_bit(required, 12) ==> has_bit(mask, 12));
        assert(has_bit(required, 13) ==> has_bit(mask, 13));
        assert(has_bit(required, 14) ==> has_bit(mask, 14));
        assert(has_bit(required, 15) ==> has_bit(mask, 15));
        assert(has_bit(required, 16) ==> has_bit(mask, 16));
        assert(has_bit(required, 17) ==> has_bit(mask, 17));
        assert(has_bit(required, 18) ==> has_bit(mask, 18));
        assert(has_bit(required, 19) ==> has_bit(mask, 19));
        assert(has_bit(required, 20) ==> has_bit(mask, 20));
        assert(has_bit(required, 21) ==> has_bit(mask, 21));
        assert(has_bit(required, 22) ==> has_bit(mask, 22));
        assert(has_bit(required, 23) ==> has_bit(mask, 23));
        assert(has_bit(required, 24) ==> has_bit(mask, 24));
        assert(has_bit(required, 25) ==> has_bit(mask, 25));
        assert(has_bit(required, 26) ==> has_bit(mask, 26));
        assert(has_bit(required, 27) ==> has_bit(mask, 27));
        assert(has_bit(required, 28) ==> has_bit(mask, 28));
        assert(has_bit(required, 29) ==> has_bit(mask, 29));
        assert(has_bit(required, 30) ==> has_bit(mask, 30));
        assert(has_bit(required, 31) ==> has_bit(mask, 31));
        assert({
            &&& (required & (1u32 << 0u32) != 0 ==> mask & (1u32 << 0u32) != 0)
            &&& (required & (1u32 << 1u32) != 0 ==> mask & (1u32 << 1u32) != 0)
            &&& (required & (1u32 << 2u32) != 0 ==> mask & (1u32 << 2u32) != 0)
            &&& (required & (1u32 << 3u32) != 0 ==> mask & (1u32 << 3u32) != 0)
            &&& (required & (1u32 << 4u32) != 0 ==> mask & (1u32 << 4u32) != 0)
            &&& (required & (1u32 << 5u32) != 0 ==> mask & (1u32 << 5u32) != 0)
            &&& (required & (1u32 << 6u32) != 0 ==> mask & (1u32 << 6u32) != 0)
            &&& (required & (1u32 << 7u32) != 0 ==> mask & (1u32 << 7u32) != 0)
            &&& (required & (1u32 << 8u32) != 0 ==> mask & (1u32 << 8u32) != 0)
            &&& (required & (1u32 << 9u32) != 0 ==> mask & (1u32 << 9u32) != 0)
            &&& (required & (1u32 << 10u32) != 0 ==> mask & (1u32 << 10u32) != 0)
            &&& (required & (1u32 << 11u32) != 0 ==> mask & (1u32 << 11u32) != 0)
            &&& (required & (1u32 << 12u32) != 0 ==> mask & (1u32 << 12u32) != 0)
            &&& (required & (1u32 << 13u32) != 0 ==> mask & (1u32 << 13u32) != 0)
            &&& (required & (1u32 << 14u32) != 0 ==> mask & (1u32 << 14u32) != 0)
            &&& (required & (1u32 << 15u32) != 0 ==> mask & (1u32 << 15u32) != 0)
            &&& (required & (1u32 << 16u32) != 0 ==> mask & (1u32 << 16u32) != 0)
            &&& (required & (1u32 << 17u32) != 0 ==> mask & (1u32 << 17u32) != 0)
            &&& (required & (1u32 << 18u32) != 0 ==> mask & (1u32 << 18u32) != 0)
            &&& (required & (1u32 << 19u32) != 0 ==> mask & (1u32 << 19u32) != 0)
            &&& (required & (1u32 << 20u32) != 0 ==> mask & (1u32 << 20u32) != 0)
            &&& (required & (1u32 << 21u32) != 0 ==> mask & (1u32 << 21u32) != 0)
            &&& (required & (1u32 << 22u32) != 0 ==> mask & (1u32 << 22u32) != 0)
            &&& (required & (1u32 << 23u32) != 0 ==> mask & (1u32 << 23u32) != 0)
            &&& (required & (1u32 << 24u32) != 0 ==> mask & (1u32 << 24u32) != 0)
            &&& (required & (1u32 << 25u32) != 0 ==> mask & (1u32 << 25u32) != 0)
            &&& (required & (1u32 << 26u32) != 0 ==> mask & (1u32 << 26u32) != 0)
            &&& (required & (1u32 << 27u32) != 0 ==> mask & (1u32 << 27u32) != 0)
            &&& (required & (1u32 << 28u32) != 0 ==> mask & (1u32 << 28u32) != 0)
            &&& (required & (1u32 << 29u32) != 0 ==> mask & (1u32 << 29u32) != 0)
            &&& (required & (1u32 << 30u32) != 0 ==> mask & (1u32 << 30u32) != 0)
            &&& (required & (1u32 << 31u32) != 0 ==> mask & (1u32 << 31u32) != 0)
        } ==> mask & required == required) by (bit_vector);
    }
}

/// Supporting a set of capabilities means supporting each of them: the
/// empty set is always supported, and a union exactly when both parts are.
pub proof fn lemma_supports_union(mask: u32, a: u32, b: u32)
    ensures
        holds_all(mask, 0),
        holds_all(mask, a | b) <==> holds_all(mask, a) && holds_all(mask, b),
{
    assert(mask & 0 == 0) by (bit_vector);
    assert((mask & (a | b) == (a | b)) <==> (mask & a == a && mask & b == b)) by (bit_vector);
}

} // verus!
