//! Interning of vertex attributes: each distinct attribute gets the next
//! index, and the same attribute always gets the same one back.

use vstd::prelude::*;

use crate::assets::mesh::Index;

verus! {

/// An attribute as the set keeps it: the bits of its three coordinates,
/// each in its canonical form (see [`canonical_bits`]).
pub type Attribute = (u32, u32, u32);

/// The bits that stand for the same number as the `f32` with the given
/// bits, as totally ordered floats compare them: negative zero is zero, and
/// every NaN is the one quiet NaN `0x7fc0_0000`.
pub open spec fn spec_canonical_bits(bits: u32) -> u32 {
    if bits == 0x8000_0000 {
        0
    } else if bits & 0x7f80_0000 == 0x7f80_0000 && bits & 0x007f_ffff != 0 {
        0x7fc0_0000
    } else {
        bits
    }
}

/// The canonical bits of an `f32`'s bits.
pub fn canonical_bits(bits: u32) -> (canonical: u32)
    ensures
        canonical == spec_canonical_bits(bits),
{
    if bits == 0x8000_0000 {
        0
    } else if bits & 0x7f80_0000 == 0x7f80_0000 && bits & 0x007f_ffff != 0 {
        0x7fc0_0000
    } else {
        bits
    }
}

/// The attribute of a coordinate given by the bits of its three `f32`s.
pub open spec fn spec_attribute_of_bits(x: u32, y: u32, z: u32) -> Attribute {
    (spec_canonical_bits(x), spec_canonical_bits(y), spec_canonical_bits(z))
}

/// The attribute of a coordinate given by the bits of its three `f32`s:
/// equal coordinates give the same attribute.
pub fn attribute_of_bits(x: u32, y: u32, z: u32) -> (attribute: Attribute)
    ensures
        attribute == spec_attribute_of_bits(x, y, z),
{
    (canonical_bits(x), canonical_bits(y), canonical_bits(z))
}

/// Canonical bits are their own canonical form, both zeros are one zero,
/// and all NaNs are one NaN.
pub proof fn lemma_canonical_bits(bits: u32, other: u32)
    ensures
        spec_canonical_bits(spec_canonical_bits(bits)) == spec_canonical_bits(bits),
        spec_canonical_bits(0) == spec_canonical_bits(0x8000_0000),
        (bits & 0x7f80_0000 == 0x7f80_0000 && bits & 0x007f_ffff != 0 && other & 0x7f80_0000
            == 0x7f80_0000 && other & 0x007f_ffff != 0) ==> spec_canonical_bits(bits)
            == spec_canonical_bits(other),
{
    assert({
        &&& 0x7fc0_0000u32 & 0x7f80_0000 == 0x7f80_0000 && 0x7fc0_0000u32 & 0x007f_ffff != 0
        &&& 0u32 & 0x7f80_0000 != 0x7f80_0000
        &&& bits & 0x7f80_0000 == 0x7f80_0000 ==> bits != 0x8000_0000u32
        &&& other & 0x7f80_0000 == 0x7f80_0000 ==> other != 0x8000_0000u32
    }) by (bit_vector);
}

#[verifier::external_type_specification]
#[verifier::external_body]
#[verifier::reject_recursive_types(L)]
#[verifier::reject_recursive_types(R)]
#[verifier::reject_recursive_types(LS)]
#[verifier::reject_recursive_types(RS)]
pub struct ExBiHashMap<L, R, LS, RS>(bimap::BiHashMap<L, R, LS, RS>);

/// The pairs a bidirectional map of attributes holds, left to right; no
/// right value occurs twice.
pub uninterp spec fn attribute_pairs(map: bimap::BiHashMap<(u32, u32, u32), u32>) -> Map<(u32, u32, u32), u32>;

/// The map without the pairs whose right value is `right`.
pub open spec fn without_right(pairs: Map<Attribute, Index>, right: Index) -> Map<Attribute, Index> {
    pairs.restrict(pairs.dom().filter(|left: Attribute| pairs[left] != right))
}

/// `bimap::BiHashMap::new`: an empty map.
#[verifier::external_body]
fn bimap_new() -> (created: bimap::BiHashMap<Attribute, Index>)
    ensures
        attribute_pairs(created).dom() == Set::<Attribute>::empty(),
{
    bimap::BiHashMap::new()
}

/// `bimap::BiHashMap::len`: the number of pairs.
#[verifier::external_body]
fn bimap_len(map: &bimap::BiHashMap<Attribute, Index>) -> (count: usize)
    ensures
        count == attribute_pairs(*map).len(),
{
    map.len()
}

/// `bimap::BiHashMap::get_by_left`: the right value paired with `left`.
#[verifier::external_body]
fn bimap_get_by_left(map: &bimap::BiHashMap<Attribute, Index>, left: &Attribute) -> (right: Option<u32>)
    ensures
        right == (if attribute_pairs(*map).dom().contains(*left) { Some(attribute_pairs(*map)[*left]) } else { None }),
{
    map.get_by_left(left).copied()
}

/// `bimap::BiHashMap::get_by_right`: the left value paired with `right`.
#[verifier::external_body]
fn bimap_get_by_right(map: &bimap::BiHashMap<Attribute, Index>, right: &u32) -> (left: Option<Attribute>)
    ensures
        left matches Some(l) ==> attribute_pairs(*map).dom().contains(l) && attribute_pairs(*map)[l] == *right,
        left is None ==> forall|l: Attribute| #[trigger] attribute_pairs(*map).dom().contains(l) ==> attribute_pairs(*map)[l] != *right,
{
    map.get_by_right(right).copied()
}

/// `bimap::BiHashMap::insert`: removes the pair with the left value and the
/// pair with the right value, then adds the new pair.
#[verifier::external_body]
fn bimap_insert(map: &mut bimap::BiHashMap<Attribute, Index>, left: Attribute, right: Index)
    ensures
        attribute_pairs(*final(map)) == without_right(attribute_pairs(*old(map)).remove(left), right).insert(left, right),
{
    map.insert(left, right);
}

/// A set of attributes, each with its index.
pub struct AttributeSet {
    attributes: bimap::BiHashMap<Attribute, Index>,
}

impl AttributeSet {
    /// The attributes with their indices.
    pub closed spec fn spec_indices(&self) -> Map<Attribute, Index> {
        attribute_pairs(self.attributes)
    }

    /// The indices are `0` up to the number of attributes, each given once.
    pub closed spec fn well_formed(&self) -> bool {
        let indices = attribute_pairs(self.attributes);
        &&& indices.dom().finite()
        &&& indices.len() <= u32::MAX
        &&& forall|a: Attribute| #[trigger] indices.dom().contains(a) ==> indices[a] < indices.len()
        &&& forall|a: Attribute, b: Attribute|
            #[trigger] indices.dom().contains(a) && #[trigger] indices.dom().contains(b) && a != b
                ==> indices[a] != indices[b]
    }

    /// An empty set.
    pub fn new() -> (set: AttributeSet)
        ensures
            set.well_formed(),
            set.spec_indices() == Map::<Attribute, Index>::empty(),
    {
        let set = AttributeSet { attributes: bimap_new() };
        assert(set.spec_indices() =~= Map::<Attribute, Index>::empty());
        set
    }

    /// The number of attributes.
    pub fn len(&self) -> (len: usize)
        ensures
            len == self.spec_indices().len(),
    {
        bimap_len(&self.attributes)
    }

    /// The index of the attribute: the one it has, or the next one, which
    /// it then keeps.
    pub fn insert(&mut self, attribute: Attribute) -> (index: Index)
        requires
            old(self).well_formed(),
            old(self).spec_indices().len() < u32::MAX,
        ensures
            final(self).well_formed(),
            old(self).spec_indices().dom().contains(attribute) ==> {
                &&& index == old(self).spec_indices()[attribute]
                &&& final(self).spec_indices() == old(self).spec_indices()
            },
            !old(self).spec_indices().dom().contains(attribute) ==> {
                &&& index == old(self).spec_indices().len()
                &&& final(self).spec_indices() == old(self).spec_indices().insert(attribute, index)
            },
    {
        match bimap_get_by_left(&self.attributes, &attribute) {
            Some(index) => index,
            None => {
                let len = bimap_len(&self.attributes);
                let index = len as u32;
                let ghost before = attribute_pairs(self.attributes);
                bimap_insert(&mut self.attributes, attribute, index);
                proof {
                    assert(without_right(before.remove(attribute), index) =~= before);
                    let after = before.insert(attribute, index);
                    assert(after.dom() =~= before.dom().insert(attribute));
                    assert forall|a: Attribute| #[trigger] after.dom().contains(a) implies after[a] < after.len() by {
                        if a != attribute {
                            assert(before.dom().contains(a));
                        }
                    }
                }
                index
            },
        }
    }

    /// The attribute with the index.
    pub fn get(&self, index: Index) -> (attribute: Option<Attribute>)
        ensures
            attribute matches Some(a) ==> self.spec_indices().dom().contains(a) && self.spec_indices()[a] == index,
            attribute is None ==> forall|a: Attribute| #[trigger] self.spec_indices().dom().contains(a) ==> self.spec_indices()[a] != index,
    {
        bimap_get_by_right(&self.attributes, &index)
    }
}

/// What a set of attributes keeps: its indices count up from zero and
/// no two attributes share one, so an index finds back the one attribute
/// that was given it.
pub proof fn lemma_indices_are_dense(set: &AttributeSet)
    requires
        set.well_formed(),
    ensures
        set.spec_indices().dom().finite(),
        forall|a: Attribute| #[trigger] set.spec_indices().dom().contains(a) ==> set.spec_indices()[a] < set.spec_indices().len(),
        forall|a: Attribute, b: Attribute|
            #[trigger] set.spec_indices().dom().contains(a) && #[trigger] set.spec_indices().dom().contains(b) && a != b
                ==> set.spec_indices()[a] != set.spec_indices()[b],
{
}

} // verus!
