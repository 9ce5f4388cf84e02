//! The lattice of a gradient noise: how a seed text becomes a seed, the
//! permutation table drawn from it, and how lattice coordinates pick a
//! gradient. The gradients themselves and the interpolation between them
//! are floating point.

use rand::{Rng, SeedableRng};
use sha2::Digest;

use vstd::prelude::*;
use vstd::string::StringSliceAdditionalSpecFns;

use crate::util::is_power_of_two;

verus! {

/// How a value between two lattice points is found: their midpoint, or
/// along a line or a cosine curve between them.
#[derive(Debug, Copy, Clone, PartialEq, Eq, Structural)]
pub enum Interpolation {
    Midpoint,
    Linear,
    Cosine,
}

/// The SHA-256 digest of the bytes.
pub uninterp spec fn sha256(data: Seq<u8>) -> Seq<u8>;

/// `sha2::Sha256::digest`: the SHA-256 digest of the bytes, which depends
/// on them alone.
#[verifier::external_body]
fn sha256_digest(data: &[u8]) -> (digest: [u8; 32])
    ensures
        digest@ == sha256(data@),
{
    sha2::Sha256::digest(data).into()
}

/// The first `count` draws from `rand::distributions::Uniform::new(0, size)`
/// with a `StdRng` seeded by `rand::SeedableRng::from_seed`. The crate
/// documents that such draws lie in `[0, size)` and that it panics on an
/// empty range. Which numbers are drawn is left unsaid: `StdRng` documents
/// itself as not reproducible across configurations and versions, and the
/// `usize` sampler works in the width of `usize`, so the same seed gives
/// other draws on a 32-bit target than on a 64-bit one.
#[verifier::external_body]
fn uniform_draws(seed: [u8; 32], size: usize, count: usize) -> (draws: Vec<usize>)
    requires
        size > 0,
    ensures
        draws@.len() == count,
        forall|i: int| 0 <= i < count ==> #[trigger] draws@[i] < size,
{
    rand::rngs::StdRng::from_seed(seed).sample_iter(rand::distributions::Uniform::new(0usize, size)).take(count).collect()
}

/// The seed of a noise: the SHA-256 digest of the seed text's UTF-8 bytes.
pub fn noise_seed(text: &str) -> (seed: [u8; 32])
    ensures
        seed@ == sha256(text.spec_bytes()),
{
    sha256_digest(text.as_bytes())
}

/// The sizes a lattice can have: a power of two whose mask `size - 1` is
/// an `i32`, so at most `2^31`, and whose table of `2 * size` entries can
/// be counted in a `usize`.
pub open spec fn is_lattice_size(size: usize) -> bool {
    &&& 0 < size <= 0x8000_0000
    &&& 2 * size <= usize::MAX
    &&& is_power_of_two(size as u64)
}

/// The permutation table of a noise lattice of `size` points per axis:
/// `2 * size` entries, each a lattice coordinate.
pub struct PermutationTable {
    table: Vec<usize>,
    size: usize,
}

impl PermutationTable {
    #[verifier::type_invariant]
    spec fn entries_are_coordinates(self) -> bool {
        &&& is_lattice_size(self.size)
        &&& self.table@.len() == 2 * self.size
        &&& forall|i: int| 0 <= i < self.table@.len() ==> #[trigger] self.table@[i] < self.size
    }

    pub closed spec fn spec_table(&self) -> Seq<usize> {
        self.table@
    }

    pub closed spec fn spec_size(&self) -> usize {
        self.size
    }

    /// The table of the lattice of `size` points per axis drawn from the
    /// seed, as the noise is made with.
    pub fn from_seed(seed: [u8; 32], size: usize) -> (table: PermutationTable)
        requires
            is_lattice_size(size),
        ensures
            table.spec_size() == size,
            table.spec_table().len() == 2 * size,
            forall|i: int| 0 <= i < 2 * size ==> #[trigger] table.spec_table()[i] < size,
    {
        PermutationTable { table: uniform_draws(seed, size, 2 * size), size }
    }

    /// The number of lattice points per axis.
    pub fn size(&self) -> (size: usize)
        ensures
            size == self.spec_size(),
    {
        self.size
    }

    /// The lattice coordinate a coordinate wraps to: its low bits.
    pub fn to_index(&self, value: i32) -> (index: i32)
        ensures
            index == value & ((self.spec_size() - 1) as i32),
            0 <= index < self.spec_size(),
    {
        proof {
            use_type_invariant(self);
        }
        let mask = (self.size - 1) as i32;
        let index = value & mask;
        proof {
            assert(mask >= 0 ==> 0 <= value & mask <= mask) by (bit_vector);
        }
        index
    }

    /// The gradient at a lattice point: the table is looked up at `x`, then
    /// at that entry plus `y`, then at that entry plus `z`.
    pub open spec fn spec_lattice_index(table: Seq<usize>, x: int, y: int, z: int) -> usize {
        table[table[table[x] + y] + z]
    }

    /// The index of the gradient of a lattice point.
    pub fn lattice_index(&self, x: usize, y: usize, z: usize) -> (index: usize)
        requires
            x < self.spec_size(),
            y < self.spec_size(),
            z < self.spec_size(),
        ensures
            index == PermutationTable::spec_lattice_index(self.spec_table(), x as int, y as int, z as int),
            index == self.spec_table()[self.spec_table()[self.spec_table()[x as int] + y] + z],
            index < self.spec_size(),
    {
        proof {
            use_type_invariant(self);
        }
        let first = self.table[x];
        let second = self.table[first + y];
        self.table[second + z]
    }
}

/// A table of `2 * size` lattice coordinates in which two entries are equal
/// only at positions `size` apart, as in a permutation written out twice.
pub open spec fn repeats_only_at_period(table: Seq<usize>, size: int) -> bool {
    &&& table.len() == 2 * size
    &&& forall|i: int| 0 <= i < 2 * size ==> #[trigger] table[i] < size
    &&& forall|i: int, j: int|
        0 <= i < j < 2 * size && j - i != size ==> #[trigger] table[i] != #[trigger] table[j]
}

/// The gradient of a lattice point depends on each of its coordinates: in a
/// table where entries repeat only a whole period apart, two lattice points
/// that differ in one coordinate alone get different gradients.
pub proof fn lemma_lattice_index_follows_each_coordinate(
    table: Seq<usize>,
    size: int,
    x: int,
    y: int,
    z: int,
    other: int,
)
    requires
        repeats_only_at_period(table, size),
        0 <= x < size,
        0 <= y < size,
        0 <= z < size,
        0 <= other < size,
    ensures
        other != x ==> PermutationTable::spec_lattice_index(table, x, y, z)
            != PermutationTable::spec_lattice_index(table, other, y, z),
        other != y ==> PermutationTable::spec_lattice_index(table, x, y, z)
            != PermutationTable::spec_lattice_index(table, x, other, z),
        other != z ==> PermutationTable::spec_lattice_index(table, x, y, z)
            != PermutationTable::spec_lattice_index(table, x, y, other),
{
    assert forall|a: int, b: int| 0 <= a < size && 0 <= b < size && a != b implies
        #[trigger] table[a] != #[trigger] table[b] by {
        if a < b {
            assert(table[a] != table[b]);
        } else {
            assert(table[b] != table[a]);
        }
    }
    assert forall|k1: int, k2: int, c: int|
        0 <= k1 < size && 0 <= k2 < size && 0 <= c < size && k1 != k2 implies
        #[trigger] table[k1 + c] != #[trigger] table[k2 + c] by {
        if k1 < k2 {
            assert(table[k1 + c] != table[k2 + c]);
        } else {
            assert(table[k2 + c] != table[k1 + c]);
        }
    }
    assert forall|k: int, c1: int, c2: int|
        0 <= k < size && 0 <= c1 < size && 0 <= c2 < size && c1 != c2 implies
        #[trigger] table[k + c1] != #[trigger] table[k + c2] by {
        if c1 < c2 {
            assert(table[k + c1] != table[k + c2]);
        } else {
            assert(table[k + c2] != table[k + c1]);
        }
    }
    let t = table;
    assert(t[x] < size && t[other] < size);
    assert(t[t[x] + y] < size && t[t[other] + y] < size && t[t[x] + other] < size);
}

/// The permutation table of a noise made with the seed text and size.
pub fn permutation_table(seed: &str, size: usize) -> (table: PermutationTable)
    requires
        is_lattice_size(size),
    ensures
        table.spec_size() == size,
        table.spec_table().len() == 2 * size,
        forall|i: int| 0 <= i < 2 * size ==> #[trigger] table.spec_table()[i] < size,
{
    PermutationTable::from_seed(noise_seed(seed), size)
}

} // verus!
