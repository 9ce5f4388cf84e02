//! Triangle meshes: the table of third vertices and indices with adjacency.

use std::collections::HashMap;

use vstd::prelude::*;

use crate::assets::attr::{attribute_of_bits, spec_attribute_of_bits, Attribute, AttributeSet};

verus! {

/// The index of a vertex.
pub type Index = u32;

/// A number that stands for a directed edge, no two edges sharing one.
pub open spec fn edge_key(from: Index, to: Index) -> u64 {
    (from * 0x1_0000_0000 + to) as u64
}

/// Different edges have different keys.
pub proof fn lemma_edge_key_injective(a: Index, b: Index, c: Index, d: Index)
    ensures
        edge_key(a, b) == edge_key(c, d) ==> a == c && b == d,
{
    assert(a * 0x1_0000_0000 + b == c * 0x1_0000_0000 + d ==> a == c && b == d) by (nonlinear_arith)
        requires
            a < 0x1_0000_0000, b < 0x1_0000_0000, c < 0x1_0000_0000, d < 0x1_0000_0000,
    ;
    assert(a * 0x1_0000_0000 + b < 0x1_0000_0000_0000_0000) by (nonlinear_arith)
        requires
            a < 0x1_0000_0000, b < 0x1_0000_0000,
    ;
    assert(c * 0x1_0000_0000 + d < 0x1_0000_0000_0000_0000) by (nonlinear_arith)
        requires
            c < 0x1_0000_0000, d < 0x1_0000_0000,
    ;
}

fn edge_key_of(from: Index, to: Index) -> (key: u64)
    ensures
        key == edge_key(from, to),
{
    assert(from * 0x1_0000_0000 + to < 0x1_0000_0000_0000_0000) by (nonlinear_arith)
        requires
            from < 0x1_0000_0000, to < 0x1_0000_0000,
    ;
    from as u64 * 0x1_0000_0000 + to as u64
}

/// The edge and third vertex that the entry at `index` of a triangle list
/// records: the edge from the vertex to the next one of its triangle, and
/// the remaining vertex.
pub open spec fn third_entry(indices: Seq<Index>, index: int) -> ((Index, Index), Index) {
    if index % 3 == 0 {
        ((indices[index], indices[index + 1]), indices[index + 2])
    } else if index % 3 == 1 {
        ((indices[index], indices[index + 1]), indices[index - 1])
    } else {
        ((indices[index], indices[index - 2]), indices[index - 1])
    }
}

/// The table after the entries at `0..count`, later entries replacing
/// earlier ones for the same edge.
pub open spec fn third_table_upto(indices: Seq<Index>, count: int) -> Map<(Index, Index), Index>
    decreases count,
{
    if count <= 0 {
        Map::empty()
    } else {
        let (edge, third) = third_entry(indices, count - 1);
        third_table_upto(indices, count - 1).insert(edge, third)
    }
}

/// The table of a whole triangle list.
pub open spec fn spec_third_table(indices: Seq<Index>) -> Map<(Index, Index), Index> {
    third_table_upto(indices, indices.len() as int)
}

/// For each directed edge of a triangle list, the vertex that completes
/// its triangle.
pub struct ThirdTable {
    table: HashMap<u64, Index>,
}

impl View for ThirdTable {
    type V = Map<(Index, Index), Index>;

    closed spec fn view(&self) -> Map<(Index, Index), Index> {
        Map::new(
            |edge: (Index, Index)| self.table@.contains_key(edge_key(edge.0, edge.1)),
            |edge: (Index, Index)| self.table@[edge_key(edge.0, edge.1)],
        )
    }
}

impl ThirdTable {
    /// The vertex that completes the triangle of the directed edge.
    pub fn get(&self, edge: [Index; 2]) -> (third: Option<Index>)
        ensures
            third == (if self@.contains_key((edge[0], edge[1])) {
                Some(self@[(edge[0], edge[1])])
            } else {
                None
            }),
    {
        match self.table.get(&edge_key_of(edge[0], edge[1])) {
            Some(third) => Some(*third),
            None => None,
        }
    }
}

/// Records, for every directed edge of every triangle, the third vertex of
/// that triangle.
pub fn compute_third_table(indices: &Vec<Index>) -> (third_table: ThirdTable)
    requires
        indices@.len() % 3 == 0,
        3 * indices@.len() <= usize::MAX,
    ensures
        third_table@ == spec_third_table(indices@),
{
    let mut table: HashMap<u64, Index> = HashMap::with_capacity(3 * indices.len());
    let mut index: usize = 0;
    while index < indices.len()
        invariant
            indices@.len() % 3 == 0,
            0 <= index <= indices@.len(),
            (ThirdTable { table })@ == third_table_upto(indices@, index as int),
        decreases indices@.len() - index,
    {
        let ghost before = table@;
        let (from, to, third) = if index % 3 == 0 {
            (indices[index], indices[index + 1], indices[index + 2])
        } else if index % 3 == 1 {
            (indices[index], indices[index + 1], indices[index - 1])
        } else {
            (indices[index], indices[index - 2], indices[index - 1])
        };
        table.insert(edge_key_of(from, to), third);
        proof {
            assert forall|edge: (Index, Index)| #[trigger] table@.contains_key(edge_key(edge.0, edge.1))
                == before.insert(edge_key(from, to), third).contains_key(edge_key(edge.0, edge.1)) by {
                lemma_edge_key_injective(edge.0, edge.1, from, to);
            }
            assert((ThirdTable { table })@ =~= third_table_upto(indices@, index as int).insert((from, to), third)) by {
                assert forall|edge: (Index, Index)| #[trigger] (ThirdTable { table })@.contains_key(edge)
                    == third_table_upto(indices@, index as int).insert((from, to), third).contains_key(edge) by {
                    lemma_edge_key_injective(edge.0, edge.1, from, to);
                }
                assert forall|edge: (Index, Index)| (ThirdTable { table })@.contains_key(edge) implies
                    #[trigger] (ThirdTable { table })@[edge] == third_table_upto(indices@, index as int).insert((from, to), third)[edge] by {
                    lemma_edge_key_injective(edge.0, edge.1, from, to);
                }
            }
        }
        index = index + 1;
    }
    ThirdTable { table }
}


/// The directed edge whose neighbour the entry at `index` of the result of
/// [`indices_with_adjacency`] names: from the next vertex of the triangle
/// back to this one.
pub open spec fn adjacency_edge(indices: Seq<Index>, index: int) -> (Index, Index) {
    if index % 3 == 0 || index % 3 == 1 {
        (indices[index + 1], indices[index])
    } else {
        (indices[index - 2], indices[index])
    }
}

/// The vertex across the edge that [`adjacency_edge`] names, or 0 when no
/// triangle has that edge.
pub open spec fn adjacent_vertex(indices: Seq<Index>, index: int) -> Index {
    let table = spec_third_table(indices);
    let edge = adjacency_edge(indices, index);
    if table.contains_key(edge) {
        table[edge]
    } else {
        0
    }
}

/// Interleaves each vertex of a triangle list with the vertex of the
/// neighbouring triangle across the edge that ends at it, or 0 when there
/// is none.
pub fn indices_with_adjacency(indices: &Vec<Index>) -> (result: Vec<Index>)
    requires
        indices@.len() % 3 == 0,
        3 * indices@.len() <= usize::MAX,
    ensures
        result@.len() == 2 * indices@.len(),
        forall|i: int| 0 <= i < indices@.len() ==> #[trigger] result@[2 * i] == indices@[i],
        forall|i: int| 0 <= i < indices@.len() ==> #[trigger] result@[2 * i + 1] == adjacent_vertex(indices@, i),
{
    let third_table = compute_third_table(indices);
    let mut indices_with_adjacency: Vec<Index> = Vec::with_capacity(2 * indices.len());
    let mut index: usize = 0;
    while index < indices.len()
        invariant
            indices@.len() % 3 == 0,
            3 * indices@.len() <= usize::MAX,
            third_table@ == spec_third_table(indices@),
            0 <= index <= indices@.len(),
            indices_with_adjacency@.len() == 2 * index,
            forall|i: int| 0 <= i < index ==> #[trigger] indices_with_adjacency@[2 * i] == indices@[i],
            forall|i: int| 0 <= i < index ==> #[trigger] indices_with_adjacency@[2 * i + 1] == adjacent_vertex(indices@, i),
        decreases indices@.len() - index,
    {
        let edge = if index % 3 == 0 || index % 3 == 1 {
            [indices[index + 1], indices[index]]
        } else {
            [indices[index - 2], indices[index]]
        };
        indices_with_adjacency.push(indices[index]);
        let adjacent = match third_table.get(edge) {
            Some(third) => third,
            None => 0,
        };
        indices_with_adjacency.push(adjacent);
        proof {
            let n = index as int;
            assert forall|i: int| 0 <= i < n + 1 implies #[trigger] indices_with_adjacency@[2 * i] == indices@[i] by {
                if i < n {
                    assert(indices_with_adjacency@[2 * i] == indices_with_adjacency@.drop_last().drop_last()[2 * i]);
                }
            }
            assert forall|i: int| 0 <= i < n + 1 implies #[trigger] indices_with_adjacency@[2 * i + 1] == adjacent_vertex(indices@, i) by {
                if i < n {
                    assert(indices_with_adjacency@[2 * i + 1] == indices_with_adjacency@.drop_last().drop_last()[2 * i + 1]);
                }
            }
        }
        index = index + 1;
    }
    indices_with_adjacency
}

/// No two entries of a triangle list record the same directed edge: every
/// directed edge belongs to one triangle only.
pub open spec fn edges_unique(indices: Seq<Index>) -> bool {
    forall|i: int, j: int| 0 <= i < j < indices.len() ==> #[trigger] third_entry(indices, i).0 != #[trigger] third_entry(indices, j).0
}

/// An entry stays in the table when no later entry records its edge.
pub proof fn lemma_third_table_keeps(indices: Seq<Index>, count: int, index: int)
    requires
        0 <= index < count <= indices.len(),
        indices.len() % 3 == 0,
        forall|j: int| index < j < count ==> #[trigger] third_entry(indices, j).0 != third_entry(indices, index).0,
    ensures
        third_table_upto(indices, count).contains_key(third_entry(indices, index).0),
        third_table_upto(indices, count)[third_entry(indices, index).0] == third_entry(indices, index).1,
    decreases count,
{
    if count - 1 > index {
        lemma_third_table_keeps(indices, count - 1, index);
        assert(third_entry(indices, count - 1).0 != third_entry(indices, index).0);
    }
}

/// When every directed edge belongs to one triangle only, the table maps
/// each edge of each triangle `(a, b, c)` to the vertex opposite it:
/// `(a, b)` to `c`, `(b, c)` to `a` and `(c, a)` to `b`.
pub proof fn lemma_third_table_of_triangles(indices: Seq<Index>, triangle: int)
    requires
        indices.len() % 3 == 0,
        edges_unique(indices),
        0 <= triangle < indices.len() / 3,
    ensures
        ({
            let (a, b, c) = (indices[3 * triangle], indices[3 * triangle + 1], indices[3 * triangle + 2]);
            let table = spec_third_table(indices);
            &&& table.contains_key((a, b)) && table[(a, b)] == c
            &&& table.contains_key((b, c)) && table[(b, c)] == a
            &&& table.contains_key((c, a)) && table[(c, a)] == b
        }),
{
    let n = indices.len() as int;
    let t = 3 * triangle;
    assert(t % 3 == 0 && (t + 1) % 3 == 1 && (t + 2) % 3 == 2);
    assert(t + 2 < n);
    assert forall|j: int| t < j < n implies #[trigger] third_entry(indices, j).0 != third_entry(indices, t).0 by {
        assert(third_entry(indices, t).0 != third_entry(indices, j).0);
    }
    assert forall|j: int| t + 1 < j < n implies #[trigger] third_entry(indices, j).0 != third_entry(indices, t + 1).0 by {
        assert(third_entry(indices, t + 1).0 != third_entry(indices, j).0);
    }
    assert forall|j: int| t + 2 < j < n implies #[trigger] third_entry(indices, j).0 != third_entry(indices, t + 2).0 by {
        assert(third_entry(indices, t + 2).0 != third_entry(indices, j).0);
    }
    lemma_third_table_keeps(indices, n, t);
    lemma_third_table_keeps(indices, n, t + 1);
    lemma_third_table_keeps(indices, n, t + 2);
}

/// A mesh: the distinct coordinates of its vertices, each with its index.
pub struct Mesh {
    coordinates: AttributeSet,
}

impl Mesh {
    pub closed spec fn spec_coordinates(&self) -> Map<Attribute, Index> {
        self.coordinates.spec_indices()
    }

    pub closed spec fn well_formed(&self) -> bool {
        self.coordinates.well_formed()
    }

    /// A mesh without coordinates.
    pub fn new() -> (mesh: Mesh)
        ensures
            mesh.well_formed(),
            mesh.spec_coordinates() == Map::<Attribute, Index>::empty(),
    {
        Mesh { coordinates: AttributeSet::new() }
    }

    /// The index of the coordinate, given by the bits of its three `f32`s:
    /// the one an equal coordinate has, or the next one.
    pub fn insert_coordinate(&mut self, coordinate: (u32, u32, u32)) -> (index: Index)
        requires
            old(self).well_formed(),
            old(self).spec_coordinates().len() < u32::MAX,
        ensures
            final(self).well_formed(),
            ({
                let attribute = spec_attribute_of_bits(coordinate.0, coordinate.1, coordinate.2);
                &&& old(self).spec_coordinates().dom().contains(attribute) ==> {
                    &&& index == old(self).spec_coordinates()[attribute]
                    &&& final(self).spec_coordinates() == old(self).spec_coordinates()
                }
                &&& !old(self).spec_coordinates().dom().contains(attribute) ==> {
                    &&& index == old(self).spec_coordinates().len()
                    &&& final(self).spec_coordinates() == old(self).spec_coordinates().insert(attribute, index)
                }
            }),
    {
        let attribute = attribute_of_bits(coordinate.0, coordinate.1, coordinate.2);
        self.coordinates.insert(attribute)
    }
}

} // verus!
