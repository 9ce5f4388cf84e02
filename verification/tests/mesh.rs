use skyshard::assets::attr::{attribute_of_bits, canonical_bits, AttributeSet};
use skyshard::assets::mesh::Mesh;
use skyshard::assets::mesh::{compute_third_table, indices_with_adjacency, Index};

#[test]
fn test_compute_third_table() {
    let indices: Vec<Index> = vec![
        0, 1, 2,
        2, 1, 3,
        3, 4, 2,
        1, 5, 3,
    ];

    let third_table = compute_third_table(&indices);

    assert_eq!(third_table.get([0, 1]).unwrap(), 2);
    assert_eq!(third_table.get([1, 2]).unwrap(), 0);
    assert_eq!(third_table.get([2, 0]).unwrap(), 1);
    assert_eq!(third_table.get([2, 1]).unwrap(), 3);
    assert_eq!(third_table.get([1, 3]).unwrap(), 2);
    assert_eq!(third_table.get([3, 2]).unwrap(), 1);
    assert_eq!(third_table.get([2, 3]).unwrap(), 4);
    assert_eq!(third_table.get([3, 4]).unwrap(), 2);
    assert_eq!(third_table.get([4, 2]).unwrap(), 3);
    assert_eq!(third_table.get([1, 5]).unwrap(), 3);
    assert_eq!(third_table.get([5, 3]).unwrap(), 1);
    assert_eq!(third_table.get([3, 1]).unwrap(), 5);
}

#[test]
fn test_indices_with_adjacency() {
    let indices: Vec<Index> = vec![
        0, 1, 2,
        2, 1, 3,
        3, 4, 2,
        1, 5, 3,
    ];

    let result = indices_with_adjacency(&indices);

    println!("{:?}", result);
}

#[test]
fn third_table_has_no_entry_for_unknown_edges() {
    let indices: Vec<Index> = vec![0, 1, 2];
    let third_table = compute_third_table(&indices);
    assert_eq!(third_table.get([1, 0]), None);
    assert_eq!(third_table.get([7, 8]), None);
}

#[test]
fn third_table_keeps_the_last_triangle_of_a_shared_edge() {
    let indices: Vec<Index> = vec![0, 1, 2, 0, 1, 5];
    let third_table = compute_third_table(&indices);
    assert_eq!(third_table.get([0, 1]), Some(5));
}

#[test]
fn indices_with_adjacency_interleaves_neighbours() {
    let indices: Vec<Index> = vec![
        0, 1, 2,
        2, 1, 3,
        3, 4, 2,
        1, 5, 3,
    ];
    let result = indices_with_adjacency(&indices);
    assert_eq!(result, vec![0, 0, 1, 3, 2, 0, 2, 0, 1, 5, 3, 4, 3, 0, 4, 0, 2, 1, 1, 0, 5, 0, 3, 2]);
}

#[test]
fn indices_with_adjacency_of_nothing_is_nothing() {
    let indices: Vec<Index> = vec![];
    assert!(indices_with_adjacency(&indices).is_empty());
}

/// A coordinate as the attribute set keeps it.
fn coordinate(x: f32, y: f32, z: f32) -> (u32, u32, u32) {
    attribute_of_bits(x.to_bits(), y.to_bits(), z.to_bits())
}

#[test]
fn canonical_bits_join_equal_floats() {
    assert_eq!(canonical_bits((-0.0f32).to_bits()), 0);
    assert_eq!(canonical_bits(0.0f32.to_bits()), 0);
    assert_eq!(canonical_bits(f32::NAN.to_bits()), 0x7fc0_0000);
    assert_eq!(canonical_bits(0xffff_ffff), 0x7fc0_0000);
    assert_eq!(canonical_bits(0x7f80_0001), 0x7fc0_0000);
    assert_eq!(canonical_bits(f32::INFINITY.to_bits()), f32::INFINITY.to_bits());
    assert_eq!(canonical_bits(1.5f32.to_bits()), 1.5f32.to_bits());
    assert_eq!(canonical_bits((-1.5f32).to_bits()), (-1.5f32).to_bits());
}

#[test]
fn zeros_and_nans_share_an_index() {
    let mut mesh = Mesh::new();
    assert_eq!(mesh.insert_coordinate((0.0f32.to_bits(), 1.0f32.to_bits(), 0.0f32.to_bits())), 0);
    assert_eq!(mesh.insert_coordinate(((-0.0f32).to_bits(), 1.0f32.to_bits(), 0.0f32.to_bits())), 0);
    assert_eq!(mesh.insert_coordinate((f32::NAN.to_bits(), 0, 0)), 1);
    assert_eq!(mesh.insert_coordinate((0xffc0_0001, 0, 0x8000_0000)), 1);
    let mut set = AttributeSet::new();
    assert_eq!(set.insert(coordinate(-0.0, 0.0, 1.0)), 0);
    assert_eq!(set.insert(coordinate(0.0, -0.0, 1.0)), 0);
}

#[test]
fn should_should_return_the_same_index_for_the_same_attribute() {
    let mut set = AttributeSet::new();

    assert_eq!(set.insert(coordinate(1.0, 1.0, -1.0)), 0);
    assert_eq!(set.insert(coordinate(-1.0, -1.0, -1.0)), 1);
    assert_eq!(set.insert(coordinate(1.0, 1.0, -1.0)), 0);
}

#[test]
fn should_return_the_attribute_with_the_given_index() {
    let mut set = AttributeSet::new();

    let c0 = coordinate(1.0, 1.0, -1.0);
    let c1 = coordinate(-1.0, -1.0, -1.0);

    set.insert(c0.clone());
    set.insert(c1.clone());

    assert_eq!(set.get(0), Some(c0));
    assert_eq!(set.get(1), Some(c1));
}

#[test]
fn attribute_set_counts_distinct_attributes() {
    let mut set = AttributeSet::new();
    assert_eq!(set.len(), 0);
    assert_eq!(set.get(0), None);
    set.insert((1, 2, 3));
    set.insert((1, 2, 3));
    set.insert((3, 2, 1));
    assert_eq!(set.len(), 2);
    assert_eq!(set.get(2), None);
}

#[test]
fn mesh_interns_coordinates() {
    let mut mesh = Mesh::new();
    assert_eq!(mesh.insert_coordinate(coordinate(0.0, 1.0, 2.0)), 0);
    assert_eq!(mesh.insert_coordinate(coordinate(0.5, 1.0, 2.0)), 1);
    assert_eq!(mesh.insert_coordinate(coordinate(0.0, 1.0, 2.0)), 0);
}
