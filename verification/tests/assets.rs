use skyshard::assets::gltf::{buffer_data, load_buffers, try_load_buffers, BufferSource, GltfBuffers};
use skyshard::assets::{AssetResource, AssetsManager, AssetsManagerError};
use skyshard::engine::EngineError;
use skyshard::entity::WorldId;
use skyshard::noise::{noise_seed, permutation_table, Interpolation};

fn uri(text: &str) -> BufferSource {
    BufferSource::Uri(text.as_bytes().to_vec())
}

#[test]
fn embedded_buffers_are_decoded() {
    let document = GltfBuffers {
        buffers: vec![uri("data:application/octet-stream;base64,AQID+g=="), BufferSource::Bin],
        blob: Some(vec![9, 8, 7]),
    };
    let buffers = load_buffers(&document);
    assert_eq!(buffers, vec![vec![1, 2, 3, 250], vec![9, 8, 7]]);
    assert_eq!(try_load_buffers(&document), Some(buffers));
}

#[test]
fn buffers_without_data_are_refused() {
    assert_eq!(buffer_data(&uri("data:application/octet-stream;base64,A*=="), &None), None);
    assert_eq!(buffer_data(&uri("buffer.bin"), &None), None);
    assert_eq!(buffer_data(&BufferSource::Bin, &None), None);
    assert_eq!(buffer_data(&uri("data:application/octet-stream;base64,"), &None), Some(vec![]));
    let document = GltfBuffers { buffers: vec![BufferSource::Bin], blob: None };
    assert_eq!(try_load_buffers(&document), None);
    let document = GltfBuffers { buffers: vec![], blob: None };
    assert_eq!(try_load_buffers(&document), Some(vec![]));
}

#[test]
fn assets_manager_starts_empty() {
    let base_dir = String::from("assets");
    let manager = AssetsManager::new(&base_dir).ok().unwrap();
    assert_eq!(manager.base_dir(), "assets");
    let resource = AssetResource::Node { name: String::from("cube"), file_path: String::from("assets/cube.gltf") };
    assert!(matches!(resource, AssetResource::Node { .. }));
    let error = AssetsManagerError::AssetNotFound { name: String::from("cube") };
    assert_eq!(error, AssetsManagerError::AssetNotFound { name: String::from("cube") });
}

#[test]
fn engine_error_keeps_its_message() {
    let error = EngineError::new(String::from("no device"));
    assert_eq!(error.message(), "no device");
}

#[test]
fn world_ids_compare_by_number() {
    let id = WorldId::from_count(7);
    assert_eq!(id.value(), 7);
    assert_eq!(id, WorldId::from_count(7));
    assert_ne!(id, WorldId::from_count(8));
}

#[test]
fn noise_seed_is_the_sha256_of_the_text() {
    assert_eq!(
        noise_seed("Elmar"),
        [
            154, 147, 103, 2, 145, 141, 254, 12, 159, 40, 41, 229, 96, 163, 113, 18, 243, 170, 236, 185, 176, 165,
            151, 8, 55, 225, 25, 86, 4, 203, 186, 106
        ]
    );
}

#[test]
fn permutation_table_indexes_the_lattice() {
    let table = permutation_table("Elmar", 256);
    assert_eq!(table.size(), 256);
    assert_eq!(table.to_index(-1), 255);
    assert_eq!(table.to_index(256), 0);
    assert_eq!(table.to_index(300), 44);
    for x in 0..4 {
        for y in 0..4 {
            assert!(table.lattice_index(x, y, 255) < 256);
        }
    }
    let again = permutation_table("Elmar", 256);
    assert_eq!(table.lattice_index(1, 2, 3), again.lattice_index(1, 2, 3));
    assert_ne!(Interpolation::Linear, Interpolation::Cosine);
}
