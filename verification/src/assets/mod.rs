//! Assets: the manager that keeps them, meshes, and the buffers of glTF
//! documents.

pub mod attr;
pub mod gltf;
pub mod mesh;

use std::collections::HashMap;

use vstd::prelude::*;

verus! {

/// Keeps the assets found under a base directory, by name.
pub struct AssetsManager {
    base_dir: String,
    assets: HashMap<String, AssetResource>,
}

impl AssetsManager {
    /// The directory the assets are found under.
    pub closed spec fn spec_base_dir(&self) -> Seq<char> {
        self.base_dir@
    }

    /// The assets kept so far, by name.
    pub closed spec fn spec_assets(&self) -> Map<String, AssetResource> {
        self.assets@
    }

    /// A manager of the assets under `base_dir`, keeping none yet.
    pub fn new(base_dir: &String) -> (manager: Result<AssetsManager, AssetsManagerError>)
        ensures
            manager matches Ok(manager) && manager.spec_base_dir() == base_dir@
                && manager.spec_assets() == Map::<String, AssetResource>::empty(),
    {
        Ok(AssetsManager { base_dir: base_dir.clone(), assets: HashMap::new() })
    }

    /// The directory the assets are found under.
    pub fn base_dir(&self) -> (base_dir: &String)
        ensures
            base_dir@ == self.spec_base_dir(),
    {
        &self.base_dir
    }
}

/// Why an asset could not be had.
#[derive(Debug, Clone, PartialEq, Eq)]
pub enum AssetsManagerError {
    AssetsManagerInstantiationError,
    BaseDirNotFoundError { path: String },
    OpenFileError { path: String },
    AssetNotFound { name: String },
}

/// An asset and where it is stored.
#[derive(Debug, Clone, PartialEq, Eq)]
pub enum AssetResource {
    Node { name: String, file_path: String },
}

} // verus!
