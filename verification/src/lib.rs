//! Skyshard: the file-format, mesh and device-selection logic of a small
//! Vulkan engine, with contracts checked by Verus.

pub mod blend;
pub mod assets;
pub mod util;
pub mod graphics;
pub mod input;
pub mod engine;
pub mod entity;
pub mod noise;
