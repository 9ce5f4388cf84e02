//! Reading Blender's `.blend` files.

pub mod analyse;
pub mod parse;
