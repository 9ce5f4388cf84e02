//! Rendering: extents, multisampling and the Vulkan layer.

pub mod vulkan;

use vstd::prelude::*;

use crate::graphics::vulkan::resources::{Buffer, Image};

verus! {

/// The renderer of a scene.
pub struct Renderer {}

/// The size of an image in pixels: width, height and depth.
#[derive(Debug, Copy, Clone, PartialEq, Eq, Structural)]
pub struct Extent {
    pub width: u32,
    pub height: u32,
    pub depth: u32,
}

impl Extent {
    /// The empty extent.
    pub fn new() -> (extent: Extent)
        ensures
            extent == (Extent { width: 0, height: 0, depth: 0 }),
    {
        Extent { width: 0, height: 0, depth: 0 }
    }

    pub fn from(width: u32, height: u32, depth: u32) -> (extent: Extent)
        ensures
            extent == (Extent { width, height, depth }),
    {
        Extent { width, height, depth }
    }
}

impl Default for Extent {
    fn default() -> (extent: Extent)
        ensures
            extent == (Extent { width: 0, height: 0, depth: 0 }),
    {
        Extent::new()
    }
}

/// The texture of a surface: its descriptor set, the buffer it was copied
/// from, and its image with a view of it.
pub struct Material {
    pub descriptor_set: ash::vk::DescriptorSet,
    pub texture_buffer: Buffer<u8>,
    pub texture_image: Image,
    pub texture_image_view: ash::vk::ImageView,
}

/// How many samples each pixel takes.
#[derive(Debug, Copy, Clone, PartialEq, Eq, Structural)]
pub enum MSAA {
    Off,
    X2,
    X4,
    X8,
    X16,
    X32,
    X64,
}

impl MSAA {
    pub open spec fn spec_label(&self) -> Seq<char> {
        match self {
            MSAA::Off => "off"@,
            MSAA::X2 => "2x"@,
            MSAA::X4 => "4x"@,
            MSAA::X8 => "8x"@,
            MSAA::X16 => "16x"@,
            MSAA::X32 => "32x"@,
            MSAA::X64 => "64x"@,
        }
    }

    /// The setting as shown to users: "off", "2x", ..., "64x".
    pub fn to_string(&self) -> (label: String)
        ensures
            label@ == self.spec_label(),
    {
        match self {
            MSAA::Off => String::from_str("off"),
            MSAA::X2 => String::from_str("2x"),
            MSAA::X4 => String::from_str("4x"),
            MSAA::X8 => String::from_str("8x"),
            MSAA::X16 => String::from_str("16x"),
            MSAA::X32 => String::from_str("32x"),
            MSAA::X64 => String::from_str("64x"),
        }
    }
}

} // verus!
