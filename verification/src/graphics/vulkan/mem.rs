//! Allocating buffers and images one usage at a time: the descriptors the
//! memory manager takes and its errors.

pub use crate::graphics::vulkan::resources::{Buffer, BufferUsage, Element, Image, ImageUsage, MemoryLocation};

use vstd::prelude::*;

use crate::graphics::vulkan::resources::descriptors::{buffer_usage_bit, image_usage_bit};
use crate::graphics::Extent;

verus! {

/// Why the memory manager could not make or bind a resource.
#[derive(Debug, Clone, PartialEq, Eq)]
pub enum MemoryManagerError {
    CreateBufferError { name: &'static str },
    BindBufferError { name: &'static str },
    CreateImageError { name: &'static str },
    BindImageError { name: &'static str },
    AllocateMemoryError,
    UnknownFailure,
}

/// What a buffer is used for and where its memory lives.
#[derive(Debug, Copy, Clone, PartialEq, Eq, Structural)]
pub struct BufferAllocationDescriptor {
    pub buffer_usage: BufferUsage,
    pub memory_usage: MemoryLocation,
}

/// What an image is used for, its size, and where its memory lives.
#[derive(Debug, Copy, Clone, PartialEq, Eq, Structural)]
pub struct ImageAllocationDescriptor {
    pub image_usage: ImageUsage,
    pub extent: Extent,
    pub memory_usage: MemoryLocation,
}

impl BufferAllocationDescriptor {
    /// The `VkBufferUsageFlags` the buffer is made with.
    pub fn usage_flags(&self) -> (flags: u32)
        ensures
            flags == buffer_usage_bit(self.buffer_usage),
    {
        crate::graphics::vulkan::resources::descriptors::buffer_usage_flag(self.buffer_usage)
    }
}

impl ImageAllocationDescriptor {
    /// The `VkImageUsageFlags` the image is made with.
    pub fn usage_flags(&self) -> (flags: u32)
        ensures
            flags == image_usage_bit(self.image_usage),
    {
        crate::graphics::vulkan::resources::descriptors::image_usage_flag(self.image_usage)
    }
}

} // verus!
