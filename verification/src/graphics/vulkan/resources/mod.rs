//! GPU resources: buffers, images and how to allocate them.

pub mod buffer;
pub mod descriptors;
pub mod image;

pub use buffer::{Buffer, Element};
pub use descriptors::{
    BufferAllocationDescriptor, BufferUsage, ImageAllocationDescriptor, ImageFormat, ImageTiling, ImageUsage,
    MemoryLocation,
};
pub use image::Image;

use vstd::prelude::*;

verus! {

/// Why a resource could not be created, bound, flushed or freed.
#[derive(Debug)]
pub enum ResourceManagerError {
    InvalidBufferAllocationDescriptorError { name: &'static str },
    CreateBufferError { name: &'static str },
    BindBufferError { name: &'static str },
    InvalidImageAllocationDescriptorError { name: &'static str },
    CreateImageError { name: &'static str },
    BindImageError { name: &'static str },
    AllocateMemoryError { cause: gpu_allocator::AllocationError },
    FlushMemoryError { name: &'static str },
    FreeMemoryError { name: &'static str },
}

} // verus!
