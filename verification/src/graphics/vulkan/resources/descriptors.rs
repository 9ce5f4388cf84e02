//! What a buffer or image is for and where its memory lives.

use vstd::prelude::*;

use crate::graphics::Extent;

verus! {

/// How a buffer is used.
#[derive(Copy, Clone, Debug, PartialEq, Eq, Structural)]
pub enum BufferUsage {
    IndexBuffer,
    IndirectBuffer,
    UniformBuffer,
    VertexBuffer,
    TransferSourceBuffer,
    TransferDestinationBuffer,
}

/// How an image is used.
#[derive(Copy, Clone, Debug, PartialEq, Eq, Structural)]
pub enum ImageUsage {
    DepthStencilAttachment,
    Sampled,
    TransferDestination,
    TransferSource,
    ColorAttachment,
}

/// Where the memory of a resource lives and which way it is copied.
#[derive(Copy, Clone, Debug, PartialEq, Eq, Structural)]
pub enum MemoryLocation {
    CpuToGpu,
    GpuToCpu,
    GpuOnly,
}

/// The format of the pixels of an image.
#[derive(Copy, Clone, Debug, PartialEq, Eq, Structural)]
pub enum ImageFormat {
    RGBA8,
    UInt32,
    DepthStencil,
}

/// How the pixels of an image are laid out in memory.
#[derive(Copy, Clone, Debug, PartialEq, Eq, Structural)]
pub enum ImageTiling {
    Linear,
    Optimal,
}

/// The `VkBufferUsageFlags` bit of a buffer usage.
pub open spec fn buffer_usage_bit(usage: BufferUsage) -> u32 {
    match usage {
        BufferUsage::TransferSourceBuffer => 0x1,
        BufferUsage::TransferDestinationBuffer => 0x2,
        BufferUsage::UniformBuffer => 0x10,
        BufferUsage::IndexBuffer => 0x40,
        BufferUsage::VertexBuffer => 0x80,
        BufferUsage::IndirectBuffer => 0x100,
    }
}

/// The `VkImageUsageFlags` bit of an image usage.
pub open spec fn image_usage_bit(usage: ImageUsage) -> u32 {
    match usage {
        ImageUsage::TransferSource => 0x1,
        ImageUsage::TransferDestination => 0x2,
        ImageUsage::Sampled => 0x4,
        ImageUsage::ColorAttachment => 0x10,
        ImageUsage::DepthStencilAttachment => 0x20,
    }
}

/// The bits of all usages among the first `count`.
pub open spec fn buffer_usage_mask(usages: Seq<BufferUsage>, count: int) -> u32
    decreases count,
{
    if count <= 0 {
        0
    } else {
        buffer_usage_mask(usages, count - 1) | buffer_usage_bit(usages[count - 1])
    }
}

/// The bits of all usages among the first `count`.
pub open spec fn image_usage_mask(usages: Seq<ImageUsage>, count: int) -> u32
    decreases count,
{
    if count <= 0 {
        0
    } else {
        image_usage_mask(usages, count - 1) | image_usage_bit(usages[count - 1])
    }
}

/// `VK_FORMAT_R8G8B8A8_UNORM`, `VK_FORMAT_R32_UINT`,
/// `VK_FORMAT_D32_SFLOAT_S8_UINT`: the `VkFormat` of an image format.
pub open spec fn spec_format_code(format: ImageFormat) -> i32 {
    match format {
        ImageFormat::RGBA8 => 37,
        ImageFormat::UInt32 => 98,
        ImageFormat::DepthStencil => 130,
    }
}

/// `VK_IMAGE_TILING_OPTIMAL` and `VK_IMAGE_TILING_LINEAR`.
pub open spec fn spec_tiling_code(tiling: ImageTiling) -> i32 {
    match tiling {
        ImageTiling::Optimal => 0,
        ImageTiling::Linear => 1,
    }
}

impl ImageFormat {
    /// The `VkFormat` of the format.
    pub fn code(&self) -> (code: i32)
        ensures
            code == spec_format_code(*self),
    {
        match self {
            ImageFormat::RGBA8 => 37,
            ImageFormat::UInt32 => 98,
            ImageFormat::DepthStencil => 130,
        }
    }
}

impl ImageTiling {
    /// The `VkImageTiling` of the tiling.
    pub fn code(&self) -> (code: i32)
        ensures
            code == spec_tiling_code(*self),
    {
        match self {
            ImageTiling::Optimal => 0,
            ImageTiling::Linear => 1,
        }
    }
}

/// What a buffer is used for and where its memory lives.
#[derive(Debug)]
pub struct BufferAllocationDescriptor<const N: usize> {
    pub usage: [BufferUsage; N],
    pub memory: MemoryLocation,
}

/// What an image is used for, its size, format and tiling, and where its
/// memory lives.
#[derive(Debug)]
pub struct ImageAllocationDescriptor<const N: usize> {
    pub usage: [ImageUsage; N],
    pub extent: Extent,
    pub format: ImageFormat,
    pub tiling: ImageTiling,
    pub memory: MemoryLocation,
}

/// The `VkBufferUsageFlags` bit of a buffer usage.
pub fn buffer_usage_flag(usage: BufferUsage) -> (bit: u32)
    ensures
        bit == buffer_usage_bit(usage),
{
    match usage {
        BufferUsage::TransferSourceBuffer => 0x1,
        BufferUsage::TransferDestinationBuffer => 0x2,
        BufferUsage::UniformBuffer => 0x10,
        BufferUsage::IndexBuffer => 0x40,
        BufferUsage::VertexBuffer => 0x80,
        BufferUsage::IndirectBuffer => 0x100,
    }
}

/// The `VkImageUsageFlags` bit of an image usage.
pub fn image_usage_flag(usage: ImageUsage) -> (bit: u32)
    ensures
        bit == image_usage_bit(usage),
{
    match usage {
        ImageUsage::TransferSource => 0x1,
        ImageUsage::TransferDestination => 0x2,
        ImageUsage::Sampled => 0x4,
        ImageUsage::ColorAttachment => 0x10,
        ImageUsage::DepthStencilAttachment => 0x20,
    }
}

impl<const N: usize> BufferAllocationDescriptor<N> {
    /// The `VkBufferUsageFlags` of all the usages together.
    pub fn usage_flags(&self) -> (flags: u32)
        ensures
            flags == buffer_usage_mask(self.usage@, N as int),
    {
        let mut flags: u32 = 0;
        let mut i: usize = 0;
        while i < N
            invariant
                0 <= i <= N,
                self.usage@.len() == N,
                flags == buffer_usage_mask(self.usage@, i as int),
            decreases N - i,
        {
            flags = flags | buffer_usage_flag(self.usage[i]);
            i = i + 1;
        }
        flags
    }
}

impl<const N: usize> ImageAllocationDescriptor<N> {
    /// The `VkImageUsageFlags` of all the usages together.
    pub fn usage_flags(&self) -> (flags: u32)
        ensures
            flags == image_usage_mask(self.usage@, N as int),
    {
        let mut flags: u32 = 0;
        let mut i: usize = 0;
        while i < N
            invariant
                0 <= i <= N,
                self.usage@.len() == N,
                flags == image_usage_mask(self.usage@, i as int),
            decreases N - i,
        {
            flags = flags | image_usage_flag(self.usage[i]);
            i = i + 1;
        }
        flags
    }
}

} // verus!
