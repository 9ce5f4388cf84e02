//! Images in GPU memory.

use vstd::prelude::*;

use crate::graphics::Extent;

verus! {

/// An image in GPU memory.
pub struct Image {
    name: &'static str,
    extent: Extent,
    image: u64,
    allocation: gpu_allocator::vulkan::Allocation,
}

impl Image {
    pub closed spec fn spec_name(&self) -> Seq<char> {
        self.name@
    }

    pub closed spec fn spec_extent(&self) -> Extent {
        self.extent
    }

    pub closed spec fn spec_image(&self) -> u64 {
        self.image
    }

    pub closed spec fn spec_allocation(&self) -> gpu_allocator::vulkan::Allocation {
        self.allocation
    }

    pub fn new(
        name: &'static str,
        extent: Extent,
        image: u64,
        allocation: gpu_allocator::vulkan::Allocation,
    ) -> (created: Image)
        ensures
            created.spec_name() == name@,
            created.spec_extent() == extent,
            created.spec_image() == image,
            created.spec_allocation() == allocation,
    {
        Image { name, extent, image, allocation }
    }

    /// The size of the image.
    pub fn extent(&self) -> (extent: &Extent)
        ensures
            *extent == self.spec_extent(),
    {
        &self.extent
    }

    pub fn name(&self) -> (name: &'static str)
        ensures
            name@ == self.spec_name(),
    {
        self.name
    }

    /// The raw Vulkan handle of the image (`VkImage` as a 64-bit value).
    pub fn handle(&self) -> (handle: u64)
        ensures
            handle == self.spec_image(),
    {
        self.image
    }

    /// The memory that backs the image.
    pub fn allocation(&self) -> (allocation: &gpu_allocator::vulkan::Allocation)
        ensures
            *allocation == self.spec_allocation(),
    {
        &self.allocation
    }

    /// Gives up the resource, handing back the memory that backed it.
    pub fn into_allocation(self) -> (allocation: gpu_allocator::vulkan::Allocation)
        ensures
            allocation == self.spec_allocation(),
    {
        self.allocation
    }
}

} // verus!
