//! Buffers of elements in GPU memory.

use core::marker::PhantomData;

use vstd::prelude::*;

verus! {

/// The size of one element of a buffer.
pub struct Element<A> {
    size: usize,
    phantom: PhantomData<A>,
}

/// A buffer in GPU memory with room for `capacity` elements.
pub struct Buffer<A> {
    name: &'static str,
    capacity: usize,
    size: u64,
    element: Element<A>,
    buffer: u64,
    allocation: gpu_allocator::vulkan::Allocation,
}

impl<A> Element<A> {
    pub closed spec fn spec_size(&self) -> usize {
        self.size
    }
}

impl<A> Buffer<A> {
    pub closed spec fn spec_name(&self) -> Seq<char> {
        self.name@
    }

    pub closed spec fn spec_capacity(&self) -> usize {
        self.capacity
    }

    /// The size of the buffer in bytes.
    pub closed spec fn spec_size(&self) -> u64 {
        self.size
    }

    pub closed spec fn spec_element_size(&self) -> usize {
        self.element.size
    }

    pub closed spec fn spec_buffer(&self) -> u64 {
        self.buffer
    }

    pub closed spec fn spec_allocation(&self) -> gpu_allocator::vulkan::Allocation {
        self.allocation
    }

    /// A buffer for `capacity` elements of `size` bytes each.
    pub fn new(
        name: &'static str,
        capacity: usize,
        size: usize,
        buffer: u64,
        allocation: gpu_allocator::vulkan::Allocation,
    ) -> (created: Buffer<A>)
        requires
            capacity * size <= usize::MAX,
        ensures
            created.spec_name() == name@,
            created.spec_capacity() == capacity,
            created.spec_size() == capacity * size,
            created.spec_element_size() == size,
            created.spec_buffer() == buffer,
            created.spec_allocation() == allocation,
    {
        Buffer {
            name,
            capacity,
            size: (capacity * size) as u64,
            element: Element { size, phantom: PhantomData },
            buffer,
            allocation,
        }
    }

    pub fn name(&self) -> (name: &'static str)
        ensures
            name@ == self.spec_name(),
    {
        self.name
    }

    /// How many elements the buffer has room for.
    pub fn capacity(&self) -> (capacity: usize)
        ensures
            capacity == self.spec_capacity(),
    {
        self.capacity
    }

    /// The size of the buffer in bytes.
    pub fn size(&self) -> (size: u64)
        ensures
            size == self.spec_size(),
    {
        self.size
    }

    /// Where the element at `offset` starts, in bytes.
    pub fn byte_offset(&self, offset: usize) -> (bytes: u64)
        requires
            offset * self.spec_element_size() <= usize::MAX,
        ensures
            bytes == offset * self.spec_element_size(),
    {
        (offset * self.element.size) as u64
    }

    /// How many bytes `count` elements take.
    pub fn byte_size(&self, count: usize) -> (bytes: u64)
        requires
            count * self.spec_element_size() <= usize::MAX,
        ensures
            bytes == count * self.spec_element_size(),
    {
        (count * self.element.size) as u64
    }

    /// The raw Vulkan handle of the buffer (`VkBuffer` as a 64-bit value).
    pub fn handle(&self) -> (handle: u64)
        ensures
            handle == self.spec_buffer(),
    {
        self.buffer
    }

    /// The memory that backs the buffer.
    pub fn allocation(&self) -> (allocation: &gpu_allocator::vulkan::Allocation)
        ensures
            *allocation == self.spec_allocation(),
    {
        &self.allocation
    }

    /// Gives up the resource, handing back the memory that backed it.
    pub fn into_allocation(self) -> (allocation: gpu_allocator::vulkan::Allocation)
        ensures
            allocation == self.spec_allocation(),
    {
        self.allocation
    }
}

} // verus!
