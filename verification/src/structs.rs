//! Plain data structures of the API.
//!
//! These hold the values that the runtime's logic reads and writes. The
//! driver-facing layouts (with their extension-chain pointers) are built from
//! them at the boundary to the driver; within the library every extension
//! chain is empty.

use crate::enums::{VkDescriptorType, VkImageLayout, VkStructureType};
use crate::flags::{VkAccessFlags, VkMemoryPropertyFlags, VkQueueFlags, VkShaderStageFlags};
use crate::sys::{VkBuffer, VkImageView, VkSampler, VK_FALSE};
use vstd::prelude::*;

verus! {

/// A 3D extent.
#[derive(Debug, Clone, Copy, PartialEq, Eq, Hash, Structural)]
pub struct VkExtent3D {
    pub width: u32,
    pub height: u32,
    pub depth: u32,
}

impl Default for VkExtent3D {
    /// The unit extent 1 x 1 x 1.
    fn default() -> (e: Self)
        ensures
            e.width == 1 && e.height == 1 && e.depth == 1,
    {
        Self { width: 1, height: 1, depth: 1 }
    }
}

/// Properties of a queue family.
#[derive(Debug, Clone, Copy)]
pub struct VkQueueFamilyProperties {
    pub queueFlags: VkQueueFlags,
    pub queueCount: u32,
    pub timestampValidBits: u32,
    pub minImageTransferGranularity: VkExtent3D,
}

/// Physical device features (the compute-relevant ones).
#[derive(Debug, Clone, Copy)]
pub struct VkPhysicalDeviceFeatures {
    pub robustBufferAccess: u32,
    pub shaderFloat64: u32,
    pub shaderInt64: u32,
    pub shaderInt16: u32,
    pub shaderStorageBufferArrayDynamicIndexing: u32,
    pub shaderStorageImageArrayDynamicIndexing: u32,
    pub shaderStorageImageReadWithoutFormat: u32,
    pub shaderStorageImageWriteWithoutFormat: u32,
}

impl Default for VkPhysicalDeviceFeatures {
    /// Every feature disabled.
    fn default() -> (f: Self)
        ensures
            f.robustBufferAccess == VK_FALSE,
            f.shaderFloat64 == VK_FALSE,
            f.shaderInt64 == VK_FALSE,
            f.shaderInt16 == VK_FALSE,
            f.shaderStorageBufferArrayDynamicIndexing == VK_FALSE,
            f.shaderStorageImageArrayDynamicIndexing == VK_FALSE,
            f.shaderStorageImageReadWithoutFormat == VK_FALSE,
            f.shaderStorageImageWriteWithoutFormat == VK_FALSE,
    {
        Self {
            robustBufferAccess: VK_FALSE,
            shaderFloat64: VK_FALSE,
            shaderInt64: VK_FALSE,
            shaderInt16: VK_FALSE,
            shaderStorageBufferArrayDynamicIndexing: VK_FALSE,
            shaderStorageImageArrayDynamicIndexing: VK_FALSE,
            shaderStorageImageReadWithoutFormat: VK_FALSE,
            shaderStorageImageWriteWithoutFormat: VK_FALSE,
        }
    }
}

/// A memory type of a physical device.
#[derive(Debug, Clone, Copy)]
pub struct VkMemoryType {
    pub propertyFlags: VkMemoryPropertyFlags,
    pub heapIndex: u32,
}

/// A memory heap of a physical device.
#[derive(Debug, Clone, Copy)]
pub struct VkMemoryHeap {
    pub size: u64,
    pub flags: u32,
}

/// The memory types and heaps of a physical device.
#[derive(Debug, Clone, Copy)]
pub struct VkPhysicalDeviceMemoryProperties {
    pub memoryTypeCount: u32,
    pub memoryTypes: [VkMemoryType; 32],
    pub memoryHeapCount: u32,
    pub memoryHeaps: [VkMemoryHeap; 16],
}

/// Indices of the memory types that the allocator uses most.
#[derive(Debug, Clone, Copy, Default)]
pub struct VkMemoryTypeCache {
    pub hostVisibleCoherent: u32,
    pub deviceLocal: u32,
    pub hostVisibleCached: u32,
    pub deviceLocalLazy: u32,
}

/// Memory requirements of a resource.
#[derive(Debug, Clone, Copy)]
pub struct VkMemoryRequirements {
    pub size: u64,
    pub alignment: u64,
    pub memoryTypeBits: u32,
}

impl Default for VkMemoryRequirements {
    /// No memory required.
    fn default() -> (r: Self)
        ensures
            r.size == 0 && r.alignment == 0 && r.memoryTypeBits == 0,
    {
        Self { size: 0, alignment: 0, memoryTypeBits: 0 }
    }
}

/// A region of a buffer-to-buffer copy.
#[derive(Debug, Clone, Copy)]
pub struct VkBufferCopy {
    pub srcOffset: u64,
    pub dstOffset: u64,
    pub size: u64,
}

/// A range of push constants.
#[derive(Debug, Clone, Copy)]
pub struct VkPushConstantRange {
    pub stageFlags: VkShaderStageFlags,
    pub offset: u32,
    pub size: u32,
}

/// A specialization constant entry.
#[derive(Debug, Clone, Copy)]
pub struct VkSpecializationMapEntry {
    pub constantID: u32,
    pub offset: u32,
    pub size: usize,
}

/// A binding of a descriptor set layout. Compute layouts use no immutable samplers.
#[derive(Debug, Clone, Copy)]
pub struct VkDescriptorSetLayoutBinding {
    pub binding: u32,
    pub descriptorType: VkDescriptorType,
    pub descriptorCount: u32,
    pub stageFlags: VkShaderStageFlags,
}

/// The number of descriptors of one type in a pool.
#[derive(Debug, Clone, Copy)]
pub struct VkDescriptorPoolSize {
    pub type_: VkDescriptorType,
    pub descriptorCount: u32,
}

/// The buffer range that a descriptor refers to.
#[derive(Debug, Clone, Copy)]
pub struct VkDescriptorBufferInfo {
    pub buffer: VkBuffer,
    pub offset: u64,
    pub range: u64,
}

/// The image that a descriptor refers to.
#[derive(Debug, Clone, Copy)]
pub struct VkDescriptorImageInfo {
    pub sampler: VkSampler,
    pub imageView: VkImageView,
    pub imageLayout: VkImageLayout,
}

/// Compute limits of a physical device.
#[derive(Debug, Clone, Copy)]
pub struct VkPhysicalDeviceLimits {
    pub maxComputeSharedMemorySize: u32,
    pub maxComputeWorkGroupCount: [u32; 3],
    pub maxComputeWorkGroupInvocations: u32,
    pub maxComputeWorkGroupSize: [u32; 3],
}

/// Sparse-resource properties of a physical device.
#[derive(Debug, Clone, Copy)]
pub struct VkPhysicalDeviceSparseProperties {
    pub residencyStandard2DBlockShape: u32,
    pub residencyStandard2DMultisampleBlockShape: u32,
    pub residencyStandard3DBlockShape: u32,
    pub residencyAlignedMipSize: u32,
    pub residencyNonResidentStrict: u32,
}

/// A global memory barrier.
#[derive(Debug, Clone, Copy)]
pub struct VkMemoryBarrier {
    pub sType: VkStructureType,
    pub srcAccessMask: VkAccessFlags,
    pub dstAccessMask: VkAccessFlags,
}

/// A barrier on a range of one buffer.
#[derive(Debug, Clone, Copy)]
pub struct VkBufferMemoryBarrier {
    pub sType: VkStructureType,
    pub srcAccessMask: VkAccessFlags,
    pub dstAccessMask: VkAccessFlags,
    pub srcQueueFamilyIndex: u32,
    pub dstQueueFamilyIndex: u32,
    pub buffer: VkBuffer,
    pub offset: u64,
    pub size: u64,
}

} // verus!
