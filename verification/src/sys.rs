//! Handle types and basic constants.
//!
//! Every Vulkan object is named by a 64-bit handle. `Handle<T>` carries the
//! object kind in its type parameter, so that a buffer handle cannot be passed
//! where a device handle is expected; the value itself is a plain `u64`, with
//! 0 standing for the null handle.

use core::marker::PhantomData;
use vstd::prelude::*;

verus! {

/// Opaque handle type; the type parameter tells handles of different objects apart.
#[derive(PartialEq, Eq, Hash, Debug)]
pub struct Handle<T> {
    raw: u64,
    _marker: PhantomData<T>,
}

impl<T> Handle<T> {
    /// The integer value of the handle.
    pub closed spec fn raw_value(self) -> u64 {
        self.raw
    }

    /// The null handle (raw value 0).
    pub fn NULL() -> (h: Self)
        ensures
            h.raw_value() == 0,
    {
        Self { raw: 0, _marker: PhantomData }
    }

    /// A handle with the given raw value.
    pub fn from_raw(raw: u64) -> (h: Self)
        ensures
            h.raw_value() == raw,
    {
        Self { raw, _marker: PhantomData }
    }

    /// The raw value of the handle.
    pub fn as_raw(&self) -> (r: u64)
        ensures
            r == self.raw_value(),
    {
        self.raw
    }

    /// Whether this is the null handle.
    pub fn is_null(&self) -> (b: bool)
        ensures
            b == (self.raw_value() == 0),
    {
        self.raw == 0
    }
}

impl<T> Clone for Handle<T> {
    fn clone(&self) -> (h: Self)
        ensures
            h == *self,
    {
        Handle { raw: self.raw, _marker: PhantomData }
    }
}

impl<T> Copy for Handle<T> {}

/// Two handles of one kind are the same handle exactly when their raw values agree.
pub proof fn lemma_handle_eq_iff_raw<T>(a: Handle<T>, b: Handle<T>)
    ensures
        (a == b) <==> (a.raw_value() == b.raw_value()),
{
}

// Object kinds. They carry no data: they only tell handle types apart.
#[derive(Debug, Clone, Copy, PartialEq, Eq, Hash)]
pub struct InstanceT;
#[derive(Debug, Clone, Copy, PartialEq, Eq, Hash)]
pub struct PhysicalDeviceT;
#[derive(Debug, Clone, Copy, PartialEq, Eq, Hash)]
pub struct DeviceT;
#[derive(Debug, Clone, Copy, PartialEq, Eq, Hash)]
pub struct QueueT;
#[derive(Debug, Clone, Copy, PartialEq, Eq, Hash)]
pub struct CommandBufferT;
#[derive(Debug, Clone, Copy, PartialEq, Eq, Hash)]
pub struct BufferT;
#[derive(Debug, Clone, Copy, PartialEq, Eq, Hash)]
pub struct DeviceMemoryT;
#[derive(Debug, Clone, Copy, PartialEq, Eq, Hash)]
pub struct PipelineT;
#[derive(Debug, Clone, Copy, PartialEq, Eq, Hash)]
pub struct PipelineLayoutT;
#[derive(Debug, Clone, Copy, PartialEq, Eq, Hash)]
pub struct ShaderModuleT;
#[derive(Debug, Clone, Copy, PartialEq, Eq, Hash)]
pub struct DescriptorSetT;
#[derive(Debug, Clone, Copy, PartialEq, Eq, Hash)]
pub struct DescriptorSetLayoutT;
#[derive(Debug, Clone, Copy, PartialEq, Eq, Hash)]
pub struct DescriptorPoolT;
#[derive(Debug, Clone, Copy, PartialEq, Eq, Hash)]
pub struct CommandPoolT;
#[derive(Debug, Clone, Copy, PartialEq, Eq, Hash)]
pub struct FenceT;
#[derive(Debug, Clone, Copy, PartialEq, Eq, Hash)]
pub struct SemaphoreT;
#[derive(Debug, Clone, Copy, PartialEq, Eq, Hash)]
pub struct EventT;
#[derive(Debug, Clone, Copy, PartialEq, Eq, Hash)]
pub struct PipelineCacheT;
#[derive(Debug, Clone, Copy, PartialEq, Eq, Hash)]
pub struct SamplerT;
#[derive(Debug, Clone, Copy, PartialEq, Eq, Hash)]
pub struct ImageViewT;
#[derive(Debug, Clone, Copy, PartialEq, Eq, Hash)]
pub struct BufferViewT;

pub type VkInstance = Handle<InstanceT>;
pub type VkPhysicalDevice = Handle<PhysicalDeviceT>;
pub type VkDevice = Handle<DeviceT>;
pub type VkQueue = Handle<QueueT>;
pub type VkCommandBuffer = Handle<CommandBufferT>;
pub type VkBuffer = Handle<BufferT>;
pub type VkDeviceMemory = Handle<DeviceMemoryT>;
pub type VkPipeline = Handle<PipelineT>;
pub type VkPipelineLayout = Handle<PipelineLayoutT>;
pub type VkShaderModule = Handle<ShaderModuleT>;
pub type VkDescriptorSet = Handle<DescriptorSetT>;
pub type VkDescriptorSetLayout = Handle<DescriptorSetLayoutT>;
pub type VkDescriptorPool = Handle<DescriptorPoolT>;
pub type VkCommandPool = Handle<CommandPoolT>;
pub type VkFence = Handle<FenceT>;
pub type VkSemaphore = Handle<SemaphoreT>;
pub type VkEvent = Handle<EventT>;
pub type VkPipelineCache = Handle<PipelineCacheT>;
pub type VkSampler = Handle<SamplerT>;
pub type VkImageView = Handle<ImageViewT>;
pub type VkBufferView = Handle<BufferViewT>;

pub type VkBool32 = u32;
pub type VkFlags = u32;
pub type VkDeviceSize = u64;

pub const VK_TRUE: u32 = 1;
pub const VK_FALSE: u32 = 0;
pub const VK_WHOLE_SIZE: u64 = 0xffff_ffff_ffff_ffff;
pub const VK_QUEUE_FAMILY_IGNORED: u32 = 0xffff_ffff;

pub const VK_MAX_PHYSICAL_DEVICE_NAME_SIZE: u32 = 256;
pub const VK_UUID_SIZE: u32 = 16;
pub const VK_MAX_MEMORY_TYPES: u32 = 32;
pub const VK_MAX_MEMORY_HEAPS: u32 = 16;

/// Vulkan 1.0: major version 1 in bits 22 and up.
pub const VK_API_VERSION_1_0: u32 = 1 << 22;
/// Vulkan 1.3: major 1, minor 3.
pub const VK_API_VERSION_1_3: u32 = (1 << 22) | (3 << 12);

/// The packed version number: major in bits 22 and up, minor in bits 12..22,
/// patch in the low 12 bits (each truncated to 32 bits by the shifts).
pub open spec fn spec_make_version(major: u32, minor: u32, patch: u32) -> u32 {
    ((major << 22u32) | (minor << 12u32)) | patch
}

/// Packs a version number as Vulkan does.
pub fn VK_MAKE_VERSION(major: u32, minor: u32, patch: u32) -> (v: u32)
    ensures
        v == spec_make_version(major, minor, patch),
{
    (major << 22u32) | (minor << 12u32) | patch
}

} // verus!
