//! Enumerations of the API.
//!
//! Each enumeration has a `value` that is the number the C API uses for it.

use vstd::prelude::*;

verus! {

/// Structure type identifiers.
#[derive(Debug, Clone, Copy, PartialEq, Eq, Hash, Structural)]
pub enum VkStructureType {
    ApplicationInfo,
    InstanceCreateInfo,
    DeviceQueueCreateInfo,
    DeviceCreateInfo,
    SubmitInfo,
    MemoryAllocateInfo,
    MappedMemoryRange,
    FenceCreateInfo,
    SemaphoreCreateInfo,
    EventCreateInfo,
    QueryPoolCreateInfo,
    BufferCreateInfo,
    PipelineShaderStageCreateInfo,
    ComputePipelineCreateInfo,
    PipelineLayoutCreateInfo,
    DescriptorSetLayoutCreateInfo,
    DescriptorPoolCreateInfo,
    DescriptorSetAllocateInfo,
    WriteDescriptorSet,
    CopyDescriptorSet,
    ShaderModuleCreateInfo,
    CommandPoolCreateInfo,
    CommandBufferAllocateInfo,
    CommandBufferBeginInfo,
    BufferMemoryBarrier,
    MemoryBarrier,
    PipelineCacheCreateInfo,
    SemaphoreTypeCreateInfo,
    TimelineSemaphoreSubmitInfo,
    SemaphoreWaitInfo,
}

impl VkStructureType {
    /// The number of this value in the C API.
    pub open spec fn spec_value(self) -> i32 {
        match self {
            VkStructureType::ApplicationInfo => 0,
            VkStructureType::InstanceCreateInfo => 1,
            VkStructureType::DeviceQueueCreateInfo => 2,
            VkStructureType::DeviceCreateInfo => 3,
            VkStructureType::SubmitInfo => 4,
            VkStructureType::MemoryAllocateInfo => 5,
            VkStructureType::MappedMemoryRange => 6,
            VkStructureType::FenceCreateInfo => 8,
            VkStructureType::SemaphoreCreateInfo => 9,
            VkStructureType::EventCreateInfo => 10,
            VkStructureType::QueryPoolCreateInfo => 11,
            VkStructureType::BufferCreateInfo => 12,
            VkStructureType::PipelineShaderStageCreateInfo => 18,
            VkStructureType::ComputePipelineCreateInfo => 29,
            VkStructureType::PipelineLayoutCreateInfo => 30,
            VkStructureType::DescriptorSetLayoutCreateInfo => 32,
            VkStructureType::DescriptorPoolCreateInfo => 33,
            VkStructureType::DescriptorSetAllocateInfo => 34,
            VkStructureType::WriteDescriptorSet => 35,
            VkStructureType::CopyDescriptorSet => 36,
            VkStructureType::ShaderModuleCreateInfo => 38,
            VkStructureType::CommandPoolCreateInfo => 39,
            VkStructureType::CommandBufferAllocateInfo => 40,
            VkStructureType::CommandBufferBeginInfo => 42,
            VkStructureType::BufferMemoryBarrier => 44,
            VkStructureType::MemoryBarrier => 46,
            VkStructureType::PipelineCacheCreateInfo => 47,
            VkStructureType::SemaphoreTypeCreateInfo => 1000207002,
            VkStructureType::TimelineSemaphoreSubmitInfo => 1000207003,
            VkStructureType::SemaphoreWaitInfo => 1000207004,
        }
    }

    /// The number of this value in the C API.
    pub fn value(self) -> (r: i32)
        ensures
            r == self.spec_value(),
    {
        match self {
            VkStructureType::ApplicationInfo => 0,
            VkStructureType::InstanceCreateInfo => 1,
            VkStructureType::DeviceQueueCreateInfo => 2,
            VkStructureType::DeviceCreateInfo => 3,
            VkStructureType::SubmitInfo => 4,
            VkStructureType::MemoryAllocateInfo => 5,
            VkStructureType::MappedMemoryRange => 6,
            VkStructureType::FenceCreateInfo => 8,
            VkStructureType::SemaphoreCreateInfo => 9,
            VkStructureType::EventCreateInfo => 10,
            VkStructureType::QueryPoolCreateInfo => 11,
            VkStructureType::BufferCreateInfo => 12,
            VkStructureType::PipelineShaderStageCreateInfo => 18,
            VkStructureType::ComputePipelineCreateInfo => 29,
            VkStructureType::PipelineLayoutCreateInfo => 30,
            VkStructureType::DescriptorSetLayoutCreateInfo => 32,
            VkStructureType::DescriptorPoolCreateInfo => 33,
            VkStructureType::DescriptorSetAllocateInfo => 34,
            VkStructureType::WriteDescriptorSet => 35,
            VkStructureType::CopyDescriptorSet => 36,
            VkStructureType::ShaderModuleCreateInfo => 38,
            VkStructureType::CommandPoolCreateInfo => 39,
            VkStructureType::CommandBufferAllocateInfo => 40,
            VkStructureType::CommandBufferBeginInfo => 42,
            VkStructureType::BufferMemoryBarrier => 44,
            VkStructureType::MemoryBarrier => 46,
            VkStructureType::PipelineCacheCreateInfo => 47,
            VkStructureType::SemaphoreTypeCreateInfo => 1000207002,
            VkStructureType::TimelineSemaphoreSubmitInfo => 1000207003,
            VkStructureType::SemaphoreWaitInfo => 1000207004,
        }
    }
}

/// Queue capability bits.
#[derive(Debug, Clone, Copy, PartialEq, Eq, Hash, Structural)]
pub enum VkQueueFlagBits {
    Compute,
    Transfer,
    SparseBinding,
}

impl VkQueueFlagBits {
    /// The number of this value in the C API.
    pub open spec fn spec_value(self) -> u32 {
        match self {
            VkQueueFlagBits::Compute => 0x2,
            VkQueueFlagBits::Transfer => 0x4,
            VkQueueFlagBits::SparseBinding => 0x8,
        }
    }

    /// The number of this value in the C API.
    pub fn value(self) -> (r: u32)
        ensures
            r == self.spec_value(),
    {
        match self {
            VkQueueFlagBits::Compute => 0x2,
            VkQueueFlagBits::Transfer => 0x4,
            VkQueueFlagBits::SparseBinding => 0x8,
        }
    }
}

/// Memory property bits.
#[derive(Debug, Clone, Copy, PartialEq, Eq, Hash, Structural)]
pub enum VkMemoryPropertyFlagBits {
    DeviceLocal,
    HostVisible,
    HostCoherent,
    HostCached,
    LazilyAllocated,
}

impl VkMemoryPropertyFlagBits {
    /// The number of this value in the C API.
    pub open spec fn spec_value(self) -> u32 {
        match self {
            VkMemoryPropertyFlagBits::DeviceLocal => 0x1,
            VkMemoryPropertyFlagBits::HostVisible => 0x2,
            VkMemoryPropertyFlagBits::HostCoherent => 0x4,
            VkMemoryPropertyFlagBits::HostCached => 0x8,
            VkMemoryPropertyFlagBits::LazilyAllocated => 0x10,
        }
    }

    /// The number of this value in the C API.
    pub fn value(self) -> (r: u32)
        ensures
            r == self.spec_value(),
    {
        match self {
            VkMemoryPropertyFlagBits::DeviceLocal => 0x1,
            VkMemoryPropertyFlagBits::HostVisible => 0x2,
            VkMemoryPropertyFlagBits::HostCoherent => 0x4,
            VkMemoryPropertyFlagBits::HostCached => 0x8,
            VkMemoryPropertyFlagBits::LazilyAllocated => 0x10,
        }
    }
}

/// Buffer usage bits.
#[derive(Debug, Clone, Copy, PartialEq, Eq, Hash, Structural)]
pub enum VkBufferUsageFlagBits {
    TransferSrc,
    TransferDst,
    UniformBuffer,
    StorageBuffer,
    IndexBuffer,
    VertexBuffer,
    IndirectBuffer,
}

impl VkBufferUsageFlagBits {
    /// The number of this value in the C API.
    pub open spec fn spec_value(self) -> u32 {
        match self {
            VkBufferUsageFlagBits::TransferSrc => 0x1,
            VkBufferUsageFlagBits::TransferDst => 0x2,
            VkBufferUsageFlagBits::UniformBuffer => 0x10,
            VkBufferUsageFlagBits::StorageBuffer => 0x20,
            VkBufferUsageFlagBits::IndexBuffer => 0x40,
            VkBufferUsageFlagBits::VertexBuffer => 0x80,
            VkBufferUsageFlagBits::IndirectBuffer => 0x100,
        }
    }

    /// The number of this value in the C API.
    pub fn value(self) -> (r: u32)
        ensures
            r == self.spec_value(),
    {
        match self {
            VkBufferUsageFlagBits::TransferSrc => 0x1,
            VkBufferUsageFlagBits::TransferDst => 0x2,
            VkBufferUsageFlagBits::UniformBuffer => 0x10,
            VkBufferUsageFlagBits::StorageBuffer => 0x20,
            VkBufferUsageFlagBits::IndexBuffer => 0x40,
            VkBufferUsageFlagBits::VertexBuffer => 0x80,
            VkBufferUsageFlagBits::IndirectBuffer => 0x100,
        }
    }
}

/// Sharing mode of a resource between queue families.
#[derive(Debug, Clone, Copy, PartialEq, Eq, Hash, Structural)]
pub enum VkSharingMode {
    Exclusive,
    Concurrent,
}

impl VkSharingMode {
    /// The number of this value in the C API.
    pub open spec fn spec_value(self) -> i32 {
        match self {
            VkSharingMode::Exclusive => 0,
            VkSharingMode::Concurrent => 1,
        }
    }

    /// The number of this value in the C API.
    pub fn value(self) -> (r: i32)
        ensures
            r == self.spec_value(),
    {
        match self {
            VkSharingMode::Exclusive => 0,
            VkSharingMode::Concurrent => 1,
        }
    }
}

/// Pipeline bind point (compute only).
#[derive(Debug, Clone, Copy, PartialEq, Eq, Hash, Structural)]
pub enum VkPipelineBindPoint {
    Compute,
}

impl VkPipelineBindPoint {
    /// The number of this value in the C API.
    pub open spec fn spec_value(self) -> i32 {
        match self {
            VkPipelineBindPoint::Compute => 1,
        }
    }

    /// The number of this value in the C API.
    pub fn value(self) -> (r: i32)
        ensures
            r == self.spec_value(),
    {
        match self {
            VkPipelineBindPoint::Compute => 1,
        }
    }
}

/// Command buffer level.
#[derive(Debug, Clone, Copy, PartialEq, Eq, Hash, Structural)]
pub enum VkCommandBufferLevel {
    Primary,
    Secondary,
}

impl VkCommandBufferLevel {
    /// The number of this value in the C API.
    pub open spec fn spec_value(self) -> i32 {
        match self {
            VkCommandBufferLevel::Primary => 0,
            VkCommandBufferLevel::Secondary => 1,
        }
    }

    /// The number of this value in the C API.
    pub fn value(self) -> (r: i32)
        ensures
            r == self.spec_value(),
    {
        match self {
            VkCommandBufferLevel::Primary => 0,
            VkCommandBufferLevel::Secondary => 1,
        }
    }
}

/// Command buffer usage bits.
#[derive(Debug, Clone, Copy, PartialEq, Eq, Hash, Structural)]
pub enum VkCommandBufferUsageFlagBits {
    OneTimeSubmit,
    SimultaneousUse,
}

impl VkCommandBufferUsageFlagBits {
    /// The number of this value in the C API.
    pub open spec fn spec_value(self) -> u32 {
        match self {
            VkCommandBufferUsageFlagBits::OneTimeSubmit => 0x1,
            VkCommandBufferUsageFlagBits::SimultaneousUse => 0x4,
        }
    }

    /// The number of this value in the C API.
    pub fn value(self) -> (r: u32)
        ensures
            r == self.spec_value(),
    {
        match self {
            VkCommandBufferUsageFlagBits::OneTimeSubmit => 0x1,
            VkCommandBufferUsageFlagBits::SimultaneousUse => 0x4,
        }
    }
}

/// Shader stage bits.
#[derive(Debug, Clone, Copy, PartialEq, Eq, Hash, Structural)]
pub enum VkShaderStageFlagBits {
    Compute,
}

impl VkShaderStageFlagBits {
    /// The number of this value in the C API.
    pub open spec fn spec_value(self) -> u32 {
        match self {
            VkShaderStageFlagBits::Compute => 0x20,
        }
    }

    /// The number of this value in the C API.
    pub fn value(self) -> (r: u32)
        ensures
            r == self.spec_value(),
    {
        match self {
            VkShaderStageFlagBits::Compute => 0x20,
        }
    }
}

/// Descriptor types relevant to compute.
#[derive(Debug, Clone, Copy, PartialEq, Eq, Hash, Structural)]
pub enum VkDescriptorType {
    Sampler,
    SampledImage,
    StorageImage,
    UniformBuffer,
    StorageBuffer,
    UniformBufferDynamic,
    StorageBufferDynamic,
}

impl VkDescriptorType {
    /// The number of this value in the C API.
    pub open spec fn spec_value(self) -> i32 {
        match self {
            VkDescriptorType::Sampler => 0,
            VkDescriptorType::SampledImage => 2,
            VkDescriptorType::StorageImage => 3,
            VkDescriptorType::UniformBuffer => 6,
            VkDescriptorType::StorageBuffer => 7,
            VkDescriptorType::UniformBufferDynamic => 8,
            VkDescriptorType::StorageBufferDynamic => 9,
        }
    }

    /// The number of this value in the C API.
    pub fn value(self) -> (r: i32)
        ensures
            r == self.spec_value(),
    {
        match self {
            VkDescriptorType::Sampler => 0,
            VkDescriptorType::SampledImage => 2,
            VkDescriptorType::StorageImage => 3,
            VkDescriptorType::UniformBuffer => 6,
            VkDescriptorType::StorageBuffer => 7,
            VkDescriptorType::UniformBufferDynamic => 8,
            VkDescriptorType::StorageBufferDynamic => 9,
        }
    }
}

/// Pipeline stage bits.
#[derive(Debug, Clone, Copy, PartialEq, Eq, Hash, Structural)]
pub enum VkPipelineStageFlagBits {
    TopOfPipe,
    ComputeShader,
    BottomOfPipe,
    Host,
    AllCommands,
}

impl VkPipelineStageFlagBits {
    /// The number of this value in the C API.
    pub open spec fn spec_value(self) -> u32 {
        match self {
            VkPipelineStageFlagBits::TopOfPipe => 0x1,
            VkPipelineStageFlagBits::ComputeShader => 0x800,
            VkPipelineStageFlagBits::BottomOfPipe => 0x2000,
            VkPipelineStageFlagBits::Host => 0x4000,
            VkPipelineStageFlagBits::AllCommands => 0x10000,
        }
    }

    /// The number of this value in the C API.
    pub fn value(self) -> (r: u32)
        ensures
            r == self.spec_value(),
    {
        match self {
            VkPipelineStageFlagBits::TopOfPipe => 0x1,
            VkPipelineStageFlagBits::ComputeShader => 0x800,
            VkPipelineStageFlagBits::BottomOfPipe => 0x2000,
            VkPipelineStageFlagBits::Host => 0x4000,
            VkPipelineStageFlagBits::AllCommands => 0x10000,
        }
    }
}

/// Access bits.
#[derive(Debug, Clone, Copy, PartialEq, Eq, Hash, Structural)]
pub enum VkAccessFlagBits {
    IndirectCommandRead,
    IndexRead,
    VertexAttributeRead,
    UniformRead,
    InputAttachmentRead,
    ShaderRead,
    ShaderWrite,
    TransferRead,
    TransferWrite,
    HostRead,
    HostWrite,
    MemoryRead,
    MemoryWrite,
}

impl VkAccessFlagBits {
    /// The number of this value in the C API.
    pub open spec fn spec_value(self) -> u32 {
        match self {
            VkAccessFlagBits::IndirectCommandRead => 0x1,
            VkAccessFlagBits::IndexRead => 0x2,
            VkAccessFlagBits::VertexAttributeRead => 0x4,
            VkAccessFlagBits::UniformRead => 0x8,
            VkAccessFlagBits::InputAttachmentRead => 0x10,
            VkAccessFlagBits::ShaderRead => 0x20,
            VkAccessFlagBits::ShaderWrite => 0x40,
            VkAccessFlagBits::TransferRead => 0x800,
            VkAccessFlagBits::TransferWrite => 0x1000,
            VkAccessFlagBits::HostRead => 0x2000,
            VkAccessFlagBits::HostWrite => 0x4000,
            VkAccessFlagBits::MemoryRead => 0x8000,
            VkAccessFlagBits::MemoryWrite => 0x10000,
        }
    }

    /// The number of this value in the C API.
    pub fn value(self) -> (r: u32)
        ensures
            r == self.spec_value(),
    {
        match self {
            VkAccessFlagBits::IndirectCommandRead => 0x1,
            VkAccessFlagBits::IndexRead => 0x2,
            VkAccessFlagBits::VertexAttributeRead => 0x4,
            VkAccessFlagBits::UniformRead => 0x8,
            VkAccessFlagBits::InputAttachmentRead => 0x10,
            VkAccessFlagBits::ShaderRead => 0x20,
            VkAccessFlagBits::ShaderWrite => 0x40,
            VkAccessFlagBits::TransferRead => 0x800,
            VkAccessFlagBits::TransferWrite => 0x1000,
            VkAccessFlagBits::HostRead => 0x2000,
            VkAccessFlagBits::HostWrite => 0x4000,
            VkAccessFlagBits::MemoryRead => 0x8000,
            VkAccessFlagBits::MemoryWrite => 0x10000,
        }
    }
}

/// Semaphore type.
#[derive(Debug, Clone, Copy, PartialEq, Eq, Hash, Structural)]
pub enum VkSemaphoreType {
    Binary,
    Timeline,
}

impl VkSemaphoreType {
    /// The number of this value in the C API.
    pub open spec fn spec_value(self) -> i32 {
        match self {
            VkSemaphoreType::Binary => 0,
            VkSemaphoreType::Timeline => 1,
        }
    }

    /// The number of this value in the C API.
    pub fn value(self) -> (r: i32)
        ensures
            r == self.spec_value(),
    {
        match self {
            VkSemaphoreType::Binary => 0,
            VkSemaphoreType::Timeline => 1,
        }
    }
}

/// Physical device type.
#[derive(Debug, Clone, Copy, PartialEq, Eq, Hash, Structural)]
pub enum VkPhysicalDeviceType {
    Other,
    IntegratedGpu,
    DiscreteGpu,
    VirtualGpu,
    Cpu,
}

impl VkPhysicalDeviceType {
    /// The number of this value in the C API.
    pub open spec fn spec_value(self) -> i32 {
        match self {
            VkPhysicalDeviceType::Other => 0,
            VkPhysicalDeviceType::IntegratedGpu => 1,
            VkPhysicalDeviceType::DiscreteGpu => 2,
            VkPhysicalDeviceType::VirtualGpu => 3,
            VkPhysicalDeviceType::Cpu => 4,
        }
    }

    /// The number of this value in the C API.
    pub fn value(self) -> (r: i32)
        ensures
            r == self.spec_value(),
    {
        match self {
            VkPhysicalDeviceType::Other => 0,
            VkPhysicalDeviceType::IntegratedGpu => 1,
            VkPhysicalDeviceType::DiscreteGpu => 2,
            VkPhysicalDeviceType::VirtualGpu => 3,
            VkPhysicalDeviceType::Cpu => 4,
        }
    }

    /// The device type with C code `code`, if any.
    pub fn from_value(code: i32) -> (r: Option<VkPhysicalDeviceType>)
        ensures
            r matches Some(t) ==> t.spec_value() == code,
            r is None ==> forall|t: VkPhysicalDeviceType| #[trigger] t.spec_value() != code,
    {
        match code {
            0 => Some(VkPhysicalDeviceType::Other),
            1 => Some(VkPhysicalDeviceType::IntegratedGpu),
            2 => Some(VkPhysicalDeviceType::DiscreteGpu),
            3 => Some(VkPhysicalDeviceType::VirtualGpu),
            4 => Some(VkPhysicalDeviceType::Cpu),
            _ => None,
        }
    }
}

/// Image layouts.
#[derive(Debug, Clone, Copy, PartialEq, Eq, Hash, Structural)]
pub enum VkImageLayout {
    Undefined,
    General,
    TransferSrcOptimal,
    TransferDstOptimal,
    SharedPresentKHR,
}

impl VkImageLayout {
    /// The number of this value in the C API.
    pub open spec fn spec_value(self) -> i32 {
        match self {
            VkImageLayout::Undefined => 0,
            VkImageLayout::General => 1,
            VkImageLayout::TransferSrcOptimal => 6,
            VkImageLayout::TransferDstOptimal => 7,
            VkImageLayout::SharedPresentKHR => 1000111000,
        }
    }

    /// The number of this value in the C API.
    pub fn value(self) -> (r: i32)
        ensures
            r == self.spec_value(),
    {
        match self {
            VkImageLayout::Undefined => 0,
            VkImageLayout::General => 1,
            VkImageLayout::TransferSrcOptimal => 6,
            VkImageLayout::TransferDstOptimal => 7,
            VkImageLayout::SharedPresentKHR => 1000111000,
        }
    }
}

/// Result codes of API operations.
#[derive(Debug, Clone, Copy, PartialEq, Eq, Hash, Structural)]
pub enum VkResult {
    Success,
    NotReady,
    Timeout,
    EventSet,
    EventReset,
    Incomplete,
    ErrorOutOfHostMemory,
    ErrorOutOfDeviceMemory,
    ErrorInitializationFailed,
    ErrorDeviceLost,
    ErrorMemoryMapFailed,
    ErrorLayerNotPresent,
    ErrorExtensionNotPresent,
    ErrorFeatureNotPresent,
    ErrorIncompatibleDriver,
    ErrorTooManyObjects,
    ErrorFormatNotSupported,
    ErrorFragmentedPool,
    ErrorUnknown,
    ErrorOutOfPoolMemory,
}

impl VkResult {
    /// The number of this value in the C API.
    pub open spec fn spec_value(self) -> i32 {
        match self {
            VkResult::Success => 0,
            VkResult::NotReady => 1,
            VkResult::Timeout => 2,
            VkResult::EventSet => 3,
            VkResult::EventReset => 4,
            VkResult::Incomplete => 5,
            VkResult::ErrorOutOfHostMemory => -1i32,
            VkResult::ErrorOutOfDeviceMemory => -2i32,
            VkResult::ErrorInitializationFailed => -3i32,
            VkResult::ErrorDeviceLost => -4i32,
            VkResult::ErrorMemoryMapFailed => -5i32,
            VkResult::ErrorLayerNotPresent => -6i32,
            VkResult::ErrorExtensionNotPresent => -7i32,
            VkResult::ErrorFeatureNotPresent => -8i32,
            VkResult::ErrorIncompatibleDriver => -9i32,
            VkResult::ErrorTooManyObjects => -10i32,
            VkResult::ErrorFormatNotSupported => -11i32,
            VkResult::ErrorFragmentedPool => -12i32,
            VkResult::ErrorUnknown => -13i32,
            VkResult::ErrorOutOfPoolMemory => -1000069000i32,
        }
    }

    /// The number of this value in the C API.
    pub fn value(self) -> (r: i32)
        ensures
            r == self.spec_value(),
    {
        match self {
            VkResult::Success => 0,
            VkResult::NotReady => 1,
            VkResult::Timeout => 2,
            VkResult::EventSet => 3,
            VkResult::EventReset => 4,
            VkResult::Incomplete => 5,
            VkResult::ErrorOutOfHostMemory => -1i32,
            VkResult::ErrorOutOfDeviceMemory => -2i32,
            VkResult::ErrorInitializationFailed => -3i32,
            VkResult::ErrorDeviceLost => -4i32,
            VkResult::ErrorMemoryMapFailed => -5i32,
            VkResult::ErrorLayerNotPresent => -6i32,
            VkResult::ErrorExtensionNotPresent => -7i32,
            VkResult::ErrorFeatureNotPresent => -8i32,
            VkResult::ErrorIncompatibleDriver => -9i32,
            VkResult::ErrorTooManyObjects => -10i32,
            VkResult::ErrorFormatNotSupported => -11i32,
            VkResult::ErrorFragmentedPool => -12i32,
            VkResult::ErrorUnknown => -13i32,
            VkResult::ErrorOutOfPoolMemory => -1000069000i32,
        }
    }

    /// The result with C code `code`, if any.
    pub fn from_value(code: i32) -> (r: Option<VkResult>)
        ensures
            r matches Some(v) ==> v.spec_value() == code,
            r is None ==> forall|v: VkResult| #[trigger] v.spec_value() != code,
    {
        match code {
            0 => Some(VkResult::Success),
            1 => Some(VkResult::NotReady),
            2 => Some(VkResult::Timeout),
            3 => Some(VkResult::EventSet),
            4 => Some(VkResult::EventReset),
            5 => Some(VkResult::Incomplete),
            -1i32 => Some(VkResult::ErrorOutOfHostMemory),
            -2i32 => Some(VkResult::ErrorOutOfDeviceMemory),
            -3i32 => Some(VkResult::ErrorInitializationFailed),
            -4i32 => Some(VkResult::ErrorDeviceLost),
            -5i32 => Some(VkResult::ErrorMemoryMapFailed),
            -6i32 => Some(VkResult::ErrorLayerNotPresent),
            -7i32 => Some(VkResult::ErrorExtensionNotPresent),
            -8i32 => Some(VkResult::ErrorFeatureNotPresent),
            -9i32 => Some(VkResult::ErrorIncompatibleDriver),
            -10i32 => Some(VkResult::ErrorTooManyObjects),
            -11i32 => Some(VkResult::ErrorFormatNotSupported),
            -12i32 => Some(VkResult::ErrorFragmentedPool),
            -13i32 => Some(VkResult::ErrorUnknown),
            -1000069000i32 => Some(VkResult::ErrorOutOfPoolMemory),
            _ => None,
        }
    }
}

/// Scope of a host allocation.
#[derive(Debug, Clone, Copy, PartialEq, Eq, Hash, Structural)]
pub enum VkSystemAllocationScope {
    Command,
    Object,
    Cache,
    Device,
    Instance,
}

impl VkSystemAllocationScope {
    /// The number of this value in the C API.
    pub open spec fn spec_value(self) -> i32 {
        match self {
            VkSystemAllocationScope::Command => 0,
            VkSystemAllocationScope::Object => 1,
            VkSystemAllocationScope::Cache => 2,
            VkSystemAllocationScope::Device => 3,
            VkSystemAllocationScope::Instance => 4,
        }
    }

    /// The number of this value in the C API.
    pub fn value(self) -> (r: i32)
        ensures
            r == self.spec_value(),
    {
        match self {
            VkSystemAllocationScope::Command => 0,
            VkSystemAllocationScope::Object => 1,
            VkSystemAllocationScope::Cache => 2,
            VkSystemAllocationScope::Device => 3,
            VkSystemAllocationScope::Instance => 4,
        }
    }
}

/// Kind of an internal host allocation.
#[derive(Debug, Clone, Copy, PartialEq, Eq, Hash, Structural)]
pub enum VkInternalAllocationType {
    Executable,
}

impl VkInternalAllocationType {
    /// The number of this value in the C API.
    pub open spec fn spec_value(self) -> i32 {
        match self {
            VkInternalAllocationType::Executable => 0,
        }
    }

    /// The number of this value in the C API.
    pub fn value(self) -> (r: i32)
        ensures
            r == self.spec_value(),
    {
        match self {
            VkInternalAllocationType::Executable => 0,
        }
    }
}

} // verus!
