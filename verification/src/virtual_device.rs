//! The virtual compute device.
//!
//! Without a driver, Kronos answers the compute part of the Vulkan API itself: one
//! virtual physical device with one compute queue, host memory, fences, semaphores
//! and events that complete at once, shader modules checked for SPIR-V, and command
//! buffers that move between their recording states. Each kind of object gets its
//! handles from its own counter, starting at 1. This module keeps the registries;
//! the C entry points that read and write through pointers are the caller's.

use crate::enums::{VkPhysicalDeviceType, VkResult};
use crate::flags::{VkMemoryPropertyFlags, VkQueueFlags};
use crate::structs::{
    VkExtent3D, VkMemoryHeap, VkMemoryType, VkPhysicalDeviceLimits, VkPhysicalDeviceMemoryProperties,
    VkPhysicalDeviceSparseProperties, VkQueueFamilyProperties,
};
use crate::sys::{
    VkCommandBuffer, VkCommandPool, VkDescriptorPool, VkDescriptorSetLayout, VkDevice,
    VkDeviceMemory, VkEvent, VkFence, VkInstance, VkPhysicalDevice, VkPipeline, VkPipelineLayout,
    VkQueue, VkSemaphore, VkShaderModule, VK_API_VERSION_1_0, VK_API_VERSION_1_3, VK_FALSE, VK_WHOLE_SIZE,
};
use std::collections::HashMap;
use vstd::prelude::*;

verus! {

broadcast use vstd::std_specs::hash::group_hash_axioms;

/// The first word of every SPIR-V module.
pub const SPIRV_MAGIC: u32 = 0x07230203;

/// Raw handle of the one virtual physical device.
pub const VIRTUAL_PHYSICAL_DEVICE: u64 = 1;

/// A logical device: the queue family it was created for and its one queue.
#[derive(Debug, Clone, Copy)]
pub struct DeviceRecord {
    pub physical_device: VkPhysicalDevice,
    pub queue_family_index: u32,
    pub queue: VkQueue,
}

/// An allocation of host memory standing for device memory.
#[derive(Debug, Clone, Copy)]
pub struct MemoryRecord {
    pub device: VkDevice,
    pub size: u64,
    pub memory_type_index: u32,
    pub mapped: bool,
}

/// Where a command buffer stands.
#[derive(Debug, Clone, Copy, PartialEq, Eq, Structural)]
pub enum CommandBufferState {
    Initial,
    Recording,
    Executable,
}

/// How a call of `vkEnumeratePhysicalDevices` goes: its result, the count to write
/// back (if any) and the device to write (if any).
#[derive(Debug, Clone, Copy)]
pub struct Enumeration {
    pub result: VkResult,
    pub count: Option<u32>,
    pub device: Option<VkPhysicalDevice>,
}

/// The handle that a counter standing at `first` gives out `i` steps later.
pub open spec fn nth_handle(first: u64, i: nat) -> u64
    decreases i,
{
    if i == 0 {
        first
    } else {
        nth_handle(first, (i - 1) as nat).wrapping_add(1)
    }
}

/// The pipeline registry `m` after one pipeline per stage was recorded, under the
/// handles that a counter standing at `first` gives out in turn.
pub open spec fn pipelines_after(
    m: Map<u64, (VkPipelineLayout, VkShaderModule)>,
    first: u64,
    stages: Seq<(VkPipelineLayout, VkShaderModule)>,
) -> Map<u64, (VkPipelineLayout, VkShaderModule)>
    decreases stages.len(),
{
    if stages.len() == 0 {
        m
    } else {
        pipelines_after(m, first, stages.drop_last()).insert(
            nth_handle(first, (stages.len() - 1) as nat),
            stages.last(),
        )
    }
}

/// The command buffer registry `m` after `n` command buffers of `pool` were
/// allocated in their initial state, under the handles that a counter standing at
/// `first` gives out in turn.
pub open spec fn command_buffers_after(
    m: Map<u64, (VkCommandPool, CommandBufferState)>,
    first: u64,
    n: nat,
    pool: VkCommandPool,
) -> Map<u64, (VkCommandPool, CommandBufferState)>
    decreases n,
{
    if n == 0 {
        m
    } else {
        command_buffers_after(m, first, (n - 1) as nat, pool).insert(
            nth_handle(first, (n - 1) as nat),
            (pool, CommandBufferState::Initial),
        )
    }
}

/// What the virtual physical device reports of itself.
#[derive(Debug, Clone, Copy)]
pub struct VirtualDeviceProperties {
    pub api_version: u32,
    pub driver_version: u32,
    pub vendor_id: u32,
    pub device_id: u32,
    pub device_type: VkPhysicalDeviceType,
    pub limits: VkPhysicalDeviceLimits,
    pub sparse_properties: VkPhysicalDeviceSparseProperties,
}

/// The name of the virtual physical device.
pub fn virtual_device_name() -> (name: &'static str)
    ensures
        name@ == "Kronos Virtual Compute Device"@,
{
    proof {
        reveal_strlit("Kronos Virtual Compute Device");
    }
    "Kronos Virtual Compute Device"
}

/// The properties of the virtual physical device: a virtual GPU of Vulkan 1.3 with
/// driver version 0.2.3, vendor 0x1337 and device 1, 48 KiB of shared memory,
/// 65536 workgroups per dimension, 1024 invocations per workgroup of at most
/// 1024 x 1024 x 64, and no sparse residency.
pub fn virtual_device_properties() -> (p: VirtualDeviceProperties)
    ensures
        p.api_version == VK_API_VERSION_1_3,
        p.driver_version == crate::sys::spec_make_version(0, 2, 3),
        p.vendor_id == 0x1337,
        p.device_id == 1,
        p.device_type == VkPhysicalDeviceType::VirtualGpu,
        p.limits.maxComputeSharedMemorySize == 49152,
        p.limits.maxComputeWorkGroupCount@ == seq![65536u32, 65536u32, 65536u32],
        p.limits.maxComputeWorkGroupInvocations == 1024,
        p.limits.maxComputeWorkGroupSize@ == seq![1024u32, 1024u32, 64u32],
        p.sparse_properties.residencyStandard2DBlockShape == VK_FALSE,
        p.sparse_properties.residencyStandard2DMultisampleBlockShape == VK_FALSE,
        p.sparse_properties.residencyStandard3DBlockShape == VK_FALSE,
        p.sparse_properties.residencyAlignedMipSize == VK_FALSE,
        p.sparse_properties.residencyNonResidentStrict == VK_FALSE,
{
    let p = VirtualDeviceProperties {
        api_version: VK_API_VERSION_1_3,
        driver_version: crate::sys::VK_MAKE_VERSION(0, 2, 3),
        vendor_id: 0x1337,
        device_id: 1,
        device_type: VkPhysicalDeviceType::VirtualGpu,
        limits: VkPhysicalDeviceLimits {
            maxComputeSharedMemorySize: 49152,
            maxComputeWorkGroupCount: [65536, 65536, 65536],
            maxComputeWorkGroupInvocations: 1024,
            maxComputeWorkGroupSize: [1024, 1024, 64],
        },
        sparse_properties: VkPhysicalDeviceSparseProperties {
            residencyStandard2DBlockShape: VK_FALSE,
            residencyStandard2DMultisampleBlockShape: VK_FALSE,
            residencyStandard3DBlockShape: VK_FALSE,
            residencyAlignedMipSize: VK_FALSE,
            residencyNonResidentStrict: VK_FALSE,
        },
    };
    assert(p.limits.maxComputeWorkGroupCount@ =~= seq![65536u32, 65536u32, 65536u32]);
    assert(p.limits.maxComputeWorkGroupSize@ =~= seq![1024u32, 1024u32, 64u32]);
    p
}

/// The queue families of the virtual physical device, answered as the count-then-fill
/// query does: for no array (`capacity` is `None`) the count 1; for an empty array
/// nothing; otherwise the one family, with compute and transfer support, one queue,
/// 64 timestamp bits and a unit transfer granularity, and the count 1.
pub fn virtual_queue_families(capacity: Option<u32>) -> (r: (Option<u32>, Option<VkQueueFamilyProperties>))
    ensures
        capacity is None ==> r.0 == Some(1u32) && r.1 is None,
        capacity == Some(0u32) ==> r.0 is None && r.1 is None,
        (capacity matches Some(n) && n > 0) ==> {
            &&& r.0 == Some(1u32)
            &&& r.1 matches Some(f) && {
                &&& f.queueFlags@ == 0x6
                &&& f.queueCount == 1
                &&& f.timestampValidBits == 64
                &&& f.minImageTransferGranularity == VkExtent3D { width: 1, height: 1, depth: 1 }
            }
        },
{
    match capacity {
        None => (Some(1), None),
        Some(n) => {
            if n == 0 {
                (None, None)
            } else {
                let family = VkQueueFamilyProperties {
                    queueFlags: VkQueueFlags::COMPUTE().union(VkQueueFlags::TRANSFER()),
                    queueCount: 1,
                    timestampValidBits: 64,
                    minImageTransferGranularity: VkExtent3D { width: 1, height: 1, depth: 1 },
                };
                assert(0x2u32 | 0x4u32 == 0x6u32) by (bit_vector);
                (Some(1), Some(family))
            }
        },
    }
}

/// The memory of the virtual physical device: one memory type, host visible and
/// coherent, in one heap of 16 GiB.
pub fn virtual_memory_properties() -> (p: VkPhysicalDeviceMemoryProperties)
    ensures
        p.memoryTypeCount == 1,
        p.memoryTypes@[0].propertyFlags@ == 0x6,
        p.memoryTypes@[0].heapIndex == 0,
        p.memoryHeapCount == 1,
        p.memoryHeaps@[0].size == 0x4_0000_0000,
        p.memoryHeaps@[0].flags == 0,
{
    let unused_type = VkMemoryType { propertyFlags: VkMemoryPropertyFlags::empty(), heapIndex: 0 };
    let unused_heap = VkMemoryHeap { size: 0, flags: 0 };
    let mut types = [unused_type; 32];
    let mut heaps = [unused_heap; 16];
    types.set(
        0,
        VkMemoryType {
            propertyFlags: VkMemoryPropertyFlags::HOST_VISIBLE().union(VkMemoryPropertyFlags::HOST_COHERENT()),
            heapIndex: 0,
        },
    );
    heaps.set(0, VkMemoryHeap { size: 0x4_0000_0000, flags: 0 });
    assert(0x2u32 | 0x4u32 == 0x6u32) by (bit_vector);
    VkPhysicalDeviceMemoryProperties { memoryTypeCount: 1, memoryTypes: types, memoryHeapCount: 1, memoryHeaps: heaps }
}

/// The families of objects of the virtual device: each is a registry with the
/// counter that names its objects (command pools and command buffers go together).
#[derive(Debug, Clone, Copy, PartialEq, Eq, Structural)]
pub enum Registry {
    Instances,
    Devices,
    Memory,
    Fences,
    Semaphores,
    Events,
    Shaders,
    Commands,
    SetLayouts,
    DescriptorPools,
    PipelineLayouts,
    Pipelines,
}

/// The registries of the virtual device.
pub struct VirtualDevice {
    next_instance: u64,
    next_device: u64,
    next_memory: u64,
    next_fence: u64,
    next_semaphore: u64,
    next_event: u64,
    next_shader: u64,
    next_command_pool: u64,
    next_command_buffer: u64,
    next_set_layout: u64,
    next_descriptor_pool: u64,
    next_pipeline_layout: u64,
    next_pipeline: u64,
    instances: HashMap<u64, u32>,
    devices: HashMap<u64, DeviceRecord>,
    memory: HashMap<u64, MemoryRecord>,
    fences: HashMap<u64, bool>,
    semaphores: HashMap<u64, bool>,
    events: HashMap<u64, bool>,
    shaders: HashMap<u64, VkDevice>,
    command_pools: HashMap<u64, Vec<u64>>,
    command_buffers: HashMap<u64, (VkCommandPool, CommandBufferState)>,
    set_layouts: HashMap<u64, u32>,
    descriptor_pools: HashMap<u64, u32>,
    pipeline_layouts: HashMap<u64, Vec<u64>>,
    pipelines: HashMap<u64, (VkPipelineLayout, VkShaderModule)>,
}

impl VirtualDevice {
    pub closed spec fn spec_next_instance(self) -> u64 {
        self.next_instance
    }

    pub closed spec fn spec_next_device(self) -> u64 {
        self.next_device
    }

    pub closed spec fn spec_next_memory(self) -> u64 {
        self.next_memory
    }

    pub closed spec fn spec_next_fence(self) -> u64 {
        self.next_fence
    }

    pub closed spec fn spec_next_event(self) -> u64 {
        self.next_event
    }

    pub closed spec fn spec_next_semaphore(self) -> u64 {
        self.next_semaphore
    }

    pub closed spec fn spec_next_shader(self) -> u64 {
        self.next_shader
    }

    pub closed spec fn spec_next_command_pool(self) -> u64 {
        self.next_command_pool
    }

    pub closed spec fn spec_next_command_buffer(self) -> u64 {
        self.next_command_buffer
    }

    /// The API version each live instance was created for.
    pub closed spec fn spec_instances(self) -> Map<u64, u32> {
        self.instances@
    }

    pub closed spec fn spec_devices(self) -> Map<u64, DeviceRecord> {
        self.devices@
    }

    pub closed spec fn spec_memory(self) -> Map<u64, MemoryRecord> {
        self.memory@
    }

    /// Whether each live fence is signalled.
    pub closed spec fn spec_fences(self) -> Map<u64, bool> {
        self.fences@
    }

    pub closed spec fn spec_semaphores(self) -> Map<u64, bool> {
        self.semaphores@
    }

    /// Whether each live event is set.
    pub closed spec fn spec_events(self) -> Map<u64, bool> {
        self.events@
    }

    pub closed spec fn spec_shaders(self) -> Map<u64, VkDevice> {
        self.shaders@
    }

    /// The command buffers allocated from each live command pool.
    pub closed spec fn spec_command_pools(self) -> Map<u64, Seq<u64>> {
        self.command_pools@.map_values(|v: Vec<u64>| v@)
    }

    /// The pool and state of each live command buffer.
    pub closed spec fn spec_command_buffers(self) -> Map<u64, (VkCommandPool, CommandBufferState)> {
        self.command_buffers@
    }

    pub closed spec fn spec_next_set_layout(self) -> u64 {
        self.next_set_layout
    }

    pub closed spec fn spec_next_descriptor_pool(self) -> u64 {
        self.next_descriptor_pool
    }

    pub closed spec fn spec_next_pipeline_layout(self) -> u64 {
        self.next_pipeline_layout
    }

    pub closed spec fn spec_next_pipeline(self) -> u64 {
        self.next_pipeline
    }

    /// The number of bindings of each live descriptor set layout.
    pub closed spec fn spec_set_layouts(self) -> Map<u64, u32> {
        self.set_layouts@
    }

    /// The most sets each live descriptor pool was made for.
    pub closed spec fn spec_descriptor_pools(self) -> Map<u64, u32> {
        self.descriptor_pools@
    }

    /// The descriptor set layouts (raw handles) of each live pipeline layout.
    pub closed spec fn spec_pipeline_layouts(self) -> Map<u64, Seq<u64>> {
        self.pipeline_layouts@.map_values(|v: Vec<u64>| v@)
    }

    /// The layout and shader module of each compute pipeline.
    pub closed spec fn spec_pipelines(self) -> Map<u64, (VkPipelineLayout, VkShaderModule)> {
        self.pipelines@
    }

    /// What a status query of `fence` answers: `Success` for a signalled fence,
    /// `NotReady` for an unsignalled one, `ErrorDeviceLost` for a null or unknown one.
    pub open spec fn spec_fence_status(self, device: VkDevice, fence: VkFence) -> VkResult {
        let k = fence.raw_value();
        if device.raw_value() == 0 || k == 0 || !self.spec_fences().contains_key(k) {
            VkResult::ErrorDeviceLost
        } else if self.spec_fences()[k] {
            VkResult::Success
        } else {
            VkResult::NotReady
        }
    }

    /// What a status query of `event` answers: `EventSet`, `EventReset`, or
    /// `ErrorDeviceLost` for a null or unknown event.
    pub open spec fn spec_event_status(self, device: VkDevice, event: VkEvent) -> VkResult {
        let k = event.raw_value();
        if device.raw_value() == 0 || k == 0 || !self.spec_events().contains_key(k) {
            VkResult::ErrorDeviceLost
        } else if self.spec_events()[k] {
            VkResult::EventSet
        } else {
            VkResult::EventReset
        }
    }

    /// Every family of objects but `part` is the same in `self` as in `other`.
    pub open spec fn same_except(self, other: Self, part: Registry) -> bool {
        &&& part != Registry::Instances ==> self.spec_instances() == other.spec_instances()
            && self.spec_next_instance() == other.spec_next_instance()
        &&& part != Registry::Devices ==> self.spec_devices() == other.spec_devices() && self.spec_next_device()
            == other.spec_next_device()
        &&& part != Registry::Memory ==> self.spec_memory() == other.spec_memory() && self.spec_next_memory()
            == other.spec_next_memory()
        &&& part != Registry::Fences ==> self.spec_fences() == other.spec_fences() && self.spec_next_fence()
            == other.spec_next_fence()
        &&& part != Registry::Semaphores ==> self.spec_semaphores() == other.spec_semaphores()
            && self.spec_next_semaphore() == other.spec_next_semaphore()
        &&& part != Registry::Events ==> self.spec_events() == other.spec_events() && self.spec_next_event()
            == other.spec_next_event()
        &&& part != Registry::Shaders ==> self.spec_shaders() == other.spec_shaders() && self.spec_next_shader()
            == other.spec_next_shader()
        &&& part != Registry::Commands ==> self.spec_command_pools() == other.spec_command_pools()
            && self.spec_command_buffers() == other.spec_command_buffers() && self.spec_next_command_pool()
            == other.spec_next_command_pool() && self.spec_next_command_buffer() == other.spec_next_command_buffer()
        &&& part != Registry::SetLayouts ==> self.spec_set_layouts() == other.spec_set_layouts()
            && self.spec_next_set_layout() == other.spec_next_set_layout()
        &&& part != Registry::DescriptorPools ==> self.spec_descriptor_pools() == other.spec_descriptor_pools()
            && self.spec_next_descriptor_pool() == other.spec_next_descriptor_pool()
        &&& part != Registry::PipelineLayouts ==> self.spec_pipeline_layouts() == other.spec_pipeline_layouts()
            && self.spec_next_pipeline_layout() == other.spec_next_pipeline_layout()
        &&& part != Registry::Pipelines ==> self.spec_pipelines() == other.spec_pipelines()
            && self.spec_next_pipeline() == other.spec_next_pipeline()
    }

    /// No objects; every counter at 1.
    pub fn new() -> (d: Self)
        ensures
            d.spec_next_instance() == 1,
            d.spec_next_device() == 1,
            d.spec_next_memory() == 1,
            d.spec_next_fence() == 1,
            d.spec_next_semaphore() == 1,
            d.spec_next_event() == 1,
            d.spec_next_shader() == 1,
            d.spec_next_command_pool() == 1,
            d.spec_next_command_buffer() == 1,
            d.spec_next_set_layout() == 1,
            d.spec_next_descriptor_pool() == 1,
            d.spec_next_pipeline_layout() == 1,
            d.spec_next_pipeline() == 1,
            d.spec_set_layouts() == Map::<u64, u32>::empty(),
            d.spec_descriptor_pools() == Map::<u64, u32>::empty(),
            d.spec_pipeline_layouts() == Map::<u64, Seq<u64>>::empty(),
            d.spec_pipelines() == Map::<u64, (VkPipelineLayout, VkShaderModule)>::empty(),
            d.spec_instances() == Map::<u64, u32>::empty(),
            d.spec_devices() == Map::<u64, DeviceRecord>::empty(),
            d.spec_memory() == Map::<u64, MemoryRecord>::empty(),
            d.spec_fences() == Map::<u64, bool>::empty(),
            d.spec_semaphores() == Map::<u64, bool>::empty(),
            d.spec_events() == Map::<u64, bool>::empty(),
            d.spec_shaders() == Map::<u64, VkDevice>::empty(),
            d.spec_command_pools() == Map::<u64, Seq<u64>>::empty(),
            d.spec_command_buffers() == Map::<u64, (VkCommandPool, CommandBufferState)>::empty(),
    {
        let d = VirtualDevice {
            next_instance: 1,
            next_device: 1,
            next_memory: 1,
            next_fence: 1,
            next_semaphore: 1,
            next_event: 1,
            next_shader: 1,
            next_command_pool: 1,
            next_command_buffer: 1,
            next_set_layout: 1,
            next_descriptor_pool: 1,
            next_pipeline_layout: 1,
            next_pipeline: 1,
            instances: HashMap::new(),
            devices: HashMap::new(),
            memory: HashMap::new(),
            fences: HashMap::new(),
            semaphores: HashMap::new(),
            events: HashMap::new(),
            shaders: HashMap::new(),
            command_pools: HashMap::new(),
            command_buffers: HashMap::new(),
            set_layouts: HashMap::new(),
            descriptor_pools: HashMap::new(),
            pipeline_layouts: HashMap::new(),
            pipelines: HashMap::new(),
        };
        proof {
            assert(d.spec_command_pools() =~= Map::<u64, Seq<u64>>::empty());
            assert(d.spec_pipeline_layouts() =~= Map::<u64, Seq<u64>>::empty());
        }
        d
    }

    /// Creates an instance for `api_version` (1.0 when the application gives none).
    /// Versions above 1.3 are refused as an incompatible driver.
    pub fn create_instance(&mut self, api_version: Option<u32>) -> (r: Result<VkInstance, VkResult>)
        ensures
            final(self).same_except(*old(self), Registry::Instances),
            ({
                let v = match api_version {
                    Some(v) => v,
                    None => VK_API_VERSION_1_0,
                };
                if v > VK_API_VERSION_1_3 {
                    &&& r == Err::<VkInstance, VkResult>(VkResult::ErrorIncompatibleDriver)
                    &&& final(self).spec_instances() == old(self).spec_instances()
                    &&& final(self).spec_next_instance() == old(self).spec_next_instance()
                } else {
                    &&& r matches Ok(h) && h.raw_value() == old(self).spec_next_instance()
                    &&& final(self).spec_instances() == old(self).spec_instances().insert(
                        old(self).spec_next_instance(),
                        v,
                    )
                    &&& final(self).spec_next_instance() == old(self).spec_next_instance().wrapping_add(1)
                }
            }),
    {
        let v = match api_version {
            Some(v) => v,
            None => VK_API_VERSION_1_0,
        };
        if v > VK_API_VERSION_1_3 {
            return Err(VkResult::ErrorIncompatibleDriver);
        }
        let handle = self.next_instance;
        self.next_instance = handle.wrapping_add(1);
        self.instances.insert(handle, v);
        Ok(VkInstance::from_raw(handle))
    }

    /// Forgets an instance (a null handle is ignored).
    pub fn destroy_instance(&mut self, instance: VkInstance)
        ensures
            final(self).same_except(*old(self), Registry::Instances),
            instance.raw_value() == 0 ==> final(self).spec_instances() == old(self).spec_instances(),
            instance.raw_value() != 0 ==> final(self).spec_instances() == old(self).spec_instances().remove(
                instance.raw_value(),
            ),
            final(self).spec_next_instance() == old(self).spec_next_instance(),
    {
        if instance.is_null() {
            return;
        }
        self.instances.remove(&instance.as_raw());
    }

    /// Lists the one virtual physical device of `instance`. `capacity` is the size of
    /// the caller's array, `None` when only the count is asked for.
    pub fn enumerate_physical_devices(&self, instance: VkInstance, capacity: Option<u32>) -> (r: Enumeration)
        ensures
            instance.raw_value() == 0 ==> (r.result == VkResult::ErrorInitializationFailed && r.count is None
                && r.device is None),
            instance.raw_value() != 0 && !self.spec_instances().contains_key(instance.raw_value()) ==> (
            r.result == VkResult::ErrorDeviceLost && r.count is None && r.device is None),
            instance.raw_value() != 0 && self.spec_instances().contains_key(instance.raw_value()) ==> match capacity {
                None => r.result == VkResult::Success && r.count == Some(1u32) && r.device is None,
                Some(0) => r.result == VkResult::Incomplete && r.count is None && r.device is None,
                Some(_) => r.result == VkResult::Success && r.count == Some(1u32) && (r.device matches Some(
                    d,
                ) && d.raw_value() == VIRTUAL_PHYSICAL_DEVICE),
            },
    {
        if instance.is_null() {
            return Enumeration { result: VkResult::ErrorInitializationFailed, count: None, device: None };
        }
        if !self.instances.contains_key(&instance.as_raw()) {
            return Enumeration { result: VkResult::ErrorDeviceLost, count: None, device: None };
        }
        match capacity {
            None => Enumeration { result: VkResult::Success, count: Some(1), device: None },
            Some(n) => {
                if n == 0 {
                    Enumeration { result: VkResult::Incomplete, count: None, device: None }
                } else {
                    Enumeration {
                        result: VkResult::Success,
                        count: Some(1),
                        device: Some(VkPhysicalDevice::from_raw(VIRTUAL_PHYSICAL_DEVICE)),
                    }
                }
            },
        }
    }

    /// Creates a logical device with one queue of `queue_family_index` (`None` when
    /// no queue was asked for, which is refused). The device and its queue take the
    /// next two values of the device counter.
    pub fn create_device(&mut self, physical_device: VkPhysicalDevice, queue_family_index: Option<u32>) -> (r: Result<
        VkDevice,
        VkResult,
    >)
        ensures
            final(self).same_except(*old(self), Registry::Devices),
            (physical_device.raw_value() == 0 || queue_family_index is None) ==> {
                &&& r == Err::<VkDevice, VkResult>(VkResult::ErrorInitializationFailed)
                &&& final(self).spec_devices() == old(self).spec_devices()
                &&& final(self).spec_next_device() == old(self).spec_next_device()
            },
            !(physical_device.raw_value() == 0 || queue_family_index is None) ==> {
                let h = old(self).spec_next_device();
                let q = h.wrapping_add(1);
                let rec = final(self).spec_devices()[h];
                &&& r matches Ok(d) && d.raw_value() == h
                &&& final(self).spec_devices() == old(self).spec_devices().insert(h, rec)
                &&& rec.physical_device == physical_device
                &&& rec.queue_family_index == queue_family_index->0
                &&& rec.queue.raw_value() == q
                &&& final(self).spec_next_device() == q.wrapping_add(1)
            },
    {
        if physical_device.is_null() {
            return Err(VkResult::ErrorInitializationFailed);
        }
        let family = match queue_family_index {
            Some(f) => f,
            None => return Err(VkResult::ErrorInitializationFailed),
        };
        let handle = self.next_device;
        let queue = handle.wrapping_add(1);
        self.next_device = queue.wrapping_add(1);
        let rec = DeviceRecord { physical_device, queue_family_index: family, queue: VkQueue::from_raw(queue) };
        self.devices.insert(handle, rec);
        Ok(VkDevice::from_raw(handle))
    }

    /// The queue of `device`, when asked for its queue family and index 0.
    pub fn get_device_queue(&self, device: VkDevice, queue_family_index: u32, queue_index: u32) -> (r: Option<VkQueue>)
        ensures
            ({
                let k = device.raw_value();
                if k != 0 && queue_index == 0 && self.spec_devices().contains_key(k)
                    && self.spec_devices()[k].queue_family_index == queue_family_index {
                    r == Some(self.spec_devices()[k].queue)
                } else {
                    r is None
                }
            }),
    {
        if device.is_null() || queue_index != 0 {
            return None;
        }
        match self.devices.get(&device.as_raw()) {
            Some(rec) => {
                if rec.queue_family_index == queue_family_index {
                    Some(rec.queue)
                } else {
                    None
                }
            },
            None => None,
        }
    }

    /// Forgets a device (a null handle is ignored).
    pub fn destroy_device(&mut self, device: VkDevice)
        ensures
            final(self).same_except(*old(self), Registry::Devices),
            device.raw_value() == 0 ==> final(self).spec_devices() == old(self).spec_devices(),
            device.raw_value() != 0 ==> final(self).spec_devices() == old(self).spec_devices().remove(
                device.raw_value(),
            ),
    {
        if device.is_null() {
            return;
        }
        self.devices.remove(&device.as_raw());
    }

    /// Allocates `size` bytes of memory of type `memory_type_index`; an empty
    /// allocation is refused.
    pub fn allocate_memory(&mut self, device: VkDevice, size: u64, memory_type_index: u32) -> (r: Result<
        VkDeviceMemory,
        VkResult,
    >)
        ensures
            final(self).same_except(*old(self), Registry::Memory),
            (device.raw_value() == 0 || size == 0) ==> {
                &&& r == Err::<VkDeviceMemory, VkResult>(VkResult::ErrorInitializationFailed)
                &&& final(self).spec_memory() == old(self).spec_memory()
                &&& final(self).spec_next_memory() == old(self).spec_next_memory()
            },
            !(device.raw_value() == 0 || size == 0) ==> {
                let h = old(self).spec_next_memory();
                let rec = final(self).spec_memory()[h];
                &&& r matches Ok(m) && m.raw_value() == h
                &&& final(self).spec_memory() == old(self).spec_memory().insert(h, rec)
                &&& rec.device == device
                &&& rec.size == size
                &&& rec.memory_type_index == memory_type_index
                &&& !rec.mapped
                &&& final(self).spec_next_memory() == h.wrapping_add(1)
            },
    {
        if device.is_null() || size == 0 {
            return Err(VkResult::ErrorInitializationFailed);
        }
        let handle = self.next_memory;
        self.next_memory = handle.wrapping_add(1);
        self.memory.insert(handle, MemoryRecord { device, size, memory_type_index, mapped: false });
        Ok(VkDeviceMemory::from_raw(handle))
    }

    /// Frees memory (null handles are ignored).
    pub fn free_memory(&mut self, device: VkDevice, memory: VkDeviceMemory)
        ensures
            final(self).same_except(*old(self), Registry::Memory),
            (device.raw_value() == 0 || memory.raw_value() == 0) ==> final(self).spec_memory() == old(
                self,
            ).spec_memory(),
            !(device.raw_value() == 0 || memory.raw_value() == 0) ==> final(self).spec_memory() == old(
                self,
            ).spec_memory().remove(memory.raw_value()),
    {
        if device.is_null() || memory.is_null() {
            return;
        }
        self.memory.remove(&memory.as_raw());
    }

    /// The size of an allocation, if it is live.
    pub fn memory_size(&self, memory: VkDeviceMemory) -> (r: Option<u64>)
        ensures
            r == (if self.spec_memory().contains_key(memory.raw_value()) {
                Some(self.spec_memory()[memory.raw_value()].size)
            } else {
                None
            }),
    {
        match self.memory.get(&memory.as_raw()) {
            Some(m) => Some(m.size),
            None => None,
        }
    }

    /// Maps `size` bytes of `memory` from `offset` (to its end for `VK_WHOLE_SIZE`) and
    /// returns the length mapped; refused when the range leaves the allocation.
    pub fn map_memory(&mut self, device: VkDevice, memory: VkDeviceMemory, offset: u64, size: u64) -> (r: Result<
        u64,
        VkResult,
    >)
        ensures
            final(self).same_except(*old(self), Registry::Memory),
            ({
                let k = memory.raw_value();
                let mem = old(self).spec_memory();
                if device.raw_value() == 0 || k == 0 {
                    r == Err::<u64, VkResult>(VkResult::ErrorInitializationFailed) && final(self).spec_memory()
                        == mem
                } else if !mem.contains_key(k) {
                    r == Err::<u64, VkResult>(VkResult::ErrorMemoryMapFailed) && final(self).spec_memory() == mem
                } else {
                    let total = mem[k].size;
                    let fits = if size == VK_WHOLE_SIZE {
                        offset <= total
                    } else {
                        offset + size <= total
                    };
                    if !fits {
                        r == Err::<u64, VkResult>(VkResult::ErrorMemoryMapFailed) && final(self).spec_memory()
                            == mem
                    } else {
                        let len = if size == VK_WHOLE_SIZE {
                            (total - offset) as u64
                        } else {
                            size
                        };
                        r == Ok::<u64, VkResult>(len) && final(self).spec_memory() == mem.insert(
                            k,
                            MemoryRecord { mapped: true, ..mem[k] },
                        )
                    }
                }
            }),
    {
        if device.is_null() || memory.is_null() {
            return Err(VkResult::ErrorInitializationFailed);
        }
        let k = memory.as_raw();
        let rec = match self.memory.get(&k) {
            Some(m) => *m,
            None => return Err(VkResult::ErrorMemoryMapFailed),
        };
        if offset > rec.size {
            return Err(VkResult::ErrorMemoryMapFailed);
        }
        let len = if size == VK_WHOLE_SIZE {
            rec.size - offset
        } else {
            size
        };
        if len > rec.size - offset {
            return Err(VkResult::ErrorMemoryMapFailed);
        }
        self.memory.insert(k, MemoryRecord { mapped: true, ..rec });
        Ok(len)
    }

    /// Creates a fence, signalled when `signaled` (its create flags hold SIGNALED).
    pub fn create_fence(&mut self, device: VkDevice, signaled: bool) -> (r: Result<VkFence, VkResult>)
        ensures
            final(self).same_except(*old(self), Registry::Fences),
            device.raw_value() == 0 ==> r == Err::<VkFence, VkResult>(VkResult::ErrorInitializationFailed)
                && final(self).spec_fences() == old(self).spec_fences() && final(self).spec_next_fence() == old(
                self,
            ).spec_next_fence(),
            device.raw_value() != 0 ==> {
                let h = old(self).spec_next_fence();
                &&& r matches Ok(f) && f.raw_value() == h
                &&& final(self).spec_fences() == old(self).spec_fences().insert(h, signaled)
                &&& final(self).spec_next_fence() == h.wrapping_add(1)
            },
    {
        if device.is_null() {
            return Err(VkResult::ErrorInitializationFailed);
        }
        let handle = self.next_fence;
        self.next_fence = handle.wrapping_add(1);
        self.fences.insert(handle, signaled);
        Ok(VkFence::from_raw(handle))
    }

    /// Forgets a fence (null handles are ignored).
    pub fn destroy_fence(&mut self, device: VkDevice, fence: VkFence)
        ensures
            final(self).same_except(*old(self), Registry::Fences),
            (device.raw_value() == 0 || fence.raw_value() == 0) ==> final(self).spec_fences() == old(
                self,
            ).spec_fences(),
            !(device.raw_value() == 0 || fence.raw_value() == 0) ==> final(self).spec_fences() == old(
                self,
            ).spec_fences().remove(fence.raw_value()),
    {
        if device.is_null() || fence.is_null() {
            return;
        }
        self.fences.remove(&fence.as_raw());
    }

    /// Unsignals the live fences among `fences`; refused for an empty list.
    pub fn reset_fences(&mut self, device: VkDevice, fences: &Vec<VkFence>) -> (r: VkResult)
        ensures
            final(self).same_except(*old(self), Registry::Fences),
            (device.raw_value() == 0 || fences@.len() == 0) ==> r == VkResult::ErrorInitializationFailed
                && final(self).spec_fences() == old(self).spec_fences(),
            !(device.raw_value() == 0 || fences@.len() == 0) ==> {
                &&& r == VkResult::Success
                &&& final(self).spec_fences().dom() == old(self).spec_fences().dom()
                &&& forall|k: u64|
                    #[trigger] final(self).spec_fences().contains_key(k) ==> final(self).spec_fences()[k] == (
                    old(self).spec_fences()[k] && !fences@.map_values(|f: VkFence| f.raw_value()).contains(k))
            },
    {
        if device.is_null() || fences.len() == 0 {
            return VkResult::ErrorInitializationFailed;
        }
        let ghost start = self.fences@;
        let ghost raws = fences@.map_values(|f: VkFence| f.raw_value());
        let mut i: usize = 0;
        while i < fences.len()
            invariant
                self.same_except(*old(self), Registry::Fences),
                0 <= i <= fences@.len(),
                raws == fences@.map_values(|f: VkFence| f.raw_value()),
                self.fences@.dom() == start.dom(),
                forall|k: u64|
                    #[trigger] self.fences@.contains_key(k) ==> self.fences@[k] == (start[k]
                        && !raws.take(i as int).contains(k)),
            decreases fences@.len() - i,
        {
            let k = fences[i].as_raw();
            if self.fences.contains_key(&k) {
                self.fences.insert(k, false);
            }
            proof {
                assert(raws.take(i as int + 1) =~= raws.take(i as int).push(k));
                assert forall|j: u64| #[trigger] self.fences@.contains_key(j) implies self.fences@[j] == (start[j]
                    && !raws.take(i as int + 1).contains(j)) by {
                    vstd::seq_lib::lemma_seq_contains_after_push(raws.take(i as int), k, j);
                }
            }
            i = i + 1;
        }
        proof {
            assert(raws.take(fences@.len() as int) =~= raws);
        }
        VkResult::Success
    }

    /// Waiting completes at once; refused for an empty list.
    pub fn wait_for_fences(&self, device: VkDevice, fence_count: u32) -> (r: VkResult)
        ensures
            r == (if device.raw_value() == 0 || fence_count == 0 {
                VkResult::ErrorInitializationFailed
            } else {
                VkResult::Success
            }),
    {
        if device.is_null() || fence_count == 0 {
            VkResult::ErrorInitializationFailed
        } else {
            VkResult::Success
        }
    }

    /// `Success` for a signalled fence, `NotReady` for an unsignalled one, and
    /// `ErrorDeviceLost` for a null or unknown one.
    pub fn get_fence_status(&self, device: VkDevice, fence: VkFence) -> (r: VkResult)
        ensures
            r == self.spec_fence_status(device, fence),
    {
        if device.is_null() || fence.is_null() {
            return VkResult::ErrorDeviceLost;
        }
        match self.fences.get(&fence.as_raw()) {
            Some(s) => if *s {
                VkResult::Success
            } else {
                VkResult::NotReady
            },
            None => VkResult::ErrorDeviceLost,
        }
    }

    /// Creates a semaphore, unsignalled.
    pub fn create_semaphore(&mut self, device: VkDevice) -> (r: Result<VkSemaphore, VkResult>)
        ensures
            final(self).same_except(*old(self), Registry::Semaphores),
            device.raw_value() == 0 ==> r == Err::<VkSemaphore, VkResult>(VkResult::ErrorInitializationFailed)
                && final(self).spec_semaphores() == old(self).spec_semaphores() && final(self).spec_next_semaphore()
                == old(self).spec_next_semaphore(),
            device.raw_value() != 0 ==> {
                let h = old(self).spec_next_semaphore();
                &&& r matches Ok(x) && x.raw_value() == h
                &&& final(self).spec_semaphores() == old(self).spec_semaphores().insert(h, false)
                &&& final(self).spec_next_semaphore() == h.wrapping_add(1)
            },
    {
        if device.is_null() {
            return Err(VkResult::ErrorInitializationFailed);
        }
        let handle = self.next_semaphore;
        self.next_semaphore = handle.wrapping_add(1);
        self.semaphores.insert(handle, false);
        Ok(VkSemaphore::from_raw(handle))
    }

    /// Forgets a semaphore (null handles are ignored).
    pub fn destroy_semaphore(&mut self, device: VkDevice, semaphore: VkSemaphore)
        ensures
            final(self).same_except(*old(self), Registry::Semaphores),
            (device.raw_value() == 0 || semaphore.raw_value() == 0) ==> final(self).spec_semaphores() == old(
                self,
            ).spec_semaphores(),
            !(device.raw_value() == 0 || semaphore.raw_value() == 0) ==> final(self).spec_semaphores() == old(
                self,
            ).spec_semaphores().remove(semaphore.raw_value()),
    {
        if device.is_null() || semaphore.is_null() {
            return;
        }
        self.semaphores.remove(&semaphore.as_raw());
    }

    /// Creates an event, reset.
    pub fn create_event(&mut self, device: VkDevice) -> (r: Result<VkEvent, VkResult>)
        ensures
            final(self).same_except(*old(self), Registry::Events),
            device.raw_value() == 0 ==> r == Err::<VkEvent, VkResult>(VkResult::ErrorInitializationFailed)
                && final(self).spec_events() == old(self).spec_events() && final(self).spec_next_event() == old(
                self,
            ).spec_next_event(),
            device.raw_value() != 0 ==> {
                let h = old(self).spec_next_event();
                &&& r matches Ok(x) && x.raw_value() == h
                &&& final(self).spec_events() == old(self).spec_events().insert(h, false)
                &&& final(self).spec_next_event() == h.wrapping_add(1)
            },
    {
        if device.is_null() {
            return Err(VkResult::ErrorInitializationFailed);
        }
        let handle = self.next_event;
        self.next_event = handle.wrapping_add(1);
        self.events.insert(handle, false);
        Ok(VkEvent::from_raw(handle))
    }

    /// Forgets an event (null handles are ignored).
    pub fn destroy_event(&mut self, device: VkDevice, event: VkEvent)
        ensures
            final(self).same_except(*old(self), Registry::Events),
            (device.raw_value() == 0 || event.raw_value() == 0) ==> final(self).spec_events() == old(
                self,
            ).spec_events(),
            !(device.raw_value() == 0 || event.raw_value() == 0) ==> final(self).spec_events() == old(
                self,
            ).spec_events().remove(event.raw_value()),
    {
        if device.is_null() || event.is_null() {
            return;
        }
        self.events.remove(&event.as_raw());
    }

    /// `EventSet` or `EventReset` for a live event, `ErrorDeviceLost` otherwise.
    pub fn get_event_status(&self, device: VkDevice, event: VkEvent) -> (r: VkResult)
        ensures
            r == self.spec_event_status(device, event),
    {
        if device.is_null() || event.is_null() {
            return VkResult::ErrorDeviceLost;
        }
        match self.events.get(&event.as_raw()) {
            Some(s) => if *s {
                VkResult::EventSet
            } else {
                VkResult::EventReset
            },
            None => VkResult::ErrorDeviceLost,
        }
    }

    /// Sets (`set`) or resets a live event; `ErrorDeviceLost` for a null or unknown one.
    pub fn signal_event(&mut self, device: VkDevice, event: VkEvent, set: bool) -> (r: VkResult)
        ensures
            final(self).same_except(*old(self), Registry::Events),
            ({
                let k = event.raw_value();
                if device.raw_value() == 0 || k == 0 || !old(self).spec_events().contains_key(k) {
                    r == VkResult::ErrorDeviceLost && final(self).spec_events() == old(self).spec_events()
                } else {
                    r == VkResult::Success && final(self).spec_events() == old(self).spec_events().insert(k, set)
                }
            }),
    {
        if device.is_null() || event.is_null() {
            return VkResult::ErrorDeviceLost;
        }
        let k = event.as_raw();
        if !self.events.contains_key(&k) {
            return VkResult::ErrorDeviceLost;
        }
        self.events.insert(k, set);
        VkResult::Success
    }

    /// Work completes at once: submitting signals the fence, when it is live.
    pub fn queue_submit(&mut self, queue: VkQueue, fence: VkFence) -> (r: VkResult)
        ensures
            final(self).same_except(*old(self), Registry::Fences),
            queue.raw_value() == 0 ==> r == VkResult::ErrorInitializationFailed && final(self).spec_fences() == old(
                self,
            ).spec_fences(),
            queue.raw_value() != 0 ==> {
                &&& r == VkResult::Success
                &&& (fence.raw_value() != 0 && old(self).spec_fences().contains_key(fence.raw_value()))
                    ==> final(self).spec_fences() == old(self).spec_fences().insert(fence.raw_value(), true)
                &&& !(fence.raw_value() != 0 && old(self).spec_fences().contains_key(fence.raw_value()))
                    ==> final(self).spec_fences() == old(self).spec_fences()
            },
    {
        if queue.is_null() {
            return VkResult::ErrorInitializationFailed;
        }
        if !fence.is_null() {
            let k = fence.as_raw();
            if self.fences.contains_key(&k) {
                self.fences.insert(k, true);
            }
        }
        VkResult::Success
    }

    /// Creates a shader module from `code_size` bytes of SPIR-V, whose words are `words`.
    /// Refused unless the size is a positive multiple of 4 and the first word is the
    /// SPIR-V magic number.
    pub fn create_shader_module(&mut self, device: VkDevice, code_size: usize, words: &[u32]) -> (r: Result<
        VkShaderModule,
        VkResult,
    >)
        ensures
            final(self).same_except(*old(self), Registry::Shaders),
            ({
                let ok = device.raw_value() != 0 && code_size != 0 && code_size % 4 == 0 && words@.len() > 0
                    && words@[0] == SPIRV_MAGIC;
                &&& !ok ==> r == Err::<VkShaderModule, VkResult>(VkResult::ErrorInitializationFailed)
                    && final(self).spec_shaders() == old(self).spec_shaders() && final(self).spec_next_shader()
                    == old(self).spec_next_shader()
                &&& ok ==> {
                    let h = old(self).spec_next_shader();
                    &&& r matches Ok(m) && m.raw_value() == h
                    &&& final(self).spec_shaders() == old(self).spec_shaders().insert(h, device)
                    &&& final(self).spec_next_shader() == h.wrapping_add(1)
                }
            }),
    {
        if device.is_null() || code_size == 0 || code_size % 4 != 0 {
            return Err(VkResult::ErrorInitializationFailed);
        }
        if words.len() == 0 || words[0] != SPIRV_MAGIC {
            return Err(VkResult::ErrorInitializationFailed);
        }
        let handle = self.next_shader;
        self.next_shader = handle.wrapping_add(1);
        self.shaders.insert(handle, device);
        Ok(VkShaderModule::from_raw(handle))
    }

    /// Forgets a shader module (null handles are ignored).
    pub fn destroy_shader_module(&mut self, device: VkDevice, module: VkShaderModule)
        ensures
            final(self).same_except(*old(self), Registry::Shaders),
            (device.raw_value() == 0 || module.raw_value() == 0) ==> final(self).spec_shaders() == old(
                self,
            ).spec_shaders(),
            !(device.raw_value() == 0 || module.raw_value() == 0) ==> final(self).spec_shaders() == old(
                self,
            ).spec_shaders().remove(module.raw_value()),
    {
        if device.is_null() || module.is_null() {
            return;
        }
        self.shaders.remove(&module.as_raw());
    }

    /// Creates a command pool with no command buffers.
    pub fn create_command_pool(&mut self, device: VkDevice) -> (r: Result<VkCommandPool, VkResult>)
        ensures
            final(self).same_except(*old(self), Registry::Commands),
            device.raw_value() == 0 ==> r == Err::<VkCommandPool, VkResult>(VkResult::ErrorInitializationFailed)
                && final(self).spec_command_pools() == old(self).spec_command_pools()
                && final(self).spec_next_command_pool() == old(self).spec_next_command_pool(),
            device.raw_value() != 0 ==> {
                let h = old(self).spec_next_command_pool();
                &&& r matches Ok(p) && p.raw_value() == h
                &&& final(self).spec_command_pools() == old(self).spec_command_pools().insert(h, Seq::empty())
                &&& final(self).spec_next_command_pool() == h.wrapping_add(1)
            },
            final(self).spec_command_buffers() == old(self).spec_command_buffers(),
    {
        if device.is_null() {
            return Err(VkResult::ErrorInitializationFailed);
        }
        let handle = self.next_command_pool;
        self.next_command_pool = handle.wrapping_add(1);
        self.command_pools.insert(handle, Vec::new());
        proof {
            assert(self.spec_command_pools() =~= old(self).spec_command_pools().insert(handle, Seq::empty()));
        }
        Ok(VkCommandPool::from_raw(handle))
    }

    /// Allocates `count` command buffers from `pool`, in their initial state; refused
    /// for an unknown pool.
    pub fn allocate_command_buffers(&mut self, device: VkDevice, pool: VkCommandPool, count: u32) -> (r: Result<
        Vec<VkCommandBuffer>,
        VkResult,
    >)
        ensures
            final(self).same_except(*old(self), Registry::Commands),
            device.raw_value() == 0 ==> r == Err::<Vec<VkCommandBuffer>, VkResult>(VkResult::ErrorInitializationFailed),
            device.raw_value() != 0 && !old(self).spec_command_pools().contains_key(pool.raw_value()) ==> r == Err::<
                Vec<VkCommandBuffer>,
                VkResult,
            >(VkResult::ErrorDeviceLost),
            r is Err ==> final(self).spec_command_pools() == old(self).spec_command_pools()
                && final(self).spec_command_buffers() == old(self).spec_command_buffers()
                && final(self).spec_next_command_buffer() == old(self).spec_next_command_buffer(),
            device.raw_value() != 0 && old(self).spec_command_pools().contains_key(pool.raw_value()) ==> r is Ok,
            r matches Ok(v) ==> {
                let first = old(self).spec_next_command_buffer();
                &&& v@.len() == count
                &&& forall|i: int| 0 <= i < v@.len() ==> (#[trigger] v@[i]).raw_value() == nth_handle(first, i as nat)
                &&& final(self).spec_next_command_buffer() == nth_handle(first, count as nat)
                &&& final(self).spec_command_pools() == old(self).spec_command_pools().insert(
                    pool.raw_value(),
                    old(self).spec_command_pools()[pool.raw_value()] + v@.map_values(|b: VkCommandBuffer| b.raw_value()),
                )
                &&& final(self).spec_command_buffers() == command_buffers_after(
                    old(self).spec_command_buffers(),
                    first,
                    count as nat,
                    pool,
                )
                &&& forall|i: int|
                    0 <= i < v@.len() ==> final(self).spec_command_buffers()[(#[trigger] v@[i]).raw_value()] == (
                    pool,
                    CommandBufferState::Initial,
                )
            },
    {
        if device.is_null() {
            return Err(VkResult::ErrorInitializationFailed);
        }
        let pk = pool.as_raw();
        let mut list = match self.command_pools.remove(&pk) {
            Some(l) => l,
            None => return Err(VkResult::ErrorDeviceLost),
        };
        let ghost start_list = list@;
        let ghost first = self.next_command_buffer;
        let mut out: Vec<VkCommandBuffer> = Vec::new();
        let mut i: u32 = 0;
        while i < count
            invariant
                self.same_except(*old(self), Registry::Commands),
                0 <= i <= count,
                out@.len() == i,
                list@ == start_list + out@.map_values(|b: VkCommandBuffer| b.raw_value()),
                forall|j: int|
                    0 <= j < out@.len() ==> self.command_buffers@[(#[trigger] out@[j]).raw_value()] == (
                    pool,
                    CommandBufferState::Initial,
                ),
                self.command_pools@ == old(self).command_pools@.remove(pk),
                self.next_command_buffer == nth_handle(first, i as nat),
                forall|j: int| 0 <= j < out@.len() ==> (#[trigger] out@[j]).raw_value() == nth_handle(first, j as nat),
                self.command_buffers@ == command_buffers_after(old(self).command_buffers@, first, i as nat, pool),
            decreases count - i,
        {
            let handle = self.next_command_buffer;
            self.next_command_buffer = handle.wrapping_add(1);
            self.command_buffers.insert(handle, (pool, CommandBufferState::Initial));
            let cb = VkCommandBuffer::from_raw(handle);
            let ghost out_before = out@;
            out.push(cb);
            list.push(handle);
            proof {
                assert(out@.map_values(|b: VkCommandBuffer| b.raw_value()) =~= out_before.map_values(
                    |b: VkCommandBuffer| b.raw_value(),
                ).push(handle));
                assert forall|j: int| 0 <= j < out@.len() implies self.command_buffers@[(#[trigger] out@[j]).raw_value()]
                    == (pool, CommandBufferState::Initial) by {
                    if j < out_before.len() {
                        assert(out@[j] == out_before[j]);
                    }
                }
            }
            i = i + 1;
        }
        self.command_pools.insert(pk, list);
        proof {
            assert(self.spec_command_pools() =~= old(self).spec_command_pools().insert(
                pk,
                old(self).spec_command_pools()[pk] + out@.map_values(|b: VkCommandBuffer| b.raw_value()),
            ));
        }
        Ok(out)
    }

    /// Starts recording a live command buffer.
    pub fn begin_command_buffer(&mut self, command_buffer: VkCommandBuffer) -> (r: VkResult)
        ensures
            final(self).same_except(*old(self), Registry::Commands),
            ({
                let k = command_buffer.raw_value();
                let cbs = old(self).spec_command_buffers();
                if k == 0 {
                    r == VkResult::ErrorInitializationFailed && final(self).spec_command_buffers() == cbs
                } else if !cbs.contains_key(k) {
                    r == VkResult::ErrorDeviceLost && final(self).spec_command_buffers() == cbs
                } else {
                    r == VkResult::Success && final(self).spec_command_buffers() == cbs.insert(
                        k,
                        (cbs[k].0, CommandBufferState::Recording),
                    )
                }
            }),
    {
        if command_buffer.is_null() {
            return VkResult::ErrorInitializationFailed;
        }
        let k = command_buffer.as_raw();
        match self.command_buffers.get(&k) {
            Some(entry) => {
                let pool = entry.0;
                self.command_buffers.insert(k, (pool, CommandBufferState::Recording));
                VkResult::Success
            },
            None => VkResult::ErrorDeviceLost,
        }
    }

    /// Ends recording: a command buffer that is recording becomes executable; ending
    /// one that is not recording is an error.
    pub fn end_command_buffer(&mut self, command_buffer: VkCommandBuffer) -> (r: VkResult)
        ensures
            final(self).same_except(*old(self), Registry::Commands),
            ({
                let k = command_buffer.raw_value();
                let cbs = old(self).spec_command_buffers();
                if k == 0 {
                    r == VkResult::ErrorInitializationFailed && final(self).spec_command_buffers() == cbs
                } else if !cbs.contains_key(k) {
                    r == VkResult::ErrorDeviceLost && final(self).spec_command_buffers() == cbs
                } else if cbs[k].1 != CommandBufferState::Recording {
                    r == VkResult::ErrorUnknown && final(self).spec_command_buffers() == cbs
                } else {
                    r == VkResult::Success && final(self).spec_command_buffers() == cbs.insert(
                        k,
                        (cbs[k].0, CommandBufferState::Executable),
                    )
                }
            }),
    {
        if command_buffer.is_null() {
            return VkResult::ErrorInitializationFailed;
        }
        let k = command_buffer.as_raw();
        match self.command_buffers.get(&k) {
            Some(entry) => {
                let (pool, state) = *entry;
                if state != CommandBufferState::Recording {
                    return VkResult::ErrorUnknown;
                }
                self.command_buffers.insert(k, (pool, CommandBufferState::Executable));
                VkResult::Success
            },
            None => VkResult::ErrorDeviceLost,
        }
    }

    /// The state of a live command buffer.
    pub fn command_buffer_state(&self, command_buffer: VkCommandBuffer) -> (r: Option<CommandBufferState>)
        ensures
            r == (if self.spec_command_buffers().contains_key(command_buffer.raw_value()) {
                Some(self.spec_command_buffers()[command_buffer.raw_value()].1)
            } else {
                None
            }),
    {
        match self.command_buffers.get(&command_buffer.as_raw()) {
            Some(entry) => Some(entry.1),
            None => None,
        }
    }

    /// Unmaps memory (null or unknown handles are ignored).
    pub fn unmap_memory(&mut self, device: VkDevice, memory: VkDeviceMemory)
        ensures
            final(self).same_except(*old(self), Registry::Memory),
            ({
                let k = memory.raw_value();
                let mem = old(self).spec_memory();
                if device.raw_value() == 0 || k == 0 || !mem.contains_key(k) {
                    final(self).spec_memory() == mem
                } else {
                    final(self).spec_memory() == mem.insert(k, MemoryRecord { mapped: false, ..mem[k] })
                }
            }),
    {
        if device.is_null() || memory.is_null() {
            return;
        }
        let k = memory.as_raw();
        match self.memory.get(&k) {
            Some(m) => {
                let rec = *m;
                self.memory.insert(k, MemoryRecord { mapped: false, ..rec });
            },
            None => {},
        }
    }

    /// Waiting on a queue completes at once.
    pub fn queue_wait_idle(&self, queue: VkQueue) -> (r: VkResult)
        ensures
            r == (if queue.raw_value() == 0 {
                VkResult::ErrorInitializationFailed
            } else {
                VkResult::Success
            }),
    {
        if queue.is_null() {
            VkResult::ErrorInitializationFailed
        } else {
            VkResult::Success
        }
    }

    /// Waiting on a device completes at once.
    pub fn device_wait_idle(&self, device: VkDevice) -> (r: VkResult)
        ensures
            r == (if device.raw_value() == 0 {
                VkResult::ErrorInitializationFailed
            } else {
                VkResult::Success
            }),
    {
        if device.is_null() {
            VkResult::ErrorInitializationFailed
        } else {
            VkResult::Success
        }
    }

    /// Creates a descriptor set layout with `binding_count` bindings.
    pub fn create_descriptor_set_layout(&mut self, device: VkDevice, binding_count: u32) -> (r: Result<
        VkDescriptorSetLayout,
        VkResult,
    >)
        ensures
            final(self).same_except(*old(self), Registry::SetLayouts),
            device.raw_value() == 0 ==> r == Err::<VkDescriptorSetLayout, VkResult>(
                VkResult::ErrorInitializationFailed,
            ) && final(self).spec_set_layouts() == old(self).spec_set_layouts()
                && final(self).spec_next_set_layout() == old(self).spec_next_set_layout(),
            device.raw_value() != 0 ==> {
                let h = old(self).spec_next_set_layout();
                &&& r matches Ok(l) && l.raw_value() == h
                &&& final(self).spec_set_layouts() == old(self).spec_set_layouts().insert(h, binding_count)
                &&& final(self).spec_next_set_layout() == h.wrapping_add(1)
            },
    {
        if device.is_null() {
            return Err(VkResult::ErrorInitializationFailed);
        }
        let handle = self.next_set_layout;
        self.next_set_layout = handle.wrapping_add(1);
        self.set_layouts.insert(handle, binding_count);
        Ok(VkDescriptorSetLayout::from_raw(handle))
    }

    /// Forgets a descriptor set layout (null handles are ignored).
    pub fn destroy_descriptor_set_layout(&mut self, device: VkDevice, layout: VkDescriptorSetLayout)
        ensures
            final(self).same_except(*old(self), Registry::SetLayouts),
            (device.raw_value() == 0 || layout.raw_value() == 0) ==> final(self).spec_set_layouts() == old(
                self,
            ).spec_set_layouts(),
            !(device.raw_value() == 0 || layout.raw_value() == 0) ==> final(self).spec_set_layouts() == old(
                self,
            ).spec_set_layouts().remove(layout.raw_value()),
    {
        if device.is_null() || layout.is_null() {
            return;
        }
        self.set_layouts.remove(&layout.as_raw());
    }

    /// Creates a descriptor pool for at most `max_sets` sets.
    pub fn create_descriptor_pool(&mut self, device: VkDevice, max_sets: u32) -> (r: Result<
        VkDescriptorPool,
        VkResult,
    >)
        ensures
            final(self).same_except(*old(self), Registry::DescriptorPools),
            device.raw_value() == 0 ==> r == Err::<VkDescriptorPool, VkResult>(VkResult::ErrorInitializationFailed)
                && final(self).spec_descriptor_pools() == old(self).spec_descriptor_pools()
                && final(self).spec_next_descriptor_pool() == old(self).spec_next_descriptor_pool(),
            device.raw_value() != 0 ==> {
                let h = old(self).spec_next_descriptor_pool();
                &&& r matches Ok(p) && p.raw_value() == h
                &&& final(self).spec_descriptor_pools() == old(self).spec_descriptor_pools().insert(h, max_sets)
                &&& final(self).spec_next_descriptor_pool() == h.wrapping_add(1)
            },
    {
        if device.is_null() {
            return Err(VkResult::ErrorInitializationFailed);
        }
        let handle = self.next_descriptor_pool;
        self.next_descriptor_pool = handle.wrapping_add(1);
        self.descriptor_pools.insert(handle, max_sets);
        Ok(VkDescriptorPool::from_raw(handle))
    }

    /// Forgets a descriptor pool (null handles are ignored).
    pub fn destroy_descriptor_pool(&mut self, device: VkDevice, pool: VkDescriptorPool)
        ensures
            final(self).same_except(*old(self), Registry::DescriptorPools),
            (device.raw_value() == 0 || pool.raw_value() == 0) ==> final(self).spec_descriptor_pools() == old(
                self,
            ).spec_descriptor_pools(),
            !(device.raw_value() == 0 || pool.raw_value() == 0) ==> final(self).spec_descriptor_pools() == old(
                self,
            ).spec_descriptor_pools().remove(pool.raw_value()),
    {
        if device.is_null() || pool.is_null() {
            return;
        }
        self.descriptor_pools.remove(&pool.as_raw());
    }

    /// Creates a pipeline layout over the given descriptor set layouts.
    pub fn create_pipeline_layout(&mut self, device: VkDevice, set_layouts: &Vec<VkDescriptorSetLayout>) -> (r:
        Result<VkPipelineLayout, VkResult>)
        ensures
            final(self).same_except(*old(self), Registry::PipelineLayouts),
            device.raw_value() == 0 ==> r == Err::<VkPipelineLayout, VkResult>(VkResult::ErrorInitializationFailed)
                && final(self).spec_pipeline_layouts() == old(self).spec_pipeline_layouts()
                && final(self).spec_next_pipeline_layout() == old(self).spec_next_pipeline_layout(),
            device.raw_value() != 0 ==> {
                let h = old(self).spec_next_pipeline_layout();
                &&& r matches Ok(l) && l.raw_value() == h
                &&& final(self).spec_pipeline_layouts() == old(self).spec_pipeline_layouts().insert(
                    h,
                    set_layouts@.map_values(|l: VkDescriptorSetLayout| l.raw_value()),
                )
                &&& final(self).spec_next_pipeline_layout() == h.wrapping_add(1)
            },
    {
        if device.is_null() {
            return Err(VkResult::ErrorInitializationFailed);
        }
        let mut raws: Vec<u64> = Vec::new();
        let mut i: usize = 0;
        while i < set_layouts.len()
            invariant
                0 <= i <= set_layouts@.len(),
                raws@ == set_layouts@.take(i as int).map_values(|l: VkDescriptorSetLayout| l.raw_value()),
            decreases set_layouts@.len() - i,
        {
            raws.push(set_layouts[i].as_raw());
            proof {
                assert(set_layouts@.take(i as int + 1) =~= set_layouts@.take(i as int).push(set_layouts@[i as int]));
            }
            i = i + 1;
            proof {
                assert(raws@ =~= set_layouts@.take(i as int).map_values(|l: VkDescriptorSetLayout| l.raw_value()));
            }
        }
        proof {
            assert(set_layouts@.take(i as int) =~= set_layouts@);
        }
        let handle = self.next_pipeline_layout;
        self.next_pipeline_layout = handle.wrapping_add(1);
        self.pipeline_layouts.insert(handle, raws);
        proof {
            assert(self.spec_pipeline_layouts() =~= old(self).spec_pipeline_layouts().insert(
                handle,
                set_layouts@.map_values(|l: VkDescriptorSetLayout| l.raw_value()),
            ));
        }
        Ok(VkPipelineLayout::from_raw(handle))
    }

    /// Creates one compute pipeline for each (layout, shader module) pair, taking
    /// handles from the pipeline counter in turn.
    pub fn create_compute_pipelines(
        &mut self,
        device: VkDevice,
        stages: &Vec<(VkPipelineLayout, VkShaderModule)>,
    ) -> (r: Result<Vec<VkPipeline>, VkResult>)
        ensures
            final(self).same_except(*old(self), Registry::Pipelines),
            device.raw_value() == 0 ==> r == Err::<Vec<VkPipeline>, VkResult>(VkResult::ErrorInitializationFailed)
                && final(self).spec_pipelines() == old(self).spec_pipelines()
                && final(self).spec_next_pipeline() == old(self).spec_next_pipeline(),
            device.raw_value() != 0 ==> r is Ok,
            r matches Ok(v) ==> {
                &&& v@.len() == stages@.len()
                &&& forall|i: int|
                    0 <= i < v@.len() ==> (#[trigger] v@[i]).raw_value() == nth_handle(
                        old(self).spec_next_pipeline(),
                        i as nat,
                    )
                &&& final(self).spec_next_pipeline() == nth_handle(old(self).spec_next_pipeline(), stages@.len())
                &&& final(self).spec_pipelines() == pipelines_after(
                    old(self).spec_pipelines(),
                    old(self).spec_next_pipeline(),
                    stages@,
                )
            },
    {
        if device.is_null() {
            return Err(VkResult::ErrorInitializationFailed);
        }
        let ghost first = self.next_pipeline;
        let mut out: Vec<VkPipeline> = Vec::new();
        let mut i: usize = 0;
        while i < stages.len()
            invariant
                self.same_except(*old(self), Registry::Pipelines),
                0 <= i <= stages@.len(),
                out@.len() == i,
                forall|j: int| 0 <= j < out@.len() ==> (#[trigger] out@[j]).raw_value() == nth_handle(first, j as nat),
                self.next_pipeline == nth_handle(first, i as nat),
                self.pipelines@ == pipelines_after(old(self).pipelines@, first, stages@.take(i as int)),
            decreases stages@.len() - i,
        {
            let handle = self.next_pipeline;
            self.next_pipeline = handle.wrapping_add(1);
            let stage = stages[i];
            self.pipelines.insert(handle, stage);
            out.push(VkPipeline::from_raw(handle));
            proof {
                let t = stages@.take(i as int + 1);
                assert(t.drop_last() =~= stages@.take(i as int));
                assert(t.last() == stages@[i as int]);
            }
            i = i + 1;
        }
        proof {
            assert(stages@.take(stages@.len() as int) =~= stages@);
        }
        Ok(out)
    }

    /// Frees command buffers of a live pool: each leaves the registry and the pool's
    /// list. Nothing happens for a null device or pool, an empty list or an unknown pool.
    pub fn free_command_buffers(&mut self, device: VkDevice, pool: VkCommandPool, buffers: &Vec<VkCommandBuffer>)
        ensures
            final(self).same_except(*old(self), Registry::Commands),
            ({
                let raws = buffers@.map_values(|b: VkCommandBuffer| b.raw_value());
                let pk = pool.raw_value();
                let pools = old(self).spec_command_pools();
                let cbs = old(self).spec_command_buffers();
                if device.raw_value() == 0 || pk == 0 || buffers@.len() == 0 || !pools.contains_key(pk) {
                    final(self).spec_command_pools() == pools && final(self).spec_command_buffers() == cbs
                } else {
                    &&& final(self).spec_command_pools() == pools.insert(pk, pools[pk].filter(|b: u64| !raws.contains(b)))
                    &&& forall|k: u64|
                        #[trigger] final(self).spec_command_buffers().contains_key(k) <==> (cbs.contains_key(k)
                            && !raws.contains(k))
                    &&& forall|k: u64|
                        #[trigger] final(self).spec_command_buffers().contains_key(k) ==> final(self).spec_command_buffers()[k]
                            == cbs[k]
                }
            }),
    {
        if device.is_null() || pool.is_null() || buffers.len() == 0 {
            return;
        }
        let pk = pool.as_raw();
        let list = match self.command_pools.remove(&pk) {
            Some(l) => l,
            None => return,
        };
        let ghost raws = buffers@.map_values(|b: VkCommandBuffer| b.raw_value());
        let ghost start_cbs = self.command_buffers@;
        let mut i: usize = 0;
        while i < buffers.len()
            invariant
                self.same_except(*old(self), Registry::Commands),
                0 <= i <= buffers@.len(),
                raws == buffers@.map_values(|b: VkCommandBuffer| b.raw_value()),
                forall|k: u64|
                    #[trigger] self.command_buffers@.contains_key(k) <==> (start_cbs.contains_key(k)
                        && !raws.take(i as int).contains(k)),
                forall|k: u64| #[trigger] self.command_buffers@.contains_key(k) ==> self.command_buffers@[k] == start_cbs[k],
                self.command_pools@ == old(self).command_pools@.remove(pk),
            decreases buffers@.len() - i,
        {
            let k = buffers[i].as_raw();
            self.command_buffers.remove(&k);
            proof {
                assert(raws.take(i as int + 1) =~= raws.take(i as int).push(k));
                assert forall|j: u64| #[trigger] self.command_buffers@.contains_key(j) <==> (start_cbs.contains_key(j)
                    && !raws.take(i as int + 1).contains(j)) by {
                    vstd::seq_lib::lemma_seq_contains_after_push(raws.take(i as int), k, j);
                }
            }
            i = i + 1;
        }
        proof {
            assert(raws.take(buffers@.len() as int) =~= raws);
        }
        let mut kept: Vec<u64> = Vec::new();
        let mut j: usize = 0;
        while j < list.len()
            invariant
                0 <= j <= list@.len(),
                raws == buffers@.map_values(|b: VkCommandBuffer| b.raw_value()),
                kept@ == list@.take(j as int).filter(|b: u64| !raws.contains(b)),
            decreases list@.len() - j,
        {
            let b = list[j];
            let mut listed = false;
            let mut m: usize = 0;
            while m < buffers.len()
                invariant
                    0 <= m <= buffers@.len(),
                    raws == buffers@.map_values(|b: VkCommandBuffer| b.raw_value()),
                    listed <==> raws.take(m as int).contains(b),
                decreases buffers@.len() - m,
            {
                proof {
                    assert(raws.take(m as int + 1) =~= raws.take(m as int).push(raws[m as int]));
                    vstd::seq_lib::lemma_seq_contains_after_push(raws.take(m as int), raws[m as int], b);
                }
                if buffers[m].as_raw() == b {
                    listed = true;
                }
                m = m + 1;
            }
            proof {
                assert(raws.take(buffers@.len() as int) =~= raws);
                assert(list@.take(j as int + 1) =~= list@.take(j as int).push(b));
                list@.take(j as int).lemma_filter_push(b, |b: u64| !raws.contains(b));
            }
            if !listed {
                kept.push(b);
            }
            j = j + 1;
        }
        proof {
            assert(list@.take(list@.len() as int) =~= list@);
        }
        proof {
            assert(old(self).spec_command_pools()[pk] == list@);
        }
        self.command_pools.insert(pk, kept);
        proof {
            assert(self.spec_command_pools() =~= old(self).spec_command_pools().insert(
                pk,
                old(self).spec_command_pools()[pk].filter(|b: u64| !raws.contains(b)),
            ));
        }
    }
}

/// A fence created on a device answers its status as it was created: `Success` when
/// created signalled, `NotReady` otherwise (`after` is the device once `create_fence`
/// returned `fence`).
pub proof fn lemma_created_fence_status(
    before: VirtualDevice,
    after: VirtualDevice,
    device: VkDevice,
    signaled: bool,
    fence: VkFence,
)
    requires
        device.raw_value() != 0,
        fence.raw_value() != 0,
        fence.raw_value() == before.spec_next_fence(),
        after.spec_fences() == before.spec_fences().insert(before.spec_next_fence(), signaled),
    ensures
        after.spec_fence_status(device, fence) == (if signaled {
            VkResult::Success
        } else {
            VkResult::NotReady
        }),
{
}

/// Submitting work with a live fence signals it: its status is then `Success`
/// (`after` is the device once `queue_submit` returned).
pub proof fn lemma_submit_signals_fence(
    before: VirtualDevice,
    after: VirtualDevice,
    device: VkDevice,
    fence: VkFence,
)
    requires
        device.raw_value() != 0,
        fence.raw_value() != 0,
        before.spec_fences().contains_key(fence.raw_value()),
        after.spec_fences() == before.spec_fences().insert(fence.raw_value(), true),
    ensures
        after.spec_fence_status(device, fence) == VkResult::Success,
{
}

/// Resetting a list of fences leaves each live fence of the list unsignalled
/// (`NotReady`) and every other fence's status as it was (`after` is the device once
/// `reset_fences` returned `Success` for `fences`).
pub proof fn lemma_reset_fences_status(
    before: VirtualDevice,
    after: VirtualDevice,
    device: VkDevice,
    fences: Seq<VkFence>,
    fence: VkFence,
)
    requires
        after.spec_fences().dom() == before.spec_fences().dom(),
        forall|k: u64|
            #[trigger] after.spec_fences().contains_key(k) ==> after.spec_fences()[k] == (before.spec_fences()[k]
                && !fences.map_values(|f: VkFence| f.raw_value()).contains(k)),
    ensures
        fences.contains(fence) && before.spec_fence_status(device, fence) != VkResult::ErrorDeviceLost
            ==> after.spec_fence_status(device, fence) == VkResult::NotReady,
        !fences.map_values(|f: VkFence| f.raw_value()).contains(fence.raw_value()) ==> after.spec_fence_status(
            device,
            fence,
        ) == before.spec_fence_status(device, fence),
{
    let k = fence.raw_value();
    if fences.contains(fence) {
        let i = choose|i: int| 0 <= i < fences.len() && fences[i] == fence;
        assert(fences.map_values(|f: VkFence| f.raw_value())[i] == k);
    }
    if after.spec_fences().contains_key(k) {
        assert(after.spec_fences()[k] == (before.spec_fences()[k] && !fences.map_values(|f: VkFence| f.raw_value()).contains(k)));
    }
}

/// Setting or resetting a live event is what its status then answers: `EventSet`
/// after a set, `EventReset` after a reset (`after` is the device once `signal_event`
/// returned `Success`).
pub proof fn lemma_event_status_after_signal(
    before: VirtualDevice,
    after: VirtualDevice,
    device: VkDevice,
    event: VkEvent,
    set: bool,
)
    requires
        device.raw_value() != 0,
        event.raw_value() != 0,
        before.spec_events().contains_key(event.raw_value()),
        after.spec_events() == before.spec_events().insert(event.raw_value(), set),
    ensures
        after.spec_event_status(device, event) == (if set {
            VkResult::EventSet
        } else {
            VkResult::EventReset
        }),
{
}

/// A destroyed fence is gone: its status is `ErrorDeviceLost` (`after` is the device
/// once `destroy_fence` returned).
pub proof fn lemma_destroyed_fence_status(
    before: VirtualDevice,
    after: VirtualDevice,
    device: VkDevice,
    fence: VkFence,
)
    requires
        after.spec_fences() == before.spec_fences().remove(fence.raw_value()),
    ensures
        after.spec_fence_status(device, fence) == VkResult::ErrorDeviceLost,
{
}

} // verus!
