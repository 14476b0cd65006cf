use kronos_compute::enums::{VkResult, VkStructureType};
use kronos_compute::flags::{VkMemoryPropertyFlags, VkQueueFlags};
use kronos_compute::structs::{VkExtent3D, VkMemoryTypeCache};
use kronos_compute::sys::{
    VkBool32, VkBuffer, VkDevice, VkDeviceSize, VkFlags, VkInstance, VkPipeline, VK_FALSE,
    VK_QUEUE_FAMILY_IGNORED, VK_TRUE, VK_WHOLE_SIZE,
};
use std::mem;

#[test]
fn test_handle_sizes() {
    assert_eq!(mem::size_of::<VkInstance>(), 8);
    assert_eq!(mem::size_of::<VkDevice>(), 8);
    assert_eq!(mem::size_of::<VkBuffer>(), 8);
    assert_eq!(mem::size_of::<VkPipeline>(), 8);
}

#[test]
fn test_basic_types() {
    assert_eq!(mem::size_of::<VkFlags>(), 4);
    assert_eq!(mem::size_of::<VkBool32>(), 4);
    assert_eq!(mem::size_of::<VkDeviceSize>(), 8);
}

#[test]
fn test_enum_values() {
    assert_eq!(VkResult::Success.value(), 0);
    assert_eq!(VkResult::ErrorOutOfHostMemory.value(), -1);

    assert_eq!(VkStructureType::ApplicationInfo.value(), 0);
    assert_eq!(VkStructureType::InstanceCreateInfo.value(), 1);
    assert_eq!(VkStructureType::ComputePipelineCreateInfo.value(), 29);
}

#[test]
fn test_flag_values() {
    assert_eq!(VkQueueFlags::COMPUTE().bits(), 0x00000002);
    assert_eq!(VkQueueFlags::TRANSFER().bits(), 0x00000004);

    assert_eq!(VkMemoryPropertyFlags::DEVICE_LOCAL().bits(), 0x00000001);
    assert_eq!(VkMemoryPropertyFlags::HOST_VISIBLE().bits(), 0x00000002);
    assert_eq!(VkMemoryPropertyFlags::HOST_COHERENT().bits(), 0x00000004);
}

#[test]
fn structure_sizes_test_constants() {
    assert_eq!(VK_TRUE, 1);
    assert_eq!(VK_FALSE, 0);
    assert_eq!(VK_WHOLE_SIZE, !0u64);
    assert_eq!(VK_QUEUE_FAMILY_IGNORED, !0u32);
}

#[test]
fn test_memory_type_cache() {
    let cache = VkMemoryTypeCache::default();
    assert_eq!(cache.hostVisibleCoherent, 0);
    assert_eq!(cache.deviceLocal, 0);
    assert_eq!(cache.hostVisibleCached, 0);
    assert_eq!(cache.deviceLocalLazy, 0);
}

#[test]
fn test_extent3d() {
    let extent = VkExtent3D::default();
    assert_eq!(extent.width, 1);
    assert_eq!(extent.height, 1);
    assert_eq!(extent.depth, 1);
}
