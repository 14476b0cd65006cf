use kronos_compute::flags::{
    VkAccessFlags, VkBufferCreateFlags, VkBufferUsageFlags, VkCommandBufferUsageFlags,
    VkCommandPoolCreateFlags, VkDependencyFlags, VkDescriptorPoolCreateFlags,
    VkDescriptorPoolResetFlags, VkDescriptorSetLayoutCreateFlags, VkDeviceCreateFlags,
    VkDeviceQueueCreateFlags, VkEventCreateFlags, VkFenceCreateFlags, VkInstanceCreateFlags,
    VkMemoryMapFlags, VkMemoryPropertyFlags, VkPipelineCreateFlags, VkPipelineLayoutCreateFlags,
    VkPipelineShaderStageCreateFlags, VkPipelineStageFlags, VkQueryPoolCreateFlags, VkQueueFlags,
    VkSemaphoreCreateFlags, VkSemaphoreWaitFlags, VkShaderStageFlags,
};
use std::mem;

#[test]
fn flags_test_queue_flags() {
    let compute_transfer = VkQueueFlags::COMPUTE() | VkQueueFlags::TRANSFER();
    assert!(compute_transfer.contains(VkQueueFlags::COMPUTE()));
    assert!(compute_transfer.contains(VkQueueFlags::TRANSFER()));
    assert!(!compute_transfer.contains(VkQueueFlags::SPARSE_BINDING()));

    let all = VkQueueFlags::all();
    assert!(all.contains(VkQueueFlags::COMPUTE()));
    assert!(all.contains(VkQueueFlags::TRANSFER()));
    assert!(all.contains(VkQueueFlags::SPARSE_BINDING()));
}

#[test]
fn flags_test_memory_property_flags() {
    let host_visible = VkMemoryPropertyFlags::HOST_VISIBLE() | VkMemoryPropertyFlags::HOST_COHERENT();
    assert!(host_visible.contains(VkMemoryPropertyFlags::HOST_VISIBLE()));
    assert!(host_visible.contains(VkMemoryPropertyFlags::HOST_COHERENT()));
    assert!(!host_visible.contains(VkMemoryPropertyFlags::DEVICE_LOCAL()));

    assert!(VkMemoryPropertyFlags::empty().is_empty());
}

#[test]
fn flags_test_buffer_usage_flags() {
    let storage_transfer = VkBufferUsageFlags::STORAGE_BUFFER() | VkBufferUsageFlags::TRANSFER_DST();
    assert!(storage_transfer.contains(VkBufferUsageFlags::STORAGE_BUFFER()));
    assert!(storage_transfer.contains(VkBufferUsageFlags::TRANSFER_DST()));
    assert!(!storage_transfer.contains(VkBufferUsageFlags::UNIFORM_BUFFER()));

    let transfer_only = VkBufferUsageFlags::TRANSFER_SRC() | VkBufferUsageFlags::TRANSFER_DST();
    let intersection = storage_transfer & transfer_only;
    assert_eq!(intersection, VkBufferUsageFlags::TRANSFER_DST());
}

#[test]
fn flags_test_pipeline_stage_flags() {
    let compute_stage = VkPipelineStageFlags::COMPUTE_SHADER();
    assert!(compute_stage.contains(VkPipelineStageFlags::COMPUTE_SHADER()));
    assert!(!compute_stage.contains(VkPipelineStageFlags::HOST()));

    let all_commands = VkPipelineStageFlags::ALL_COMMANDS();
    assert!(!all_commands.is_empty());
}

#[test]
fn flags_test_access_flags() {
    let shader_access = VkAccessFlags::SHADER_READ() | VkAccessFlags::SHADER_WRITE();
    assert!(shader_access.contains(VkAccessFlags::SHADER_READ()));
    assert!(shader_access.contains(VkAccessFlags::SHADER_WRITE()));
    assert!(!shader_access.contains(VkAccessFlags::HOST_READ()));

    let read_only = shader_access - VkAccessFlags::SHADER_WRITE();
    assert_eq!(read_only, VkAccessFlags::SHADER_READ());
}

#[test]
fn flags_test_shader_stage_flags() {
    let compute = VkShaderStageFlags::COMPUTE();
    assert!(compute.contains(VkShaderStageFlags::COMPUTE()));
    assert!(!compute.contains(VkShaderStageFlags::ALL()));

    let all = VkShaderStageFlags::ALL();
    assert!(all.contains(VkShaderStageFlags::COMPUTE()));
}

#[test]
fn flags_test_fence_create_flags() {
    let signaled = VkFenceCreateFlags::SIGNALED();
    assert!(!signaled.is_empty());
    assert!(signaled.contains(VkFenceCreateFlags::SIGNALED()));

    let empty = VkFenceCreateFlags::empty();
    assert!(empty.is_empty());
}

#[test]
fn flags_tests_test_queue_flags() {
    let compute_transfer = VkQueueFlags::COMPUTE() | VkQueueFlags::TRANSFER();
    assert!(compute_transfer.contains(VkQueueFlags::COMPUTE()));
    assert!(compute_transfer.contains(VkQueueFlags::TRANSFER()));
    assert!(!compute_transfer.contains(VkQueueFlags::SPARSE_BINDING()));

    let all = VkQueueFlags::all();
    assert!(all.contains(VkQueueFlags::COMPUTE()));
    assert!(all.contains(VkQueueFlags::TRANSFER()));
    assert!(all.contains(VkQueueFlags::SPARSE_BINDING()));
}

#[test]
fn flags_tests_test_memory_property_flags() {
    let host_visible = VkMemoryPropertyFlags::HOST_VISIBLE() | VkMemoryPropertyFlags::HOST_COHERENT();
    assert!(host_visible.contains(VkMemoryPropertyFlags::HOST_VISIBLE()));
    assert!(host_visible.contains(VkMemoryPropertyFlags::HOST_COHERENT()));
    assert!(!host_visible.contains(VkMemoryPropertyFlags::DEVICE_LOCAL()));

    assert!(VkMemoryPropertyFlags::empty().is_empty());
}

#[test]
fn flags_tests_test_buffer_usage_flags() {
    let storage_transfer = VkBufferUsageFlags::STORAGE_BUFFER() | VkBufferUsageFlags::TRANSFER_DST();
    assert!(storage_transfer.contains(VkBufferUsageFlags::STORAGE_BUFFER()));
    assert!(storage_transfer.contains(VkBufferUsageFlags::TRANSFER_DST()));
    assert!(!storage_transfer.contains(VkBufferUsageFlags::UNIFORM_BUFFER()));

    let transfer_only = VkBufferUsageFlags::TRANSFER_SRC() | VkBufferUsageFlags::TRANSFER_DST();
    let intersection = storage_transfer & transfer_only;
    assert_eq!(intersection, VkBufferUsageFlags::TRANSFER_DST());
}

#[test]
fn flags_tests_test_pipeline_stage_flags() {
    let compute_stage = VkPipelineStageFlags::COMPUTE_SHADER();
    assert!(compute_stage.contains(VkPipelineStageFlags::COMPUTE_SHADER()));
    assert!(!compute_stage.contains(VkPipelineStageFlags::HOST()));

    let all_commands = VkPipelineStageFlags::ALL_COMMANDS();
    assert!(!all_commands.is_empty());
}

#[test]
fn flags_tests_test_access_flags() {
    let shader_access = VkAccessFlags::SHADER_READ() | VkAccessFlags::SHADER_WRITE();
    assert!(shader_access.contains(VkAccessFlags::SHADER_READ()));
    assert!(shader_access.contains(VkAccessFlags::SHADER_WRITE()));
    assert!(!shader_access.contains(VkAccessFlags::HOST_READ()));

    let read_only = shader_access - VkAccessFlags::SHADER_WRITE();
    assert_eq!(read_only, VkAccessFlags::SHADER_READ());
}

#[test]
fn flags_tests_test_shader_stage_flags() {
    let compute = VkShaderStageFlags::COMPUTE();
    assert!(compute.contains(VkShaderStageFlags::COMPUTE()));
    assert!(!compute.contains(VkShaderStageFlags::ALL()));

    let all = VkShaderStageFlags::ALL();
    assert!(all.contains(VkShaderStageFlags::COMPUTE()));
}

#[test]
fn flags_tests_test_fence_create_flags() {
    let signaled = VkFenceCreateFlags::SIGNALED();
    assert!(!signaled.is_empty());
    assert!(signaled.contains(VkFenceCreateFlags::SIGNALED()));

    let empty = VkFenceCreateFlags::empty();
    assert!(empty.is_empty());
}

fn assert_u32_sized<T>() {
    assert_eq!(mem::size_of::<T>(), mem::size_of::<u32>());
    assert_eq!(mem::align_of::<T>(), mem::align_of::<u32>());
}

#[test]
fn test_bitflags_ffi_safety() {
    assert_u32_sized::<VkQueueFlags>();
    assert_u32_sized::<VkMemoryPropertyFlags>();
    assert_u32_sized::<VkBufferUsageFlags>();
    assert_u32_sized::<VkBufferCreateFlags>();
    assert_u32_sized::<VkCommandBufferUsageFlags>();
    assert_u32_sized::<VkCommandPoolCreateFlags>();
    assert_u32_sized::<VkShaderStageFlags>();
    assert_u32_sized::<VkPipelineStageFlags>();
    assert_u32_sized::<VkAccessFlags>();
    assert_u32_sized::<VkPipelineCreateFlags>();
    assert_u32_sized::<VkDescriptorPoolCreateFlags>();
    assert_u32_sized::<VkDescriptorPoolResetFlags>();
    assert_u32_sized::<VkFenceCreateFlags>();
    assert_u32_sized::<VkDependencyFlags>();
    assert_u32_sized::<VkSemaphoreWaitFlags>();
    assert_u32_sized::<VkPipelineShaderStageCreateFlags>();
}

#[test]
fn test_type_aliases_ffi_safety() {
    assert_eq!(mem::size_of::<VkInstanceCreateFlags>(), mem::size_of::<u32>());
    assert_eq!(mem::size_of::<VkDeviceCreateFlags>(), mem::size_of::<u32>());
    assert_eq!(mem::size_of::<VkDeviceQueueCreateFlags>(), mem::size_of::<u32>());
    assert_eq!(mem::size_of::<VkMemoryMapFlags>(), mem::size_of::<u32>());
    assert_eq!(mem::size_of::<VkSemaphoreCreateFlags>(), mem::size_of::<u32>());
    assert_eq!(mem::size_of::<VkEventCreateFlags>(), mem::size_of::<u32>());
    assert_eq!(mem::size_of::<VkQueryPoolCreateFlags>(), mem::size_of::<u32>());
    assert_eq!(mem::size_of::<VkPipelineLayoutCreateFlags>(), mem::size_of::<u32>());
    assert_eq!(mem::size_of::<VkDescriptorSetLayoutCreateFlags>(), mem::size_of::<u32>());
}

#[test]
fn test_bitflags_operations() {
    let compute = VkQueueFlags::COMPUTE();
    let transfer = VkQueueFlags::TRANSFER();
    let combined = compute | transfer;

    assert!(combined.contains(compute));
    assert!(combined.contains(transfer));
    assert!(!combined.contains(VkQueueFlags::SPARSE_BINDING()));

    assert_eq!(compute.bits(), 0x00000002);
    assert_eq!(transfer.bits(), 0x00000004);
    assert_eq!(combined.bits(), 0x00000006);

    assert_eq!(VkQueueFlags::from_bits(0x00000002), Some(VkQueueFlags::COMPUTE()));
    assert_eq!(VkQueueFlags::from_bits(0xFFFFFFFF), None);
}

#[test]
fn flag_truncation_drops_undefined_bits() {
    let f = VkQueueFlags::from_bits_truncate(0xFFFF_FFFF);
    assert_eq!(f, VkQueueFlags::all());
    let r = VkQueueFlags::from_bits_retain(0x8000_0000);
    assert_eq!(r.bits(), 0x8000_0000);
    assert_eq!(VkQueueFlags::COMPUTE().union(VkQueueFlags::TRANSFER()).difference(VkQueueFlags::TRANSFER()), VkQueueFlags::COMPUTE());
}
