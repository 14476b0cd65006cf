use kronos_compute::enums::VkResult;
use kronos_compute::sys::{
    VkCommandBuffer, VkCommandPool, VkDescriptorSetLayout, VkDevice, VkFence, VkPhysicalDevice,
    VkPipelineLayout, VkQueue, VkShaderModule, VK_API_VERSION_1_3, VK_WHOLE_SIZE,
};
use kronos_compute::enums::VkPhysicalDeviceType;
use kronos_compute::flags::{VkMemoryPropertyFlags, VkQueueFlags};
use kronos_compute::make_version;
use kronos_compute::virtual_device::{
    virtual_device_name, virtual_device_properties, virtual_memory_properties, virtual_queue_families,
    CommandBufferState, VirtualDevice, SPIRV_MAGIC, VIRTUAL_PHYSICAL_DEVICE,
};

fn device_with_queue(vd: &mut VirtualDevice) -> (VkDevice, VkQueue) {
    let instance = vd.create_instance(None).unwrap();
    let listed = vd.enumerate_physical_devices(instance, Some(1));
    let physical = listed.device.unwrap();
    let device = vd.create_device(physical, Some(0)).unwrap();
    let queue = vd.get_device_queue(device, 0, 0).unwrap();
    (device, queue)
}

#[test]
fn test_virtual_instance_versions() {
    let mut vd = VirtualDevice::new();
    let first = vd.create_instance(None).unwrap();
    assert_eq!(first.as_raw(), 1);
    let second = vd.create_instance(Some(VK_API_VERSION_1_3)).unwrap();
    assert_eq!(second.as_raw(), 2);
    assert_eq!(vd.create_instance(Some(VK_API_VERSION_1_3 + 1)), Err(VkResult::ErrorIncompatibleDriver));
    vd.destroy_instance(first);
    let listed = vd.enumerate_physical_devices(first, None);
    assert_eq!(listed.result, VkResult::ErrorDeviceLost);
}

#[test]
fn test_virtual_enumeration() {
    let mut vd = VirtualDevice::new();
    let instance = vd.create_instance(None).unwrap();
    let count_only = vd.enumerate_physical_devices(instance, None);
    assert_eq!(count_only.result, VkResult::Success);
    assert_eq!(count_only.count, Some(1));
    assert!(count_only.device.is_none());
    let too_small = vd.enumerate_physical_devices(instance, Some(0));
    assert_eq!(too_small.result, VkResult::Incomplete);
    let full = vd.enumerate_physical_devices(instance, Some(4));
    assert_eq!(full.device.unwrap().as_raw(), VIRTUAL_PHYSICAL_DEVICE);
    let null = vd.enumerate_physical_devices(kronos_compute::sys::VkInstance::NULL(), Some(4));
    assert_eq!(null.result, VkResult::ErrorInitializationFailed);
}

#[test]
fn test_virtual_device_and_queue() {
    let mut vd = VirtualDevice::new();
    assert_eq!(vd.create_device(VkPhysicalDevice::NULL(), Some(0)), Err(VkResult::ErrorInitializationFailed));
    assert_eq!(
        vd.create_device(VkPhysicalDevice::from_raw(VIRTUAL_PHYSICAL_DEVICE), None),
        Err(VkResult::ErrorInitializationFailed)
    );
    let device = vd.create_device(VkPhysicalDevice::from_raw(VIRTUAL_PHYSICAL_DEVICE), Some(2)).unwrap();
    assert_eq!(device.as_raw(), 1);
    assert_eq!(vd.get_device_queue(device, 2, 0).unwrap().as_raw(), 2);
    assert!(vd.get_device_queue(device, 0, 0).is_none());
    assert!(vd.get_device_queue(device, 2, 1).is_none());
    vd.destroy_device(device);
    assert!(vd.get_device_queue(device, 2, 0).is_none());
}

#[test]
fn test_virtual_memory_mapping() {
    let mut vd = VirtualDevice::new();
    let (device, _) = device_with_queue(&mut vd);
    assert_eq!(vd.allocate_memory(device, 0, 0), Err(VkResult::ErrorInitializationFailed));
    let memory = vd.allocate_memory(device, 1024, 1).unwrap();
    assert_eq!(vd.memory_size(memory), Some(1024));
    assert_eq!(vd.map_memory(device, memory, 256, VK_WHOLE_SIZE), Ok(768));
    assert_eq!(vd.map_memory(device, memory, 0, 512), Ok(512));
    assert_eq!(vd.map_memory(device, memory, 1000, 100), Err(VkResult::ErrorMemoryMapFailed));
    vd.unmap_memory(device, memory);
    vd.free_memory(device, memory);
    assert_eq!(vd.memory_size(memory), None);
    assert_eq!(vd.map_memory(device, memory, 0, 4), Err(VkResult::ErrorMemoryMapFailed));
}

#[test]
fn test_virtual_fence_lifecycle() {
    let mut vd = VirtualDevice::new();
    let (device, queue) = device_with_queue(&mut vd);
    let signalled = vd.create_fence(device, true).unwrap();
    let unsignalled = vd.create_fence(device, false).unwrap();
    assert_eq!(vd.get_fence_status(device, signalled), VkResult::Success);
    assert_eq!(vd.get_fence_status(device, unsignalled), VkResult::NotReady);
    assert_eq!(vd.reset_fences(device, &vec![signalled]), VkResult::Success);
    assert_eq!(vd.get_fence_status(device, signalled), VkResult::NotReady);
    assert_eq!(vd.reset_fences(device, &vec![]), VkResult::ErrorInitializationFailed);
    assert_eq!(vd.queue_submit(queue, unsignalled), VkResult::Success);
    assert_eq!(vd.get_fence_status(device, unsignalled), VkResult::Success);
    assert_eq!(vd.queue_submit(VkQueue::NULL(), unsignalled), VkResult::ErrorInitializationFailed);
    assert_eq!(vd.wait_for_fences(device, 2), VkResult::Success);
    assert_eq!(vd.wait_for_fences(device, 0), VkResult::ErrorInitializationFailed);
    vd.destroy_fence(device, signalled);
    assert_eq!(vd.get_fence_status(device, signalled), VkResult::ErrorDeviceLost);
    assert_eq!(vd.get_fence_status(device, VkFence::NULL()), VkResult::ErrorDeviceLost);
    assert_eq!(vd.queue_wait_idle(queue), VkResult::Success);
    assert_eq!(vd.device_wait_idle(device), VkResult::Success);
    assert_eq!(vd.device_wait_idle(VkDevice::NULL()), VkResult::ErrorInitializationFailed);
}

#[test]
fn test_virtual_events_and_semaphores() {
    let mut vd = VirtualDevice::new();
    let (device, _) = device_with_queue(&mut vd);
    let event = vd.create_event(device).unwrap();
    assert_eq!(event.as_raw(), 1);
    assert_eq!(vd.get_event_status(device, event), VkResult::EventReset);
    assert_eq!(vd.signal_event(device, event, true), VkResult::Success);
    assert_eq!(vd.get_event_status(device, event), VkResult::EventSet);
    assert_eq!(vd.signal_event(device, event, false), VkResult::Success);
    assert_eq!(vd.get_event_status(device, event), VkResult::EventReset);
    vd.destroy_event(device, event);
    assert_eq!(vd.signal_event(device, event, true), VkResult::ErrorDeviceLost);
    let semaphore = vd.create_semaphore(device).unwrap();
    assert_eq!(semaphore.as_raw(), 1);
    assert_eq!(vd.create_semaphore(VkDevice::NULL()), Err(VkResult::ErrorInitializationFailed));
    vd.destroy_semaphore(device, semaphore);
}

#[test]
fn test_virtual_shader_module_validation() {
    let mut vd = VirtualDevice::new();
    let (device, _) = device_with_queue(&mut vd);
    let words = vec![SPIRV_MAGIC, 0x0001_0000, 0, 1];
    let module = vd.create_shader_module(device, 16, &words).unwrap();
    assert_eq!(module.as_raw(), 1);
    assert_eq!(vd.create_shader_module(device, 0, &words), Err(VkResult::ErrorInitializationFailed));
    assert_eq!(vd.create_shader_module(device, 6, &words), Err(VkResult::ErrorInitializationFailed));
    let bad = vec![0xdead_beef, 0, 0, 0];
    assert_eq!(vd.create_shader_module(device, 16, &bad), Err(VkResult::ErrorInitializationFailed));
    vd.destroy_shader_module(device, module);
}

#[test]
fn test_virtual_command_buffer_states() {
    let mut vd = VirtualDevice::new();
    let (device, _) = device_with_queue(&mut vd);
    let pool = vd.create_command_pool(device).unwrap();
    let buffers = vd.allocate_command_buffers(device, pool, 3).unwrap();
    assert_eq!(buffers.len(), 3);
    assert_eq!(buffers[0].as_raw(), 1);
    assert_eq!(buffers[2].as_raw(), 3);
    let cb = buffers[0];
    assert_eq!(vd.command_buffer_state(cb), Some(CommandBufferState::Initial));
    assert_eq!(vd.end_command_buffer(cb), VkResult::ErrorUnknown);
    assert_eq!(vd.begin_command_buffer(cb), VkResult::Success);
    assert_eq!(vd.command_buffer_state(cb), Some(CommandBufferState::Recording));
    assert_eq!(vd.end_command_buffer(cb), VkResult::Success);
    assert_eq!(vd.command_buffer_state(cb), Some(CommandBufferState::Executable));
    assert_eq!(vd.begin_command_buffer(VkCommandBuffer::NULL()), VkResult::ErrorInitializationFailed);
    assert_eq!(vd.begin_command_buffer(VkCommandBuffer::from_raw(99)), VkResult::ErrorDeviceLost);
    assert_eq!(
        vd.allocate_command_buffers(device, VkCommandPool::from_raw(42), 1).unwrap_err(),
        VkResult::ErrorDeviceLost
    );
    vd.free_command_buffers(device, pool, &vec![buffers[0], buffers[2]]);
    assert_eq!(vd.command_buffer_state(buffers[0]), None);
    assert_eq!(vd.command_buffer_state(buffers[1]), Some(CommandBufferState::Initial));
    assert_eq!(vd.command_buffer_state(buffers[2]), None);
}

#[test]
fn test_virtual_layouts_and_pipelines() {
    let mut vd = VirtualDevice::new();
    let (device, _) = device_with_queue(&mut vd);
    let set_layout = vd.create_descriptor_set_layout(device, 3).unwrap();
    assert_eq!(set_layout.as_raw(), 1);
    let descriptor_pool = vd.create_descriptor_pool(device, 16).unwrap();
    assert_eq!(descriptor_pool.as_raw(), 1);
    let layout = vd.create_pipeline_layout(device, &vec![set_layout, VkDescriptorSetLayout::from_raw(7)]).unwrap();
    assert_eq!(layout.as_raw(), 1);
    assert_eq!(
        vd.create_pipeline_layout(VkDevice::NULL(), &vec![]).unwrap_err(),
        VkResult::ErrorInitializationFailed
    );
    let module = VkShaderModule::from_raw(5);
    let pipelines = vd
        .create_compute_pipelines(device, &vec![(layout, module), (VkPipelineLayout::from_raw(9), module)])
        .unwrap();
    assert_eq!(pipelines.len(), 2);
    assert_eq!(pipelines[0].as_raw(), 1);
    assert_eq!(pipelines[1].as_raw(), 2);
    vd.destroy_descriptor_set_layout(device, set_layout);
    vd.destroy_descriptor_pool(device, descriptor_pool);
}

#[test]
fn test_virtual_physical_device_properties() {
    let p = virtual_device_properties();
    assert_eq!(p.api_version, VK_API_VERSION_1_3);
    assert_eq!(p.driver_version, make_version(0, 2, 3));
    assert_eq!(p.vendor_id, 0x1337);
    assert_eq!(p.device_type, VkPhysicalDeviceType::VirtualGpu);
    assert_eq!(p.limits.maxComputeSharedMemorySize, 49152);
    assert_eq!(p.limits.maxComputeWorkGroupSize, [1024, 1024, 64]);
    assert_eq!(virtual_device_name(), "Kronos Virtual Compute Device");
}

#[test]
fn test_virtual_queue_family_query() {
    assert_eq!(virtual_queue_families(None).0, Some(1));
    assert!(virtual_queue_families(None).1.is_none());
    assert_eq!(virtual_queue_families(Some(0)).0, None);
    let (count, family) = virtual_queue_families(Some(3));
    assert_eq!(count, Some(1));
    let family = family.unwrap();
    assert_eq!(family.queueFlags, VkQueueFlags::COMPUTE().union(VkQueueFlags::TRANSFER()));
    assert_eq!(family.queueCount, 1);
    assert_eq!(family.timestampValidBits, 64);
}

#[test]
fn test_virtual_memory_properties() {
    let m = virtual_memory_properties();
    assert_eq!(m.memoryTypeCount, 1);
    assert!(m.memoryTypes[0].propertyFlags.contains(VkMemoryPropertyFlags::HOST_VISIBLE()));
    assert!(m.memoryTypes[0].propertyFlags.contains(VkMemoryPropertyFlags::HOST_COHERENT()));
    assert!(!m.memoryTypes[0].propertyFlags.contains(VkMemoryPropertyFlags::DEVICE_LOCAL()));
    assert_eq!(m.memoryHeapCount, 1);
    assert_eq!(m.memoryHeaps[0].size, 16 * 1024 * 1024 * 1024);
}

#[test]
fn mapping_past_the_allocation_is_refused() {
    let mut vd = VirtualDevice::new();
    let (device, _) = device_with_queue(&mut vd);
    let memory = vd.allocate_memory(device, 16, 1).unwrap();
    assert_eq!(vd.map_memory(device, memory, 32, VK_WHOLE_SIZE), Err(VkResult::ErrorMemoryMapFailed));
    assert_eq!(vd.map_memory(device, memory, u64::MAX, 16), Err(VkResult::ErrorMemoryMapFailed));
    assert_eq!(vd.map_memory(device, memory, 16, VK_WHOLE_SIZE), Ok(0));
}
