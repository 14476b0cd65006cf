use kronos_compute::enums::VkDescriptorType;
use kronos_compute::flags::VkShaderStageFlags;
use kronos_compute::persistent_descriptors::{
    create_push_constant_range, descriptor_buffer_infos, descriptor_cache_key,
    persistent_layout_bindings, push_constant_ranges, PersistentDescriptorManager,
    MAX_PUSH_CONSTANT_SIZE, PERSISTENT_DESCRIPTOR_SET,
};
use kronos_compute::sys::{Handle, VkBuffer, VkDevice, VK_WHOLE_SIZE};

#[test]
fn test_push_constant_range() {
    let range = create_push_constant_range(64);
    assert_eq!(range.stageFlags, VkShaderStageFlags::COMPUTE());
    assert_eq!(range.offset, 0);
    assert_eq!(range.size, 64);
}

#[test]
fn test_persistent_descriptors_push_constant_range() {
    let range = create_push_constant_range(64);
    assert_eq!(range.stageFlags, VkShaderStageFlags::COMPUTE());
    assert_eq!(range.offset, 0);
    assert_eq!(range.size, 64);
}

#[test]
fn push_constant_limits() {
    assert_eq!(MAX_PUSH_CONSTANT_SIZE, 128);
    assert_eq!(PERSISTENT_DESCRIPTOR_SET, 0);
    assert!(push_constant_ranges(0).is_none());
    assert_eq!(push_constant_ranges(128).unwrap().size, 128);
}

#[test]
fn cache_key_mixes_device_and_buffers() {
    let device: VkDevice = Handle::from_raw(1);
    let buffers: Vec<VkBuffer> = vec![Handle::from_raw(2), Handle::from_raw(3)];
    let sig = (0u64.wrapping_mul(0x9e3779b185ebca87) ^ 2u64.rotate_left(13))
        .wrapping_mul(0x9e3779b185ebca87)
        ^ 3u64.rotate_left(13);
    let expected = 1u64.wrapping_mul(0x9e3779b97f4a7c15) ^ sig;
    assert_eq!(descriptor_cache_key(device, &buffers), expected);
    assert_eq!(descriptor_cache_key(device, &[]), 0x9e3779b97f4a7c15);
}

#[test]
fn recorded_sets_are_found_again_and_cleaned_up() {
    let mut manager = PersistentDescriptorManager::new();
    let device: VkDevice = Handle::from_raw(1);
    let buffers: Vec<VkBuffer> = vec![Handle::from_raw(2), Handle::from_raw(3)];
    assert!(manager.cached_descriptor_set(device, &buffers).is_none());
    assert_eq!(manager.generation(), 0);
    manager.record_layout(device, Handle::from_raw(50));
    manager.record_pool(device, Handle::from_raw(60));
    manager.record_descriptor_set(device, &buffers, Handle::from_raw(70));
    assert_eq!(manager.generation(), 1);
    assert_eq!(manager.cached_descriptor_set(device, &buffers).unwrap().as_raw(), 70);
    let other: Vec<VkBuffer> = vec![Handle::from_raw(3), Handle::from_raw(2)];
    assert!(manager.cached_descriptor_set(device, &other).is_none());
    assert_eq!(manager.cached_layout(device).unwrap().as_raw(), 50);

    let (pool, layout) = manager.cleanup_persistent_descriptors(device);
    assert_eq!(pool.unwrap().as_raw(), 60);
    assert_eq!(layout.unwrap().as_raw(), 50);
    assert!(manager.cached_descriptor_set(device, &buffers).is_none());
    assert!(manager.cached_pool(device).is_none());
}

#[test]
fn layout_and_buffer_infos() {
    let bindings = persistent_layout_bindings(3);
    assert_eq!(bindings.len(), 3);
    assert_eq!(bindings[2].binding, 2);
    assert_eq!(bindings[1].descriptorType, VkDescriptorType::StorageBuffer);
    assert_eq!(bindings[0].stageFlags, VkShaderStageFlags::COMPUTE());
    let buffers: Vec<VkBuffer> = vec![Handle::from_raw(9)];
    let infos = descriptor_buffer_infos(&buffers);
    assert_eq!(infos[0].buffer.as_raw(), 9);
    assert_eq!(infos[0].offset, 0);
    assert_eq!(infos[0].range, VK_WHOLE_SIZE);
}
