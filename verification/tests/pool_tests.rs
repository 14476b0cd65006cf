use kronos_compute::error::IcdError;
use kronos_compute::flags::VkMemoryPropertyFlags;
use kronos_compute::pool_allocator::{
    allocate_from_pool, free_allocation, get_allocation, get_pool_stats, initialize_pools,
    block_size, set_slab_size, slab_needed, MemorySlab, NewSlab, PoolAllocator, PoolStats, PoolType, SLAB_SIZE,
};
use kronos_compute::structs::{VkMemoryHeap, VkMemoryRequirements, VkMemoryType, VkPhysicalDeviceMemoryProperties};
use kronos_compute::sys::{Handle, VkDevice, VkDeviceMemory};

#[test]
fn test_pool_type_flags() {
    assert_eq!(PoolType::DeviceLocal.required_flags(), VkMemoryPropertyFlags::DEVICE_LOCAL());
    assert!(PoolType::HostVisibleCoherent.should_map());
    assert!(!PoolType::DeviceLocal.should_map());
}

#[test]
fn test_pool_allocator_types() {
    let device_local = PoolType::DeviceLocal;
    assert!(device_local.required_flags().contains(VkMemoryPropertyFlags::DEVICE_LOCAL()));
    assert!(!device_local.should_map());

    let host_visible = PoolType::HostVisibleCoherent;
    assert!(host_visible.required_flags().contains(VkMemoryPropertyFlags::HOST_VISIBLE()));
    assert!(host_visible.should_map());
}

#[test]
fn test_slab_allocation() {
    let memory = VkDeviceMemory::from_raw(0x1234);
    let mut slab = MemorySlab::new(memory, 1024, None);

    let offset1 = slab.allocate(256, 16).unwrap();
    assert_eq!(offset1, 0);
    assert_eq!(slab.free_space(), 768);

    let offset2 = slab.allocate(256, 16).unwrap();
    assert_eq!(offset2, 256);
    assert_eq!(slab.free_space(), 512);

    assert!(slab.free(offset1));
    assert_eq!(slab.free_space(), 768);
}

#[test]
fn slab_refuses_what_does_not_fit_and_double_free() {
    let mut slab = MemorySlab::new(Handle::from_raw(1), 1024, None);
    assert_eq!(slab.allocate(2048, 1), None);
    assert_eq!(slab.free_space(), 1024);
    let off = slab.allocate(100, 64).unwrap();
    assert_eq!(off, 0);
    let off2 = slab.allocate(100, 64).unwrap();
    assert_eq!(off2, 128);
    assert!(slab.free(off));
    assert!(!slab.free(off));
    assert!(!slab.free(999));
    assert_eq!(slab.free_space(), 896);
}

#[test]
fn slab_reuses_a_released_gap() {
    let mut slab = MemorySlab::new(Handle::from_raw(1), 1024, None);
    let a = slab.allocate(256, 16).unwrap();
    let _b = slab.allocate(256, 16).unwrap();
    assert!(slab.free(a));
    // The gap before the second allocation is found again.
    assert_eq!(slab.allocate(256, 16), Some(0));
}

fn memory_properties() -> VkPhysicalDeviceMemoryProperties {
    let empty = VkMemoryType { propertyFlags: VkMemoryPropertyFlags::empty(), heapIndex: 0 };
    let mut types = [empty; 32];
    types[0] = VkMemoryType { propertyFlags: VkMemoryPropertyFlags::DEVICE_LOCAL(), heapIndex: 0 };
    types[1] = VkMemoryType {
        propertyFlags: VkMemoryPropertyFlags::HOST_VISIBLE() | VkMemoryPropertyFlags::HOST_COHERENT(),
        heapIndex: 1,
    };
    VkPhysicalDeviceMemoryProperties {
        memoryTypeCount: 2,
        memoryTypes: types,
        memoryHeapCount: 0,
        memoryHeaps: [VkMemoryHeap { size: 0, flags: 0 }; 16],
    }
}

#[test]
fn allocator_serves_records_and_frees() {
    let device: VkDevice = Handle::from_raw(0xd);
    let mut allocator = PoolAllocator::new();
    initialize_pools(&mut allocator, device, &memory_properties());

    let req = VkMemoryRequirements { size: 1000, alignment: 256, memoryTypeBits: 0x3 };
    // The cached pool has no memory type on this device.
    assert_eq!(
        slab_needed(&allocator, device, &req, PoolType::HostVisibleCached),
        Err(IcdError::InvalidOperation("Pool not initialized"))
    );
    let plan = slab_needed(&allocator, device, &req, PoolType::HostVisibleCoherent).unwrap().unwrap();
    assert_eq!(plan.memory_type_index, 1);
    assert_eq!(plan.allocation_size, SLAB_SIZE);
    assert!(plan.map);

    let slab = NewSlab { memory: Handle::from_raw(0x100), mapped: Some(0x10_0000) };
    let id = allocate_from_pool(&mut allocator, device, &req, PoolType::HostVisibleCoherent, Some(slab)).unwrap();
    assert_eq!(id, 1);
    let h = get_allocation(&allocator, id).unwrap();
    assert_eq!(h.memory().as_raw(), 0x100);
    assert_eq!(h.offset(), 0);
    assert_eq!(h.size(), 1000);
    assert_eq!(h.mapped_ptr(), Some(0x10_0000));

    // The second request fits in the same slab, after the first, aligned.
    assert_eq!(slab_needed(&allocator, device, &req, PoolType::HostVisibleCoherent).unwrap(), None);
    let id2 = allocate_from_pool(&mut allocator, device, &req, PoolType::HostVisibleCoherent, None).unwrap();
    assert_eq!(id2, 2);
    let h2 = get_allocation(&allocator, id2).unwrap();
    assert_eq!(h2.offset(), 1024);
    assert_eq!(h2.mapped_ptr(), Some(0x10_0000 + 1024));

    let stats = get_pool_stats(&allocator, device, PoolType::HostVisibleCoherent).unwrap();
    assert_eq!(stats, PoolStats { total_allocated: SLAB_SIZE, total_slabs: 1, allocations_in_flight: 2 });

    assert_eq!(free_allocation(&mut allocator, device, id), Ok(()));
    assert_eq!(get_allocation(&allocator, id).unwrap_err(), IcdError::InvalidOperation("Invalid allocation ID"));
    assert_eq!(free_allocation(&mut allocator, device, id), Err(IcdError::InvalidOperation("Invalid allocation ID")));
    let stats = get_pool_stats(&allocator, device, PoolType::HostVisibleCoherent).unwrap();
    assert_eq!(stats.allocations_in_flight, 1);
    assert_eq!(get_allocation(&allocator, id2).unwrap().offset(), 1024);
}

#[test]
fn device_local_slab_is_not_mapped_and_large_requests_get_their_own_size() {
    let device: VkDevice = Handle::from_raw(0xe);
    let mut allocator = PoolAllocator::new();
    initialize_pools(&mut allocator, device, &memory_properties());
    let req = VkMemoryRequirements { size: 1 << 29, alignment: 16, memoryTypeBits: 0x1 };
    let plan = slab_needed(&allocator, device, &req, PoolType::DeviceLocal).unwrap().unwrap();
    assert_eq!(plan.allocation_size, 1 << 29);
    assert!(!plan.map);
    let slab = NewSlab { memory: Handle::from_raw(5), mapped: Some(0x2000) };
    let id = allocate_from_pool(&mut allocator, device, &req, PoolType::DeviceLocal, Some(slab)).unwrap();
    assert_eq!(get_allocation(&allocator, id).unwrap().mapped_ptr(), None);
    let stats = get_pool_stats(&allocator, device, PoolType::DeviceLocal).unwrap();
    assert_eq!(stats.total_allocated, 1 << 29);
}

#[test]
fn unknown_device_has_no_pools() {
    let allocator = PoolAllocator::new();
    let device: VkDevice = Handle::from_raw(3);
    assert_eq!(get_pool_stats(&allocator, device, PoolType::DeviceLocal), Ok(PoolStats::default()));
}

#[test]
fn slab_reuses_a_freed_place() {
    let mut slab = MemorySlab::new(Handle::from_raw(7), 1024, None);
    assert_eq!(slab.allocate(100, 1), Some(0));
    let off = slab.allocate(300, 256).unwrap();
    assert_eq!(off, 256);
    // The 128-byte block of a 100-byte request fits in the gap before the second.
    assert_eq!(slab.allocate(100, 1), Some(128));
    assert!(slab.free(off));
    assert_eq!(slab.find_placement(300, 256), Some(off));
    assert_eq!(slab.allocate(300, 256), Some(off));
}

#[test]
fn slabs_are_256_mib() {
    assert_eq!(SLAB_SIZE, 256 * 1024 * 1024);
}

#[test]
fn requests_take_power_of_two_blocks() {
    assert_eq!(block_size(0), 1);
    assert_eq!(block_size(1), 1);
    assert_eq!(block_size(100), 128);
    assert_eq!(block_size(1000), 1024);
    assert_eq!(block_size(1024), 1024);
    assert_eq!(block_size(1025), 2048);
    let mut slab = MemorySlab::new(Handle::from_raw(2), 1024, None);
    assert_eq!(slab.allocate(100, 1), Some(0));
    assert_eq!(slab.free_space(), 896);
    assert_eq!(slab.allocate(600, 1), None);
    assert_eq!(slab.allocate(2000, 1), None);
}

#[test]
fn a_request_beyond_a_slab_gets_a_slab_of_its_block() {
    let device: VkDevice = Handle::from_raw(0xf);
    let mut allocator = PoolAllocator::new();
    initialize_pools(&mut allocator, device, &memory_properties());
    let req = VkMemoryRequirements { size: 300 * 1024 * 1024, alignment: 256, memoryTypeBits: 0x1 };
    let plan = slab_needed(&allocator, device, &req, PoolType::DeviceLocal).unwrap().unwrap();
    assert_eq!(plan.allocation_size, 512 * 1024 * 1024);
    let slab = NewSlab { memory: Handle::from_raw(6), mapped: None };
    let id = allocate_from_pool(&mut allocator, device, &req, PoolType::DeviceLocal, Some(slab)).unwrap();
    let h = get_allocation(&allocator, id).unwrap();
    assert_eq!(h.offset(), 0);
    assert_eq!(h.size(), 300 * 1024 * 1024);
}

#[test]
fn slab_size_can_be_set() {
    let device: VkDevice = Handle::from_raw(0x10);
    let mut allocator = PoolAllocator::new();
    assert_eq!(allocator.slab_size(), SLAB_SIZE);
    initialize_pools(&mut allocator, device, &memory_properties());
    assert_eq!(set_slab_size(&mut allocator, 512 * 1024 * 1024), Ok(()));
    assert_eq!(allocator.slab_size(), 512 * 1024 * 1024);
    let req = VkMemoryRequirements { size: 4096, alignment: 256, memoryTypeBits: 0x1 };
    let plan = slab_needed(&allocator, device, &req, PoolType::DeviceLocal).unwrap().unwrap();
    assert_eq!(plan.allocation_size, 512 * 1024 * 1024);
}

#[test]
fn a_reused_offset_never_overlaps_a_live_block() {
    let mut slab = MemorySlab::new(VkDeviceMemory::from_raw(0x1234), 1024, None);
    assert_eq!(slab.allocate(256, 16), Some(0));
    assert_eq!(slab.allocate(256, 16), Some(256));
    assert!(slab.free(0));
    assert_eq!(slab.allocate(128, 16), Some(0));
    // [0, 128) and [256, 512) are in use: the next block goes between them.
    assert_eq!(slab.allocate(100, 16), Some(128));
    assert_eq!(slab.free_space(), 512);
}

#[test]
fn a_live_block_at_a_reused_offset_can_be_freed() {
    let mut slab = MemorySlab::new(VkDeviceMemory::from_raw(0x1234), 1024, None);
    assert_eq!(slab.allocate(256, 16), Some(0));
    assert_eq!(slab.allocate(256, 16), Some(256));
    assert!(slab.free(0));
    assert_eq!(slab.allocate(256, 16), Some(0));
    assert!(slab.free(0));
    assert_eq!(slab.free_space(), 768);
    assert!(!slab.free(0));
}
