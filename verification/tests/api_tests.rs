use kronos_compute::api::{
    check_entry_point, check_pipeline_config, check_spirv, decimal_text, find_compute_queue_family,
    find_memory_type, pick_compute_device, plan_dispatch, read_element_count, application_name,
    BoundBuffer, BufferBinding, BufferUsage, ContextBuilder, ContextConfig, DeviceCandidate,
    DispatchTarget, KronosError, PipelineConfig, buffer_memory_properties, fence_signaled,
    fence_wait_result,
};
use kronos_compute::enums::{VkDescriptorType, VkPhysicalDeviceType, VkResult};
use kronos_compute::error::IcdError;
use kronos_compute::flags::{VkAccessFlags, VkMemoryPropertyFlags, VkQueueFlags};
use kronos_compute::structs::{
    VkExtent3D, VkMemoryHeap, VkMemoryType, VkPhysicalDeviceMemoryProperties, VkQueueFamilyProperties,
};
use kronos_compute::sys::Handle;

#[test]
fn test_buffer_usage_creation() {
    let storage = BufferUsage::storage();
    let transfer_src = BufferUsage::transfer_src();
    let transfer_dst = BufferUsage::transfer_dst();

    let _combined = storage | transfer_src;
    let _ = transfer_dst;
}

#[test]
fn test_context_config() {
    let config = ContextConfig {
        app_name: "Test App".to_string(),
        enable_validation: true,
        preferred_vendor: None,
    };

    assert_eq!(config.app_name, "Test App");
    assert!(config.enable_validation);
}

#[test]
fn tests_test_builder_pattern() {
    let builder = ContextBuilder::new().app_name("Test App").enable_validation();

    assert_eq!(builder.config().app_name, "Test App");
    assert!(builder.config().enable_validation);
}

#[test]
fn test_error_conversions() {
    let vk_error = VkResult::ErrorOutOfHostMemory;
    let kronos_error = KronosError::from(vk_error);

    match kronos_error {
        KronosError::VulkanError(e) => assert_eq!(e, VkResult::ErrorOutOfHostMemory),
        _ => panic!("Wrong error type"),
    }

    let icd_error = IcdError::NoIcdLoaded;
    let kronos_error = KronosError::from(icd_error);

    match kronos_error {
        KronosError::ImplementationError(_) => (),
        _ => panic!("Wrong error type"),
    }
}

#[test]
fn test_context_builder_chain() {
    let builder = ContextBuilder::new().app_name("MyApp").enable_validation().prefer_vendor("AMD");

    assert_eq!(builder.config().app_name, "MyApp");
    assert!(builder.config().enable_validation);
    assert_eq!(builder.config().preferred_vendor, Some("AMD".to_string()));
}

#[test]
fn unified_api_test_test_builder_pattern() {
    let _builder = ContextBuilder::new().app_name("My App").enable_validation().prefer_vendor("AMD");
}

#[test]
fn unified_api_test_test_error_types() {
    let _err1 = KronosError::InitializationFailed("test".to_string());
    let _err2 = KronosError::DeviceNotFound;
    let _err3 = KronosError::ShaderCompilationFailed("test".to_string());
    let _err4 = KronosError::BufferCreationFailed("test".to_string());
    let _err5 = KronosError::CommandExecutionFailed("test".to_string());
    let _err6 = KronosError::SynchronizationError("test".to_string());
}

#[test]
fn usage_union_and_memory_choice() {
    let staging = BufferUsage::transfer_src();
    let device = BufferUsage::storage() | BufferUsage::transfer_dst();
    assert_eq!(device.flags().bits(), 0x22);
    assert_eq!(
        buffer_memory_properties(staging),
        VkMemoryPropertyFlags::HOST_VISIBLE() | VkMemoryPropertyFlags::HOST_COHERENT()
    );
    assert_eq!(buffer_memory_properties(device), VkMemoryPropertyFlags::DEVICE_LOCAL());
}

#[test]
fn pipeline_config_defaults_and_limits() {
    let config = PipelineConfig::default();
    assert_eq!(config.entry_point, "main");
    assert_eq!(config.local_size, (64, 1, 1));
    assert!(config.bindings.is_empty());
    assert_eq!(config.push_constant_size, 0);
    assert_eq!(check_pipeline_config(&config), Ok(()));
    let big = PipelineConfig { entry_point: "main".to_string(), local_size: (64, 1, 1), bindings: vec![BufferBinding::default()], push_constant_size: 200 };
    assert_eq!(
        check_pipeline_config(&big),
        Err(KronosError::ShaderCompilationFailed("Push constant size 200 exceeds maximum 128 bytes".to_string()))
    );
    let b = BufferBinding::default();
    assert_eq!(b.binding, 0);
    assert_eq!(b.descriptor_type, VkDescriptorType::StorageBuffer);
}

#[test]
fn shader_checks() {
    assert_eq!(check_spirv(8), Ok(()));
    assert_eq!(check_spirv(6), Err(KronosError::ShaderCompilationFailed("SPIR-V data must be 4-byte aligned".to_string())));
    assert_eq!(check_entry_point("main"), Ok(()));
    assert_eq!(check_entry_point("ma\0in"), Err(KronosError::ShaderCompilationFailed("Invalid entry point name".to_string())));
    assert_eq!(application_name("App"), "App");
    assert_eq!(application_name("A\0pp"), "Kronos App");
}

#[test]
fn decimal_text_writes_numbers() {
    assert_eq!(decimal_text(0), "0");
    assert_eq!(decimal_text(7), "7");
    assert_eq!(decimal_text(1024), "1024");
    assert_eq!(decimal_text(u64::MAX), u64::MAX.to_string());
}

#[test]
fn read_counts_whole_elements() {
    assert_eq!(read_element_count(16, 4), Ok(4));
    assert_eq!(
        read_element_count(10, 4),
        Err(KronosError::BufferCreationFailed("Buffer size 10 is not a multiple of element size 4".to_string()))
    );
}

fn family(flags: VkQueueFlags) -> VkQueueFamilyProperties {
    VkQueueFamilyProperties {
        queueFlags: flags,
        queueCount: 1,
        timestampValidBits: 0,
        minImageTransferGranularity: VkExtent3D { width: 0, height: 0, depth: 0 },
    }
}

#[test]
fn compute_family_and_device_choice() {
    let families = vec![family(VkQueueFlags::TRANSFER()), family(VkQueueFlags::COMPUTE() | VkQueueFlags::TRANSFER())];
    assert_eq!(find_compute_queue_family(&families), Some(1));
    assert_eq!(find_compute_queue_family(&vec![family(VkQueueFlags::TRANSFER())]), None);

    let cands = vec![
        DeviceCandidate { device: Handle::from_raw(1), queue_family_index: 0, device_type: VkPhysicalDeviceType::Cpu },
        DeviceCandidate { device: Handle::from_raw(2), queue_family_index: 1, device_type: VkPhysicalDeviceType::IntegratedGpu },
        DeviceCandidate { device: Handle::from_raw(3), queue_family_index: 2, device_type: VkPhysicalDeviceType::DiscreteGpu },
        DeviceCandidate { device: Handle::from_raw(4), queue_family_index: 3, device_type: VkPhysicalDeviceType::DiscreteGpu },
    ];
    assert_eq!(pick_compute_device(&cands), Ok((Handle::from_raw(3), 2)));
    assert_eq!(pick_compute_device(&vec![]), Err(KronosError::DeviceNotFound));
}

#[test]
fn memory_type_respects_filter_and_flags() {
    let empty = VkMemoryType { propertyFlags: VkMemoryPropertyFlags::empty(), heapIndex: 0 };
    let mut types = [empty; 32];
    types[0] = VkMemoryType { propertyFlags: VkMemoryPropertyFlags::DEVICE_LOCAL(), heapIndex: 0 };
    types[1] = VkMemoryType { propertyFlags: VkMemoryPropertyFlags::DEVICE_LOCAL(), heapIndex: 0 };
    let props = VkPhysicalDeviceMemoryProperties {
        memoryTypeCount: 2,
        memoryTypes: types,
        memoryHeapCount: 0,
        memoryHeaps: [VkMemoryHeap { size: 0, flags: 0 }; 16],
    };
    assert_eq!(find_memory_type(&props, 0x2, VkMemoryPropertyFlags::DEVICE_LOCAL()), Ok(1));
    assert_eq!(
        find_memory_type(&props, 0x3, VkMemoryPropertyFlags::HOST_VISIBLE()),
        Err(KronosError::BufferCreationFailed("No suitable memory type found".to_string()))
    );
}

fn target() -> DispatchTarget {
    DispatchTarget {
        device: Handle::from_raw(1),
        command_pool: Handle::from_raw(2),
        queue: Handle::from_raw(3),
        descriptor_pool: Handle::from_raw(4),
        pipeline: Handle::from_raw(5),
        layout: Handle::from_raw(6),
        descriptor_set_layout: Handle::from_raw(7),
    }
}

#[test]
fn dispatch_plans_and_refusals() {
    let bindings = vec![
        BoundBuffer { binding: 0, buffer: Handle::from_raw(10), size: 64 },
        BoundBuffer { binding: 1, buffer: Handle::from_raw(11), size: 128 },
    ];
    let plan = plan_dispatch(&target(), &bindings).unwrap();
    assert!(plan.use_persistent_descriptors);
    assert_eq!(plan.barriers.len(), 2);
    assert_eq!(plan.barriers[1].size, 128);
    assert_eq!(plan.barriers[0].srcAccessMask, VkAccessFlags::TRANSFER_WRITE());
    assert_eq!(plan.barriers[0].dstAccessMask, VkAccessFlags::SHADER_READ() | VkAccessFlags::SHADER_WRITE());
    assert_eq!(plan.descriptor_writes[1].0, 1);
    assert_eq!(plan.descriptor_writes[1].1.range, 128);

    let shuffled = vec![BoundBuffer { binding: 1, buffer: Handle::from_raw(10), size: 64 }];
    assert!(!plan_dispatch(&target(), &shuffled).unwrap().use_persistent_descriptors);
    assert!(!plan_dispatch(&target(), &vec![]).unwrap().use_persistent_descriptors);

    let with_null = vec![
        BoundBuffer { binding: 0, buffer: Handle::from_raw(10), size: 64 },
        BoundBuffer { binding: 1, buffer: Handle::NULL(), size: 64 },
    ];
    assert_eq!(
        plan_dispatch(&target(), &with_null).err(),
        Some(KronosError::CommandExecutionFailed("Binding 1 has a NULL Vulkan buffer".to_string()))
    );
    let mut t = target();
    t.queue = Handle::NULL();
    assert_eq!(
        plan_dispatch(&t, &bindings).err(),
        Some(KronosError::CommandExecutionFailed("Compute context has no valid compute queue".to_string()))
    );
    let mut t = target();
    t.descriptor_set_layout = Handle::NULL();
    assert!(plan_dispatch(&t, &vec![]).is_ok());
    assert_eq!(
        plan_dispatch(&t, &bindings).err(),
        Some(KronosError::CommandExecutionFailed("Buffer bindings require a valid descriptor set layout".to_string()))
    );
}

#[test]
fn test_fence_wait_outcomes() {
    assert!(fence_wait_result(VkResult::Success).is_ok());
    match fence_wait_result(VkResult::Timeout) {
        Err(KronosError::SynchronizationError(m)) => assert_eq!(m, "Timeout waiting for fence"),
        _ => panic!("a timeout is a synchronization error"),
    }
    match fence_wait_result(VkResult::ErrorDeviceLost) {
        Err(KronosError::VulkanError(r)) => assert_eq!(r, VkResult::ErrorDeviceLost),
        _ => panic!("other results are passed on"),
    }
}

#[test]
fn test_fence_status_outcomes() {
    assert_eq!(fence_signaled(VkResult::Success).ok(), Some(true));
    assert_eq!(fence_signaled(VkResult::NotReady).ok(), Some(false));
    match fence_signaled(VkResult::ErrorDeviceLost) {
        Err(KronosError::VulkanError(r)) => assert_eq!(r, VkResult::ErrorDeviceLost),
        _ => panic!("other results are passed on"),
    }
}

#[test]
fn usage_union_is_the_union_of_flags() {
    let a = BufferUsage::storage();
    let b = BufferUsage::transfer_src();
    assert_eq!((a | b).flags().bits(), 0x21);
    assert_eq!((a | b).flags(), (b | a).flags());
    assert_eq!((a | a).flags(), a.flags());
}
