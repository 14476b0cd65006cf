use kronos_compute::enums::{VkPhysicalDeviceType, VkResult};

#[test]
fn test_result_codes_round_trip() {
    let all = [
        VkResult::Success,
        VkResult::NotReady,
        VkResult::Timeout,
        VkResult::EventSet,
        VkResult::EventReset,
        VkResult::Incomplete,
        VkResult::ErrorOutOfHostMemory,
        VkResult::ErrorOutOfDeviceMemory,
        VkResult::ErrorInitializationFailed,
        VkResult::ErrorDeviceLost,
        VkResult::ErrorMemoryMapFailed,
        VkResult::ErrorLayerNotPresent,
        VkResult::ErrorExtensionNotPresent,
        VkResult::ErrorFeatureNotPresent,
        VkResult::ErrorIncompatibleDriver,
        VkResult::ErrorTooManyObjects,
        VkResult::ErrorFormatNotSupported,
        VkResult::ErrorFragmentedPool,
        VkResult::ErrorUnknown,
        VkResult::ErrorOutOfPoolMemory,
    ];
    for r in all {
        assert_eq!(VkResult::from_value(r.value()), Some(r));
    }
    assert_eq!(VkResult::ErrorOutOfPoolMemory.value(), -1000069000);
    assert_eq!(VkResult::from_value(-14), None);
    assert_eq!(VkResult::from_value(6), None);
}

#[test]
fn test_device_type_codes() {
    assert_eq!(VkPhysicalDeviceType::from_value(2), Some(VkPhysicalDeviceType::DiscreteGpu));
    assert_eq!(VkPhysicalDeviceType::from_value(4), Some(VkPhysicalDeviceType::Cpu));
    assert_eq!(VkPhysicalDeviceType::from_value(5), None);
    assert_eq!(VkPhysicalDeviceType::VirtualGpu.value(), 3);
}
