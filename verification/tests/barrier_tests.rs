use kronos_compute::barrier_policy::{BarrierConfig, BarrierTracker, BarrierType, GpuVendor, BarrierBatch};
use kronos_compute::flags::{VkAccessFlags, VkPipelineStageFlags};
use kronos_compute::sys::{Handle, VkBuffer, VkDeviceSize};
use std::sync::atomic::{AtomicU32, Ordering};

static BARRIERS: AtomicU32 = AtomicU32::new(0);

#[test]
fn barrier_policy_test_vendor_detection() {
    assert_eq!(GpuVendor::from_vendor_id(0x1002), GpuVendor::AMD);
    assert_eq!(GpuVendor::from_vendor_id(0x10DE), GpuVendor::NVIDIA);
    assert_eq!(GpuVendor::from_vendor_id(0x8086), GpuVendor::Intel);
    assert_eq!(GpuVendor::from_vendor_id(0x9999), GpuVendor::Other);
}

#[test]
fn test_barrier_config() {
    let config = BarrierConfig::optimal_for(GpuVendor::AMD, BarrierType::UploadToRead);
    assert_eq!(config.src_stage, VkPipelineStageFlags::HOST());
    assert_eq!(config.dst_stage, VkPipelineStageFlags::COMPUTE_SHADER());
    assert_eq!(config.src_access, VkAccessFlags::HOST_WRITE());
    assert_eq!(config.dst_access, VkAccessFlags::SHADER_READ());
}

#[test]
fn test_barrier_policy_vendor_detection() {
    assert_eq!(GpuVendor::from_vendor_id(0x1002), GpuVendor::AMD);
    assert_eq!(GpuVendor::from_vendor_id(0x10DE), GpuVendor::NVIDIA);
    assert_eq!(GpuVendor::from_vendor_id(0x8086), GpuVendor::Intel);
    assert_eq!(GpuVendor::from_vendor_id(0x1234), GpuVendor::Other);
}

#[test]
fn test_barrier_optimization_configs() {
    let config = BarrierConfig::optimal_for(GpuVendor::AMD, BarrierType::UploadToRead);
    assert_eq!(config.src_stage, VkPipelineStageFlags::HOST());
    assert_eq!(config.dst_stage, VkPipelineStageFlags::COMPUTE_SHADER());

    let config = BarrierConfig::optimal_for(GpuVendor::NVIDIA, BarrierType::WriteToRead);
    assert_eq!(config.src_access, VkAccessFlags::SHADER_WRITE());
    assert_eq!(config.dst_access, VkAccessFlags::SHADER_READ());
}

#[test]
fn test_barrier_reduction() {
    let vendor = GpuVendor::NVIDIA;
    let mut tracker = BarrierTracker::new(vendor);

    BARRIERS.store(0, Ordering::SeqCst);

    let buffer = VkBuffer::from_raw(0x1234);

    tracker.track_buffer_access(buffer, VkAccessFlags::TRANSFER_WRITE(), 0, VkDeviceSize::MAX);
    BARRIERS.fetch_add(1, Ordering::SeqCst);

    for _ in 0..10 {
        tracker.track_buffer_access(buffer, VkAccessFlags::SHADER_READ(), 0, VkDeviceSize::MAX);
    }

    tracker.track_buffer_access(buffer, VkAccessFlags::SHADER_WRITE(), 0, VkDeviceSize::MAX);
    BARRIERS.fetch_add(1, Ordering::SeqCst);

    for _ in 0..5 {
        tracker.track_buffer_access(buffer, VkAccessFlags::SHADER_WRITE(), 0, VkDeviceSize::MAX);
    }

    let total_dispatches = 16;
    let barriers = BARRIERS.load(Ordering::SeqCst);
    let barriers_per_dispatch = barriers as f32 / total_dispatches as f32;

    assert!(barriers_per_dispatch <= 0.5, "Expected ≤0.5 barriers per dispatch, got {}", barriers_per_dispatch);
}

#[test]
fn tracker_counts_kinds_and_elisions() {
    let mut tracker = BarrierTracker::new(GpuVendor::AMD);
    let buffer: VkBuffer = Handle::from_raw(7);
    // Nothing recorded yet and a host write: a change of access, conservatively write-to-read.
    assert!(tracker.track_buffer_access(buffer, VkAccessFlags::HOST_WRITE(), 0, 64));
    // Host write, then shader read: an upload barrier.
    assert!(tracker.track_buffer_access(buffer, VkAccessFlags::SHADER_READ(), 0, 64));
    // The same read again: elided.
    assert!(!tracker.track_buffer_access(buffer, VkAccessFlags::SHADER_READ(), 0, 64));
    // Read, then write.
    assert!(tracker.track_buffer_access(buffer, VkAccessFlags::SHADER_WRITE(), 0, 64));
    // Write, then read.
    assert!(tracker.track_buffer_access(buffer, VkAccessFlags::SHADER_READ(), 0, 64));
    let s = *tracker.stats();
    assert_eq!(s.total_barriers, 4);
    assert_eq!(s.elided_barriers, 1);
    assert_eq!(s.upload_barriers, 1);
    assert_eq!(s.read_write_barriers, 1);
    assert_eq!(s.write_read_barriers, 2);
    assert_eq!(s.total_barriers, s.upload_barriers + s.read_write_barriers + s.write_read_barriers);
}

#[test]
fn empty_access_on_new_buffer_is_elided() {
    let mut tracker = BarrierTracker::new(GpuVendor::Intel);
    let buffer: VkBuffer = Handle::from_raw(1);
    assert!(!tracker.track_buffer_access(buffer, VkAccessFlags::empty(), 0, 4));
    assert!(tracker.flush_barriers().is_none());
}

#[test]
fn flush_submits_pending_as_dominant_kind_and_clears() {
    let mut tracker = BarrierTracker::new(GpuVendor::NVIDIA);
    let a: VkBuffer = Handle::from_raw(1);
    let b: VkBuffer = Handle::from_raw(2);
    tracker.track_buffer_access(a, VkAccessFlags::SHADER_READ(), 0, 16);
    tracker.track_buffer_access(a, VkAccessFlags::SHADER_WRITE(), 0, 16);
    tracker.track_buffer_access(b, VkAccessFlags::SHADER_WRITE(), 8, 32);
    let flushed = tracker.flush_barriers().expect("pending barriers");
    assert_eq!(flushed.buffer_barriers.len(), 3);
    assert_eq!(flushed.buffer_barriers[2].buffer, b);
    assert_eq!(flushed.buffer_barriers[2].offset, 8);
    assert_eq!(flushed.buffer_barriers[2].size, 32);
    // No uploads; write-to-read (2: the first two accesses of fresh buffers) outnumber read-to-write (1).
    assert_eq!(flushed.config.src_access, VkAccessFlags::SHADER_WRITE());
    assert_eq!(flushed.config.dst_access, VkAccessFlags::SHADER_READ());
    assert!(tracker.flush_barriers().is_none());
}

#[test]
fn batch_submission_needs_barriers() {
    let mut batch = BarrierBatch::new(GpuVendor::Other);
    assert!(batch.submission(BarrierType::ReadToWrite).is_none());
    batch.add_memory_barrier(BarrierType::ReadToWrite);
    let config = batch.submission(BarrierType::ReadToWrite).expect("one barrier");
    assert_eq!(config.src_access, VkAccessFlags::SHADER_READ());
    assert_eq!(config.dst_access, VkAccessFlags::SHADER_WRITE());
    assert_eq!(batch.memory_barriers().len(), 1);
    batch.clear();
    assert!(batch.submission(BarrierType::ReadToWrite).is_none());
}

#[test]
fn repeated_access_on_a_hazard_still_needs_a_barrier() {
    let mut tracker = BarrierTracker::new(GpuVendor::NVIDIA);
    let buffer: VkBuffer = Handle::from_raw(3);
    let read_write = VkAccessFlags::SHADER_READ() | VkAccessFlags::SHADER_WRITE();
    assert!(tracker.track_buffer_access(buffer, read_write, 0, 16));
    // The same access again: a shader read followed by a shader write.
    assert!(tracker.track_buffer_access(buffer, read_write, 0, 16));
    let s = *tracker.stats();
    assert_eq!(s.total_barriers, 2);
    assert_eq!(s.elided_barriers, 0);
    assert_eq!(s.read_write_barriers, 1);
    assert_eq!(s.write_read_barriers, 1);
}
