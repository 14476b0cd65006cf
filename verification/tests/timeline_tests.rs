use kronos_compute::enums::VkResult;
use kronos_compute::error::IcdError;
use kronos_compute::flags::VkPipelineStageFlags;
use kronos_compute::timeline_batching::{
    add_to_batch, begin_batch, finish_submit, get_queue_timeline, set_batch_size, submit_batch,
    timeline_semaphore, wait_outcome, BatchBuilder, BatchSubmission, TimelineManager,
};
use kronos_compute::sys::{Handle, VkCommandBuffer, VkQueue, VkSemaphore};

#[test]
fn test_batch_builder() {
    let queue = VkQueue::from_raw(0x1234);
    let cb1 = VkCommandBuffer::from_raw(0x5678);
    let cb2 = VkCommandBuffer::from_raw(0x9ABC);

    let builder = BatchBuilder::new(queue).add_command_buffer(cb1).add_command_buffer(cb2);

    assert_eq!(builder.command_buffers().len(), 2);
}

#[test]
fn test_timeline_batching_batch_builder() {
    let queue = VkQueue::from_raw(0x1234);
    let cb1 = VkCommandBuffer::from_raw(0x5678);
    let cb2 = VkCommandBuffer::from_raw(0x9ABC);

    let builder = BatchBuilder::new(queue).add_command_buffer(cb1).add_command_buffer(cb2);

    assert_eq!(builder.command_buffers().len(), 2);
}

#[test]
fn batch_submission_collects_buffers_and_waits() {
    let mut batch = BatchSubmission::new();
    batch.add_command_buffer(Handle::from_raw(1));
    batch.add_wait(Handle::from_raw(9), 42, VkPipelineStageFlags::COMPUTE_SHADER());
    assert_eq!(batch.command_buffers().len(), 1);
    assert_eq!(batch.wait_semaphores()[0].as_raw(), 9);
    assert_eq!(batch.wait_values()[0], 42);
    assert_eq!(batch.wait_stages()[0], VkPipelineStageFlags::COMPUTE_SHADER());
}

#[test]
fn batches_fill_up_and_submit_at_the_next_timeline_value() {
    let mut manager = TimelineManager::new();
    let queue: VkQueue = Handle::from_raw(0x10);
    let sem: VkSemaphore = Handle::from_raw(0x20);

    assert_eq!(add_to_batch(&mut manager, queue, Handle::from_raw(1)), Err(IcdError::InvalidOperation("No active batch")));
    assert_eq!(get_queue_timeline(&mut manager, queue, Some(sem)), Ok((sem, 0)));
    assert_eq!(set_batch_size(&mut manager, 2), Ok(()));
    assert_eq!(begin_batch(&mut manager, queue), Ok(()));
    assert_eq!(add_to_batch(&mut manager, queue, Handle::from_raw(1)), Ok(false));
    assert_eq!(add_to_batch(&mut manager, queue, Handle::from_raw(2)), Ok(true));
    assert_eq!(manager.timeline(queue).unwrap().pending_count(), 2);

    let plan = submit_batch(&mut manager, queue).unwrap().unwrap();
    assert_eq!(plan.signal_value, 1);
    assert_eq!(plan.signal_semaphore, sem);
    assert_eq!(plan.batch.command_buffers().len(), 2);
    assert!(!manager.has_batch(queue));
    finish_submit(&mut manager, queue);
    assert_eq!(manager.timeline(queue).unwrap().pending_count(), 0);
    assert_eq!(manager.timeline(queue).unwrap().current_value(), 1);

    // The timeline keeps its semaphore; the next batch signals value 2.
    assert_eq!(get_queue_timeline(&mut manager, queue, None), Ok((sem, 1)));
    let builder = BatchBuilder::new(queue).add_command_buffer(Handle::from_raw(3));
    let plan = builder.submit(&mut manager).unwrap().unwrap();
    assert_eq!(plan.signal_value, 2);
}

#[test]
fn empty_or_unknown_batches() {
    let mut manager = TimelineManager::new();
    let queue: VkQueue = Handle::from_raw(0x11);
    assert!(submit_batch(&mut manager, queue).is_err());
    begin_batch(&mut manager, queue).unwrap();
    assert!(submit_batch(&mut manager, queue).unwrap().is_none());
    begin_batch(&mut manager, queue).unwrap();
    add_to_batch(&mut manager, queue, Handle::from_raw(1)).unwrap();
    // No timeline for the queue: the batch is dropped with an error.
    assert_eq!(
        submit_batch(&mut manager, queue).err(),
        Some(IcdError::InvalidOperation("No timeline for queue"))
    );
    assert!(!manager.has_batch(queue));
    assert_eq!(timeline_semaphore(&manager, queue), Err(IcdError::InvalidOperation("No timeline for queue")));
}

#[test]
fn waits_tolerate_timeouts() {
    assert_eq!(wait_outcome(VkResult::Success), Ok(()));
    assert_eq!(wait_outcome(VkResult::Timeout), Ok(()));
    assert_eq!(wait_outcome(VkResult::ErrorDeviceLost), Err(IcdError::VulkanError(VkResult::ErrorDeviceLost)));
}

#[test]
fn beginning_again_keeps_the_open_batch() {
    let mut manager = TimelineManager::new();
    let queue: VkQueue = Handle::from_raw(0x12);
    assert_eq!(set_batch_size(&mut manager, 3), Ok(()));
    assert_eq!(begin_batch(&mut manager, queue), Ok(()));
    assert_eq!(add_to_batch(&mut manager, queue, Handle::from_raw(1)), Ok(false));
    assert_eq!(add_to_batch(&mut manager, queue, Handle::from_raw(2)), Ok(false));
    assert_eq!(begin_batch(&mut manager, queue), Ok(()));
    assert_eq!(add_to_batch(&mut manager, queue, Handle::from_raw(3)), Ok(true));
    let plan_buffers: Vec<u64> = {
        let sem: VkSemaphore = Handle::from_raw(0x21);
        get_queue_timeline(&mut manager, queue, Some(sem)).unwrap();
        let plan = submit_batch(&mut manager, queue).unwrap().unwrap();
        plan.batch.command_buffers().iter().map(|c| c.as_raw()).collect()
    };
    assert_eq!(plan_buffers, vec![1, 2, 3]);
}
