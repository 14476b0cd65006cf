//! Timeline semaphore batching.
//!
//! Each queue has one timeline semaphore. Command buffers are gathered into a
//! batch per queue and submitted together, signalling the queue's timeline at
//! the next value. The decisions live here; the driver calls (creating the
//! semaphore, submitting, waiting) are made by the caller with what these
//! functions hand back.

use crate::enums::VkResult;
use crate::error::IcdError;
use crate::flags::VkPipelineStageFlags;
use crate::sys::{VkCommandBuffer, VkQueue, VkSemaphore};
use std::collections::HashMap;
use vstd::prelude::*;

verus! {

broadcast use vstd::std_specs::hash::group_hash_axioms;

/// Batch size threshold a new manager starts with.
pub const DEFAULT_BATCH_SIZE: u32 = 16;

/// The timeline of one queue.
#[derive(Debug, Clone, Copy)]
pub struct TimelineState {
    semaphore: VkSemaphore,
    current_value: u64,
    pending_count: u32,
}

impl TimelineState {
    pub closed spec fn spec_semaphore(self) -> VkSemaphore {
        self.semaphore
    }

    pub closed spec fn spec_current_value(self) -> u64 {
        self.current_value
    }

    pub closed spec fn spec_pending_count(self) -> u32 {
        self.pending_count
    }

    /// The queue's timeline semaphore.
    pub fn semaphore(&self) -> (s: VkSemaphore)
        ensures
            s == self.spec_semaphore(),
    {
        self.semaphore
    }

    /// The value the last submitted batch signals (0 before any).
    pub fn current_value(&self) -> (v: u64)
        ensures
            v == self.spec_current_value(),
    {
        self.current_value
    }

    /// Command buffers added since the last successful submission.
    pub fn pending_count(&self) -> (n: u32)
        ensures
            n == self.spec_pending_count(),
    {
        self.pending_count
    }
}

/// The command buffers and cross-queue waits gathered for one submission.
pub struct BatchSubmission {
    command_buffers: Vec<VkCommandBuffer>,
    wait_semaphores: Vec<VkSemaphore>,
    wait_values: Vec<u64>,
    wait_stages: Vec<VkPipelineStageFlags>,
    signal_value: u64,
}

impl BatchSubmission {
    pub closed spec fn spec_command_buffers(self) -> Seq<VkCommandBuffer> {
        self.command_buffers@
    }

    pub closed spec fn spec_wait_semaphores(self) -> Seq<VkSemaphore> {
        self.wait_semaphores@
    }

    pub closed spec fn spec_wait_values(self) -> Seq<u64> {
        self.wait_values@
    }

    pub closed spec fn spec_wait_stages(self) -> Seq<VkPipelineStageFlags> {
        self.wait_stages@
    }

    pub closed spec fn spec_signal_value(self) -> u64 {
        self.signal_value
    }

    /// An empty batch.
    pub fn new() -> (b: Self)
        ensures
            b.spec_command_buffers() == Seq::<VkCommandBuffer>::empty(),
            b.spec_wait_semaphores() == Seq::<VkSemaphore>::empty(),
            b.spec_wait_values() == Seq::<u64>::empty(),
            b.spec_wait_stages() == Seq::<VkPipelineStageFlags>::empty(),
            b.spec_signal_value() == 0,
    {
        BatchSubmission {
            command_buffers: Vec::with_capacity(256),
            wait_semaphores: Vec::new(),
            wait_values: Vec::new(),
            wait_stages: Vec::new(),
            signal_value: 0,
        }
    }

    /// Appends a command buffer to the batch.
    pub fn add_command_buffer(&mut self, cb: VkCommandBuffer)
        ensures
            final(self).spec_command_buffers() == old(self).spec_command_buffers().push(cb),
            final(self).spec_wait_semaphores() == old(self).spec_wait_semaphores(),
            final(self).spec_wait_values() == old(self).spec_wait_values(),
            final(self).spec_wait_stages() == old(self).spec_wait_stages(),
            final(self).spec_signal_value() == old(self).spec_signal_value(),
    {
        self.command_buffers.push(cb);
    }

    /// Adds a wait on `semaphore` reaching `value` before `stage`.
    pub fn add_wait(&mut self, semaphore: VkSemaphore, value: u64, stage: VkPipelineStageFlags)
        ensures
            final(self).spec_command_buffers() == old(self).spec_command_buffers(),
            final(self).spec_wait_semaphores() == old(self).spec_wait_semaphores().push(semaphore),
            final(self).spec_wait_values() == old(self).spec_wait_values().push(value),
            final(self).spec_wait_stages() == old(self).spec_wait_stages().push(stage),
            final(self).spec_signal_value() == old(self).spec_signal_value(),
    {
        self.wait_semaphores.push(semaphore);
        self.wait_values.push(value);
        self.wait_stages.push(stage);
    }

    /// The command buffers, in the order they were added.
    pub fn command_buffers(&self) -> (v: &Vec<VkCommandBuffer>)
        ensures
            v@ == self.spec_command_buffers(),
    {
        &self.command_buffers
    }

    /// The semaphores waited on.
    pub fn wait_semaphores(&self) -> (v: &Vec<VkSemaphore>)
        ensures
            v@ == self.spec_wait_semaphores(),
    {
        &self.wait_semaphores
    }

    /// The values waited for, one per wait semaphore.
    pub fn wait_values(&self) -> (v: &Vec<u64>)
        ensures
            v@ == self.spec_wait_values(),
    {
        &self.wait_values
    }

    /// The stages that wait, one per wait semaphore.
    pub fn wait_stages(&self) -> (v: &Vec<VkPipelineStageFlags>)
        ensures
            v@ == self.spec_wait_stages(),
    {
        &self.wait_stages
    }
}

/// A batch ready for the driver: its command buffers and waits, the queue's timeline
/// semaphore and the value the submission signals.
pub struct SubmitPlan {
    pub batch: BatchSubmission,
    pub signal_semaphore: VkSemaphore,
    pub signal_value: u64,
}

/// Timelines and open batches of all queues, keyed by the queue handle's raw value.
pub struct TimelineManager {
    timelines: HashMap<u64, TimelineState>,
    batches: HashMap<u64, BatchSubmission>,
    batch_size: u32,
}

impl TimelineManager {
    pub closed spec fn spec_timelines(self) -> Map<u64, TimelineState> {
        self.timelines@
    }

    pub closed spec fn spec_batches(self) -> Map<u64, BatchSubmission> {
        self.batches@
    }

    pub closed spec fn spec_batch_size(self) -> u32 {
        self.batch_size
    }

    /// No timelines, no batches, and the default batch size.
    pub fn new() -> (m: Self)
        ensures
            m.spec_timelines() == Map::<u64, TimelineState>::empty(),
            m.spec_batches() == Map::<u64, BatchSubmission>::empty(),
            m.spec_batch_size() == DEFAULT_BATCH_SIZE,
    {
        TimelineManager { timelines: HashMap::new(), batches: HashMap::new(), batch_size: DEFAULT_BATCH_SIZE }
    }

    /// The batch size threshold.
    pub fn batch_size(&self) -> (n: u32)
        ensures
            n == self.spec_batch_size(),
    {
        self.batch_size
    }

    /// The timeline of `queue`, if it has one.
    pub fn timeline(&self, queue: VkQueue) -> (r: Option<TimelineState>)
        ensures
            r == (if self.spec_timelines().contains_key(queue.raw_value()) {
                Some(self.spec_timelines()[queue.raw_value()])
            } else {
                None
            }),
    {
        match self.timelines.get(&queue.as_raw()) {
            Some(t) => Some(*t),
            None => None,
        }
    }

    /// Whether `queue` has an open batch.
    pub fn has_batch(&self, queue: VkQueue) -> (b: bool)
        ensures
            b == self.spec_batches().contains_key(queue.raw_value()),
    {
        self.batches.contains_key(&queue.as_raw())
    }
}

/// The timeline of `queue`: its semaphore and current value. A queue without one gets
/// a timeline on `created`, the semaphore the driver made for it, starting at 0.
pub fn get_queue_timeline(
    manager: &mut TimelineManager,
    queue: VkQueue,
    created: Option<VkSemaphore>,
) -> (r: Result<(VkSemaphore, u64), IcdError>)
    requires
        !old(manager).spec_timelines().contains_key(queue.raw_value()) ==> created is Some,
    ensures
        final(manager).spec_batches() == old(manager).spec_batches(),
        final(manager).spec_batch_size() == old(manager).spec_batch_size(),
        ({
            let key = queue.raw_value();
            if old(manager).spec_timelines().contains_key(key) {
                let t = old(manager).spec_timelines()[key];
                &&& r == Ok::<(VkSemaphore, u64), IcdError>((t.spec_semaphore(), t.spec_current_value()))
                &&& final(manager).spec_timelines() == old(manager).spec_timelines()
            } else {
                let s = final(manager).spec_timelines()[key];
                &&& r == Ok::<(VkSemaphore, u64), IcdError>((created->0, 0u64))
                &&& final(manager).spec_timelines() == old(manager).spec_timelines().insert(key, s)
                &&& s.spec_semaphore() == created->0
                &&& s.spec_current_value() == 0
                &&& s.spec_pending_count() == 0
            }
        }),
{
    let key = queue.as_raw();
    match manager.timelines.get(&key) {
        Some(state) => Ok((state.semaphore, state.current_value)),
        None => {
            let semaphore = created.unwrap();
            let state = TimelineState { semaphore, current_value: 0, pending_count: 0 };
            manager.timelines.insert(key, state);
            Ok((semaphore, 0))
        },
    }
}

/// `after` is `before` once a batch was begun for `queue`: an open batch stays as it
/// was; otherwise an empty one is opened. Timelines and batch size are unchanged.
pub open spec fn batch_begun(before: TimelineManager, after: TimelineManager, queue: VkQueue) -> bool {
    &&& after.spec_timelines() == before.spec_timelines()
    &&& after.spec_batch_size() == before.spec_batch_size()
    &&& ({
        let key = queue.raw_value();
        &&& after.spec_batches().contains_key(key)
        &&& before.spec_batches().contains_key(key) ==> after.spec_batches()
            == before.spec_batches()
        &&& !before.spec_batches().contains_key(key) ==> {
            let b = after.spec_batches()[key];
            &&& after.spec_batches() == before.spec_batches().insert(key, b)
            &&& b.spec_command_buffers() == Seq::<VkCommandBuffer>::empty()
            &&& b.spec_wait_semaphores() == Seq::<VkSemaphore>::empty()
            &&& b.spec_wait_values() == Seq::<u64>::empty()
            &&& b.spec_wait_stages() == Seq::<VkPipelineStageFlags>::empty()
        }
    })
}

/// Opens a batch for `queue` unless one is open already.
pub fn begin_batch(manager: &mut TimelineManager, queue: VkQueue) -> (r: Result<(), IcdError>)
    ensures
        r is Ok,
        batch_begun(*old(manager), *final(manager), queue),
{
    let key = queue.as_raw();
    if !manager.batches.contains_key(&key) {
        manager.batches.insert(key, BatchSubmission::new());
    }
    Ok(())
}

/// `after` is `before` once `command_buffer` was added to the batch of `queue`, `r`
/// the answer: with no open batch, the error and nothing changed; else the buffer is
/// appended, the queue's timeline (if any) counts one more pending buffer, and `r`
/// tells whether the batch has reached the batch size.
pub open spec fn batch_added(
    before: TimelineManager,
    after: TimelineManager,
    queue: VkQueue,
    command_buffer: VkCommandBuffer,
    r: Result<bool, IcdError>,
) -> bool {
    &&& after.spec_batch_size() == before.spec_batch_size()
    &&& ({
        let key = queue.raw_value();
        let batches = before.spec_batches();
        let timelines = before.spec_timelines();
        if !batches.contains_key(key) {
            &&& r == Err::<bool, IcdError>(IcdError::InvalidOperation("No active batch"))
            &&& after.spec_batches() == batches
            &&& after.spec_timelines() == timelines
        } else {
            let b = after.spec_batches()[key];
            &&& after.spec_batches() == batches.insert(key, b)
            &&& b.spec_command_buffers() == batches[key].spec_command_buffers().push(command_buffer)
            &&& b.spec_wait_semaphores() == batches[key].spec_wait_semaphores()
            &&& b.spec_wait_values() == batches[key].spec_wait_values()
            &&& b.spec_wait_stages() == batches[key].spec_wait_stages()
            &&& b.spec_signal_value() == batches[key].spec_signal_value()
            &&& r == Ok::<bool, IcdError>(
                b.spec_command_buffers().len() >= before.spec_batch_size(),
            )
            &&& timelines.contains_key(key) ==> {
                let t = timelines[key];
                let u = after.spec_timelines()[key];
                &&& after.spec_timelines() == timelines.insert(key, u)
                &&& u.spec_semaphore() == t.spec_semaphore()
                &&& u.spec_current_value() == t.spec_current_value()
                &&& u.spec_pending_count() == t.spec_pending_count() + 1
            }
            &&& !timelines.contains_key(key) ==> after.spec_timelines() == timelines
        }
    })
}

/// Appends `command_buffer` to the open batch of `queue` and counts it as pending on
/// the queue's timeline, if it has one. Returns whether the batch has reached the batch
/// size threshold; an error, with nothing changed, when no batch is open.
pub fn add_to_batch(
    manager: &mut TimelineManager,
    queue: VkQueue,
    command_buffer: VkCommandBuffer,
) -> (r: Result<bool, IcdError>)
    requires
        old(manager).spec_timelines().contains_key(queue.raw_value()) ==> old(
            manager,
        ).spec_timelines()[queue.raw_value()].spec_pending_count() < u32::MAX,
    ensures
        batch_added(*old(manager), *final(manager), queue, command_buffer, r),
{
    let key = queue.as_raw();
    let mut batch = match manager.batches.remove(&key) {
        Some(b) => b,
        None => {
            proof {
                assert(manager.batches@ =~= old(manager).batches@);
            }
            return Err(IcdError::InvalidOperation("No active batch"));
        },
    };
    batch.add_command_buffer(command_buffer);
    let should_submit = batch.command_buffers.len() >= manager.batch_size as usize;
    manager.batches.insert(key, batch);
    proof {
        assert(manager.batches@ =~= old(manager).batches@.insert(key, batch));
    }
    match manager.timelines.remove(&key) {
        Some(t) => {
            let updated = TimelineState { pending_count: t.pending_count + 1, ..t };
            manager.timelines.insert(key, updated);
            proof {
                assert(manager.timelines@ =~= old(manager).timelines@.insert(key, updated));
            }
        },
        None => {
            proof {
                assert(manager.timelines@ =~= old(manager).timelines@);
            }
        },
    }
    Ok(should_submit)
}

/// Closes the open batch of `queue` for submission. An error when no batch is open;
/// `None` when the batch was empty; an error when the queue has no timeline (the batch
/// is dropped either way). Otherwise the queue's timeline advances by one and the plan
/// signals it at the new value.
pub fn submit_batch(manager: &mut TimelineManager, queue: VkQueue) -> (r: Result<Option<SubmitPlan>, IcdError>)
    requires
        old(manager).spec_timelines().contains_key(queue.raw_value()) ==> old(
            manager,
        ).spec_timelines()[queue.raw_value()].spec_current_value() < u64::MAX,
    ensures
        final(manager).spec_batch_size() == old(manager).spec_batch_size(),
        ({
            let key = queue.raw_value();
            let batches = old(manager).spec_batches();
            let timelines = old(manager).spec_timelines();
            if !batches.contains_key(key) {
                &&& r == Err::<Option<SubmitPlan>, IcdError>(IcdError::InvalidOperation("No active batch"))
                &&& final(manager).spec_batches() == batches
                &&& final(manager).spec_timelines() == timelines
            } else {
                let b = batches[key];
                &&& final(manager).spec_batches() == batches.remove(key)
                &&& if b.spec_command_buffers().len() == 0 {
                    &&& r matches Ok(None)
                    &&& final(manager).spec_timelines() == timelines
                } else if !timelines.contains_key(key) {
                    &&& r == Err::<Option<SubmitPlan>, IcdError>(
                        IcdError::InvalidOperation("No timeline for queue"),
                    )
                    &&& final(manager).spec_timelines() == timelines
                } else {
                    let t = timelines[key];
                    let u = final(manager).spec_timelines()[key];
                    &&& r matches Ok(Some(plan)) && {
                        &&& plan.batch == b
                        &&& plan.signal_semaphore == t.spec_semaphore()
                        &&& plan.signal_value == t.spec_current_value() + 1
                    }
                    &&& final(manager).spec_timelines() == timelines.insert(key, u)
                    &&& u.spec_semaphore() == t.spec_semaphore()
                    &&& u.spec_current_value() == t.spec_current_value() + 1
                    &&& u.spec_pending_count() == t.spec_pending_count()
                }
            }
        }),
{
    let key = queue.as_raw();
    let batch = match manager.batches.remove(&key) {
        Some(b) => b,
        None => return Err(IcdError::InvalidOperation("No active batch")),
    };
    if batch.command_buffers.len() == 0 {
        return Ok(None);
    }
    let t = match manager.timelines.remove(&key) {
        Some(t) => t,
        None => return Err(IcdError::InvalidOperation("No timeline for queue")),
    };
    let signal_value = t.current_value + 1;
    let updated = TimelineState { current_value: signal_value, ..t };
    manager.timelines.insert(key, updated);
    proof {
        assert(manager.timelines@ =~= old(manager).timelines@.insert(key, updated));
    }
    Ok(Some(SubmitPlan { batch, signal_semaphore: t.semaphore, signal_value }))
}

/// Records that the driver accepted the submission of `queue`'s batch: nothing is
/// pending on its timeline any more.
pub fn finish_submit(manager: &mut TimelineManager, queue: VkQueue)
    ensures
        final(manager).spec_batches() == old(manager).spec_batches(),
        final(manager).spec_batch_size() == old(manager).spec_batch_size(),
        ({
            let key = queue.raw_value();
            let timelines = old(manager).spec_timelines();
            &&& timelines.contains_key(key) ==> {
                let u = final(manager).spec_timelines()[key];
                &&& final(manager).spec_timelines() == timelines.insert(key, u)
                &&& u.spec_semaphore() == timelines[key].spec_semaphore()
                &&& u.spec_current_value() == timelines[key].spec_current_value()
                &&& u.spec_pending_count() == 0
            }
            &&& !timelines.contains_key(key) ==> final(manager).spec_timelines() == timelines
        }),
{
    let key = queue.as_raw();
    match manager.timelines.remove(&key) {
        Some(t) => {
            let updated = TimelineState { pending_count: 0, ..t };
            manager.timelines.insert(key, updated);
            proof {
                assert(manager.timelines@ =~= old(manager).timelines@.insert(key, updated));
            }
        },
        None => {
            proof {
                assert(manager.timelines@ =~= old(manager).timelines@);
            }
        },
    }
}

/// The semaphore to wait on for `queue`'s timeline; an error when it has none.
pub fn timeline_semaphore(manager: &TimelineManager, queue: VkQueue) -> (r: Result<VkSemaphore, IcdError>)
    ensures
        ({
            let key = queue.raw_value();
            if manager.spec_timelines().contains_key(key) {
                r == Ok::<VkSemaphore, IcdError>(manager.spec_timelines()[key].spec_semaphore())
            } else {
                r == Err::<VkSemaphore, IcdError>(IcdError::InvalidOperation("No timeline for queue"))
            }
        }),
{
    match manager.timelines.get(&queue.as_raw()) {
        Some(t) => Ok(t.semaphore),
        None => Err(IcdError::InvalidOperation("No timeline for queue")),
    }
}

/// What a timeline wait answered by the driver with `result` comes to: reaching the
/// value and timing out both count as done; any other result is an error.
pub fn wait_outcome(result: VkResult) -> (r: Result<(), IcdError>)
    ensures
        (result == VkResult::Success || result == VkResult::Timeout) ==> r is Ok,
        !(result == VkResult::Success || result == VkResult::Timeout) ==> r == Err::<(), IcdError>(
            IcdError::VulkanError(result),
        ),
{
    match result {
        VkResult::Success => Ok(()),
        VkResult::Timeout => Ok(()),
        _ => Err(IcdError::VulkanError(result)),
    }
}

/// Sets the batch size threshold.
pub fn set_batch_size(manager: &mut TimelineManager, size: u32) -> (r: Result<(), IcdError>)
    ensures
        r is Ok,
        final(manager).spec_batch_size() == size,
        final(manager).spec_timelines() == old(manager).spec_timelines(),
        final(manager).spec_batches() == old(manager).spec_batches(),
{
    manager.batch_size = size;
    Ok(())
}

/// Command buffers gathered for one queue, to be submitted as one batch.
pub struct BatchBuilder {
    queue: VkQueue,
    command_buffers: Vec<VkCommandBuffer>,
}

impl BatchBuilder {
    pub closed spec fn spec_queue(self) -> VkQueue {
        self.queue
    }

    pub closed spec fn spec_command_buffers(self) -> Seq<VkCommandBuffer> {
        self.command_buffers@
    }

    /// A builder for `queue` with no command buffers.
    pub fn new(queue: VkQueue) -> (b: Self)
        ensures
            b.spec_queue() == queue,
            b.spec_command_buffers() == Seq::<VkCommandBuffer>::empty(),
    {
        BatchBuilder { queue, command_buffers: Vec::new() }
    }

    /// The builder with `cb` appended.
    pub fn add_command_buffer(self, cb: VkCommandBuffer) -> (b: Self)
        ensures
            b.spec_queue() == self.spec_queue(),
            b.spec_command_buffers() == self.spec_command_buffers().push(cb),
    {
        let mut b = self;
        b.command_buffers.push(cb);
        b
    }

    /// Opens a batch for the queue (or extends the one already open), adds the
    /// command buffers in order, and closes the batch for submission as
    /// `submit_batch` does.
    pub fn submit(self, manager: &mut TimelineManager) -> (r: Result<Option<SubmitPlan>, IcdError>)
        requires
            old(manager).spec_timelines().contains_key(self.spec_queue().raw_value()) ==> {
                let t = old(manager).spec_timelines()[self.spec_queue().raw_value()];
                &&& t.spec_pending_count() + self.spec_command_buffers().len() <= u32::MAX
                &&& t.spec_current_value() < u64::MAX
            },
        ensures
            final(manager).spec_batch_size() == old(manager).spec_batch_size(),
            ({
                let key = self.spec_queue().raw_value();
                let batches = old(manager).spec_batches();
                let timelines = old(manager).spec_timelines();
                let prior = if batches.contains_key(key) {
                    batches[key].spec_command_buffers()
                } else {
                    Seq::<VkCommandBuffer>::empty()
                };
                let all = prior + self.spec_command_buffers();
                &&& final(manager).spec_batches() == batches.remove(key)
                &&& if all.len() == 0 {
                    &&& r matches Ok(None)
                    &&& final(manager).spec_timelines() == timelines
                } else if !timelines.contains_key(key) {
                    &&& r == Err::<Option<SubmitPlan>, IcdError>(
                        IcdError::InvalidOperation("No timeline for queue"),
                    )
                    &&& final(manager).spec_timelines() == timelines
                } else {
                    let t = timelines[key];
                    let u = final(manager).spec_timelines()[key];
                    &&& r matches Ok(Some(plan)) && {
                        &&& plan.batch.spec_command_buffers() == all
                        &&& plan.signal_semaphore == t.spec_semaphore()
                        &&& plan.signal_value == t.spec_current_value() + 1
                    }
                    &&& final(manager).spec_timelines() == timelines.insert(key, u)
                    &&& u.spec_semaphore() == t.spec_semaphore()
                    &&& u.spec_current_value() == t.spec_current_value() + 1
                    &&& u.spec_pending_count() == t.spec_pending_count() + self.spec_command_buffers().len()
                }
            }),
    {
        let queue = self.queue;
        let ghost key = queue.raw_value();
        let ghost batches0 = manager.spec_batches();
        let ghost timelines0 = manager.spec_timelines();
        let ghost prior = if batches0.contains_key(key) {
            batches0[key].spec_command_buffers()
        } else {
            Seq::<VkCommandBuffer>::empty()
        };
        let _ = begin_batch(manager, queue);
        let n = self.command_buffers.len();
        let mut i: usize = 0;
        while i < n
            invariant
                n == self.command_buffers@.len(),
                0 <= i <= n,
                key == queue.raw_value(),
                queue == self.spec_queue(),
                manager.spec_batch_size() == old(manager).spec_batch_size(),
                batches0 == old(manager).spec_batches(),
                timelines0 == old(manager).spec_timelines(),
                manager.spec_batches().contains_key(key),
                manager.spec_batches().remove(key) == batches0.remove(key),
                manager.spec_batches()[key].spec_command_buffers() == prior + self.command_buffers@.subrange(0, i as int),
                timelines0.contains_key(key) ==> {
                    let t = timelines0[key];
                    let u = manager.spec_timelines()[key];
                    &&& manager.spec_timelines() == timelines0.insert(key, u)
                    &&& u.spec_semaphore() == t.spec_semaphore()
                    &&& u.spec_current_value() == t.spec_current_value()
                    &&& u.spec_pending_count() == t.spec_pending_count() + i
                    &&& t.spec_pending_count() + n <= u32::MAX
                    &&& t.spec_current_value() < u64::MAX
                },
                !timelines0.contains_key(key) ==> manager.spec_timelines() == timelines0,
            decreases n - i,
        {
            let ghost before = manager.spec_batches();
            let _ = add_to_batch(manager, queue, self.command_buffers[i]);
            proof {
                assert(self.command_buffers@.subrange(0, i as int + 1) =~= self.command_buffers@.subrange(
                    0,
                    i as int,
                ).push(self.command_buffers@[i as int]));
                assert(manager.spec_batches().remove(key) =~= before.remove(key));
                if timelines0.contains_key(key) {
                    assert(manager.spec_timelines() =~= timelines0.insert(key, manager.spec_timelines()[key]));
                }
            }
            i = i + 1;
        }
        proof {
            assert(self.command_buffers@.subrange(0, n as int) =~= self.command_buffers@);
            if timelines0.contains_key(key) {
                assert(manager.spec_timelines().contains_key(key));
            }
        }
        let ghost mid_timelines = manager.spec_timelines();
        let r = submit_batch(manager, queue);
        proof {
            assert(manager.spec_batches() =~= batches0.remove(key));
            if timelines0.contains_key(key) {
                assert(manager.spec_timelines() =~= timelines0.insert(key, manager.spec_timelines()[key]));
            }
        }
        r
    }

    /// The queue the batch is for.
    pub fn queue(&self) -> (q: VkQueue)
        ensures
            q == self.spec_queue(),
    {
        self.queue
    }

    /// The command buffers, in the order they were added.
    pub fn command_buffers(&self) -> (v: &Vec<VkCommandBuffer>)
        ensures
            v@ == self.spec_command_buffers(),
    {
        &self.command_buffers
    }
}

/// Beginning a batch never discards one: a batch already open for the queue keeps its
/// command buffers, so the next buffer added joins them, and the answer compares the
/// batch's new length (one more than before, or one for a new batch) with the batch
/// size.
pub proof fn lemma_begin_then_add(
    m0: TimelineManager,
    m1: TimelineManager,
    m2: TimelineManager,
    queue: VkQueue,
    command_buffer: VkCommandBuffer,
    r: Result<bool, IcdError>,
)
    requires
        batch_begun(m0, m1, queue),
        batch_added(m1, m2, queue, command_buffer, r),
    ensures
        ({
            let key = queue.raw_value();
            let n: int = if m0.spec_batches().contains_key(key) {
                m0.spec_batches()[key].spec_command_buffers().len() as int
            } else {
                0
            };
            &&& m0.spec_batches().contains_key(key) ==> m1.spec_batches() == m0.spec_batches()
            &&& m0.spec_batches().contains_key(key) ==> m2.spec_batches()[key].spec_command_buffers()
                == m0.spec_batches()[key].spec_command_buffers().push(command_buffer)
            &&& r == Ok::<bool, IcdError>(n + 1 >= m0.spec_batch_size())
        }),
{
}

} // verus!
