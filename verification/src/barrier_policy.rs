//! Barrier policy for compute work.
//!
//! Three kinds of barrier cover compute synchronisation: host upload to shader
//! read, shader read to shader write, and shader write to shader read. A tracker
//! remembers the last access of each buffer and adds a barrier only when the next
//! access needs one; a barrier batch gathers them for one pipeline-barrier command.

use crate::enums::VkStructureType;
use crate::flags::{VkAccessFlags, VkPipelineStageFlags};
use crate::structs::{VkBufferMemoryBarrier, VkMemoryBarrier};
use crate::sys::{VkBuffer, VK_QUEUE_FAMILY_IGNORED};
use std::collections::HashMap;
use vstd::prelude::*;

verus! {

broadcast use vstd::std_specs::hash::group_hash_axioms;

/// Bit of `VkAccessFlags::SHADER_READ`.
pub const SHADER_READ_BIT: u32 = 0x20;

/// Bit of `VkAccessFlags::SHADER_WRITE`.
pub const SHADER_WRITE_BIT: u32 = 0x40;

/// Bit of `VkAccessFlags::HOST_WRITE`.
pub const HOST_WRITE_BIT: u32 = 0x4000;

/// Bit of `VkPipelineStageFlags::COMPUTE_SHADER`.
pub const COMPUTE_SHADER_STAGE_BIT: u32 = 0x800;

/// Bit of `VkPipelineStageFlags::HOST`.
pub const HOST_STAGE_BIT: u32 = 0x4000;

/// GPU vendors with their own barrier tuning.
#[derive(Debug, Clone, Copy, PartialEq, Eq, Structural)]
pub enum GpuVendor {
    AMD,
    NVIDIA,
    Intel,
    Other,
}

/// The vendor with PCI vendor id `id`.
pub open spec fn spec_vendor(id: u32) -> GpuVendor {
    if id == 0x1002 {
        GpuVendor::AMD
    } else if id == 0x10DE {
        GpuVendor::NVIDIA
    } else if id == 0x8086 {
        GpuVendor::Intel
    } else {
        GpuVendor::Other
    }
}

impl GpuVendor {
    /// The vendor with PCI vendor id `id` (AMD 0x1002, NVIDIA 0x10DE, Intel 0x8086).
    pub fn from_vendor_id(id: u32) -> (v: Self)
        ensures
            v == spec_vendor(id),
    {
        if id == 0x1002 {
            GpuVendor::AMD
        } else if id == 0x10DE {
            GpuVendor::NVIDIA
        } else if id == 0x8086 {
            GpuVendor::Intel
        } else {
            GpuVendor::Other
        }
    }
}

/// The three kinds of barrier.
#[derive(Debug, Clone, Copy, PartialEq, Eq, Structural)]
pub enum BarrierType {
    /// Host write, then shader read (an upload).
    UploadToRead,
    /// Shader read, then shader write.
    ReadToWrite,
    /// Shader write, then shader read.
    WriteToRead,
}

/// Stages and access masks of a barrier, as bits: source stage, destination stage,
/// source access, destination access. Every vendor gets the same masks.
pub open spec fn spec_config(vendor: GpuVendor, barrier_type: BarrierType) -> (u32, u32, u32, u32) {
    match barrier_type {
        BarrierType::UploadToRead => (HOST_STAGE_BIT, COMPUTE_SHADER_STAGE_BIT, HOST_WRITE_BIT, SHADER_READ_BIT),
        BarrierType::ReadToWrite => (
            COMPUTE_SHADER_STAGE_BIT,
            COMPUTE_SHADER_STAGE_BIT,
            SHADER_READ_BIT,
            SHADER_WRITE_BIT,
        ),
        BarrierType::WriteToRead => (
            COMPUTE_SHADER_STAGE_BIT,
            COMPUTE_SHADER_STAGE_BIT,
            SHADER_WRITE_BIT,
            SHADER_READ_BIT,
        ),
    }
}

/// Stages and access masks of one barrier.
#[derive(Debug, Clone, Copy, PartialEq, Eq, Structural)]
pub struct BarrierConfig {
    pub src_stage: VkPipelineStageFlags,
    pub dst_stage: VkPipelineStageFlags,
    pub src_access: VkAccessFlags,
    pub dst_access: VkAccessFlags,
}

impl BarrierConfig {
    /// Whether the config has the masks `spec_config` gives.
    pub open spec fn matches_spec(self, vendor: GpuVendor, barrier_type: BarrierType) -> bool {
        let c = spec_config(vendor, barrier_type);
        &&& self.src_stage@ == c.0
        &&& self.dst_stage@ == c.1
        &&& self.src_access@ == c.2
        &&& self.dst_access@ == c.3
    }

    /// The barrier for `barrier_type` on a GPU of `vendor`.
    pub fn optimal_for(vendor: GpuVendor, barrier_type: BarrierType) -> (c: Self)
        ensures
            c.matches_spec(vendor, barrier_type),
    {
        match barrier_type {
            BarrierType::UploadToRead => BarrierConfig {
                src_stage: VkPipelineStageFlags::HOST(),
                dst_stage: VkPipelineStageFlags::COMPUTE_SHADER(),
                src_access: VkAccessFlags::HOST_WRITE(),
                dst_access: VkAccessFlags::SHADER_READ(),
            },
            BarrierType::ReadToWrite => BarrierConfig {
                src_stage: VkPipelineStageFlags::COMPUTE_SHADER(),
                dst_stage: VkPipelineStageFlags::COMPUTE_SHADER(),
                src_access: VkAccessFlags::SHADER_READ(),
                dst_access: VkAccessFlags::SHADER_WRITE(),
            },
            BarrierType::WriteToRead => BarrierConfig {
                src_stage: VkPipelineStageFlags::COMPUTE_SHADER(),
                dst_stage: VkPipelineStageFlags::COMPUTE_SHADER(),
                src_access: VkAccessFlags::SHADER_WRITE(),
                dst_access: VkAccessFlags::SHADER_READ(),
            },
        }
    }
}

/// Global and buffer barriers gathered for one pipeline-barrier command.
pub struct BarrierBatch {
    memory_barriers: Vec<VkMemoryBarrier>,
    buffer_barriers: Vec<VkBufferMemoryBarrier>,
    vendor: GpuVendor,
}

impl BarrierBatch {
    pub closed spec fn spec_memory_barriers(self) -> Seq<VkMemoryBarrier> {
        self.memory_barriers@
    }

    pub closed spec fn spec_buffer_barriers(self) -> Seq<VkBufferMemoryBarrier> {
        self.buffer_barriers@
    }

    pub closed spec fn spec_vendor(self) -> GpuVendor {
        self.vendor
    }

    /// An empty batch for a GPU of `vendor`.
    pub fn new(vendor: GpuVendor) -> (b: Self)
        ensures
            b.spec_memory_barriers() == Seq::<VkMemoryBarrier>::empty(),
            b.spec_buffer_barriers() == Seq::<VkBufferMemoryBarrier>::empty(),
            b.spec_vendor() == vendor,
    {
        BarrierBatch { memory_barriers: Vec::new(), buffer_barriers: Vec::new(), vendor }
    }

    /// Adds a global memory barrier of `barrier_type`.
    pub fn add_memory_barrier(&mut self, barrier_type: BarrierType)
        ensures
            final(self).spec_vendor() == old(self).spec_vendor(),
            final(self).spec_buffer_barriers() == old(self).spec_buffer_barriers(),
            ({
                let b = final(self).spec_memory_barriers().last();
                let c = spec_config(old(self).spec_vendor(), barrier_type);
                &&& final(self).spec_memory_barriers() == old(self).spec_memory_barriers().push(b)
                &&& b.sType == VkStructureType::MemoryBarrier
                &&& b.srcAccessMask@ == c.2
                &&& b.dstAccessMask@ == c.3
            }),
    {
        let config = BarrierConfig::optimal_for(self.vendor, barrier_type);
        self.memory_barriers.push(
            VkMemoryBarrier {
                sType: VkStructureType::MemoryBarrier,
                srcAccessMask: config.src_access,
                dstAccessMask: config.dst_access,
            },
        );
    }

    /// Adds a barrier of `barrier_type` on `size` bytes of `buffer` from `offset`.
    pub fn add_buffer_barrier(&mut self, buffer: VkBuffer, barrier_type: BarrierType, offset: u64, size: u64)
        ensures
            final(self).spec_vendor() == old(self).spec_vendor(),
            final(self).spec_memory_barriers() == old(self).spec_memory_barriers(),
            buffer_barrier_added(old(self).spec_buffer_barriers(), final(self).spec_buffer_barriers(),
                old(self).spec_vendor(), buffer, barrier_type, offset, size),
    {
        let config = BarrierConfig::optimal_for(self.vendor, barrier_type);
        self.buffer_barriers.push(
            VkBufferMemoryBarrier {
                sType: VkStructureType::BufferMemoryBarrier,
                srcAccessMask: config.src_access,
                dstAccessMask: config.dst_access,
                srcQueueFamilyIndex: VK_QUEUE_FAMILY_IGNORED,
                dstQueueFamilyIndex: VK_QUEUE_FAMILY_IGNORED,
                buffer,
                offset,
                size,
            },
        );
    }

    /// The stages and masks of the pipeline-barrier command that submits the batch
    /// as `barrier_type`; `None` when the batch is empty and there is nothing to submit.
    pub fn submission(&self, barrier_type: BarrierType) -> (r: Option<BarrierConfig>)
        ensures
            (self.spec_memory_barriers().len() == 0 && self.spec_buffer_barriers().len() == 0) ==> r is None,
            !(self.spec_memory_barriers().len() == 0 && self.spec_buffer_barriers().len() == 0) ==> (r matches Some(
                c,
            ) && c.matches_spec(self.spec_vendor(), barrier_type)),
    {
        if self.memory_barriers.len() == 0 && self.buffer_barriers.len() == 0 {
            None
        } else {
            Some(BarrierConfig::optimal_for(self.vendor, barrier_type))
        }
    }

    /// The global barriers, in the order they were added.
    pub fn memory_barriers(&self) -> (v: &Vec<VkMemoryBarrier>)
        ensures
            v@ == self.spec_memory_barriers(),
    {
        &self.memory_barriers
    }

    /// The buffer barriers, in the order they were added.
    pub fn buffer_barriers(&self) -> (v: &Vec<VkBufferMemoryBarrier>)
        ensures
            v@ == self.spec_buffer_barriers(),
    {
        &self.buffer_barriers
    }

    /// Empties the batch.
    pub fn clear(&mut self)
        ensures
            final(self).spec_vendor() == old(self).spec_vendor(),
            final(self).spec_memory_barriers() == Seq::<VkMemoryBarrier>::empty(),
            final(self).spec_buffer_barriers() == Seq::<VkBufferMemoryBarrier>::empty(),
    {
        self.memory_barriers.clear();
        self.buffer_barriers.clear();
    }
}

/// `after` is `before` with one more barrier of `barrier_type` on `size` bytes of
/// `buffer` from `offset`, ignoring queue family ownership.
pub open spec fn buffer_barrier_added(
    before: Seq<VkBufferMemoryBarrier>,
    after: Seq<VkBufferMemoryBarrier>,
    vendor: GpuVendor,
    buffer: VkBuffer,
    barrier_type: BarrierType,
    offset: u64,
    size: u64,
) -> bool {
    let b = after.last();
    let c = spec_config(vendor, barrier_type);
    &&& after == before.push(b)
    &&& b.sType == VkStructureType::BufferMemoryBarrier
    &&& b.srcAccessMask@ == c.2
    &&& b.dstAccessMask@ == c.3
    &&& b.srcQueueFamilyIndex == VK_QUEUE_FAMILY_IGNORED
    &&& b.dstQueueFamilyIndex == VK_QUEUE_FAMILY_IGNORED
    &&& b.buffer == buffer
    &&& b.offset == offset
    &&& b.size == size
}

/// Counts of barriers added and elided.
#[derive(Debug, Default, Clone, Copy, PartialEq, Eq, Structural)]
pub struct BarrierStats {
    pub total_barriers: u64,
    pub elided_barriers: u64,
    pub upload_barriers: u64,
    pub read_write_barriers: u64,
    pub write_read_barriers: u64,
}

/// Every counter can count one more.
pub open spec fn stats_have_room(s: BarrierStats) -> bool {
    &&& s.total_barriers < u64::MAX
    &&& s.elided_barriers < u64::MAX
    &&& s.upload_barriers < u64::MAX
    &&& s.read_write_barriers < u64::MAX
    &&& s.write_read_barriers < u64::MAX
}

/// The barrier needed between a last access with bits `last` and a next access with
/// bits `next`, or `None` when the access is unchanged. Host write before shader read
/// is an upload; shader read before shader write, and shader write before shader read,
/// are their own kinds; any other change gets a write-to-read barrier.
pub open spec fn spec_barrier_type(last: u32, next: u32) -> Option<BarrierType> {
    if (last & HOST_WRITE_BIT) == HOST_WRITE_BIT && (next & SHADER_READ_BIT) == SHADER_READ_BIT {
        Some(BarrierType::UploadToRead)
    } else if (last & SHADER_READ_BIT) == SHADER_READ_BIT && (next & SHADER_WRITE_BIT) == SHADER_WRITE_BIT {
        Some(BarrierType::ReadToWrite)
    } else if (last & SHADER_WRITE_BIT) == SHADER_WRITE_BIT && (next & SHADER_READ_BIT) == SHADER_READ_BIT {
        Some(BarrierType::WriteToRead)
    } else if last == next {
        None
    } else {
        Some(BarrierType::WriteToRead)
    }
}

/// The access last recorded for the buffer with raw handle `key` (none: 0).
pub open spec fn recorded_access(states: Map<u64, VkAccessFlags>, key: u64) -> u32 {
    if states.contains_key(key) {
        states[key]@
    } else {
        0
    }
}

/// The kind a flush submits the pending barriers as: uploads if any were counted,
/// else write-to-read when those outnumber read-to-write, else read-to-write.
pub open spec fn dominant_type(s: BarrierStats) -> BarrierType {
    if s.upload_barriers > 0 {
        BarrierType::UploadToRead
    } else if s.write_read_barriers > s.read_write_barriers {
        BarrierType::WriteToRead
    } else {
        BarrierType::ReadToWrite
    }
}

/// Whether a buffer access on a hazard needs ordering: a host write then a shader
/// read, a shader read then a shader write, or a shader write then a shader read.
pub open spec fn access_hazard(last: u32, next: u32) -> bool {
    ||| (last & HOST_WRITE_BIT) == HOST_WRITE_BIT && (next & SHADER_READ_BIT) == SHADER_READ_BIT
    ||| (last & SHADER_READ_BIT) == SHADER_READ_BIT && (next & SHADER_WRITE_BIT) == SHADER_WRITE_BIT
    ||| (last & SHADER_WRITE_BIT) == SHADER_WRITE_BIT && (next & SHADER_READ_BIT) == SHADER_READ_BIT
}

/// `after` is `before` once `size` bytes of `buffer` from `offset` were accessed with
/// `new_access`, `r` telling whether a barrier was added: the buffer's recorded access
/// becomes `new_access`; the barrier `spec_barrier_type` asks for is appended and
/// counted under its kind, or, when none is needed, the access is counted as elided
/// and nothing else changes.
pub open spec fn access_tracked(
    before: BarrierTracker,
    after: BarrierTracker,
    buffer: VkBuffer,
    new_access: VkAccessFlags,
    offset: u64,
    size: u64,
    r: bool,
) -> bool {
    &&& after.spec_pending().spec_vendor() == before.spec_pending().spec_vendor()
    &&& after.spec_pending().spec_memory_barriers() == before.spec_pending().spec_memory_barriers()
    &&& recorded_access(after.spec_buffer_states(), buffer.raw_value()) == new_access@
    &&& ({
        let key = buffer.raw_value();
        let last = recorded_access(before.spec_buffer_states(), key);
        let s = before.spec_stats();
        let s2 = after.spec_stats();
        match spec_barrier_type(last, new_access@) {
            Some(t) => {
                &&& r
                &&& buffer_barrier_added(
                    before.spec_pending().spec_buffer_barriers(),
                    after.spec_pending().spec_buffer_barriers(),
                    before.spec_pending().spec_vendor(),
                    buffer,
                    t,
                    offset,
                    size,
                )
                &&& after.spec_buffer_states() == before.spec_buffer_states().insert(key, new_access)
                &&& s2.total_barriers == s.total_barriers + 1
                &&& s2.elided_barriers == s.elided_barriers
                &&& s2.upload_barriers == s.upload_barriers + if t == BarrierType::UploadToRead { 1int } else { 0 }
                &&& s2.read_write_barriers == s.read_write_barriers + if t == BarrierType::ReadToWrite { 1int } else { 0 }
                &&& s2.write_read_barriers == s.write_read_barriers + if t == BarrierType::WriteToRead { 1int } else { 0 }
            },
            None => {
                &&& !r
                &&& after.spec_pending() == before.spec_pending()
                &&& after.spec_buffer_states() == before.spec_buffer_states()
                &&& s2.elided_barriers == s.elided_barriers + 1
                &&& s2.total_barriers == s.total_barriers
                &&& s2.upload_barriers == s.upload_barriers
                &&& s2.read_write_barriers == s.read_write_barriers
                &&& s2.write_read_barriers == s.write_read_barriers
            },
        }
    })
}

/// A flush of pending barriers: the stages and masks of the command, and the barriers.
pub struct BarrierSubmission {
    pub config: BarrierConfig,
    pub memory_barriers: Vec<VkMemoryBarrier>,
    pub buffer_barriers: Vec<VkBufferMemoryBarrier>,
}

/// Last access per buffer, the barriers not yet flushed, and counts.
pub struct BarrierTracker {
    buffer_states: HashMap<u64, VkAccessFlags>,
    pending: BarrierBatch,
    stats: BarrierStats,
}

impl BarrierTracker {
    pub closed spec fn spec_buffer_states(self) -> Map<u64, VkAccessFlags> {
        self.buffer_states@
    }

    pub closed spec fn spec_pending(self) -> BarrierBatch {
        self.pending
    }

    pub closed spec fn spec_stats(self) -> BarrierStats {
        self.stats
    }

    /// Every barrier counted is of exactly one kind.
    pub closed spec fn wf(self) -> bool {
        self.stats.total_barriers == self.stats.upload_barriers + self.stats.read_write_barriers
            + self.stats.write_read_barriers
    }

    /// A tracker that has seen no buffer, for a GPU of `vendor`.
    pub fn new(vendor: GpuVendor) -> (t: Self)
        ensures
            t.wf(),
            t.spec_buffer_states() == Map::<u64, VkAccessFlags>::empty(),
            t.spec_pending().spec_vendor() == vendor,
            t.spec_pending().spec_memory_barriers() == Seq::<VkMemoryBarrier>::empty(),
            t.spec_pending().spec_buffer_barriers() == Seq::<VkBufferMemoryBarrier>::empty(),
            t.spec_stats() == (BarrierStats {
                total_barriers: 0,
                elided_barriers: 0,
                upload_barriers: 0,
                read_write_barriers: 0,
                write_read_barriers: 0,
            }),
    {
        BarrierTracker {
            buffer_states: HashMap::new(),
            pending: BarrierBatch::new(vendor),
            stats: BarrierStats {
                total_barriers: 0,
                elided_barriers: 0,
                upload_barriers: 0,
                read_write_barriers: 0,
                write_read_barriers: 0,
            },
        }
    }

    /// Records that `size` bytes of `buffer` from `offset` are next accessed with
    /// `new_access`, adding the barrier `spec_barrier_type` asks for after the buffer's
    /// last access. Returns whether a barrier was added; an unchanged access is counted
    /// as elided.
    pub fn track_buffer_access(
        &mut self,
        buffer: VkBuffer,
        new_access: VkAccessFlags,
        offset: u64,
        size: u64,
    ) -> (r: bool)
        requires
            old(self).wf(),
            stats_have_room(old(self).spec_stats()),
        ensures
            final(self).wf(),
            r == ({
                let last = recorded_access(old(self).spec_buffer_states(), buffer.raw_value());
                access_hazard(last, new_access@) || last != new_access@
            }),
            access_tracked(*old(self), *final(self), buffer, new_access, offset, size, r),
    {
        let key = buffer.as_raw();
        let last_access = match self.buffer_states.get(&key) {
            Some(a) => *a,
            None => VkAccessFlags::empty(),
        };
        let barrier_type = if last_access.contains(VkAccessFlags::HOST_WRITE()) && new_access.contains(
            VkAccessFlags::SHADER_READ(),
        ) {
            Some(BarrierType::UploadToRead)
        } else if last_access.contains(VkAccessFlags::SHADER_READ()) && new_access.contains(
            VkAccessFlags::SHADER_WRITE(),
        ) {
            Some(BarrierType::ReadToWrite)
        } else if last_access.contains(VkAccessFlags::SHADER_WRITE()) && new_access.contains(
            VkAccessFlags::SHADER_READ(),
        ) {
            Some(BarrierType::WriteToRead)
        } else if last_access.bits() == new_access.bits() {
            None
        } else {
            Some(BarrierType::WriteToRead)
        };
        match barrier_type {
            Some(t) => {
                self.pending.add_buffer_barrier(buffer, t, offset, size);
                self.buffer_states.insert(key, new_access);
                self.stats.total_barriers = self.stats.total_barriers + 1;
                match t {
                    BarrierType::UploadToRead => {
                        self.stats.upload_barriers = self.stats.upload_barriers + 1;
                    },
                    BarrierType::ReadToWrite => {
                        self.stats.read_write_barriers = self.stats.read_write_barriers + 1;
                    },
                    BarrierType::WriteToRead => {
                        self.stats.write_read_barriers = self.stats.write_read_barriers + 1;
                    },
                }
                true
            },
            None => {
                self.stats.elided_barriers = self.stats.elided_barriers + 1;
                false
            },
        }
    }

    /// Takes the pending buffer barriers, when there are any, for one command that
    /// submits them as the kind `dominant_type` picks, and empties the pending batch.
    pub fn flush_barriers(&mut self) -> (r: Option<BarrierSubmission>)
        requires
            old(self).wf(),
        ensures
            final(self).wf(),
            final(self).spec_buffer_states() == old(self).spec_buffer_states(),
            final(self).spec_stats() == old(self).spec_stats(),
            final(self).spec_pending().spec_vendor() == old(self).spec_pending().spec_vendor(),
            ({
                let p = old(self).spec_pending();
                if p.spec_buffer_barriers().len() == 0 {
                    &&& r is None
                    &&& final(self).spec_pending() == p
                } else {
                    &&& r matches Some(s) && {
                        &&& s.config.matches_spec(p.spec_vendor(), dominant_type(old(self).spec_stats()))
                        &&& old(self).spec_stats().upload_barriers > 0 ==> {
                            &&& s.config.src_stage@ == HOST_STAGE_BIT
                            &&& s.config.src_access@ == HOST_WRITE_BIT
                            &&& s.config.dst_access@ == SHADER_READ_BIT
                        }
                        &&& s.memory_barriers@ == p.spec_memory_barriers()
                        &&& s.buffer_barriers@ == p.spec_buffer_barriers()
                    }
                    &&& final(self).spec_pending().spec_memory_barriers() == Seq::<VkMemoryBarrier>::empty()
                    &&& final(self).spec_pending().spec_buffer_barriers() == Seq::<VkBufferMemoryBarrier>::empty()
                }
            }),
    {
        if self.pending.buffer_barriers.len() == 0 {
            return None;
        }
        let barrier_type = if self.stats.upload_barriers > 0 {
            BarrierType::UploadToRead
        } else if self.stats.write_read_barriers > self.stats.read_write_barriers {
            BarrierType::WriteToRead
        } else {
            BarrierType::ReadToWrite
        };
        let config = match self.pending.submission(barrier_type) {
            Some(c) => c,
            None => BarrierConfig::optimal_for(self.pending.vendor, barrier_type),
        };
        let memory_barriers = self.pending.memory_barriers.clone();
        let buffer_barriers = self.pending.buffer_barriers.clone();
        self.pending.clear();
        Some(BarrierSubmission { config, memory_barriers, buffer_barriers })
    }

    /// The counts so far.
    pub fn stats(&self) -> (s: &BarrierStats)
        ensures
            *s == self.spec_stats(),
    {
        &self.stats
    }
}

/// A tracker's total counts each added barrier once, under its kind.
pub proof fn lemma_stats_total(t: BarrierTracker)
    requires
        t.wf(),
    ensures
        t.spec_stats().total_barriers == t.spec_stats().upload_barriers
            + t.spec_stats().read_write_barriers + t.spec_stats().write_read_barriers,
{
}

/// An access repeated on the same buffer needs no barrier, unless it both reads and
/// writes in one of the combinations that order against themselves (host write with
/// shader read, or shader read with shader write).
pub proof fn lemma_repeated_access_elided(access: u32)
    requires
        !((access & HOST_WRITE_BIT) == HOST_WRITE_BIT && (access & SHADER_READ_BIT) == SHADER_READ_BIT),
        !((access & SHADER_READ_BIT) == SHADER_READ_BIT && (access & SHADER_WRITE_BIT) == SHADER_WRITE_BIT),
    ensures
        spec_barrier_type(access, access) is None,
{
}

/// Whether an access needs a barrier: exactly when it meets its buffer's last
/// access on a hazard, or differs from it.
pub proof fn lemma_barrier_needed_iff(last: u32, next: u32)
    ensures
        spec_barrier_type(last, next) is Some <==> (access_hazard(last, next) || last != next),
{
}

/// What one tracked access does, for every tracker whose counts agree: it adds a
/// barrier exactly when the access meets the buffer's last access on a hazard or
/// differs from it; every access is counted once, as a barrier or as elided; and the
/// total keeps counting each barrier once under its kind.
pub proof fn lemma_tracking_law(
    before: BarrierTracker,
    after: BarrierTracker,
    buffer: VkBuffer,
    new_access: VkAccessFlags,
    offset: u64,
    size: u64,
    r: bool,
)
    requires
        before.wf(),
        access_tracked(before, after, buffer, new_access, offset, size, r),
    ensures
        after.wf(),
        ({
            let last = recorded_access(before.spec_buffer_states(), buffer.raw_value());
            r == (access_hazard(last, new_access@) || last != new_access@)
        }),
        after.spec_stats().total_barriers + after.spec_stats().elided_barriers == before.spec_stats().total_barriers
            + before.spec_stats().elided_barriers + 1,
        r ==> after.spec_pending().spec_buffer_barriers().len() == before.spec_pending().spec_buffer_barriers().len() + 1,
        !r ==> after.spec_pending() == before.spec_pending() && after.spec_buffer_states() == before.spec_buffer_states(),
        recorded_access(after.spec_buffer_states(), buffer.raw_value()) == new_access@,
{
    lemma_barrier_needed_iff(recorded_access(before.spec_buffer_states(), buffer.raw_value()), new_access@);
}

/// A barrier's configuration does not depend on the vendor: every GPU gets the same
/// stages and access masks for the same kind of barrier.
pub proof fn lemma_config_same_for_every_vendor(v1: GpuVendor, v2: GpuVendor, barrier_type: BarrierType)
    ensures
        spec_config(v1, barrier_type) == spec_config(v2, barrier_type),
{
}

/// The barrier chosen between two accesses that conflict orders exactly those
/// accesses: its source access mask is made of bits of the earlier access and its
/// destination mask of bits of the later one (neither empty), its destination stage
/// is the compute shader, and its source stage is the host exactly when the source
/// access is a host write (the compute shader otherwise). This holds on every GPU.
pub proof fn lemma_config_orders_the_accesses(vendor: GpuVendor, last: u32, next: u32)
    requires
        access_hazard(last, next),
    ensures
        spec_barrier_type(last, next) matches Some(t) && {
            let c = spec_config(vendor, t);
            &&& (last & c.2) == c.2
            &&& (next & c.3) == c.3
            &&& c.2 != 0
            &&& c.3 != 0
            &&& c.1 == COMPUTE_SHADER_STAGE_BIT
            &&& (c.0 == HOST_STAGE_BIT) == (c.2 == HOST_WRITE_BIT)
            &&& (c.0 == HOST_STAGE_BIT || c.0 == COMPUTE_SHADER_STAGE_BIT)
        },
{
}

/// The kind a flush submits: once an upload has been counted, the upload barrier
/// (host stage and host write as its source, shader read as its destination),
/// whatever the other counts; otherwise the more numerous of write-to-read and
/// read-to-write, read-to-write on a tie. Never an upload when none was counted.
pub proof fn lemma_flush_kind(s: BarrierStats, vendor: GpuVendor)
    ensures
        s.upload_barriers > 0 ==> {
            let c = spec_config(vendor, dominant_type(s));
            &&& c.0 == HOST_STAGE_BIT
            &&& c.2 == HOST_WRITE_BIT
            &&& c.3 == SHADER_READ_BIT
        },
        s.upload_barriers == 0 ==> dominant_type(s) != BarrierType::UploadToRead,
        s.upload_barriers == 0 && dominant_type(s) == BarrierType::WriteToRead ==> s.write_read_barriers
            > s.read_write_barriers,
        s.upload_barriers == 0 && dominant_type(s) == BarrierType::ReadToWrite ==> s.read_write_barriers
            >= s.write_read_barriers,
{
}

/// A vendor is recognised by its PCI vendor id exactly: AMD by 0x1002, NVIDIA by
/// 0x10DE, Intel by 0x8086, and every other id is another vendor.
pub proof fn lemma_vendor_ids(id: u32)
    ensures
        (spec_vendor(id) == GpuVendor::AMD) == (id == 0x1002),
        (spec_vendor(id) == GpuVendor::NVIDIA) == (id == 0x10DE),
        (spec_vendor(id) == GpuVendor::Intel) == (id == 0x8086),
        (spec_vendor(id) == GpuVendor::Other) == (id != 0x1002 && id != 0x10DE && id != 0x8086),
{
}

} // verus!
