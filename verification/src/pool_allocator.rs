//! Slab-based memory pool allocator.
//!
//! Device memory is taken from the driver in slabs; each request takes a block, the
//! smallest power of two that holds it, carved out of a slab first-fit, scanning the
//! regions in use in offset order. There are three pools per device, one per
//! `PoolType`. Every slab keeps its regions in use apart (no byte is handed out twice)
//! and the accounting `free_space + (sizes of regions in use) == slab size`, which
//! each operation preserves.

use crate::flags::VkMemoryPropertyFlags;
use crate::error::IcdError;
use crate::structs::{VkMemoryRequirements, VkMemoryType, VkPhysicalDeviceMemoryProperties};
use crate::sys::{VkDevice, VkDeviceMemory};
use vstd::arithmetic::power2::{lemma2_to64, lemma2_to64_rest, lemma_pow2_strictly_increases, lemma_pow2_unfold, pow2};
use vstd::bits::{lemma_u64_low_bits_mask_is_mod, lemma_u64_pow2_no_overflow, low_bits_mask};
use vstd::prelude::*;

verus! {

/// Size of a slab taken from the driver when no existing slab can serve a request (256 MiB).
pub const SLAB_SIZE: u64 = 268435456;

/// Smallest allocation worth a slab of its own (64 KiB).
pub const MIN_ALLOCATION_SIZE: u64 = 65536;

/// Largest size or alignment of a request (2^62): it keeps every offset the
/// first-fit scan computes inside 64 bits.
pub const MAX_REQUEST: u64 = 0x4000_0000_0000_0000;

/// Rounds `x` up to the next multiple of a power-of-two `alignment` (by masking).
pub open spec fn align_up(x: u64, alignment: u64) -> u64 {
    ((x + alignment - 1) as u64) & !((alignment - 1) as u64)
}

/// A power of two below 2^64.
pub open spec fn is_pow2(a: u64) -> bool {
    exists|k: nat| k < 64 && a == pow2(k)
}

/// The exponent of the block that serves `size` bytes, searching from `k`: the least
/// exponent not below `k` (and at most 63) whose power of two holds `size` bytes.
pub open spec fn block_exponent(size: u64, k: nat) -> nat
    decreases 63 - k,
{
    if k >= 63 || pow2(k) >= size {
        k
    } else {
        block_exponent(size, k + 1)
    }
}

/// Blocks come in powers of two: a request of `size` bytes takes the smallest power of
/// two that holds it.
pub open spec fn spec_block_size(size: u64) -> u64 {
    pow2(block_exponent(size, 0)) as u64
}

/// The block for a request of `size` bytes: the smallest power of two not below `size`.
pub fn block_size(size: u64) -> (b: u64)
    requires
        size <= 0x8000_0000_0000_0000,
    ensures
        b == spec_block_size(size),
        1 <= b,
        size <= b <= 0x8000_0000_0000_0000,
        size <= MAX_REQUEST ==> b <= MAX_REQUEST,
        is_pow2(b),
        b == 1 || b / 2 < size,
{
    proof {
        lemma2_to64();
        lemma2_to64_rest();
    }
    let mut b: u64 = 1;
    let ghost mut k: nat = 0;
    while b < size
        invariant
            size <= 0x8000_0000_0000_0000,
            MAX_REQUEST == pow2(62),
            0x8000_0000_0000_0000 == pow2(63),
            k <= 63,
            size <= MAX_REQUEST ==> k <= 62,
            b == pow2(k),
            1 <= b,
            block_exponent(size, 0) == block_exponent(size, k),
            b == 1 || b / 2 < size,
        decreases 0x8000_0000_0000_0000 - b,
    {
        proof {
            if k >= 63 {
                assert(false);
            }
            if size <= MAX_REQUEST && k >= 62 {
                assert(false);
            }
            assert(block_exponent(size, k) == block_exponent(size, k + 1));
            lemma_pow2_unfold(k + 1);
            if k + 1 < 63 {
                lemma_pow2_strictly_increases(k + 1, 63);
            }
            if k + 1 < 62 {
                lemma_pow2_strictly_increases(k + 1, 62);
            }
        }
        b = b * 2;
        proof {
            k = k + 1;
        }
    }
    proof {
        assert(block_exponent(size, k) == k);
        if k < 63 {
            lemma_pow2_strictly_increases(k, 63);
        }
        if k < 62 {
            lemma_pow2_strictly_increases(k, 62);
        }
    }
    b
}

/// A region of a slab that was handed out and is not yet released.
#[derive(Debug, Clone, Copy, PartialEq, Eq, Structural)]
pub struct SubAllocation {
    pub offset: u64,
    pub size: u64,
}

/// One past the last byte of the region `a`.
pub open spec fn region_end(a: SubAllocation) -> int {
    a.offset + a.size
}

/// The `size` bytes from `off` and the region `a` share no byte.
pub open spec fn apart(off: int, size: int, a: SubAllocation) -> bool {
    off + size <= a.offset || region_end(a) <= off
}

/// Regions in increasing order of offset, each ending before the next one begins.
pub open spec fn sorted_apart(allocs: Seq<SubAllocation>) -> bool {
    forall|i: int, j: int|
        0 <= i < j < allocs.len() ==> region_end(#[trigger] allocs[i]) <= (#[trigger] allocs[j]).offset
}

/// Total size of the regions in use.
pub open spec fn in_use_total(allocs: Seq<SubAllocation>) -> int
    decreases allocs.len(),
{
    if allocs.len() == 0 {
        0
    } else {
        in_use_total(allocs.drop_last()) + allocs.last().size
    }
}

/// Where the first-fit scan stands when it reaches region `n`: the end of region
/// `n - 1`, or 0 at the start of the slab.
pub open spec fn cursor_before(allocs: Seq<SubAllocation>, n: int) -> u64 {
    if n <= 0 {
        0
    } else {
        (allocs[n - 1].offset + allocs[n - 1].size) as u64
    }
}

/// The gap where first fit puts `size` bytes at `alignment`, scanning the regions in
/// offset order from `i`: the index of the first region whose offset the aligned end
/// of the one before it, plus `size`, does not pass; the number of regions when only
/// the space after the last one is left.
pub open spec fn gap_index(allocs: Seq<SubAllocation>, i: int, size: u64, alignment: u64) -> int
    decreases allocs.len() - i,
{
    if i >= allocs.len() {
        allocs.len() as int
    } else if align_up(cursor_before(allocs, i), alignment) + size <= allocs[i].offset {
        i
    } else {
        gap_index(allocs, i + 1, size, alignment)
    }
}

/// Where a region at `off` joins the sorted regions: the index of the first region
/// from `i` on that begins after `off` (the number of regions if none does).
pub open spec fn insert_position(allocs: Seq<SubAllocation>, off: u64, i: int) -> int
    decreases allocs.len() - i,
{
    if i >= allocs.len() {
        allocs.len() as int
    } else if allocs[i].offset > off {
        i
    } else {
        insert_position(allocs, off, i + 1)
    }
}

/// Index of the first region at `offset` from entry `i` on (the number of regions if none).
pub open spec fn first_with_offset(allocs: Seq<SubAllocation>, offset: u64, i: int) -> int
    decreases allocs.len() - i,
{
    if i >= allocs.len() {
        allocs.len() as int
    } else if allocs[i].offset == offset {
        i
    } else {
        first_with_offset(allocs, offset, i + 1)
    }
}

/// Whether a region in use begins at `offset`.
pub open spec fn slab_release_succeeds(s: MemorySlab, offset: u64) -> bool {
    first_with_offset(s.spec_allocations(), offset, 0) < s.spec_allocations().len()
}

/// `after` is `before` once `offset` is released: when a region in use begins there,
/// it is dropped and its size returns to the free space; otherwise nothing changes.
pub open spec fn slab_released(before: MemorySlab, after: MemorySlab, offset: u64) -> bool {
    let allocs = before.spec_allocations();
    let k = first_with_offset(allocs, offset, 0);
    &&& after.wf()
    &&& after.spec_memory() == before.spec_memory()
    &&& after.spec_size() == before.spec_size()
    &&& after.spec_mapped() == before.spec_mapped()
    &&& if slab_release_succeeds(before, offset) {
        &&& after.spec_allocations() == allocs.remove(k)
        &&& after.spec_free_space() == before.spec_free_space() + allocs[k].size
    } else {
        after == before
    }
}

/// The slab `after` is `before` with one more region in use, of `size` bytes at
/// `off`, kept in offset order, and that much less free space.
pub open spec fn slab_allocated(before: MemorySlab, after: MemorySlab, off: u64, size: u64) -> bool {
    &&& after.wf()
    &&& after.spec_memory() == before.spec_memory()
    &&& after.spec_size() == before.spec_size()
    &&& after.spec_mapped() == before.spec_mapped()
    &&& after.spec_allocations() == before.spec_allocations().insert(
        insert_position(before.spec_allocations(), off, 0),
        SubAllocation { offset: off, size },
    )
    &&& after.spec_free_space() == before.spec_free_space() - size
}

/// A slab of device memory subdivided into regions.
pub struct MemorySlab {
    memory: VkDeviceMemory,
    size: u64,
    mapped: Option<u64>,
    allocations: Vec<SubAllocation>,
    free_space: u64,
}

impl MemorySlab {
    pub closed spec fn spec_memory(self) -> VkDeviceMemory {
        self.memory
    }

    pub closed spec fn spec_size(self) -> u64 {
        self.size
    }

    /// Host address at which the slab is mapped, if it is.
    pub closed spec fn spec_mapped(self) -> Option<u64> {
        self.mapped
    }

    /// The regions in use, in offset order.
    pub closed spec fn spec_allocations(self) -> Seq<SubAllocation> {
        self.allocations@
    }

    pub closed spec fn spec_free_space(self) -> u64 {
        self.free_space
    }

    /// The regions in use are non-empty, lie within the slab and never overlap (kept
    /// in offset order); the free space is the slab size minus what is in use; and a
    /// mapping covers addresses below 2^64.
    pub closed spec fn wf(self) -> bool {
        &&& forall|k: int|
            0 <= k < self.allocations@.len() ==> region_end(#[trigger] self.allocations@[k]) <= self.size
                && self.allocations@[k].size >= 1
        &&& sorted_apart(self.allocations@)
        &&& self.free_space + in_use_total(self.allocations@) == self.size
        &&& self.mapped matches Some(base) ==> base + self.size <= u64::MAX
    }

    /// Where `allocate(size, alignment)` places the block for `size` bytes, if anywhere.
    pub open spec fn block_placement(self, size: u64, alignment: u64) -> Option<u64> {
        if size > self.spec_size() {
            None
        } else {
            self.placement(spec_block_size(size), alignment)
        }
    }

    /// Where first fit puts exactly `size` bytes at `alignment`: at the aligned end of
    /// the regions before the first gap that holds them, scanning in offset order;
    /// `None` when the free space is short or no gap holds them.
    pub open spec fn placement(self, size: u64, alignment: u64) -> Option<u64> {
        let allocs = self.spec_allocations();
        let g = gap_index(allocs, 0, size, alignment);
        let a = align_up(cursor_before(allocs, g), alignment);
        if self.spec_free_space() < size {
            None
        } else if g < allocs.len() || a + size <= self.spec_size() {
            Some(a)
        } else {
            None
        }
    }

    /// A fresh slab of `size` bytes with nothing allocated.
    pub fn new(memory: VkDeviceMemory, size: u64, mapped: Option<u64>) -> (s: Self)
        requires
            mapped matches Some(base) ==> base + size <= u64::MAX,
        ensures
            s.wf(),
            s.spec_memory() == memory,
            s.spec_size() == size,
            s.spec_mapped() == mapped,
            s.spec_allocations() == Seq::<SubAllocation>::empty(),
            s.spec_free_space() == size,
    {
        let s = MemorySlab { memory, size, mapped, allocations: Vec::new(), free_space: size };
        assert(in_use_total(s.allocations@) == 0);
        s
    }

    pub fn memory(&self) -> (m: VkDeviceMemory)
        ensures
            m == self.spec_memory(),
    {
        self.memory
    }

    pub fn size(&self) -> (n: u64)
        ensures
            n == self.spec_size(),
    {
        self.size
    }

    pub fn mapped(&self) -> (m: Option<u64>)
        ensures
            m == self.spec_mapped(),
    {
        self.mapped
    }

    pub fn free_space(&self) -> (n: u64)
        ensures
            n == self.spec_free_space(),
    {
        self.free_space
    }

    /// The gap index and offset where first fit puts `size` bytes at `alignment`.
    fn find_gap(&self, size: u64, alignment: u64) -> (r: Option<(usize, u64)>)
        requires
            self.wf(),
            1 <= alignment,
            self.spec_size() + self.spec_size() + alignment <= u64::MAX + 1,
        ensures
            r is Some == self.placement(size, alignment) is Some,
            r matches Some((i, off)) ==> {
                &&& i == gap_index(self.spec_allocations(), 0, size, alignment)
                &&& Some(off) == self.placement(size, alignment)
            },
    {
        if self.free_space < size {
            return None;
        }
        proof {
            lemma_free_space_le_size(*self);
        }
        let ghost allocs = self.allocations@;
        let n = self.allocations.len();
        let mut cursor: u64 = 0;
        let mut i: usize = 0;
        while i < n
            invariant
                self.wf(),
                allocs == self.allocations@,
                n == allocs.len(),
                0 <= i <= n,
                1 <= alignment,
                size <= self.free_space <= self.size,
                self.size + self.size + alignment <= u64::MAX + 1,
                cursor == cursor_before(allocs, i as int),
                cursor <= self.size,
                gap_index(allocs, 0, size, alignment) == gap_index(allocs, i as int, size, alignment),
            decreases n - i,
        {
            let entry = self.allocations[i];
            let aligned = (cursor + alignment - 1) & !(alignment - 1);
            proof {
                lemma_and_le(((cursor + alignment - 1) as u64), !((alignment - 1) as u64));
            }
            if aligned + size <= entry.offset {
                return Some((i, aligned));
            }
            assert(region_end(allocs[i as int]) <= self.size);
            cursor = entry.offset + entry.size;
            i = i + 1;
        }
        let aligned = (cursor + alignment - 1) & !(alignment - 1);
        proof {
            lemma_and_le(((cursor + alignment - 1) as u64), !((alignment - 1) as u64));
        }
        if aligned + size <= self.size {
            Some((n, aligned))
        } else {
            None
        }
    }

    /// Where first fit would put exactly `size` bytes at `alignment`, without changing
    /// the slab: the bytes lie within the slab and share none with a region in use.
    pub fn find_placement(&self, size: u64, alignment: u64) -> (r: Option<u64>)
        requires
            self.wf(),
            1 <= alignment,
            self.spec_size() + self.spec_size() + alignment <= u64::MAX + 1,
        ensures
            r == self.placement(size, alignment),
            r matches Some(off) ==> {
                &&& off + size <= self.spec_size()
                &&& size <= self.spec_free_space()
                &&& is_pow2(alignment) ==> off % alignment == 0
                &&& forall|k: int|
                    0 <= k < self.spec_allocations().len() ==> apart(
                        off as int,
                        size as int,
                        #[trigger] self.spec_allocations()[k],
                    )
            },
    {
        let r = self.find_gap(size, alignment);
        match r {
            Some((_, off)) => {
                proof {
                    lemma_placement_facts(*self, size, alignment);
                }
                Some(off)
            },
            None => None,
        }
    }

    /// Records a region in use of `size` bytes at `off`, at its place in offset order.
    fn commit(&mut self, i: usize, off: u64, size: u64)
        requires
            old(self).wf(),
            1 <= size,
            off + size <= old(self).spec_size(),
            size <= old(self).spec_free_space(),
            i == insert_position(old(self).spec_allocations(), off, 0),
            forall|k: int|
                0 <= k < old(self).spec_allocations().len() ==> apart(
                    off as int,
                    size as int,
                    #[trigger] old(self).spec_allocations()[k],
                ),
        ensures
            slab_allocated(*old(self), *final(self), off, size),
    {
        let e = SubAllocation { offset: off, size };
        proof {
            lemma_insert_keeps_order(self.allocations@, e, i as int);
            lemma_total_insert(self.allocations@, i as int, e);
        }
        self.allocations.insert(i, e);
        self.free_space = self.free_space - size;
    }

    /// Carves the block for `size` bytes (the smallest power of two that holds them)
    /// at `alignment` out of the slab, first-fit in offset order; `None` when the
    /// request exceeds the slab, the free space is short or no gap holds the block.
    /// The block shares no byte with a region in use.
    pub fn allocate(&mut self, size: u64, alignment: u64) -> (r: Option<u64>)
        requires
            old(self).wf(),
            1 <= alignment,
            old(self).spec_size() + old(self).spec_size() + alignment <= u64::MAX + 1,
        ensures
            final(self).wf(),
            r == old(self).block_placement(size, alignment),
            r matches Some(off) ==> {
                &&& slab_allocated(*old(self), *final(self), off, spec_block_size(size))
                &&& off + spec_block_size(size) <= old(self).spec_size()
                &&& is_pow2(alignment) ==> off % alignment == 0
                &&& forall|k: int|
                    0 <= k < old(self).spec_allocations().len() ==> apart(
                        off as int,
                        spec_block_size(size) as int,
                        #[trigger] old(self).spec_allocations()[k],
                    )
            },
            r is None ==> *final(self) == *old(self),
    {
        if size > self.size {
            return None;
        }
        let block = block_size(size);
        self.place(block, alignment)
    }

    /// Carves exactly `size` (at least one) bytes at `alignment` out of the slab,
    /// first-fit in offset order.
    fn place(&mut self, size: u64, alignment: u64) -> (r: Option<u64>)
        requires
            old(self).wf(),
            1 <= size,
            1 <= alignment,
            old(self).spec_size() + old(self).spec_size() + alignment <= u64::MAX + 1,
        ensures
            final(self).wf(),
            r == old(self).placement(size, alignment),
            r matches Some(off) ==> {
                &&& slab_allocated(*old(self), *final(self), off, size)
                &&& off + size <= old(self).spec_size()
                &&& is_pow2(alignment) ==> off % alignment == 0
                &&& forall|k: int|
                    0 <= k < old(self).spec_allocations().len() ==> apart(
                        off as int,
                        size as int,
                        #[trigger] old(self).spec_allocations()[k],
                    )
            },
            r is None ==> *final(self) == *old(self),
    {
        match self.find_gap(size, alignment) {
            Some((i, off)) => {
                proof {
                    lemma_placement_facts(*self, size, alignment);
                }
                self.commit(i, off, size);
                Some(off)
            },
            None => None,
        }
    }

    /// Releases the region in use that begins at `offset`; `true` when there was one.
    pub fn free(&mut self, offset: u64) -> (r: bool)
        requires
            old(self).wf(),
        ensures
            slab_released(*old(self), *final(self), offset),
            r == slab_release_succeeds(*old(self), offset),
    {
        let ghost allocs = self.allocations@;
        let n = self.allocations.len();
        let mut i: usize = 0;
        while i < n
            invariant
                self.wf(),
                *self == *old(self),
                allocs == self.allocations@,
                n == allocs.len(),
                0 <= i <= n,
                first_with_offset(allocs, offset, 0) == first_with_offset(allocs, offset, i as int),
            decreases n - i,
        {
            if self.allocations[i].offset == offset {
                proof {
                    lemma_total_remove(allocs, i as int);
                    lemma_remove_keeps_order(allocs, i as int);
                    lemma_in_use_total_nonneg(allocs.remove(i as int));
                }
                let entry = self.allocations.remove(i);
                self.free_space = self.free_space + entry.size;
                return true;
            }
            i = i + 1;
        }
        false
    }
}

proof fn lemma_and_le(x: u64, y: u64)
    ensures
        x & y <= x,
{
    assert(x & y <= x) by (bit_vector);
}

/// Rounding up never moves below the start.
proof fn lemma_align_up_ge(x: u64, a: u64)
    requires
        1 <= a,
        x + a - 1 <= u64::MAX,
    ensures
        align_up(x, a) >= x,
{
    let y = (x + a - 1) as u64;
    let m = (a - 1) as u64;
    assert((y & !m) + m >= y) by (bit_vector);
}

/// Masking with `!(a - 1)` for a power of two `a` leaves a multiple of `a`.
proof fn lemma_align_up_aligned(x: u64, a: u64)
    requires
        1 <= a,
        x + a - 1 <= u64::MAX,
    ensures
        is_pow2(a) ==> align_up(x, a) % a == 0,
{
    if is_pow2(a) {
        let k = choose|k: nat| k < 64 && a == pow2(k);
        lemma_u64_pow2_no_overflow(k);
        let y = (x + a - 1) as u64;
        let m = (a - 1) as u64;
        let r = y & !m;
        assert(r & m == 0) by (bit_vector)
            requires
                r == y & !m,
        ;
        lemma_u64_low_bits_mask_is_mod(r, k);
        assert(low_bits_mask(k) as u64 == m);
    }
}

proof fn lemma_in_use_total_nonneg(allocs: Seq<SubAllocation>)
    ensures
        in_use_total(allocs) >= 0,
    decreases allocs.len(),
{
    if allocs.len() > 0 {
        lemma_in_use_total_nonneg(allocs.drop_last());
    }
}

proof fn lemma_free_space_le_size(s: MemorySlab)
    requires
        s.wf(),
    ensures
        s.free_space <= s.size,
{
    lemma_in_use_total_nonneg(s.allocations@);
}

/// Inserting a region adds its size to the total.
proof fn lemma_total_insert(allocs: Seq<SubAllocation>, i: int, e: SubAllocation)
    requires
        0 <= i <= allocs.len(),
    ensures
        in_use_total(allocs.insert(i, e)) == in_use_total(allocs) + e.size,
    decreases allocs.len(),
{
    let ins = allocs.insert(i, e);
    if i == allocs.len() {
        assert(ins.drop_last() =~= allocs);
    } else {
        lemma_total_insert(allocs.drop_last(), i, e);
        assert(ins.drop_last() =~= allocs.drop_last().insert(i, e));
    }
}

/// Removing a region takes its size off the total.
proof fn lemma_total_remove(allocs: Seq<SubAllocation>, k: int)
    requires
        0 <= k < allocs.len(),
    ensures
        in_use_total(allocs.remove(k)) == in_use_total(allocs) - allocs[k].size,
    decreases allocs.len(),
{
    let rem = allocs.remove(k);
    if k == allocs.len() - 1 {
        assert(rem =~= allocs.drop_last());
    } else {
        lemma_total_remove(allocs.drop_last(), k);
        assert(rem.drop_last() =~= allocs.drop_last().remove(k));
    }
}

/// Removing a region keeps the others in order and apart.
proof fn lemma_remove_keeps_order(allocs: Seq<SubAllocation>, k: int)
    requires
        0 <= k < allocs.len(),
        sorted_apart(allocs),
    ensures
        sorted_apart(allocs.remove(k)),
{
    let rem = allocs.remove(k);
    assert forall|i: int, j: int| 0 <= i < j < rem.len() implies region_end(#[trigger] rem[i])
        <= (#[trigger] rem[j]).offset by {
        let i2 = if i < k { i } else { i + 1 };
        let j2 = if j < k { j } else { j + 1 };
        assert(rem[i] == allocs[i2]);
        assert(rem[j] == allocs[j2]);
    }
}

/// In sorted, non-empty regions every later region begins after an earlier one ends.
proof fn lemma_sorted_offsets(allocs: Seq<SubAllocation>, i: int, j: int)
    requires
        sorted_apart(allocs),
        forall|k: int| 0 <= k < allocs.len() ==> (#[trigger] allocs[k]).size >= 1,
        0 <= i < j < allocs.len(),
    ensures
        allocs[i].offset < allocs[j].offset,
        region_end(allocs[i]) <= allocs[j].offset,
{
    assert(allocs[i].size >= 1);
}

/// The insert position of `off` is the first region from `i` that begins after it.
proof fn lemma_insert_position_at(allocs: Seq<SubAllocation>, off: u64, i: int, g: int)
    requires
        0 <= i <= g <= allocs.len(),
        forall|j: int| i <= j < g ==> (#[trigger] allocs[j]).offset <= off,
        g < allocs.len() ==> allocs[g].offset > off,
    ensures
        insert_position(allocs, off, i) == g,
    decreases g - i,
{
    if i < g {
        lemma_insert_position_at(allocs, off, i + 1, g);
    }
}

/// A region placed between the regions before `i` and those from `i` on keeps the
/// regions in order and apart.
proof fn lemma_insert_keeps_order(allocs: Seq<SubAllocation>, e: SubAllocation, i: int)
    requires
        sorted_apart(allocs),
        forall|k: int| 0 <= k < allocs.len() ==> (#[trigger] allocs[k]).size >= 1,
        e.size >= 1,
        i == insert_position(allocs, e.offset, 0),
        forall|k: int| 0 <= k < allocs.len() ==> apart(e.offset as int, e.size as int, #[trigger] allocs[k]),
    ensures
        0 <= i <= allocs.len(),
        sorted_apart(allocs.insert(i, e)),
        forall|k: int| 0 <= k < i ==> region_end(#[trigger] allocs[k]) <= e.offset,
        forall|k: int| i <= k < allocs.len() ==> e.offset + e.size <= (#[trigger] allocs[k]).offset,
{
    lemma_insert_position_facts(allocs, e.offset, 0);
    assert forall|k: int| 0 <= k < i implies region_end(#[trigger] allocs[k]) <= e.offset by {
        assert(apart(e.offset as int, e.size as int, allocs[k]));
        assert(allocs[k].size >= 1);
    }
    assert forall|k: int| i <= k < allocs.len() implies e.offset + e.size <= (#[trigger] allocs[k]).offset by {
        if k > i {
            lemma_sorted_offsets(allocs, i, k);
        }
        assert(apart(e.offset as int, e.size as int, allocs[k]));
        assert(allocs[k].size >= 1);
    }
    let ins = allocs.insert(i, e);
    assert forall|a: int, b: int| 0 <= a < b < ins.len() implies region_end(#[trigger] ins[a])
        <= (#[trigger] ins[b]).offset by {
        if b < i {
            assert(ins[a] == allocs[a] && ins[b] == allocs[b]);
        } else if b == i {
            assert(ins[a] == allocs[a] && ins[b] == e);
        } else if a < i {
            assert(ins[a] == allocs[a] && ins[b] == allocs[b - 1]);
            lemma_sorted_offsets(allocs, a, b - 1);
        } else if a == i {
            assert(ins[a] == e && ins[b] == allocs[b - 1]);
        } else {
            assert(ins[a] == allocs[a - 1] && ins[b] == allocs[b - 1]);
        }
    }
}

/// What the insert position of `off` says: regions before it begin at or below
/// `off`, the region at it begins above.
proof fn lemma_insert_position_facts(allocs: Seq<SubAllocation>, off: u64, i: int)
    requires
        0 <= i <= allocs.len(),
    ensures
        i <= insert_position(allocs, off, i) <= allocs.len(),
        forall|j: int| i <= j < insert_position(allocs, off, i) ==> (#[trigger] allocs[j]).offset <= off,
        insert_position(allocs, off, i) < allocs.len() ==> allocs[insert_position(allocs, off, i)].offset > off,
    decreases allocs.len() - i,
{
    if i < allocs.len() && allocs[i].offset <= off {
        lemma_insert_position_facts(allocs, off, i + 1);
    }
}

/// What the gap index says: it is a region index or the number of regions, and when
/// it is a region, the aligned cursor plus `size` reaches no further than its offset.
proof fn lemma_gap_index_facts(allocs: Seq<SubAllocation>, i: int, size: u64, alignment: u64)
    requires
        0 <= i <= allocs.len(),
    ensures
        i <= gap_index(allocs, i, size, alignment) <= allocs.len(),
        gap_index(allocs, i, size, alignment) < allocs.len() ==> align_up(
            cursor_before(allocs, gap_index(allocs, i, size, alignment)),
            alignment,
        ) + size <= allocs[gap_index(allocs, i, size, alignment)].offset,
    decreases allocs.len() - i,
{
    if i < allocs.len() && align_up(cursor_before(allocs, i), alignment) + size > allocs[i].offset {
        lemma_gap_index_facts(allocs, i + 1, size, alignment);
    }
}

/// Where first fit places a request: inside the slab, in the free space, aligned for
/// a power-of-two alignment, apart from every region in use, and (for a non-empty
/// request) at the insert position of its offset.
proof fn lemma_placement_facts(s: MemorySlab, size: u64, alignment: u64)
    requires
        s.wf(),
        1 <= alignment,
        s.spec_size() + s.spec_size() + alignment <= u64::MAX + 1,
        s.placement(size, alignment) is Some,
    ensures
        ({
            let allocs = s.spec_allocations();
            let off = s.placement(size, alignment)->0;
            let g = gap_index(allocs, 0, size, alignment);
            &&& off + size <= s.spec_size()
            &&& size <= s.spec_free_space()
            &&& is_pow2(alignment) ==> off % alignment == 0
            &&& forall|k: int| 0 <= k < allocs.len() ==> apart(off as int, size as int, #[trigger] allocs[k])
            &&& size >= 1 ==> g == insert_position(allocs, off, 0)
        }),
{
    let allocs = s.spec_allocations();
    let g = gap_index(allocs, 0, size, alignment);
    lemma_gap_index_facts(allocs, 0, size, alignment);
    let c = cursor_before(allocs, g);
    assert(c <= s.spec_size()) by {
        if g > 0 {
            assert(region_end(allocs[g - 1]) <= s.spec_size());
        }
    }
    lemma_align_up_ge(c, alignment);
    lemma_align_up_aligned(c, alignment);
    let off = align_up(c, alignment);
    assert(s.placement(size, alignment) == Some(off));
    assert forall|k: int| 0 <= k < g implies region_end(#[trigger] allocs[k]) <= c by {
        if k < g - 1 {
            lemma_sorted_offsets(allocs, k, g - 1);
        }
    }
    assert forall|k: int| g <= k < allocs.len() implies off + size <= (#[trigger] allocs[k]).offset by {
        if k > g {
            lemma_sorted_offsets(allocs, g, k);
        }
    }
    assert forall|k: int| 0 <= k < allocs.len() implies apart(off as int, size as int, #[trigger] allocs[k]) by {
        if k < g {
            assert(region_end(allocs[k]) <= c);
        } else {
            assert(off + size <= allocs[k].offset);
        }
    }
    if g < allocs.len() {
        assert(allocs[g].offset <= s.spec_size()) by {
            assert(region_end(allocs[g]) <= s.spec_size());
        }
    }
    if size >= 1 {
        assert forall|j: int| 0 <= j < g implies (#[trigger] allocs[j]).offset <= off by {
            assert(region_end(allocs[j]) <= c);
        }
        lemma_insert_position_at(allocs, off, 0, g);
    }
}


/// Memory pool types.
#[derive(Debug, Clone, Copy, PartialEq, Eq, Hash, Structural)]
pub enum PoolType {
    /// GPU-only memory.
    DeviceLocal,
    /// Pinned staging memory, persistently mapped.
    HostVisibleCoherent,
    /// Readback memory, persistently mapped.
    HostVisibleCached,
}

impl PoolType {
    /// The memory property bits a memory type needs to serve this pool.
    pub open spec fn spec_required_flags(self) -> u32 {
        match self {
            PoolType::DeviceLocal => 0x1,
            PoolType::HostVisibleCoherent => 0x6,
            PoolType::HostVisibleCached => 0xa,
        }
    }

    /// Whether slabs of this pool are mapped into host memory.
    pub open spec fn spec_should_map(self) -> bool {
        self is HostVisibleCoherent || self is HostVisibleCached
    }

    /// Device-local for `DeviceLocal`; host-visible and coherent, or host-visible and
    /// cached, for the two host pools.
    pub fn required_flags(&self) -> (f: VkMemoryPropertyFlags)
        ensures
            f@ == self.spec_required_flags(),
    {
        match self {
            PoolType::DeviceLocal => VkMemoryPropertyFlags::DEVICE_LOCAL(),
            PoolType::HostVisibleCoherent => {
                let f = VkMemoryPropertyFlags::HOST_VISIBLE().union(
                    VkMemoryPropertyFlags::HOST_COHERENT(),
                );
                assert(0x2u32 | 0x4u32 == 0x6u32) by (bit_vector);
                f
            },
            PoolType::HostVisibleCached => {
                let f = VkMemoryPropertyFlags::HOST_VISIBLE().union(
                    VkMemoryPropertyFlags::HOST_CACHED(),
                );
                assert(0x2u32 | 0x8u32 == 0xau32) by (bit_vector);
                f
            },
        }
    }

    /// Whether the pool is persistently mapped (the two host-visible pools).
    pub fn should_map(&self) -> (b: bool)
        ensures
            b == self.spec_should_map(),
    {
        match self {
            PoolType::DeviceLocal => false,
            PoolType::HostVisibleCoherent => true,
            PoolType::HostVisibleCached => true,
        }
    }
}

/// What each pool asks of a memory type, bit by bit (device-local 0x1, host-visible
/// 0x2, host-coherent 0x4, host-cached 0x8, and no other bit): only the device-local
/// pool asks for device-local memory; the two other pools ask for host-visible
/// memory, the coherent pool for coherent and the cached pool for cached memory.
pub proof fn lemma_pool_required_flags(t: PoolType)
    ensures
        ((t.spec_required_flags() & 0x1) != 0) == (t is DeviceLocal),
        ((t.spec_required_flags() & 0x2) != 0) == !(t is DeviceLocal),
        ((t.spec_required_flags() & 0x4) != 0) == (t is HostVisibleCoherent),
        ((t.spec_required_flags() & 0x8) != 0) == (t is HostVisibleCached),
        (t.spec_required_flags() & !0xfu32) == 0,
{
    match t {
        PoolType::DeviceLocal => {
            assert((0x1u32 & 0x1) != 0 && (0x1u32 & 0x2) == 0 && (0x1u32 & 0x4) == 0 && (0x1u32 & 0x8) == 0
                && (0x1u32 & !0xfu32) == 0) by (bit_vector);
        },
        PoolType::HostVisibleCoherent => {
            assert((0x6u32 & 0x1) == 0 && (0x6u32 & 0x2) != 0 && (0x6u32 & 0x4) != 0 && (0x6u32 & 0x8) == 0
                && (0x6u32 & !0xfu32) == 0) by (bit_vector);
        },
        PoolType::HostVisibleCached => {
            assert((0xau32 & 0x1) == 0 && (0xau32 & 0x2) != 0 && (0xau32 & 0x4) == 0 && (0xau32 & 0x8) != 0
                && (0xau32 & !0xfu32) == 0) by (bit_vector);
        },
    }
}

/// A pool's slabs are mapped into host memory exactly when the pool asks for
/// host-visible memory (bit 0x2): both host-visible pools are mapped, the device-local
/// one is not.
pub proof fn lemma_pool_mapped_iff_host_visible(t: PoolType)
    ensures
        t.spec_should_map() == ((t.spec_required_flags() & 0x2) != 0),
{
    lemma_pool_required_flags(t);
}

/// Size of the slab taken for a block of `size` bytes when slabs are `slab_size`
/// bytes: the larger of the two.
pub open spec fn spec_new_slab_size(slab_size: u64, size: u64) -> u64 {
    if size > slab_size {
        size
    } else {
        slab_size
    }
}

pub fn new_slab_size(slab_size: u64, size: u64) -> (n: u64)
    ensures
        n == spec_new_slab_size(slab_size, size),
{
    if size > slab_size {
        size
    } else {
        slab_size
    }
}

/// A new slab holds both the configured slab size and the block it is taken for, and
/// is no larger than the larger of the two.
pub proof fn lemma_new_slab_size(slab_size: u64, size: u64)
    ensures
        spec_new_slab_size(slab_size, size) >= slab_size,
        spec_new_slab_size(slab_size, size) >= size,
        spec_new_slab_size(slab_size, size) == slab_size || spec_new_slab_size(slab_size, size) == size,
{
}

/// Host address of byte `off` of a mapping at `mapped`.
pub open spec fn mapped_at(mapped: Option<u64>, off: u64) -> Option<u64> {
    match mapped {
        Some(base) => Some((base + off) as u64),
        None => None,
    }
}

/// Total size of the slabs.
pub open spec fn slab_size_total(slabs: Seq<MemorySlab>) -> int
    decreases slabs.len(),
{
    if slabs.len() == 0 {
        0
    } else {
        slab_size_total(slabs.drop_last()) + slabs.last().spec_size()
    }
}

/// Index of the first slab from `i` on that can place `size` bytes at `alignment`
/// (the number of slabs if none can).
pub open spec fn first_fitting_slab(slabs: Seq<MemorySlab>, size: u64, alignment: u64, i: int) -> int
    decreases slabs.len() - i,
{
    if i >= slabs.len() {
        slabs.len() as int
    } else if slabs[i].placement(size, alignment) is Some {
        i
    } else {
        first_fitting_slab(slabs, size, alignment, i + 1)
    }
}

/// Every slab can be scanned at `alignment` without offsets leaving 64 bits.
pub open spec fn slabs_fit_alignment(slabs: Seq<MemorySlab>, alignment: u64) -> bool {
    forall|j: int|
        0 <= j < slabs.len() ==> #[trigger] slabs[j].spec_size() + slabs[j].spec_size() + alignment
            <= u64::MAX + 1
}

/// The memory pool of one type on one device.
pub struct MemoryPool {
    device: VkDevice,
    pool_type: PoolType,
    memory_type_index: u32,
    slabs: Vec<MemorySlab>,
    total_allocated: u64,
}

impl MemoryPool {
    pub closed spec fn spec_device(self) -> VkDevice {
        self.device
    }

    pub closed spec fn spec_pool_type(self) -> PoolType {
        self.pool_type
    }

    pub closed spec fn spec_memory_type_index(self) -> u32 {
        self.memory_type_index
    }

    pub closed spec fn spec_slabs(self) -> Seq<MemorySlab> {
        self.slabs@
    }

    pub closed spec fn spec_total_allocated(self) -> u64 {
        self.total_allocated
    }

    /// Every slab is well formed and the total is the sum of the slab sizes.
    pub closed spec fn wf(self) -> bool {
        &&& forall|j: int| 0 <= j < self.slabs@.len() ==> (#[trigger] self.slabs@[j]).wf()
        &&& self.total_allocated == slab_size_total(self.slabs@)
    }

    /// An empty pool.
    pub fn new(device: VkDevice, pool_type: PoolType, memory_type_index: u32) -> (p: Self)
        ensures
            p.wf(),
            p.spec_device() == device,
            p.spec_pool_type() == pool_type,
            p.spec_memory_type_index() == memory_type_index,
            p.spec_slabs() == Seq::<MemorySlab>::empty(),
            p.spec_total_allocated() == 0,
    {
        MemoryPool { device, pool_type, memory_type_index, slabs: Vec::new(), total_allocated: 0 }
    }

    pub fn device(&self) -> (d: VkDevice)
        ensures
            d == self.spec_device(),
    {
        self.device
    }

    pub fn pool_type(&self) -> (t: PoolType)
        ensures
            t == self.spec_pool_type(),
    {
        self.pool_type
    }

    pub fn memory_type_index(&self) -> (i: u32)
        ensures
            i == self.spec_memory_type_index(),
    {
        self.memory_type_index
    }

    pub fn total_allocated(&self) -> (n: u64)
        ensures
            n == self.spec_total_allocated(),
    {
        self.total_allocated
    }

    pub fn slab_count(&self) -> (n: usize)
        ensures
            n == self.spec_slabs().len(),
    {
        self.slabs.len()
    }

    /// The first slab that can place the request, and where.
    pub fn find_slab(&self, size: u64, alignment: u64) -> (r: Option<(usize, u64)>)
        requires
            self.wf(),
            1 <= alignment,
            slabs_fit_alignment(self.spec_slabs(), alignment),
        ensures
            ({
                let j = first_fitting_slab(self.spec_slabs(), size, alignment, 0);
                &&& j == self.spec_slabs().len() ==> r is None
                &&& j < self.spec_slabs().len() ==> r == Some(
                    (j as usize, self.spec_slabs()[j].placement(size, alignment)->0),
                )
                &&& 0 <= j <= self.spec_slabs().len()
            }),
            r matches Some((i, off)) ==> off + size <= self.spec_slabs()[i as int].spec_size()
                && size <= self.spec_slabs()[i as int].spec_free_space(),
    {
        proof {
            lemma_first_fitting_slab_bound(self.slabs@, size, alignment, 0);
        }
        let n = self.slabs.len();
        let mut j: usize = 0;
        while j < n
            invariant
                self.wf(),
                n == self.slabs@.len(),
                0 <= j <= n,
                1 <= alignment,
                slabs_fit_alignment(self.slabs@, alignment),
                first_fitting_slab(self.slabs@, size, alignment, 0) == first_fitting_slab(
                    self.slabs@,
                    size,
                    alignment,
                    j as int,
                ),
            decreases n - j,
        {
            assert(self.slabs@[j as int].wf());
            assert(self.slabs@[j as int].spec_size() + self.slabs@[j as int].spec_size() + alignment
                <= u64::MAX + 1);
            if let Some(off) = self.slabs[j].find_placement(size, alignment) {
                return Some((j, off));
            }
            j = j + 1;
        }
        None
    }

    /// Allocates from the first existing slab that has room; `None` when none has.
    /// Returns the slab's memory, the offset in it, and the mapped address of the
    /// allocation when the slab is mapped.
    #[verifier::spinoff_prover]
    pub fn allocate_in_existing_slab(&mut self, size: u64, alignment: u64) -> (r: Option<
        (VkDeviceMemory, u64, Option<u64>),
    >)
        requires
            1 <= size,
            old(self).wf(),
            1 <= alignment,
            slabs_fit_alignment(old(self).spec_slabs(), alignment),
        ensures
            final(self).wf(),
            final(self).spec_device() == old(self).spec_device(),
            final(self).spec_pool_type() == old(self).spec_pool_type(),
            final(self).spec_memory_type_index() == old(self).spec_memory_type_index(),
            final(self).spec_total_allocated() == old(self).spec_total_allocated(),
            ({
                let slabs = old(self).spec_slabs();
                let j = first_fitting_slab(slabs, size, alignment, 0);
                &&& j == slabs.len() ==> r is None && final(self).spec_slabs() == slabs
                &&& j < slabs.len() ==> {
                    let off = slabs[j].placement(size, alignment)->0;
                    &&& r == Some(
                        (slabs[j].spec_memory(), off, mapped_at(slabs[j].spec_mapped(), off)),
                    )
                    &&& final(self).spec_slabs().len() == slabs.len()
                    &&& forall|k: int|
                        0 <= k < slabs.len() && k != j ==> final(self).spec_slabs()[k]
                            == slabs[k]
                    &&& slab_allocated(slabs[j], final(self).spec_slabs()[j], off, size)
                }
            }),
    {
        match self.find_slab(size, alignment) {
            None => None,
            Some((j, off)) => {
                let ghost old_slabs = self.slabs@;
                assert(old_slabs[j as int].wf());
                assert(old_slabs[j as int].spec_size() + old_slabs[j as int].spec_size()
                    + alignment <= u64::MAX + 1);
                proof {
                    let js = first_fitting_slab(old_slabs, size, alignment, 0);
                    assert(js < old_slabs.len());
                    assert(old_slabs.len() == self.slabs.len());
                    assert(js as usize == js);
                    assert(j as int == js);
                    lemma_first_fitting_slab_fits(old_slabs, size, alignment, 0);
                    assert(old_slabs[j as int].placement(size, alignment) is Some);
                    assert(old_slabs[j as int].placement(size, alignment) == Some(off));
                }
                let mut slab = self.slabs.remove(j);
                assert(slab == old_slabs[j as int]);
                let placed = slab.place(size, alignment);
                assert(placed == Some(off));
                let memory = slab.memory();
                assert(memory == old_slabs[j as int].spec_memory());
                let mapped = match slab.mapped() {
                    Some(base) => Some(base + off),
                    None => None,
                };
                assert(mapped == mapped_at(old_slabs[j as int].spec_mapped(), off));
                self.slabs.insert(j, slab);
                proof {
                    assert(self.slabs@ =~= old_slabs.update(j as int, slab));
                    lemma_slab_size_total_update(old_slabs, j as int, slab);
                    assert(old_slabs == old(self).spec_slabs());
                    assert(j == first_fitting_slab(old_slabs, size, alignment, 0));
                    assert(off == old_slabs[j as int].placement(size, alignment)->0);
                }
                Some((memory, off, mapped))
            },
        }
    }

    /// Takes a fresh slab of `spec_new_slab_size(slab_size, size)` bytes backed by `memory`
    /// (mapped at `mapped` when host-visible) and allocates the request at its start.
    /// Returns the offset (always 0) and the mapped address of the allocation.
    pub fn allocate_in_new_slab(
        &mut self,
        memory: VkDeviceMemory,
        mapped: Option<u64>,
        slab_size: u64,
        size: u64,
        alignment: u64,
    ) -> (r: (u64, Option<u64>))
        requires
            1 <= size,
            old(self).wf(),
            1 <= alignment,
            spec_new_slab_size(slab_size, size) + spec_new_slab_size(slab_size, size) + alignment <= u64::MAX + 1,
            mapped matches Some(base) ==> base + spec_new_slab_size(slab_size, size) <= u64::MAX,
            old(self).spec_total_allocated() + spec_new_slab_size(slab_size, size) <= u64::MAX,
        ensures
            final(self).wf(),
            final(self).spec_device() == old(self).spec_device(),
            final(self).spec_pool_type() == old(self).spec_pool_type(),
            final(self).spec_memory_type_index() == old(self).spec_memory_type_index(),
            final(self).spec_total_allocated() == old(self).spec_total_allocated()
                + spec_new_slab_size(slab_size, size),
            final(self).spec_slabs().len() == old(self).spec_slabs().len() + 1,
            forall|k: int|
                0 <= k < old(self).spec_slabs().len() ==> final(self).spec_slabs()[k] == old(
                    self,
                ).spec_slabs()[k],
            ({
                let s = final(self).spec_slabs().last();
                &&& s.spec_memory() == memory
                &&& s.spec_size() == spec_new_slab_size(slab_size, size)
                &&& s.spec_mapped() == mapped
                &&& s.spec_allocations() == seq![SubAllocation { offset: 0, size }]
                &&& s.spec_free_space() == spec_new_slab_size(slab_size, size) - size
            }),
            r == (0u64, mapped),
    {
        let new_size = new_slab_size(slab_size, size);
        let mut slab = MemorySlab::new(memory, new_size, mapped);
        proof {
            let m = (alignment - 1) as u64;
            assert(m & !m == 0) by (bit_vector);
            assert(align_up(0, alignment) == 0);
            assert(cursor_before(Seq::<SubAllocation>::empty(), 0) == 0);
        }
        let placed = slab.place(size, alignment);
        let off = placed.unwrap();
        let ghost old_slabs = self.slabs@;
        self.slabs.push(slab);
        proof {
            assert(self.slabs@.drop_last() =~= old_slabs);
            assert(slab.spec_allocations() =~= seq![SubAllocation { offset: 0, size }]);
        }
        self.total_allocated = self.total_allocated + new_size;
        (off, mapped)
    }

    /// Releases the allocation at `offset` in the first slab backed by `memory`;
    /// `false` when no slab is backed by it or that slab has nothing in use there.
    pub fn free(&mut self, memory: VkDeviceMemory, offset: u64) -> (r: bool)
        requires
            old(self).wf(),
        ensures
            pool_released(*old(self), *final(self), memory, offset),
            r == pool_release_succeeds(*old(self), memory, offset),
    {
        proof {
            lemma_first_slab_with_memory_bound(self.slabs@, memory, 0);
        }
        let n = self.slabs.len();
        let mut j: usize = 0;
        while j < n
            invariant
                self.wf(),
                *self == *old(self),
                n == self.slabs@.len(),
                0 <= j <= n,
                first_slab_with_memory(self.slabs@, memory, 0) == first_slab_with_memory(
                    self.slabs@,
                    memory,
                    j as int,
                ),
            decreases n - j,
        {
            if self.slabs[j].memory().as_raw() == memory.as_raw() {
                let ghost old_slabs = self.slabs@;
                assert(old_slabs[j as int].wf());
                let mut slab = self.slabs.remove(j);
                let r = slab.free(offset);
                self.slabs.insert(j, slab);
                proof {
                    assert(self.slabs@ =~= old_slabs.update(j as int, slab));
                    lemma_slab_size_total_update(old_slabs, j as int, slab);
                    lemma_first_with_offset_bound(old_slabs[j as int].spec_allocations(), offset, 0);
                    if !r {
                        assert(self.slabs@ =~= old_slabs);
                    }
                }
                return r;
            }
            j = j + 1;
        }
        false
    }
}

/// Whether releasing `offset` in the slab backed by `memory` finds a region in use:
/// the first slab backed by `memory` has one that begins at `offset`.
pub open spec fn pool_release_succeeds(p: MemoryPool, memory: VkDeviceMemory, offset: u64) -> bool {
    let slabs = p.spec_slabs();
    let j = first_slab_with_memory(slabs, memory, 0);
    j < slabs.len() && slab_release_succeeds(slabs[j], offset)
}

/// `after` is `before` once the allocation at `offset` in memory `memory` is released:
/// when the release succeeds, the first slab backed by `memory` releases its region
/// at `offset` and no other slab changes; otherwise nothing changes.
pub open spec fn pool_released(before: MemoryPool, after: MemoryPool, memory: VkDeviceMemory, offset: u64) -> bool {
    let slabs = before.spec_slabs();
    let j = first_slab_with_memory(slabs, memory, 0);
    &&& after.wf()
    &&& after.spec_device() == before.spec_device()
    &&& after.spec_pool_type() == before.spec_pool_type()
    &&& after.spec_memory_type_index() == before.spec_memory_type_index()
    &&& after.spec_total_allocated() == before.spec_total_allocated()
    &&& after.spec_slabs().len() == slabs.len()
    &&& if pool_release_succeeds(before, memory, offset) {
        &&& forall|i: int| 0 <= i < slabs.len() && i != j ==> after.spec_slabs()[i] == slabs[i]
        &&& slab_released(slabs[j], after.spec_slabs()[j], offset)
    } else {
        after.spec_slabs() == slabs
    }
}

/// Index of the first slab from `i` on backed by `memory` (the number of slabs if none is).
pub open spec fn first_slab_with_memory(slabs: Seq<MemorySlab>, memory: VkDeviceMemory, i: int) -> int
    decreases slabs.len() - i,
{
    if i >= slabs.len() {
        slabs.len() as int
    } else if slabs[i].spec_memory().raw_value() == memory.raw_value() {
        i
    } else {
        first_slab_with_memory(slabs, memory, i + 1)
    }
}

proof fn lemma_first_fitting_slab_bound(slabs: Seq<MemorySlab>, size: u64, alignment: u64, i: int)
    requires
        0 <= i,
    ensures
        i <= first_fitting_slab(slabs, size, alignment, i) <= slabs.len() || (i > slabs.len()
            && first_fitting_slab(slabs, size, alignment, i) == slabs.len()),
    decreases slabs.len() - i,
{
    if i < slabs.len() {
        lemma_first_fitting_slab_bound(slabs, size, alignment, i + 1);
    }
}

proof fn lemma_first_fitting_slab_fits(slabs: Seq<MemorySlab>, size: u64, alignment: u64, i: int)
    requires
        0 <= i,
    ensures
        first_fitting_slab(slabs, size, alignment, i) < slabs.len() ==> slabs[first_fitting_slab(
            slabs,
            size,
            alignment,
            i,
        )].placement(size, alignment) is Some,
    decreases slabs.len() - i,
{
    if i < slabs.len() && slabs[i].placement(size, alignment) is None {
        lemma_first_fitting_slab_fits(slabs, size, alignment, i + 1);
    }
}

proof fn lemma_first_slab_with_memory_bound(slabs: Seq<MemorySlab>, memory: VkDeviceMemory, i: int)
    requires
        0 <= i <= slabs.len(),
    ensures
        i <= first_slab_with_memory(slabs, memory, i) <= slabs.len(),
    decreases slabs.len() - i,
{
    if i < slabs.len() {
        lemma_first_slab_with_memory_bound(slabs, memory, i + 1);
    }
}

proof fn lemma_first_with_offset_bound(allocs: Seq<SubAllocation>, offset: u64, i: int)
    requires
        0 <= i <= allocs.len(),
    ensures
        i <= first_with_offset(allocs, offset, i) <= allocs.len(),
    decreases allocs.len() - i,
{
    if i < allocs.len() {
        lemma_first_with_offset_bound(allocs, offset, i + 1);
    }
}

proof fn lemma_slab_size_total_update(slabs: Seq<MemorySlab>, j: int, s: MemorySlab)
    requires
        0 <= j < slabs.len(),
        s.spec_size() == slabs[j].spec_size(),
    ensures
        slab_size_total(slabs.update(j, s)) == slab_size_total(slabs),
    decreases slabs.len(),
{
    let upd = slabs.update(j, s);
    if j == slabs.len() - 1 {
        assert(upd.drop_last() =~= slabs.drop_last());
    } else {
        lemma_slab_size_total_update(slabs.drop_last(), j, s);
        assert(upd.drop_last() =~= slabs.drop_last().update(j, s));
    }
}


/// A recorded allocation: where it lives and, for mapped pools, its host address.
#[derive(Debug, Clone, Copy)]
pub struct AllocationHandle {
    memory: VkDeviceMemory,
    offset: u64,
    size: u64,
    pool_type: PoolType,
    mapped: Option<u64>,
}

impl AllocationHandle {
    pub closed spec fn spec_memory(self) -> VkDeviceMemory {
        self.memory
    }

    pub closed spec fn spec_offset(self) -> u64 {
        self.offset
    }

    pub closed spec fn spec_size(self) -> u64 {
        self.size
    }

    pub closed spec fn spec_pool_type(self) -> PoolType {
        self.pool_type
    }

    pub closed spec fn spec_mapped(self) -> Option<u64> {
        self.mapped
    }

    /// The device memory handle.
    pub fn memory(&self) -> (m: VkDeviceMemory)
        ensures
            m == self.spec_memory(),
    {
        self.memory
    }

    /// The offset within the memory.
    pub fn offset(&self) -> (o: u64)
        ensures
            o == self.spec_offset(),
    {
        self.offset
    }

    /// The allocation size.
    pub fn size(&self) -> (n: u64)
        ensures
            n == self.spec_size(),
    {
        self.size
    }

    /// The host address of the allocation, when its pool is mapped.
    pub fn mapped_ptr(&self) -> (p: Option<u64>)
        ensures
            p == self.spec_mapped(),
    {
        self.mapped
    }
}

/// Statistics of one pool.
#[derive(Debug, Default, Clone, Copy, PartialEq, Eq)]
pub struct PoolStats {
    pub total_allocated: u64,
    pub total_slabs: usize,
    pub allocations_in_flight: usize,
}

/// Memory that the driver handed out for a new slab, and where it is mapped.
#[derive(Debug, Clone, Copy)]
pub struct NewSlab {
    pub memory: VkDeviceMemory,
    pub mapped: Option<u64>,
}

/// What the driver must provide before an allocation can proceed.
#[derive(Debug, Clone, Copy, PartialEq, Eq)]
pub struct SlabRequest {
    pub memory_type_index: u32,
    pub allocation_size: u64,
    pub map: bool,
}

/// Whether `p` is the pool of `device` and type `t`.
pub open spec fn pool_is(p: MemoryPool, device: VkDevice, t: PoolType) -> bool {
    p.spec_device().raw_value() == device.raw_value() && p.spec_pool_type() == t
}

/// No two pools belong to the same device and type.
pub open spec fn pools_unique(pools: Seq<MemoryPool>) -> bool {
    forall|i: int, j: int|
        0 <= i < pools.len() && 0 <= j < pools.len() && i != j ==> !pool_is(
            #[trigger] pools[j],
            pools[i].spec_device(),
            (#[trigger] pools[i]).spec_pool_type(),
        )
}

/// Index of the pool of `device` and type `t` from `i` on (the number of pools if none).
pub open spec fn find_pool(pools: Seq<MemoryPool>, device: VkDevice, t: PoolType, i: int) -> int
    decreases pools.len() - i,
{
    if i >= pools.len() {
        pools.len() as int
    } else if pool_is(pools[i], device, t) {
        i
    } else {
        find_pool(pools, device, t, i + 1)
    }
}

/// Index of the allocation with `id` from `i` on (the number of allocations if none).
pub open spec fn find_allocation(allocs: Seq<(u64, AllocationHandle)>, id: u64, i: int) -> int
    decreases allocs.len() - i,
{
    if i >= allocs.len() {
        allocs.len() as int
    } else if allocs[i].0 == id {
        i
    } else {
        find_allocation(allocs, id, i + 1)
    }
}

/// Number of recorded allocations from pools of type `t`.
pub open spec fn count_of_type(allocs: Seq<(u64, AllocationHandle)>, t: PoolType) -> int
    decreases allocs.len(),
{
    if allocs.len() == 0 {
        0
    } else {
        count_of_type(allocs.drop_last(), t) + if allocs.last().1.spec_pool_type() == t {
            1int
        } else {
            0
        }
    }
}

/// Index of the first memory type from `i` on, among the first `count`, whose
/// property bits include all of `bits`.
pub open spec fn first_memory_type(types: Seq<VkMemoryType>, count: int, bits: u32, i: int) -> Option<u32>
    decreases count - i,
{
    if i >= count {
        None
    } else if (types[i].propertyFlags@ & bits) == bits {
        Some(i as u32)
    } else {
        first_memory_type(types, count, bits, i + 1)
    }
}

/// The memory type a pool is set up on is the first, among the first `count`, whose
/// property bits hold all of `bits`: it has them, and no earlier type has; and when
/// there is none, no type among the first `count` has them.
pub proof fn lemma_first_memory_type(types: Seq<VkMemoryType>, count: int, bits: u32, i: int)
    requires
        0 <= i,
        count <= types.len(),
        count <= u32::MAX,
    ensures
        first_memory_type(types, count, bits, i) matches Some(m) ==> {
            &&& i <= m < count
            &&& (types[m as int].propertyFlags@ & bits) == bits
            &&& forall|j: int| i <= j < m ==> (#[trigger] types[j].propertyFlags@ & bits) != bits
        },
        first_memory_type(types, count, bits, i) is None ==> forall|j: int|
            i <= j < count ==> (#[trigger] types[j].propertyFlags@ & bits) != bits,
    decreases count - i,
{
    if i < count && (types[i].propertyFlags@ & bits) != bits {
        lemma_first_memory_type(types, count, bits, i + 1);
    }
}

/// Every slab is at most `MAX_REQUEST` bytes.
pub open spec fn slabs_bounded(slabs: Seq<MemorySlab>) -> bool {
    forall|j: int| 0 <= j < slabs.len() ==> (#[trigger] slabs[j]).spec_size() <= MAX_REQUEST
}

/// `after` is `before` once a request of `size` bytes at `alignment` is served,
/// with the result `(memory, off, mapped)`: from the first slab that can place it,
/// or else from a new slab of `spec_new_slab_size(slab_size, size)` bytes backed by
/// `new_slab`'s memory and placed at its start. A
/// new slab keeps its mapping only in a pool that maps its memory.
pub open spec fn pool_served(
    before: MemoryPool,
    after: MemoryPool,
    slab_size: u64,
    size: u64,
    alignment: u64,
    new_slab: Option<NewSlab>,
    memory: VkDeviceMemory,
    off: u64,
    mapped: Option<u64>,
) -> bool {
    let slabs = before.spec_slabs();
    let j = first_fitting_slab(slabs, size, alignment, 0);
    &&& after.wf()
    &&& after.spec_device() == before.spec_device()
    &&& after.spec_pool_type() == before.spec_pool_type()
    &&& after.spec_memory_type_index() == before.spec_memory_type_index()
    &&& if j < slabs.len() {
        let o = slabs[j].placement(size, alignment)->0;
        &&& memory == slabs[j].spec_memory()
        &&& off == o
        &&& mapped == mapped_at(slabs[j].spec_mapped(), o)
        &&& after.spec_total_allocated() == before.spec_total_allocated()
        &&& after.spec_slabs().len() == slabs.len()
        &&& forall|i: int| 0 <= i < slabs.len() && i != j ==> after.spec_slabs()[i] == slabs[i]
        &&& slab_allocated(slabs[j], after.spec_slabs()[j], o, size)
    } else {
        new_slab matches Some(ns) && {
            let m = if before.spec_pool_type().spec_should_map() {
                ns.mapped
            } else {
                None
            };
            let s = after.spec_slabs().last();
            &&& memory == ns.memory
            &&& off == 0
            &&& mapped == m
            &&& after.spec_total_allocated() == before.spec_total_allocated() + spec_new_slab_size(slab_size, size)
            &&& after.spec_slabs().len() == slabs.len() + 1
            &&& forall|i: int| 0 <= i < slabs.len() ==> after.spec_slabs()[i] == slabs[i]
            &&& s.spec_memory() == ns.memory
            &&& s.spec_size() == spec_new_slab_size(slab_size, size)
            &&& s.spec_mapped() == m
            &&& s.spec_allocations() == seq![SubAllocation { offset: 0, size }]
            &&& s.spec_free_space() == spec_new_slab_size(slab_size, size) - size
        }
    }
}

/// Whether the pool of `device` and type `t` exists and none of its slabs can place
/// the request, so that a new slab must come from the driver.
pub open spec fn needs_new_slab(a: PoolAllocator, device: VkDevice, t: PoolType, size: u64, alignment: u64) -> bool {
    let pools = a.spec_pools();
    let k = find_pool(pools, device, t, 0);
    k < pools.len() && first_fitting_slab(pools[k].spec_slabs(), size, alignment, 0)
        == pools[k].spec_slabs().len()
}

/// The handle recorded under `id`, if any.
pub open spec fn lookup(allocs: Seq<(u64, AllocationHandle)>, id: u64) -> Option<AllocationHandle> {
    let i = find_allocation(allocs, id, 0);
    if 0 <= i < allocs.len() {
        Some(allocs[i].1)
    } else {
        None
    }
}

/// The pools of all devices and the allocations made from them.
pub struct PoolAllocator {
    pools: Vec<MemoryPool>,
    allocations: Vec<(u64, AllocationHandle)>,
    next_id: u64,
    slab_size: u64,
}

impl PoolAllocator {
    pub closed spec fn spec_pools(self) -> Seq<MemoryPool> {
        self.pools@
    }

    pub closed spec fn spec_allocations(self) -> Seq<(u64, AllocationHandle)> {
        self.allocations@
    }

    pub closed spec fn spec_next_id(self) -> u64 {
        self.next_id
    }

    /// Size of the slabs taken from the driver from now on.
    pub closed spec fn spec_slab_size(self) -> u64 {
        self.slab_size
    }

    /// Every pool is well formed and its slabs, like the slab size, no larger than
    /// `MAX_REQUEST`; no two pools share a device and type; allocation ids are distinct
    /// and below the next id.
    pub closed spec fn wf(self) -> bool {
        &&& self.slab_size <= MAX_REQUEST
        &&& forall|j: int| 0 <= j < self.pools@.len() ==> (#[trigger] self.pools@[j]).wf()
        &&& forall|j: int| 0 <= j < self.pools@.len() ==> slabs_bounded((#[trigger] self.pools@[j]).spec_slabs())
        &&& pools_unique(self.pools@)
        &&& forall|i: int| 0 <= i < self.allocations@.len() ==> (#[trigger] self.allocations@[i]).0 < self.next_id
        &&& forall|i: int, j: int|
            0 <= i < j < self.allocations@.len() ==> (#[trigger] self.allocations@[i]).0
                != (#[trigger] self.allocations@[j]).0
    }

    /// No pools and no allocations; ids start at 1 and slabs are `SLAB_SIZE` bytes.
    pub fn new() -> (a: Self)
        ensures
            a.wf(),
            a.spec_pools() == Seq::<MemoryPool>::empty(),
            a.spec_allocations() == Seq::<(u64, AllocationHandle)>::empty(),
            a.spec_next_id() == 1,
            a.spec_slab_size() == SLAB_SIZE,
    {
        PoolAllocator { pools: Vec::new(), allocations: Vec::new(), next_id: 1, slab_size: SLAB_SIZE }
    }

    /// Size of the slabs taken from the driver from now on.
    pub fn slab_size(&self) -> (n: u64)
        ensures
            n == self.spec_slab_size(),
    {
        self.slab_size
    }

    /// The id the next allocation will get.
    pub fn next_id(&self) -> (n: u64)
        ensures
            n == self.spec_next_id(),
    {
        self.next_id
    }

    /// Index of the pool of `device` and type `t`.
    fn pool_index(&self, device: VkDevice, t: PoolType) -> (r: Option<usize>)
        ensures
            ({
                let k = find_pool(self.pools@, device, t, 0);
                &&& k == self.pools@.len() <==> r is None
                &&& r matches Some(x) ==> x as int == k
                &&& 0 <= k <= self.pools@.len()
            }),
    {
        proof {
            lemma_find_pool_bound(self.pools@, device, t, 0);
        }
        let n = self.pools.len();
        let mut j: usize = 0;
        while j < n
            invariant
                n == self.pools@.len(),
                0 <= j <= n,
                find_pool(self.pools@, device, t, 0) == find_pool(self.pools@, device, t, j as int),
            decreases n - j,
        {
            if self.pools[j].device().as_raw() == device.as_raw() && self.pools[j].pool_type() == t {
                return Some(j);
            }
            j = j + 1;
        }
        None
    }

    /// Index of the allocation with `id`.
    fn allocation_index(&self, id: u64) -> (r: Option<usize>)
        ensures
            ({
                let k = find_allocation(self.allocations@, id, 0);
                &&& k == self.allocations@.len() <==> r is None
                &&& r matches Some(x) ==> x as int == k
                &&& 0 <= k <= self.allocations@.len()
            }),
    {
        proof {
            lemma_find_allocation_bound(self.allocations@, id, 0);
        }
        let n = self.allocations.len();
        let mut j: usize = 0;
        while j < n
            invariant
                n == self.allocations@.len(),
                0 <= j <= n,
                find_allocation(self.allocations@, id, 0) == find_allocation(
                    self.allocations@,
                    id,
                    j as int,
                ),
            decreases n - j,
        {
            if self.allocations[j].0 == id {
                return Some(j);
            }
            j = j + 1;
        }
        None
    }

    /// Puts `pool` in place of the pool with its device and type, or adds it.
    fn set_pool(&mut self, pool: MemoryPool)
        requires
            old(self).wf(),
            pool.wf(),
            slabs_bounded(pool.spec_slabs()),
        ensures
            final(self).wf(),
            final(self).spec_allocations() == old(self).spec_allocations(),
            final(self).spec_next_id() == old(self).spec_next_id(),
            final(self).spec_slab_size() == old(self).spec_slab_size(),
            ({
                let k = find_pool(old(self).spec_pools(), pool.spec_device(), pool.spec_pool_type(), 0);
                &&& k < old(self).spec_pools().len() ==> final(self).spec_pools() == old(self).spec_pools().update(k, pool)
                &&& k == old(self).spec_pools().len() ==> final(self).spec_pools() == old(self).spec_pools().push(pool)
            }),
    {
        let device = pool.device();
        let t = pool.pool_type();
        match self.pool_index(device, t) {
            Some(k) => {
                proof {
                    lemma_find_pool_found(self.pools@, device, t, 0);
                }
                self.pools.set(k, pool);
                proof {
                    let old_pools = old(self).pools@;
                    let new_pools = self.pools@;
                    assert(new_pools == old_pools.update(k as int, pool));
                    assert forall|x: int| 0 <= x < new_pools.len() implies
                        (#[trigger] new_pools[x]).spec_device().raw_value()
                            == old_pools[x].spec_device().raw_value()
                        && new_pools[x].spec_pool_type() == old_pools[x].spec_pool_type() by {
                        if x == k as int {
                            assert(pool_is(old_pools[x], device, t));
                        }
                    }
                    assert forall|i: int, j: int|
                        0 <= i < new_pools.len() && 0 <= j < new_pools.len() && i != j
                        implies !pool_is(
                        #[trigger] new_pools[j],
                        new_pools[i].spec_device(),
                        (#[trigger] new_pools[i]).spec_pool_type(),
                    ) by {
                        assert(!pool_is(old_pools[j], old_pools[i].spec_device(), old_pools[i].spec_pool_type()));
                    }
                    assert forall|j: int| 0 <= j < new_pools.len() implies (#[trigger] new_pools[j]).wf()
                        && slabs_bounded(new_pools[j].spec_slabs()) by {
                        if j != k as int {
                            assert(old_pools[j].wf());
                            assert(slabs_bounded(old_pools[j].spec_slabs()));
                        }
                    }
                }
            },
            None => {
                proof {
                    lemma_find_pool_absent(self.pools@, device, t, 0);
                }
                self.pools.push(pool);
            },
        }
    }
}

/// The first memory type among the first `count` whose property flags contain `required`.
fn select_memory_type(props: &VkPhysicalDeviceMemoryProperties, required: VkMemoryPropertyFlags) -> (r: Option<u32>)
    requires
        props.memoryTypeCount <= 32,
    ensures
        r == first_memory_type(props.memoryTypes@, props.memoryTypeCount as int, required@, 0),
{
    let count = props.memoryTypeCount;
    let mut i: u32 = 0;
    while i < count
        invariant
            count == props.memoryTypeCount,
            count <= 32,
            0 <= i <= count,
            first_memory_type(props.memoryTypes@, count as int, required@, 0) == first_memory_type(
                props.memoryTypes@,
                count as int,
                required@,
                i as int,
            ),
        decreases count - i,
    {
        if props.memoryTypes[i as usize].propertyFlags.contains(required) {
            return Some(i);
        }
        i = i + 1;
    }
    None
}

/// Whether the pool of `device` and type `t` is a fresh, empty pool on the first of
/// the first `count` memory types that has the type's required flags, where such a
/// memory type exists.
pub open spec fn pool_set_up(
    pools: Seq<MemoryPool>,
    device: VkDevice,
    types: Seq<VkMemoryType>,
    count: int,
    t: PoolType,
) -> bool {
    let k = find_pool(pools, device, t, 0);
    first_memory_type(types, count, t.spec_required_flags(), 0) matches Some(i) ==> {
        &&& k < pools.len()
        &&& pools[k].spec_memory_type_index() == i
        &&& pools[k].spec_slabs() == Seq::<MemorySlab>::empty()
        &&& pools[k].spec_total_allocated() == 0
    }
}

/// Sets up the pools of `device`: for each pool type, in the order device-local,
/// host-coherent, host-cached, the first memory type with the pool's required flags
/// gets a fresh, empty pool (in place of any earlier pool of that device and type).
/// A pool type that no memory type serves is left as it was.
pub fn initialize_pools(
    allocator: &mut PoolAllocator,
    device: VkDevice,
    props: &VkPhysicalDeviceMemoryProperties,
)
    requires
        old(allocator).wf(),
        props.memoryTypeCount <= 32,
    ensures
        final(allocator).spec_slab_size() == old(allocator).spec_slab_size(),
        final(allocator).wf(),
        final(allocator).spec_allocations() == old(allocator).spec_allocations(),
        final(allocator).spec_next_id() == old(allocator).spec_next_id(),
        forall|t: PoolType|
            #[trigger] pool_set_up(
                final(allocator).spec_pools(),
                device,
                props.memoryTypes@,
                props.memoryTypeCount as int,
                t,
            ),
{
    let types = [PoolType::DeviceLocal, PoolType::HostVisibleCoherent, PoolType::HostVisibleCached];
    let ghost mtypes = props.memoryTypes@;
    let ghost count = props.memoryTypeCount as int;
    let mut n: usize = 0;
    while n < 3
        invariant
            0 <= n <= 3,
            allocator.wf(),
            types@ == seq![PoolType::DeviceLocal, PoolType::HostVisibleCoherent, PoolType::HostVisibleCached],
            props.memoryTypeCount <= 32,
            mtypes == props.memoryTypes@,
            count == props.memoryTypeCount as int,
            allocator.spec_allocations() == old(allocator).spec_allocations(),
            allocator.spec_next_id() == old(allocator).spec_next_id(),
            allocator.spec_slab_size() == old(allocator).spec_slab_size(),
            forall|m: int|
                0 <= m < n ==> pool_set_up(allocator.spec_pools(), device, mtypes, count, #[trigger] types@[m]),
        decreases 3 - n,
    {
        let t = types[n];
        let required = t.required_flags();
        if let Some(i) = select_memory_type(props, required) {
            let ghost before = allocator.spec_pools();
            let pool = MemoryPool::new(device, t, i);
            allocator.set_pool(pool);
            proof {
                let after = allocator.spec_pools();
                let k = find_pool(before, device, t, 0);
                lemma_find_pool_bound(before, device, t, 0);
                let at = if k < before.len() { k } else { before.len() as int };
                assert(k < before.len() ==> after == before.update(k, pool));
                assert(k == before.len() ==> after == before.push(pool));
                assert(after.len() >= before.len());
                assert(after[at] == pool);
                lemma_find_pool_unique(after, device, t, at);
                assert forall|m: int| 0 <= m <= n implies pool_set_up(
                    after,
                    device,
                    mtypes,
                    count,
                    #[trigger] types@[m],
                ) by {
                    let t2 = types@[m];
                    if m < n {
                        assert(pool_set_up(before, device, mtypes, count, t2));
                        let kb = find_pool(before, device, t2, 0);
                        if first_memory_type(mtypes, count, t2.spec_required_flags(), 0) is Some {
                            assert(t2 != t);
                            lemma_other_pool_kept(before, after, device, t, pool, t2);
                        }
                    }
                }
            }
        } else {
            proof {
                assert(pool_set_up(allocator.spec_pools(), device, mtypes, count, types@[n as int]));
            }
        }
        n = n + 1;
    }
    assert forall|t: PoolType|
        #[trigger] pool_set_up(allocator.spec_pools(), device, mtypes, count, t) by {
        match t {
            PoolType::DeviceLocal => assert(t == types@[0]),
            PoolType::HostVisibleCoherent => assert(t == types@[1]),
            PoolType::HostVisibleCached => assert(t == types@[2]),
        }
    }
}


/// What a request of `requirements` from the pool of `device` and type `pool_type`
/// needs from the driver: an error when that pool was never set up, `None` when an
/// existing slab can place its block, or else the new slab to allocate (and map, for
/// a host-visible pool), large enough for the block.
pub fn slab_needed(
    allocator: &PoolAllocator,
    device: VkDevice,
    requirements: &VkMemoryRequirements,
    pool_type: PoolType,
) -> (r: Result<Option<SlabRequest>, IcdError>)
    requires
        allocator.wf(),
        1 <= requirements.alignment <= MAX_REQUEST,
        requirements.size <= MAX_REQUEST,
    ensures
        ({
            let pools = allocator.spec_pools();
            let k = find_pool(pools, device, pool_type, 0);
            &&& k == pools.len() ==> r == Err::<Option<SlabRequest>, IcdError>(
                IcdError::InvalidOperation("Pool not initialized"),
            )
            &&& k < pools.len() ==> r == Ok::<Option<SlabRequest>, IcdError>(
                if needs_new_slab(*allocator, device, pool_type, spec_block_size(requirements.size), requirements.alignment) {
                    Some(
                        SlabRequest {
                            memory_type_index: pools[k].spec_memory_type_index(),
                            allocation_size: spec_new_slab_size(allocator.spec_slab_size(), spec_block_size(requirements.size)),
                            map: pool_type.spec_should_map(),
                        },
                    )
                } else {
                    None
                },
            )
        }),
{
    let k = match allocator.pool_index(device, pool_type) {
        None => return Err(IcdError::InvalidOperation("Pool not initialized")),
        Some(k) => k,
    };
    let pool = &allocator.pools[k];
    let block = block_size(requirements.size);
    proof {
        lemma_fit_alignment(*pool, requirements.alignment);
    }
    match pool.find_slab(block, requirements.alignment) {
        Some(_) => Ok(None),
        None => Ok(
            Some(
                SlabRequest {
                    memory_type_index: pool.memory_type_index(),
                    allocation_size: new_slab_size(allocator.slab_size, block),
                    map: pool_type.should_map(),
                },
            ),
        ),
    }
}

/// Sets the size of the slabs taken from the driver from now on; slabs already
/// taken keep theirs, and a request larger than a slab still gets a slab of its own
/// block.
pub fn set_slab_size(allocator: &mut PoolAllocator, size: u64) -> (r: Result<(), IcdError>)
    requires
        old(allocator).wf(),
        size <= MAX_REQUEST,
    ensures
        r is Ok,
        final(allocator).wf(),
        final(allocator).spec_slab_size() == size,
        final(allocator).spec_pools() == old(allocator).spec_pools(),
        final(allocator).spec_allocations() == old(allocator).spec_allocations(),
        final(allocator).spec_next_id() == old(allocator).spec_next_id(),
{
    allocator.slab_size = size;
    Ok(())
}

/// Serves `requirements` from the pool of `device` and type `pool_type` and records
/// the allocation under the next id, which it returns. The request's block goes to the
/// first slab that can place it; when none can, it goes at the start of a new slab backed by
/// `new_slab`, the memory the driver allocated as `slab_needed` asked. An error when
/// that pool was never set up, with nothing changed.
pub fn allocate_from_pool(
    allocator: &mut PoolAllocator,
    device: VkDevice,
    requirements: &VkMemoryRequirements,
    pool_type: PoolType,
    new_slab: Option<NewSlab>,
) -> (r: Result<u64, IcdError>)
    requires
        old(allocator).wf(),
        old(allocator).spec_next_id() < u64::MAX,
        1 <= requirements.alignment <= MAX_REQUEST,
        requirements.size <= MAX_REQUEST,
        needs_new_slab(*old(allocator), device, pool_type, spec_block_size(requirements.size), requirements.alignment)
            ==> (new_slab matches Some(ns) && {
            let p = old(allocator).spec_pools()[find_pool(old(allocator).spec_pools(), device, pool_type, 0)];
            &&& p.spec_total_allocated() + spec_new_slab_size(old(allocator).spec_slab_size(), spec_block_size(requirements.size)) <= u64::MAX
            &&& ns.mapped matches Some(base) ==> base + spec_new_slab_size(old(allocator).spec_slab_size(), spec_block_size(requirements.size)) <= u64::MAX
        }),
    ensures
        final(allocator).spec_slab_size() == old(allocator).spec_slab_size(),
        final(allocator).wf(),
        ({
            let pools = old(allocator).spec_pools();
            let k = find_pool(pools, device, pool_type, 0);
            let id = old(allocator).spec_next_id();
            &&& k == pools.len() ==> r == Err::<u64, IcdError>(
                IcdError::InvalidOperation("Pool not initialized"),
            ) && *final(allocator) == *old(allocator)
            &&& k < pools.len() ==> {
                let h = final(allocator).spec_allocations().last().1;
                &&& r == Ok::<u64, IcdError>(id)
                &&& final(allocator).spec_next_id() == id + 1
                &&& final(allocator).spec_allocations() == old(allocator).spec_allocations().push((id, h))
                &&& lookup(final(allocator).spec_allocations(), id) == Some(h)
                &&& h.spec_size() == requirements.size
                &&& h.spec_pool_type() == pool_type
                &&& final(allocator).spec_pools().len() == pools.len()
                &&& forall|i: int|
                    0 <= i < pools.len() && i != k ==> final(allocator).spec_pools()[i] == pools[i]
                &&& pool_served(
                    pools[k],
                    final(allocator).spec_pools()[k],
                    old(allocator).spec_slab_size(),
                    spec_block_size(requirements.size),
                    requirements.alignment,
                    new_slab,
                    h.spec_memory(),
                    h.spec_offset(),
                    h.spec_mapped(),
                )
            }
        }),
{
    let k = match allocator.pool_index(device, pool_type) {
        None => return Err(IcdError::InvalidOperation("Pool not initialized")),
        Some(k) => k,
    };
    let size = requirements.size;
    let block = block_size(size);
    let alignment = requirements.alignment;
    let ghost old_pools = allocator.pools@;
    let mut pool = allocator.pools.remove(k);
    proof {
        assert(pool == old_pools[k as int]);
        assert(pool.wf());
        assert(slabs_bounded(pool.spec_slabs()));
        lemma_fit_alignment(pool, alignment);
        lemma_first_fitting_slab_bound(pool.spec_slabs(), block, alignment, 0);
    }
    let ghost before = pool;
    let (memory, offset, mapped) = match pool.allocate_in_existing_slab(block, alignment) {
        Some(found) => found,
        None => {
            let ns = new_slab.unwrap();
            let slab_mapped = if pool.pool_type().should_map() {
                ns.mapped
            } else {
                None
            };
            let (off, m) = pool.allocate_in_new_slab(ns.memory, slab_mapped, allocator.slab_size, block, alignment);
            (ns.memory, off, m)
        },
    };
    proof {
        assert(slabs_bounded(pool.spec_slabs())) by {
            let j = first_fitting_slab(before.spec_slabs(), block, alignment, 0);
            assert forall|i: int| 0 <= i < pool.spec_slabs().len() implies (#[trigger] pool.spec_slabs()[i]).spec_size()
                <= MAX_REQUEST by {
                if i < before.spec_slabs().len() {
                    assert(before.spec_slabs()[i].spec_size() <= MAX_REQUEST);
                }
            }
        }
    }
    allocator.pools.insert(k, pool);
    proof {
        let new_pools = allocator.pools@;
        assert(new_pools == old_pools.update(k as int, pool));
        assert forall|x: int| 0 <= x < new_pools.len() implies
            (#[trigger] new_pools[x]).spec_device() == old_pools[x].spec_device()
            && new_pools[x].spec_pool_type() == old_pools[x].spec_pool_type() by {}
        assert forall|i: int, j: int|
            0 <= i < new_pools.len() && 0 <= j < new_pools.len() && i != j
            implies !pool_is(
            #[trigger] new_pools[j],
            new_pools[i].spec_device(),
            (#[trigger] new_pools[i]).spec_pool_type(),
        ) by {
            assert(!pool_is(old_pools[j], old_pools[i].spec_device(), old_pools[i].spec_pool_type()));
        }
        assert forall|j: int| 0 <= j < new_pools.len() implies (#[trigger] new_pools[j]).wf()
            && slabs_bounded(new_pools[j].spec_slabs()) by {
            if j != k as int {
                assert(old_pools[j].wf());
                assert(slabs_bounded(old_pools[j].spec_slabs()));
            }
        }
    }
    let handle = AllocationHandle { memory, offset, size, pool_type, mapped };
    let id = allocator.next_id;
    let ghost old_allocs = allocator.allocations@;
    allocator.allocations.push((id, handle));
    allocator.next_id = id + 1;
    proof {
        let allocs = allocator.allocations@;
        assert(allocs == old_allocs.push((id, handle)));
        assert forall|i: int| 0 <= i < allocs.len() implies (#[trigger] allocs[i]).0 < allocator.next_id by {
            if i < old_allocs.len() {
                assert(old_allocs[i].0 < id);
            }
        }
        assert forall|i: int, j: int| 0 <= i < j < allocs.len() implies (#[trigger] allocs[i]).0
            != (#[trigger] allocs[j]).0 by {
            if j < old_allocs.len() {
                assert(old_allocs[i].0 != old_allocs[j].0);
            } else {
                assert(old_allocs[i].0 < id);
            }
        }
        lemma_lookup_recorded(*old(allocator), *allocator, handle);
    }
    Ok(id)
}

/// The handle recorded under `id`; an error when there is none.
pub fn get_allocation(allocator: &PoolAllocator, id: u64) -> (r: Result<AllocationHandle, IcdError>)
    ensures
        match lookup(allocator.spec_allocations(), id) {
            Some(h) => r == Ok::<AllocationHandle, IcdError>(h),
            None => r == Err::<AllocationHandle, IcdError>(
                IcdError::InvalidOperation("Invalid allocation ID"),
            ),
        },
{
    match allocator.allocation_index(id) {
        Some(i) => Ok(allocator.allocations[i].1),
        None => Err(IcdError::InvalidOperation("Invalid allocation ID")),
    }
}

/// Forgets the allocation recorded under `id` and releases its memory in the pool of
/// `device` and the allocation's type, when that pool exists. An error when no
/// allocation has that id, with nothing changed.
pub fn free_allocation(allocator: &mut PoolAllocator, device: VkDevice, id: u64) -> (r: Result<(), IcdError>)
    requires
        old(allocator).wf(),
    ensures
        final(allocator).spec_slab_size() == old(allocator).spec_slab_size(),
        final(allocator).wf(),
        final(allocator).spec_next_id() == old(allocator).spec_next_id(),
        ({
            let allocs = old(allocator).spec_allocations();
            let i = find_allocation(allocs, id, 0);
            match lookup(allocs, id) {
                None => r == Err::<(), IcdError>(IcdError::InvalidOperation("Invalid allocation ID"))
                    && *final(allocator) == *old(allocator),
                Some(h) => {
                    let pools = old(allocator).spec_pools();
                    let k = find_pool(pools, device, h.spec_pool_type(), 0);
                    &&& r == Ok::<(), IcdError>(())
                    &&& final(allocator).spec_allocations() == allocs.remove(i)
                    &&& lookup(final(allocator).spec_allocations(), id) is None
                    &&& final(allocator).spec_pools().len() == pools.len()
                    &&& forall|j: int|
                        0 <= j < pools.len() && j != k ==> final(allocator).spec_pools()[j] == pools[j]
                    &&& k < pools.len() ==> pool_released(
                        pools[k],
                        final(allocator).spec_pools()[k],
                        h.spec_memory(),
                        h.spec_offset(),
                    )
                },
            }
        }),
{
    let i = match allocator.allocation_index(id) {
        None => return Err(IcdError::InvalidOperation("Invalid allocation ID")),
        Some(i) => i,
    };
    let ghost old_allocs = allocator.allocations@;
    let (_, handle) = allocator.allocations.remove(i);
    proof {
        let allocs = allocator.allocations@;
        assert(allocs == old_allocs.remove(i as int));
        assert forall|x: int| 0 <= x < allocs.len() implies (#[trigger] allocs[x]).0 < allocator.next_id by {
            if x < i {
                assert(allocs[x] == old_allocs[x]);
            } else {
                assert(allocs[x] == old_allocs[x + 1]);
            }
        }
        assert forall|x: int, y: int| 0 <= x < y < allocs.len() implies (#[trigger] allocs[x]).0
            != (#[trigger] allocs[y]).0 by {
            let ox = if x < i { x } else { x + 1 };
            let oy = if y < i { y } else { y + 1 };
            assert(allocs[x] == old_allocs[ox]);
            assert(allocs[y] == old_allocs[oy]);
            assert(old_allocs[ox].0 != old_allocs[oy].0);
        }
    }
    let ghost removed = *allocator;
    proof {
        lemma_find_allocation_found(old_allocs, id, 0);
        lemma_lookup_freed(*old(allocator), removed, id);
    }
    match allocator.pool_index(device, handle.pool_type) {
        Some(k) => {
            let ghost old_pools = allocator.pools@;
            let mut pool = allocator.pools.remove(k);
            proof {
                assert(pool == old_pools[k as int]);
                assert(pool.wf());
                assert(slabs_bounded(pool.spec_slabs()));
            }
            let ghost before = pool;
            pool.free(handle.memory, handle.offset);
            proof {
                let j = first_slab_with_memory(before.spec_slabs(), handle.memory, 0);
                assert forall|x: int| 0 <= x < pool.spec_slabs().len() implies (#[trigger] pool.spec_slabs()[x]).spec_size()
                    <= MAX_REQUEST by {
                    assert(before.spec_slabs()[x].spec_size() <= MAX_REQUEST);
                }
            }
            allocator.pools.insert(k, pool);
            proof {
                let new_pools = allocator.pools@;
                assert(new_pools == old_pools.update(k as int, pool));
                assert forall|i2: int, j2: int|
                    0 <= i2 < new_pools.len() && 0 <= j2 < new_pools.len() && i2 != j2
                    implies !pool_is(
                    #[trigger] new_pools[j2],
                    new_pools[i2].spec_device(),
                    (#[trigger] new_pools[i2]).spec_pool_type(),
                ) by {
                    assert(!pool_is(old_pools[j2], old_pools[i2].spec_device(), old_pools[i2].spec_pool_type()));
                }
                assert forall|j2: int| 0 <= j2 < new_pools.len() implies (#[trigger] new_pools[j2]).wf()
                    && slabs_bounded(new_pools[j2].spec_slabs()) by {
                    if j2 != k as int {
                        assert(old_pools[j2].wf());
                        assert(slabs_bounded(old_pools[j2].spec_slabs()));
                    }
                }
            }
        },
        None => {},
    }
    Ok(())
}

/// Statistics of the pool of `device` and type `pool_type`: its total slab size, its
/// number of slabs, and the number of recorded allocations of that pool type (over all
/// devices). All zero when the pool was never set up.
pub fn get_pool_stats(allocator: &PoolAllocator, device: VkDevice, pool_type: PoolType) -> (r: Result<PoolStats, IcdError>)
    requires
        allocator.wf(),
    ensures
        ({
            let pools = allocator.spec_pools();
            let k = find_pool(pools, device, pool_type, 0);
            &&& k == pools.len() ==> r == Ok::<PoolStats, IcdError>(
                PoolStats { total_allocated: 0, total_slabs: 0, allocations_in_flight: 0 },
            )
            &&& k < pools.len() ==> (r matches Ok(st) && {
                &&& st.total_allocated == pools[k].spec_total_allocated()
                &&& st.total_slabs == pools[k].spec_slabs().len()
                &&& st.allocations_in_flight == count_of_type(allocator.spec_allocations(), pool_type)
            })
        }),
{
    match allocator.pool_index(device, pool_type) {
        None => Ok(PoolStats { total_allocated: 0, total_slabs: 0, allocations_in_flight: 0 }),
        Some(k) => {
            let pool = &allocator.pools[k];
            let n = allocator.allocations.len();
            let mut count: usize = 0;
            let mut i: usize = 0;
            while i < n
                invariant
                    n == allocator.allocations@.len(),
                    0 <= i <= n,
                    count <= i,
                    count == count_of_type(allocator.allocations@.subrange(0, i as int), pool_type),
                decreases n - i,
            {
                proof {
                    let s1 = allocator.allocations@.subrange(0, i as int + 1);
                    assert(s1.drop_last() =~= allocator.allocations@.subrange(0, i as int));
                }
                if allocator.allocations[i].1.pool_type == pool_type {
                    count = count + 1;
                }
                i = i + 1;
            }
            proof {
                assert(allocator.allocations@.subrange(0, n as int) =~= allocator.allocations@);
            }
            Ok(
                PoolStats {
                    total_allocated: pool.total_allocated(),
                    total_slabs: pool.slab_count(),
                    allocations_in_flight: count,
                },
            )
        },
    }
}

/// Slabs of at most `MAX_REQUEST` bytes can be scanned at any alignment up to it.
proof fn lemma_fit_alignment(p: MemoryPool, alignment: u64)
    requires
        slabs_bounded(p.spec_slabs()),
        alignment <= MAX_REQUEST,
    ensures
        slabs_fit_alignment(p.spec_slabs(), alignment),
{
    assert forall|j: int| 0 <= j < p.spec_slabs().len() implies #[trigger] p.spec_slabs()[j].spec_size()
        + p.spec_slabs()[j].spec_size() + alignment <= u64::MAX + 1 by {
        assert(p.spec_slabs()[j].spec_size() <= MAX_REQUEST);
    }
}

/// Putting a pool in place of (or beside) the pool of one key leaves the pool found
/// for any other key of the same device where it was.
proof fn lemma_other_pool_kept(
    before: Seq<MemoryPool>,
    after: Seq<MemoryPool>,
    device: VkDevice,
    t: PoolType,
    pool: MemoryPool,
    t2: PoolType,
)
    requires
        pools_unique(after),
        pool_is(pool, device, t),
        find_pool(before, device, t, 0) < before.len() ==> after == before.update(
            find_pool(before, device, t, 0),
            pool,
        ),
        find_pool(before, device, t, 0) == before.len() ==> after == before.push(pool),
        t2 != t,
        find_pool(before, device, t2, 0) < before.len(),
    ensures
        find_pool(after, device, t2, 0) == find_pool(before, device, t2, 0),
        after[find_pool(before, device, t2, 0)] == before[find_pool(before, device, t2, 0)],
{
    let k = find_pool(before, device, t, 0);
    let kb = find_pool(before, device, t2, 0);
    lemma_find_pool_bound(before, device, t, 0);
    lemma_find_pool_bound(before, device, t2, 0);
    lemma_find_pool_found(before, device, t2, 0);
    if k < before.len() {
        lemma_find_pool_found(before, device, t, 0);
        assert(kb != k);
        assert(after[kb] == before[kb]);
    } else {
        assert(after[kb] == before[kb]);
    }
    lemma_find_pool_unique(after, device, t2, kb);
}

proof fn lemma_find_pool_bound(pools: Seq<MemoryPool>, device: VkDevice, t: PoolType, i: int)
    requires
        0 <= i <= pools.len(),
    ensures
        i <= find_pool(pools, device, t, i) <= pools.len(),
    decreases pools.len() - i,
{
    if i < pools.len() {
        lemma_find_pool_bound(pools, device, t, i + 1);
    }
}

proof fn lemma_find_pool_found(pools: Seq<MemoryPool>, device: VkDevice, t: PoolType, i: int)
    requires
        0 <= i <= pools.len(),
        find_pool(pools, device, t, i) < pools.len(),
    ensures
        pool_is(pools[find_pool(pools, device, t, i)], device, t),
    decreases pools.len() - i,
{
    if i < pools.len() && !pool_is(pools[i], device, t) {
        lemma_find_pool_found(pools, device, t, i + 1);
    }
}

proof fn lemma_find_pool_absent(pools: Seq<MemoryPool>, device: VkDevice, t: PoolType, i: int)
    requires
        0 <= i <= pools.len(),
        find_pool(pools, device, t, i) == pools.len(),
    ensures
        forall|j: int| i <= j < pools.len() ==> !pool_is(#[trigger] pools[j], device, t),
    decreases pools.len() - i,
{
    if i < pools.len() {
        lemma_find_pool_absent(pools, device, t, i + 1);
    }
}

/// With distinct keys, the pool found for a key is the one that has it.
proof fn lemma_find_pool_unique(pools: Seq<MemoryPool>, device: VkDevice, t: PoolType, k: int)
    requires
        pools_unique(pools),
        0 <= k < pools.len(),
        pool_is(pools[k], device, t),
    ensures
        find_pool(pools, device, t, 0) == k,
{
    lemma_find_pool_bound(pools, device, t, 0);
    let f = find_pool(pools, device, t, 0);
    if f < pools.len() {
        lemma_find_pool_found(pools, device, t, 0);
        if f != k {
            assert(!pool_is(pools[k], pools[f].spec_device(), pools[f].spec_pool_type()));
        }
    } else {
        lemma_find_pool_absent(pools, device, t, 0);
    }
}

proof fn lemma_find_allocation_bound(allocs: Seq<(u64, AllocationHandle)>, id: u64, i: int)
    requires
        0 <= i <= allocs.len(),
    ensures
        i <= find_allocation(allocs, id, i) <= allocs.len(),
    decreases allocs.len() - i,
{
    if i < allocs.len() {
        lemma_find_allocation_bound(allocs, id, i + 1);
    }
}

proof fn lemma_find_allocation_found(allocs: Seq<(u64, AllocationHandle)>, id: u64, i: int)
    requires
        0 <= i <= allocs.len(),
        find_allocation(allocs, id, i) < allocs.len(),
    ensures
        allocs[find_allocation(allocs, id, i)].0 == id,
    decreases allocs.len() - i,
{
    if i < allocs.len() && allocs[i].0 != id {
        lemma_find_allocation_found(allocs, id, i + 1);
    }
}

proof fn lemma_find_allocation_absent(allocs: Seq<(u64, AllocationHandle)>, id: u64, i: int)
    requires
        0 <= i <= allocs.len(),
        find_allocation(allocs, id, i) == allocs.len(),
    ensures
        forall|j: int| i <= j < allocs.len() ==> (#[trigger] allocs[j]).0 != id,
    decreases allocs.len() - i,
{
    if i < allocs.len() {
        lemma_find_allocation_absent(allocs, id, i + 1);
    }
}


/// No two recorded allocations share an id.
pub open spec fn ids_distinct(allocs: Seq<(u64, AllocationHandle)>) -> bool {
    forall|i: int, j: int| 0 <= i < j < allocs.len() ==> (#[trigger] allocs[i]).0 != (#[trigger] allocs[j]).0
}

proof fn lemma_find_allocation_at(allocs: Seq<(u64, AllocationHandle)>, id: u64, i: int)
    requires
        ids_distinct(allocs),
        0 <= i < allocs.len(),
        allocs[i].0 == id,
    ensures
        find_allocation(allocs, id, 0) == i,
{
    lemma_find_allocation_bound(allocs, id, 0);
    let f = find_allocation(allocs, id, 0);
    if f < allocs.len() {
        lemma_find_allocation_found(allocs, id, 0);
        if f < i {
            assert(allocs[f].0 != allocs[i].0);
        } else if f > i {
            assert(allocs[i].0 != allocs[f].0);
        }
    } else {
        lemma_find_allocation_absent(allocs, id, 0);
    }
}

proof fn lemma_find_allocation_missing(allocs: Seq<(u64, AllocationHandle)>, id: u64)
    requires
        forall|j: int| 0 <= j < allocs.len() ==> (#[trigger] allocs[j]).0 != id,
    ensures
        find_allocation(allocs, id, 0) == allocs.len(),
{
    lemma_find_allocation_bound(allocs, id, 0);
    if find_allocation(allocs, id, 0) < allocs.len() {
        lemma_find_allocation_found(allocs, id, 0);
    }
}

/// With distinct ids, `lookup` gives the handle of the entry that has the id.
proof fn lemma_lookup_exact(allocs: Seq<(u64, AllocationHandle)>, id: u64)
    requires
        ids_distinct(allocs),
    ensures
        (exists|i: int| 0 <= i < allocs.len() && (#[trigger] allocs[i]).0 == id) ==> ({
            let i = choose|i: int| 0 <= i < allocs.len() && (#[trigger] allocs[i]).0 == id;
            lookup(allocs, id) == Some(allocs[i].1)
        }),
        (forall|j: int| 0 <= j < allocs.len() ==> (#[trigger] allocs[j]).0 != id) ==> lookup(
            allocs,
            id,
        ) is None,
{
    if exists|i: int| 0 <= i < allocs.len() && (#[trigger] allocs[i]).0 == id {
        let i = choose|i: int| 0 <= i < allocs.len() && (#[trigger] allocs[i]).0 == id;
        lemma_find_allocation_at(allocs, id, i);
    } else {
        lemma_find_allocation_missing(allocs, id);
    }
}

/// In a well-formed slab the free space and the in-use sub-allocations add up to the
/// slab size.
pub proof fn lemma_slab_accounting(s: MemorySlab)
    requires
        s.wf(),
    ensures
        s.spec_free_space() + in_use_total(s.spec_allocations()) == s.spec_size(),
        s.spec_free_space() <= s.spec_size(),
{
    lemma_in_use_total_nonneg(s.spec_allocations());
}

/// In a well-formed pool the recorded total is the sum of the slab sizes.
pub proof fn lemma_pool_accounting(p: MemoryPool)
    requires
        p.wf(),
    ensures
        p.spec_total_allocated() == slab_size_total(p.spec_slabs()),
{
}

/// In a well-formed slab the regions in use never share a byte and lie within the
/// slab: what the slab hands out is never handed out twice while it is in use.
pub proof fn lemma_live_regions_apart(s: MemorySlab)
    requires
        s.wf(),
    ensures
        forall|i: int, j: int|
            0 <= i < s.spec_allocations().len() && 0 <= j < s.spec_allocations().len() && i != j
                ==> apart(
                (#[trigger] s.spec_allocations()[i]).offset as int,
                s.spec_allocations()[i].size as int,
                #[trigger] s.spec_allocations()[j],
            ),
        forall|i: int|
            0 <= i < s.spec_allocations().len() ==> region_end(#[trigger] s.spec_allocations()[i])
                <= s.spec_size(),
{
    let allocs = s.spec_allocations();
    assert forall|i: int, j: int|
        0 <= i < allocs.len() && 0 <= j < allocs.len() && i != j implies apart(
        (#[trigger] allocs[i]).offset as int,
        allocs[i].size as int,
        #[trigger] allocs[j],
    ) by {
        if i < j {
            lemma_sorted_offsets(allocs, i, j);
        } else {
            lemma_sorted_offsets(allocs, j, i);
        }
    }
}

/// Every region in use can be released: a release at its offset finds exactly it.
pub proof fn lemma_free_live(s: MemorySlab, k: int)
    requires
        s.wf(),
        0 <= k < s.spec_allocations().len(),
    ensures
        first_with_offset(s.spec_allocations(), s.spec_allocations()[k].offset, 0) == k,
        slab_release_succeeds(s, s.spec_allocations()[k].offset),
{
    let allocs = s.spec_allocations();
    lemma_first_with_offset_at(allocs, allocs[k].offset, 0, k);
}

proof fn lemma_first_with_offset_at(allocs: Seq<SubAllocation>, offset: u64, i: int, k: int)
    requires
        sorted_apart(allocs),
        forall|j: int| 0 <= j < allocs.len() ==> (#[trigger] allocs[j]).size >= 1,
        0 <= i <= k < allocs.len(),
        allocs[k].offset == offset,
    ensures
        first_with_offset(allocs, offset, i) == k,
    decreases k - i,
{
    if i < k {
        lemma_sorted_offsets(allocs, i, k);
        lemma_first_with_offset_at(allocs, offset, i + 1, k);
    }
}

/// Releasing a region right after making it succeeds and restores the slab's regions
/// and free space exactly.
pub proof fn lemma_free_after_allocate(
    before: MemorySlab,
    mid: MemorySlab,
    after: MemorySlab,
    off: u64,
    size: u64,
)
    requires
        before.wf(),
        slab_allocated(before, mid, off, size),
        slab_released(mid, after, off),
    ensures
        slab_release_succeeds(mid, off),
        after.spec_allocations() == before.spec_allocations(),
        after.spec_free_space() == before.spec_free_space(),
{
    let allocs = before.spec_allocations();
    let p = insert_position(allocs, off, 0);
    lemma_insert_position_facts(allocs, off, 0);
    assert(mid.spec_allocations()[p] == SubAllocation { offset: off, size });
    lemma_free_live(mid, p);
    assert(mid.spec_allocations().remove(p) =~= allocs);
}

/// Freeing a region right after making it restores where the next request of the
/// same size and alignment goes: to the same offset of the same slab.
pub proof fn lemma_reallocate_after_free(
    before: MemorySlab,
    mid: MemorySlab,
    after: MemorySlab,
    off: u64,
    size: u64,
    alignment: u64,
)
    requires
        before.wf(),
        before.placement(size, alignment) == Some(off),
        slab_allocated(before, mid, off, size),
        slab_released(mid, after, off),
    ensures
        after.placement(size, alignment) == Some(off),
{
    lemma_free_after_allocate(before, mid, after, off, size);
}

/// After an allocation is recorded under the next id, that id looks up its handle, and
/// every other id looks up what it did before.
pub proof fn lemma_lookup_recorded(before: PoolAllocator, after: PoolAllocator, h: AllocationHandle)
    requires
        before.wf(),
        after.spec_allocations() == before.spec_allocations().push((before.spec_next_id(), h)),
    ensures
        lookup(after.spec_allocations(), before.spec_next_id()) == Some(h),
        forall|id: u64|
            id != before.spec_next_id() ==> #[trigger] lookup(after.spec_allocations(), id) == lookup(
                before.spec_allocations(),
                id,
            ),
{
    let old_allocs = before.spec_allocations();
    let allocs = after.spec_allocations();
    let nid = before.spec_next_id();
    assert(ids_distinct(allocs)) by {
        assert forall|i: int, j: int| 0 <= i < j < allocs.len() implies (#[trigger] allocs[i]).0
            != (#[trigger] allocs[j]).0 by {
            if j < old_allocs.len() {
                assert(old_allocs[i].0 != old_allocs[j].0);
            } else {
                assert(old_allocs[i].0 < nid);
            }
        }
    }
    assert(ids_distinct(old_allocs));
    lemma_find_allocation_at(allocs, nid, old_allocs.len() as int);
    assert forall|id: u64| id != nid implies #[trigger] lookup(allocs, id) == lookup(old_allocs, id) by {
        lemma_lookup_exact(allocs, id);
        lemma_lookup_exact(old_allocs, id);
        if exists|i: int| 0 <= i < old_allocs.len() && (#[trigger] old_allocs[i]).0 == id {
            let i = choose|i: int| 0 <= i < old_allocs.len() && (#[trigger] old_allocs[i]).0 == id;
            assert(allocs[i] == old_allocs[i]);
            lemma_find_allocation_at(allocs, id, i);
            lemma_find_allocation_at(old_allocs, id, i);
        } else {
            assert forall|j: int| 0 <= j < allocs.len() implies (#[trigger] allocs[j]).0 != id by {
                if j < old_allocs.len() {
                    assert(allocs[j] == old_allocs[j]);
                }
            }
        }
    }
}

/// After the allocation under `id` is forgotten, `id` looks up nothing, and every other
/// id looks up what it did before.
pub proof fn lemma_lookup_freed(before: PoolAllocator, after: PoolAllocator, id: u64)
    requires
        before.wf(),
        lookup(before.spec_allocations(), id) is Some,
        after.spec_allocations() == before.spec_allocations().remove(
            find_allocation(before.spec_allocations(), id, 0),
        ),
    ensures
        lookup(after.spec_allocations(), id) is None,
        forall|other: u64|
            other != id ==> #[trigger] lookup(after.spec_allocations(), other) == lookup(
                before.spec_allocations(),
                other,
            ),
{
    let old_allocs = before.spec_allocations();
    let allocs = after.spec_allocations();
    let k = find_allocation(old_allocs, id, 0);
    assert(ids_distinct(old_allocs));
    lemma_find_allocation_bound(old_allocs, id, 0);
    lemma_find_allocation_found(old_allocs, id, 0);
    assert forall|x: int| 0 <= x < allocs.len() implies #[trigger] allocs[x] == old_allocs[if x < k {
        x
    } else {
        x + 1
    }] by {}
    assert(ids_distinct(allocs)) by {
        assert forall|x: int, y: int| 0 <= x < y < allocs.len() implies (#[trigger] allocs[x]).0
            != (#[trigger] allocs[y]).0 by {
            let ox = if x < k { x } else { x + 1 };
            let oy = if y < k { y } else { y + 1 };
            assert(allocs[x] == old_allocs[ox]);
            assert(allocs[y] == old_allocs[oy]);
            assert(old_allocs[ox].0 != old_allocs[oy].0);
        }
    }
    assert forall|j: int| 0 <= j < allocs.len() implies (#[trigger] allocs[j]).0 != id by {
        let oj = if j < k { j } else { j + 1 };
        assert(allocs[j] == old_allocs[oj]);
        if oj < k {
            assert(old_allocs[oj].0 != old_allocs[k].0);
        } else {
            assert(old_allocs[k].0 != old_allocs[oj].0);
        }
    }
    lemma_find_allocation_missing(allocs, id);
    assert forall|other: u64| other != id implies #[trigger] lookup(allocs, other) == lookup(
        old_allocs,
        other,
    ) by {
        if exists|i: int| 0 <= i < old_allocs.len() && (#[trigger] old_allocs[i]).0 == other {
            let i = choose|i: int| 0 <= i < old_allocs.len() && (#[trigger] old_allocs[i]).0 == other;
            assert(i != k);
            let ni = if i < k { i } else { i - 1 };
            assert(allocs[ni] == old_allocs[i]);
            lemma_find_allocation_at(allocs, other, ni);
            lemma_find_allocation_at(old_allocs, other, i);
        } else {
            assert forall|j: int| 0 <= j < allocs.len() implies (#[trigger] allocs[j]).0 != other by {
                let oj = if j < k { j } else { j + 1 };
                assert(allocs[j] == old_allocs[oj]);
            }
            lemma_find_allocation_missing(allocs, other);
            lemma_find_allocation_missing(old_allocs, other);
        }
    }
}

} // verus!
