//! Persistent descriptors.
//!
//! Descriptor set 0 holds storage buffers and is written once per set of buffers;
//! dispatch parameters travel as push constants of at most 128 bytes. The manager
//! caches, per device, the set-0 layout and the descriptor pool, and per set of
//! buffers the descriptor set written for them. Creating layouts, pools and sets
//! is the driver's work; what to create, and what to reuse, is decided here.

use crate::enums::VkDescriptorType;
use crate::flags::VkShaderStageFlags;
use crate::structs::{
    VkDescriptorBufferInfo, VkDescriptorPoolSize, VkDescriptorSetLayoutBinding, VkPushConstantRange,
};
use crate::sys::{
    VkBuffer, VkDescriptorPool, VkDescriptorSet, VkDescriptorSetLayout, VkDevice, VK_WHOLE_SIZE,
};
use std::collections::HashMap;
use vstd::prelude::*;

verus! {

broadcast use vstd::std_specs::hash::group_hash_axioms;

/// Largest push constant block, in bytes (a common hardware limit).
pub const MAX_PUSH_CONSTANT_SIZE: u32 = 128;

/// The descriptor set that holds the persistent storage buffers.
pub const PERSISTENT_DESCRIPTOR_SET: u32 = 0;

/// Multiplier folding one more buffer handle into a binding signature.
pub const SIGNATURE_MULTIPLIER: u64 = 0x9e3779b185ebca87;

/// Multiplier mixing the device handle into a cache key.
pub const DEVICE_MULTIPLIER: u64 = 0x9e3779b97f4a7c15;

/// Sets the descriptor pool is created for.
pub const POOL_MAX_SETS: u32 = 1000;

/// Storage buffer descriptors the descriptor pool is created for.
pub const POOL_MAX_DESCRIPTORS: u32 = 10000;

/// `h` rotated left by 13 bits.
pub open spec fn spec_rotl13(h: u64) -> u64 {
    (h << 13u64) | (h >> 51u64)
}

/// The signature of a list of buffers: starting from 0, each handle in turn is
/// folded in as `acc * SIGNATURE_MULTIPLIER (mod 2^64) ^ rotl13(handle)`.
pub open spec fn spec_signature(buffers: Seq<VkBuffer>) -> u64
    decreases buffers.len(),
{
    if buffers.len() == 0 {
        0
    } else {
        spec_signature(buffers.drop_last()).wrapping_mul(SIGNATURE_MULTIPLIER) ^ spec_rotl13(
            buffers.last().raw_value(),
        )
    }
}

/// The cache key of a list of buffers on a device.
pub open spec fn spec_cache_key(device: u64, buffers: Seq<VkBuffer>) -> u64 {
    device.wrapping_mul(DEVICE_MULTIPLIER) ^ spec_signature(buffers)
}

/// The cache key of `buffers` on `device` (see `spec_cache_key`).
pub fn descriptor_cache_key(device: VkDevice, buffers: &[VkBuffer]) -> (k: u64)
    ensures
        k == spec_cache_key(device.raw_value(), buffers@),
{
    let mut acc: u64 = 0;
    let mut i: usize = 0;
    while i < buffers.len()
        invariant
            0 <= i <= buffers@.len(),
            acc == spec_signature(buffers@.take(i as int)),
        decreases buffers@.len() - i,
    {
        let h = buffers[i].as_raw();
        proof {
            assert(buffers@.take(i as int + 1).drop_last() =~= buffers@.take(i as int));
        }
        acc = acc.wrapping_mul(SIGNATURE_MULTIPLIER) ^ ((h << 13u64) | (h >> 51u64));
        i = i + 1;
    }
    proof {
        assert(buffers@.take(buffers@.len() as int) =~= buffers@);
    }
    device.as_raw().wrapping_mul(DEVICE_MULTIPLIER) ^ acc
}

/// The buffers of a slice, as a vector.
fn copy_buffers(buffers: &[VkBuffer]) -> (r: Vec<VkBuffer>)
    ensures
        r@ == buffers@,
{
    let mut out: Vec<VkBuffer> = Vec::new();
    let mut i: usize = 0;
    while i < buffers.len()
        invariant
            0 <= i <= buffers@.len(),
            out@ == buffers@.take(i as int),
        decreases buffers@.len() - i,
    {
        out.push(buffers[i]);
        proof {
            assert(out@ =~= buffers@.take(i as int + 1));
        }
        i = i + 1;
    }
    proof {
        assert(buffers@.take(buffers@.len() as int) =~= buffers@);
    }
    out
}

/// Whether two lists name the same buffers in the same order.
fn same_buffers(a: &Vec<VkBuffer>, b: &[VkBuffer]) -> (r: bool)
    ensures
        r == (a@ == b@),
{
    if a.len() != b.len() {
        return false;
    }
    let mut i: usize = 0;
    while i < a.len()
        invariant
            a@.len() == b@.len(),
            0 <= i <= a@.len(),
            forall|k: int| 0 <= k < i ==> a@[k] == b@[k],
        decreases a@.len() - i,
    {
        proof {
            crate::sys::lemma_handle_eq_iff_raw(a@[i as int], b@[i as int]);
        }
        if a[i].as_raw() != b[i].as_raw() {
            return false;
        }
        i = i + 1;
    }
    proof {
        assert(a@ =~= b@);
    }
    true
}

/// A descriptor set written for a list of buffers.
pub struct PersistentDescriptor {
    descriptor_set: VkDescriptorSet,
    buffers: Vec<VkBuffer>,
    generation: u64,
}

impl PersistentDescriptor {
    pub closed spec fn spec_descriptor_set(self) -> VkDescriptorSet {
        self.descriptor_set
    }

    pub closed spec fn spec_buffers(self) -> Seq<VkBuffer> {
        self.buffers@
    }

    pub closed spec fn spec_generation(self) -> u64 {
        self.generation
    }
}

/// The descriptor set cached for `buffers` on device `device`, if any: the entry under
/// their cache key, when it was written for exactly these buffers.
pub open spec fn spec_cached_set(
    descriptors: Map<u64, PersistentDescriptor>,
    device: u64,
    buffers: Seq<VkBuffer>,
) -> Option<VkDescriptorSet> {
    let key = spec_cache_key(device, buffers);
    if descriptors.contains_key(key) && descriptors[key].spec_buffers() == buffers {
        Some(descriptors[key].spec_descriptor_set())
    } else {
        None
    }
}

/// `keys` with every occurrence of `key` left out.
pub open spec fn without(keys: Seq<u64>, key: u64) -> Seq<u64>
    decreases keys.len(),
{
    if keys.len() == 0 {
        keys
    } else {
        without(keys.drop_last(), key) + if keys.last() != key {
            seq![keys.last()]
        } else {
            Seq::empty()
        }
    }
}

/// `m` with each of `keys` removed.
pub open spec fn without_keys_of<V>(m: Map<u64, V>, keys: Seq<u64>) -> Map<u64, V>
    decreases keys.len(),
{
    if keys.len() == 0 {
        m
    } else {
        without_keys_of(m, keys.drop_last()).remove(keys.last())
    }
}

/// Per device, the set-0 layout and descriptor pool; per list of buffers, the
/// descriptor set written for them.
pub struct PersistentDescriptorManager {
    pools: HashMap<u64, VkDescriptorPool>,
    set0_layout: HashMap<u64, VkDescriptorSetLayout>,
    descriptors: HashMap<u64, PersistentDescriptor>,
    descriptors_by_device: HashMap<u64, Vec<u64>>,
    generation: u64,
}

impl PersistentDescriptorManager {
    pub closed spec fn spec_pools(self) -> Map<u64, VkDescriptorPool> {
        self.pools@
    }

    pub closed spec fn spec_layouts(self) -> Map<u64, VkDescriptorSetLayout> {
        self.set0_layout@
    }

    pub closed spec fn spec_descriptors(self) -> Map<u64, PersistentDescriptor> {
        self.descriptors@
    }

    /// The cache keys recorded for each device, in the order they were written.
    pub closed spec fn spec_keys_by_device(self) -> Map<u64, Seq<u64>> {
        self.descriptors_by_device@.map_values(|v: Vec<u64>| v@)
    }

    pub closed spec fn spec_generation(self) -> u64 {
        self.generation
    }

    /// The generation of the newest cached descriptor set (0 before the first).
    pub fn generation(&self) -> (g: u64)
        ensures
            g == self.spec_generation(),
    {
        self.generation
    }

    /// Nothing cached.
    pub fn new() -> (m: Self)
        ensures
            m.spec_pools() == Map::<u64, VkDescriptorPool>::empty(),
            m.spec_layouts() == Map::<u64, VkDescriptorSetLayout>::empty(),
            m.spec_descriptors() == Map::<u64, PersistentDescriptor>::empty(),
            m.spec_keys_by_device() == Map::<u64, Seq<u64>>::empty(),
            m.spec_generation() == 0,
    {
        let m = PersistentDescriptorManager {
            pools: HashMap::new(),
            set0_layout: HashMap::new(),
            descriptors: HashMap::new(),
            descriptors_by_device: HashMap::new(),
            generation: 0,
        };
        proof {
            assert(m.spec_keys_by_device() =~= Map::<u64, Seq<u64>>::empty());
        }
        m
    }

    /// The set-0 layout already created for `device`.
    pub fn cached_layout(&self, device: VkDevice) -> (r: Option<VkDescriptorSetLayout>)
        ensures
            r == (if self.spec_layouts().contains_key(device.raw_value()) {
                Some(self.spec_layouts()[device.raw_value()])
            } else {
                None
            }),
    {
        match self.set0_layout.get(&device.as_raw()) {
            Some(l) => Some(*l),
            None => None,
        }
    }

    /// Remembers the set-0 layout created for `device`.
    pub fn record_layout(&mut self, device: VkDevice, layout: VkDescriptorSetLayout)
        ensures
            final(self).spec_layouts() == old(self).spec_layouts().insert(device.raw_value(), layout),
            final(self).spec_pools() == old(self).spec_pools(),
            final(self).spec_descriptors() == old(self).spec_descriptors(),
            final(self).spec_keys_by_device() == old(self).spec_keys_by_device(),
            final(self).spec_generation() == old(self).spec_generation(),
    {
        self.set0_layout.insert(device.as_raw(), layout);
    }

    /// The descriptor pool already created for `device`.
    pub fn cached_pool(&self, device: VkDevice) -> (r: Option<VkDescriptorPool>)
        ensures
            r == (if self.spec_pools().contains_key(device.raw_value()) {
                Some(self.spec_pools()[device.raw_value()])
            } else {
                None
            }),
    {
        match self.pools.get(&device.as_raw()) {
            Some(p) => Some(*p),
            None => None,
        }
    }

    /// Remembers the descriptor pool created for `device`.
    pub fn record_pool(&mut self, device: VkDevice, pool: VkDescriptorPool)
        ensures
            final(self).spec_pools() == old(self).spec_pools().insert(device.raw_value(), pool),
            final(self).spec_layouts() == old(self).spec_layouts(),
            final(self).spec_descriptors() == old(self).spec_descriptors(),
            final(self).spec_keys_by_device() == old(self).spec_keys_by_device(),
            final(self).spec_generation() == old(self).spec_generation(),
    {
        self.pools.insert(device.as_raw(), pool);
    }

    /// The descriptor set already written for `buffers` on `device`.
    pub fn cached_descriptor_set(&self, device: VkDevice, buffers: &[VkBuffer]) -> (r: Option<VkDescriptorSet>)
        ensures
            r == spec_cached_set(self.spec_descriptors(), device.raw_value(), buffers@),
    {
        let key = descriptor_cache_key(device, buffers);
        match self.descriptors.get(&key) {
            Some(d) => {
                if same_buffers(&d.buffers, buffers) {
                    Some(d.descriptor_set)
                } else {
                    None
                }
            },
            None => None,
        }
    }

    /// Caches `set`, just written for `buffers` on `device`, under their cache key with
    /// the next generation, and records the key (once, last) among the device's keys.
    pub fn record_descriptor_set(&mut self, device: VkDevice, buffers: &[VkBuffer], set: VkDescriptorSet)
        requires
            old(self).spec_generation() < u64::MAX,
        ensures
            spec_cached_set(final(self).spec_descriptors(), device.raw_value(), buffers@) == Some(set),
            final(self).spec_generation() == old(self).spec_generation() + 1,
            final(self).spec_pools() == old(self).spec_pools(),
            final(self).spec_layouts() == old(self).spec_layouts(),
            ({
                let key = spec_cache_key(device.raw_value(), buffers@);
                let d = final(self).spec_descriptors()[key];
                let dev = device.raw_value();
                let before = if old(self).spec_keys_by_device().contains_key(dev) {
                    old(self).spec_keys_by_device()[dev]
                } else {
                    Seq::<u64>::empty()
                };
                &&& final(self).spec_descriptors() == old(self).spec_descriptors().insert(key, d)
                &&& d.spec_descriptor_set() == set
                &&& d.spec_buffers() == buffers@
                &&& d.spec_generation() == final(self).spec_generation()
                &&& final(self).spec_keys_by_device() == old(self).spec_keys_by_device().insert(
                    dev,
                    without(before, key).push(key),
                )
            }),
    {
        let key = descriptor_cache_key(device, buffers);
        let dev = device.as_raw();
        self.generation = self.generation + 1;
        let generation = self.generation;
        let ghost old_by_device = self.descriptors_by_device@;
        let mut keys = match self.descriptors_by_device.remove(&dev) {
            Some(v) => v,
            None => Vec::new(),
        };
        let ghost before = keys@;
        let mut kept: Vec<u64> = Vec::new();
        let mut i: usize = 0;
        while i < keys.len()
            invariant
                0 <= i <= keys@.len(),
                keys@ == before,
                kept@ == without(before.take(i as int), key),
            decreases keys@.len() - i,
        {
            proof {
                let p = before.take(i as int + 1);
                assert(p.drop_last() =~= before.take(i as int));
                assert(p.last() == before[i as int]);
            }
            if keys[i] != key {
                kept.push(keys[i]);
            }
            proof {
                let p = before.take(i as int + 1);
                if before[i as int] != key {
                    assert(kept@ =~= without(p, key));
                } else {
                    assert(kept@ =~= without(p, key));
                }
            }
            i = i + 1;
        }
        proof {
            assert(before.take(before.len() as int) =~= before);
        }
        kept.push(key);
        keys = kept;
        self.descriptors_by_device.insert(dev, keys);
        let descriptor = PersistentDescriptor { descriptor_set: set, buffers: copy_buffers(buffers), generation };
        self.descriptors.insert(key, descriptor);
        proof {
            assert(self.spec_keys_by_device() =~= old(self).spec_keys_by_device().insert(
                dev,
                without(before, key).push(key),
            ));
        }
    }

    /// Forgets what is cached for `device`: its pool, its layout and the descriptor
    /// sets recorded under its keys. Returns the pool and the layout, for the driver to
    /// destroy.
    pub fn cleanup_persistent_descriptors(&mut self, device: VkDevice) -> (r: (
        Option<VkDescriptorPool>,
        Option<VkDescriptorSetLayout>,
    ))
        ensures
            ({
                let dev = device.raw_value();
                let keys = if old(self).spec_keys_by_device().contains_key(dev) {
                    old(self).spec_keys_by_device()[dev]
                } else {
                    Seq::<u64>::empty()
                };
                &&& r.0 == (if old(self).spec_pools().contains_key(dev) {
                    Some(old(self).spec_pools()[dev])
                } else {
                    None
                })
                &&& r.1 == (if old(self).spec_layouts().contains_key(dev) {
                    Some(old(self).spec_layouts()[dev])
                } else {
                    None
                })
                &&& final(self).spec_pools() == old(self).spec_pools().remove(dev)
                &&& final(self).spec_layouts() == old(self).spec_layouts().remove(dev)
                &&& final(self).spec_keys_by_device() == old(self).spec_keys_by_device().remove(dev)
                &&& final(self).spec_descriptors() == without_keys_of(old(self).spec_descriptors(), keys)
                &&& final(self).spec_generation() == old(self).spec_generation()
            }),
    {
        let dev = device.as_raw();
        let pool = self.pools.remove(&dev);
        let layout = self.set0_layout.remove(&dev);
        let ghost by_device = self.descriptors_by_device@;
        let keys = match self.descriptors_by_device.remove(&dev) {
            Some(v) => v,
            None => Vec::new(),
        };
        proof {
            assert(self.spec_keys_by_device() =~= old(self).spec_keys_by_device().remove(dev));
        }
        let ghost start = self.descriptors@;
        let ghost pools_after = self.pools@;
        let ghost layouts_after = self.set0_layout@;
        let ghost by_device_after = self.descriptors_by_device@;
        let mut i: usize = 0;
        while i < keys.len()
            invariant
                0 <= i <= keys@.len(),
                self.pools@ == pools_after,
                self.set0_layout@ == layouts_after,
                self.descriptors_by_device@ == by_device_after,
                self.generation == old(self).generation,
                self.descriptors@ == without_keys_of(start, keys@.take(i as int)),
            decreases keys@.len() - i,
        {
            self.descriptors.remove(&keys[i]);
            proof {
                assert(keys@.take(i as int + 1).drop_last() =~= keys@.take(i as int));
            }
            i = i + 1;
        }
        proof {
            assert(keys@.take(keys@.len() as int) =~= keys@);
        }
        (pool, layout)
    }
}

/// Whether a step from `before` to `after` leaves the entry under `key` alone, as the
/// manager's operations change the cache: a step that leaves the cache as it is
/// (recording a layout or a pool), a recording under another key, or a clean-up
/// whose device does not list `key`.
pub open spec fn keeps_cached(
    before: PersistentDescriptorManager,
    after: PersistentDescriptorManager,
    key: u64,
) -> bool {
    let b = before.spec_descriptors();
    let a = after.spec_descriptors();
    ||| a == b
    ||| exists|k: u64, d: PersistentDescriptor| k != key && a == #[trigger] b.insert(k, d)
    ||| exists|keys: Seq<u64>| !keys.contains(key) && a == #[trigger] without_keys_of(b, keys)
}

proof fn lemma_without_keys_keeps(m: Map<u64, PersistentDescriptor>, keys: Seq<u64>, key: u64)
    requires
        !keys.contains(key),
    ensures
        without_keys_of(m, keys).contains_key(key) == m.contains_key(key),
        m.contains_key(key) ==> without_keys_of(m, keys)[key] == m[key],
    decreases keys.len(),
{
    if keys.len() > 0 {
        assert(keys.last() == keys[keys.len() - 1]);
        assert(!keys.drop_last().contains(key)) by {
            if keys.drop_last().contains(key) {
                let i = choose|i: int| 0 <= i < keys.drop_last().len() && keys.drop_last()[i] == key;
                assert(keys[i] == key);
            }
        }
        lemma_without_keys_keeps(m, keys.drop_last(), key);
    }
}

/// One step that leaves the entry of `buffers` on `device` alone leaves their lookup
/// as it was.
pub proof fn lemma_step_keeps_lookup(
    before: PersistentDescriptorManager,
    after: PersistentDescriptorManager,
    device: u64,
    buffers: Seq<VkBuffer>,
)
    requires
        keeps_cached(before, after, spec_cache_key(device, buffers)),
    ensures
        spec_cached_set(after.spec_descriptors(), device, buffers) == spec_cached_set(
            before.spec_descriptors(),
            device,
            buffers,
        ),
{
    let key = spec_cache_key(device, buffers);
    let b = before.spec_descriptors();
    let a = after.spec_descriptors();
    if a == b {
    } else if exists|k: u64, d: PersistentDescriptor| k != key && a == #[trigger] b.insert(k, d) {
        let (k, d) = choose|k: u64, d: PersistentDescriptor| k != key && a == #[trigger] b.insert(k, d);
        assert(a.contains_key(key) == b.contains_key(key));
    } else {
        let keys = choose|keys: Seq<u64>| !keys.contains(key) && a == #[trigger] without_keys_of(b, keys);
        lemma_without_keys_keeps(b, keys, key);
    }
}

/// A descriptor set, once cached for `buffers` on `device`, is what every later lookup
/// of them finds, for as long as each step leaves its cache entry alone
/// (`keeps_cached`): lookups through a history of such steps all agree.
pub proof fn lemma_cached_set_persists(
    history: Seq<PersistentDescriptorManager>,
    device: u64,
    buffers: Seq<VkBuffer>,
)
    requires
        history.len() > 0,
        forall|i: int|
            0 <= i < history.len() - 1 ==> keeps_cached(
                #[trigger] history[i],
                history[i + 1],
                spec_cache_key(device, buffers),
            ),
    ensures
        forall|j: int|
            0 <= j < history.len() ==> spec_cached_set(#[trigger] history[j].spec_descriptors(), device, buffers)
                == spec_cached_set(history[0].spec_descriptors(), device, buffers),
    decreases history.len(),
{
    let key = spec_cache_key(device, buffers);
    if history.len() > 1 {
        let prefix = history.drop_last();
        assert forall|i: int| 0 <= i < prefix.len() - 1 implies keeps_cached(
            #[trigger] prefix[i],
            prefix[i + 1],
            key,
        ) by {
            assert(prefix[i] == history[i]);
            assert(prefix[i + 1] == history[i + 1]);
        }
        lemma_cached_set_persists(prefix, device, buffers);
        let n = history.len() - 1;
        lemma_step_keeps_lookup(history[n - 1], history[n], device, buffers);
        assert forall|j: int| 0 <= j < history.len() implies spec_cached_set(
            #[trigger] history[j].spec_descriptors(),
            device,
            buffers,
        ) == spec_cached_set(history[0].spec_descriptors(), device, buffers) by {
            if j < n {
                assert(prefix[j] == history[j]);
            }
        }
    }
}

/// The push constant range for a block of `size` bytes, read by the compute stage.
pub fn create_push_constant_range(size: u32) -> (r: VkPushConstantRange)
    requires
        size <= MAX_PUSH_CONSTANT_SIZE,
    ensures
        r.stageFlags@ == 0x20,
        r.offset == 0,
        r.size == size,
{
    VkPushConstantRange { stageFlags: VkShaderStageFlags::COMPUTE(), offset: 0, size }
}

/// The push constant range of a compute pipeline layout: none for a size of 0.
pub fn push_constant_ranges(size: u32) -> (r: Option<VkPushConstantRange>)
    requires
        size <= MAX_PUSH_CONSTANT_SIZE,
    ensures
        size == 0 ==> r is None,
        size > 0 ==> (r matches Some(p) && p.stageFlags@ == 0x20 && p.offset == 0 && p.size == size),
{
    if size > 0 {
        Some(create_push_constant_range(size))
    } else {
        None
    }
}

/// The bindings of the set-0 layout: one storage buffer for the compute stage at each
/// binding below `max_bindings`.
pub fn persistent_layout_bindings(max_bindings: u32) -> (r: Vec<VkDescriptorSetLayoutBinding>)
    ensures
        r@.len() == max_bindings,
        forall|i: int|
            0 <= i < r@.len() ==> {
                &&& (#[trigger] r@[i]).binding == i
                &&& r@[i].descriptorType == VkDescriptorType::StorageBuffer
                &&& r@[i].descriptorCount == 1
                &&& r@[i].stageFlags@ == 0x20
            },
{
    let mut bindings: Vec<VkDescriptorSetLayoutBinding> = Vec::new();
    let mut i: u32 = 0;
    while i < max_bindings
        invariant
            0 <= i <= max_bindings,
            bindings@.len() == i,
            forall|k: int|
                0 <= k < i ==> {
                    &&& (#[trigger] bindings@[k]).binding == k
                    &&& bindings@[k].descriptorType == VkDescriptorType::StorageBuffer
                    &&& bindings@[k].descriptorCount == 1
                    &&& bindings@[k].stageFlags@ == 0x20
                },
        decreases max_bindings - i,
    {
        bindings.push(
            VkDescriptorSetLayoutBinding {
                binding: i,
                descriptorType: VkDescriptorType::StorageBuffer,
                descriptorCount: 1,
                stageFlags: VkShaderStageFlags::COMPUTE(),
            },
        );
        i = i + 1;
    }
    bindings
}

/// The pool size of the persistent descriptor pool: storage buffer descriptors only.
pub fn persistent_pool_size(max_descriptors: u32) -> (r: VkDescriptorPoolSize)
    ensures
        r.type_ == VkDescriptorType::StorageBuffer,
        r.descriptorCount == max_descriptors,
{
    VkDescriptorPoolSize { type_: VkDescriptorType::StorageBuffer, descriptorCount: max_descriptors }
}

/// The buffer ranges written into a persistent set: each buffer whole, in order.
pub fn descriptor_buffer_infos(buffers: &[VkBuffer]) -> (r: Vec<VkDescriptorBufferInfo>)
    ensures
        r@.len() == buffers@.len(),
        forall|i: int|
            0 <= i < r@.len() ==> {
                &&& (#[trigger] r@[i]).buffer == buffers@[i]
                &&& r@[i].offset == 0
                &&& r@[i].range == VK_WHOLE_SIZE
            },
{
    let mut infos: Vec<VkDescriptorBufferInfo> = Vec::new();
    let mut i: usize = 0;
    while i < buffers.len()
        invariant
            0 <= i <= buffers@.len(),
            infos@.len() == i,
            forall|k: int|
                0 <= k < i ==> {
                    &&& (#[trigger] infos@[k]).buffer == buffers@[k]
                    &&& infos@[k].offset == 0
                    &&& infos@[k].range == VK_WHOLE_SIZE
                },
        decreases buffers@.len() - i,
    {
        infos.push(VkDescriptorBufferInfo { buffer: buffers[i], offset: 0, range: VK_WHOLE_SIZE });
        i = i + 1;
    }
    infos
}

} // verus!
