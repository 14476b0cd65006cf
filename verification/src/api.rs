//! The safe compute API: its configuration and builders, and the checks and plans
//! behind creating buffers and pipelines and running a dispatch. The driver calls
//! themselves are made by the caller with what these functions hand back.

use crate::enums::{VkDescriptorType, VkPhysicalDeviceType, VkResult};
use crate::error::IcdError;
use crate::flags::{VkAccessFlags, VkBufferUsageFlags, VkMemoryPropertyFlags, VkShaderStageFlags};
use crate::structs::{
    VkBufferMemoryBarrier, VkDescriptorBufferInfo, VkDescriptorSetLayoutBinding,
    VkPhysicalDeviceMemoryProperties, VkQueueFamilyProperties,
};
use crate::enums::VkStructureType;
use crate::sys::{
    VkBuffer, VkCommandPool, VkDescriptorPool, VkDescriptorSetLayout, VkDevice, VkPhysicalDevice,
    VkPipeline, VkPipelineLayout, VkQueue, VK_QUEUE_FAMILY_IGNORED,
};
use vstd::prelude::*;
use vstd::std_specs::ops::BitOrSpec;
use vstd::string::{StringExecFns, StringSliceAdditionalSpecFns};

verus! {

broadcast use crate::flags::group_flag_operators;

/// Errors of the safe API.
#[derive(Debug, PartialEq, Eq)]
pub enum KronosError {
    InitializationFailed(String),
    DeviceNotFound,
    ShaderCompilationFailed(String),
    BufferCreationFailed(String),
    CommandExecutionFailed(String),
    SynchronizationError(String),
    VulkanError(VkResult),
    ImplementationError(IcdError),
}

impl From<VkResult> for KronosError {
    fn from(result: VkResult) -> (e: Self) {
        KronosError::VulkanError(result)
    }
}

impl vstd::std_specs::convert::FromSpecImpl<VkResult> for KronosError {
    open spec fn obeys_from_spec() -> bool {
        true
    }

    open spec fn from_spec(result: VkResult) -> Self {
        KronosError::VulkanError(result)
    }
}

impl From<IcdError> for KronosError {
    fn from(e: IcdError) -> (k: Self) {
        KronosError::ImplementationError(e)
    }
}

impl vstd::std_specs::convert::FromSpecImpl<IcdError> for KronosError {
    open spec fn obeys_from_spec() -> bool {
        true
    }

    open spec fn from_spec(e: IcdError) -> Self {
        KronosError::ImplementationError(e)
    }
}

/// The decimal digit `d` as a character.
pub open spec fn digit_char(d: nat) -> char {
    if d == 0 {
        '0'
    } else if d == 1 {
        '1'
    } else if d == 2 {
        '2'
    } else if d == 3 {
        '3'
    } else if d == 4 {
        '4'
    } else if d == 5 {
        '5'
    } else if d == 6 {
        '6'
    } else if d == 7 {
        '7'
    } else if d == 8 {
        '8'
    } else {
        '9'
    }
}

/// `n` written in decimal, without leading zeros.
pub open spec fn decimal(n: nat) -> Seq<char>
    decreases n,
{
    if n < 10 {
        seq![digit_char(n)]
    } else {
        decimal(n / 10).push(digit_char(n % 10))
    }
}

/// The one-character text of digit `d`.
fn digit_text(d: u64) -> (s: &'static str)
    requires
        d < 10,
    ensures
        s@ == seq![digit_char(d as nat)],
{
    if d == 0 {
        proof {
            reveal_strlit("0");
        }
        "0"
    } else if d == 1 {
        proof {
            reveal_strlit("1");
        }
        "1"
    } else if d == 2 {
        proof {
            reveal_strlit("2");
        }
        "2"
    } else if d == 3 {
        proof {
            reveal_strlit("3");
        }
        "3"
    } else if d == 4 {
        proof {
            reveal_strlit("4");
        }
        "4"
    } else if d == 5 {
        proof {
            reveal_strlit("5");
        }
        "5"
    } else if d == 6 {
        proof {
            reveal_strlit("6");
        }
        "6"
    } else if d == 7 {
        proof {
            reveal_strlit("7");
        }
        "7"
    } else if d == 8 {
        proof {
            reveal_strlit("8");
        }
        "8"
    } else {
        proof {
            reveal_strlit("9");
        }
        "9"
    }
}

/// `n` written in decimal.
pub fn decimal_text(n: u64) -> (s: String)
    ensures
        s@ == decimal(n as nat),
    decreases n,
{
    if n < 10 {
        String::from_str(digit_text(n))
    } else {
        let mut s = decimal_text(n / 10);
        s.append(digit_text(n % 10));
        s
    }
}

/// Usage flags of a buffer.
#[derive(Debug, Clone, Copy)]
pub struct BufferUsage {
    bits: u32,
}

impl BufferUsage {
    pub closed spec fn spec_flags(self) -> u32 {
        self.bits
    }

    /// A usage holds only defined buffer usage flags.
    #[verifier::type_invariant]
    spec fn defined_flags_only(self) -> bool {
        self.bits & VkBufferUsageFlags::spec_all() == self.bits
    }

    /// A storage buffer.
    pub fn storage() -> (u: Self)
        ensures
            u.spec_flags() == 0x20,
    {
        assert(0x20u32 & 0x133u32 == 0x20u32) by (bit_vector);
        BufferUsage { bits: VkBufferUsageFlags::STORAGE_BUFFER().bits() }
    }

    /// A source of transfers.
    pub fn transfer_src() -> (u: Self)
        ensures
            u.spec_flags() == 0x1,
    {
        assert(0x1u32 & 0x133u32 == 0x1u32) by (bit_vector);
        BufferUsage { bits: VkBufferUsageFlags::TRANSFER_SRC().bits() }
    }

    /// A destination of transfers.
    pub fn transfer_dst() -> (u: Self)
        ensures
            u.spec_flags() == 0x2,
    {
        assert(0x2u32 & 0x133u32 == 0x2u32) by (bit_vector);
        BufferUsage { bits: VkBufferUsageFlags::TRANSFER_DST().bits() }
    }

    /// The buffer usage flags.
    pub fn flags(&self) -> (f: VkBufferUsageFlags)
        ensures
            f@ == self.spec_flags(),
    {
        VkBufferUsageFlags::from_bits_retain(self.bits)
    }

    /// Both usages: the union of their flags.
    pub fn union(self, rhs: Self) -> (u: Self)
        ensures
            u.spec_flags() == self.spec_flags() | rhs.spec_flags(),
    {
        proof {
            use_type_invariant(&self);
            use_type_invariant(&rhs);
            let a = self.bits;
            let b = rhs.bits;
            assert((a & 0x133u32 == a && b & 0x133u32 == b) ==> (a | b) & 0x133u32 == (a | b)) by (bit_vector);
        }
        BufferUsage { bits: self.bits | rhs.bits }
    }
}

impl core::ops::BitOr for BufferUsage {
    type Output = Self;

    fn bitor(self, rhs: Self) -> (u: Self) {
        self.union(rhs)
    }
}

impl vstd::std_specs::ops::BitOrSpecImpl for BufferUsage {
    open spec fn obeys_bitor_spec() -> bool {
        true
    }

    open spec fn bitor_req(self, rhs: Self) -> bool {
        true
    }

    closed spec fn bitor_spec(self, rhs: Self) -> Self {
        BufferUsage { bits: self.bits | rhs.bits }
    }
}

/// `|` on buffer usages is `union`.
pub broadcast proof fn lemma_buffer_usage_bitor(a: BufferUsage, b: BufferUsage)
    ensures
        #[trigger] a.bitor_spec(b).spec_flags() == a.spec_flags() | b.spec_flags(),
{
}

/// Combining usages with `|` is commutative and idempotent: both orders give the same
/// flags, and a usage combined with itself is unchanged.
pub proof fn lemma_buffer_usage_union_laws(a: BufferUsage, b: BufferUsage)
    ensures
        a.bitor_spec(b).spec_flags() == b.bitor_spec(a).spec_flags(),
        a.bitor_spec(a).spec_flags() == a.spec_flags(),
{
    let x = a.spec_flags();
    let y = b.spec_flags();
    assert(x | y == y | x) by (bit_vector);
    assert(x | x == x) by (bit_vector);
}

/// Settings of a compute context.
#[derive(Debug, Clone)]
pub struct ContextConfig {
    pub app_name: String,
    pub enable_validation: bool,
    pub preferred_vendor: Option<String>,
}

impl Default for ContextConfig {
    fn default() -> (c: Self)
        ensures
            c.app_name@ == Seq::<char>::empty(),
            !c.enable_validation,
            c.preferred_vendor is None,
    {
        ContextConfig { app_name: String::new(), enable_validation: false, preferred_vendor: None }
    }
}

/// Builds a `ContextConfig` step by step.
pub struct ContextBuilder {
    config: ContextConfig,
}

impl ContextBuilder {
    pub closed spec fn spec_config(self) -> ContextConfig {
        self.config
    }

    /// A builder with the default configuration.
    pub fn new() -> (b: Self)
        ensures
            b.spec_config().app_name@ == Seq::<char>::empty(),
            !b.spec_config().enable_validation,
            b.spec_config().preferred_vendor is None,
    {
        ContextBuilder { config: ContextConfig::default() }
    }

    /// Sets the application name.
    pub fn app_name(self, name: &str) -> (b: Self)
        ensures
            b.spec_config().app_name@ == name@,
            b.spec_config().enable_validation == self.spec_config().enable_validation,
            b.spec_config().preferred_vendor == self.spec_config().preferred_vendor,
    {
        let mut b = self;
        b.config.app_name = String::from_str(name);
        b
    }

    /// Turns validation on.
    pub fn enable_validation(self) -> (b: Self)
        ensures
            b.spec_config().app_name == self.spec_config().app_name,
            b.spec_config().enable_validation,
            b.spec_config().preferred_vendor == self.spec_config().preferred_vendor,
    {
        let mut b = self;
        b.config.enable_validation = true;
        b
    }

    /// Names the preferred GPU vendor.
    pub fn prefer_vendor(self, vendor: &str) -> (b: Self)
        ensures
            b.spec_config().app_name == self.spec_config().app_name,
            b.spec_config().enable_validation == self.spec_config().enable_validation,
            b.spec_config().preferred_vendor matches Some(v) && v@ == vendor@,
    {
        let mut b = self;
        b.config.preferred_vendor = Some(String::from_str(vendor));
        b
    }

    /// The configuration built so far.
    pub fn config(&self) -> (c: &ContextConfig)
        ensures
            *c == self.spec_config(),
    {
        &self.config
    }

    /// The finished configuration.
    pub fn into_config(self) -> (c: ContextConfig)
        ensures
            c == self.spec_config(),
    {
        self.config
    }
}

/// SPIR-V code is a sequence of 32-bit words: its length must be a multiple of 4.
pub fn check_spirv(len: usize) -> (r: Result<(), KronosError>)
    ensures
        len % 4 == 0 ==> r is Ok,
        len % 4 != 0 ==> (r matches Err(KronosError::ShaderCompilationFailed(m)) && m@
            == "SPIR-V data must be 4-byte aligned"@),
{
    if len % 4 != 0 {
        return Err(KronosError::ShaderCompilationFailed(String::from_str("SPIR-V data must be 4-byte aligned")));
    }
    Ok(())
}

/// What waiting on a fence comes to, from the driver's answer: done, a timeout, or
/// the driver's error.
pub fn fence_wait_result(result: VkResult) -> (r: Result<(), KronosError>)
    ensures
        result == VkResult::Success ==> r is Ok,
        result == VkResult::Timeout ==> (r matches Err(KronosError::SynchronizationError(m)) && m@
            == "Timeout waiting for fence"@),
        result != VkResult::Success && result != VkResult::Timeout ==> r == Err::<(), KronosError>(
            KronosError::VulkanError(result),
        ),
{
    match result {
        VkResult::Success => Ok(()),
        VkResult::Timeout => Err(KronosError::SynchronizationError(String::from_str("Timeout waiting for fence"))),
        _ => Err(KronosError::from(result)),
    }
}

/// Whether a fence is signalled, from the driver's answer to a status query.
pub fn fence_signaled(result: VkResult) -> (r: Result<bool, KronosError>)
    ensures
        result == VkResult::Success ==> r == Ok::<bool, KronosError>(true),
        result == VkResult::NotReady ==> r == Ok::<bool, KronosError>(false),
        result != VkResult::Success && result != VkResult::NotReady ==> r == Err::<bool, KronosError>(
            KronosError::VulkanError(result),
        ),
{
    match result {
        VkResult::Success => Ok(true),
        VkResult::NotReady => Ok(false),
        _ => Err(KronosError::from(result)),
    }
}

/// Whether the bytes `b` hold a NUL byte, which no C string can carry.
pub open spec fn has_nul(b: Seq<u8>) -> bool {
    exists|i: int| 0 <= i < b.len() && b[i] == 0
}

/// Whether `s` holds a NUL byte, which no C string can carry.
fn contains_nul(s: &str) -> (r: bool)
    ensures
        r == has_nul(s.spec_bytes()),
{
    let b = s.as_bytes();
    let mut i: usize = 0;
    while i < b.len()
        invariant
            0 <= i <= b@.len(),
            b@ == s.spec_bytes(),
            forall|k: int| 0 <= k < i ==> b@[k] != 0,
        decreases b@.len() - i,
    {
        if b[i] == 0 {
            return true;
        }
        i = i + 1;
    }
    false
}

/// The entry point name of a shader must fit in a C string.
pub fn check_entry_point(name: &str) -> (r: Result<(), KronosError>)
    ensures
        !has_nul(name.spec_bytes()) ==> r is Ok,
        has_nul(name.spec_bytes()) ==> (r matches Err(KronosError::ShaderCompilationFailed(m)) && m@
            == "Invalid entry point name"@),
{
    if contains_nul(name) {
        return Err(KronosError::ShaderCompilationFailed(String::from_str("Invalid entry point name")));
    }
    Ok(())
}

/// The application name handed to the driver: the configured one, or `Kronos App`
/// when it cannot be a C string.
pub fn application_name(name: &str) -> (r: String)
    ensures
        !has_nul(name.spec_bytes()) ==> r@ == name@,
        has_nul(name.spec_bytes()) ==> r@ == "Kronos App"@,
{
    if contains_nul(name) {
        String::from_str("Kronos App")
    } else {
        String::from_str(name)
    }
}

/// The first queue family from `i` on whose flags include compute.
pub open spec fn first_compute_family(families: Seq<VkQueueFamilyProperties>, i: int) -> Option<int>
    decreases families.len() - i,
{
    if i >= families.len() {
        None
    } else if (families[i].queueFlags@ & 0x2) == 0x2 {
        Some(i)
    } else {
        first_compute_family(families, i + 1)
    }
}

/// The index of the first queue family that supports compute.
pub fn find_compute_queue_family(families: &Vec<VkQueueFamilyProperties>) -> (r: Option<u32>)
    requires
        families@.len() <= u32::MAX,
    ensures
        match first_compute_family(families@, 0) {
            Some(i) => r == Some(i as u32),
            None => r is None,
        },
{
    let mut i: usize = 0;
    while i < families.len()
        invariant
            0 <= i <= families@.len() <= u32::MAX,
            first_compute_family(families@, 0) == first_compute_family(families@, i as int),
        decreases families@.len() - i,
    {
        if families[i].queueFlags.contains(crate::flags::VkQueueFlags::COMPUTE()) {
            return Some(i as u32);
        }
        i = i + 1;
    }
    None
}

/// A physical device that can compute: its compute queue family and its type.
#[derive(Debug, Clone, Copy)]
pub struct DeviceCandidate {
    pub device: VkPhysicalDevice,
    pub queue_family_index: u32,
    pub device_type: VkPhysicalDeviceType,
}

/// Preference of a device type: discrete GPUs first, then integrated, virtual, CPU,
/// and other devices last.
pub open spec fn spec_type_rank(t: VkPhysicalDeviceType) -> nat {
    match t {
        VkPhysicalDeviceType::DiscreteGpu => 0,
        VkPhysicalDeviceType::IntegratedGpu => 1,
        VkPhysicalDeviceType::VirtualGpu => 2,
        VkPhysicalDeviceType::Cpu => 3,
        VkPhysicalDeviceType::Other => 4,
    }
}

/// The preference of a device type (see `spec_type_rank`).
pub fn device_type_rank(t: VkPhysicalDeviceType) -> (r: u32)
    ensures
        r == spec_type_rank(t),
{
    match t {
        VkPhysicalDeviceType::DiscreteGpu => 0,
        VkPhysicalDeviceType::IntegratedGpu => 1,
        VkPhysicalDeviceType::VirtualGpu => 2,
        VkPhysicalDeviceType::Cpu => 3,
        VkPhysicalDeviceType::Other => 4,
    }
}

/// Position of the first candidate of the most preferred type among the first `n`.
pub open spec fn preferred_device(cands: Seq<DeviceCandidate>, n: int) -> int
    decreases n,
{
    if n <= 1 {
        0
    } else {
        let b = preferred_device(cands, n - 1);
        if spec_type_rank(cands[n - 1].device_type) < spec_type_rank(cands[b].device_type) {
            n - 1
        } else {
            b
        }
    }
}

/// Picks the device to compute on: the first candidate of the most preferred type
/// (what a stable sort by type puts first; see `lemma_preferred_device`). An error when
/// no device can compute.
pub fn pick_compute_device(candidates: &Vec<DeviceCandidate>) -> (r: Result<(VkPhysicalDevice, u32), KronosError>)
    ensures
        candidates@.len() == 0 ==> r == Err::<(VkPhysicalDevice, u32), KronosError>(KronosError::DeviceNotFound),
        candidates@.len() > 0 ==> {
            let k = preferred_device(candidates@, candidates@.len() as int);
            r == Ok::<(VkPhysicalDevice, u32), KronosError>((candidates@[k].device, candidates@[k].queue_family_index))
        },
{
    if candidates.len() == 0 {
        return Err(KronosError::DeviceNotFound);
    }
    let mut best: usize = 0;
    let mut best_rank = device_type_rank(candidates[0].device_type);
    let mut i: usize = 1;
    while i < candidates.len()
        invariant
            1 <= i <= candidates@.len(),
            best as int == preferred_device(candidates@, i as int),
            best < i,
            best_rank == spec_type_rank(candidates@[best as int].device_type),
        decreases candidates@.len() - i,
    {
        let rank = device_type_rank(candidates[i].device_type);
        if rank < best_rank {
            best = i;
            best_rank = rank;
        }
        i = i + 1;
    }
    Ok((candidates[best].device, candidates[best].queue_family_index))
}

/// The picked device has the most preferred type, and comes first among those.
pub proof fn lemma_preferred_device(cands: Seq<DeviceCandidate>, n: int)
    requires
        1 <= n <= cands.len(),
    ensures
        0 <= preferred_device(cands, n) < n,
        forall|j: int|
            0 <= j < n ==> spec_type_rank(cands[preferred_device(cands, n)].device_type) <= spec_type_rank(
                #[trigger] cands[j].device_type,
            ),
        forall|j: int|
            0 <= j < preferred_device(cands, n) ==> spec_type_rank(cands[preferred_device(cands, n)].device_type)
                < spec_type_rank(#[trigger] cands[j].device_type),
    decreases n,
{
    if n > 1 {
        lemma_preferred_device(cands, n - 1);
    }
}

/// Device types in order of preference: a discrete GPU before an integrated one,
/// before a virtual GPU, before a CPU, before any other device.
pub proof fn lemma_type_rank_order()
    ensures
        spec_type_rank(VkPhysicalDeviceType::DiscreteGpu) < spec_type_rank(VkPhysicalDeviceType::IntegratedGpu),
        spec_type_rank(VkPhysicalDeviceType::IntegratedGpu) < spec_type_rank(VkPhysicalDeviceType::VirtualGpu),
        spec_type_rank(VkPhysicalDeviceType::VirtualGpu) < spec_type_rank(VkPhysicalDeviceType::Cpu),
        spec_type_rank(VkPhysicalDeviceType::Cpu) < spec_type_rank(VkPhysicalDeviceType::Other),
{
}

/// Whether one of the first `n` candidates is of type `t`.
pub open spec fn has_device_type(cands: Seq<DeviceCandidate>, n: int, t: VkPhysicalDeviceType) -> bool {
    exists|j: int| 0 <= j < n && #[trigger] cands[j].device_type == t
}

/// The device picked among the first `n` candidates is of the best type present: a
/// discrete GPU whenever there is one; else an integrated GPU whenever there is one;
/// else a virtual GPU whenever there is one; else a CPU whenever there is one.
pub proof fn lemma_picked_device_type(cands: Seq<DeviceCandidate>, n: int)
    requires
        1 <= n <= cands.len(),
    ensures
        ({
            let t = cands[preferred_device(cands, n)].device_type;
            let discrete = has_device_type(cands, n, VkPhysicalDeviceType::DiscreteGpu);
            let integrated = has_device_type(cands, n, VkPhysicalDeviceType::IntegratedGpu);
            let virtual_gpu = has_device_type(cands, n, VkPhysicalDeviceType::VirtualGpu);
            let cpu = has_device_type(cands, n, VkPhysicalDeviceType::Cpu);
            &&& discrete ==> t == VkPhysicalDeviceType::DiscreteGpu
            &&& !discrete && integrated ==> t == VkPhysicalDeviceType::IntegratedGpu
            &&& !discrete && !integrated && virtual_gpu ==> t == VkPhysicalDeviceType::VirtualGpu
            &&& !discrete && !integrated && !virtual_gpu && cpu ==> t == VkPhysicalDeviceType::Cpu
        }),
{
    lemma_preferred_device(cands, n);
    let k = preferred_device(cands, n);
    let t = cands[k].device_type;
    assert(cands[k].device_type == t);
    assert(has_device_type(cands, n, t));
}

/// Memory properties a buffer needs: host-visible and coherent memory for a buffer
/// that is a transfer source (a staging buffer), device-local memory otherwise.
pub fn buffer_memory_properties(usage: BufferUsage) -> (f: VkMemoryPropertyFlags)
    ensures
        (usage.spec_flags() & 0x1) == 0x1 ==> f@ == 0x6,
        (usage.spec_flags() & 0x1) != 0x1 ==> f@ == 0x1,
{
    if usage.flags().contains(VkBufferUsageFlags::TRANSFER_SRC()) {
        assert(0x2u32 | 0x4u32 == 0x6u32) by (bit_vector);
        VkMemoryPropertyFlags::HOST_VISIBLE().union(VkMemoryPropertyFlags::HOST_COHERENT())
    } else {
        VkMemoryPropertyFlags::DEVICE_LOCAL()
    }
}

/// The first memory type from `i` on, among the first `count`, that `type_filter` allows
/// and whose property bits include all of `properties`.
pub open spec fn first_allowed_memory_type(
    types: Seq<crate::structs::VkMemoryType>,
    count: int,
    type_filter: u32,
    properties: u32,
    i: int,
) -> Option<u32>
    decreases count - i,
{
    if i >= count {
        None
    } else if (type_filter & (1u32 << (i as u32))) != 0 && (types[i].propertyFlags@ & properties) == properties {
        Some(i as u32)
    } else {
        first_allowed_memory_type(types, count, type_filter, properties, i + 1)
    }
}

/// The memory type chosen for an allocation is the first, among the first `count`,
/// that `type_filter` allows (its bit is set) and whose property bits hold all of
/// `properties`; no earlier type is both allowed and suitable; and when none is, no
/// type among the first `count` is.
pub proof fn lemma_first_allowed_memory_type(
    types: Seq<crate::structs::VkMemoryType>,
    count: int,
    type_filter: u32,
    properties: u32,
    i: int,
)
    requires
        0 <= i,
        count <= 32,
    ensures
        first_allowed_memory_type(types, count, type_filter, properties, i) matches Some(m) ==> {
            &&& i <= m < count
            &&& (type_filter & (1u32 << m)) != 0
            &&& (types[m as int].propertyFlags@ & properties) == properties
            &&& forall|j: int|
                i <= j < m ==> !((type_filter & (1u32 << (j as u32))) != 0 && (#[trigger] types[j].propertyFlags@
                    & properties) == properties)
        },
        first_allowed_memory_type(types, count, type_filter, properties, i) is None ==> forall|j: int|
            i <= j < count ==> !((type_filter & (1u32 << (j as u32))) != 0 && (#[trigger] types[j].propertyFlags@
                & properties) == properties),
    decreases count - i,
{
    if i < count && !((type_filter & (1u32 << (i as u32))) != 0 && (types[i].propertyFlags@ & properties)
        == properties) {
        lemma_first_allowed_memory_type(types, count, type_filter, properties, i + 1);
    }
}

/// The memory type for an allocation: the first that `type_filter` allows and that has
/// all of `properties`; an error when there is none.
pub fn find_memory_type(
    memory_properties: &VkPhysicalDeviceMemoryProperties,
    type_filter: u32,
    properties: VkMemoryPropertyFlags,
) -> (r: Result<u32, KronosError>)
    requires
        memory_properties.memoryTypeCount <= 32,
    ensures
        match first_allowed_memory_type(
            memory_properties.memoryTypes@,
            memory_properties.memoryTypeCount as int,
            type_filter,
            properties@,
            0,
        ) {
            Some(i) => r == Ok::<u32, KronosError>(i),
            None => (r matches Err(KronosError::BufferCreationFailed(m)) && m@ == "No suitable memory type found"@),
        },
{
    let count = memory_properties.memoryTypeCount;
    let mut i: u32 = 0;
    while i < count
        invariant
            count == memory_properties.memoryTypeCount,
            count <= 32,
            0 <= i <= count,
            first_allowed_memory_type(memory_properties.memoryTypes@, count as int, type_filter, properties@, 0)
                == first_allowed_memory_type(
                memory_properties.memoryTypes@,
                count as int,
                type_filter,
                properties@,
                i as int,
            ),
        decreases count - i,
    {
        if (type_filter & (1u32 << i)) != 0 && memory_properties.memoryTypes[i as usize].propertyFlags.contains(
            properties,
        ) {
            return Ok(i);
        }
        i = i + 1;
    }
    Err(KronosError::BufferCreationFailed(String::from_str("No suitable memory type found")))
}

/// How many elements of `element_size` bytes a buffer of `size` bytes holds; an
/// error when the size is not a whole number of elements.
pub fn read_element_count(size: usize, element_size: usize) -> (r: Result<usize, KronosError>)
    requires
        element_size > 0,
    ensures
        size % element_size == 0 ==> r == Ok::<usize, KronosError>(size / element_size),
        size % element_size != 0 ==> (r matches Err(KronosError::BufferCreationFailed(m)) && m@
            == "Buffer size "@ + decimal(size as nat) + " is not a multiple of element size "@ + decimal(
            element_size as nat,
        )),
{
    if size % element_size != 0 {
        let mut m = String::from_str("Buffer size ");
        m.append(decimal_text(size as u64).as_str());
        m.append(" is not a multiple of element size ");
        m.append(decimal_text(element_size as u64).as_str());
        return Err(KronosError::BufferCreationFailed(m));
    }
    Ok(size / element_size)
}

/// A buffer binding of a pipeline.
#[derive(Debug, Clone, Copy)]
pub struct BufferBinding {
    pub binding: u32,
    pub descriptor_type: VkDescriptorType,
}

impl Default for BufferBinding {
    fn default() -> (b: Self)
        ensures
            b.binding == 0,
            b.descriptor_type == VkDescriptorType::StorageBuffer,
    {
        BufferBinding { binding: 0, descriptor_type: VkDescriptorType::StorageBuffer }
    }
}

/// How to build a compute pipeline.
#[derive(Debug)]
pub struct PipelineConfig {
    /// Entry point name.
    pub entry_point: String,
    /// Local workgroup size.
    pub local_size: (u32, u32, u32),
    /// Buffer bindings.
    pub bindings: Vec<BufferBinding>,
    /// Push constant block size in bytes (at most 128).
    pub push_constant_size: u32,
}

impl Default for PipelineConfig {
    fn default() -> (c: Self)
        ensures
            c.entry_point@ == "main"@,
            c.local_size == (64u32, 1u32, 1u32),
            c.bindings@.len() == 0,
            c.push_constant_size == 0,
    {
        PipelineConfig {
            entry_point: String::from_str("main"),
            local_size: (64, 1, 1),
            bindings: Vec::new(),
            push_constant_size: 0,
        }
    }
}

/// A pipeline configuration is accepted when its push constant block fits in 128 bytes.
pub fn check_pipeline_config(config: &PipelineConfig) -> (r: Result<(), KronosError>)
    ensures
        config.push_constant_size <= 128 ==> r is Ok,
        config.push_constant_size > 128 ==> (r matches Err(KronosError::ShaderCompilationFailed(m)) && m@
            == "Push constant size "@ + decimal(config.push_constant_size as nat)
            + " exceeds maximum 128 bytes"@),
{
    if config.push_constant_size > 128 {
        let mut m = String::from_str("Push constant size ");
        m.append(decimal_text(config.push_constant_size as u64).as_str());
        m.append(" exceeds maximum 128 bytes");
        return Err(KronosError::ShaderCompilationFailed(m));
    }
    Ok(())
}

/// The layout bindings of a pipeline: one descriptor for the compute stage per
/// configured binding, in order.
pub fn pipeline_layout_bindings(config: &PipelineConfig) -> (r: Vec<VkDescriptorSetLayoutBinding>)
    ensures
        r@.len() == config.bindings@.len(),
        forall|i: int|
            0 <= i < r@.len() ==> {
                &&& (#[trigger] r@[i]).binding == config.bindings@[i].binding
                &&& r@[i].descriptorType == config.bindings@[i].descriptor_type
                &&& r@[i].descriptorCount == 1
                &&& r@[i].stageFlags@ == 0x20
            },
{
    let mut out: Vec<VkDescriptorSetLayoutBinding> = Vec::new();
    let mut i: usize = 0;
    while i < config.bindings.len()
        invariant
            0 <= i <= config.bindings@.len(),
            out@.len() == i,
            forall|k: int|
                0 <= k < i ==> {
                    &&& (#[trigger] out@[k]).binding == config.bindings@[k].binding
                    &&& out@[k].descriptorType == config.bindings@[k].descriptor_type
                    &&& out@[k].descriptorCount == 1
                    &&& out@[k].stageFlags@ == 0x20
                },
        decreases config.bindings@.len() - i,
    {
        let b = config.bindings[i];
        out.push(
            VkDescriptorSetLayoutBinding {
                binding: b.binding,
                descriptorType: b.descriptor_type,
                descriptorCount: 1,
                stageFlags: VkShaderStageFlags::COMPUTE(),
            },
        );
        i = i + 1;
    }
    out
}

/// The handles of a context that a dispatch uses.
#[derive(Debug, Clone, Copy)]
pub struct DispatchTarget {
    pub device: VkDevice,
    pub command_pool: VkCommandPool,
    pub queue: VkQueue,
    pub descriptor_pool: VkDescriptorPool,
    pub pipeline: VkPipeline,
    pub layout: VkPipelineLayout,
    pub descriptor_set_layout: VkDescriptorSetLayout,
}

/// A buffer bound for a dispatch: its binding number, handle and size in bytes.
#[derive(Debug, Clone, Copy)]
pub struct BoundBuffer {
    pub binding: u32,
    pub buffer: VkBuffer,
    pub size: usize,
}

/// Whether the bindings are numbered 0, 1, 2, ... in order, so that the persistent
/// descriptor set of their buffers can serve them.
pub open spec fn bindings_in_order(bindings: Seq<BoundBuffer>) -> bool {
    forall|i: int| 0 <= i < bindings.len() ==> (#[trigger] bindings[i]).binding == i
}

/// The first binding from `i` on whose buffer is null.
pub open spec fn first_null_binding(bindings: Seq<BoundBuffer>, i: int) -> Option<int>
    decreases bindings.len() - i,
{
    if i >= bindings.len() {
        None
    } else if bindings[i].buffer.raw_value() == 0 {
        Some(i)
    } else {
        first_null_binding(bindings, i + 1)
    }
}

/// What a dispatch records, besides its pipeline and workgroup counts: whether it uses
/// the persistent descriptor set of its buffers, the descriptor writes otherwise (per
/// binding: binding number and buffer range), and one barrier per buffer that makes
/// transfer writes visible to shader reads and writes.
pub struct DispatchPlan {
    pub use_persistent_descriptors: bool,
    pub persistent_buffers: Vec<VkBuffer>,
    pub descriptor_writes: Vec<(u32, VkDescriptorBufferInfo)>,
    pub barriers: Vec<VkBufferMemoryBarrier>,
}

/// The error of a dispatch with a missing handle, in the order checked; `None` when
/// every handle it needs is there.
pub open spec fn dispatch_error(target: DispatchTarget, bindings: Seq<BoundBuffer>) -> Option<Seq<char>> {
    if target.device.raw_value() == 0 {
        Some("Compute context has no valid Vulkan device"@)
    } else if target.command_pool.raw_value() == 0 {
        Some("Compute context has no valid command pool"@)
    } else if target.queue.raw_value() == 0 {
        Some("Compute context has no valid compute queue"@)
    } else if target.pipeline.raw_value() == 0 {
        Some("CommandBuilder has no valid compute pipeline"@)
    } else if target.layout.raw_value() == 0 {
        Some("CommandBuilder has no valid pipeline layout"@)
    } else if bindings.len() > 0 && target.descriptor_set_layout.raw_value() == 0 {
        Some("Buffer bindings require a valid descriptor set layout"@)
    } else {
        match first_null_binding(bindings, 0) {
            Some(i) => Some("Binding "@ + decimal(i as nat) + " has a NULL Vulkan buffer"@),
            None => None,
        }
    }
}

/// Whether `b` is the barrier a dispatch puts before using `buffer` of `size` bytes.
pub open spec fn dispatch_barrier(b: VkBufferMemoryBarrier, buffer: BoundBuffer) -> bool {
    &&& b.sType == VkStructureType::BufferMemoryBarrier
    &&& b.srcAccessMask@ == 0x1000
    &&& b.dstAccessMask@ == 0x60
    &&& b.srcQueueFamilyIndex == VK_QUEUE_FAMILY_IGNORED
    &&& b.dstQueueFamilyIndex == VK_QUEUE_FAMILY_IGNORED
    &&& b.buffer == buffer.buffer
    &&& b.offset == 0
    &&& b.size == buffer.size
}

/// Checks a dispatch and plans what it records (see `DispatchPlan`); an error, as
/// `dispatch_error` gives it, when a handle is missing.
pub fn plan_dispatch(target: &DispatchTarget, bindings: &Vec<BoundBuffer>) -> (r: Result<DispatchPlan, KronosError>)
    ensures
        match dispatch_error(*target, bindings@) {
            Some(m) => r matches Err(KronosError::CommandExecutionFailed(e)) && e@ == m,
            None => r matches Ok(plan) && {
                &&& plan.use_persistent_descriptors == (bindings@.len() > 0 && bindings_in_order(bindings@))
                &&& plan.persistent_buffers@.len() == bindings@.len()
                &&& plan.descriptor_writes@.len() == bindings@.len()
                &&& plan.barriers@.len() == bindings@.len()
                &&& forall|i: int|
                    0 <= i < bindings@.len() ==> {
                        &&& (#[trigger] plan.persistent_buffers@[i]) == bindings@[i].buffer
                        &&& plan.descriptor_writes@[i].0 == bindings@[i].binding
                        &&& plan.descriptor_writes@[i].1.buffer == bindings@[i].buffer
                        &&& plan.descriptor_writes@[i].1.offset == 0
                        &&& plan.descriptor_writes@[i].1.range == bindings@[i].size
                        &&& dispatch_barrier(plan.barriers@[i], bindings@[i])
                    }
            },
        },
{
    if target.device.is_null() {
        return Err(KronosError::CommandExecutionFailed(String::from_str("Compute context has no valid Vulkan device")));
    }
    if target.command_pool.is_null() {
        return Err(KronosError::CommandExecutionFailed(String::from_str("Compute context has no valid command pool")));
    }
    if target.queue.is_null() {
        return Err(KronosError::CommandExecutionFailed(String::from_str("Compute context has no valid compute queue")));
    }
    if target.pipeline.is_null() {
        return Err(KronosError::CommandExecutionFailed(String::from_str("CommandBuilder has no valid compute pipeline")));
    }
    if target.layout.is_null() {
        return Err(KronosError::CommandExecutionFailed(String::from_str("CommandBuilder has no valid pipeline layout")));
    }
    if bindings.len() > 0 && target.descriptor_set_layout.is_null() {
        return Err(
            KronosError::CommandExecutionFailed(
                String::from_str("Buffer bindings require a valid descriptor set layout"),
            ),
        );
    }
    let n = bindings.len();
    let mut in_order = true;
    let mut persistent_buffers: Vec<VkBuffer> = Vec::new();
    let mut descriptor_writes: Vec<(u32, VkDescriptorBufferInfo)> = Vec::new();
    let mut barriers: Vec<VkBufferMemoryBarrier> = Vec::new();
    let mut i: usize = 0;
    while i < n
        invariant
            n == bindings@.len(),
            0 <= i <= n,
            target.device.raw_value() != 0,
            target.command_pool.raw_value() != 0,
            target.queue.raw_value() != 0,
            target.pipeline.raw_value() != 0,
            target.layout.raw_value() != 0,
            n > 0 ==> target.descriptor_set_layout.raw_value() != 0,
            first_null_binding(bindings@, 0) == first_null_binding(bindings@, i as int),
            in_order == (forall|k: int| 0 <= k < i ==> (#[trigger] bindings@[k]).binding == k),
            persistent_buffers@.len() == i,
            descriptor_writes@.len() == i,
            barriers@.len() == i,
            forall|k: int|
                0 <= k < i ==> {
                    &&& (#[trigger] persistent_buffers@[k]) == bindings@[k].buffer
                    &&& descriptor_writes@[k].0 == bindings@[k].binding
                    &&& descriptor_writes@[k].1.buffer == bindings@[k].buffer
                    &&& descriptor_writes@[k].1.offset == 0
                    &&& descriptor_writes@[k].1.range == bindings@[k].size
                    &&& dispatch_barrier(barriers@[k], bindings@[k])
                },
        decreases n - i,
    {
        let b = bindings[i];
        if b.buffer.is_null() {
            let mut m = String::from_str("Binding ");
            let digits = decimal_text(i as u64);
            m.append(digits.as_str());
            m.append(" has a NULL Vulkan buffer");
            proof {
                assert(first_null_binding(bindings@, i as int) == Some(i as int));
                assert(digits@ == decimal(i as nat));
                assert(m@ == "Binding "@ + decimal(i as nat) + " has a NULL Vulkan buffer"@);
            }
            return Err(KronosError::CommandExecutionFailed(m));
        }
        if b.binding as usize != i {
            in_order = false;
        }
        persistent_buffers.push(b.buffer);
        descriptor_writes.push((b.binding, VkDescriptorBufferInfo { buffer: b.buffer, offset: 0, range: b.size as u64 }));
        proof {
            assert(0x20u32 | 0x40u32 == 0x60u32) by (bit_vector);
        }
        barriers.push(
            VkBufferMemoryBarrier {
                sType: VkStructureType::BufferMemoryBarrier,
                srcAccessMask: VkAccessFlags::TRANSFER_WRITE(),
                dstAccessMask: VkAccessFlags::SHADER_READ().union(VkAccessFlags::SHADER_WRITE()),
                srcQueueFamilyIndex: VK_QUEUE_FAMILY_IGNORED,
                dstQueueFamilyIndex: VK_QUEUE_FAMILY_IGNORED,
                buffer: b.buffer,
                offset: 0,
                size: b.size as u64,
            },
        );
        i = i + 1;
    }
    Ok(
        DispatchPlan {
            use_persistent_descriptors: n > 0 && in_order,
            persistent_buffers,
            descriptor_writes,
            barriers,
        },
    )
}

} // verus!
