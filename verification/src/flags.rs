//! Bit flag types.
//!
//! Each flag type wraps a `u32`; its view is that `u32`. The set of all defined
//! flags of a type is the OR of its named flags. The operations follow the usual
//! bit-flag semantics: `|` is union, `&` intersection, `-` difference
//! (`a & !b`), and `contains` asks whether every bit of the argument is set.

use vstd::prelude::*;
use vstd::std_specs::ops::{BitAndSpec, BitOrSpec, SubSpec};

verus! {
/// Capabilities of a queue family.
#[derive(Debug, Clone, Copy, PartialEq, Eq, Hash, Structural)]
pub struct VkQueueFlags {
    bits: u32,
}

impl View for VkQueueFlags {
    type V = u32;

    open spec fn view(&self) -> u32 {
        self.spec_bits()
    }
}

impl VkQueueFlags {
    /// The bits of this flag set.
    pub closed spec fn spec_bits(self) -> u32 {
        self.bits
    }

    /// The OR of every defined flag.
    pub open spec fn spec_all() -> u32 {
        0xe
    }

    pub fn COMPUTE() -> (f: Self)
        ensures
            f@ == 0x2,
    {
        Self { bits: 0x2 }
    }

    pub fn TRANSFER() -> (f: Self)
        ensures
            f@ == 0x4,
    {
        Self { bits: 0x4 }
    }

    pub fn SPARSE_BINDING() -> (f: Self)
        ensures
            f@ == 0x8,
    {
        Self { bits: 0x8 }
    }

    /// The empty set of flags.
    pub fn empty() -> (f: Self)
        ensures
            f@ == 0,
    {
        Self { bits: 0 }
    }

    /// The set of every defined flag.
    pub fn all() -> (f: Self)
        ensures
            f@ == Self::spec_all(),
    {
        Self { bits: 0xe }
    }

    pub fn bits(&self) -> (b: u32)
        ensures
            b == self@,
    {
        self.bits
    }

    /// The flags with exactly these bits, or `None` when a bit is set that no flag defines.
    pub fn from_bits(bits: u32) -> (f: Option<Self>)
        ensures
            f is Some <==> (bits & Self::spec_all()) == bits,
            f matches Some(v) ==> v@ == bits,
    {
        if bits & 0xe == bits {
            Some(Self { bits })
        } else {
            None
        }
    }

    /// The flags with these bits, undefined bits dropped.
    pub fn from_bits_truncate(bits: u32) -> (f: Self)
        ensures
            f@ == bits & Self::spec_all(),
    {
        Self { bits: bits & 0xe }
    }

    /// The flags with exactly these bits, undefined bits kept.
    pub fn from_bits_retain(bits: u32) -> (f: Self)
        ensures
            f@ == bits,
    {
        Self { bits }
    }

    pub fn is_empty(&self) -> (b: bool)
        ensures
            b == (self@ == 0),
    {
        self.bits == 0
    }

    /// Whether every bit of `other` is set in `self`.
    pub fn contains(&self, other: Self) -> (b: bool)
        ensures
            b == ((self@ & other@) == other@),
    {
        self.bits & other.bits == other.bits
    }

    pub fn union(self, other: Self) -> (f: Self)
        ensures
            f@ == self@ | other@,
    {
        Self { bits: self.bits | other.bits }
    }

    pub fn intersection(self, other: Self) -> (f: Self)
        ensures
            f@ == self@ & other@,
    {
        Self { bits: self.bits & other.bits }
    }

    /// The flags of `self` that are not in `other`.
    pub fn difference(self, other: Self) -> (f: Self)
        ensures
            f@ == self@ & !other@,
    {
        Self { bits: self.bits & !other.bits }
    }
}

impl core::ops::BitOr for VkQueueFlags {
    type Output = Self;

    fn bitor(self, rhs: Self) -> (f: Self) {
        self.union(rhs)
    }
}

impl vstd::std_specs::ops::BitOrSpecImpl for VkQueueFlags {
    open spec fn obeys_bitor_spec() -> bool {
        true
    }

    open spec fn bitor_req(self, rhs: Self) -> bool {
        true
    }

    closed spec fn bitor_spec(self, rhs: Self) -> Self {
        Self { bits: self.bits | rhs.bits }
    }
}

impl core::ops::BitAnd for VkQueueFlags {
    type Output = Self;

    fn bitand(self, rhs: Self) -> (f: Self) {
        self.intersection(rhs)
    }
}

impl vstd::std_specs::ops::BitAndSpecImpl for VkQueueFlags {
    open spec fn obeys_bitand_spec() -> bool {
        true
    }

    open spec fn bitand_req(self, rhs: Self) -> bool {
        true
    }

    closed spec fn bitand_spec(self, rhs: Self) -> Self {
        Self { bits: self.bits & rhs.bits }
    }
}

impl core::ops::Sub for VkQueueFlags {
    type Output = Self;

    fn sub(self, rhs: Self) -> (f: Self) {
        self.difference(rhs)
    }
}

impl vstd::std_specs::ops::SubSpecImpl for VkQueueFlags {
    open spec fn obeys_sub_spec() -> bool {
        true
    }

    open spec fn sub_req(self, rhs: Self) -> bool {
        true
    }

    closed spec fn sub_spec(self, rhs: Self) -> Self {
        Self { bits: self.bits & !rhs.bits }
    }
}

/// Properties of a memory type.
#[derive(Debug, Clone, Copy, PartialEq, Eq, Hash, Structural)]
pub struct VkMemoryPropertyFlags {
    bits: u32,
}

impl View for VkMemoryPropertyFlags {
    type V = u32;

    open spec fn view(&self) -> u32 {
        self.spec_bits()
    }
}

impl VkMemoryPropertyFlags {
    /// The bits of this flag set.
    pub closed spec fn spec_bits(self) -> u32 {
        self.bits
    }

    /// The OR of every defined flag.
    pub open spec fn spec_all() -> u32 {
        0x1f
    }

    pub fn DEVICE_LOCAL() -> (f: Self)
        ensures
            f@ == 0x1,
    {
        Self { bits: 0x1 }
    }

    pub fn HOST_VISIBLE() -> (f: Self)
        ensures
            f@ == 0x2,
    {
        Self { bits: 0x2 }
    }

    pub fn HOST_COHERENT() -> (f: Self)
        ensures
            f@ == 0x4,
    {
        Self { bits: 0x4 }
    }

    pub fn HOST_CACHED() -> (f: Self)
        ensures
            f@ == 0x8,
    {
        Self { bits: 0x8 }
    }

    pub fn LAZILY_ALLOCATED() -> (f: Self)
        ensures
            f@ == 0x10,
    {
        Self { bits: 0x10 }
    }

    /// The empty set of flags.
    pub fn empty() -> (f: Self)
        ensures
            f@ == 0,
    {
        Self { bits: 0 }
    }

    /// The set of every defined flag.
    pub fn all() -> (f: Self)
        ensures
            f@ == Self::spec_all(),
    {
        Self { bits: 0x1f }
    }

    pub fn bits(&self) -> (b: u32)
        ensures
            b == self@,
    {
        self.bits
    }

    /// The flags with exactly these bits, or `None` when a bit is set that no flag defines.
    pub fn from_bits(bits: u32) -> (f: Option<Self>)
        ensures
            f is Some <==> (bits & Self::spec_all()) == bits,
            f matches Some(v) ==> v@ == bits,
    {
        if bits & 0x1f == bits {
            Some(Self { bits })
        } else {
            None
        }
    }

    /// The flags with these bits, undefined bits dropped.
    pub fn from_bits_truncate(bits: u32) -> (f: Self)
        ensures
            f@ == bits & Self::spec_all(),
    {
        Self { bits: bits & 0x1f }
    }

    /// The flags with exactly these bits, undefined bits kept.
    pub fn from_bits_retain(bits: u32) -> (f: Self)
        ensures
            f@ == bits,
    {
        Self { bits }
    }

    pub fn is_empty(&self) -> (b: bool)
        ensures
            b == (self@ == 0),
    {
        self.bits == 0
    }

    /// Whether every bit of `other` is set in `self`.
    pub fn contains(&self, other: Self) -> (b: bool)
        ensures
            b == ((self@ & other@) == other@),
    {
        self.bits & other.bits == other.bits
    }

    pub fn union(self, other: Self) -> (f: Self)
        ensures
            f@ == self@ | other@,
    {
        Self { bits: self.bits | other.bits }
    }

    pub fn intersection(self, other: Self) -> (f: Self)
        ensures
            f@ == self@ & other@,
    {
        Self { bits: self.bits & other.bits }
    }

    /// The flags of `self` that are not in `other`.
    pub fn difference(self, other: Self) -> (f: Self)
        ensures
            f@ == self@ & !other@,
    {
        Self { bits: self.bits & !other.bits }
    }
}

impl core::ops::BitOr for VkMemoryPropertyFlags {
    type Output = Self;

    fn bitor(self, rhs: Self) -> (f: Self) {
        self.union(rhs)
    }
}

impl vstd::std_specs::ops::BitOrSpecImpl for VkMemoryPropertyFlags {
    open spec fn obeys_bitor_spec() -> bool {
        true
    }

    open spec fn bitor_req(self, rhs: Self) -> bool {
        true
    }

    closed spec fn bitor_spec(self, rhs: Self) -> Self {
        Self { bits: self.bits | rhs.bits }
    }
}

impl core::ops::BitAnd for VkMemoryPropertyFlags {
    type Output = Self;

    fn bitand(self, rhs: Self) -> (f: Self) {
        self.intersection(rhs)
    }
}

impl vstd::std_specs::ops::BitAndSpecImpl for VkMemoryPropertyFlags {
    open spec fn obeys_bitand_spec() -> bool {
        true
    }

    open spec fn bitand_req(self, rhs: Self) -> bool {
        true
    }

    closed spec fn bitand_spec(self, rhs: Self) -> Self {
        Self { bits: self.bits & rhs.bits }
    }
}

impl core::ops::Sub for VkMemoryPropertyFlags {
    type Output = Self;

    fn sub(self, rhs: Self) -> (f: Self) {
        self.difference(rhs)
    }
}

impl vstd::std_specs::ops::SubSpecImpl for VkMemoryPropertyFlags {
    open spec fn obeys_sub_spec() -> bool {
        true
    }

    open spec fn sub_req(self, rhs: Self) -> bool {
        true
    }

    closed spec fn sub_spec(self, rhs: Self) -> Self {
        Self { bits: self.bits & !rhs.bits }
    }
}

/// How a buffer may be used.
#[derive(Debug, Clone, Copy, PartialEq, Eq, Hash, Structural)]
pub struct VkBufferUsageFlags {
    bits: u32,
}

impl View for VkBufferUsageFlags {
    type V = u32;

    open spec fn view(&self) -> u32 {
        self.spec_bits()
    }
}

impl VkBufferUsageFlags {
    /// The bits of this flag set.
    pub closed spec fn spec_bits(self) -> u32 {
        self.bits
    }

    /// The OR of every defined flag.
    pub open spec fn spec_all() -> u32 {
        0x133
    }

    pub fn TRANSFER_SRC() -> (f: Self)
        ensures
            f@ == 0x1,
    {
        Self { bits: 0x1 }
    }

    pub fn TRANSFER_DST() -> (f: Self)
        ensures
            f@ == 0x2,
    {
        Self { bits: 0x2 }
    }

    pub fn UNIFORM_BUFFER() -> (f: Self)
        ensures
            f@ == 0x10,
    {
        Self { bits: 0x10 }
    }

    pub fn STORAGE_BUFFER() -> (f: Self)
        ensures
            f@ == 0x20,
    {
        Self { bits: 0x20 }
    }

    pub fn INDIRECT_BUFFER() -> (f: Self)
        ensures
            f@ == 0x100,
    {
        Self { bits: 0x100 }
    }

    /// The empty set of flags.
    pub fn empty() -> (f: Self)
        ensures
            f@ == 0,
    {
        Self { bits: 0 }
    }

    /// The set of every defined flag.
    pub fn all() -> (f: Self)
        ensures
            f@ == Self::spec_all(),
    {
        Self { bits: 0x133 }
    }

    pub fn bits(&self) -> (b: u32)
        ensures
            b == self@,
    {
        self.bits
    }

    /// The flags with exactly these bits, or `None` when a bit is set that no flag defines.
    pub fn from_bits(bits: u32) -> (f: Option<Self>)
        ensures
            f is Some <==> (bits & Self::spec_all()) == bits,
            f matches Some(v) ==> v@ == bits,
    {
        if bits & 0x133 == bits {
            Some(Self { bits })
        } else {
            None
        }
    }

    /// The flags with these bits, undefined bits dropped.
    pub fn from_bits_truncate(bits: u32) -> (f: Self)
        ensures
            f@ == bits & Self::spec_all(),
    {
        Self { bits: bits & 0x133 }
    }

    /// The flags with exactly these bits, undefined bits kept.
    pub fn from_bits_retain(bits: u32) -> (f: Self)
        ensures
            f@ == bits,
    {
        Self { bits }
    }

    pub fn is_empty(&self) -> (b: bool)
        ensures
            b == (self@ == 0),
    {
        self.bits == 0
    }

    /// Whether every bit of `other` is set in `self`.
    pub fn contains(&self, other: Self) -> (b: bool)
        ensures
            b == ((self@ & other@) == other@),
    {
        self.bits & other.bits == other.bits
    }

    pub fn union(self, other: Self) -> (f: Self)
        ensures
            f@ == self@ | other@,
    {
        Self { bits: self.bits | other.bits }
    }

    pub fn intersection(self, other: Self) -> (f: Self)
        ensures
            f@ == self@ & other@,
    {
        Self { bits: self.bits & other.bits }
    }

    /// The flags of `self` that are not in `other`.
    pub fn difference(self, other: Self) -> (f: Self)
        ensures
            f@ == self@ & !other@,
    {
        Self { bits: self.bits & !other.bits }
    }
}

impl core::ops::BitOr for VkBufferUsageFlags {
    type Output = Self;

    fn bitor(self, rhs: Self) -> (f: Self) {
        self.union(rhs)
    }
}

impl vstd::std_specs::ops::BitOrSpecImpl for VkBufferUsageFlags {
    open spec fn obeys_bitor_spec() -> bool {
        true
    }

    open spec fn bitor_req(self, rhs: Self) -> bool {
        true
    }

    closed spec fn bitor_spec(self, rhs: Self) -> Self {
        Self { bits: self.bits | rhs.bits }
    }
}

impl core::ops::BitAnd for VkBufferUsageFlags {
    type Output = Self;

    fn bitand(self, rhs: Self) -> (f: Self) {
        self.intersection(rhs)
    }
}

impl vstd::std_specs::ops::BitAndSpecImpl for VkBufferUsageFlags {
    open spec fn obeys_bitand_spec() -> bool {
        true
    }

    open spec fn bitand_req(self, rhs: Self) -> bool {
        true
    }

    closed spec fn bitand_spec(self, rhs: Self) -> Self {
        Self { bits: self.bits & rhs.bits }
    }
}

impl core::ops::Sub for VkBufferUsageFlags {
    type Output = Self;

    fn sub(self, rhs: Self) -> (f: Self) {
        self.difference(rhs)
    }
}

impl vstd::std_specs::ops::SubSpecImpl for VkBufferUsageFlags {
    open spec fn obeys_sub_spec() -> bool {
        true
    }

    open spec fn sub_req(self, rhs: Self) -> bool {
        true
    }

    closed spec fn sub_spec(self, rhs: Self) -> Self {
        Self { bits: self.bits & !rhs.bits }
    }
}

/// Options for buffer creation.
#[derive(Debug, Clone, Copy, PartialEq, Eq, Hash, Structural)]
pub struct VkBufferCreateFlags {
    bits: u32,
}

impl View for VkBufferCreateFlags {
    type V = u32;

    open spec fn view(&self) -> u32 {
        self.spec_bits()
    }
}

impl VkBufferCreateFlags {
    /// The bits of this flag set.
    pub closed spec fn spec_bits(self) -> u32 {
        self.bits
    }

    /// The OR of every defined flag.
    pub open spec fn spec_all() -> u32 {
        0x7
    }

    pub fn SPARSE_BINDING() -> (f: Self)
        ensures
            f@ == 0x1,
    {
        Self { bits: 0x1 }
    }

    pub fn SPARSE_RESIDENCY() -> (f: Self)
        ensures
            f@ == 0x2,
    {
        Self { bits: 0x2 }
    }

    pub fn SPARSE_ALIASED() -> (f: Self)
        ensures
            f@ == 0x4,
    {
        Self { bits: 0x4 }
    }

    /// The empty set of flags.
    pub fn empty() -> (f: Self)
        ensures
            f@ == 0,
    {
        Self { bits: 0 }
    }

    /// The set of every defined flag.
    pub fn all() -> (f: Self)
        ensures
            f@ == Self::spec_all(),
    {
        Self { bits: 0x7 }
    }

    pub fn bits(&self) -> (b: u32)
        ensures
            b == self@,
    {
        self.bits
    }

    /// The flags with exactly these bits, or `None` when a bit is set that no flag defines.
    pub fn from_bits(bits: u32) -> (f: Option<Self>)
        ensures
            f is Some <==> (bits & Self::spec_all()) == bits,
            f matches Some(v) ==> v@ == bits,
    {
        if bits & 0x7 == bits {
            Some(Self { bits })
        } else {
            None
        }
    }

    /// The flags with these bits, undefined bits dropped.
    pub fn from_bits_truncate(bits: u32) -> (f: Self)
        ensures
            f@ == bits & Self::spec_all(),
    {
        Self { bits: bits & 0x7 }
    }

    /// The flags with exactly these bits, undefined bits kept.
    pub fn from_bits_retain(bits: u32) -> (f: Self)
        ensures
            f@ == bits,
    {
        Self { bits }
    }

    pub fn is_empty(&self) -> (b: bool)
        ensures
            b == (self@ == 0),
    {
        self.bits == 0
    }

    /// Whether every bit of `other` is set in `self`.
    pub fn contains(&self, other: Self) -> (b: bool)
        ensures
            b == ((self@ & other@) == other@),
    {
        self.bits & other.bits == other.bits
    }

    pub fn union(self, other: Self) -> (f: Self)
        ensures
            f@ == self@ | other@,
    {
        Self { bits: self.bits | other.bits }
    }

    pub fn intersection(self, other: Self) -> (f: Self)
        ensures
            f@ == self@ & other@,
    {
        Self { bits: self.bits & other.bits }
    }

    /// The flags of `self` that are not in `other`.
    pub fn difference(self, other: Self) -> (f: Self)
        ensures
            f@ == self@ & !other@,
    {
        Self { bits: self.bits & !other.bits }
    }
}

impl core::ops::BitOr for VkBufferCreateFlags {
    type Output = Self;

    fn bitor(self, rhs: Self) -> (f: Self) {
        self.union(rhs)
    }
}

impl vstd::std_specs::ops::BitOrSpecImpl for VkBufferCreateFlags {
    open spec fn obeys_bitor_spec() -> bool {
        true
    }

    open spec fn bitor_req(self, rhs: Self) -> bool {
        true
    }

    closed spec fn bitor_spec(self, rhs: Self) -> Self {
        Self { bits: self.bits | rhs.bits }
    }
}

impl core::ops::BitAnd for VkBufferCreateFlags {
    type Output = Self;

    fn bitand(self, rhs: Self) -> (f: Self) {
        self.intersection(rhs)
    }
}

impl vstd::std_specs::ops::BitAndSpecImpl for VkBufferCreateFlags {
    open spec fn obeys_bitand_spec() -> bool {
        true
    }

    open spec fn bitand_req(self, rhs: Self) -> bool {
        true
    }

    closed spec fn bitand_spec(self, rhs: Self) -> Self {
        Self { bits: self.bits & rhs.bits }
    }
}

impl core::ops::Sub for VkBufferCreateFlags {
    type Output = Self;

    fn sub(self, rhs: Self) -> (f: Self) {
        self.difference(rhs)
    }
}

impl vstd::std_specs::ops::SubSpecImpl for VkBufferCreateFlags {
    open spec fn obeys_sub_spec() -> bool {
        true
    }

    open spec fn sub_req(self, rhs: Self) -> bool {
        true
    }

    closed spec fn sub_spec(self, rhs: Self) -> Self {
        Self { bits: self.bits & !rhs.bits }
    }
}

/// How a recorded command buffer will be submitted.
#[derive(Debug, Clone, Copy, PartialEq, Eq, Hash, Structural)]
pub struct VkCommandBufferUsageFlags {
    bits: u32,
}

impl View for VkCommandBufferUsageFlags {
    type V = u32;

    open spec fn view(&self) -> u32 {
        self.spec_bits()
    }
}

impl VkCommandBufferUsageFlags {
    /// The bits of this flag set.
    pub closed spec fn spec_bits(self) -> u32 {
        self.bits
    }

    /// The OR of every defined flag.
    pub open spec fn spec_all() -> u32 {
        0x7
    }

    pub fn ONE_TIME_SUBMIT() -> (f: Self)
        ensures
            f@ == 0x1,
    {
        Self { bits: 0x1 }
    }

    pub fn RENDER_PASS_CONTINUE() -> (f: Self)
        ensures
            f@ == 0x2,
    {
        Self { bits: 0x2 }
    }

    pub fn SIMULTANEOUS_USE() -> (f: Self)
        ensures
            f@ == 0x4,
    {
        Self { bits: 0x4 }
    }

    /// The empty set of flags.
    pub fn empty() -> (f: Self)
        ensures
            f@ == 0,
    {
        Self { bits: 0 }
    }

    /// The set of every defined flag.
    pub fn all() -> (f: Self)
        ensures
            f@ == Self::spec_all(),
    {
        Self { bits: 0x7 }
    }

    pub fn bits(&self) -> (b: u32)
        ensures
            b == self@,
    {
        self.bits
    }

    /// The flags with exactly these bits, or `None` when a bit is set that no flag defines.
    pub fn from_bits(bits: u32) -> (f: Option<Self>)
        ensures
            f is Some <==> (bits & Self::spec_all()) == bits,
            f matches Some(v) ==> v@ == bits,
    {
        if bits & 0x7 == bits {
            Some(Self { bits })
        } else {
            None
        }
    }

    /// The flags with these bits, undefined bits dropped.
    pub fn from_bits_truncate(bits: u32) -> (f: Self)
        ensures
            f@ == bits & Self::spec_all(),
    {
        Self { bits: bits & 0x7 }
    }

    /// The flags with exactly these bits, undefined bits kept.
    pub fn from_bits_retain(bits: u32) -> (f: Self)
        ensures
            f@ == bits,
    {
        Self { bits }
    }

    pub fn is_empty(&self) -> (b: bool)
        ensures
            b == (self@ == 0),
    {
        self.bits == 0
    }

    /// Whether every bit of `other` is set in `self`.
    pub fn contains(&self, other: Self) -> (b: bool)
        ensures
            b == ((self@ & other@) == other@),
    {
        self.bits & other.bits == other.bits
    }

    pub fn union(self, other: Self) -> (f: Self)
        ensures
            f@ == self@ | other@,
    {
        Self { bits: self.bits | other.bits }
    }

    pub fn intersection(self, other: Self) -> (f: Self)
        ensures
            f@ == self@ & other@,
    {
        Self { bits: self.bits & other.bits }
    }

    /// The flags of `self` that are not in `other`.
    pub fn difference(self, other: Self) -> (f: Self)
        ensures
            f@ == self@ & !other@,
    {
        Self { bits: self.bits & !other.bits }
    }
}

impl core::ops::BitOr for VkCommandBufferUsageFlags {
    type Output = Self;

    fn bitor(self, rhs: Self) -> (f: Self) {
        self.union(rhs)
    }
}

impl vstd::std_specs::ops::BitOrSpecImpl for VkCommandBufferUsageFlags {
    open spec fn obeys_bitor_spec() -> bool {
        true
    }

    open spec fn bitor_req(self, rhs: Self) -> bool {
        true
    }

    closed spec fn bitor_spec(self, rhs: Self) -> Self {
        Self { bits: self.bits | rhs.bits }
    }
}

impl core::ops::BitAnd for VkCommandBufferUsageFlags {
    type Output = Self;

    fn bitand(self, rhs: Self) -> (f: Self) {
        self.intersection(rhs)
    }
}

impl vstd::std_specs::ops::BitAndSpecImpl for VkCommandBufferUsageFlags {
    open spec fn obeys_bitand_spec() -> bool {
        true
    }

    open spec fn bitand_req(self, rhs: Self) -> bool {
        true
    }

    closed spec fn bitand_spec(self, rhs: Self) -> Self {
        Self { bits: self.bits & rhs.bits }
    }
}

impl core::ops::Sub for VkCommandBufferUsageFlags {
    type Output = Self;

    fn sub(self, rhs: Self) -> (f: Self) {
        self.difference(rhs)
    }
}

impl vstd::std_specs::ops::SubSpecImpl for VkCommandBufferUsageFlags {
    open spec fn obeys_sub_spec() -> bool {
        true
    }

    open spec fn sub_req(self, rhs: Self) -> bool {
        true
    }

    closed spec fn sub_spec(self, rhs: Self) -> Self {
        Self { bits: self.bits & !rhs.bits }
    }
}

/// Options for command pool creation.
#[derive(Debug, Clone, Copy, PartialEq, Eq, Hash, Structural)]
pub struct VkCommandPoolCreateFlags {
    bits: u32,
}

impl View for VkCommandPoolCreateFlags {
    type V = u32;

    open spec fn view(&self) -> u32 {
        self.spec_bits()
    }
}

impl VkCommandPoolCreateFlags {
    /// The bits of this flag set.
    pub closed spec fn spec_bits(self) -> u32 {
        self.bits
    }

    /// The OR of every defined flag.
    pub open spec fn spec_all() -> u32 {
        0x3
    }

    pub fn TRANSIENT() -> (f: Self)
        ensures
            f@ == 0x1,
    {
        Self { bits: 0x1 }
    }

    pub fn RESET_COMMAND_BUFFER() -> (f: Self)
        ensures
            f@ == 0x2,
    {
        Self { bits: 0x2 }
    }

    /// The empty set of flags.
    pub fn empty() -> (f: Self)
        ensures
            f@ == 0,
    {
        Self { bits: 0 }
    }

    /// The set of every defined flag.
    pub fn all() -> (f: Self)
        ensures
            f@ == Self::spec_all(),
    {
        Self { bits: 0x3 }
    }

    pub fn bits(&self) -> (b: u32)
        ensures
            b == self@,
    {
        self.bits
    }

    /// The flags with exactly these bits, or `None` when a bit is set that no flag defines.
    pub fn from_bits(bits: u32) -> (f: Option<Self>)
        ensures
            f is Some <==> (bits & Self::spec_all()) == bits,
            f matches Some(v) ==> v@ == bits,
    {
        if bits & 0x3 == bits {
            Some(Self { bits })
        } else {
            None
        }
    }

    /// The flags with these bits, undefined bits dropped.
    pub fn from_bits_truncate(bits: u32) -> (f: Self)
        ensures
            f@ == bits & Self::spec_all(),
    {
        Self { bits: bits & 0x3 }
    }

    /// The flags with exactly these bits, undefined bits kept.
    pub fn from_bits_retain(bits: u32) -> (f: Self)
        ensures
            f@ == bits,
    {
        Self { bits }
    }

    pub fn is_empty(&self) -> (b: bool)
        ensures
            b == (self@ == 0),
    {
        self.bits == 0
    }

    /// Whether every bit of `other` is set in `self`.
    pub fn contains(&self, other: Self) -> (b: bool)
        ensures
            b == ((self@ & other@) == other@),
    {
        self.bits & other.bits == other.bits
    }

    pub fn union(self, other: Self) -> (f: Self)
        ensures
            f@ == self@ | other@,
    {
        Self { bits: self.bits | other.bits }
    }

    pub fn intersection(self, other: Self) -> (f: Self)
        ensures
            f@ == self@ & other@,
    {
        Self { bits: self.bits & other.bits }
    }

    /// The flags of `self` that are not in `other`.
    pub fn difference(self, other: Self) -> (f: Self)
        ensures
            f@ == self@ & !other@,
    {
        Self { bits: self.bits & !other.bits }
    }
}

impl core::ops::BitOr for VkCommandPoolCreateFlags {
    type Output = Self;

    fn bitor(self, rhs: Self) -> (f: Self) {
        self.union(rhs)
    }
}

impl vstd::std_specs::ops::BitOrSpecImpl for VkCommandPoolCreateFlags {
    open spec fn obeys_bitor_spec() -> bool {
        true
    }

    open spec fn bitor_req(self, rhs: Self) -> bool {
        true
    }

    closed spec fn bitor_spec(self, rhs: Self) -> Self {
        Self { bits: self.bits | rhs.bits }
    }
}

impl core::ops::BitAnd for VkCommandPoolCreateFlags {
    type Output = Self;

    fn bitand(self, rhs: Self) -> (f: Self) {
        self.intersection(rhs)
    }
}

impl vstd::std_specs::ops::BitAndSpecImpl for VkCommandPoolCreateFlags {
    open spec fn obeys_bitand_spec() -> bool {
        true
    }

    open spec fn bitand_req(self, rhs: Self) -> bool {
        true
    }

    closed spec fn bitand_spec(self, rhs: Self) -> Self {
        Self { bits: self.bits & rhs.bits }
    }
}

impl core::ops::Sub for VkCommandPoolCreateFlags {
    type Output = Self;

    fn sub(self, rhs: Self) -> (f: Self) {
        self.difference(rhs)
    }
}

impl vstd::std_specs::ops::SubSpecImpl for VkCommandPoolCreateFlags {
    open spec fn obeys_sub_spec() -> bool {
        true
    }

    open spec fn sub_req(self, rhs: Self) -> bool {
        true
    }

    closed spec fn sub_spec(self, rhs: Self) -> Self {
        Self { bits: self.bits & !rhs.bits }
    }
}

/// Shader stages.
#[derive(Debug, Clone, Copy, PartialEq, Eq, Hash, Structural)]
pub struct VkShaderStageFlags {
    bits: u32,
}

impl View for VkShaderStageFlags {
    type V = u32;

    open spec fn view(&self) -> u32 {
        self.spec_bits()
    }
}

impl VkShaderStageFlags {
    /// The bits of this flag set.
    pub closed spec fn spec_bits(self) -> u32 {
        self.bits
    }

    /// The OR of every defined flag.
    pub open spec fn spec_all() -> u32 {
        0x7fffffff
    }

    pub fn COMPUTE() -> (f: Self)
        ensures
            f@ == 0x20,
    {
        Self { bits: 0x20 }
    }

    pub fn ALL() -> (f: Self)
        ensures
            f@ == 0x7fffffff,
    {
        Self { bits: 0x7fffffff }
    }

    /// The empty set of flags.
    pub fn empty() -> (f: Self)
        ensures
            f@ == 0,
    {
        Self { bits: 0 }
    }

    /// The set of every defined flag.
    pub fn all() -> (f: Self)
        ensures
            f@ == Self::spec_all(),
    {
        Self { bits: 0x7fffffff }
    }

    pub fn bits(&self) -> (b: u32)
        ensures
            b == self@,
    {
        self.bits
    }

    /// The flags with exactly these bits, or `None` when a bit is set that no flag defines.
    pub fn from_bits(bits: u32) -> (f: Option<Self>)
        ensures
            f is Some <==> (bits & Self::spec_all()) == bits,
            f matches Some(v) ==> v@ == bits,
    {
        if bits & 0x7fffffff == bits {
            Some(Self { bits })
        } else {
            None
        }
    }

    /// The flags with these bits, undefined bits dropped.
    pub fn from_bits_truncate(bits: u32) -> (f: Self)
        ensures
            f@ == bits & Self::spec_all(),
    {
        Self { bits: bits & 0x7fffffff }
    }

    /// The flags with exactly these bits, undefined bits kept.
    pub fn from_bits_retain(bits: u32) -> (f: Self)
        ensures
            f@ == bits,
    {
        Self { bits }
    }

    pub fn is_empty(&self) -> (b: bool)
        ensures
            b == (self@ == 0),
    {
        self.bits == 0
    }

    /// Whether every bit of `other` is set in `self`.
    pub fn contains(&self, other: Self) -> (b: bool)
        ensures
            b == ((self@ & other@) == other@),
    {
        self.bits & other.bits == other.bits
    }

    pub fn union(self, other: Self) -> (f: Self)
        ensures
            f@ == self@ | other@,
    {
        Self { bits: self.bits | other.bits }
    }

    pub fn intersection(self, other: Self) -> (f: Self)
        ensures
            f@ == self@ & other@,
    {
        Self { bits: self.bits & other.bits }
    }

    /// The flags of `self` that are not in `other`.
    pub fn difference(self, other: Self) -> (f: Self)
        ensures
            f@ == self@ & !other@,
    {
        Self { bits: self.bits & !other.bits }
    }
}

impl core::ops::BitOr for VkShaderStageFlags {
    type Output = Self;

    fn bitor(self, rhs: Self) -> (f: Self) {
        self.union(rhs)
    }
}

impl vstd::std_specs::ops::BitOrSpecImpl for VkShaderStageFlags {
    open spec fn obeys_bitor_spec() -> bool {
        true
    }

    open spec fn bitor_req(self, rhs: Self) -> bool {
        true
    }

    closed spec fn bitor_spec(self, rhs: Self) -> Self {
        Self { bits: self.bits | rhs.bits }
    }
}

impl core::ops::BitAnd for VkShaderStageFlags {
    type Output = Self;

    fn bitand(self, rhs: Self) -> (f: Self) {
        self.intersection(rhs)
    }
}

impl vstd::std_specs::ops::BitAndSpecImpl for VkShaderStageFlags {
    open spec fn obeys_bitand_spec() -> bool {
        true
    }

    open spec fn bitand_req(self, rhs: Self) -> bool {
        true
    }

    closed spec fn bitand_spec(self, rhs: Self) -> Self {
        Self { bits: self.bits & rhs.bits }
    }
}

impl core::ops::Sub for VkShaderStageFlags {
    type Output = Self;

    fn sub(self, rhs: Self) -> (f: Self) {
        self.difference(rhs)
    }
}

impl vstd::std_specs::ops::SubSpecImpl for VkShaderStageFlags {
    open spec fn obeys_sub_spec() -> bool {
        true
    }

    open spec fn sub_req(self, rhs: Self) -> bool {
        true
    }

    closed spec fn sub_spec(self, rhs: Self) -> Self {
        Self { bits: self.bits & !rhs.bits }
    }
}

/// Pipeline stages, as used by barriers.
#[derive(Debug, Clone, Copy, PartialEq, Eq, Hash, Structural)]
pub struct VkPipelineStageFlags {
    bits: u32,
}

impl View for VkPipelineStageFlags {
    type V = u32;

    open spec fn view(&self) -> u32 {
        self.spec_bits()
    }
}

impl VkPipelineStageFlags {
    /// The bits of this flag set.
    pub closed spec fn spec_bits(self) -> u32 {
        self.bits
    }

    /// The OR of every defined flag.
    pub open spec fn spec_all() -> u32 {
        0x16801
    }

    pub fn TOP_OF_PIPE() -> (f: Self)
        ensures
            f@ == 0x1,
    {
        Self { bits: 0x1 }
    }

    pub fn COMPUTE_SHADER() -> (f: Self)
        ensures
            f@ == 0x800,
    {
        Self { bits: 0x800 }
    }

    pub fn BOTTOM_OF_PIPE() -> (f: Self)
        ensures
            f@ == 0x2000,
    {
        Self { bits: 0x2000 }
    }

    pub fn HOST() -> (f: Self)
        ensures
            f@ == 0x4000,
    {
        Self { bits: 0x4000 }
    }

    pub fn ALL_COMMANDS() -> (f: Self)
        ensures
            f@ == 0x10000,
    {
        Self { bits: 0x10000 }
    }

    /// The empty set of flags.
    pub fn empty() -> (f: Self)
        ensures
            f@ == 0,
    {
        Self { bits: 0 }
    }

    /// The set of every defined flag.
    pub fn all() -> (f: Self)
        ensures
            f@ == Self::spec_all(),
    {
        Self { bits: 0x16801 }
    }

    pub fn bits(&self) -> (b: u32)
        ensures
            b == self@,
    {
        self.bits
    }

    /// The flags with exactly these bits, or `None` when a bit is set that no flag defines.
    pub fn from_bits(bits: u32) -> (f: Option<Self>)
        ensures
            f is Some <==> (bits & Self::spec_all()) == bits,
            f matches Some(v) ==> v@ == bits,
    {
        if bits & 0x16801 == bits {
            Some(Self { bits })
        } else {
            None
        }
    }

    /// The flags with these bits, undefined bits dropped.
    pub fn from_bits_truncate(bits: u32) -> (f: Self)
        ensures
            f@ == bits & Self::spec_all(),
    {
        Self { bits: bits & 0x16801 }
    }

    /// The flags with exactly these bits, undefined bits kept.
    pub fn from_bits_retain(bits: u32) -> (f: Self)
        ensures
            f@ == bits,
    {
        Self { bits }
    }

    pub fn is_empty(&self) -> (b: bool)
        ensures
            b == (self@ == 0),
    {
        self.bits == 0
    }

    /// Whether every bit of `other` is set in `self`.
    pub fn contains(&self, other: Self) -> (b: bool)
        ensures
            b == ((self@ & other@) == other@),
    {
        self.bits & other.bits == other.bits
    }

    pub fn union(self, other: Self) -> (f: Self)
        ensures
            f@ == self@ | other@,
    {
        Self { bits: self.bits | other.bits }
    }

    pub fn intersection(self, other: Self) -> (f: Self)
        ensures
            f@ == self@ & other@,
    {
        Self { bits: self.bits & other.bits }
    }

    /// The flags of `self` that are not in `other`.
    pub fn difference(self, other: Self) -> (f: Self)
        ensures
            f@ == self@ & !other@,
    {
        Self { bits: self.bits & !other.bits }
    }
}

impl core::ops::BitOr for VkPipelineStageFlags {
    type Output = Self;

    fn bitor(self, rhs: Self) -> (f: Self) {
        self.union(rhs)
    }
}

impl vstd::std_specs::ops::BitOrSpecImpl for VkPipelineStageFlags {
    open spec fn obeys_bitor_spec() -> bool {
        true
    }

    open spec fn bitor_req(self, rhs: Self) -> bool {
        true
    }

    closed spec fn bitor_spec(self, rhs: Self) -> Self {
        Self { bits: self.bits | rhs.bits }
    }
}

impl core::ops::BitAnd for VkPipelineStageFlags {
    type Output = Self;

    fn bitand(self, rhs: Self) -> (f: Self) {
        self.intersection(rhs)
    }
}

impl vstd::std_specs::ops::BitAndSpecImpl for VkPipelineStageFlags {
    open spec fn obeys_bitand_spec() -> bool {
        true
    }

    open spec fn bitand_req(self, rhs: Self) -> bool {
        true
    }

    closed spec fn bitand_spec(self, rhs: Self) -> Self {
        Self { bits: self.bits & rhs.bits }
    }
}

impl core::ops::Sub for VkPipelineStageFlags {
    type Output = Self;

    fn sub(self, rhs: Self) -> (f: Self) {
        self.difference(rhs)
    }
}

impl vstd::std_specs::ops::SubSpecImpl for VkPipelineStageFlags {
    open spec fn obeys_sub_spec() -> bool {
        true
    }

    open spec fn sub_req(self, rhs: Self) -> bool {
        true
    }

    closed spec fn sub_spec(self, rhs: Self) -> Self {
        Self { bits: self.bits & !rhs.bits }
    }
}

/// Kinds of memory access, as used by barriers.
#[derive(Debug, Clone, Copy, PartialEq, Eq, Hash, Structural)]
pub struct VkAccessFlags {
    bits: u32,
}

impl View for VkAccessFlags {
    type V = u32;

    open spec fn view(&self) -> u32 {
        self.spec_bits()
    }
}

impl VkAccessFlags {
    /// The bits of this flag set.
    pub closed spec fn spec_bits(self) -> u32 {
        self.bits
    }

    /// The OR of every defined flag.
    pub open spec fn spec_all() -> u32 {
        0x1f869
    }

    pub fn INDIRECT_COMMAND_READ() -> (f: Self)
        ensures
            f@ == 0x1,
    {
        Self { bits: 0x1 }
    }

    pub fn UNIFORM_READ() -> (f: Self)
        ensures
            f@ == 0x8,
    {
        Self { bits: 0x8 }
    }

    pub fn SHADER_READ() -> (f: Self)
        ensures
            f@ == 0x20,
    {
        Self { bits: 0x20 }
    }

    pub fn SHADER_WRITE() -> (f: Self)
        ensures
            f@ == 0x40,
    {
        Self { bits: 0x40 }
    }

    pub fn TRANSFER_READ() -> (f: Self)
        ensures
            f@ == 0x800,
    {
        Self { bits: 0x800 }
    }

    pub fn TRANSFER_WRITE() -> (f: Self)
        ensures
            f@ == 0x1000,
    {
        Self { bits: 0x1000 }
    }

    pub fn HOST_READ() -> (f: Self)
        ensures
            f@ == 0x2000,
    {
        Self { bits: 0x2000 }
    }

    pub fn HOST_WRITE() -> (f: Self)
        ensures
            f@ == 0x4000,
    {
        Self { bits: 0x4000 }
    }

    pub fn MEMORY_READ() -> (f: Self)
        ensures
            f@ == 0x8000,
    {
        Self { bits: 0x8000 }
    }

    pub fn MEMORY_WRITE() -> (f: Self)
        ensures
            f@ == 0x10000,
    {
        Self { bits: 0x10000 }
    }

    /// The empty set of flags.
    pub fn empty() -> (f: Self)
        ensures
            f@ == 0,
    {
        Self { bits: 0 }
    }

    /// The set of every defined flag.
    pub fn all() -> (f: Self)
        ensures
            f@ == Self::spec_all(),
    {
        Self { bits: 0x1f869 }
    }

    pub fn bits(&self) -> (b: u32)
        ensures
            b == self@,
    {
        self.bits
    }

    /// The flags with exactly these bits, or `None` when a bit is set that no flag defines.
    pub fn from_bits(bits: u32) -> (f: Option<Self>)
        ensures
            f is Some <==> (bits & Self::spec_all()) == bits,
            f matches Some(v) ==> v@ == bits,
    {
        if bits & 0x1f869 == bits {
            Some(Self { bits })
        } else {
            None
        }
    }

    /// The flags with these bits, undefined bits dropped.
    pub fn from_bits_truncate(bits: u32) -> (f: Self)
        ensures
            f@ == bits & Self::spec_all(),
    {
        Self { bits: bits & 0x1f869 }
    }

    /// The flags with exactly these bits, undefined bits kept.
    pub fn from_bits_retain(bits: u32) -> (f: Self)
        ensures
            f@ == bits,
    {
        Self { bits }
    }

    pub fn is_empty(&self) -> (b: bool)
        ensures
            b == (self@ == 0),
    {
        self.bits == 0
    }

    /// Whether every bit of `other` is set in `self`.
    pub fn contains(&self, other: Self) -> (b: bool)
        ensures
            b == ((self@ & other@) == other@),
    {
        self.bits & other.bits == other.bits
    }

    pub fn union(self, other: Self) -> (f: Self)
        ensures
            f@ == self@ | other@,
    {
        Self { bits: self.bits | other.bits }
    }

    pub fn intersection(self, other: Self) -> (f: Self)
        ensures
            f@ == self@ & other@,
    {
        Self { bits: self.bits & other.bits }
    }

    /// The flags of `self` that are not in `other`.
    pub fn difference(self, other: Self) -> (f: Self)
        ensures
            f@ == self@ & !other@,
    {
        Self { bits: self.bits & !other.bits }
    }
}

impl core::ops::BitOr for VkAccessFlags {
    type Output = Self;

    fn bitor(self, rhs: Self) -> (f: Self) {
        self.union(rhs)
    }
}

impl vstd::std_specs::ops::BitOrSpecImpl for VkAccessFlags {
    open spec fn obeys_bitor_spec() -> bool {
        true
    }

    open spec fn bitor_req(self, rhs: Self) -> bool {
        true
    }

    closed spec fn bitor_spec(self, rhs: Self) -> Self {
        Self { bits: self.bits | rhs.bits }
    }
}

impl core::ops::BitAnd for VkAccessFlags {
    type Output = Self;

    fn bitand(self, rhs: Self) -> (f: Self) {
        self.intersection(rhs)
    }
}

impl vstd::std_specs::ops::BitAndSpecImpl for VkAccessFlags {
    open spec fn obeys_bitand_spec() -> bool {
        true
    }

    open spec fn bitand_req(self, rhs: Self) -> bool {
        true
    }

    closed spec fn bitand_spec(self, rhs: Self) -> Self {
        Self { bits: self.bits & rhs.bits }
    }
}

impl core::ops::Sub for VkAccessFlags {
    type Output = Self;

    fn sub(self, rhs: Self) -> (f: Self) {
        self.difference(rhs)
    }
}

impl vstd::std_specs::ops::SubSpecImpl for VkAccessFlags {
    open spec fn obeys_sub_spec() -> bool {
        true
    }

    open spec fn sub_req(self, rhs: Self) -> bool {
        true
    }

    closed spec fn sub_spec(self, rhs: Self) -> Self {
        Self { bits: self.bits & !rhs.bits }
    }
}

/// Options for pipeline creation.
#[derive(Debug, Clone, Copy, PartialEq, Eq, Hash, Structural)]
pub struct VkPipelineCreateFlags {
    bits: u32,
}

impl View for VkPipelineCreateFlags {
    type V = u32;

    open spec fn view(&self) -> u32 {
        self.spec_bits()
    }
}

impl VkPipelineCreateFlags {
    /// The bits of this flag set.
    pub closed spec fn spec_bits(self) -> u32 {
        self.bits
    }

    /// The OR of every defined flag.
    pub open spec fn spec_all() -> u32 {
        0x7
    }

    pub fn DISABLE_OPTIMIZATION() -> (f: Self)
        ensures
            f@ == 0x1,
    {
        Self { bits: 0x1 }
    }

    pub fn ALLOW_DERIVATIVES() -> (f: Self)
        ensures
            f@ == 0x2,
    {
        Self { bits: 0x2 }
    }

    pub fn DERIVATIVE() -> (f: Self)
        ensures
            f@ == 0x4,
    {
        Self { bits: 0x4 }
    }

    /// The empty set of flags.
    pub fn empty() -> (f: Self)
        ensures
            f@ == 0,
    {
        Self { bits: 0 }
    }

    /// The set of every defined flag.
    pub fn all() -> (f: Self)
        ensures
            f@ == Self::spec_all(),
    {
        Self { bits: 0x7 }
    }

    pub fn bits(&self) -> (b: u32)
        ensures
            b == self@,
    {
        self.bits
    }

    /// The flags with exactly these bits, or `None` when a bit is set that no flag defines.
    pub fn from_bits(bits: u32) -> (f: Option<Self>)
        ensures
            f is Some <==> (bits & Self::spec_all()) == bits,
            f matches Some(v) ==> v@ == bits,
    {
        if bits & 0x7 == bits {
            Some(Self { bits })
        } else {
            None
        }
    }

    /// The flags with these bits, undefined bits dropped.
    pub fn from_bits_truncate(bits: u32) -> (f: Self)
        ensures
            f@ == bits & Self::spec_all(),
    {
        Self { bits: bits & 0x7 }
    }

    /// The flags with exactly these bits, undefined bits kept.
    pub fn from_bits_retain(bits: u32) -> (f: Self)
        ensures
            f@ == bits,
    {
        Self { bits }
    }

    pub fn is_empty(&self) -> (b: bool)
        ensures
            b == (self@ == 0),
    {
        self.bits == 0
    }

    /// Whether every bit of `other` is set in `self`.
    pub fn contains(&self, other: Self) -> (b: bool)
        ensures
            b == ((self@ & other@) == other@),
    {
        self.bits & other.bits == other.bits
    }

    pub fn union(self, other: Self) -> (f: Self)
        ensures
            f@ == self@ | other@,
    {
        Self { bits: self.bits | other.bits }
    }

    pub fn intersection(self, other: Self) -> (f: Self)
        ensures
            f@ == self@ & other@,
    {
        Self { bits: self.bits & other.bits }
    }

    /// The flags of `self` that are not in `other`.
    pub fn difference(self, other: Self) -> (f: Self)
        ensures
            f@ == self@ & !other@,
    {
        Self { bits: self.bits & !other.bits }
    }
}

impl core::ops::BitOr for VkPipelineCreateFlags {
    type Output = Self;

    fn bitor(self, rhs: Self) -> (f: Self) {
        self.union(rhs)
    }
}

impl vstd::std_specs::ops::BitOrSpecImpl for VkPipelineCreateFlags {
    open spec fn obeys_bitor_spec() -> bool {
        true
    }

    open spec fn bitor_req(self, rhs: Self) -> bool {
        true
    }

    closed spec fn bitor_spec(self, rhs: Self) -> Self {
        Self { bits: self.bits | rhs.bits }
    }
}

impl core::ops::BitAnd for VkPipelineCreateFlags {
    type Output = Self;

    fn bitand(self, rhs: Self) -> (f: Self) {
        self.intersection(rhs)
    }
}

impl vstd::std_specs::ops::BitAndSpecImpl for VkPipelineCreateFlags {
    open spec fn obeys_bitand_spec() -> bool {
        true
    }

    open spec fn bitand_req(self, rhs: Self) -> bool {
        true
    }

    closed spec fn bitand_spec(self, rhs: Self) -> Self {
        Self { bits: self.bits & rhs.bits }
    }
}

impl core::ops::Sub for VkPipelineCreateFlags {
    type Output = Self;

    fn sub(self, rhs: Self) -> (f: Self) {
        self.difference(rhs)
    }
}

impl vstd::std_specs::ops::SubSpecImpl for VkPipelineCreateFlags {
    open spec fn obeys_sub_spec() -> bool {
        true
    }

    open spec fn sub_req(self, rhs: Self) -> bool {
        true
    }

    closed spec fn sub_spec(self, rhs: Self) -> Self {
        Self { bits: self.bits & !rhs.bits }
    }
}

/// Options for descriptor pool creation.
#[derive(Debug, Clone, Copy, PartialEq, Eq, Hash, Structural)]
pub struct VkDescriptorPoolCreateFlags {
    bits: u32,
}

impl View for VkDescriptorPoolCreateFlags {
    type V = u32;

    open spec fn view(&self) -> u32 {
        self.spec_bits()
    }
}

impl VkDescriptorPoolCreateFlags {
    /// The bits of this flag set.
    pub closed spec fn spec_bits(self) -> u32 {
        self.bits
    }

    /// The OR of every defined flag.
    pub open spec fn spec_all() -> u32 {
        0x3
    }

    pub fn FREE_DESCRIPTOR_SET() -> (f: Self)
        ensures
            f@ == 0x1,
    {
        Self { bits: 0x1 }
    }

    pub fn UPDATE_AFTER_BIND() -> (f: Self)
        ensures
            f@ == 0x2,
    {
        Self { bits: 0x2 }
    }

    /// The empty set of flags.
    pub fn empty() -> (f: Self)
        ensures
            f@ == 0,
    {
        Self { bits: 0 }
    }

    /// The set of every defined flag.
    pub fn all() -> (f: Self)
        ensures
            f@ == Self::spec_all(),
    {
        Self { bits: 0x3 }
    }

    pub fn bits(&self) -> (b: u32)
        ensures
            b == self@,
    {
        self.bits
    }

    /// The flags with exactly these bits, or `None` when a bit is set that no flag defines.
    pub fn from_bits(bits: u32) -> (f: Option<Self>)
        ensures
            f is Some <==> (bits & Self::spec_all()) == bits,
            f matches Some(v) ==> v@ == bits,
    {
        if bits & 0x3 == bits {
            Some(Self { bits })
        } else {
            None
        }
    }

    /// The flags with these bits, undefined bits dropped.
    pub fn from_bits_truncate(bits: u32) -> (f: Self)
        ensures
            f@ == bits & Self::spec_all(),
    {
        Self { bits: bits & 0x3 }
    }

    /// The flags with exactly these bits, undefined bits kept.
    pub fn from_bits_retain(bits: u32) -> (f: Self)
        ensures
            f@ == bits,
    {
        Self { bits }
    }

    pub fn is_empty(&self) -> (b: bool)
        ensures
            b == (self@ == 0),
    {
        self.bits == 0
    }

    /// Whether every bit of `other` is set in `self`.
    pub fn contains(&self, other: Self) -> (b: bool)
        ensures
            b == ((self@ & other@) == other@),
    {
        self.bits & other.bits == other.bits
    }

    pub fn union(self, other: Self) -> (f: Self)
        ensures
            f@ == self@ | other@,
    {
        Self { bits: self.bits | other.bits }
    }

    pub fn intersection(self, other: Self) -> (f: Self)
        ensures
            f@ == self@ & other@,
    {
        Self { bits: self.bits & other.bits }
    }

    /// The flags of `self` that are not in `other`.
    pub fn difference(self, other: Self) -> (f: Self)
        ensures
            f@ == self@ & !other@,
    {
        Self { bits: self.bits & !other.bits }
    }
}

impl core::ops::BitOr for VkDescriptorPoolCreateFlags {
    type Output = Self;

    fn bitor(self, rhs: Self) -> (f: Self) {
        self.union(rhs)
    }
}

impl vstd::std_specs::ops::BitOrSpecImpl for VkDescriptorPoolCreateFlags {
    open spec fn obeys_bitor_spec() -> bool {
        true
    }

    open spec fn bitor_req(self, rhs: Self) -> bool {
        true
    }

    closed spec fn bitor_spec(self, rhs: Self) -> Self {
        Self { bits: self.bits | rhs.bits }
    }
}

impl core::ops::BitAnd for VkDescriptorPoolCreateFlags {
    type Output = Self;

    fn bitand(self, rhs: Self) -> (f: Self) {
        self.intersection(rhs)
    }
}

impl vstd::std_specs::ops::BitAndSpecImpl for VkDescriptorPoolCreateFlags {
    open spec fn obeys_bitand_spec() -> bool {
        true
    }

    open spec fn bitand_req(self, rhs: Self) -> bool {
        true
    }

    closed spec fn bitand_spec(self, rhs: Self) -> Self {
        Self { bits: self.bits & rhs.bits }
    }
}

impl core::ops::Sub for VkDescriptorPoolCreateFlags {
    type Output = Self;

    fn sub(self, rhs: Self) -> (f: Self) {
        self.difference(rhs)
    }
}

impl vstd::std_specs::ops::SubSpecImpl for VkDescriptorPoolCreateFlags {
    open spec fn obeys_sub_spec() -> bool {
        true
    }

    open spec fn sub_req(self, rhs: Self) -> bool {
        true
    }

    closed spec fn sub_spec(self, rhs: Self) -> Self {
        Self { bits: self.bits & !rhs.bits }
    }
}

/// Options for descriptor pool reset (none are defined yet).
#[derive(Debug, Clone, Copy, PartialEq, Eq, Hash, Structural)]
pub struct VkDescriptorPoolResetFlags {
    bits: u32,
}

impl View for VkDescriptorPoolResetFlags {
    type V = u32;

    open spec fn view(&self) -> u32 {
        self.spec_bits()
    }
}

impl VkDescriptorPoolResetFlags {
    /// The bits of this flag set.
    pub closed spec fn spec_bits(self) -> u32 {
        self.bits
    }

    /// The OR of every defined flag.
    pub open spec fn spec_all() -> u32 {
        0x0
    }

    pub fn RESERVED() -> (f: Self)
        ensures
            f@ == 0x0,
    {
        Self { bits: 0x0 }
    }

    /// The empty set of flags.
    pub fn empty() -> (f: Self)
        ensures
            f@ == 0,
    {
        Self { bits: 0 }
    }

    /// The set of every defined flag.
    pub fn all() -> (f: Self)
        ensures
            f@ == Self::spec_all(),
    {
        Self { bits: 0x0 }
    }

    pub fn bits(&self) -> (b: u32)
        ensures
            b == self@,
    {
        self.bits
    }

    /// The flags with exactly these bits, or `None` when a bit is set that no flag defines.
    pub fn from_bits(bits: u32) -> (f: Option<Self>)
        ensures
            f is Some <==> (bits & Self::spec_all()) == bits,
            f matches Some(v) ==> v@ == bits,
    {
        if bits & 0x0 == bits {
            Some(Self { bits })
        } else {
            None
        }
    }

    /// The flags with these bits, undefined bits dropped.
    pub fn from_bits_truncate(bits: u32) -> (f: Self)
        ensures
            f@ == bits & Self::spec_all(),
    {
        Self { bits: bits & 0x0 }
    }

    /// The flags with exactly these bits, undefined bits kept.
    pub fn from_bits_retain(bits: u32) -> (f: Self)
        ensures
            f@ == bits,
    {
        Self { bits }
    }

    pub fn is_empty(&self) -> (b: bool)
        ensures
            b == (self@ == 0),
    {
        self.bits == 0
    }

    /// Whether every bit of `other` is set in `self`.
    pub fn contains(&self, other: Self) -> (b: bool)
        ensures
            b == ((self@ & other@) == other@),
    {
        self.bits & other.bits == other.bits
    }

    pub fn union(self, other: Self) -> (f: Self)
        ensures
            f@ == self@ | other@,
    {
        Self { bits: self.bits | other.bits }
    }

    pub fn intersection(self, other: Self) -> (f: Self)
        ensures
            f@ == self@ & other@,
    {
        Self { bits: self.bits & other.bits }
    }

    /// The flags of `self` that are not in `other`.
    pub fn difference(self, other: Self) -> (f: Self)
        ensures
            f@ == self@ & !other@,
    {
        Self { bits: self.bits & !other.bits }
    }
}

impl core::ops::BitOr for VkDescriptorPoolResetFlags {
    type Output = Self;

    fn bitor(self, rhs: Self) -> (f: Self) {
        self.union(rhs)
    }
}

impl vstd::std_specs::ops::BitOrSpecImpl for VkDescriptorPoolResetFlags {
    open spec fn obeys_bitor_spec() -> bool {
        true
    }

    open spec fn bitor_req(self, rhs: Self) -> bool {
        true
    }

    closed spec fn bitor_spec(self, rhs: Self) -> Self {
        Self { bits: self.bits | rhs.bits }
    }
}

impl core::ops::BitAnd for VkDescriptorPoolResetFlags {
    type Output = Self;

    fn bitand(self, rhs: Self) -> (f: Self) {
        self.intersection(rhs)
    }
}

impl vstd::std_specs::ops::BitAndSpecImpl for VkDescriptorPoolResetFlags {
    open spec fn obeys_bitand_spec() -> bool {
        true
    }

    open spec fn bitand_req(self, rhs: Self) -> bool {
        true
    }

    closed spec fn bitand_spec(self, rhs: Self) -> Self {
        Self { bits: self.bits & rhs.bits }
    }
}

impl core::ops::Sub for VkDescriptorPoolResetFlags {
    type Output = Self;

    fn sub(self, rhs: Self) -> (f: Self) {
        self.difference(rhs)
    }
}

impl vstd::std_specs::ops::SubSpecImpl for VkDescriptorPoolResetFlags {
    open spec fn obeys_sub_spec() -> bool {
        true
    }

    open spec fn sub_req(self, rhs: Self) -> bool {
        true
    }

    closed spec fn sub_spec(self, rhs: Self) -> Self {
        Self { bits: self.bits & !rhs.bits }
    }
}

/// Options for fence creation.
#[derive(Debug, Clone, Copy, PartialEq, Eq, Hash, Structural)]
pub struct VkFenceCreateFlags {
    bits: u32,
}

impl View for VkFenceCreateFlags {
    type V = u32;

    open spec fn view(&self) -> u32 {
        self.spec_bits()
    }
}

impl VkFenceCreateFlags {
    /// The bits of this flag set.
    pub closed spec fn spec_bits(self) -> u32 {
        self.bits
    }

    /// The OR of every defined flag.
    pub open spec fn spec_all() -> u32 {
        0x1
    }

    pub fn SIGNALED() -> (f: Self)
        ensures
            f@ == 0x1,
    {
        Self { bits: 0x1 }
    }

    /// The empty set of flags.
    pub fn empty() -> (f: Self)
        ensures
            f@ == 0,
    {
        Self { bits: 0 }
    }

    /// The set of every defined flag.
    pub fn all() -> (f: Self)
        ensures
            f@ == Self::spec_all(),
    {
        Self { bits: 0x1 }
    }

    pub fn bits(&self) -> (b: u32)
        ensures
            b == self@,
    {
        self.bits
    }

    /// The flags with exactly these bits, or `None` when a bit is set that no flag defines.
    pub fn from_bits(bits: u32) -> (f: Option<Self>)
        ensures
            f is Some <==> (bits & Self::spec_all()) == bits,
            f matches Some(v) ==> v@ == bits,
    {
        if bits & 0x1 == bits {
            Some(Self { bits })
        } else {
            None
        }
    }

    /// The flags with these bits, undefined bits dropped.
    pub fn from_bits_truncate(bits: u32) -> (f: Self)
        ensures
            f@ == bits & Self::spec_all(),
    {
        Self { bits: bits & 0x1 }
    }

    /// The flags with exactly these bits, undefined bits kept.
    pub fn from_bits_retain(bits: u32) -> (f: Self)
        ensures
            f@ == bits,
    {
        Self { bits }
    }

    pub fn is_empty(&self) -> (b: bool)
        ensures
            b == (self@ == 0),
    {
        self.bits == 0
    }

    /// Whether every bit of `other` is set in `self`.
    pub fn contains(&self, other: Self) -> (b: bool)
        ensures
            b == ((self@ & other@) == other@),
    {
        self.bits & other.bits == other.bits
    }

    pub fn union(self, other: Self) -> (f: Self)
        ensures
            f@ == self@ | other@,
    {
        Self { bits: self.bits | other.bits }
    }

    pub fn intersection(self, other: Self) -> (f: Self)
        ensures
            f@ == self@ & other@,
    {
        Self { bits: self.bits & other.bits }
    }

    /// The flags of `self` that are not in `other`.
    pub fn difference(self, other: Self) -> (f: Self)
        ensures
            f@ == self@ & !other@,
    {
        Self { bits: self.bits & !other.bits }
    }
}

impl core::ops::BitOr for VkFenceCreateFlags {
    type Output = Self;

    fn bitor(self, rhs: Self) -> (f: Self) {
        self.union(rhs)
    }
}

impl vstd::std_specs::ops::BitOrSpecImpl for VkFenceCreateFlags {
    open spec fn obeys_bitor_spec() -> bool {
        true
    }

    open spec fn bitor_req(self, rhs: Self) -> bool {
        true
    }

    closed spec fn bitor_spec(self, rhs: Self) -> Self {
        Self { bits: self.bits | rhs.bits }
    }
}

impl core::ops::BitAnd for VkFenceCreateFlags {
    type Output = Self;

    fn bitand(self, rhs: Self) -> (f: Self) {
        self.intersection(rhs)
    }
}

impl vstd::std_specs::ops::BitAndSpecImpl for VkFenceCreateFlags {
    open spec fn obeys_bitand_spec() -> bool {
        true
    }

    open spec fn bitand_req(self, rhs: Self) -> bool {
        true
    }

    closed spec fn bitand_spec(self, rhs: Self) -> Self {
        Self { bits: self.bits & rhs.bits }
    }
}

impl core::ops::Sub for VkFenceCreateFlags {
    type Output = Self;

    fn sub(self, rhs: Self) -> (f: Self) {
        self.difference(rhs)
    }
}

impl vstd::std_specs::ops::SubSpecImpl for VkFenceCreateFlags {
    open spec fn obeys_sub_spec() -> bool {
        true
    }

    open spec fn sub_req(self, rhs: Self) -> bool {
        true
    }

    closed spec fn sub_spec(self, rhs: Self) -> Self {
        Self { bits: self.bits & !rhs.bits }
    }
}

/// Options of a pipeline barrier.
#[derive(Debug, Clone, Copy, PartialEq, Eq, Hash, Structural)]
pub struct VkDependencyFlags {
    bits: u32,
}

impl View for VkDependencyFlags {
    type V = u32;

    open spec fn view(&self) -> u32 {
        self.spec_bits()
    }
}

impl VkDependencyFlags {
    /// The bits of this flag set.
    pub closed spec fn spec_bits(self) -> u32 {
        self.bits
    }

    /// The OR of every defined flag.
    pub open spec fn spec_all() -> u32 {
        0x1
    }

    pub fn BY_REGION() -> (f: Self)
        ensures
            f@ == 0x1,
    {
        Self { bits: 0x1 }
    }

    /// The empty set of flags.
    pub fn empty() -> (f: Self)
        ensures
            f@ == 0,
    {
        Self { bits: 0 }
    }

    /// The set of every defined flag.
    pub fn all() -> (f: Self)
        ensures
            f@ == Self::spec_all(),
    {
        Self { bits: 0x1 }
    }

    pub fn bits(&self) -> (b: u32)
        ensures
            b == self@,
    {
        self.bits
    }

    /// The flags with exactly these bits, or `None` when a bit is set that no flag defines.
    pub fn from_bits(bits: u32) -> (f: Option<Self>)
        ensures
            f is Some <==> (bits & Self::spec_all()) == bits,
            f matches Some(v) ==> v@ == bits,
    {
        if bits & 0x1 == bits {
            Some(Self { bits })
        } else {
            None
        }
    }

    /// The flags with these bits, undefined bits dropped.
    pub fn from_bits_truncate(bits: u32) -> (f: Self)
        ensures
            f@ == bits & Self::spec_all(),
    {
        Self { bits: bits & 0x1 }
    }

    /// The flags with exactly these bits, undefined bits kept.
    pub fn from_bits_retain(bits: u32) -> (f: Self)
        ensures
            f@ == bits,
    {
        Self { bits }
    }

    pub fn is_empty(&self) -> (b: bool)
        ensures
            b == (self@ == 0),
    {
        self.bits == 0
    }

    /// Whether every bit of `other` is set in `self`.
    pub fn contains(&self, other: Self) -> (b: bool)
        ensures
            b == ((self@ & other@) == other@),
    {
        self.bits & other.bits == other.bits
    }

    pub fn union(self, other: Self) -> (f: Self)
        ensures
            f@ == self@ | other@,
    {
        Self { bits: self.bits | other.bits }
    }

    pub fn intersection(self, other: Self) -> (f: Self)
        ensures
            f@ == self@ & other@,
    {
        Self { bits: self.bits & other.bits }
    }

    /// The flags of `self` that are not in `other`.
    pub fn difference(self, other: Self) -> (f: Self)
        ensures
            f@ == self@ & !other@,
    {
        Self { bits: self.bits & !other.bits }
    }
}

impl core::ops::BitOr for VkDependencyFlags {
    type Output = Self;

    fn bitor(self, rhs: Self) -> (f: Self) {
        self.union(rhs)
    }
}

impl vstd::std_specs::ops::BitOrSpecImpl for VkDependencyFlags {
    open spec fn obeys_bitor_spec() -> bool {
        true
    }

    open spec fn bitor_req(self, rhs: Self) -> bool {
        true
    }

    closed spec fn bitor_spec(self, rhs: Self) -> Self {
        Self { bits: self.bits | rhs.bits }
    }
}

impl core::ops::BitAnd for VkDependencyFlags {
    type Output = Self;

    fn bitand(self, rhs: Self) -> (f: Self) {
        self.intersection(rhs)
    }
}

impl vstd::std_specs::ops::BitAndSpecImpl for VkDependencyFlags {
    open spec fn obeys_bitand_spec() -> bool {
        true
    }

    open spec fn bitand_req(self, rhs: Self) -> bool {
        true
    }

    closed spec fn bitand_spec(self, rhs: Self) -> Self {
        Self { bits: self.bits & rhs.bits }
    }
}

impl core::ops::Sub for VkDependencyFlags {
    type Output = Self;

    fn sub(self, rhs: Self) -> (f: Self) {
        self.difference(rhs)
    }
}

impl vstd::std_specs::ops::SubSpecImpl for VkDependencyFlags {
    open spec fn obeys_sub_spec() -> bool {
        true
    }

    open spec fn sub_req(self, rhs: Self) -> bool {
        true
    }

    closed spec fn sub_spec(self, rhs: Self) -> Self {
        Self { bits: self.bits & !rhs.bits }
    }
}

/// Options of a timeline semaphore wait.
#[derive(Debug, Clone, Copy, PartialEq, Eq, Hash, Structural)]
pub struct VkSemaphoreWaitFlags {
    bits: u32,
}

impl View for VkSemaphoreWaitFlags {
    type V = u32;

    open spec fn view(&self) -> u32 {
        self.spec_bits()
    }
}

impl VkSemaphoreWaitFlags {
    /// The bits of this flag set.
    pub closed spec fn spec_bits(self) -> u32 {
        self.bits
    }

    /// The OR of every defined flag.
    pub open spec fn spec_all() -> u32 {
        0x1
    }

    pub fn ANY() -> (f: Self)
        ensures
            f@ == 0x1,
    {
        Self { bits: 0x1 }
    }

    /// The empty set of flags.
    pub fn empty() -> (f: Self)
        ensures
            f@ == 0,
    {
        Self { bits: 0 }
    }

    /// The set of every defined flag.
    pub fn all() -> (f: Self)
        ensures
            f@ == Self::spec_all(),
    {
        Self { bits: 0x1 }
    }

    pub fn bits(&self) -> (b: u32)
        ensures
            b == self@,
    {
        self.bits
    }

    /// The flags with exactly these bits, or `None` when a bit is set that no flag defines.
    pub fn from_bits(bits: u32) -> (f: Option<Self>)
        ensures
            f is Some <==> (bits & Self::spec_all()) == bits,
            f matches Some(v) ==> v@ == bits,
    {
        if bits & 0x1 == bits {
            Some(Self { bits })
        } else {
            None
        }
    }

    /// The flags with these bits, undefined bits dropped.
    pub fn from_bits_truncate(bits: u32) -> (f: Self)
        ensures
            f@ == bits & Self::spec_all(),
    {
        Self { bits: bits & 0x1 }
    }

    /// The flags with exactly these bits, undefined bits kept.
    pub fn from_bits_retain(bits: u32) -> (f: Self)
        ensures
            f@ == bits,
    {
        Self { bits }
    }

    pub fn is_empty(&self) -> (b: bool)
        ensures
            b == (self@ == 0),
    {
        self.bits == 0
    }

    /// Whether every bit of `other` is set in `self`.
    pub fn contains(&self, other: Self) -> (b: bool)
        ensures
            b == ((self@ & other@) == other@),
    {
        self.bits & other.bits == other.bits
    }

    pub fn union(self, other: Self) -> (f: Self)
        ensures
            f@ == self@ | other@,
    {
        Self { bits: self.bits | other.bits }
    }

    pub fn intersection(self, other: Self) -> (f: Self)
        ensures
            f@ == self@ & other@,
    {
        Self { bits: self.bits & other.bits }
    }

    /// The flags of `self` that are not in `other`.
    pub fn difference(self, other: Self) -> (f: Self)
        ensures
            f@ == self@ & !other@,
    {
        Self { bits: self.bits & !other.bits }
    }
}

impl core::ops::BitOr for VkSemaphoreWaitFlags {
    type Output = Self;

    fn bitor(self, rhs: Self) -> (f: Self) {
        self.union(rhs)
    }
}

impl vstd::std_specs::ops::BitOrSpecImpl for VkSemaphoreWaitFlags {
    open spec fn obeys_bitor_spec() -> bool {
        true
    }

    open spec fn bitor_req(self, rhs: Self) -> bool {
        true
    }

    closed spec fn bitor_spec(self, rhs: Self) -> Self {
        Self { bits: self.bits | rhs.bits }
    }
}

impl core::ops::BitAnd for VkSemaphoreWaitFlags {
    type Output = Self;

    fn bitand(self, rhs: Self) -> (f: Self) {
        self.intersection(rhs)
    }
}

impl vstd::std_specs::ops::BitAndSpecImpl for VkSemaphoreWaitFlags {
    open spec fn obeys_bitand_spec() -> bool {
        true
    }

    open spec fn bitand_req(self, rhs: Self) -> bool {
        true
    }

    closed spec fn bitand_spec(self, rhs: Self) -> Self {
        Self { bits: self.bits & rhs.bits }
    }
}

impl core::ops::Sub for VkSemaphoreWaitFlags {
    type Output = Self;

    fn sub(self, rhs: Self) -> (f: Self) {
        self.difference(rhs)
    }
}

impl vstd::std_specs::ops::SubSpecImpl for VkSemaphoreWaitFlags {
    open spec fn obeys_sub_spec() -> bool {
        true
    }

    open spec fn sub_req(self, rhs: Self) -> bool {
        true
    }

    closed spec fn sub_spec(self, rhs: Self) -> Self {
        Self { bits: self.bits & !rhs.bits }
    }
}

/// Options of a pipeline shader stage (none are defined yet).
#[derive(Debug, Clone, Copy, PartialEq, Eq, Hash, Structural)]
pub struct VkPipelineShaderStageCreateFlags {
    bits: u32,
}

impl View for VkPipelineShaderStageCreateFlags {
    type V = u32;

    open spec fn view(&self) -> u32 {
        self.spec_bits()
    }
}

impl VkPipelineShaderStageCreateFlags {
    /// The bits of this flag set.
    pub closed spec fn spec_bits(self) -> u32 {
        self.bits
    }

    /// The OR of every defined flag.
    pub open spec fn spec_all() -> u32 {
        0x0
    }

    pub fn RESERVED() -> (f: Self)
        ensures
            f@ == 0x0,
    {
        Self { bits: 0x0 }
    }

    /// The empty set of flags.
    pub fn empty() -> (f: Self)
        ensures
            f@ == 0,
    {
        Self { bits: 0 }
    }

    /// The set of every defined flag.
    pub fn all() -> (f: Self)
        ensures
            f@ == Self::spec_all(),
    {
        Self { bits: 0x0 }
    }

    pub fn bits(&self) -> (b: u32)
        ensures
            b == self@,
    {
        self.bits
    }

    /// The flags with exactly these bits, or `None` when a bit is set that no flag defines.
    pub fn from_bits(bits: u32) -> (f: Option<Self>)
        ensures
            f is Some <==> (bits & Self::spec_all()) == bits,
            f matches Some(v) ==> v@ == bits,
    {
        if bits & 0x0 == bits {
            Some(Self { bits })
        } else {
            None
        }
    }

    /// The flags with these bits, undefined bits dropped.
    pub fn from_bits_truncate(bits: u32) -> (f: Self)
        ensures
            f@ == bits & Self::spec_all(),
    {
        Self { bits: bits & 0x0 }
    }

    /// The flags with exactly these bits, undefined bits kept.
    pub fn from_bits_retain(bits: u32) -> (f: Self)
        ensures
            f@ == bits,
    {
        Self { bits }
    }

    pub fn is_empty(&self) -> (b: bool)
        ensures
            b == (self@ == 0),
    {
        self.bits == 0
    }

    /// Whether every bit of `other` is set in `self`.
    pub fn contains(&self, other: Self) -> (b: bool)
        ensures
            b == ((self@ & other@) == other@),
    {
        self.bits & other.bits == other.bits
    }

    pub fn union(self, other: Self) -> (f: Self)
        ensures
            f@ == self@ | other@,
    {
        Self { bits: self.bits | other.bits }
    }

    pub fn intersection(self, other: Self) -> (f: Self)
        ensures
            f@ == self@ & other@,
    {
        Self { bits: self.bits & other.bits }
    }

    /// The flags of `self` that are not in `other`.
    pub fn difference(self, other: Self) -> (f: Self)
        ensures
            f@ == self@ & !other@,
    {
        Self { bits: self.bits & !other.bits }
    }
}

impl core::ops::BitOr for VkPipelineShaderStageCreateFlags {
    type Output = Self;

    fn bitor(self, rhs: Self) -> (f: Self) {
        self.union(rhs)
    }
}

impl vstd::std_specs::ops::BitOrSpecImpl for VkPipelineShaderStageCreateFlags {
    open spec fn obeys_bitor_spec() -> bool {
        true
    }

    open spec fn bitor_req(self, rhs: Self) -> bool {
        true
    }

    closed spec fn bitor_spec(self, rhs: Self) -> Self {
        Self { bits: self.bits | rhs.bits }
    }
}

impl core::ops::BitAnd for VkPipelineShaderStageCreateFlags {
    type Output = Self;

    fn bitand(self, rhs: Self) -> (f: Self) {
        self.intersection(rhs)
    }
}

impl vstd::std_specs::ops::BitAndSpecImpl for VkPipelineShaderStageCreateFlags {
    open spec fn obeys_bitand_spec() -> bool {
        true
    }

    open spec fn bitand_req(self, rhs: Self) -> bool {
        true
    }

    closed spec fn bitand_spec(self, rhs: Self) -> Self {
        Self { bits: self.bits & rhs.bits }
    }
}

impl core::ops::Sub for VkPipelineShaderStageCreateFlags {
    type Output = Self;

    fn sub(self, rhs: Self) -> (f: Self) {
        self.difference(rhs)
    }
}

impl vstd::std_specs::ops::SubSpecImpl for VkPipelineShaderStageCreateFlags {
    open spec fn obeys_sub_spec() -> bool {
        true
    }

    open spec fn sub_req(self, rhs: Self) -> bool {
        true
    }

    closed spec fn sub_spec(self, rhs: Self) -> Self {
        Self { bits: self.bits & !rhs.bits }
    }
}

pub type VkInstanceCreateFlags = u32;
pub type VkDeviceCreateFlags = u32;
pub type VkDeviceQueueCreateFlags = u32;
pub type VkMemoryMapFlags = u32;
pub type VkSemaphoreCreateFlags = u32;
pub type VkEventCreateFlags = u32;
pub type VkQueryPoolCreateFlags = u32;
pub type VkPipelineLayoutCreateFlags = u32;
pub type VkDescriptorSetLayoutCreateFlags = u32;


/// The operators on `VkQueueFlags` act on the bits.
pub broadcast proof fn lemma_VkQueueFlags_operators(a: VkQueueFlags, b: VkQueueFlags)
    ensures
        #[trigger] a.bitor_spec(b)@ == a@ | b@,
        #[trigger] a.bitand_spec(b)@ == a@ & b@,
        #[trigger] a.sub_spec(b)@ == a@ & !b@,
{
}

/// The operators on `VkMemoryPropertyFlags` act on the bits.
pub broadcast proof fn lemma_VkMemoryPropertyFlags_operators(a: VkMemoryPropertyFlags, b: VkMemoryPropertyFlags)
    ensures
        #[trigger] a.bitor_spec(b)@ == a@ | b@,
        #[trigger] a.bitand_spec(b)@ == a@ & b@,
        #[trigger] a.sub_spec(b)@ == a@ & !b@,
{
}

/// The operators on `VkBufferUsageFlags` act on the bits.
pub broadcast proof fn lemma_VkBufferUsageFlags_operators(a: VkBufferUsageFlags, b: VkBufferUsageFlags)
    ensures
        #[trigger] a.bitor_spec(b)@ == a@ | b@,
        #[trigger] a.bitand_spec(b)@ == a@ & b@,
        #[trigger] a.sub_spec(b)@ == a@ & !b@,
{
}

/// The operators on `VkBufferCreateFlags` act on the bits.
pub broadcast proof fn lemma_VkBufferCreateFlags_operators(a: VkBufferCreateFlags, b: VkBufferCreateFlags)
    ensures
        #[trigger] a.bitor_spec(b)@ == a@ | b@,
        #[trigger] a.bitand_spec(b)@ == a@ & b@,
        #[trigger] a.sub_spec(b)@ == a@ & !b@,
{
}

/// The operators on `VkCommandBufferUsageFlags` act on the bits.
pub broadcast proof fn lemma_VkCommandBufferUsageFlags_operators(a: VkCommandBufferUsageFlags, b: VkCommandBufferUsageFlags)
    ensures
        #[trigger] a.bitor_spec(b)@ == a@ | b@,
        #[trigger] a.bitand_spec(b)@ == a@ & b@,
        #[trigger] a.sub_spec(b)@ == a@ & !b@,
{
}

/// The operators on `VkCommandPoolCreateFlags` act on the bits.
pub broadcast proof fn lemma_VkCommandPoolCreateFlags_operators(a: VkCommandPoolCreateFlags, b: VkCommandPoolCreateFlags)
    ensures
        #[trigger] a.bitor_spec(b)@ == a@ | b@,
        #[trigger] a.bitand_spec(b)@ == a@ & b@,
        #[trigger] a.sub_spec(b)@ == a@ & !b@,
{
}

/// The operators on `VkShaderStageFlags` act on the bits.
pub broadcast proof fn lemma_VkShaderStageFlags_operators(a: VkShaderStageFlags, b: VkShaderStageFlags)
    ensures
        #[trigger] a.bitor_spec(b)@ == a@ | b@,
        #[trigger] a.bitand_spec(b)@ == a@ & b@,
        #[trigger] a.sub_spec(b)@ == a@ & !b@,
{
}

/// The operators on `VkPipelineStageFlags` act on the bits.
pub broadcast proof fn lemma_VkPipelineStageFlags_operators(a: VkPipelineStageFlags, b: VkPipelineStageFlags)
    ensures
        #[trigger] a.bitor_spec(b)@ == a@ | b@,
        #[trigger] a.bitand_spec(b)@ == a@ & b@,
        #[trigger] a.sub_spec(b)@ == a@ & !b@,
{
}

/// The operators on `VkAccessFlags` act on the bits.
pub broadcast proof fn lemma_VkAccessFlags_operators(a: VkAccessFlags, b: VkAccessFlags)
    ensures
        #[trigger] a.bitor_spec(b)@ == a@ | b@,
        #[trigger] a.bitand_spec(b)@ == a@ & b@,
        #[trigger] a.sub_spec(b)@ == a@ & !b@,
{
}

/// The operators on `VkPipelineCreateFlags` act on the bits.
pub broadcast proof fn lemma_VkPipelineCreateFlags_operators(a: VkPipelineCreateFlags, b: VkPipelineCreateFlags)
    ensures
        #[trigger] a.bitor_spec(b)@ == a@ | b@,
        #[trigger] a.bitand_spec(b)@ == a@ & b@,
        #[trigger] a.sub_spec(b)@ == a@ & !b@,
{
}

/// The operators on `VkDescriptorPoolCreateFlags` act on the bits.
pub broadcast proof fn lemma_VkDescriptorPoolCreateFlags_operators(a: VkDescriptorPoolCreateFlags, b: VkDescriptorPoolCreateFlags)
    ensures
        #[trigger] a.bitor_spec(b)@ == a@ | b@,
        #[trigger] a.bitand_spec(b)@ == a@ & b@,
        #[trigger] a.sub_spec(b)@ == a@ & !b@,
{
}

/// The operators on `VkDescriptorPoolResetFlags` act on the bits.
pub broadcast proof fn lemma_VkDescriptorPoolResetFlags_operators(a: VkDescriptorPoolResetFlags, b: VkDescriptorPoolResetFlags)
    ensures
        #[trigger] a.bitor_spec(b)@ == a@ | b@,
        #[trigger] a.bitand_spec(b)@ == a@ & b@,
        #[trigger] a.sub_spec(b)@ == a@ & !b@,
{
}

/// The operators on `VkFenceCreateFlags` act on the bits.
pub broadcast proof fn lemma_VkFenceCreateFlags_operators(a: VkFenceCreateFlags, b: VkFenceCreateFlags)
    ensures
        #[trigger] a.bitor_spec(b)@ == a@ | b@,
        #[trigger] a.bitand_spec(b)@ == a@ & b@,
        #[trigger] a.sub_spec(b)@ == a@ & !b@,
{
}

/// The operators on `VkDependencyFlags` act on the bits.
pub broadcast proof fn lemma_VkDependencyFlags_operators(a: VkDependencyFlags, b: VkDependencyFlags)
    ensures
        #[trigger] a.bitor_spec(b)@ == a@ | b@,
        #[trigger] a.bitand_spec(b)@ == a@ & b@,
        #[trigger] a.sub_spec(b)@ == a@ & !b@,
{
}

/// The operators on `VkSemaphoreWaitFlags` act on the bits.
pub broadcast proof fn lemma_VkSemaphoreWaitFlags_operators(a: VkSemaphoreWaitFlags, b: VkSemaphoreWaitFlags)
    ensures
        #[trigger] a.bitor_spec(b)@ == a@ | b@,
        #[trigger] a.bitand_spec(b)@ == a@ & b@,
        #[trigger] a.sub_spec(b)@ == a@ & !b@,
{
}

/// The operators on `VkPipelineShaderStageCreateFlags` act on the bits.
pub broadcast proof fn lemma_VkPipelineShaderStageCreateFlags_operators(a: VkPipelineShaderStageCreateFlags, b: VkPipelineShaderStageCreateFlags)
    ensures
        #[trigger] a.bitor_spec(b)@ == a@ | b@,
        #[trigger] a.bitand_spec(b)@ == a@ & b@,
        #[trigger] a.sub_spec(b)@ == a@ & !b@,
{
}

/// The bit-level meaning of `|`, `&` and `-` on every flag type.
pub broadcast group group_flag_operators {
    lemma_VkQueueFlags_operators,
    lemma_VkMemoryPropertyFlags_operators,
    lemma_VkBufferUsageFlags_operators,
    lemma_VkBufferCreateFlags_operators,
    lemma_VkCommandBufferUsageFlags_operators,
    lemma_VkCommandPoolCreateFlags_operators,
    lemma_VkShaderStageFlags_operators,
    lemma_VkPipelineStageFlags_operators,
    lemma_VkAccessFlags_operators,
    lemma_VkPipelineCreateFlags_operators,
    lemma_VkDescriptorPoolCreateFlags_operators,
    lemma_VkDescriptorPoolResetFlags_operators,
    lemma_VkFenceCreateFlags_operators,
    lemma_VkDependencyFlags_operators,
    lemma_VkSemaphoreWaitFlags_operators,
    lemma_VkPipelineShaderStageCreateFlags_operators,
}

} // verus!
