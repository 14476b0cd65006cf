//! Kronos: a compute-only subset of the Vulkan API.
//!
//! This crate holds the verified core of the runtime: handle and flag types,
//! the memory pool allocator, the barrier policy, timeline batching, the
//! persistent descriptor cache, the software device registries and the ICD
//! discovery and selection policy. Loading drivers, calling into them and the
//! process-wide state live in the application around it.

#![allow(non_camel_case_types)]
#![allow(non_snake_case)]

pub mod sys;
pub mod flags;
pub mod enums;
pub mod error;
pub mod structs;
pub mod pool_allocator;
pub mod timeline_batching;
pub mod barrier_policy;
pub mod icd_loader;
pub mod persistent_descriptors;
pub mod api;
pub mod virtual_device;

use crate::error::{IcdError, KronosError};
use crate::sys::{spec_make_version, VK_MAKE_VERSION};

use vstd::prelude::*;

verus! {

pub const KRONOS_VERSION_MAJOR: u32 = 0;
pub const KRONOS_VERSION_MINOR: u32 = 2;
pub const KRONOS_VERSION_PATCH: u32 = 3;

/// The API version of this library: 0.2.3 packed as by `make_version`.
pub const KRONOS_API_VERSION: u32 = (KRONOS_VERSION_MAJOR << 22) | (KRONOS_VERSION_MINOR << 12)
    | KRONOS_VERSION_PATCH;

/// Makes a version number from major, minor and patch numbers.
pub fn make_version(major: u32, minor: u32, patch: u32) -> (v: u32)
    ensures
        v == spec_make_version(major, minor, patch),
{
    VK_MAKE_VERSION(major, minor, patch)
}

/// One step of start-up. `initialized` tells whether the runtime already runs on a
/// driver; `loader_outcome` is what loading a driver came to, for the caller runs the
/// loader only while `initialized` is false. An initialized runtime stays as it is;
/// otherwise a loaded driver marks it initialized and a failure is returned as a
/// runtime error.
pub fn initialize_kronos(initialized: &mut bool, loader_outcome: Result<(), IcdError>) -> (r: Result<(), KronosError>)
    ensures
        *old(initialized) ==> r is Ok && *final(initialized),
        !*old(initialized) ==> match loader_outcome {
            Ok(()) => r is Ok && *final(initialized),
            Err(e) => r == Err::<(), KronosError>(KronosError::IcdError(e)) && !*final(initialized),
        },
{
    if *initialized {
        return Ok(());
    }
    match loader_outcome {
        Ok(()) => {
            *initialized = true;
            Ok(())
        },
        Err(e) => Err(KronosError::from(e)),
    }
}

} // verus!
