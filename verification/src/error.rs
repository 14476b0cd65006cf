//! Error types of the runtime.

use crate::enums::VkResult;
use vstd::prelude::*;

verus! {

/// Errors of the driver loader and of the runtime's bookkeeping.
#[derive(Debug, PartialEq, Eq)]
pub enum IcdError {
    /// A name handed to the driver holds a NUL byte at this position.
    InvalidString(usize),
    /// A driver library could not be loaded.
    LibraryLoadFailed(String),
    /// A required entry point is missing from the driver.
    MissingFunction(&'static str),
    /// A driver manifest could not be used.
    InvalidManifest(String),
    /// No driver manifest was found.
    NoManifestsFound,
    /// A lock was poisoned.
    MutexPoisoned,
    /// A path has no parent directory.
    InvalidPath(String),
    /// The driver returned an error code.
    VulkanError(VkResult),
    /// No driver is loaded.
    NoIcdLoaded,
    /// An operation was asked of state that does not allow it.
    InvalidOperation(&'static str),
}

/// General errors of the runtime.
#[derive(Debug, PartialEq, Eq)]
pub enum KronosError {
    IcdError(IcdError),
    MutexPoisoned,
}

impl From<IcdError> for KronosError {
    fn from(e: IcdError) -> (k: Self) {
        KronosError::IcdError(e)
    }
}

impl vstd::std_specs::convert::FromSpecImpl<IcdError> for KronosError {
    open spec fn obeys_from_spec() -> bool {
        true
    }

    open spec fn from_spec(e: IcdError) -> Self {
        KronosError::IcdError(e)
    }
}

} // verus!
