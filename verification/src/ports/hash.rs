//! Content hashing.
use vstd::prelude::*;

use crate::dedup::DeviceKind;
use crate::errors::CoreError;
use crate::types::{BlakeHash, PathText};

verus! {

/// Content hashing of files.
pub trait HashService: Send + Sync {
    /// A cheap fingerprint of the file.
    fn quick_hash(&self, path: &PathText) -> Result<BlakeHash, CoreError>;

    /// The hash of the whole content.
    fn full_hash(&self, path: &PathText) -> Result<BlakeHash, CoreError>;

    /// The hash of the whole content, read as suits the size and the device.
    fn full_hash_dispatched(&self, path: &PathText, size_bytes: u64, device_kind: DeviceKind) -> (r:
        Result<BlakeHash, CoreError>)
        default_ensures
            call_ensures(Self::full_hash, (self, path), r),
    {
        self.full_hash(path)
    }

    /// The fingerprint of the first and last parts of the file.
    fn quick_hash_prefix_suffix(&self, path: &PathText, size_bytes: u64) -> (r: Result<
        BlakeHash,
        CoreError,
    >)
        default_ensures
            call_ensures(Self::quick_hash, (self, path), r),
    {
        self.quick_hash(path)
    }
}

} // verus!
