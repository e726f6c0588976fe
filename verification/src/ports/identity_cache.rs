//! Cache of hashes by file identity.
use vstd::prelude::*;

use crate::errors::CoreError;
use crate::types::{BlakeHash, DeviceId, VolumeId};

verus! {

/// What identifies an unchanged file on one device.
#[derive(Clone, Copy, Debug, PartialEq, Eq, Structural)]
pub struct CacheKey {
    pub device_id: DeviceId,
    pub volume_id: VolumeId,
    pub fs_file_id: i64,
    pub size_bytes: u64,
    pub mtime_ns: i64,
}

/// The hashes of a file.
#[derive(Clone, Copy, Debug, PartialEq, Eq)]
pub struct CacheEntry {
    pub quick_hash: BlakeHash,
    pub full_hash: Option<BlakeHash>,
}

/// Persistence of the cache.
pub trait IdentityCacheRepository: Send + Sync {
    /// The entry under a key, if there is one.
    fn lookup(&self, key: &CacheKey) -> Result<Option<CacheEntry>, CoreError>;

    /// Stores an entry under a key.
    fn upsert(&self, key: &CacheKey, entry: &CacheEntry) -> Result<(), CoreError>;

    /// Retires the entry under a key.
    fn soft_delete(&self, key: &CacheKey) -> Result<(), CoreError>;
}

} // verus!
