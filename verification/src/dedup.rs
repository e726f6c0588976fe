//! Duplicate detection: files that share a quick hash.
use vstd::prelude::*;

use crate::errors::CoreError;
use crate::ids::{new_id, Uuid};
use crate::types::{BlakeHash, FileLocationRecord, FileUuid};

verus! {

/// Identifier of a verification batch.
#[derive(Clone, Copy, Debug, PartialEq, Eq, Hash, Structural)]
pub struct BatchId(pub Uuid);

impl BatchId {
    /// Generates an identifier for a new batch.
    pub fn new() -> (r: BatchId)
        ensures
            r.0.is_v7(),
    {
        BatchId(new_id())
    }
}

impl Default for BatchId {
    fn default() -> (r: BatchId)
        ensures
            r.0.is_v7(),
    {
        BatchId::new()
    }
}

/// A running batch and how many files it covers.
#[derive(Clone, Debug)]
pub struct BatchHandle {
    pub batch_id: BatchId,
    pub total: u32,
}

/// What a file is stored on.
#[derive(Clone, Copy, Debug, PartialEq, Eq, Structural)]
pub enum DeviceKind {
    Hdd,
    Ssd,
    Unknown,
}

/// Files that share a quick hash.
#[derive(Clone, Debug)]
pub struct CollisionGroup {
    pub quick_hash: BlakeHash,
    pub files: Vec<FileLocationRecord>,
    pub verified_state: VerifiedState,
}

/// What is known of a group.
#[derive(Clone, Copy, Debug, PartialEq, Eq, Structural)]
pub enum VerifiedState {
    Unverified,
    VerifiedDuplicate,
    VerifiedDistinct,
    Mixed,
}

/// What came of computing one full hash.
#[derive(Clone, Debug)]
pub enum FullHashOutcome {
    Computed { file_uuid: FileUuid, hash: BlakeHash },
    Failed { file_uuid: FileUuid, error: CoreError },
}

} // verus!
