//! Files and their locations.
use vstd::prelude::*;

use crate::dedup::CollisionGroup;
use crate::errors::CoreError;
use crate::types::{
    BlakeHash, DeviceId, FileLocationRecord, FileUuid, HashedFile, LocationStatus, MediaPath,
    MountedPath, UpsertOutcome, VolumeId,
};

verus! {

/// A file whose quick hash has still to be computed.
#[derive(Clone, Debug)]
pub struct BackfillFileRow {
    pub hash: BlakeHash,
    pub size_bytes: u64,
    /// The most recent active location on a mounted volume, if there is one.
    pub active_path: Option<MountedPath>,
}

/// A status to record for a location.
#[derive(Clone, Debug)]
pub struct LocationStatusUpdate {
    pub volume: VolumeId,
    pub path: MediaPath,
    pub status: LocationStatus,
}

/// A location that a verification sweep can look at.
#[derive(Clone, Debug)]
pub struct LocationToVerify {
    pub volume: VolumeId,
    pub path: MediaPath,
    pub absolute_path: MountedPath,
    pub status: LocationStatus,
}

/// The locations of a verification sweep, and how many it cannot look at because
/// their volume is not mounted.
#[derive(Clone, Debug)]
pub struct VerifyCandidates {
    pub locations: Vec<LocationToVerify>,
    pub skipped_unmounted: usize,
}

/// Persistence of files and their locations.
pub trait FileRepository: Send + Sync {
    /// Inserts or updates the row of a file.
    fn upsert_file(&self, file: &HashedFile, device: DeviceId) -> Result<UpsertOutcome, CoreError>;

    /// Inserts or updates the row of a file, with its quick hash where one is
    /// known. Adapters that do not store quick hashes ignore it.
    fn upsert_file_with_quick_hash(
        &self,
        file: &HashedFile,
        device: DeviceId,
        quick_hash: Option<BlakeHash>,
    ) -> (r: Result<UpsertOutcome, CoreError>)
        default_ensures
            call_ensures(Self::upsert_file, (self, file, device), r),
    {
        self.upsert_file(file, device)
    }

    /// Inserts or updates the row of a location.
    fn upsert_location(
        &self,
        hash: &BlakeHash,
        volume: VolumeId,
        path: &MediaPath,
        device: DeviceId,
    ) -> Result<UpsertOutcome, CoreError>;

    /// Lists locations with their files.
    fn list_file_locations(&self, limit: usize, volume: Option<VolumeId>) -> Result<
        Vec<FileLocationRecord>,
        CoreError,
    >;

    /// Lists files without a quick hash.
    fn list_files_needing_backfill(&self, limit: u32) -> (r: Result<
        Vec<BackfillFileRow>,
        CoreError,
    >)
        default_ensures
            r matches Ok(rows) && rows@.len() == 0,
    {
        Ok(Vec::new())
    }

    /// Finds the hash, an active path and the size of a file.
    fn lookup_by_file_uuid(&self, file_uuid: FileUuid) -> (r: Result<
        Option<(Option<BlakeHash>, MountedPath, u64)>,
        CoreError,
    >)
        default_ensures
            r matches Ok(found) && found is None,
    {
        Ok(None)
    }

    /// Stores the full hash of a file.
    fn update_full_hash(&self, file_uuid: FileUuid, hash: BlakeHash) -> (r: Result<(), CoreError>)
        default_ensures
            r is Ok,
    {
        Ok(())
    }

    /// Lists the groups of files that share a quick hash and are not known to be
    /// distinct.
    fn list_quick_hash_collisions(&self) -> (r: Result<Vec<CollisionGroup>, CoreError>)
        default_ensures
            r matches Ok(groups) && groups@.len() == 0,
    {
        Ok(Vec::new())
    }

    /// Records that files are known to be distinct.
    fn mark_verified_distinct(&self, file_uuids: Vec<FileUuid>, device: DeviceId) -> (r: Result<
        (),
        CoreError,
    >)
        default_ensures
            r is Ok,
    {
        Ok(())
    }

    /// Lists files with an active mounted location and no full hash.
    fn list_files_pending_full_hash(&self, limit: usize) -> (r: Result<Vec<FileUuid>, CoreError>)
        default_ensures
            r matches Ok(files) && files@.len() == 0,
    {
        Ok(Vec::new())
    }

    /// Lists the locations that a verification sweep on `device` looks at.
    fn list_locations_for_verify(&self, device: DeviceId) -> Result<VerifyCandidates, CoreError>;

    /// Records the statuses that a verification sweep found.
    fn update_location_statuses(
        &self,
        updates: &Vec<LocationStatusUpdate>,
        device: DeviceId,
    ) -> Result<u64, CoreError>;

    /// Counts the locations that are missing.
    fn count_missing_locations(&self) -> Result<u64, CoreError>;

    /// Retires the locations that are missing.
    fn soft_delete_missing_locations(&self, device: DeviceId) -> Result<u64, CoreError>;
}

} // verus!
