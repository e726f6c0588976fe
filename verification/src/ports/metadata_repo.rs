//! Media metadata of files.
use vstd::prelude::*;

use crate::errors::CoreError;
use crate::metadata::MediaMetadata;
use crate::types::{BlakeHash, DeviceId, FileLocationRecord, UpsertOutcome, VolumeId};

verus! {

/// A location, the metadata of its file where there is any, and the quick hash of
/// its file as text where it is known.
pub type FileWithMetadataRow = (FileLocationRecord, Option<MediaMetadata>, Option<String>);

/// Persistence of media metadata.
pub trait MetadataRepository: Send + Sync {
    /// Inserts or updates the metadata of a file.
    fn upsert_metadata(&self, meta: &MediaMetadata, device: DeviceId) -> Result<
        UpsertOutcome,
        CoreError,
    >;

    /// The metadata of a file, if there is any.
    fn find_by_hash(&self, hash: &BlakeHash) -> Result<Option<MediaMetadata>, CoreError>;

    /// Lists locations with the metadata of their files.
    fn list_with_metadata(&self, limit: usize, volume: Option<VolumeId>) -> Result<
        Vec<FileWithMetadataRow>,
        CoreError,
    >;

    /// Records how far the thumbnail of a file has come.
    fn update_thumbnail(
        &self,
        hash: &BlakeHash,
        path: Option<&str>,
        status: &str,
        device: DeviceId,
    ) -> Result<u64, CoreError>;
}

} // verus!
