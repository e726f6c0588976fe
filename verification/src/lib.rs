//! Media index: domain types, ports, and the rules of the database adapter.
use vstd::prelude::*;

pub mod db;
pub mod dedup;
pub mod errors;
pub mod events;
pub mod hlc;
pub mod ids;
pub mod metadata;
pub mod ports;
pub mod search;
pub mod tag;
pub mod text;
pub mod transcription;
pub mod types;

pub use dedup::{BatchHandle, BatchId, CollisionGroup, DeviceKind, FullHashOutcome, VerifiedState};
pub use errors::{BackupFailureReason, CoreError, FullHashUnavailableReason};
pub use events::{AppEvent, EventBus, FileEvent, InvalidationReason, NoopBus};
pub use hlc::{Hlc, HLC_MAX_COUNTER, HLC_MAX_MS};
pub use metadata::{MediaMetadata, MetadataExtractor};
pub use ports::database_admin::DatabaseAdmin;
pub use ports::file_repo::{
    BackfillFileRow, FileRepository, LocationStatusUpdate, LocationToVerify, VerifyCandidates,
};
pub use ports::hash::HashService;
pub use ports::identity_cache::{CacheEntry, CacheKey, IdentityCacheRepository};
pub use ports::metadata_repo::{FileWithMetadataRow, MetadataRepository};
pub use ports::scanner::{FileStat, Scanner};
pub use ports::search_repo::SearchRepository;
pub use ports::tag_repo::TagRepository;
pub use ports::volume_repo::VolumeRepository;
pub use search::SearchHit;
pub use tag::{normalize as normalize_tag, Tag, MAX_TAG_LEN};
pub use types::{
    BlakeHash, DeviceId, DiscoveredFile, FileLocationRecord, FileSize, FileUuid, HashedFile,
    LocationStatus, MediaPath, MountedPath, PathText, UpsertOutcome, VolumeId, VolumeIdentifiers,
    VolumeRecord,
};

verus! {

/// The name of the domain core.
pub const CRATE_NAME: &'static str = "perima-core";

} // verus!
