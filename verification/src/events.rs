//! Events that tell listeners what changed.
use vstd::prelude::*;

use crate::dedup::{BatchId, FullHashOutcome};
use crate::errors::CoreError;
use crate::transcription::TranscriptionError;
use crate::types::{FileUuid, MediaPath, VolumeId};

verus! {

/// A change that the file-system watcher saw.
#[derive(Clone, Debug)]
pub enum FileEvent {
    Created { path: MediaPath, volume: VolumeId, file_uuid: Option<FileUuid> },
    Modified { path: MediaPath, volume: VolumeId, file_uuid: Option<FileUuid> },
    Deleted { path: MediaPath, volume: VolumeId, file_uuid: Option<FileUuid> },
    Renamed { from: MediaPath, to: MediaPath, volume: VolumeId, file_uuid: Option<FileUuid> },
}

/// Everything that listeners are told.
#[allow(inconsistent_fields)]
#[derive(Clone, Debug)]
pub enum AppEvent {
    /// A change that the file-system watcher saw.
    File(FileEvent),
    /// A scan has ended.
    ScanCompleted { volume: VolumeId, files_seen: u64, files_new: u64, duration_ms: u64 },
    /// Query results derived from the index are stale.
    IndexInvalidated { reason: InvalidationReason },
    /// One file of a verification batch is done.
    VerifyProgress {
        batch_id: BatchId,
        files_done: u32,
        files_total: u32,
        latest_outcome: FullHashOutcome,
    },
    /// A verification batch is done.
    VerifyComplete { batch_id: BatchId },
    /// A transcription has started.
    TranscriptionStarted {
        request_uuid: String,
        file_uuid: String,
        file_name: String,
        queue_size: u32,
    },
    /// A transcription has come this far.
    TranscriptionProgress { request_uuid: String, processed_ms: u32, total_ms: Option<u32> },
    /// A transcript was stored.
    TranscriptionCompleted {
        request_uuid: String,
        transcript_id: String,
        file_uuid: String,
        segment_count: u32,
        language: Option<String>,
    },
    /// A transcription was cancelled.
    TranscriptionCancelled { request_uuid: String },
    /// A transcription failed.
    TranscriptionFailed { request_uuid: String, error: TranscriptionError },
}

/// Why query results are stale.
#[derive(Clone, Copy, Debug, PartialEq, Eq, Structural)]
pub enum InvalidationReason {
    TagsChanged,
    FilesChanged,
    MetadataChanged,
    SearchIndexRebuilt,
    CollisionsChanged,
}

/// Where events go.
pub trait EventBus: Send + Sync {
    /// Hands one event to the listeners.
    fn emit(&self, event: &AppEvent) -> Result<(), CoreError>;
}

/// A bus that drops every event.
#[derive(Clone, Copy, Debug, Default)]
pub struct NoopBus;

impl EventBus for NoopBus {
    fn emit(&self, event: &AppEvent) -> (r: Result<(), CoreError>)
        ensures
            r is Ok,
    {
        Ok(())
    }
}

} // verus!
