//! Structured media metadata and the port that extracts it.
use vstd::prelude::*;

use crate::errors::CoreError;
use crate::text::copy_text_opt;
use crate::types::{BlakeHash, PathText};

verus! {

/// Metadata of a media file. Any part may be missing.
#[derive(Clone, Debug, PartialEq, Eq)]
pub struct MediaMetadata {
    /// Content hash of the file that this describes.
    pub hash: BlakeHash,
    pub width: Option<u32>,
    pub height: Option<u32>,
    pub duration_ms: Option<u64>,
    /// ISO 8601 UTC capture timestamp.
    pub captured_at: Option<String>,
    pub camera_make: Option<String>,
    pub camera_model: Option<String>,
    pub codec: Option<String>,
    pub bitrate_bps: Option<u32>,
    pub mime_type: Option<String>,
    /// Where the thumbnail is, once there is one.
    pub thumbnail_path: Option<String>,
    /// How far thumbnail generation has come.
    pub thumbnail_status: Option<String>,
}

impl MediaMetadata {
    /// A copy of this metadata.
    pub fn copy(&self) -> (r: MediaMetadata)
        ensures
            r == *self,
    {
        MediaMetadata {
            hash: self.hash,
            width: self.width,
            height: self.height,
            duration_ms: self.duration_ms,
            captured_at: copy_text_opt(&self.captured_at),
            camera_make: copy_text_opt(&self.camera_make),
            camera_model: copy_text_opt(&self.camera_model),
            codec: copy_text_opt(&self.codec),
            bitrate_bps: self.bitrate_bps,
            mime_type: copy_text_opt(&self.mime_type),
            thumbnail_path: copy_text_opt(&self.thumbnail_path),
            thumbnail_status: copy_text_opt(&self.thumbnail_status),
        }
    }
}

/// Extracts metadata from files of the types that it accepts.
pub trait MetadataExtractor: Send + Sync {
    /// Whether files of this MIME type are handled.
    fn accepts(&self, mime: &str) -> bool;

    /// Extracts the metadata of one file.
    fn extract(&self, hash: BlakeHash, absolute_path: &PathText, mime: &str) -> Result<
        MediaMetadata,
        CoreError,
    >;
}

} // verus!
