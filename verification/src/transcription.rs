//! Speech-to-text: requests, results, failures and the backend port.
use vstd::prelude::*;
use vstd::string::*;

use crate::errors::CoreError;
use crate::ids::Uuid;
use crate::text::{cat, cat3, dec_nat, u64_text};
use crate::types::PathText;

verus! {

/// Stable backend identifier in `provider:model` form.
#[derive(Clone, Debug, PartialEq, Eq, Hash)]
pub struct BackendId(pub String);

impl BackendId {
    /// The identifier as it is displayed.
    pub fn to_text(&self) -> (r: String)
        ensures
            r@ == self.0@,
    {
        self.0.clone()
    }
}

/// One segment of a transcript. Times are milliseconds since file start.
#[derive(Clone, Debug)]
pub struct TranscriptSegment {
    /// Identity of the segment, kept across re-runs against other backends.
    pub id: Uuid,
    pub start_ms: u32,
    pub end_ms: u32,
    pub text: String,
    /// The IEEE 754 bits of a single-precision confidence of roughly 0 to 1, or
    /// `None` where the backend gives no confidence.
    pub confidence_bits: Option<u32>,
}

/// Result of a successful transcription.
#[derive(Clone, Debug)]
pub struct TranscriptionResult {
    /// BCP-47 short code where possible.
    pub language: Option<String>,
    pub duration_ms: u32,
    pub segments: Vec<TranscriptSegment>,
    pub backend: BackendId,
}

/// What a backend is asked to do.
#[derive(Clone, Debug)]
pub struct TranscribeRequest {
    /// Path of the media file.
    pub source: PathText,
    /// Language hint; `None` asks for detection.
    pub language_hint: Option<String>,
    /// Soft timeout in milliseconds; `None` leaves it to the backend.
    pub timeout_ms: Option<u64>,
}

/// Progress of a running transcription.
#[derive(Clone, Debug)]
pub enum TranscriptionProgress {
    Started { estimated_duration_ms: Option<u32> },
    Segment { segment: TranscriptSegment, processed_ms: u32, total_ms: Option<u32> },
    Heartbeat { elapsed_ms: u64 },
    Finished,
}

/// All transcription failure modes.
#[derive(Clone, Debug, PartialEq, Eq)]
#[non_exhaustive]
pub enum TranscriptionError {
    Network(String),
    Auth,
    RateLimited { retry_after_secs: Option<u64> },
    QuotaExceeded,
    ModelNotFound { backend: String, model: String },
    AudioDecode(String),
    FileTooLarge { limit_bytes: u64 },
    Cancelled,
    BackendUnavailable { reason: String },
    QueueFull { queued: u32 },
    Internal(String),
}

/// An optional number as `Debug` writes it.
pub open spec fn opt_number_text(n: Option<u64>) -> Seq<char> {
    match n {
        Some(v) => "Some("@ + dec_nat(v as nat) + ")"@,
        None => "None"@,
    }
}

fn opt_number(n: Option<u64>) -> (r: String)
    ensures
        r@ == opt_number_text(n),
{
    match n {
        Some(v) => {
            let digits = u64_text(v);
            cat3("Some(", digits.as_str(), ")")
        },
        None => "None".to_owned(),
    }
}

impl TranscriptionError {
    /// The message shown for this failure.
    pub open spec fn message_text(self) -> Seq<char> {
        match self {
            TranscriptionError::Network(m) => "network error contacting backend: "@ + m@,
            TranscriptionError::Auth => "authentication failed (bad API key, expired token, or wrong scopes)"@,
            TranscriptionError::RateLimited { retry_after_secs } => "rate limited by backend; retry after "@
                + opt_number_text(retry_after_secs) + "s"@,
            TranscriptionError::QuotaExceeded => "quota or billing exhausted"@,
            TranscriptionError::ModelNotFound { backend, model } => "model "@ + model@
                + " not available at backend "@ + backend@,
            TranscriptionError::AudioDecode(m) => "could not decode audio from source: "@ + m@,
            TranscriptionError::FileTooLarge { limit_bytes } => "input file too large for backend (limit "@
                + dec_nat(limit_bytes as nat) + " bytes)"@,
            TranscriptionError::Cancelled => "cancelled by caller"@,
            TranscriptionError::BackendUnavailable { reason } => "backend unavailable: "@ + reason@,
            TranscriptionError::QueueFull { queued } => "transcription queue is full ("@ + dec_nat(
                queued as nat,
            ) + " jobs queued); try again later"@,
            TranscriptionError::Internal(m) => "internal adapter error: "@ + m@,
        }
    }

    /// The message shown for this failure.
    pub fn message(&self) -> (r: String)
        ensures
            r@ == self.message_text(),
    {
        match self {
            TranscriptionError::Network(m) => cat("network error contacting backend: ", m.as_str()),
            TranscriptionError::Auth =>
                "authentication failed (bad API key, expired token, or wrong scopes)".to_owned(),
            TranscriptionError::RateLimited { retry_after_secs } => {
                let secs = opt_number(*retry_after_secs);
                cat3("rate limited by backend; retry after ", secs.as_str(), "s")
            },
            TranscriptionError::QuotaExceeded => "quota or billing exhausted".to_owned(),
            TranscriptionError::ModelNotFound { backend, model } => {
                let mut s = cat3("model ", model.as_str(), " not available at backend ");
                s.append(backend.as_str());
                s
            },
            TranscriptionError::AudioDecode(m) => cat(
                "could not decode audio from source: ",
                m.as_str(),
            ),
            TranscriptionError::FileTooLarge { limit_bytes } => {
                let limit = u64_text(*limit_bytes);
                cat3("input file too large for backend (limit ", limit.as_str(), " bytes)")
            },
            TranscriptionError::Cancelled => "cancelled by caller".to_owned(),
            TranscriptionError::BackendUnavailable { reason } => cat(
                "backend unavailable: ",
                reason.as_str(),
            ),
            TranscriptionError::QueueFull { queued } => {
                let jobs = u64_text(*queued as u64);
                cat3("transcription queue is full (", jobs.as_str(), " jobs queued); try again later")
            },
            TranscriptionError::Internal(m) => cat("internal adapter error: ", m.as_str()),
        }
    }
}

/// How the caller of a backend stays in touch with it.
pub trait TranscriptionControl: Send + Sync {
    /// Whether the caller has given up. Backends ask at every segment and at every
    /// poll.
    fn is_cancelled(&self) -> bool;

    /// Takes a progress report. Backends may call this from any thread.
    fn on_progress(&self, progress: TranscriptionProgress);
}

/// A speech-to-text backend. Calls block until the work is done.
pub trait Transcriber: Send + Sync {
    /// Stable backend identifier.
    fn id(&self) -> &BackendId;

    /// Whether this backend handles the given MIME type.
    fn accepts(&self, mime: &str) -> bool;

    /// Runs the transcription.
    fn transcribe(
        &self,
        req: &TranscribeRequest,
        control: &dyn TranscriptionControl,
    ) -> Result<TranscriptionResult, CoreError>;
}

} // verus!
