//! The error type that crosses the library's boundary.
use vstd::prelude::*;
use vstd::string::*;

use crate::text::{cat, cat3, debug_form, debug_text};
use crate::transcription::TranscriptionError;

verus! {

/// `std::io::Error`, carried as it is.
#[verifier::external_type_specification]
#[verifier::external_body]
pub struct ExIoError(std::io::Error);

/// What went wrong, in a form that callers can branch on.
#[allow(inconsistent_fields)]
#[derive(Clone, Debug, PartialEq, Eq)]
pub enum CoreError {
    /// Queried item was absent.
    NotFound(String),
    /// An insert would have broken a uniqueness rule.
    Duplicate(String),
    /// A path could not be normalized or lies outside the expected root.
    InvalidPath(String),
    /// The text is no hash of 64 lowercase hexadecimal digits.
    InvalidHash(String),
    /// A tag name failed normalization.
    InvalidTag(String),
    /// An I/O failure: the name of its kind, and its message.
    Io { kind: String, message: String },
    /// Declared, but not available yet.
    Unsupported(String),
    /// Any failure without a variant of its own.
    Internal(String),
    /// A full hash was asked for and cannot be produced.
    FullHashUnavailable { reason: FullHashUnavailableReason },
    /// A backup failed.
    BackupFailed { reason: BackupFailureReason },
    /// A transcription failed.
    Transcription(TranscriptionError),
}

/// Why a full hash could not be produced.
#[derive(Clone, Debug, PartialEq, Eq)]
pub enum FullHashUnavailableReason {
    /// The volume that holds the file is not mounted.
    NotMounted { volume_id: String },
    /// The hash has not been computed yet.
    NotComputed,
    /// An I/O error came up while computing it.
    IoError { message: String },
}

/// Why a backup failed.
#[derive(Clone, Debug, PartialEq, Eq)]
pub enum BackupFailureReason {
    TargetExists { path: String },
    TargetUnwritable { path: String, message: String },
    DiskFull { path: String },
    AlreadyInProgress,
    Internal(String),
}

impl FullHashUnavailableReason {
    /// The message shown for this reason.
    pub open spec fn message_text(self) -> Seq<char> {
        match self {
            FullHashUnavailableReason::NotMounted { volume_id } => "volume not mounted: "@ + volume_id@,
            FullHashUnavailableReason::NotComputed => "full hash has not been computed for this file yet"@,
            FullHashUnavailableReason::IoError { message } => "io error: "@ + message@,
        }
    }

    /// The message shown for this reason.
    pub fn message(&self) -> (r: String)
        ensures
            r@ == self.message_text(),
    {
        match self {
            FullHashUnavailableReason::NotMounted { volume_id } => cat(
                "volume not mounted: ",
                volume_id.as_str(),
            ),
            FullHashUnavailableReason::NotComputed =>
                "full hash has not been computed for this file yet".to_owned(),
            FullHashUnavailableReason::IoError { message } => cat("io error: ", message.as_str()),
        }
    }

    /// The variant with its fields, as `Debug` writes it.
    pub open spec fn variant_text(self) -> Seq<char> {
        match self {
            FullHashUnavailableReason::NotMounted { volume_id } => "NotMounted { volume_id: "@
                + debug_form(volume_id@) + " }"@,
            FullHashUnavailableReason::NotComputed => "NotComputed"@,
            FullHashUnavailableReason::IoError { message } => "IoError { message: "@ + debug_form(
                message@,
            ) + " }"@,
        }
    }

    fn variant(&self) -> (r: String)
        ensures
            r@ == self.variant_text(),
    {
        match self {
            FullHashUnavailableReason::NotMounted { volume_id } => {
                let quoted = debug_text(volume_id.as_str());
                cat3("NotMounted { volume_id: ", quoted.as_str(), " }")
            },
            FullHashUnavailableReason::NotComputed => "NotComputed".to_owned(),
            FullHashUnavailableReason::IoError { message } => {
                let quoted = debug_text(message.as_str());
                cat3("IoError { message: ", quoted.as_str(), " }")
            },
        }
    }
}

impl BackupFailureReason {
    /// The message shown for this reason.
    pub open spec fn message_text(self) -> Seq<char> {
        match self {
            BackupFailureReason::TargetExists { path } => "target exists: "@ + path@,
            BackupFailureReason::TargetUnwritable { path, message } => "target not writable: "@ + path@
                + ": "@ + message@,
            BackupFailureReason::DiskFull { path } => "disk full: "@ + path@,
            BackupFailureReason::AlreadyInProgress => "already in progress"@,
            BackupFailureReason::Internal(m) => m@,
        }
    }

    /// The message shown for this reason.
    pub fn message(&self) -> (r: String)
        ensures
            r@ == self.message_text(),
    {
        match self {
            BackupFailureReason::TargetExists { path } => cat("target exists: ", path.as_str()),
            BackupFailureReason::TargetUnwritable { path, message } => {
                let mut s = cat3("target not writable: ", path.as_str(), ": ");
                s.append(message.as_str());
                s
            },
            BackupFailureReason::DiskFull { path } => cat("disk full: ", path.as_str()),
            BackupFailureReason::AlreadyInProgress => "already in progress".to_owned(),
            BackupFailureReason::Internal(m) => m.clone(),
        }
    }
}

impl CoreError {
    /// The message shown for this error.
    pub open spec fn message_text(self) -> Seq<char> {
        match self {
            CoreError::NotFound(m) => "not found: "@ + m@,
            CoreError::Duplicate(m) => "duplicate: "@ + m@,
            CoreError::InvalidPath(m) => "invalid path: "@ + m@,
            CoreError::InvalidHash(m) => "invalid hash hex: "@ + m@,
            CoreError::InvalidTag(m) => "invalid tag: "@ + m@,
            CoreError::Io { kind, message } => "io ["@ + kind@ + "]: "@ + message@,
            CoreError::Unsupported(m) => "unsupported in this phase: "@ + m@,
            CoreError::Internal(m) => "internal: "@ + m@,
            CoreError::FullHashUnavailable { reason } => "full hash unavailable: "@
                + reason.variant_text(),
            CoreError::BackupFailed { reason } => "backup failed: "@ + reason.message_text(),
            CoreError::Transcription(e) => "transcription failed: "@ + e.message_text(),
        }
    }

    /// The message shown for this error.
    pub fn message(&self) -> (r: String)
        ensures
            r@ == self.message_text(),
    {
        match self {
            CoreError::NotFound(m) => cat("not found: ", m.as_str()),
            CoreError::Duplicate(m) => cat("duplicate: ", m.as_str()),
            CoreError::InvalidPath(m) => cat("invalid path: ", m.as_str()),
            CoreError::InvalidHash(m) => cat("invalid hash hex: ", m.as_str()),
            CoreError::InvalidTag(m) => cat("invalid tag: ", m.as_str()),
            CoreError::Io { kind, message } => {
                let mut s = cat3("io [", kind.as_str(), "]: ");
                s.append(message.as_str());
                s
            },
            CoreError::Unsupported(m) => cat("unsupported in this phase: ", m.as_str()),
            CoreError::Internal(m) => cat("internal: ", m.as_str()),
            CoreError::FullHashUnavailable { reason } => {
                let variant = reason.variant();
                cat("full hash unavailable: ", variant.as_str())
            },
            CoreError::BackupFailed { reason } => {
                let m = reason.message();
                cat("backup failed: ", m.as_str())
            },
            CoreError::Transcription(e) => {
                let m = e.message();
                cat("transcription failed: ", m.as_str())
            },
        }
    }

    /// Whether this is `Internal` with the given message.
    pub open spec fn is_internal(self, text: Seq<char>) -> bool {
        self matches CoreError::Internal(m) && m@ == text
    }

    /// Whether this is `NotFound` with the given message.
    pub open spec fn is_not_found(self, text: Seq<char>) -> bool {
        self matches CoreError::NotFound(m) && m@ == text
    }

    /// Whether this is `InvalidHash` with the given message.
    pub open spec fn is_invalid_hash(self, text: Seq<char>) -> bool {
        self matches CoreError::InvalidHash(m) && m@ == text
    }

    /// An I/O failure, from the name of its kind and its message.
    pub fn from_io_parts(kind: String, message: String) -> (r: CoreError)
        ensures
            r == (CoreError::Io { kind, message }),
    {
        CoreError::Io { kind, message }
    }
}

/// Calls `std::io::Error::kind` and writes the kind by its `Debug`. Nothing is
/// stated of the text: it depends on an error value that holds no plain data.
#[verifier::external_body]
pub fn io_kind_name(e: &std::io::Error) -> (r: String) {
    format!("{:?}", e.kind())
}

/// Calls `Display` of `std::io::Error`. Nothing is stated of the text, for the
/// same reason.
#[verifier::external_body]
pub fn io_message(e: &std::io::Error) -> (r: String) {
    e.to_string()
}

impl vstd::std_specs::convert::FromSpecImpl<std::io::Error> for CoreError {
    open spec fn obeys_from_spec() -> bool {
        false
    }

    open spec fn from_spec(v: std::io::Error) -> Self {
        arbitrary()
    }
}

impl From<std::io::Error> for CoreError {
    fn from(e: std::io::Error) -> (r: CoreError)
        ensures
            exists|kind: String, message: String|
                #![trigger call_ensures(io_kind_name, (&e,), kind), call_ensures(io_message, (&e,), message)]
                call_ensures(io_kind_name, (&e,), kind) && call_ensures(
                    io_message,
                    (&e,),
                    message,
                ) && r == (CoreError::Io { kind, message }),
    {
        let kind = io_kind_name(&e);
        let message = io_message(&e);
        CoreError::from_io_parts(kind, message)
    }
}

} // verus!
