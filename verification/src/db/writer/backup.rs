//! The command that writes a copy of the database.
use vstd::prelude::*;
use vstd::string::*;

use crate::db::errors::{SqliteError, SqliteErrorKind};
use crate::db::sql::{text_value, Bound, SqlCall, SqlValue};
use crate::errors::{BackupFailureReason, CoreError};
use crate::text::cat;
use crate::types::PathText;

verus! {

/// Write a consistent copy of the database to `target`.
#[derive(Clone, Debug)]
pub struct BackupWriteCmd {
    pub target: PathText,
}

pub const VACUUM_INTO: &'static str = "VACUUM INTO ?1";

/// Whether this is a failed backup for an internal reason with this message.
pub open spec fn backup_internal(e: CoreError, text: Seq<char>) -> bool {
    e matches CoreError::BackupFailed { reason } && reason matches BackupFailureReason::Internal(m)
        && m@ == text
}

impl BackupWriteCmd {
    /// The statement that writes the copy. A target that is not valid UTF-8 cannot
    /// be named to the database.
    pub fn call(&self) -> (r: Result<SqlCall, CoreError>)
        ensures
            match self.target {
                PathText::Utf8(path) => r matches Ok(call) && call.is(
                    VACUUM_INTO@,
                    seq![Bound::Text(path@)],
                ),
                PathText::NotUtf8 { shown, .. } => r matches Err(CoreError::BackupFailed { reason })
                    && (reason matches BackupFailureReason::TargetUnwritable { path, message }
                    && path == shown && message@ == "target path is not valid UTF-8"@),
            },
    {
        match &self.target {
            PathText::Utf8(path) => {
                let params: Vec<SqlValue> = vec![text_value(path.as_str())];
                Ok(SqlCall::new(VACUUM_INTO, params))
            },
            PathText::NotUtf8 { shown, .. } => Err(
                CoreError::BackupFailed {
                    reason: BackupFailureReason::TargetUnwritable {
                        path: shown.clone(),
                        message: "target path is not valid UTF-8".to_owned(),
                    },
                },
            ),
        }
    }

    /// How the target is shown in errors.
    pub open spec fn shown(self) -> String {
        match self.target {
            PathText::Utf8(path) => path,
            PathText::NotUtf8 { shown, .. } => shown,
        }
    }

    /// Why the backup failed, from what the database reported: a full disk and a
    /// target that cannot be opened are told apart from the rest.
    pub fn failed(&self, error: &SqliteError) -> (r: CoreError)
        ensures
            match error.kind {
                SqliteErrorKind::DiskFull => r == (CoreError::BackupFailed {
                    reason: BackupFailureReason::DiskFull { path: self.shown() },
                }),
                SqliteErrorKind::CannotOpen => r == (CoreError::BackupFailed {
                    reason: BackupFailureReason::TargetUnwritable {
                        path: self.shown(),
                        message: error.text,
                    },
                }),
                _ => r == (CoreError::BackupFailed {
                    reason: BackupFailureReason::Internal(error.text),
                }),
            },
    {
        let path = match &self.target {
            PathText::Utf8(path) => path.clone(),
            PathText::NotUtf8 { shown, .. } => shown.clone(),
        };
        let reason = match error.kind {
            SqliteErrorKind::DiskFull => BackupFailureReason::DiskFull { path },
            SqliteErrorKind::CannotOpen => BackupFailureReason::TargetUnwritable {
                path,
                message: error.text.clone(),
            },
            _ => BackupFailureReason::Internal(error.text.clone()),
        };
        CoreError::BackupFailed { reason }
    }
}

/// The error where the copy was written and its size could not be read.
pub fn size_unknown(message: &str) -> (r: CoreError)
    ensures
        backup_internal(r, "metadata after VACUUM INTO: "@ + message@),
{
    CoreError::BackupFailed {
        reason: BackupFailureReason::Internal(cat("metadata after VACUUM INTO: ", message)),
    }
}

/// The error where the writer could not be asked for a backup.
pub fn backup_not_sent(message: &str) -> (r: CoreError)
    ensures
        backup_internal(r, "writer send: "@ + message@),
{
    CoreError::BackupFailed { reason: BackupFailureReason::Internal(cat("writer send: ", message)) }
}

/// The error where the writer went before it answered.
pub fn backup_not_answered(message: &str) -> (r: CoreError)
    ensures
        backup_internal(r, "writer reply: "@ + message@),
{
    CoreError::BackupFailed {
        reason: BackupFailureReason::Internal(cat("writer reply: ", message)),
    }
}

} // verus!
