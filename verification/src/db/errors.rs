//! Errors of the database adapter.
use vstd::prelude::*;
use vstd::string::*;

use crate::errors::CoreError;
use crate::text::cat;

verus! {

/// What a failed database call reported, as far as callers tell failures apart.
#[derive(Clone, Copy, Debug, PartialEq, Eq, Structural)]
pub enum SqliteErrorKind {
    /// A query that must return a row returned none.
    QueryReturnedNoRows,
    /// A constraint of the schema was violated.
    ConstraintViolation,
    /// The disk is full.
    DiskFull,
    /// The database file cannot be opened.
    CannotOpen,
    /// Anything else.
    Other,
}

/// A failed database call: what it reported, and its message.
#[derive(Clone, Debug, PartialEq, Eq)]
pub struct SqliteError {
    pub kind: SqliteErrorKind,
    pub text: String,
}

/// Errors raised inside the adapter.
#[derive(Clone, Debug, PartialEq, Eq)]
pub enum Error {
    /// A database call failed.
    Rusqlite(SqliteError),
    /// A migration failed.
    Refinery(String),
    /// A uniqueness rule kept by the application was violated.
    AppLevelDuplicate(String),
}

impl Error {
    /// The message shown for this error.
    pub open spec fn message_text(self) -> Seq<char> {
        match self {
            Error::Rusqlite(e) => "rusqlite: "@ + e.text@,
            Error::Refinery(m) => "migration: "@ + m@,
            Error::AppLevelDuplicate(m) => "app-level duplicate: "@ + m@,
        }
    }

    /// The message shown for this error.
    pub fn message(&self) -> (r: String)
        ensures
            r@ == self.message_text(),
    {
        match self {
            Error::Rusqlite(e) => cat("rusqlite: ", e.text.as_str()),
            Error::Refinery(m) => cat("migration: ", m.as_str()),
            Error::AppLevelDuplicate(m) => cat("app-level duplicate: ", m.as_str()),
        }
    }

    /// How this error leaves the adapter: an absent row is `NotFound`, a violated
    /// constraint or uniqueness rule is `Duplicate`, the rest is `Internal`. Each
    /// carries the message.
    pub open spec fn lowers_to(self, r: CoreError) -> bool {
        match self {
            Error::Rusqlite(e) => match e.kind {
                SqliteErrorKind::QueryReturnedNoRows => r.is_not_found(self.message_text()),
                SqliteErrorKind::ConstraintViolation => is_duplicate(r, self.message_text()),
                _ => r.is_internal(self.message_text()),
            },
            Error::AppLevelDuplicate(_) => is_duplicate(r, self.message_text()),
            Error::Refinery(_) => r.is_internal(self.message_text()),
        }
    }
}

/// Whether this is `Duplicate` with the given message.
pub open spec fn is_duplicate(e: CoreError, text: Seq<char>) -> bool {
    e matches CoreError::Duplicate(m) && m@ == text
}

impl vstd::std_specs::convert::FromSpecImpl<Error> for CoreError {
    open spec fn obeys_from_spec() -> bool {
        false
    }

    open spec fn from_spec(v: Error) -> Self {
        arbitrary()
    }
}

impl From<Error> for CoreError {
    fn from(e: Error) -> (r: CoreError)
        ensures
            e.lowers_to(r),
    {
        let text = e.message();
        match e {
            Error::Rusqlite(inner) => match inner.kind {
                SqliteErrorKind::QueryReturnedNoRows => CoreError::NotFound(text),
                SqliteErrorKind::ConstraintViolation => CoreError::Duplicate(text),
                _ => CoreError::Internal(text),
            },
            Error::AppLevelDuplicate(_) => CoreError::Duplicate(text),
            Error::Refinery(_) => CoreError::Internal(text),
        }
    }
}

/// A row that is not there, and a rule that is violated, leave the adapter as what they
/// are, and nothing else does; every error keeps the message of the database.
pub proof fn law_errors_keep_their_kind(e: SqliteError, r: CoreError, message: String, d: CoreError)
    requires
        Error::Rusqlite(e).lowers_to(r),
        Error::AppLevelDuplicate(message).lowers_to(d),
    ensures
        r is NotFound <==> e.kind == SqliteErrorKind::QueryReturnedNoRows,
        r is Duplicate <==> e.kind == SqliteErrorKind::ConstraintViolation,
        r is NotFound || r is Duplicate || r is Internal,
        d is Duplicate,
        match r {
            CoreError::NotFound(m) => m@ == "rusqlite: "@ + e.text@,
            CoreError::Duplicate(m) => m@ == "rusqlite: "@ + e.text@,
            CoreError::Internal(m) => m@ == "rusqlite: "@ + e.text@,
            _ => false,
        },
{
}

} // verus!
