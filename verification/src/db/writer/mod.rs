//! Writes: what each command asks of the database, and what it answers.
pub mod backup;
pub mod cache;
pub mod file;
pub mod job;
pub mod metadata;
pub mod search;
pub mod tag;
pub mod transcript;
pub mod volume;
