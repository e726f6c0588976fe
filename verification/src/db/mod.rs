//! The database adapter: what it asks of the database, and what it makes of the
//! answers.
pub mod cmd;
pub mod convert;
pub mod errors;
pub mod file_repo;
pub mod identity_cache_repo;
pub mod joins;
pub mod lists;
pub mod lookups;
pub mod manifest;
pub mod metadata_repo;
pub mod model;
pub mod schema;
pub mod search_repo;
pub mod shape;
pub mod sql;
pub mod tag_repo;
pub mod transcript_repo;
pub mod volume_repo;
pub mod writer;
