//! Ports: what the domain asks of the adapters around it.
pub mod database_admin;
pub mod file_repo;
pub mod hash;
pub mod identity_cache;
pub mod metadata_repo;
pub mod scanner;
pub mod search_repo;
pub mod tag_repo;
pub mod volume_repo;
