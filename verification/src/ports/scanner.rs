//! Walking the file system.
use vstd::prelude::*;

use crate::errors::CoreError;
use crate::types::{DiscoveredFile, PathText};

verus! {

/// What the file system says of a file.
#[derive(Clone, Copy, Debug, PartialEq, Eq, Structural)]
pub struct FileStat {
    pub size_bytes: u64,
    pub mtime_ns: i64,
    pub fs_file_id: i64,
}

/// Walks the file system.
pub trait Scanner: Send + Sync {
    /// The files below `root`, with paths relative to `volume_root`.
    fn walk(&self, root: &PathText, volume_root: &PathText) -> Result<
        Vec<DiscoveredFile>,
        CoreError,
    >;

    /// What the file system says of one file.
    fn stat_with_id(&self, path: &PathText) -> Result<FileStat, CoreError>;
}

} // verus!
