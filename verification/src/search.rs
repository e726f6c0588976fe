//! Full-text search results.
use vstd::prelude::*;

use crate::types::FileUuid;

verus! {

/// One file that matches a search.
#[derive(Clone, Debug, PartialEq, Eq)]
pub struct SearchHit {
    pub file_uuid: FileUuid,
    pub blake3_hash: Option<String>,
    pub volume_id: String,
    pub relative_path: String,
    /// The IEEE 754 bits of the double-precision rank; lower ranks come first.
    pub rank_bits: u64,
}

} // verus!
