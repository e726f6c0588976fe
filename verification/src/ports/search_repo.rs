//! Full-text search.
use vstd::prelude::*;

use crate::errors::CoreError;
use crate::search::SearchHit;

verus! {

/// Full-text search over the index.
pub trait SearchRepository: Send + Sync {
    /// The files that match, best first.
    fn search(&self, query: &str, limit: u32) -> Result<Vec<SearchHit>, CoreError>;

    /// Builds the index anew.
    fn rebuild(&self) -> Result<(), CoreError>;
}

} // verus!
