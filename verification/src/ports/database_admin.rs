//! Administration of the database.
use vstd::prelude::*;

use crate::errors::CoreError;
use crate::types::PathText;

verus! {

/// Administration of the database.
pub trait DatabaseAdmin: Send + Sync {
    /// Writes a consistent copy of the database to `target` and returns its size
    /// in bytes.
    fn backup(&self, target: &PathText) -> Result<u64, CoreError>;
}

} // verus!
