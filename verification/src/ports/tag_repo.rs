//! Tags and what they are attached to.
use vstd::prelude::*;

use crate::errors::CoreError;
use crate::ids::Uuid;
use crate::tag::Tag;
use crate::types::{BlakeHash, DeviceId};

verus! {

/// Persistence of tags.
pub trait TagRepository: Send + Sync {
    /// The tag of this name, made where there is none.
    fn upsert_tag(&self, name: &str, device: DeviceId) -> Result<Tag, CoreError>;

    /// Retires a tag.
    fn delete_tag(&self, tag_id: Uuid, device: DeviceId) -> Result<(), CoreError>;

    /// Attaches a tag to a file.
    fn attach(&self, hash: &BlakeHash, tag_id: Uuid, device: DeviceId) -> Result<(), CoreError>;

    /// Detaches a tag from a file.
    fn detach(&self, hash: &BlakeHash, tag_id: Uuid, device: DeviceId) -> Result<(), CoreError>;

    /// All tags, by name.
    fn list_tags(&self) -> Result<Vec<Tag>, CoreError>;

    /// The tags of each of these files; files without tags are left out.
    fn tags_for_hashes(&self, hashes: &Vec<BlakeHash>) -> Result<
        Vec<(BlakeHash, Vec<Tag>)>,
        CoreError,
    >;

    /// The files that carry a tag.
    fn files_with_tag(&self, tag_id: Uuid) -> Result<Vec<BlakeHash>, CoreError>;

    /// How many files carry a tag.
    fn count_files_for_tag(&self, tag_id: Uuid) -> Result<u64, CoreError>;
}

} // verus!
