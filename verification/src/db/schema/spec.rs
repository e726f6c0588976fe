//! The triggers that keep the full-text indexes in step with their sources.
use vstd::prelude::*;

verus! {

/// What sets a trigger off.
#[derive(Clone, Copy, Debug, PartialEq, Eq)]
pub enum TriggerEvent {
    Insert,
    Update,
    /// An update of one column.
    UpdateOf(&'static str),
    Delete,
}

/// What a trigger does.
#[derive(Clone, Copy, Debug, PartialEq, Eq, Structural)]
pub enum BodyKind {
    /// A row of `search_content` is added: index it.
    SearchContentAfterInsert,
    /// A row of `search_content` changes: index it anew.
    SearchContentAfterUpdate,
    /// A row of `search_content` goes: take it out of the index.
    SearchContentAfterDelete,
    /// A location is added: make the row of its file from live state.
    FileLocationsInsert,
    /// A location gets another hash: make or refresh the row of its file, and refresh
    /// or drop the row of the file it had before.
    LocationHashChangeSeed,
    /// The representative location of a file moves: follow it.
    RenameRepresentative,
    /// A location is retired: point to a surviving one, or drop the row.
    LocationSoftDelete,
    /// A location comes back: make or refresh the row of its file.
    LocationRestore,
    /// Metadata is added: make the row where there is none, and refresh its columns.
    MetadataInsert,
    /// Metadata changes: refresh its columns, or clear them where it is retired.
    MetadataUpdate,
    /// A tag is attached: make the row where there is none, and refresh its tags.
    FileTagsInsert,
    /// An attachment changes: refresh the tags.
    FileTagsUpdate,
    /// A tag is renamed: refresh the tags of every file that carries it.
    TagsNameUpdate,
    /// A tag is retired or comes back: refresh the tags of every file that carries it.
    TagsSoftDeleteOrRestore,
    /// A tag is removed: refresh the tags of every file that carried it.
    TagsDelete,
    /// A live segment is added: index it.
    TranscriptSegmentAfterInsert,
    /// A segment is removed: take it out of the index.
    TranscriptSegmentAfterDelete,
    /// A segment changes: take it out of the index, and index it anew where it is live.
    TranscriptSegmentAfterUpdate,
}

/// One trigger.
#[derive(Clone, Copy, Debug)]
pub struct FtsAggregation {
    pub name: &'static str,
    pub source_table: &'static str,
    pub event: TriggerEvent,
    /// When the trigger acts; `None` for always.
    pub when: Option<&'static str>,
    pub body: BodyKind,
}

/// A renamed location is the live one that was seen first of those that name its
/// file.
pub const RENAME_GUARD: &'static str =
    "OLD.relative_path != NEW.relative_path AND NEW.deleted_at IS NULL AND NEW.id = (SELECT id FROM file_locations WHERE file_uuid = NEW.file_uuid AND deleted_at IS NULL ORDER BY first_seen ASC, id ASC LIMIT 1)";

/// The names of triggers that older databases may still hold and that no longer
/// exist.
pub open spec fn legacy_names() -> Seq<&'static str> {
    seq![
        "search_after_location_hash_change",
        "search_after_location_hash_change_retire",
    ]
}

/// The names of triggers that older databases may still hold.
pub fn legacy_trigger_names() -> (r: Vec<&'static str>)
    ensures
        r@ == legacy_names(),
{
    vec![
        "search_after_location_hash_change",
        "search_after_location_hash_change_retire",
    ]
}

/// The triggers, in the order in which they are made. The database runs triggers
/// for one change in that order.
pub open spec fn fts_table() -> Seq<FtsAggregation> {
    seq![
        FtsAggregation {
            name: "sc_after_insert",
            source_table: "search_content",
            event: TriggerEvent::Insert,
            when: None,
            body: BodyKind::SearchContentAfterInsert,
        },
        FtsAggregation {
            name: "sc_after_update",
            source_table: "search_content",
            event: TriggerEvent::Update,
            when: None,
            body: BodyKind::SearchContentAfterUpdate,
        },
        FtsAggregation {
            name: "sc_after_delete",
            source_table: "search_content",
            event: TriggerEvent::Delete,
            when: None,
            body: BodyKind::SearchContentAfterDelete,
        },
        FtsAggregation {
            name: "search_after_file_locations_insert",
            source_table: "file_locations",
            event: TriggerEvent::Insert,
            when: Some("NEW.deleted_at IS NULL"),
            body: BodyKind::FileLocationsInsert,
        },
        FtsAggregation {
            name: "search_after_location_hash_change_seed",
            source_table: "file_locations",
            event: TriggerEvent::UpdateOf("blake3_hash"),
            when: Some("OLD.blake3_hash != NEW.blake3_hash AND NEW.deleted_at IS NULL"),
            body: BodyKind::LocationHashChangeSeed,
        },
        FtsAggregation {
            name: "search_after_location_rename",
            source_table: "file_locations",
            event: TriggerEvent::UpdateOf("relative_path"),
            when: Some(RENAME_GUARD),
            body: BodyKind::RenameRepresentative,
        },
        FtsAggregation {
            name: "search_after_location_soft_delete",
            source_table: "file_locations",
            event: TriggerEvent::UpdateOf("deleted_at"),
            when: Some("OLD.deleted_at IS NULL AND NEW.deleted_at IS NOT NULL"),
            body: BodyKind::LocationSoftDelete,
        },
        FtsAggregation {
            name: "search_after_location_restore",
            source_table: "file_locations",
            event: TriggerEvent::UpdateOf("deleted_at"),
            when: Some("OLD.deleted_at IS NOT NULL AND NEW.deleted_at IS NULL"),
            body: BodyKind::LocationRestore,
        },
        FtsAggregation {
            name: "search_after_metadata_insert",
            source_table: "file_metadata",
            event: TriggerEvent::Insert,
            when: Some("NEW.deleted_at IS NULL"),
            body: BodyKind::MetadataInsert,
        },
        FtsAggregation {
            name: "search_after_metadata_update",
            source_table: "file_metadata",
            event: TriggerEvent::Update,
            when: None,
            body: BodyKind::MetadataUpdate,
        },
        FtsAggregation {
            name: "search_after_file_tags_insert",
            source_table: "file_tags",
            event: TriggerEvent::Insert,
            when: Some("NEW.deleted_at IS NULL"),
            body: BodyKind::FileTagsInsert,
        },
        FtsAggregation {
            name: "search_after_file_tags_update",
            source_table: "file_tags",
            event: TriggerEvent::Update,
            when: None,
            body: BodyKind::FileTagsUpdate,
        },
        FtsAggregation {
            name: "search_after_tags_name_update",
            source_table: "tags",
            event: TriggerEvent::UpdateOf("name"),
            when: Some("OLD.name != NEW.name"),
            body: BodyKind::TagsNameUpdate,
        },
        FtsAggregation {
            name: "search_after_tag_soft_delete_or_restore",
            source_table: "tags",
            event: TriggerEvent::UpdateOf("deleted_at"),
            when: Some("(OLD.deleted_at IS NULL) != (NEW.deleted_at IS NULL)"),
            body: BodyKind::TagsSoftDeleteOrRestore,
        },
        FtsAggregation {
            name: "search_after_tags_delete",
            source_table: "tags",
            event: TriggerEvent::Delete,
            when: None,
            body: BodyKind::TagsDelete,
        },
        FtsAggregation {
            name: "transcript_search_after_segment_insert",
            source_table: "transcript_segment",
            event: TriggerEvent::Insert,
            when: None,
            body: BodyKind::TranscriptSegmentAfterInsert,
        },
        FtsAggregation {
            name: "transcript_search_after_segment_delete",
            source_table: "transcript_segment",
            event: TriggerEvent::Delete,
            when: None,
            body: BodyKind::TranscriptSegmentAfterDelete,
        },
        FtsAggregation {
            name: "transcript_search_after_segment_update",
            source_table: "transcript_segment",
            event: TriggerEvent::Update,
            when: None,
            body: BodyKind::TranscriptSegmentAfterUpdate,
        },
    ]
}

/// The triggers, in the order in which they are made.
pub fn fts_aggregations() -> (r: Vec<FtsAggregation>)
    ensures
        r@ == fts_table(),
{
    vec![
        FtsAggregation {
            name: "sc_after_insert",
            source_table: "search_content",
            event: TriggerEvent::Insert,
            when: None,
            body: BodyKind::SearchContentAfterInsert,
        },
        FtsAggregation {
            name: "sc_after_update",
            source_table: "search_content",
            event: TriggerEvent::Update,
            when: None,
            body: BodyKind::SearchContentAfterUpdate,
        },
        FtsAggregation {
            name: "sc_after_delete",
            source_table: "search_content",
            event: TriggerEvent::Delete,
            when: None,
            body: BodyKind::SearchContentAfterDelete,
        },
        FtsAggregation {
            name: "search_after_file_locations_insert",
            source_table: "file_locations",
            event: TriggerEvent::Insert,
            when: Some("NEW.deleted_at IS NULL"),
            body: BodyKind::FileLocationsInsert,
        },
        FtsAggregation {
            name: "search_after_location_hash_change_seed",
            source_table: "file_locations",
            event: TriggerEvent::UpdateOf("blake3_hash"),
            when: Some("OLD.blake3_hash != NEW.blake3_hash AND NEW.deleted_at IS NULL"),
            body: BodyKind::LocationHashChangeSeed,
        },
        FtsAggregation {
            name: "search_after_location_rename",
            source_table: "file_locations",
            event: TriggerEvent::UpdateOf("relative_path"),
            when: Some(RENAME_GUARD),
            body: BodyKind::RenameRepresentative,
        },
        FtsAggregation {
            name: "search_after_location_soft_delete",
            source_table: "file_locations",
            event: TriggerEvent::UpdateOf("deleted_at"),
            when: Some("OLD.deleted_at IS NULL AND NEW.deleted_at IS NOT NULL"),
            body: BodyKind::LocationSoftDelete,
        },
        FtsAggregation {
            name: "search_after_location_restore",
            source_table: "file_locations",
            event: TriggerEvent::UpdateOf("deleted_at"),
            when: Some("OLD.deleted_at IS NOT NULL AND NEW.deleted_at IS NULL"),
            body: BodyKind::LocationRestore,
        },
        FtsAggregation {
            name: "search_after_metadata_insert",
            source_table: "file_metadata",
            event: TriggerEvent::Insert,
            when: Some("NEW.deleted_at IS NULL"),
            body: BodyKind::MetadataInsert,
        },
        FtsAggregation {
            name: "search_after_metadata_update",
            source_table: "file_metadata",
            event: TriggerEvent::Update,
            when: None,
            body: BodyKind::MetadataUpdate,
        },
        FtsAggregation {
            name: "search_after_file_tags_insert",
            source_table: "file_tags",
            event: TriggerEvent::Insert,
            when: Some("NEW.deleted_at IS NULL"),
            body: BodyKind::FileTagsInsert,
        },
        FtsAggregation {
            name: "search_after_file_tags_update",
            source_table: "file_tags",
            event: TriggerEvent::Update,
            when: None,
            body: BodyKind::FileTagsUpdate,
        },
        FtsAggregation {
            name: "search_after_tags_name_update",
            source_table: "tags",
            event: TriggerEvent::UpdateOf("name"),
            when: Some("OLD.name != NEW.name"),
            body: BodyKind::TagsNameUpdate,
        },
        FtsAggregation {
            name: "search_after_tag_soft_delete_or_restore",
            source_table: "tags",
            event: TriggerEvent::UpdateOf("deleted_at"),
            when: Some("(OLD.deleted_at IS NULL) != (NEW.deleted_at IS NULL)"),
            body: BodyKind::TagsSoftDeleteOrRestore,
        },
        FtsAggregation {
            name: "search_after_tags_delete",
            source_table: "tags",
            event: TriggerEvent::Delete,
            when: None,
            body: BodyKind::TagsDelete,
        },
        FtsAggregation {
            name: "transcript_search_after_segment_insert",
            source_table: "transcript_segment",
            event: TriggerEvent::Insert,
            when: None,
            body: BodyKind::TranscriptSegmentAfterInsert,
        },
        FtsAggregation {
            name: "transcript_search_after_segment_delete",
            source_table: "transcript_segment",
            event: TriggerEvent::Delete,
            when: None,
            body: BodyKind::TranscriptSegmentAfterDelete,
        },
        FtsAggregation {
            name: "transcript_search_after_segment_update",
            source_table: "transcript_segment",
            event: TriggerEvent::Update,
            when: None,
            body: BodyKind::TranscriptSegmentAfterUpdate,
        },
    ]
}

/// There are eighteen triggers, no two of them with the same name, and none with
/// the name of a trigger that no longer exists.
pub proof fn law_trigger_names_are_distinct(i: int, j: int, k: int)
    requires
        0 <= i < fts_table().len(),
        0 <= j < fts_table().len(),
        0 <= k < legacy_names().len(),
    ensures
        fts_table().len() == 18,
        fts_table()[i].name@ == fts_table()[j].name@ ==> i == j,
        fts_table()[i].name@ != legacy_names()[k]@,
{
    reveal_strlit("sc_after_insert");
    reveal_strlit("sc_after_update");
    reveal_strlit("sc_after_delete");
    reveal_strlit("search_after_file_locations_insert");
    reveal_strlit("search_after_location_hash_change_seed");
    reveal_strlit("search_after_location_rename");
    reveal_strlit("search_after_location_soft_delete");
    reveal_strlit("search_after_location_restore");
    reveal_strlit("search_after_metadata_insert");
    reveal_strlit("search_after_metadata_update");
    reveal_strlit("search_after_file_tags_insert");
    reveal_strlit("search_after_file_tags_update");
    reveal_strlit("search_after_tags_name_update");
    reveal_strlit("search_after_tag_soft_delete_or_restore");
    reveal_strlit("search_after_tags_delete");
    reveal_strlit("transcript_search_after_segment_insert");
    reveal_strlit("transcript_search_after_segment_delete");
    reveal_strlit("transcript_search_after_segment_update");
    reveal_strlit("search_after_location_hash_change");
    reveal_strlit("search_after_location_hash_change_retire");
    assert("sc_after_insert"@.len() == 15);
    assert("sc_after_update"@.len() == 15);
    assert("sc_after_delete"@.len() == 15);
    assert("search_after_file_locations_insert"@.len() == 34);
    assert("search_after_location_hash_change_seed"@.len() == 38);
    assert("search_after_location_rename"@.len() == 28);
    assert("search_after_location_soft_delete"@.len() == 33);
    assert("search_after_location_restore"@.len() == 29);
    assert("search_after_metadata_insert"@.len() == 28);
    assert("search_after_metadata_update"@.len() == 28);
    assert("search_after_file_tags_insert"@.len() == 29);
    assert("search_after_file_tags_update"@.len() == 29);
    assert("search_after_tags_name_update"@.len() == 29);
    assert("search_after_tag_soft_delete_or_restore"@.len() == 39);
    assert("search_after_tags_delete"@.len() == 24);
    assert("transcript_search_after_segment_insert"@.len() == 38);
    assert("transcript_search_after_segment_delete"@.len() == 38);
    assert("transcript_search_after_segment_update"@.len() == 38);
    assert("search_after_location_hash_change"@.len() == 33);
    assert("search_after_location_hash_change_retire"@.len() == 40);
    assert("sc_after_insert"@[9] == 'i' && "sc_after_update"@[9] == 'u');
    assert("sc_after_insert"@[9] == 'i' && "sc_after_delete"@[9] == 'd');
    assert("sc_after_update"@[9] == 'u' && "sc_after_delete"@[9] == 'd');
    assert("search_after_location_hash_change_seed"@[0] == 's' && "transcript_search_after_segment_insert"@[0] == 't');
    assert("search_after_location_hash_change_seed"@[0] == 's' && "transcript_search_after_segment_delete"@[0] == 't');
    assert("search_after_location_hash_change_seed"@[0] == 's' && "transcript_search_after_segment_update"@[0] == 't');
    assert("search_after_location_rename"@[13] == 'l' && "search_after_metadata_insert"@[13] == 'm');
    assert("search_after_location_rename"@[13] == 'l' && "search_after_metadata_update"@[13] == 'm');
    assert("search_after_location_soft_delete"@[22] == 's' && "search_after_location_hash_change"@[22] == 'h');
    assert("search_after_location_restore"@[13] == 'l' && "search_after_file_tags_insert"@[13] == 'f');
    assert("search_after_location_restore"@[13] == 'l' && "search_after_file_tags_update"@[13] == 'f');
    assert("search_after_location_restore"@[13] == 'l' && "search_after_tags_name_update"@[13] == 't');
    assert("search_after_metadata_insert"@[22] == 'i' && "search_after_metadata_update"@[22] == 'u');
    assert("search_after_file_tags_insert"@[23] == 'i' && "search_after_file_tags_update"@[23] == 'u');
    assert("search_after_file_tags_insert"@[13] == 'f' && "search_after_tags_name_update"@[13] == 't');
    assert("search_after_file_tags_update"@[13] == 'f' && "search_after_tags_name_update"@[13] == 't');
    assert("transcript_search_after_segment_insert"@[32] == 'i' && "transcript_search_after_segment_delete"@[32] == 'd');
    assert("transcript_search_after_segment_insert"@[32] == 'i' && "transcript_search_after_segment_update"@[32] == 'u');
    assert("transcript_search_after_segment_delete"@[32] == 'd' && "transcript_search_after_segment_update"@[32] == 'u');
}

} // verus!
