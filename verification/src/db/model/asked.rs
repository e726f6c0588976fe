//! What is looked for: each query on one table finds the rows that it is asked for,
//! and shows of them the columns that are read.
use vstd::prelude::*;
use vstd::string::*;

use crate::db::file_repo::{
    colliding_query, collision_group_query, count_locations_query, count_missing_query, list_file_locations_query,
    list_files_needing_backfill_query, list_files_pending_full_hash_query,
    list_locations_for_verify_query, lookup_by_file_uuid_query,
};
use crate::db::identity_cache_repo::lookup_query;
use crate::db::lists::{collisions, file_hash, tags_of_files, List};
use crate::db::lookups::Lookup;
use crate::db::metadata_repo::{
    find_by_hash_query, list_with_metadata_query,
};
use crate::db::model::cache::CacheLine;
use crate::db::model::columns::{
    lemma_file_identity_cache_columns, lemma_file_locations_columns, lemma_file_metadata_columns,
    lemma_file_tags_columns, lemma_files_columns, lemma_tags_columns, lemma_volume_mounts_columns,
    lemma_volumes_columns,
};
use crate::db::model::files::{FileEntry, LocationEntry};
use crate::db::model::meaning::{lemma_hits, lemma_metadata_row};
use crate::db::model::metadata::MetadataEntry;
use crate::db::model::tags::{LinkEntry, TagEntry};
use crate::db::model::volumes::{goes_by, MountEntry, VolumeEntry};
use crate::db::search_repo::{rank, search_query, search_text};
use crate::db::shape::{Form, Verb};
use crate::db::sql::{Bound, SqlCall, Stamp};
use crate::db::tag_repo::{
    count_files_for_tag_query, files_with_tag_query, list_tags_query, tags_for_hashes_query,
};
use crate::db::volume_repo::list_query;
use crate::db::writer::cache::CacheWriteCmd;
use crate::db::writer::file::{FileArm, FileWriteCmd};
use crate::db::writer::job::{Command, Decision, OnlyLookup};
use crate::db::writer::metadata::MetadataWriteCmd;
use crate::db::writer::tag::{TagArm, TagWriteCmd};
use crate::db::writer::volume::{
    from_fs_uuid, from_guid, from_label, mount_lookup, VolumeArm, VolumeStep,
};
use crate::errors::CoreError;
use crate::ids::Uuid;
use crate::metadata::MediaMetadata;
use crate::ports::identity_cache::{CacheEntry, CacheKey};
use crate::types::{
    BlakeHash, DeviceId, FileUuid, HashedFile, MediaPath, VolumeId, VolumeIdentifiers,
};

verus! {

/// The values bound to a call.
pub open spec fn values(call: SqlCall) -> Seq<Bound> {
    Seq::new(call.params@.len(), |i: int| call.params@[i]@)
}

/// Whether a call is a query on a table.
pub open spec fn queries(call: SqlCall, form: Form, table: Seq<char>) -> bool {
    call.sql@ == form.text() && form.verb == Verb::Select && form.table == table
}

/// Whether a call counts the rows of a table that pass its tests.
pub open spec fn counts(call: SqlCall, form: Form, table: Seq<char>) -> bool {
    call.sql@ == form.text() && form.verb == Verb::Count && form.table == table
}

/// Whether a query shows these columns, in this order.
pub open spec fn shows_columns(form: Form, names: Seq<Seq<char>>) -> bool {
    form.columns.len() == names.len() && forall|k: int|
        0 <= k < names.len() ==> (#[trigger] form.columns[k]).column@ == names[k]
}

/// An upsert of a file asks for the file with its hash.
pub proof fn law_upsert_asks_for_its_file(
    file: HashedFile,
    device: DeviceId,
    quick_hash: Option<BlakeHash>,
    arm: FileArm,
    call: SqlCall,
    f: FileEntry,
)
    requires
        (FileWriteCmd::UpsertFile { file, device, quick_hash }).looks_for(arm, call),
    ensures
        queries(call, Lookup::File.form(), "files"@),
        shows_columns(
            Lookup::File.form(),
            seq!["file_size"@, "device_id"@, "quick_hash"@],
        ),
        Lookup::File.form().hits(values(call), f.row()) <==> f.hash == Some(file.hash.hex()),
{
    lemma_files_columns();
    lemma_hits(Lookup::File.form(), values(call), f.row());
}

/// An upsert of a location asks for the live location at its path.
pub proof fn law_upsert_asks_for_its_location(
    hash: BlakeHash,
    volume: VolumeId,
    path: MediaPath,
    device: DeviceId,
    arm: FileArm,
    call: SqlCall,
    l: LocationEntry,
)
    requires
        (FileWriteCmd::UpsertLocation { hash, volume, path, device }).looks_for(arm, call),
    ensures
        queries(call, Lookup::Location.form(), "file_locations"@),
        shows_columns(
            Lookup::Location.form(),
            seq!["id"@, "blake3_hash"@, "device_id"@],
        ),
        Lookup::Location.form().hits(values(call), l.row()) <==> l.live_at(volume.0.text(), path@),
{
    lemma_file_locations_columns();
    lemma_hits(Lookup::Location.form(), values(call), l.row());
}

/// A move asks for the live location at the new path.
pub proof fn law_move_asks_for_its_destination(
    volume: VolumeId,
    old_path: MediaPath,
    new_path: MediaPath,
    device: DeviceId,
    arm: FileArm,
    call: SqlCall,
    l: LocationEntry,
)
    requires
        (FileWriteCmd::UpdateLocationPath { volume, old_path, new_path, device }).looks_for(arm, call),
    ensures
        queries(call, Lookup::LocationId.form(), "file_locations"@),
        shows_columns(
            Lookup::LocationId.form(),
            seq!["id"@],
        ),
        Lookup::LocationId.form().hits(values(call), l.row()) <==> l.live_at(volume.0.text(), new_path@),
{
    lemma_file_locations_columns();
    lemma_hits(Lookup::LocationId.form(), values(call), l.row());
}

/// An upsert of metadata asks for the live metadata of its hash.
pub proof fn law_upsert_asks_for_its_metadata(
    record: MediaMetadata,
    device: DeviceId,
    stamp: Stamp,
    arm: OnlyLookup,
    call: SqlCall,
    m: MetadataEntry,
)
    requires
        (MetadataWriteCmd::UpsertMetadata { record, device }).begins(
            stamp,
            Decision::Look { arm, call },
        ),
    ensures
        queries(call, Lookup::MetadataOwner.form(), "file_metadata"@),
        shows_columns(
            Lookup::MetadataOwner.form(),
            seq!["device_id"@, "mime_type"@],
        ),
        Lookup::MetadataOwner.form().hits(values(call), m.row()) <==> m.hash == record.hash.hex() && m.deleted_at is None,
{
    lemma_file_metadata_columns();
    lemma_hits(Lookup::MetadataOwner.form(), values(call), m.row());
    lemma_metadata_row(m);
}

/// Reading the metadata of a file asks for the live metadata of its hash, column by column.
pub proof fn law_read_asks_for_its_metadata(
    hash: BlakeHash,
    call: SqlCall,
    m: MetadataEntry,
)
    requires
        call_ensures(find_by_hash_query, (&hash,), call),
    ensures
        queries(call, Lookup::Metadata.form(), "file_metadata"@),
        shows_columns(
            Lookup::Metadata.form(),
            seq!["width"@, "height"@, "duration_ms"@, "captured_at"@, "camera_make"@, "camera_model"@, "codec"@, "bitrate_bps"@, "mime_type"@, "thumbnail_path"@, "thumbnail_status"@],
        ),
        Lookup::Metadata.form().hits(values(call), m.row()) <==> m.hash == hash.hex() && m.deleted_at is None,
{
    lemma_file_metadata_columns();
    lemma_hits(Lookup::Metadata.form(), values(call), m.row());
    lemma_metadata_row(m);
}

/// An upsert of a tag asks for the live tag of its name.
pub proof fn law_upsert_asks_for_its_tag(
    name: String,
    device: DeviceId,
    arm: TagArm,
    call: SqlCall,
    t: TagEntry,
)
    requires
        (TagWriteCmd::UpsertTag { name, device }).looks_for(arm, call),
    ensures
        queries(call, Lookup::Tag.form(), "tags"@),
        shows_columns(
            Lookup::Tag.form(),
            seq!["id"@, "first_seen"@],
        ),
        Lookup::Tag.form().hits(values(call), t.row()) <==> t.live_as(name@),
{
    lemma_tags_columns();
    lemma_hits(Lookup::Tag.form(), values(call), t.row());
}

/// Attaching a tag asks for the live attachment of that tag to that hash.
pub proof fn law_attach_asks_for_its_attachment(
    hash: BlakeHash,
    tag_id: Uuid,
    device: DeviceId,
    arm: TagArm,
    call: SqlCall,
    l: LinkEntry,
)
    requires
        (TagWriteCmd::Attach { hash, tag_id, device }).looks_for(arm, call),
    ensures
        queries(call, Lookup::Link.form(), "file_tags"@),
        shows_columns(
            Lookup::Link.form(),
            seq!["id"@],
        ),
        Lookup::Link.form().hits(values(call), l.row()) <==> l.live_for(hash.hex(), tag_id.text()),
{
    lemma_file_tags_columns();
    lemma_hits(Lookup::Link.form(), values(call), l.row());
}

/// Listing the files of a tag asks for its live attachments.
pub proof fn law_list_asks_for_the_hashes_of_a_tag(
    tag_id: Uuid,
    call: SqlCall,
    l: LinkEntry,
)
    requires
        call_ensures(files_with_tag_query, (tag_id,), call),
    ensures
        queries(call, Lookup::TaggedHashes.form(), "file_tags"@),
        shows_columns(
            Lookup::TaggedHashes.form(),
            seq!["blake3_hash"@],
        ),
        Lookup::TaggedHashes.form().hits(values(call), l.row()) <==> l.tag == tag_id.text() && l.deleted_at is None,
{
    lemma_file_tags_columns();
    lemma_hits(Lookup::TaggedHashes.form(), values(call), l.row());
}

/// Counting the files of a tag counts its live attachments.
pub proof fn law_count_asks_for_the_hashes_of_a_tag(
    tag_id: Uuid,
    call: SqlCall,
    l: LinkEntry,
)
    requires
        call_ensures(count_files_for_tag_query, (tag_id,), call),
    ensures
        counts(call, Lookup::TaggedCount.form(), "file_tags"@),
        Lookup::TaggedCount.form().hits(values(call), l.row()) <==> l.tag == tag_id.text() && l.deleted_at is None,
{
    lemma_file_tags_columns();
    lemma_hits(Lookup::TaggedCount.form(), values(call), l.row());
}

/// An upsert of an entry asks for the live entry under its whole key.
pub proof fn law_upsert_asks_for_its_cache_entry(
    key: CacheKey,
    entry: CacheEntry,
    stamp: Stamp,
    arm: OnlyLookup,
    call: SqlCall,
    l: CacheLine,
)
    requires
        (CacheWriteCmd::UpsertCacheRow { key, entry }).begins(stamp, Decision::Look { arm, call }),
    ensures
        queries(call, Lookup::CacheId.form(), "file_identity_cache"@),
        shows_columns(
            Lookup::CacheId.form(),
            seq!["id"@],
        ),
        Lookup::CacheId.form().hits(values(call), l.row()) <==> l.live_under(key),
{
    lemma_file_identity_cache_columns();
    lemma_hits(Lookup::CacheId.form(), values(call), l.row());
}

/// Reading an entry asks for the live entry under its whole key.
pub proof fn law_read_asks_for_its_cache_entry(
    key: CacheKey,
    call: SqlCall,
    l: CacheLine,
)
    requires
        call_ensures(lookup_query, (&key,), Ok::<SqlCall, CoreError>(call)),
    ensures
        queries(call, Lookup::CacheEntry.form(), "file_identity_cache"@),
        shows_columns(
            Lookup::CacheEntry.form(),
            seq!["quick_hash"@, "full_hash"@],
        ),
        Lookup::CacheEntry.form().hits(values(call), l.row()) <==> l.live_under(key),
{
    lemma_file_identity_cache_columns();
    lemma_hits(Lookup::CacheEntry.form(), values(call), l.row());
}

/// The first question for a volume with a partition GUID is by that GUID.
pub proof fn law_volume_is_asked_for_by_guid(
    ident: VolumeIdentifiers,
    device: DeviceId,
    stamp: Stamp,
    arm: VolumeArm,
    call: SqlCall,
    v: VolumeEntry,
)
    requires
        ident.gpt_partition_guid is Some,
        from_guid(ident, device, stamp, VolumeStep::Lookup { arm, call }),
    ensures
        queries(call, Lookup::VolumeByGuid.form(), "volumes"@),
        shows_columns(
            Lookup::VolumeByGuid.form(),
            seq!["volume_id"@],
        ),
        Lookup::VolumeByGuid.form().hits(values(call), v.row()) <==> goes_by(v, ident, VolumeArm::Guid),
{
    lemma_volumes_columns();
    lemma_hits(Lookup::VolumeByGuid.form(), values(call), v.row());
}

/// The next question for a volume with a file-system UUID is by that UUID.
pub proof fn law_volume_is_asked_for_by_fs_uuid(
    ident: VolumeIdentifiers,
    device: DeviceId,
    stamp: Stamp,
    arm: VolumeArm,
    call: SqlCall,
    v: VolumeEntry,
)
    requires
        ident.fs_uuid is Some,
        from_fs_uuid(ident, device, stamp, VolumeStep::Lookup { arm, call }),
    ensures
        queries(call, Lookup::VolumeByFsUuid.form(), "volumes"@),
        shows_columns(
            Lookup::VolumeByFsUuid.form(),
            seq!["volume_id"@],
        ),
        Lookup::VolumeByFsUuid.form().hits(values(call), v.row()) <==> goes_by(v, ident, VolumeArm::FsUuid),
{
    lemma_volumes_columns();
    lemma_hits(Lookup::VolumeByFsUuid.form(), values(call), v.row());
}

/// The last question for a volume with a label is by label and capacity.
pub proof fn law_volume_is_asked_for_by_label(
    ident: VolumeIdentifiers,
    device: DeviceId,
    stamp: Stamp,
    arm: VolumeArm,
    call: SqlCall,
    v: VolumeEntry,
)
    requires
        ident.label is Some,
        from_label(ident, device, stamp, VolumeStep::Lookup { arm, call }),
    ensures
        queries(call, Lookup::VolumeByLabel.form(), "volumes"@),
        shows_columns(
            Lookup::VolumeByLabel.form(),
            seq!["volume_id"@],
        ),
        Lookup::VolumeByLabel.form().hits(values(call), v.row()) <==> goes_by(v, ident, VolumeArm::LabelAndCapacity),
{
    lemma_volumes_columns();
    lemma_hits(Lookup::VolumeByLabel.form(), values(call), v.row());
}

/// Recording a mount asks for the live mount of the volume at that path of the machine.
pub proof fn law_mount_is_asked_for_at_its_path(
    volume: VolumeId,
    machine: DeviceId,
    mount: &str,
    call: SqlCall,
    m: MountEntry,
)
    requires
        call_ensures(mount_lookup, (volume, machine, mount), call),
    ensures
        queries(call, Lookup::Mount.form(), "volume_mounts"@),
        shows_columns(
            Lookup::Mount.form(),
            seq!["id"@],
        ),
        Lookup::Mount.form().hits(values(call), m.row()) <==> m.live_on(volume.0.text(), machine.0.text()) && m.path == mount@,
{
    lemma_volume_mounts_columns();
    lemma_hits(Lookup::Mount.form(), values(call), m.row());
}

/// The count of locations counts the live ones.
pub proof fn law_live_locations_are_counted(
    call: SqlCall,
    l: LocationEntry,
)
    requires
        call_ensures(count_locations_query, (), call),
    ensures
        counts(call, Lookup::LocationCount.form(), "file_locations"@),
        Lookup::LocationCount.form().hits(values(call), l.row()) <==> l.deleted_at is None,
{
    lemma_file_locations_columns();
    lemma_hits(Lookup::LocationCount.form(), values(call), l.row());
}

/// The count of missing locations counts the live ones that are missing.
pub proof fn law_missing_locations_are_counted(
    call: SqlCall,
    l: LocationEntry,
)
    requires
        call_ensures(count_missing_query, (), call),
    ensures
        counts(call, Lookup::MissingCount.form(), "file_locations"@),
        Lookup::MissingCount.form().hits(values(call), l.row()) <==> l.status == "missing"@ && l.deleted_at is None,
{
    lemma_file_locations_columns();
    lemma_hits(Lookup::MissingCount.form(), values(call), l.row());
}

/// Whether a call binds a limit: the number asked for, as far as 63 bits go.
pub open spec fn binds_limit(call: SqlCall, k: int, limit: int) -> bool {
    0 <= k < call.params@.len() && call.params@[k]@ == Bound::Int(
        if limit <= i64::MAX {
            limit
        } else {
            i64::MAX as int
        },
    )
}

/// A list of locations is asked for up to its limit, and for one volume where one is
/// named.
pub proof fn law_list_asks_for_its_volume_and_limit(
    limit: usize,
    volume: Option<VolumeId>,
    call: SqlCall,
)
    requires
        call_ensures(list_file_locations_query, (limit, volume), call),
    ensures
        binds_limit(call, call.params@.len() - 1, limit as int),
        volume is None ==> call.params@.len() == 1 && call.sql@ == List::Locations.sql(),
        volume matches Some(v) ==> call.params@.len() == 2 && call.params@[0]@ == Bound::Text(
            v.0.text(),
        ) && call.sql@ == List::LocationsOfVolume.sql(),
{
}

/// A list of locations with metadata is asked for up to its limit, and for one volume
/// where one is named.
pub proof fn law_metadata_list_asks_for_its_volume_and_limit(
    limit: usize,
    volume: Option<VolumeId>,
    call: SqlCall,
)
    requires
        call_ensures(list_with_metadata_query, (limit, volume), call),
    ensures
        binds_limit(call, call.params@.len() - 1, limit as int),
        volume is None ==> call.params@.len() == 1 && call.sql@ == List::WithMetadata.sql(),
        volume matches Some(v) ==> call.params@.len() == 2 && call.params@[0]@ == Bound::Text(
            v.0.text(),
        ) && call.sql@ == List::WithMetadataOfVolume.sql(),
{
}

/// The files to be fingerprinted, and those to be hashed, are asked for up to the limit.
pub proof fn law_work_is_asked_for_up_to_its_limit(
    limit: u32,
    backfill: SqlCall,
    pending_limit: usize,
    pending: SqlCall,
)
    requires
        call_ensures(list_files_needing_backfill_query, (limit,), backfill),
        call_ensures(list_files_pending_full_hash_query, (pending_limit,), pending),
    ensures
        backfill.sql@ == List::Backfill.form().first_of_each_text(file_hash()),
        backfill.params@.len() == 1,
        binds_limit(backfill, 0, limit as int),
        pending.sql@ == List::Pending.sql(),
        pending.params@.len() == 1,
        binds_limit(pending, 0, pending_limit as int),
{
}

/// A file is asked for by its identifier, locations to verify by the machine, volumes
/// by the machine, and a group by its quick hash.
pub proof fn law_lists_ask_for_what_they_are_of(
    file_uuid: FileUuid,
    by_uuid: SqlCall,
    machine: DeviceId,
    verify: SqlCall,
    volumes: SqlCall,
    quick_hash: &str,
    group: SqlCall,
)
    requires
        call_ensures(lookup_by_file_uuid_query, (file_uuid,), by_uuid),
        call_ensures(list_locations_for_verify_query, (machine,), verify),
        call_ensures(list_query, (machine,), volumes),
        call_ensures(collision_group_query, (quick_hash,), group),
    ensures
        by_uuid.sql@ == List::ByUuid.sql(),
        verify.sql@ == List::ForVerify.sql(),
        volumes.sql@ == List::Volumes.sql(),
        group.sql@ == List::Group.sql(),
        values(by_uuid) =~= seq![Bound::Text(file_uuid.0.text())],
        values(verify) =~= seq![Bound::Text(machine.0.text())],
        values(volumes) =~= seq![Bound::Text(machine.0.text())],
        values(group) =~= seq![Bound::Text(quick_hash@)],
{
}

/// The query for colliding quick hashes asks for no value.
pub proof fn law_collisions_are_asked_for(call: SqlCall)
    requires
        call_ensures(colliding_query, (), call),
    ensures
        call.sql@ == collisions().text(),
        call.params@.len() == 0,
{
}

/// The list of tags asks for no value.
pub proof fn law_tag_list_asks_for_all(call: SqlCall)
    requires
        call_ensures(list_tags_query, (), call),
    ensures
        call.sql@ == List::Tags.sql(),
        call.params@.len() == 0,
{
}

/// A search asks for what was typed, best match first, up to its limit.
pub proof fn law_search_asks_for_what_was_typed(query: &str, limit: u32, call: SqlCall)
    requires
        call_ensures(search_query, (query, limit), call),
    ensures
        call.sql@ == search_text(List::VolumeOfHit.form(), rank(), 2),
        rank().text() == "search_index"@ + "."@ + "rank"@,
        values(call) =~= seq![Bound::Text(query@), Bound::Int(limit as int)],
{
}

/// The tags of several files are asked for by all their hashes, each once and in order.
pub proof fn law_tags_are_asked_for_by_all_hashes(hashes: Vec<BlakeHash>, call: Option<SqlCall>)
    requires
        call_ensures(tags_for_hashes_query, (&hashes,), call),
    ensures
        call is None <==> hashes@.len() == 0,
        call matches Some(c) ==> c.sql@ == tags_of_files(hashes@.len() as u64).text(),
        call matches Some(c) ==> c.params@.len() == hashes@.len() && forall|k: int|
            0 <= k < hashes@.len() ==> (#[trigger] c.params@[k])@ == Bound::Text(hashes@[k].hex()),
{
}

} // verus!
