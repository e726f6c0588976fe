//! What is stored of a command: each column that it writes gets what the command was
//! given for it.
use vstd::prelude::*;
use vstd::string::*;

use crate::db::manifest::manifest_statements;
use crate::db::model::columns::{
    lemma_file_identity_cache_columns, lemma_file_locations_columns, lemma_file_metadata_columns,
    lemma_file_tags_columns, lemma_files_columns, lemma_manifest_files_columns,
    lemma_manifest_meta_columns, lemma_tags_columns, lemma_transcript_columns,
    lemma_transcript_segment_columns, lemma_volume_mounts_columns, lemma_volumes_columns,
};
use crate::db::model::meaning::{adds_to, changes_in, lemma_hits};
use crate::db::shape::{no_file, Form, Row, Verb};
use crate::db::sql::{Bound, Stamp};
use crate::db::writer::cache::CacheWriteCmd;
use crate::db::writer::file::{
    distinct_statements, upsert_file_outcome, upsert_location_outcome, FileFound, FilePlan,
    FileWriteCmd,
};
use crate::db::writer::metadata::{
    duration_fits, upsert_metadata_outcome, ExistingMetadata, MetadataPlan, MetadataWriteCmd,
};
use crate::db::writer::tag::{TagFound, TagPlan, TagWriteCmd};
use crate::db::writer::transcript::TranscriptInsert;
use crate::db::writer::volume::{creates, mount_statements, touches, VolumeStatement, VolumeStep};
use crate::ids::Uuid;
use crate::metadata::MediaMetadata;
use crate::ports::identity_cache::{CacheEntry, CacheKey};
use crate::types::{
    BlakeHash, DeviceId, FileUuid, HashedFile, LocationStatus, MediaPath, UpsertOutcome, VolumeId,
    VolumeIdentifiers,
};

verus! {

/// Whether a column has an optional text: the text, or NULL where there is none.
pub open spec fn has_text(v: Bound, t: Option<String>) -> bool {
    match t {
        Some(s) => v == Bound::Text(s@),
        None => v == Bound::Null,
    }
}

/// Whether a column has an optional hash.
pub open spec fn has_hash(v: Bound, h: Option<BlakeHash>) -> bool {
    match h {
        Some(hash) => v == Bound::Text(hash.hex()),
        None => v == Bound::Null,
    }
}

/// Whether a column has an optional number.
pub open spec fn has_number(v: Bound, n: Option<u32>) -> bool {
    match n {
        Some(x) => v == Bound::Int(x as int),
        None => v == Bound::Null,
    }
}

/// Whether a column has an optional long number.
pub open spec fn has_long_number(v: Bound, n: Option<u64>) -> bool {
    match n {
        Some(x) => v == Bound::Int(x as int),
        None => v == Bound::Null,
    }
}

/// A file that is not stored yet is stored as it was given: its hash, its whole size and
/// its quick hash, under a fresh identifier.
#[verifier::spinoff_prover]
pub proof fn law_new_file_is_stored_as_given(
    file: HashedFile,
    device: DeviceId,
    quick_hash: Option<BlakeHash>,
    stamp: Stamp,
    found: FileFound,
    plan: FilePlan,
    before: Row,
)
    requires
        file.discovered.size.0 <= i64::MAX,
        (FileWriteCmd::UpsertFile { file, device, quick_hash }).planned(stamp, found, plan),
        found.file is None,
    ensures
        plan.statements@.len() == 1,
        ({
            let s = plan.statements@[0];
            let form = s.form();
            let row = form.makes(s.bound(), before, no_file());
            &&& adds_to(form, "files"@)
            &&& row["blake3_hash"@] == Bound::Text(file.hash.hex())
            &&& row["file_uuid"@] == Bound::Text(stamp.fresh.text())
            &&& row["file_size"@] == Bound::Int(file.discovered.size.0 as int)
            &&& has_hash(row["quick_hash"@], quick_hash)
            &&& row["first_seen"@] == Bound::Text(stamp.now@)
            &&& row["updated_at"@] == Bound::Text(stamp.now@)
            &&& row["device_id"@] == Bound::Text(device.0.text())
            &&& row["hlc"@] == Bound::Int(stamp.hlc as int)
            &&& row["deleted_at"@] == before["deleted_at"@]
            &&& row["verified_distinct"@] == before["verified_distinct"@]
        }),
{
    lemma_files_columns();
    let s = plan.statements@[0];
    reveal_with_fuel(Form::given, 10);
    assert(s.form().columns.len() == 8);
}

/// A file that is stored and changed gets the size and the device that were given; a
/// quick hash only where it has none. Its identifier and its first sighting stay.
#[verifier::spinoff_prover]
pub proof fn law_updated_file_is_stored_as_given(
    file: HashedFile,
    device: DeviceId,
    quick_hash: Option<BlakeHash>,
    stamp: Stamp,
    found: FileFound,
    plan: FilePlan,
    before: Row,
)
    requires
        file.discovered.size.0 <= i64::MAX,
        (FileWriteCmd::UpsertFile { file, device, quick_hash }).planned(stamp, found, plan),
        found.file is Some,
        upsert_file_outcome(file.discovered.size.0 as i64, device, quick_hash, found.file)
            == UpsertOutcome::Updated,
    ensures
        plan.statements@.len() == 1,
        ({
            let s = plan.statements@[0];
            let form = s.form();
            let row = form.makes(s.bound(), before, no_file());
            &&& changes_in(form, "files"@)
            &&& form.hits(s.bound(), before) <==> before["blake3_hash"@] == Bound::Text(file.hash.hex())
            &&& row["file_size"@] == Bound::Int(file.discovered.size.0 as int)
            &&& row["updated_at"@] == Bound::Text(stamp.now@)
            &&& row["device_id"@] == Bound::Text(device.0.text())
            &&& row["hlc"@] == Bound::Int(stamp.hlc as int)
            &&& if before["quick_hash"@] == Bound::Null {
                has_hash(row["quick_hash"@], quick_hash)
            } else {
                row["quick_hash"@] == before["quick_hash"@]
            }
            &&& row["blake3_hash"@] == before["blake3_hash"@]
            &&& row["file_uuid"@] == before["file_uuid"@]
            &&& row["first_seen"@] == before["first_seen"@]
            &&& row["deleted_at"@] == before["deleted_at"@]
            &&& row["verified_distinct"@] == before["verified_distinct"@]
        }),
{
    lemma_files_columns();
    let s = plan.statements@[0];
    reveal_with_fuel(Form::given, 7);
    assert(s.form().columns.len() == 5);
    lemma_hits(s.form(), s.bound(), before);
}

/// A location that is not stored yet is stored as it was given, as an active one, with
/// the identifier of the file that has its hash.
#[verifier::spinoff_prover]
pub proof fn law_new_location_is_stored_as_given(
    hash: BlakeHash,
    volume: VolumeId,
    path: MediaPath,
    device: DeviceId,
    stamp: Stamp,
    found: FileFound,
    plan: FilePlan,
    file_of: spec_fn(Bound) -> Bound,
    before: Row,
)
    requires
        (FileWriteCmd::UpsertLocation { hash, volume, path, device }).planned(stamp, found, plan),
        found.location is None,
    ensures
        plan.statements@.len() == 1,
        ({
            let s = plan.statements@[0];
            let form = s.form();
            let row = form.makes(s.bound(), before, file_of);
            &&& adds_to(form, "file_locations"@)
            &&& row["id"@] == Bound::Text(stamp.fresh.text())
            &&& row["blake3_hash"@] == Bound::Text(hash.hex())
            &&& row["file_uuid"@] == file_of(Bound::Text(hash.hex()))
            &&& row["volume_id"@] == Bound::Text(volume.0.text())
            &&& row["relative_path"@] == Bound::Text(path@)
            &&& row["status"@] == Bound::Text("active"@)
            &&& row["first_seen"@] == Bound::Text(stamp.now@)
            &&& row["updated_at"@] == Bound::Text(stamp.now@)
            &&& row["device_id"@] == Bound::Text(device.0.text())
            &&& row["hlc"@] == Bound::Int(stamp.hlc as int)
            &&& row["deleted_at"@] == before["deleted_at"@]
        }),
{
    lemma_file_locations_columns();
    let s = plan.statements@[0];
    reveal_with_fuel(Form::given, 12);
    assert(s.form().columns.len() == 10);
}

/// A location that is stored and changed gets the hash and the device that were given;
/// all else of it stays.
#[verifier::spinoff_prover]
pub proof fn law_updated_location_is_stored_as_given(
    hash: BlakeHash,
    volume: VolumeId,
    path: MediaPath,
    device: DeviceId,
    stamp: Stamp,
    found: FileFound,
    plan: FilePlan,
    before: Row,
)
    requires
        (FileWriteCmd::UpsertLocation { hash, volume, path, device }).planned(stamp, found, plan),
        found.location is Some,
        upsert_location_outcome(hash, device, found.location) == UpsertOutcome::Updated,
    ensures
        plan.statements@.len() == 1,
        ({
            let s = plan.statements@[0];
            let form = s.form();
            let row = form.makes(s.bound(), before, no_file());
            &&& changes_in(form, "file_locations"@)
            &&& form.hits(s.bound(), before) <==> before["id"@] == Bound::Text(found.location->0.id@)
            &&& row["blake3_hash"@] == Bound::Text(hash.hex())
            &&& row["updated_at"@] == Bound::Text(stamp.now@)
            &&& row["device_id"@] == Bound::Text(device.0.text())
            &&& row["hlc"@] == Bound::Int(stamp.hlc as int)
            &&& row["id"@] == before["id"@]
            &&& row["file_uuid"@] == before["file_uuid"@]
            &&& row["volume_id"@] == before["volume_id"@]
            &&& row["relative_path"@] == before["relative_path"@]
            &&& row["status"@] == before["status"@]
            &&& row["first_seen"@] == before["first_seen"@]
            &&& row["deleted_at"@] == before["deleted_at"@]
        }),
{
    lemma_file_locations_columns();
    let s = plan.statements@[0];
    reveal_with_fuel(Form::given, 6);
    assert(s.form().columns.len() == 4);
    lemma_hits(s.form(), s.bound(), before);
}

/// Metadata that is not stored yet is stored as it was extracted, every field in its own
/// column, and waits for its thumbnail.
#[verifier::spinoff_prover]
pub proof fn law_new_metadata_is_stored_as_given(
    record: MediaMetadata,
    device: DeviceId,
    stamp: Stamp,
    found: Option<ExistingMetadata>,
    plan: MetadataPlan,
    before: Row,
)
    requires
        duration_fits(record.duration_ms),
        (MetadataWriteCmd::UpsertMetadata { record, device }).planned(stamp, found, plan),
        found is None,
    ensures
        plan.statement is Some,
        ({
            let s = plan.statement->0;
            let form = s.form();
            let row = form.makes(s.bound(), before, no_file());
            &&& adds_to(form, "file_metadata"@)
            &&& row["blake3_hash"@] == Bound::Text(record.hash.hex())
            &&& has_number(row["width"@], record.width)
            &&& has_number(row["height"@], record.height)
            &&& has_long_number(row["duration_ms"@], record.duration_ms)
            &&& has_text(row["captured_at"@], record.captured_at)
            &&& has_text(row["camera_make"@], record.camera_make)
            &&& has_text(row["camera_model"@], record.camera_model)
            &&& has_text(row["codec"@], record.codec)
            &&& has_number(row["bitrate_bps"@], record.bitrate_bps)
            &&& has_text(row["mime_type"@], record.mime_type)
            &&& row["thumbnail_status"@] == Bound::Text("pending"@)
            &&& row["extracted_at"@] == Bound::Text(stamp.now@)
            &&& row["updated_at"@] == Bound::Text(stamp.now@)
            &&& row["device_id"@] == Bound::Text(device.0.text())
            &&& row["hlc"@] == Bound::Int(stamp.hlc as int)
            &&& row["thumbnail_path"@] == before["thumbnail_path"@]
            &&& row["deleted_at"@] == before["deleted_at"@]
        }),
{
    lemma_file_metadata_columns();
    let s = plan.statement->0;
    reveal_with_fuel(Form::given, 17);
    assert(s.form().columns.len() == 15);
}

/// Metadata that is stored and changed gets what was extracted, every field in its own
/// column; the thumbnail stays.
#[verifier::spinoff_prover]
pub proof fn law_updated_metadata_is_stored_as_given(
    record: MediaMetadata,
    device: DeviceId,
    stamp: Stamp,
    found: Option<ExistingMetadata>,
    plan: MetadataPlan,
    before: Row,
)
    requires
        duration_fits(record.duration_ms),
        (MetadataWriteCmd::UpsertMetadata { record, device }).planned(stamp, found, plan),
        found is Some,
        upsert_metadata_outcome(record, device, found) == UpsertOutcome::Updated,
    ensures
        plan.statement is Some,
        ({
            let s = plan.statement->0;
            let form = s.form();
            let row = form.makes(s.bound(), before, no_file());
            &&& changes_in(form, "file_metadata"@)
            &&& form.hits(s.bound(), before) <==> before["blake3_hash"@] == Bound::Text(record.hash.hex())
            &&& has_number(row["width"@], record.width)
            &&& has_number(row["height"@], record.height)
            &&& has_long_number(row["duration_ms"@], record.duration_ms)
            &&& has_text(row["captured_at"@], record.captured_at)
            &&& has_text(row["camera_make"@], record.camera_make)
            &&& has_text(row["camera_model"@], record.camera_model)
            &&& has_text(row["codec"@], record.codec)
            &&& has_number(row["bitrate_bps"@], record.bitrate_bps)
            &&& has_text(row["mime_type"@], record.mime_type)
            &&& row["updated_at"@] == Bound::Text(stamp.now@)
            &&& row["device_id"@] == Bound::Text(device.0.text())
            &&& row["hlc"@] == Bound::Int(stamp.hlc as int)
            &&& row["blake3_hash"@] == before["blake3_hash"@]
            &&& row["thumbnail_path"@] == before["thumbnail_path"@]
            &&& row["thumbnail_status"@] == before["thumbnail_status"@]
            &&& row["extracted_at"@] == before["extracted_at"@]
            &&& row["deleted_at"@] == before["deleted_at"@]
        }),
{
    lemma_file_metadata_columns();
    let s = plan.statement->0;
    reveal_with_fuel(Form::given, 14);
    assert(s.form().columns.len() == 12);
    lemma_hits(s.form(), s.bound(), before);
}

/// What is recorded of a thumbnail is stored as it was given, in the live row of the hash;
/// what was extracted stays.
#[verifier::spinoff_prover]
pub proof fn law_thumbnail_is_stored_as_given(
    hash: BlakeHash,
    path: Option<String>,
    status: String,
    device: DeviceId,
    stamp: Stamp,
    found: Option<ExistingMetadata>,
    plan: MetadataPlan,
    before: Row,
)
    requires
        (MetadataWriteCmd::UpdateThumbnail { hash, path, status, device }).planned(stamp, found, plan),
    ensures
        plan.statement is Some,
        ({
            let s = plan.statement->0;
            let form = s.form();
            let row = form.makes(s.bound(), before, no_file());
            &&& changes_in(form, "file_metadata"@)
            &&& form.hits(s.bound(), before) <==> before["blake3_hash"@] == Bound::Text(hash.hex()) && before["deleted_at"@]
                == Bound::Null
            &&& has_text(row["thumbnail_path"@], path)
            &&& row["thumbnail_status"@] == Bound::Text(status@)
            &&& row["updated_at"@] == Bound::Text(stamp.now@)
            &&& row["device_id"@] == Bound::Text(device.0.text())
            &&& row["hlc"@] == Bound::Int(stamp.hlc as int)
            &&& row["blake3_hash"@] == before["blake3_hash"@]
            &&& row["width"@] == before["width"@]
            &&& row["height"@] == before["height"@]
            &&& row["duration_ms"@] == before["duration_ms"@]
            &&& row["captured_at"@] == before["captured_at"@]
            &&& row["camera_make"@] == before["camera_make"@]
            &&& row["camera_model"@] == before["camera_model"@]
            &&& row["codec"@] == before["codec"@]
            &&& row["bitrate_bps"@] == before["bitrate_bps"@]
            &&& row["mime_type"@] == before["mime_type"@]
            &&& row["extracted_at"@] == before["extracted_at"@]
            &&& row["deleted_at"@] == before["deleted_at"@]
        }),
{
    lemma_file_metadata_columns();
    let s = plan.statement->0;
    reveal_with_fuel(Form::given, 7);
    assert(s.form().columns.len() == 5);
    lemma_hits(s.form(), s.bound(), before);
}

/// A volume that is made is stored as it was detected: its identifiers, its label, its
/// whole capacity, and 1 exactly where it can be removed.
#[verifier::spinoff_prover]
pub proof fn law_new_volume_is_stored_as_given(
    ident: VolumeIdentifiers,
    device: DeviceId,
    stamp: Stamp,
    s: VolumeStatement,
    volume: VolumeId,
    before: Row,
)
    requires
        ident.capacity_bytes <= i64::MAX,
        creates(ident, device, stamp, VolumeStep::Write { statement: s, volume }),
    ensures
        ({
            let form = s.form();
            let row = form.makes(s.bound(), before, no_file());
            &&& adds_to(form, "volumes"@)
            &&& row["volume_id"@] == Bound::Text(volume.0.text())
            &&& has_text(row["gpt_partition_guid"@], ident.gpt_partition_guid)
            &&& has_text(row["fs_uuid"@], ident.fs_uuid)
            &&& has_text(row["volume_label"@], ident.label)
            &&& row["capacity_bytes"@] == Bound::Int(ident.capacity_bytes as int)
            &&& (ident.is_removable ==> row["is_removable"@] == Bound::Int(1)) && (!ident.is_removable ==> row["is_removable"@]
                == Bound::Int(0))
            &&& row["last_seen"@] == Bound::Text(stamp.now@)
            &&& row["updated_at"@] == Bound::Text(stamp.now@)
            &&& row["device_id"@] == Bound::Text(device.0.text())
            &&& row["hlc"@] == Bound::Int(stamp.hlc as int)
            &&& row["deleted_at"@] == before["deleted_at"@]
        }),
{
    lemma_volumes_columns();
    reveal_with_fuel(Form::given, 12);
    assert(s.form().columns.len() == 10);
}

/// Of a volume that is seen again the time, the device and the clock are stored; all else
/// of it stays.
#[verifier::spinoff_prover]
pub proof fn law_known_volume_is_stored_as_seen(
    device: DeviceId,
    stamp: Stamp,
    found: String,
    s: VolumeStatement,
    volume: VolumeId,
    before: Row,
)
    requires
        touches(device, stamp, found, VolumeStep::Write { statement: s, volume }),
    ensures
        ({
            let form = s.form();
            let row = form.makes(s.bound(), before, no_file());
            &&& changes_in(form, "volumes"@)
            &&& form.hits(s.bound(), before) <==> before["volume_id"@] == Bound::Text(found@)
            &&& row["last_seen"@] == Bound::Text(stamp.now@)
            &&& row["updated_at"@] == Bound::Text(stamp.now@)
            &&& row["device_id"@] == Bound::Text(device.0.text())
            &&& row["hlc"@] == Bound::Int(stamp.hlc as int)
            &&& row["volume_id"@] == before["volume_id"@]
            &&& row["gpt_partition_guid"@] == before["gpt_partition_guid"@]
            &&& row["fs_uuid"@] == before["fs_uuid"@]
            &&& row["volume_label"@] == before["volume_label"@]
            &&& row["capacity_bytes"@] == before["capacity_bytes"@]
            &&& row["is_removable"@] == before["is_removable"@]
            &&& row["deleted_at"@] == before["deleted_at"@]
        }),
{
    lemma_volumes_columns();
    reveal_with_fuel(Form::given, 6);
    assert(s.form().columns.len() == 4);
    lemma_hits(s.form(), s.bound(), before);
}

/// A mount that is not there yet is stored as it was given: the volume, the machine, and
/// the path.
#[verifier::spinoff_prover]
pub proof fn law_new_mount_is_stored_as_given(
    volume: VolumeId,
    machine: DeviceId,
    mount: String,
    stamp: Stamp,
    before: Row,
)
    ensures
        ({
            let s = mount_statements(volume, machine, mount, stamp, false)[1];
            let form = s.form();
            let row = form.makes(s.bound(), before, no_file());
            &&& adds_to(form, "volume_mounts"@)
            &&& row["id"@] == Bound::Text(stamp.fresh.text())
            &&& row["volume_id"@] == Bound::Text(volume.0.text())
            &&& row["machine_id"@] == Bound::Text(machine.0.text())
            &&& row["mount_path"@] == Bound::Text(mount@)
            &&& row["first_seen"@] == Bound::Text(stamp.now@)
            &&& row["updated_at"@] == Bound::Text(stamp.now@)
            &&& row["device_id"@] == Bound::Text(machine.0.text())
            &&& row["deleted_at"@] == before["deleted_at"@]
        }),
{
    lemma_volume_mounts_columns();
    let s = mount_statements(volume, machine, mount, stamp, false)[1];
    reveal_with_fuel(Form::given, 9);
    assert(s.form().columns.len() == 7);
}

/// Recording a mount retires the live mounts of the volume on the machine at other paths;
/// where they were stays.
#[verifier::spinoff_prover]
pub proof fn law_other_mounts_are_retired_as_given(
    volume: VolumeId,
    machine: DeviceId,
    mount: String,
    stamp: Stamp,
    known: bool,
    before: Row,
)
    requires
        before["mount_path"@] != Bound::Null,
    ensures
        ({
            let s = mount_statements(volume, machine, mount, stamp, known)[0];
            let form = s.form();
            let row = form.makes(s.bound(), before, no_file());
            &&& changes_in(form, "volume_mounts"@)
            &&& form.hits(s.bound(), before) <==> before["volume_id"@] == Bound::Text(volume.0.text()) && before["machine_id"@] == Bound::Text(
                machine.0.text(),
            ) && before["mount_path"@] != Bound::Text(mount@) && before["deleted_at"@] == Bound::Null
            &&& row["deleted_at"@] == Bound::Text(stamp.now@)
            &&& row["updated_at"@] == Bound::Text(stamp.now@)
            &&& row["device_id"@] == Bound::Text(machine.0.text())
            &&& row["id"@] == before["id"@]
            &&& row["volume_id"@] == before["volume_id"@]
            &&& row["machine_id"@] == before["machine_id"@]
            &&& row["mount_path"@] == before["mount_path"@]
            &&& row["first_seen"@] == before["first_seen"@]
        }),
{
    lemma_volume_mounts_columns();
    let s = mount_statements(volume, machine, mount, stamp, known)[0];
    reveal_with_fuel(Form::given, 5);
    assert(s.form().columns.len() == 3);
    lemma_hits(s.form(), s.bound(), before);
}

/// A tag that is made is stored under the name that was given, with a fresh identifier.
#[verifier::spinoff_prover]
pub proof fn law_new_tag_is_stored_as_given(
    name: String,
    device: DeviceId,
    stamp: Stamp,
    found: TagFound,
    plan: TagPlan,
    before: Row,
)
    requires
        found.tag is None,
        (TagWriteCmd::UpsertTag { name, device }).planned(stamp, found, Ok(plan)),
    ensures
        plan.statement is Some,
        ({
            let s = plan.statement->0;
            let form = s.form();
            let row = form.makes(s.bound(), before, no_file());
            &&& adds_to(form, "tags"@)
            &&& row["id"@] == Bound::Text(stamp.fresh.text())
            &&& row["name"@] == Bound::Text(name@)
            &&& row["first_seen"@] == Bound::Text(stamp.now@)
            &&& row["updated_at"@] == Bound::Text(stamp.now@)
            &&& row["device_id"@] == Bound::Text(device.0.text())
            &&& row["hlc"@] == Bound::Int(stamp.hlc as int)
            &&& row["deleted_at"@] == before["deleted_at"@]
        }),
{
    lemma_tags_columns();
    let s = plan.statement->0;
    reveal_with_fuel(Form::given, 8);
    assert(s.form().columns.len() == 6);
}

/// A tag that is attached is stored with the hash and the tag that were given.
#[verifier::spinoff_prover]
pub proof fn law_new_attachment_is_stored_as_given(
    hash: BlakeHash,
    tag_id: Uuid,
    device: DeviceId,
    stamp: Stamp,
    found: TagFound,
    plan: TagPlan,
    before: Row,
)
    requires
        found.link is None,
        (TagWriteCmd::Attach { hash, tag_id, device }).planned(stamp, found, Ok(plan)),
    ensures
        plan.statement is Some,
        ({
            let s = plan.statement->0;
            let form = s.form();
            let row = form.makes(s.bound(), before, no_file());
            &&& adds_to(form, "file_tags"@)
            &&& row["id"@] == Bound::Text(stamp.fresh.text())
            &&& row["blake3_hash"@] == Bound::Text(hash.hex())
            &&& row["tag_id"@] == Bound::Text(tag_id.text())
            &&& row["first_seen"@] == Bound::Text(stamp.now@)
            &&& row["updated_at"@] == Bound::Text(stamp.now@)
            &&& row["device_id"@] == Bound::Text(device.0.text())
            &&& row["hlc"@] == Bound::Int(stamp.hlc as int)
            &&& row["deleted_at"@] == before["deleted_at"@]
        }),
{
    lemma_file_tags_columns();
    let s = plan.statement->0;
    reveal_with_fuel(Form::given, 9);
    assert(s.form().columns.len() == 7);
}

/// An entry that is not cached yet is stored as it was given, under its whole key.
#[verifier::spinoff_prover]
pub proof fn law_new_cache_entry_is_stored_as_given(
    key: CacheKey,
    entry: CacheEntry,
    stamp: Stamp,
    before: Row,
)
    requires
        key.size_bytes <= i64::MAX,
    ensures
        ({
            let s = (CacheWriteCmd::UpsertCacheRow { key, entry }).planned(stamp, None);
            let form = s.form();
            let row = form.makes(s.bound(), before, no_file());
            &&& adds_to(form, "file_identity_cache"@)
            &&& row["id"@] == Bound::Text(stamp.fresh.text())
            &&& row["device_id"@] == Bound::Text(key.device_id.0.text())
            &&& row["volume_id"@] == Bound::Text(key.volume_id.0.text())
            &&& row["fs_file_id"@] == Bound::Int(key.fs_file_id as int)
            &&& row["size_bytes"@] == Bound::Int(key.size_bytes as int)
            &&& row["mtime_ns"@] == Bound::Int(key.mtime_ns as int)
            &&& row["quick_hash"@] == Bound::Text(entry.quick_hash.hex())
            &&& has_hash(row["full_hash"@], entry.full_hash)
            &&& row["last_verified"@] == Bound::Text(stamp.now@)
            &&& row["first_seen"@] == Bound::Text(stamp.now@)
            &&& row["updated_at"@] == Bound::Text(stamp.now@)
            &&& row["deleted_at"@] == before["deleted_at"@]
        }),
{
    lemma_file_identity_cache_columns();
    let s = (CacheWriteCmd::UpsertCacheRow { key, entry }).planned(stamp, None);
    reveal_with_fuel(Form::given, 13);
    assert(s.form().columns.len() == 11);
}

/// An entry that is cached gets the hashes that were given; its key stays.
#[verifier::spinoff_prover]
pub proof fn law_updated_cache_entry_is_stored_as_given(
    key: CacheKey,
    entry: CacheEntry,
    stamp: Stamp,
    existing: String,
    before: Row,
)
    ensures
        ({
            let s = (CacheWriteCmd::UpsertCacheRow { key, entry }).planned(stamp, Some(existing));
            let form = s.form();
            let row = form.makes(s.bound(), before, no_file());
            &&& changes_in(form, "file_identity_cache"@)
            &&& form.hits(s.bound(), before) <==> before["id"@] == Bound::Text(existing@)
            &&& row["quick_hash"@] == Bound::Text(entry.quick_hash.hex())
            &&& has_hash(row["full_hash"@], entry.full_hash)
            &&& row["last_verified"@] == Bound::Text(stamp.now@)
            &&& row["updated_at"@] == Bound::Text(stamp.now@)
            &&& row["id"@] == before["id"@]
            &&& row["device_id"@] == before["device_id"@]
            &&& row["volume_id"@] == before["volume_id"@]
            &&& row["fs_file_id"@] == before["fs_file_id"@]
            &&& row["size_bytes"@] == before["size_bytes"@]
            &&& row["mtime_ns"@] == before["mtime_ns"@]
            &&& row["first_seen"@] == before["first_seen"@]
            &&& row["deleted_at"@] == before["deleted_at"@]
        }),
{
    lemma_file_identity_cache_columns();
    let s = (CacheWriteCmd::UpsertCacheRow { key, entry }).planned(stamp, Some(existing));
    reveal_with_fuel(Form::given, 6);
    assert(s.form().columns.len() == 4);
    lemma_hits(s.form(), s.bound(), before);
}

/// A transcript is stored as it was given: its file, its backend, its language and its
/// duration.
#[verifier::spinoff_prover]
pub proof fn law_transcript_is_stored_as_given(
    cmd: TranscriptInsert,
    stamp: Stamp,
    before: Row,
)
    ensures
        ({
            let s = cmd.statements(stamp)[0];
            let form = s.form();
            let row = form.makes(s.bound(), before, no_file());
            &&& adds_to(form, "transcript"@)
            &&& row["id"@] == Bound::Text(cmd.transcript.id.0@)
            &&& row["file_uuid"@] == Bound::Text(cmd.transcript.file_uuid@)
            &&& row["backend"@] == Bound::Text(cmd.transcript.backend@)
            &&& has_text(row["language"@], cmd.transcript.language)
            &&& row["duration_ms"@] == Bound::Int(cmd.transcript.duration_ms as int)
            &&& row["completed_at"@] == Bound::Text(stamp.now@)
            &&& row["created_at"@] == Bound::Text(stamp.now@)
            &&& row["updated_at"@] == Bound::Text(stamp.now@)
            &&& row["device_id"@] == Bound::Text(cmd.device@)
            &&& row["hlc"@] == Bound::Int(stamp.hlc as int)
            &&& row["deleted_at"@] == before["deleted_at"@]
        }),
{
    lemma_transcript_columns();
    let s = cmd.statements(stamp)[0];
    reveal_with_fuel(Form::given, 12);
    assert(s.form().columns.len() == 10);
}

/// Each segment of a transcript is stored as it was given: its start in the column of
/// starts, its end in the column of ends, its text and confidence likewise, under the
/// transcript that it is stored with.
#[verifier::spinoff_prover]
pub proof fn law_segment_is_stored_as_given(
    cmd: TranscriptInsert,
    stamp: Stamp,
    k: int,
    before: Row,
)
    requires
        0 <= k < cmd.segments@.len(),
    ensures
        ({
            let s = cmd.statements(stamp)[k + 1];
            let form = s.form();
            let row = form.makes(s.bound(), before, no_file());
            &&& adds_to(form, "transcript_segment"@)
            &&& row["id"@] == Bound::Text(cmd.segments@[k].id.0@)
            &&& row["transcript_id"@] == Bound::Text(cmd.transcript.id.0@)
            &&& row["start_ms"@] == Bound::Int(cmd.segments@[k].start_ms as int)
            &&& row["end_ms"@] == Bound::Int(cmd.segments@[k].end_ms as int)
            &&& row["text"@] == Bound::Text(cmd.segments@[k].text@)
            &&& match cmd.segments@[k].confidence_bits {
                Some(bits) => row["confidence"@] == Bound::Real(bits),
                None => row["confidence"@] == Bound::Null,
            }
            &&& row["created_at"@] == Bound::Text(stamp.now@)
            &&& row["updated_at"@] == Bound::Text(stamp.now@)
            &&& row["device_id"@] == Bound::Text(cmd.device@)
            &&& row["hlc"@] == Bound::Int(stamp.hlc as int)
            &&& row["deleted_at"@] == before["deleted_at"@]
        }),
{
    lemma_transcript_segment_columns();
    let s = cmd.statements(stamp)[k + 1];
    reveal_with_fuel(Form::given, 12);
    assert(s.form().columns.len() == 10);
    assert(s is Segment);
}

/// Each file of a manifest is stored as it was given: its hash, its path, and its size as
/// far as 63 bits go.
#[verifier::spinoff_prover]
pub proof fn law_file_in_the_manifest_is_stored_as_given(
    volume: VolumeId,
    files: Seq<HashedFile>,
    now: String,
    k: int,
    before: Row,
)
    requires
        0 <= k < files.len(),
    ensures
        ({
            let s = manifest_statements(volume, files, now)[k + 3];
            let form = s.form();
            let row = form.makes(s.bound(), before, no_file());
            &&& form.verb == Verb::Replace
            &&& form.table == "manifest_files"@
            &&& row["blake3_hash"@] == Bound::Text(files[k].hash.hex())
            &&& row["file_size"@] == Bound::Int(
                if files[k].discovered.size.0 <= i64::MAX {
                    files[k].discovered.size.0 as int
                } else {
                    i64::MAX as int
                },
            )
            &&& row["relative_path"@] == Bound::Text(files[k].discovered.relative_path@)
            &&& row["first_seen"@] == Bound::Text(now@)
            &&& row["updated_at"@] == Bound::Text(now@)
        }),
{
    lemma_manifest_files_columns();
    let s = manifest_statements(volume, files, now)[k + 3];
    reveal_with_fuel(Form::given, 7);
    assert(s.form().columns.len() == 5);
    assert(s is File);
}

/// A manifest tells the volume under the key `volume_id`.
#[verifier::spinoff_prover]
pub proof fn law_manifest_tells_the_volume(
    volume: VolumeId,
    files: Seq<HashedFile>,
    now: String,
    before: Row,
)
    ensures
        ({
            let s = manifest_statements(volume, files, now)[0];
            let form = s.form();
            let row = form.makes(s.bound(), before, no_file());
            &&& form.verb == Verb::Replace
            &&& form.table == "manifest_meta"@
            &&& row["key"@] == Bound::Text("volume_id"@)
            &&& row["value"@] == Bound::Text(volume.0.text())
        }),
{
    lemma_manifest_meta_columns();
    let s = manifest_statements(volume, files, now)[0];
    reveal_with_fuel(Form::given, 4);
    assert(s.form().columns.len() == 2);
}

/// A manifest tells the version under the key `manifest_version`.
#[verifier::spinoff_prover]
pub proof fn law_manifest_tells_the_version(
    volume: VolumeId,
    files: Seq<HashedFile>,
    now: String,
    before: Row,
)
    ensures
        ({
            let s = manifest_statements(volume, files, now)[1];
            let form = s.form();
            let row = form.makes(s.bound(), before, no_file());
            &&& form.verb == Verb::Replace
            &&& form.table == "manifest_meta"@
            &&& row["key"@] == Bound::Text("manifest_version"@)
            &&& row["value"@] == Bound::Text("1"@)
        }),
{
    lemma_manifest_meta_columns();
    let s = manifest_statements(volume, files, now)[1];
    reveal_with_fuel(Form::given, 4);
    assert(s.form().columns.len() == 2);
}

/// A manifest tells the time under the key `created_at`.
#[verifier::spinoff_prover]
pub proof fn law_manifest_tells_the_time(
    volume: VolumeId,
    files: Seq<HashedFile>,
    now: String,
    before: Row,
)
    ensures
        ({
            let s = manifest_statements(volume, files, now)[2];
            let form = s.form();
            let row = form.makes(s.bound(), before, no_file());
            &&& form.verb == Verb::Replace
            &&& form.table == "manifest_meta"@
            &&& row["key"@] == Bound::Text("created_at"@)
            &&& row["value"@] == Bound::Text(now@)
        }),
{
    lemma_manifest_meta_columns();
    let s = manifest_statements(volume, files, now)[2];
    reveal_with_fuel(Form::given, 4);
    assert(s.form().columns.len() == 2);
}

/// A status is stored in the live location at the path that was given; all else of it stays.
#[verifier::spinoff_prover]
pub proof fn law_status_is_stored_as_given(
    volume: VolumeId,
    path: MediaPath,
    status: LocationStatus,
    device: DeviceId,
    stamp: Stamp,
    found: FileFound,
    plan: FilePlan,
    before: Row,
)
    requires
        (FileWriteCmd::UpdateLocationStatus { volume, path, status, device }).planned(
            stamp,
            found,
            plan,
        ),
    ensures
        plan.statements@.len() == 1,
        ({
            let s = plan.statements@[0];
            let form = s.form();
            let row = form.makes(s.bound(), before, no_file());
            &&& changes_in(form, "file_locations"@)
            &&& form.hits(s.bound(), before) <==> before["volume_id"@] == Bound::Text(volume.0.text()) && before["relative_path"@] == Bound::Text(
                path@,
            ) && before["deleted_at"@] == Bound::Null
            &&& row["status"@] == Bound::Text(
                match status {
                    LocationStatus::Active => "active"@,
                    LocationStatus::Missing => "missing"@,
                    LocationStatus::Moved => "moved"@,
                    LocationStatus::Stale => "stale"@,
                },
            )
            &&& row["updated_at"@] == Bound::Text(stamp.now@)
            &&& row["device_id"@] == Bound::Text(device.0.text())
            &&& row["hlc"@] == Bound::Int(stamp.hlc as int)
            &&& row["id"@] == before["id"@]
            &&& row["blake3_hash"@] == before["blake3_hash"@]
            &&& row["file_uuid"@] == before["file_uuid"@]
            &&& row["volume_id"@] == before["volume_id"@]
            &&& row["relative_path"@] == before["relative_path"@]
            &&& row["first_seen"@] == before["first_seen"@]
            &&& row["deleted_at"@] == before["deleted_at"@]
        }),
{
    lemma_file_locations_columns();
    let s = plan.statements@[0];
    reveal_with_fuel(Form::given, 6);
    assert(s.form().columns.len() == 4);
    lemma_hits(s.form(), s.bound(), before);
}

/// Pruning retires the live locations that are stored as missing; all else of them stays.
#[verifier::spinoff_prover]
pub proof fn law_missing_locations_are_retired_as_stored(
    device: DeviceId,
    stamp: Stamp,
    found: FileFound,
    plan: FilePlan,
    before: Row,
)
    requires
        (FileWriteCmd::SoftDeleteMissingLocations { device }).planned(stamp, found, plan),
    ensures
        plan.statements@.len() == 1,
        ({
            let s = plan.statements@[0];
            let form = s.form();
            let row = form.makes(s.bound(), before, no_file());
            &&& changes_in(form, "file_locations"@)
            &&& form.hits(s.bound(), before) <==> before["status"@] == Bound::Text("missing"@) && before["deleted_at"@] == Bound::Null
            &&& row["deleted_at"@] == Bound::Text(stamp.now@)
            &&& row["updated_at"@] == Bound::Text(stamp.now@)
            &&& row["device_id"@] == Bound::Text(device.0.text())
            &&& row["hlc"@] == Bound::Int(stamp.hlc as int)
            &&& row["id"@] == before["id"@]
            &&& row["blake3_hash"@] == before["blake3_hash"@]
            &&& row["file_uuid"@] == before["file_uuid"@]
            &&& row["volume_id"@] == before["volume_id"@]
            &&& row["relative_path"@] == before["relative_path"@]
            &&& row["status"@] == before["status"@]
            &&& row["first_seen"@] == before["first_seen"@]
        }),
{
    lemma_file_locations_columns();
    let s = plan.statements@[0];
    reveal_with_fuel(Form::given, 6);
    assert(s.form().columns.len() == 4);
    lemma_hits(s.form(), s.bound(), before);
}

/// A move to a free path stores the new path in the live location at the old one, as an
/// active location; all else of it stays.
#[verifier::spinoff_prover]
pub proof fn law_move_is_stored_as_given(
    volume: VolumeId,
    old_path: MediaPath,
    new_path: MediaPath,
    device: DeviceId,
    stamp: Stamp,
    found: FileFound,
    plan: FilePlan,
    before: Row,
)
    requires
        (FileWriteCmd::UpdateLocationPath { volume, old_path, new_path, device }).planned(
            stamp,
            found,
            plan,
        ),
        found.collision is None,
    ensures
        plan.statements@.len() == 1,
        ({
            let s = plan.statements@[0];
            let form = s.form();
            let row = form.makes(s.bound(), before, no_file());
            &&& changes_in(form, "file_locations"@)
            &&& form.hits(s.bound(), before) <==> before["volume_id"@] == Bound::Text(volume.0.text()) && before["relative_path"@] == Bound::Text(
                old_path@,
            ) && before["deleted_at"@] == Bound::Null
            &&& row["relative_path"@] == Bound::Text(new_path@)
            &&& row["status"@] == Bound::Text("active"@)
            &&& row["updated_at"@] == Bound::Text(stamp.now@)
            &&& row["device_id"@] == Bound::Text(device.0.text())
            &&& row["hlc"@] == Bound::Int(stamp.hlc as int)
            &&& row["id"@] == before["id"@]
            &&& row["blake3_hash"@] == before["blake3_hash"@]
            &&& row["file_uuid"@] == before["file_uuid"@]
            &&& row["volume_id"@] == before["volume_id"@]
            &&& row["first_seen"@] == before["first_seen"@]
            &&& row["deleted_at"@] == before["deleted_at"@]
        }),
{
    lemma_file_locations_columns();
    let s = plan.statements@[0];
    reveal_with_fuel(Form::given, 7);
    assert(s.form().columns.len() == 5);
    lemma_hits(s.form(), s.bound(), before);
}

/// A move to a path that is taken retires the live location at the old path; all else of
/// it stays.
#[verifier::spinoff_prover]
pub proof fn law_move_to_a_taken_path_retires_the_source(
    volume: VolumeId,
    old_path: MediaPath,
    new_path: MediaPath,
    device: DeviceId,
    stamp: Stamp,
    found: FileFound,
    plan: FilePlan,
    before: Row,
)
    requires
        (FileWriteCmd::UpdateLocationPath { volume, old_path, new_path, device }).planned(
            stamp,
            found,
            plan,
        ),
        found.collision is Some,
    ensures
        plan.statements@.len() == 1,
        ({
            let s = plan.statements@[0];
            let form = s.form();
            let row = form.makes(s.bound(), before, no_file());
            &&& changes_in(form, "file_locations"@)
            &&& form.hits(s.bound(), before) <==> before["volume_id"@] == Bound::Text(volume.0.text()) && before["relative_path"@] == Bound::Text(
                old_path@,
            ) && before["deleted_at"@] == Bound::Null
            &&& row["deleted_at"@] == Bound::Text(stamp.now@)
            &&& row["updated_at"@] == Bound::Text(stamp.now@)
            &&& row["device_id"@] == Bound::Text(device.0.text())
            &&& row["hlc"@] == Bound::Int(stamp.hlc as int)
            &&& row["id"@] == before["id"@]
            &&& row["blake3_hash"@] == before["blake3_hash"@]
            &&& row["file_uuid"@] == before["file_uuid"@]
            &&& row["volume_id"@] == before["volume_id"@]
            &&& row["relative_path"@] == before["relative_path"@]
            &&& row["status"@] == before["status"@]
            &&& row["first_seen"@] == before["first_seen"@]
        }),
{
    lemma_file_locations_columns();
    let s = plan.statements@[0];
    reveal_with_fuel(Form::given, 6);
    assert(s.form().columns.len() == 4);
    lemma_hits(s.form(), s.bound(), before);
}

/// A location without a volume gets the volume that was given; all else of it stays.
#[verifier::spinoff_prover]
pub proof fn law_adoption_is_stored_as_given(
    path: MediaPath,
    real_volume: VolumeId,
    device: DeviceId,
    stamp: Stamp,
    found: FileFound,
    plan: FilePlan,
    before: Row,
)
    requires
        (FileWriteCmd::MigrateSentinelRow { path, real_volume, device }).planned(stamp, found, plan),
    ensures
        plan.statements@.len() == 1,
        ({
            let s = plan.statements@[0];
            let form = s.form();
            let row = form.makes(s.bound(), before, no_file());
            &&& changes_in(form, "file_locations"@)
            &&& form.hits(s.bound(), before) <==> before["volume_id"@] == Bound::Text("00000000-0000-0000-0000-000000000000"@)
                && before["relative_path"@] == Bound::Text(path@) && before["deleted_at"@] == Bound::Null
            &&& row["volume_id"@] == Bound::Text(real_volume.0.text())
            &&& row["updated_at"@] == Bound::Text(stamp.now@)
            &&& row["device_id"@] == Bound::Text(device.0.text())
            &&& row["hlc"@] == Bound::Int(stamp.hlc as int)
            &&& row["id"@] == before["id"@]
            &&& row["blake3_hash"@] == before["blake3_hash"@]
            &&& row["file_uuid"@] == before["file_uuid"@]
            &&& row["relative_path"@] == before["relative_path"@]
            &&& row["status"@] == before["status"@]
            &&& row["first_seen"@] == before["first_seen"@]
            &&& row["deleted_at"@] == before["deleted_at"@]
        }),
{
    lemma_file_locations_columns();
    let s = plan.statements@[0];
    reveal_with_fuel(Form::given, 6);
    assert(s.form().columns.len() == 4);
    lemma_hits(s.form(), s.bound(), before);
}

/// A full hash is stored in the live file with the identifier that was given; all else of
/// it stays.
#[verifier::spinoff_prover]
pub proof fn law_full_hash_is_stored_as_given(
    file_uuid: FileUuid,
    full_hash: BlakeHash,
    device: DeviceId,
    stamp: Stamp,
    found: FileFound,
    plan: FilePlan,
    before: Row,
)
    requires
        (FileWriteCmd::PromoteFullHash { file_uuid, full_hash, device }).planned(stamp, found, plan),
    ensures
        plan.statements@.len() == 1,
        ({
            let s = plan.statements@[0];
            let form = s.form();
            let row = form.makes(s.bound(), before, no_file());
            &&& changes_in(form, "files"@)
            &&& form.hits(s.bound(), before) <==> before["file_uuid"@] == Bound::Text(file_uuid.0.text()) && before["deleted_at"@]
                == Bound::Null
            &&& row["blake3_hash"@] == Bound::Text(full_hash.hex())
            &&& row["updated_at"@] == Bound::Text(stamp.now@)
            &&& row["device_id"@] == Bound::Text(device.0.text())
            &&& row["hlc"@] == Bound::Int(stamp.hlc as int)
            &&& row["file_uuid"@] == before["file_uuid"@]
            &&& row["file_size"@] == before["file_size"@]
            &&& row["quick_hash"@] == before["quick_hash"@]
            &&& row["verified_distinct"@] == before["verified_distinct"@]
            &&& row["first_seen"@] == before["first_seen"@]
            &&& row["deleted_at"@] == before["deleted_at"@]
        }),
{
    lemma_files_columns();
    let s = plan.statements@[0];
    reveal_with_fuel(Form::given, 6);
    assert(s.form().columns.len() == 4);
    lemma_hits(s.form(), s.bound(), before);
}

/// Each live file that is marked as distinct is stored so; all else of it stays.
#[verifier::spinoff_prover]
pub proof fn law_distinct_file_is_stored_as_marked(
    file_uuids: Seq<FileUuid>,
    device: DeviceId,
    stamp: Stamp,
    k: int,
    before: Row,
)
    requires
        0 <= k < file_uuids.len(),
    ensures
        distinct_statements(file_uuids, device, stamp).len() == file_uuids.len(),
        ({
            let s = distinct_statements(file_uuids, device, stamp)[k];
            let form = s.form();
            let row = form.makes(s.bound(), before, no_file());
            &&& changes_in(form, "files"@)
            &&& form.hits(s.bound(), before) <==> before["file_uuid"@] == Bound::Text(file_uuids[k].0.text()) && before["deleted_at"@]
                == Bound::Null
            &&& row["verified_distinct"@] == Bound::Int(1)
            &&& row["updated_at"@] == Bound::Text(stamp.now@)
            &&& row["device_id"@] == Bound::Text(device.0.text())
            &&& row["hlc"@] == Bound::Int(stamp.hlc as int)
            &&& row["blake3_hash"@] == before["blake3_hash"@]
            &&& row["file_uuid"@] == before["file_uuid"@]
            &&& row["file_size"@] == before["file_size"@]
            &&& row["quick_hash"@] == before["quick_hash"@]
            &&& row["first_seen"@] == before["first_seen"@]
            &&& row["deleted_at"@] == before["deleted_at"@]
        }),
{
    lemma_files_columns();
    let s = distinct_statements(file_uuids, device, stamp)[k];
    reveal_with_fuel(Form::given, 6);
    assert(s.form().columns.len() == 4);
    lemma_hits(s.form(), s.bound(), before);
}

/// Deleting a tag retires the live tag with the identifier that was given; its name stays.
#[verifier::spinoff_prover]
pub proof fn law_tag_is_retired_as_given(
    tag_id: Uuid,
    device: DeviceId,
    stamp: Stamp,
    found: TagFound,
    plan: TagPlan,
    before: Row,
)
    requires
        (TagWriteCmd::DeleteTag { tag_id, device }).planned(stamp, found, Ok(plan)),
    ensures
        plan.statement is Some,
        ({
            let s = plan.statement->0;
            let form = s.form();
            let row = form.makes(s.bound(), before, no_file());
            &&& changes_in(form, "tags"@)
            &&& form.hits(s.bound(), before) <==> before["id"@] == Bound::Text(tag_id.text()) && before["deleted_at"@] == Bound::Null
            &&& row["deleted_at"@] == Bound::Text(stamp.now@)
            &&& row["updated_at"@] == Bound::Text(stamp.now@)
            &&& row["device_id"@] == Bound::Text(device.0.text())
            &&& row["hlc"@] == Bound::Int(stamp.hlc as int)
            &&& row["id"@] == before["id"@]
            &&& row["name"@] == before["name"@]
            &&& row["first_seen"@] == before["first_seen"@]
        }),
{
    lemma_tags_columns();
    let s = plan.statement->0;
    reveal_with_fuel(Form::given, 6);
    assert(s.form().columns.len() == 4);
    lemma_hits(s.form(), s.bound(), before);
}

/// Detaching a tag retires the live attachment of that tag to that hash.
#[verifier::spinoff_prover]
pub proof fn law_attachment_is_retired_as_given(
    hash: BlakeHash,
    tag_id: Uuid,
    device: DeviceId,
    stamp: Stamp,
    found: TagFound,
    plan: TagPlan,
    before: Row,
)
    requires
        (TagWriteCmd::Detach { hash, tag_id, device }).planned(stamp, found, Ok(plan)),
    ensures
        plan.statement is Some,
        ({
            let s = plan.statement->0;
            let form = s.form();
            let row = form.makes(s.bound(), before, no_file());
            &&& changes_in(form, "file_tags"@)
            &&& form.hits(s.bound(), before) <==> before["blake3_hash"@] == Bound::Text(hash.hex()) && before["tag_id"@] == Bound::Text(
                tag_id.text(),
            ) && before["deleted_at"@] == Bound::Null
            &&& row["deleted_at"@] == Bound::Text(stamp.now@)
            &&& row["updated_at"@] == Bound::Text(stamp.now@)
            &&& row["device_id"@] == Bound::Text(device.0.text())
            &&& row["hlc"@] == Bound::Int(stamp.hlc as int)
            &&& row["id"@] == before["id"@]
            &&& row["blake3_hash"@] == before["blake3_hash"@]
            &&& row["tag_id"@] == before["tag_id"@]
            &&& row["first_seen"@] == before["first_seen"@]
        }),
{
    lemma_file_tags_columns();
    let s = plan.statement->0;
    reveal_with_fuel(Form::given, 6);
    assert(s.form().columns.len() == 4);
    lemma_hits(s.form(), s.bound(), before);
}

/// Retiring an entry retires the live entry under the whole key.
#[verifier::spinoff_prover]
pub proof fn law_cache_entry_is_retired_as_given(
    key: CacheKey,
    stamp: Stamp,
    before: Row,
)
    requires
        key.size_bytes <= i64::MAX,
    ensures
        ({
            let s = (CacheWriteCmd::SoftDeleteCacheRow { key }).planned(stamp, None);
            let form = s.form();
            let row = form.makes(s.bound(), before, no_file());
            &&& changes_in(form, "file_identity_cache"@)
            &&& form.hits(s.bound(), before) <==> before["device_id"@] == Bound::Text(key.device_id.0.text()) && before["volume_id"@]
                == Bound::Text(key.volume_id.0.text()) && before["fs_file_id"@] == Bound::Int(
                key.fs_file_id as int,
            ) && before["size_bytes"@] == Bound::Int(key.size_bytes as int) && before["mtime_ns"@]
                == Bound::Int(key.mtime_ns as int) && before["deleted_at"@] == Bound::Null
            &&& row["deleted_at"@] == Bound::Text(stamp.now@)
            &&& row["updated_at"@] == Bound::Text(stamp.now@)
            &&& row["id"@] == before["id"@]
            &&& row["device_id"@] == before["device_id"@]
            &&& row["volume_id"@] == before["volume_id"@]
            &&& row["fs_file_id"@] == before["fs_file_id"@]
            &&& row["size_bytes"@] == before["size_bytes"@]
            &&& row["mtime_ns"@] == before["mtime_ns"@]
            &&& row["quick_hash"@] == before["quick_hash"@]
            &&& row["full_hash"@] == before["full_hash"@]
            &&& row["last_verified"@] == before["last_verified"@]
            &&& row["first_seen"@] == before["first_seen"@]
        }),
{
    lemma_file_identity_cache_columns();
    let s = (CacheWriteCmd::SoftDeleteCacheRow { key }).planned(stamp, None);
    reveal_with_fuel(Form::given, 4);
    assert(s.form().columns.len() == 2);
    lemma_hits(s.form(), s.bound(), before);
}

} // verus!
