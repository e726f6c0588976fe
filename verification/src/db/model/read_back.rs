//! What is read is what was stored: the laws of reading rows back.
use vstd::prelude::*;
use vstd::string::*;

use crate::db::convert::{status_of_text, status_text, stored_uuid, uuid_fault};
use crate::db::file_repo::{
    full_hash_stored, lookup_by_file_uuid_sql, BackfillRow, FileByUuidRow, LocationRow, VerifyRow,
};
use crate::db::metadata_repo::{LocationMetadataRow, MetadataColumns};
use crate::db::model::catalog_reads::verify_list;
use crate::db::model::files::{shows, Catalog, FileEntry, LocationEntry};
use crate::db::model::metadata::{after, finds, holds, live, MetadataEntry};
use crate::db::model::reads::law_taken_place_is_listed;
use crate::db::model::search::{hit_shows, ContentEntry};
use crate::db::model::table_reads::{has_mount, lemma_volume_has_a_first_row, volume_list};
use crate::db::model::volumes::{MountEntry, VolumeEntry};
use crate::db::search_repo::SearchRow;
use crate::db::sql::Stamp;
use crate::db::volume_repo::{firsts, merged, VolumeRow};
use crate::db::writer::metadata::{ExistingMetadata, MetadataPlan, MetadataWriteCmd};
use crate::db::writer::volume::{creates, VolumeStatement, VolumeStep};
use crate::errors::CoreError;
use crate::metadata::MediaMetadata;
use crate::ports::file_repo::{BackfillFileRow, LocationToVerify};
use crate::text::text_opt;
use crate::types::{
    path_form, BlakeHash, DeviceId, FileLocationRecord, FileUuid, LocationStatus, MountedPath,
    VolumeId, VolumeIdentifiers, VolumeRecord,
};

verus! {

/// Whether a record says of a volume what was detected of it.
pub open spec fn as_detected(r: VolumeRecord, volume: VolumeId, ident: VolumeIdentifiers) -> bool {
    &&& r.id == volume
    &&& text_opt(r.label) == text_opt(ident.label)
    &&& r.capacity_bytes == ident.capacity_bytes
    &&& r.is_removable == ident.is_removable
}

/// A volume that was made is listed as it was detected: with its label, its capacity
/// and whether it can be removed, seen last when it was made.
pub proof fn law_created_volume_is_listed_as_detected(
    volumes: Seq<VolumeEntry>,
    mounts: Seq<MountEntry>,
    machine: DeviceId,
    ident: VolumeIdentifiers,
    device: DeviceId,
    stamp: Stamp,
    s: VolumeStatement,
    volume: VolumeId,
    places: Seq<(int, Option<int>)>,
    rows: Seq<VolumeRow>,
    out: Seq<VolumeRecord>,
)
    requires
        ident.capacity_bytes <= i64::MAX,
        creates(ident, device, stamp, VolumeStep::Write { statement: s, volume }),
        volume.0.reads_back(),
        forall|v: int|
            0 <= v < volumes.len() ==> stored_uuid((#[trigger] volumes[v]).id) != volume.0,
        volume_list(s.on(volumes), mounts, machine).gives(places, rows),
        merged(rows, out),
    ensures
        exists|i: int|
            0 <= i < out.len() && as_detected(#[trigger] out[i], volume, ident)
                && out[i].last_seen@ == stamp.now@,
{
    let next = s.on(volumes);
    let q = volume_list(next, mounts, machine);
    let v = volumes.len() as int;
    let entry = next[v];
    assert(entry.id == volume.0.text());
    let k: (int, Option<int>) = if has_mount(next, mounts, machine.0.text(), v) {
        (
            v,
            Some(
                choose|m: int|
                    0 <= m < mounts.len() && (#[trigger] mounts[m]).live_on(
                        next[v].id,
                        machine.0.text(),
                    ),
            ),
        )
    } else {
        (v, None)
    };
    assert((q.takes)(k));
    law_taken_place_is_listed(q, places, rows, k);
    let n = choose|n: int|
        0 <= n < rows.len() && places[n] == k && (q.shows)(k, #[trigger] rows[n]);
    assert(rows[n].id() == volume);
    lemma_volume_has_a_first_row(rows, n);
    let i = choose|i: int|
        0 <= i < firsts(rows).len() && 0 <= #[trigger] firsts(rows)[i] < rows.len()
            && rows[firsts(rows)[i]].id() == rows[n].id();
    let f = firsts(rows)[i];
    assert(rows[f].describes(out[i]));
    assert((q.takes)(places[f]) && (q.shows)(places[f], rows[f]));
    assert(places[f].0 == v) by {
        if places[f].0 < v {
            assert(next[places[f].0] == volumes[places[f].0]);
        }
    }
    assert(as_detected(out[i], volume, ident));
}

/// After an upsert of metadata, whether it wrote anything or not, the live row of the
/// hash has the device that issued it and the MIME type of the record.
pub proof fn law_upsert_settles_device_and_type(
    rows: Seq<MetadataEntry>,
    record: MediaMetadata,
    device: DeviceId,
    stamp: Stamp,
    found: Option<ExistingMetadata>,
    plan: MetadataPlan,
    i: int,
)
    requires
        crate::db::model::metadata::wf(rows),
        finds(rows, record.hash.hex(), found),
        (MetadataWriteCmd::UpsertMetadata { record, device }).planned(stamp, found, plan),
        live(after(rows, plan), record.hash.hex(), i),
    ensures
        after(rows, plan)[i].device == device.0.text(),
        after(rows, plan)[i].mime_type == text_opt(record.mime_type),
{
    let hash = record.hash.hex();
    match found {
        None => {
            if i < rows.len() {
                assert(!live(rows, hash, i));
            }
        },
        Some(row) => {
            let k = choose|k: int| #[trigger]
                live(rows, hash, k) && rows[k].device == row.device@ && rows[k].mime_type
                    == text_opt(row.mime_type);
            assert(live(rows, hash, k));
            assert(live(rows, hash, i));
            assert(i == k);
        },
    }
}

/// Metadata reads back with the thumbnail that its row has.
pub proof fn law_thumbnail_reads_back(
    row: MetadataEntry,
    columns: MetadataColumns,
    hash: BlakeHash,
    m: MediaMetadata,
)
    requires
        holds(row, columns),
        columns.read_as(hash, m),
    ensures
        m.hash == hash,
        text_opt(m.thumbnail_path) == row.thumbnail_path,
        text_opt(m.thumbnail_status) == row.thumbnail_status,
{
}

/// A location that a sweep is given says where the location is and what its status was:
/// its volume and its path as stored, the path below the mount, and the stored status.
pub proof fn law_location_to_verify_reads_back(
    c: Catalog,
    mounts: Seq<MountEntry>,
    machine: DeviceId,
    places: Seq<(int, int)>,
    rows: Seq<VerifyRow>,
    n: int,
    volume: VolumeId,
    status: LocationStatus,
    r: LocationToVerify,
)
    requires
        verify_list(c, mounts, machine).gives(places, rows),
        0 <= n < rows.len(),
        volume.0.reads_back(),
        c.locations[places[n].0].volume == volume.0.text(),
        c.locations[places[n].0].status == status_text(status),
        rows[n].read_as(r),
    ensures
        rows[n].fault() is None,
        r.volume == volume,
        r.path@ == path_form(c.locations[places[n].0].path),
        r.absolute_path.mount@ == mounts[places[n].1].path,
        r.absolute_path.relative@ == c.locations[places[n].0].path,
        r.status == status,
        mounts[places[n].1].live_on(volume.0.text(), machine.0.text()),
{
    let q = verify_list(c, mounts, machine);
    assert((q.takes)(places[n]) && (q.shows)(places[n], rows[n]));
    crate::db::convert::law_status_round_trip(status);
    assert(uuid_fault(volume.0.text(), "parse volume_id: "@) is None);
}

/// A file to be fingerprinted comes with the size that is stored of it.
pub proof fn law_backfill_tells_the_size(row: BackfillRow, r: BackfillFileRow, size: u64)
    requires
        row.read_as(r),
        row.size == size,
    ensures
        r.size_bytes == size,
        r.hash.hex() == row.hash@,
{
}

/// A hit tells what the index has of its file: its identifier, its hash and its path,
/// and the volume of the row.
pub proof fn law_hit_tells_its_row(c: Catalog, e: ContentEntry, row: SearchRow, id: FileUuid)
    requires
        hit_shows(c, e, row),
        id.0.reads_back(),
        e.file_uuid == id.0.text(),
    ensures
        uuid_fault(row.file_uuid@, "bad file_uuid: "@) is None,
        row.hit().file_uuid == id,
        text_opt(row.hit().blake3_hash) == e.hash,
        row.hit().relative_path@ == e.path,
        row.hit().volume_id@ == row.volume@,
        row.hit().rank_bits == row.rank_bits,
{
}

/// A record of a list with metadata says of its metadata what the stored row has, under
/// the hash of its file, and passes the quick hash on.
pub proof fn law_listed_metadata_reads_back(
    m: MetadataEntry,
    row: LocationMetadataRow,
    r: crate::ports::metadata_repo::FileWithMetadataRow,
)
    requires
        row.updated_at is Some,
        row.location.hash is Some,
        holds(m, row.columns),
        row.columns.fault() is None,
        row.read_as(r),
    ensures
        r.2 == row.quick_hash,
        r.1 matches Some(found) && ({
            &&& r.0.hash == Some(found.hash)
            &&& m.width == match found.width {
                Some(n) => Some(n as int),
                None => None::<int>,
            }
            &&& m.height == match found.height {
                Some(n) => Some(n as int),
                None => None::<int>,
            }
            &&& m.duration_ms == match found.duration_ms {
                Some(n) => Some(n as int),
                None => None::<int>,
            }
            &&& m.bitrate_bps == match found.bitrate_bps {
                Some(n) => Some(n as int),
                None => None::<int>,
            }
            &&& text_opt(found.captured_at) == m.captured_at
            &&& text_opt(found.camera_make) == m.camera_make
            &&& text_opt(found.camera_model) == m.camera_model
            &&& text_opt(found.codec) == m.codec
            &&& text_opt(found.mime_type) == m.mime_type
            &&& text_opt(found.thumbnail_path) == m.thumbnail_path
            &&& text_opt(found.thumbnail_status) == m.thumbnail_status
        }),
{
}

/// A row of a list of locations reads back as what is stored of its file and of its
/// location, whatever the status.
pub proof fn law_listed_location_reads_back(
    f: FileEntry,
    l: LocationEntry,
    row: LocationRow,
    id: FileUuid,
    hash: Option<BlakeHash>,
    volume: VolumeId,
    status: LocationStatus,
    r: FileLocationRecord,
)
    requires
        shows(f, l, row),
        id.0.reads_back(),
        f.file_uuid == id.0.text(),
        f.hash == match hash {
            Some(h) => Some(h.hex()),
            None => None::<Seq<char>>,
        },
        f.size >= 0,
        volume.0.reads_back(),
        l.volume == volume.0.text(),
        l.status == status_text(status),
        row.read_as(r),
    ensures
        row.fault() is None,
        r.file_uuid == id,
        r.hash == hash,
        r.size.0 == f.size,
        r.volume_id == volume,
        r.relative_path@ == path_form(l.path),
        r.status == status,
        r.first_seen@ == l.first_seen,
{
    crate::db::convert::law_status_round_trip(status);
    if let Some(h) = hash {
        crate::types::law_hash_text_round_trip(h);
        if let Some(g) = r.hash {
            crate::types::law_hash_text_injective(g, h);
        }
    }
}

/// A stored status that is none counts as active in a sweep, and a stored size below zero
/// as zero where a file is to be fingerprinted.
pub proof fn law_odd_values_are_read_mildly(
    row: VerifyRow,
    r: LocationToVerify,
    file: BackfillRow,
    b: BackfillFileRow,
)
    requires
        row.read_as(r),
        file.read_as(b),
    ensures
        status_of_text(row.status@) is None ==> r.status == LocationStatus::Active,
        file.size < 0 ==> b.size_bytes == 0,
        (b.active_path is Some) == (file.mount is Some && file.path is Some),
{
}

/// Storing a full hash succeeds exactly where a file had the identifier, and is refused as
/// not found where none had it.
pub proof fn law_full_hash_needs_a_file(id: FileUuid, rows: u64, r: Result<(), CoreError>)
    requires
        call_ensures(full_hash_stored, (id, rows), r),
    ensures
        r is Ok <==> rows > 0,
        r matches Err(e) ==> e is NotFound,
{
}

/// What is found of a file by its identifier is its stored hash, its stored size, and a
/// path made of the mount and the path of the row; nothing is found without both.
pub proof fn law_file_by_uuid_reads_back(
    row: FileByUuidRow,
    hash: Option<BlakeHash>,
    r: Result<Option<(Option<BlakeHash>, MountedPath, u64)>, CoreError>,
)
    requires
        call_ensures(lookup_by_file_uuid_sql, (&Some(row),), r),
        text_opt(row.hash) == match hash {
            Some(h) => Some(h.hex()),
            None => None::<Seq<char>>,
        },
        row.size >= 0,
    ensures
        r is Ok,
        r->Ok_0 is Some <==> row.mount is Some && row.path is Some,
        r->Ok_0 matches Some(found) ==> found.0 == hash && found.1.mount == row.mount->0
            && found.1.relative == row.path->0 && found.2 == row.size,
{
    if let Some(h) = hash {
        crate::types::law_hash_text_round_trip(h);
        if let Ok(Some(found)) = r {
            if let Some(g) = found.0 {
                crate::types::law_hash_text_injective(g, h);
            }
        }
    }
}

} // verus!
