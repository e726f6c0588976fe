//! The table `file_metadata`, and the laws of the commands that write it.
use vstd::prelude::*;

use crate::db::metadata_repo::MetadataColumns;
use crate::db::model::files::updated;
use crate::db::sql::Stamp;
use crate::db::writer::metadata::{
    duration_fits, upsert_metadata_outcome, ExistingMetadata, MetadataPlan, MetadataStatement,
    MetadataWriteCmd,
};
use crate::metadata::MediaMetadata;
use crate::text::text_opt;
use crate::types::{BlakeHash, DeviceId, UpsertOutcome};

verus! {

/// A row of `file_metadata`.
pub struct MetadataEntry {
    pub hash: Seq<char>,
    pub width: Option<int>,
    pub height: Option<int>,
    pub duration_ms: Option<int>,
    pub captured_at: Option<Seq<char>>,
    pub camera_make: Option<Seq<char>>,
    pub camera_model: Option<Seq<char>>,
    pub codec: Option<Seq<char>>,
    pub bitrate_bps: Option<int>,
    pub mime_type: Option<Seq<char>>,
    pub thumbnail_path: Option<Seq<char>>,
    pub thumbnail_status: Option<Seq<char>>,
    pub extracted_at: Seq<char>,
    pub updated_at: Seq<char>,
    pub deleted_at: Option<Seq<char>>,
    pub device: Seq<char>,
    pub hlc: int,
}

/// An optional number.
pub open spec fn int_of_u32(v: Option<u32>) -> Option<int> {
    match v {
        Some(n) => Some(n as int),
        None => None,
    }
}

/// An optional number.
pub open spec fn int_of_i64(v: Option<i64>) -> Option<int> {
    match v {
        Some(n) => Some(n as int),
        None => None,
    }
}

/// A row with the extracted columns of a record, and the stamp of a command.
pub open spec fn with_record(
    row: MetadataEntry,
    m: MediaMetadata,
    duration: Option<i64>,
    now: Seq<char>,
    device: DeviceId,
    hlc: i64,
) -> MetadataEntry {
    MetadataEntry {
        width: int_of_u32(m.width),
        height: int_of_u32(m.height),
        duration_ms: int_of_i64(duration),
        captured_at: text_opt(m.captured_at),
        camera_make: text_opt(m.camera_make),
        camera_model: text_opt(m.camera_model),
        codec: text_opt(m.codec),
        bitrate_bps: int_of_u32(m.bitrate_bps),
        mime_type: text_opt(m.mime_type),
        updated_at: now,
        device: device.0.text(),
        hlc: hlc as int,
        ..row
    }
}

/// Whether the stored columns of a row are these.
pub open spec fn holds(row: MetadataEntry, c: MetadataColumns) -> bool {
    &&& row.width == int_of_i64(c.width)
    &&& row.height == int_of_i64(c.height)
    &&& row.duration_ms == int_of_i64(c.duration_ms)
    &&& row.captured_at == text_opt(c.captured_at)
    &&& row.camera_make == text_opt(c.camera_make)
    &&& row.camera_model == text_opt(c.camera_model)
    &&& row.codec == text_opt(c.codec)
    &&& row.bitrate_bps == int_of_i64(c.bitrate_bps)
    &&& row.mime_type == text_opt(c.mime_type)
    &&& row.thumbnail_path == text_opt(c.thumbnail_path)
    &&& row.thumbnail_status == text_opt(c.thumbnail_status)
}

impl MetadataStatement {
    /// The table after the statement.
    pub open spec fn on(self, rows: Seq<MetadataEntry>) -> Seq<MetadataEntry> {
        match self {
            MetadataStatement::Insert { record, duration, now, device, hlc } => rows.push(
                with_record(
                    MetadataEntry {
                        hash: record.hash.hex(),
                        width: None,
                        height: None,
                        duration_ms: None,
                        captured_at: None,
                        camera_make: None,
                        camera_model: None,
                        codec: None,
                        bitrate_bps: None,
                        mime_type: None,
                        thumbnail_path: None,
                        thumbnail_status: Some("pending"@),
                        extracted_at: now@,
                        updated_at: now@,
                        deleted_at: None,
                        device: device.0.text(),
                        hlc: hlc as int,
                    },
                    record,
                    duration,
                    now@,
                    device,
                    hlc,
                ),
            ),
            MetadataStatement::Update { record, duration, now, device, hlc } => updated(
                rows,
                |m: MetadataEntry| m.hash == record.hash.hex(),
                |m: MetadataEntry| with_record(m, record, duration, now@, device, hlc),
            ),
            MetadataStatement::SetThumbnail { path, status, now, device, hlc, hash } => updated(
                rows,
                |m: MetadataEntry| m.hash == hash.hex() && m.deleted_at is None,
                |m: MetadataEntry|
                    MetadataEntry {
                        thumbnail_path: text_opt(path),
                        thumbnail_status: Some(status@),
                        updated_at: now@,
                        device: device.0.text(),
                        hlc: hlc as int,
                        ..m
                    },
            ),
        }
    }
}

/// The table after a plan.
pub open spec fn after(rows: Seq<MetadataEntry>, plan: MetadataPlan) -> Seq<MetadataEntry> {
    match plan.statement {
        Some(s) => s.on(rows),
        None => rows,
    }
}

/// No file has two live rows.
pub open spec fn wf(rows: Seq<MetadataEntry>) -> bool {
    forall|i: int, j: int|
        0 <= i < rows.len() && 0 <= j < rows.len() && (#[trigger] rows[i]).hash == (
        #[trigger] rows[j]).hash && rows[i].deleted_at is None && rows[j].deleted_at is None ==> i
            == j
}

/// Whether the row at `i` is the live row of a file.
pub open spec fn live(rows: Seq<MetadataEntry>, hash: Seq<char>, i: int) -> bool {
    0 <= i < rows.len() && rows[i].hash == hash && rows[i].deleted_at is None
}

/// Whether a lookup of the live row of a file can give this.
pub open spec fn finds(
    rows: Seq<MetadataEntry>,
    hash: Seq<char>,
    found: Option<ExistingMetadata>,
) -> bool {
    match found {
        None => forall|i: int| !(#[trigger] live(rows, hash, i)),
        Some(row) => exists|i: int| #[trigger]
            live(rows, hash, i) && rows[i].device == row.device@ && rows[i].mime_type == text_opt(
                row.mime_type,
            ),
    }
}

/// An upsert keeps one live row per file.
pub proof fn law_upsert_keeps_one_live_row(
    rows: Seq<MetadataEntry>,
    record: MediaMetadata,
    device: DeviceId,
    stamp: Stamp,
    found: Option<ExistingMetadata>,
    plan: MetadataPlan,
)
    requires
        wf(rows),
        finds(rows, record.hash.hex(), found),
        (MetadataWriteCmd::UpsertMetadata { record, device }).planned(stamp, found, plan),
    ensures
        wf(after(rows, plan)),
{
    if found is None {
        assert forall|i: int| 0 <= i < rows.len() && rows[i].deleted_at is None implies (
        #[trigger] rows[i]).hash != record.hash.hex() by {
            assert(!live(rows, record.hash.hex(), i));
        }
    }
}

/// A row that is inserted waits for its thumbnail.
pub proof fn law_insert_seeds_pending_thumbnail(
    rows: Seq<MetadataEntry>,
    record: MediaMetadata,
    device: DeviceId,
    stamp: Stamp,
    plan: MetadataPlan,
)
    requires
        (MetadataWriteCmd::UpsertMetadata { record, device }).planned(stamp, None, plan),
    ensures
        after(rows, plan).len() == rows.len() + 1,
        after(rows, plan).last().hash == record.hash.hex(),
        after(rows, plan).last().thumbnail_status == Some("pending"@),
        after(rows, plan).last().thumbnail_path is None,
{
}

/// An upsert leaves the thumbnail columns of every stored row as they are.
pub proof fn law_upsert_keeps_thumbnails(
    rows: Seq<MetadataEntry>,
    record: MediaMetadata,
    device: DeviceId,
    stamp: Stamp,
    found: Option<ExistingMetadata>,
    plan: MetadataPlan,
    i: int,
)
    requires
        (MetadataWriteCmd::UpsertMetadata { record, device }).planned(stamp, found, plan),
        0 <= i < rows.len(),
    ensures
        after(rows, plan)[i].thumbnail_path == rows[i].thumbnail_path,
        after(rows, plan)[i].thumbnail_status == rows[i].thumbnail_status,
        after(rows, plan)[i].extracted_at == rows[i].extracted_at,
{
}

/// After an upsert that wrote something the live row of the file holds what was
/// extracted, and reading it gives that back; the same upsert again changes
/// nothing.
pub proof fn law_upserted_metadata_reads_back(
    rows: Seq<MetadataEntry>,
    record: MediaMetadata,
    device: DeviceId,
    stamp: Stamp,
    found: Option<ExistingMetadata>,
    plan: MetadataPlan,
    i: int,
    columns: MetadataColumns,
    again: Option<ExistingMetadata>,
    m: MediaMetadata,
)
    requires
        wf(rows),
        duration_fits(record.duration_ms),
        finds(rows, record.hash.hex(), found),
        (MetadataWriteCmd::UpsertMetadata { record, device }).planned(stamp, found, plan),
        upsert_metadata_outcome(record, device, found) != UpsertOutcome::Unchanged,
        live(after(rows, plan), record.hash.hex(), i),
        holds(after(rows, plan)[i], columns),
        columns.read_as(record.hash, m),
        finds(after(rows, plan), record.hash.hex(), again),
    ensures
        columns.fault() is None,
        m.width == record.width,
        m.height == record.height,
        m.duration_ms == record.duration_ms,
        text_opt(m.captured_at) == text_opt(record.captured_at),
        text_opt(m.camera_make) == text_opt(record.camera_make),
        text_opt(m.camera_model) == text_opt(record.camera_model),
        text_opt(m.codec) == text_opt(record.codec),
        m.bitrate_bps == record.bitrate_bps,
        text_opt(m.mime_type) == text_opt(record.mime_type),
        upsert_metadata_outcome(record, device, again) == UpsertOutcome::Unchanged,
{
    let hash = record.hash.hex();
    let next = after(rows, plan);
    law_upsert_keeps_one_live_row(rows, record, device, stamp, found, plan);
    if found is None {
        assert(live(next, hash, rows.len() as int));
        assert(i == rows.len()) by {
            if i < rows.len() {
                assert(!live(rows, hash, i));
            }
        }
    } else {
        assert(live(rows, hash, i));
    }
    assert(live(next, hash, i));
    assert(next[i].device == device.0.text());
    assert(next[i].mime_type == text_opt(record.mime_type));
    match again {
        None => {
            assert(!live(next, hash, i));
        },
        Some(row) => {
            let k = choose|k: int| #[trigger]
                live(next, hash, k) && next[k].device == row.device@ && next[k].mime_type
                    == text_opt(row.mime_type);
            assert(k == i);
        },
    }
}

/// Recording a thumbnail changes the live row of its file and no other, and leaves
/// what was extracted as it is.
pub proof fn law_thumbnail_update_is_confined(
    rows: Seq<MetadataEntry>,
    hash: BlakeHash,
    path: Option<String>,
    status: String,
    device: DeviceId,
    stamp: Stamp,
    found: Option<ExistingMetadata>,
    plan: MetadataPlan,
    i: int,
)
    requires
        (MetadataWriteCmd::UpdateThumbnail { hash, path, status, device }).planned(
            stamp,
            found,
            plan,
        ),
        0 <= i < rows.len(),
    ensures
        if live(rows, hash.hex(), i) {
            after(rows, plan)[i] == (MetadataEntry {
                thumbnail_path: text_opt(path),
                thumbnail_status: Some(status@),
                updated_at: stamp.now@,
                device: device.0.text(),
                hlc: stamp.hlc as int,
                ..rows[i]
            })
        } else {
            after(rows, plan)[i] == rows[i]
        },
        after(rows, plan).len() == rows.len(),
{
}

} // verus!
