//! Reads of media metadata: the queries, and what their rows mean.
use vstd::prelude::*;
use vstd::string::*;

use crate::db::convert::{
    first_fault, i64_to_u32_opt, i64_to_u64_opt, limit_to_i64, u32_opt_fault, u64_opt_fault, Fault,
};
use crate::db::file_repo::LocationRow;
use crate::db::lists::List;
use crate::db::lookups::Lookup;
use crate::db::sql::{uuid_value, Bound, SqlCall, SqlValue};
use crate::db::writer::file::hash_value;
use crate::errors::CoreError;
use crate::metadata::MediaMetadata;
use crate::ports::metadata_repo::FileWithMetadataRow;
use crate::text::copy_text_opt;
use crate::types::{BlakeHash, VolumeId};

verus! {

/// The stored columns of metadata.
#[derive(Clone, Debug)]
pub struct MetadataColumns {
    pub width: Option<i64>,
    pub height: Option<i64>,
    pub duration_ms: Option<i64>,
    pub captured_at: Option<String>,
    pub camera_make: Option<String>,
    pub camera_model: Option<String>,
    pub codec: Option<String>,
    pub bitrate_bps: Option<i64>,
    pub mime_type: Option<String>,
    pub thumbnail_path: Option<String>,
    pub thumbnail_status: Option<String>,
}

/// Whether a number is the stored one.
pub open spec fn is_u32_opt(v: Option<i64>, r: Option<u32>) -> bool {
    match v {
        Some(n) => r matches Some(x) && x == n,
        None => r is None,
    }
}

/// Whether a number is the stored one.
pub open spec fn is_u64_opt(v: Option<i64>, r: Option<u64>) -> bool {
    match v {
        Some(n) => r matches Some(x) && x == n,
        None => r is None,
    }
}

impl MetadataColumns {
    /// What is wrong with the columns: the first fault among them.
    pub open spec fn fault(self) -> Option<Fault> {
        first_fault(
            u32_opt_fault(self.width),
            first_fault(
                u32_opt_fault(self.height),
                first_fault(u64_opt_fault(self.duration_ms), u32_opt_fault(self.bitrate_bps)),
            ),
        )
    }

    /// Whether a record for `hash` says what the columns say.
    pub open spec fn read_as(self, hash: BlakeHash, m: MediaMetadata) -> bool {
        &&& m.hash == hash
        &&& is_u32_opt(self.width, m.width)
        &&& is_u32_opt(self.height, m.height)
        &&& is_u64_opt(self.duration_ms, m.duration_ms)
        &&& m.captured_at == self.captured_at
        &&& m.camera_make == self.camera_make
        &&& m.camera_model == self.camera_model
        &&& m.codec == self.codec
        &&& is_u32_opt(self.bitrate_bps, m.bitrate_bps)
        &&& m.mime_type == self.mime_type
        &&& m.thumbnail_path == self.thumbnail_path
        &&& m.thumbnail_status == self.thumbnail_status
    }

    /// Reads the columns as the metadata of `hash`.
    pub fn read(&self, hash: &BlakeHash) -> (r: Result<MediaMetadata, CoreError>)
        ensures
            match self.fault() {
                None => r matches Ok(m) && self.read_as(*hash, m),
                Some(f) => r matches Err(e) && f.reported_by(e),
            },
    {
        let width = match i64_to_u32_opt(self.width) {
            Ok(v) => v,
            Err(e) => return Err(e),
        };
        let height = match i64_to_u32_opt(self.height) {
            Ok(v) => v,
            Err(e) => return Err(e),
        };
        let duration_ms = match i64_to_u64_opt(self.duration_ms) {
            Ok(v) => v,
            Err(e) => return Err(e),
        };
        let bitrate_bps = match i64_to_u32_opt(self.bitrate_bps) {
            Ok(v) => v,
            Err(e) => return Err(e),
        };
        Ok(
            MediaMetadata {
                hash: *hash,
                width,
                height,
                duration_ms,
                captured_at: copy_text_opt(&self.captured_at),
                camera_make: copy_text_opt(&self.camera_make),
                camera_model: copy_text_opt(&self.camera_model),
                codec: copy_text_opt(&self.codec),
                bitrate_bps,
                mime_type: copy_text_opt(&self.mime_type),
                thumbnail_path: copy_text_opt(&self.thumbnail_path),
                thumbnail_status: copy_text_opt(&self.thumbnail_status),
            },
        )
    }
}

/// The query for the metadata of a file.
pub fn find_by_hash_query(hash: &BlakeHash) -> (r: SqlCall)
    ensures
        r.is(Lookup::Metadata.sql(), seq![Bound::Text(hash.hex())]),
{
    let params: Vec<SqlValue> = vec![hash_value(hash)];
    Lookup::Metadata.shape().call(params)
}

/// Reads what the query found for a file.
pub fn find_by_hash(hash: &BlakeHash, row: &Option<MetadataColumns>) -> (r: Result<
    Option<MediaMetadata>,
    CoreError,
>)
    ensures
        match *row {
            None => r matches Ok(None),
            Some(columns) => match columns.fault() {
                None => r matches Ok(Some(m)) && columns.read_as(*hash, m),
                Some(f) => r matches Err(e) && f.reported_by(e),
            },
        },
{
    match row {
        None => Ok(None),
        Some(columns) => match columns.read(hash) {
            Ok(m) => Ok(Some(m)),
            Err(e) => Err(e),
        },
    }
}

/// A row of the queries that list locations with metadata.
#[derive(Clone, Debug)]
pub struct LocationMetadataRow {
    pub location: LocationRow,
    /// When the metadata was last written; `None` where there is none.
    pub updated_at: Option<String>,
    pub columns: MetadataColumns,
    pub quick_hash: Option<String>,
}

impl LocationMetadataRow {
    /// Whether the row holds metadata.
    pub open spec fn has_metadata(self) -> bool {
        self.updated_at is Some && self.location.hash is Some
    }

    /// What is wrong with the row: the first fault among its columns. Columns of
    /// metadata that is not there do not count.
    pub open spec fn fault(self) -> Option<Fault> {
        first_fault(
            self.location.fault(),
            if self.has_metadata() {
                self.columns.fault()
            } else {
                None
            },
        )
    }

    /// Whether a record says what the row says.
    pub open spec fn read_as(self, r: FileWithMetadataRow) -> bool {
        &&& self.location.read_as(r.0)
        &&& if self.has_metadata() {
            r.1 matches Some(m) && self.columns.read_as(r.0.hash->0, m)
        } else {
            r.1 is None
        }
        &&& r.2 == self.quick_hash
    }

    /// Reads the row.
    pub fn read(&self) -> (r: Result<FileWithMetadataRow, CoreError>)
        ensures
            match self.fault() {
                None => r matches Ok(record) && self.read_as(record),
                Some(f) => r matches Err(e) && f.reported_by(e),
            },
    {
        let location = match self.location.read() {
            Ok(l) => l,
            Err(e) => return Err(e),
        };
        let metadata = if self.updated_at.is_some() {
            match location.hash {
                Some(hash) => match self.columns.read(&hash) {
                    Ok(m) => Some(m),
                    Err(e) => return Err(e),
                },
                None => None,
            }
        } else {
            None
        };
        Ok((location, metadata, copy_text_opt(&self.quick_hash)))
    }
}

/// The query that lists locations with metadata, all or those of one volume.
pub fn list_with_metadata_query(limit: usize, volume: Option<VolumeId>) -> (r: SqlCall)
    ensures
        ({
            let shown = Bound::Int(
                if limit <= i64::MAX {
                    limit as int
                } else {
                    i64::MAX as int
                },
            );
            match volume {
                Some(v) => r.is(
                    List::WithMetadataOfVolume.sql(),
                    seq![Bound::Text(v.0.text()), shown],
                ),
                None => r.is(List::WithMetadata.sql(), seq![shown]),
            }
        }),
{
    let shown: i64 = limit_to_i64(limit);
    match volume {
        Some(v) => {
            let params: Vec<SqlValue> = vec![uuid_value(v.0), SqlValue::Int(shown)];
            List::WithMetadataOfVolume.query().call(params)
        },
        None => {
            let params: Vec<SqlValue> = vec![SqlValue::Int(shown)];
            List::WithMetadata.query().call(params)
        },
    }
}

/// Whether the row at `k` is the first with a fault, and an error reports it.
pub open spec fn first_bad_row(rows: Seq<LocationMetadataRow>, k: int, e: CoreError) -> bool {
    &&& 0 <= k < rows.len()
    &&& forall|j: int| 0 <= j < k ==> (#[trigger] rows[j]).fault() is None
    &&& rows[k].fault() matches Some(f) && f.reported_by(e)
}

/// Reads the rows of a list of locations with metadata; the first row with a
/// fault makes the list fail.
pub fn list_with_metadata(rows: &Vec<LocationMetadataRow>) -> (r: Result<
    Vec<FileWithMetadataRow>,
    CoreError,
>)
    ensures
        match r {
            Ok(out) => out@.len() == rows@.len() && forall|i: int|
                0 <= i < rows@.len() ==> (#[trigger] rows@[i]).fault() is None && rows@[i].read_as(
                    out@[i],
                ),
            Err(e) => exists|k: int| first_bad_row(rows@, k, e),
        },
{
    let mut out: Vec<FileWithMetadataRow> = Vec::new();
    let mut i: usize = 0;
    while i < rows.len()
        invariant
            i <= rows.len(),
            out@.len() == i,
            forall|j: int|
                0 <= j < i ==> (#[trigger] rows@[j]).fault() is None && rows@[j].read_as(out@[j]),
        decreases rows.len() - i,
    {
        match rows[i].read() {
            Ok(record) => out.push(record),
            Err(e) => {
                assert(first_bad_row(rows@, i as int, e));
                return Err(e);
            },
        }
        i += 1;
    }
    Ok(out)
}

} // verus!
