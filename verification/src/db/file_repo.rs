//! Reads of files and their locations: the queries, and what their rows mean.
use vstd::prelude::*;
use vstd::string::*;

use crate::db::convert::{
    first_fault, hash_fault, hash_opt_fault, i64_to_size, is_hash_opt, limit_to_i64,
    parse_file_uuid, parse_optional_hash, parse_uuid_column, parse_volume_id, size_fault,
    status_fault, status_from_str, status_of_text, stored_uuid, str_to_status, uuid_fault, Fault,
};
use crate::db::lists::{
    collisions, collisions_shape, file_hash, file_hash_col, List,
};
use crate::db::lookups::Lookup;
use crate::db::sql::{uuid_value, Bound, SqlCall, SqlValue};
use crate::dedup::{CollisionGroup, VerifiedState};
use crate::errors::CoreError;
use crate::ports::file_repo::{BackfillFileRow, LocationToVerify, VerifyCandidates};
use crate::text::cat;
use crate::types::{
    path_form, BlakeHash, DeviceId, FileLocationRecord, FileUuid, LocationStatus, MediaPath,
    MountedPath, VolumeId,
};

verus! {

/// A row of the queries that list locations.
#[derive(Clone, Debug)]
pub struct LocationRow {
    pub file_uuid: String,
    pub hash: Option<String>,
    pub size: i64,
    pub volume: String,
    pub path: String,
    pub status: String,
    pub first_seen: String,
}

impl LocationRow {
    /// What is wrong with the row: the first fault among its columns.
    pub open spec fn fault(self) -> Option<Fault> {
        first_fault(
            uuid_fault(self.file_uuid@, "bad file_uuid: "@),
            first_fault(
                hash_opt_fault(self.hash),
                first_fault(
                    uuid_fault(self.volume@, "bad volume uuid: "@),
                    first_fault(status_fault(self.status@), size_fault(self.size)),
                ),
            ),
        )
    }

    /// Whether a record says what the row says.
    pub open spec fn read_as(self, r: FileLocationRecord) -> bool {
        &&& r.file_uuid == FileUuid(stored_uuid(self.file_uuid@))
        &&& is_hash_opt(self.hash, r.hash)
        &&& r.size.0 == self.size
        &&& r.volume_id == VolumeId(stored_uuid(self.volume@))
        &&& r.relative_path@ == path_form(self.path@)
        &&& status_of_text(self.status@) == Some(r.status)
        &&& r.first_seen == self.first_seen
    }

    /// Reads the row.
    pub fn read(&self) -> (r: Result<FileLocationRecord, CoreError>)
        ensures
            match self.fault() {
                None => r matches Ok(record) && self.read_as(record),
                Some(f) => r matches Err(e) && f.reported_by(e),
            },
    {
        let file_uuid = match parse_file_uuid(self.file_uuid.as_str()) {
            Ok(u) => u,
            Err(e) => return Err(e),
        };
        let hash = match parse_optional_hash(&self.hash) {
            Ok(h) => h,
            Err(e) => return Err(e),
        };
        let volume_id = match parse_volume_id(self.volume.as_str()) {
            Ok(v) => v,
            Err(e) => return Err(e),
        };
        let status = match status_from_str(self.status.as_str()) {
            Ok(s) => s,
            Err(e) => return Err(e),
        };
        let size = match i64_to_size(self.size) {
            Ok(s) => s,
            Err(e) => return Err(e),
        };
        Ok(
            FileLocationRecord {
                file_uuid,
                hash,
                size,
                volume_id,
                relative_path: MediaPath::new(self.path.as_str()),
                status,
                first_seen: self.first_seen.clone(),
            },
        )
    }
}

/// Whether the row at `k` is the first with a fault, and an error reports it.
pub open spec fn first_bad_location(rows: Seq<LocationRow>, k: int, e: CoreError) -> bool {
    &&& 0 <= k < rows.len()
    &&& forall|j: int| 0 <= j < k ==> (#[trigger] rows[j]).fault() is None
    &&& rows[k].fault() matches Some(f) && f.reported_by(e)
}

/// Whether records say what the rows say, one for one.
pub open spec fn locations_read(rows: Seq<LocationRow>, out: Seq<FileLocationRecord>) -> bool {
    &&& out.len() == rows.len()
    &&& forall|i: int|
        0 <= i < rows.len() ==> (#[trigger] rows[i]).fault() is None && rows[i].read_as(out[i])
}

/// The query that lists locations, all or those of one volume.
pub fn list_file_locations_query(limit: usize, volume: Option<VolumeId>) -> (r: SqlCall)
    ensures
        ({
            let shown = Bound::Int(
                if limit <= i64::MAX {
                    limit as int
                } else {
                    i64::MAX as int
                },
            );
            match volume {
                Some(v) => r.is(List::LocationsOfVolume.sql(), seq![Bound::Text(v.0.text()), shown]),
                None => r.is(List::Locations.sql(), seq![shown]),
            }
        }),
{
    let shown: i64 = limit_to_i64(limit);
    match volume {
        Some(v) => {
            let params: Vec<SqlValue> = vec![uuid_value(v.0), SqlValue::Int(shown)];
            List::LocationsOfVolume.query().call(params)
        },
        None => {
            let params: Vec<SqlValue> = vec![SqlValue::Int(shown)];
            List::Locations.query().call(params)
        },
    }
}

/// Reads the rows of a list of locations; the first row with a fault makes the
/// list fail.
pub fn list_file_locations_sql(rows: &Vec<LocationRow>) -> (r: Result<
    Vec<FileLocationRecord>,
    CoreError,
>)
    ensures
        match r {
            Ok(out) => locations_read(rows@, out@),
            Err(e) => exists|k: int| first_bad_location(rows@, k, e),
        },
{
    let mut out: Vec<FileLocationRecord> = Vec::new();
    let mut i: usize = 0;
    while i < rows.len()
        invariant
            i <= rows.len(),
            locations_read(rows@.take(i as int), out@),
        decreases rows.len() - i,
    {
        let ghost done = rows@.take(i as int);
        match rows[i].read() {
            Ok(record) => out.push(record),
            Err(e) => {
                proof {
                    assert forall|j: int| 0 <= j < i implies (#[trigger] rows@[j]).fault()
                        is None by {
                        assert(done[j].fault() is None);
                    }
                    assert(first_bad_location(rows@, i as int, e));
                }
                return Err(e);
            },
        }
        proof {
            let next = rows@.take(i + 1);
            assert forall|j: int| 0 <= j < next.len() implies (#[trigger] next[j]).fault() is None
                && next[j].read_as(out@[j]) by {
                if j < i {
                    assert(done[j].fault() is None);
                }
            }
        }
        i += 1;
    }
    proof {
        assert(rows@.take(rows@.len() as int) =~= rows@);
    }
    Ok(out)
}

/// A row of the query that lists files without a quick hash.
#[derive(Clone, Debug)]
pub struct BackfillRow {
    pub hash: String,
    pub size: i64,
    pub mount: Option<String>,
    pub path: Option<String>,
}

/// The path below a mount, where both parts are there.
pub open spec fn mounted(mount: Option<String>, path: Option<String>) -> Option<MountedPath> {
    match (mount, path) {
        (Some(m), Some(p)) => Some(MountedPath { mount: m, relative: p }),
        _ => None,
    }
}

fn mounted_path(mount: &Option<String>, path: &Option<String>) -> (r: Option<MountedPath>)
    ensures
        r == mounted(*mount, *path),
{
    match (mount, path) {
        (Some(m), Some(p)) => Some(MountedPath { mount: m.clone(), relative: p.clone() }),
        _ => None,
    }
}

impl BackfillRow {
    /// Whether a record says what the row says; a size below zero counts as zero.
    pub open spec fn read_as(self, r: BackfillFileRow) -> bool {
        &&& r.hash.hex() == self.hash@
        &&& r.size_bytes == if self.size < 0 {
            0int
        } else {
            self.size as int
        }
        &&& r.active_path == mounted(self.mount, self.path)
    }
}

/// Whether the row at `k` is the first without a proper hash, and an error
/// reports it.
pub open spec fn first_bad_backfill(rows: Seq<BackfillRow>, k: int, e: CoreError) -> bool {
    &&& 0 <= k < rows.len()
    &&& forall|j: int| 0 <= j < k ==> hash_fault((#[trigger] rows[j]).hash@) is None
    &&& hash_fault(rows[k].hash@) matches Some(f) && f.reported_by(e)
}

/// The query that lists files without a quick hash.
pub fn list_files_needing_backfill_query(limit: u32) -> (r: SqlCall)
    ensures
        r.is(
            List::Backfill.form().first_of_each_text(file_hash()),
            seq![Bound::Int(limit as int)],
        ),
{
    let params: Vec<SqlValue> = vec![SqlValue::Int(limit as i64)];
    let sql = List::Backfill.query().first_of_each(&file_hash_col());
    SqlCall { sql, params }
}

/// Reads the rows of the list of files without a quick hash.
pub fn list_files_needing_backfill_sql(rows: &Vec<BackfillRow>) -> (r: Result<
    Vec<BackfillFileRow>,
    CoreError,
>)
    ensures
        match r {
            Ok(out) => out@.len() == rows@.len() && forall|i: int|
                0 <= i < rows@.len() ==> hash_fault((#[trigger] rows@[i]).hash@) is None
                    && rows@[i].read_as(out@[i]),
            Err(e) => exists|k: int| first_bad_backfill(rows@, k, e),
        },
{
    let mut out: Vec<BackfillFileRow> = Vec::new();
    let mut i: usize = 0;
    while i < rows.len()
        invariant
            i <= rows.len(),
            out@.len() == i,
            forall|j: int|
                0 <= j < i ==> hash_fault((#[trigger] rows@[j]).hash@) is None && rows@[j].read_as(
                    out@[j],
                ),
        decreases rows.len() - i,
    {
        let row = &rows[i];
        let hash = match BlakeHash::parse_hex(row.hash.as_str()) {
            Ok(h) => h,
            Err(e) => {
                assert(first_bad_backfill(rows@, i as int, e));
                return Err(e);
            },
        };
        let size_bytes: u64 = if row.size < 0 {
            0
        } else {
            row.size as u64
        };
        let active_path = mounted_path(&row.mount, &row.path);
        out.push(BackfillFileRow { hash, size_bytes, active_path });
        i += 1;
    }
    Ok(out)
}

/// A row of the query that finds a file by its identifier.
#[derive(Clone, Debug)]
pub struct FileByUuidRow {
    pub hash: Option<String>,
    pub size: i64,
    pub mount: Option<String>,
    pub path: Option<String>,
}

/// The query that finds a file by its identifier.
pub fn lookup_by_file_uuid_query(file_uuid: FileUuid) -> (r: SqlCall)
    ensures
        r.is(List::ByUuid.sql(), seq![Bound::Text(file_uuid.0.text())]),
{
    let params: Vec<SqlValue> = vec![uuid_value(file_uuid.0)];
    List::ByUuid.query().call(params)
}

/// Reads what the query found. There is nothing to tell of a file without a row,
/// or without an active location on a mounted volume.
pub fn lookup_by_file_uuid_sql(row: &Option<FileByUuidRow>) -> (r: Result<
    Option<(Option<BlakeHash>, MountedPath, u64)>,
    CoreError,
>)
    ensures
        match *row {
            None => r matches Ok(None),
            Some(f) => match first_fault(hash_opt_fault(f.hash), size_fault(f.size)) {
                Some(fault) => r matches Err(e) && fault.reported_by(e),
                None => match mounted(f.mount, f.path) {
                    None => r matches Ok(None),
                    Some(place) => r matches Ok(Some((hash, path, size))) && is_hash_opt(
                        f.hash,
                        hash,
                    ) && path == place && size == f.size,
                },
            },
        },
{
    match row {
        None => Ok(None),
        Some(f) => {
            let hash = match parse_optional_hash(&f.hash) {
                Ok(h) => h,
                Err(e) => return Err(e),
            };
            let size = match i64_to_size(f.size) {
                Ok(s) => s,
                Err(e) => return Err(e),
            };
            match mounted_path(&f.mount, &f.path) {
                Some(path) => Ok(Some((hash, path, size.0))),
                None => Ok(None),
            }
        },
    }
}

/// A row of the query that lists locations to verify.
#[derive(Clone, Debug)]
pub struct VerifyRow {
    pub volume: String,
    pub path: String,
    pub status: String,
    pub mount: String,
}

impl VerifyRow {
    /// What is wrong with the row.
    pub open spec fn fault(self) -> Option<Fault> {
        uuid_fault(self.volume@, "parse volume_id: "@)
    }

    /// Whether a record says what the row says; an unknown status counts as
    /// active.
    pub open spec fn read_as(self, r: LocationToVerify) -> bool {
        &&& r.volume == VolumeId(stored_uuid(self.volume@))
        &&& r.path@ == path_form(self.path@)
        &&& r.absolute_path == (MountedPath { mount: self.mount, relative: self.path })
        &&& r.status == match status_of_text(self.status@) {
            Some(s) => s,
            None => LocationStatus::Active,
        }
    }
}

/// Whether the row at `k` is the first with a fault, and an error reports it.
pub open spec fn first_bad_candidate(rows: Seq<VerifyRow>, k: int, e: CoreError) -> bool {
    &&& 0 <= k < rows.len()
    &&& forall|j: int| 0 <= j < k ==> (#[trigger] rows[j]).fault() is None
    &&& rows[k].fault() matches Some(f) && f.reported_by(e)
}

/// The query that lists the locations on volumes mounted on `device`.
pub fn list_locations_for_verify_query(device: DeviceId) -> (r: SqlCall)
    ensures
        r.is(List::ForVerify.sql(), seq![Bound::Text(device.0.text())]),
{
    let params: Vec<SqlValue> = vec![uuid_value(device.0)];
    List::ForVerify.query().call(params)
}

/// How many of `total` locations the list does not hold; a total that is no
/// proper count stands for zero.
pub open spec fn left_out(total: i64, listed: nat) -> int {
    if total > listed && total <= usize::MAX {
        total - listed
    } else {
        0
    }
}

/// Reads the rows of the locations to verify. `total` is how many live locations
/// there are; those that are not listed were left out because their volume is not
/// mounted.
pub fn list_locations_for_verify_sql(rows: &Vec<VerifyRow>, total: i64) -> (r: Result<
    VerifyCandidates,
    CoreError,
>)
    ensures
        match r {
            Ok(out) => {
                &&& out.locations@.len() == rows@.len()
                &&& forall|i: int|
                    0 <= i < rows@.len() ==> (#[trigger] rows@[i]).fault() is None
                        && rows@[i].read_as(out.locations@[i])
                &&& out.skipped_unmounted == left_out(total, rows@.len())
            },
            Err(e) => exists|k: int| first_bad_candidate(rows@, k, e),
        },
{
    let mut out: Vec<LocationToVerify> = Vec::new();
    let mut i: usize = 0;
    while i < rows.len()
        invariant
            i <= rows.len(),
            out@.len() == i,
            forall|j: int|
                0 <= j < i ==> (#[trigger] rows@[j]).fault() is None && rows@[j].read_as(out@[j]),
        decreases rows.len() - i,
    {
        let row = &rows[i];
        let volume = match parse_uuid_column(row.volume.as_str(), "parse volume_id: ") {
            Ok(u) => u,
            Err(e) => {
                assert(first_bad_candidate(rows@, i as int, e));
                return Err(e);
            },
        };
        out.push(
            LocationToVerify {
                volume: VolumeId(volume),
                path: MediaPath::new(row.path.as_str()),
                absolute_path: MountedPath {
                    mount: row.mount.clone(),
                    relative: row.path.clone(),
                },
                status: str_to_status(row.status.as_str()),
            },
        );
        i += 1;
    }
    let listed: usize = out.len();
    let all: usize = if total >= 0 && total as u64 <= usize::MAX as u64 {
        total as usize
    } else {
        0
    };
    let skipped_unmounted: usize = if all > listed {
        all - listed
    } else {
        0
    };
    Ok(VerifyCandidates { locations: out, skipped_unmounted })
}

/// The query that counts the live locations.
pub fn count_locations_query() -> (r: SqlCall)
    ensures
        r.is(Lookup::LocationCount.sql(), Seq::<Bound>::empty()),
{
    Lookup::LocationCount.shape().call(Vec::new())
}

/// The query that counts the live locations that are missing.
pub fn count_missing_query() -> (r: SqlCall)
    ensures
        r.is(Lookup::MissingCount.sql(), Seq::<Bound>::empty()),
{
    Lookup::MissingCount.shape().call(Vec::new())
}

/// The query that lists files with an active mounted location and no full hash.
pub fn list_files_pending_full_hash_query(limit: usize) -> (r: SqlCall)
    ensures
        r.is(
            List::Pending.sql(),
            seq![
                Bound::Int(
                    if limit <= i64::MAX {
                        limit as int
                    } else {
                        i64::MAX as int
                    },
                ),
            ],
        ),
{
    let params: Vec<SqlValue> = vec![SqlValue::Int(limit_to_i64(limit))];
    List::Pending.query().call(params)
}

/// Whether the text at `k` is the first that is no identifier, and an error
/// reports it.
pub open spec fn first_bad_uuid(rows: Seq<String>, k: int, e: CoreError) -> bool {
    &&& 0 <= k < rows.len()
    &&& forall|j: int|
        0 <= j < k ==> uuid_fault((#[trigger] rows[j])@, "bad file_uuid: "@) is None
    &&& uuid_fault(rows[k]@, "bad file_uuid: "@) matches Some(f) && f.reported_by(e)
}

/// Reads the identifiers of the files without a full hash.
pub fn list_files_pending_full_hash_sql(rows: &Vec<String>) -> (r: Result<
    Vec<FileUuid>,
    CoreError,
>)
    ensures
        match r {
            Ok(out) => out@.len() == rows@.len() && forall|i: int|
                0 <= i < rows@.len() ==> uuid_fault((#[trigger] rows@[i])@, "bad file_uuid: "@)
                    is None && out@[i] == FileUuid(stored_uuid(rows@[i]@)),
            Err(e) => exists|k: int| first_bad_uuid(rows@, k, e),
        },
{
    let mut out: Vec<FileUuid> = Vec::new();
    let mut i: usize = 0;
    while i < rows.len()
        invariant
            i <= rows.len(),
            out@.len() == i,
            forall|j: int|
                0 <= j < i ==> uuid_fault((#[trigger] rows@[j])@, "bad file_uuid: "@) is None
                    && out@[j] == FileUuid(stored_uuid(rows@[j]@)),
        decreases rows.len() - i,
    {
        match parse_file_uuid(rows[i].as_str()) {
            Ok(u) => out.push(u),
            Err(e) => {
                assert(first_bad_uuid(rows@, i as int, e));
                return Err(e);
            },
        }
        i += 1;
    }
    Ok(out)
}

/// A quick hash that several files share, and the locations of those files.
#[derive(Clone, Debug)]
pub struct GroupRows {
    pub quick_hash: String,
    pub rows: Vec<LocationRow>,
}

impl GroupRows {
    /// Whether the group can be read.
    pub open spec fn sound(self) -> bool {
        hash_fault(self.quick_hash@) is None && forall|i: int|
            0 <= i < self.rows@.len() ==> (#[trigger] self.rows@[i]).fault() is None
    }

    /// Whether an error reports the first fault of the group.
    pub open spec fn fails_with(self, e: CoreError) -> bool {
        match hash_fault(self.quick_hash@) {
            Some(f) => f.reported_by(e),
            None => exists|k: int| first_bad_location(self.rows@, k, e),
        }
    }

    /// Whether a record says what the group says.
    pub open spec fn read_as(self, g: CollisionGroup) -> bool {
        &&& g.quick_hash.hex() == self.quick_hash@
        &&& locations_read(self.rows@, g.files@)
        &&& g.verified_state == VerifiedState::Unverified
    }
}

/// The groups that have locations.
pub open spec fn occupied(groups: Seq<GroupRows>) -> Seq<GroupRows> {
    groups.filter(|g: GroupRows| g.rows@.len() > 0)
}

/// The query for the quick hashes that several live files share, unless all of
/// those files are known to be distinct.
pub fn colliding_query() -> (r: SqlCall)
    ensures
        r.is(collisions().text(), Seq::<Bound>::empty()),
{
    SqlCall { sql: collisions_shape().text(), params: Vec::new() }
}

/// The query for the locations of the files that share a quick hash.
pub fn collision_group_query(quick_hash: &str) -> (r: SqlCall)
    ensures
        r.is(List::Group.sql(), seq![Bound::Text(quick_hash@)]),
{
    let params: Vec<SqlValue> = vec![crate::db::sql::text_value(quick_hash)];
    List::Group.query().call(params)
}

/// Whether the group at `k` is the first with a fault, and an error reports it.
pub open spec fn first_bad_group(groups: Seq<GroupRows>, k: int, e: CoreError) -> bool {
    &&& 0 <= k < groups.len()
    &&& forall|j: int| 0 <= j < k ==> (#[trigger] groups[j]).sound()
    &&& groups[k].fails_with(e)
}

/// Reads the groups of files that share a quick hash, in their order. A group
/// that has lost its locations is skipped.
pub fn list_quick_hash_collisions_sql(groups: &Vec<GroupRows>) -> (r: Result<
    Vec<CollisionGroup>,
    CoreError,
>)
    ensures
        match r {
            Ok(out) => {
                &&& forall|i: int| 0 <= i < groups@.len() ==> (#[trigger] groups@[i]).sound()
                &&& out@.len() == occupied(groups@).len()
                &&& forall|i: int|
                    0 <= i < out@.len() ==> (#[trigger] occupied(groups@)[i]).read_as(out@[i])
            },
            Err(e) => exists|k: int| first_bad_group(groups@, k, e),
        },
{
    let mut out: Vec<CollisionGroup> = Vec::new();
    let mut i: usize = 0;
    proof {
        assert(occupied(groups@.take(0)) =~= Seq::<GroupRows>::empty()) by {
            reveal(Seq::filter);
        }
    }
    while i < groups.len()
        invariant
            i <= groups.len(),
            forall|j: int| 0 <= j < i ==> (#[trigger] groups@[j]).sound(),
            out@.len() == occupied(groups@.take(i as int)).len(),
            forall|j: int|
                0 <= j < out@.len() ==> (#[trigger] occupied(groups@.take(i as int))[j]).read_as(
                    out@[j],
                ),
        decreases groups.len() - i,
    {
        let group = &groups[i];
        let quick_hash = match BlakeHash::parse_hex(group.quick_hash.as_str()) {
            Ok(h) => h,
            Err(e) => {
                assert(first_bad_group(groups@, i as int, e));
                return Err(e);
            },
        };
        let files = match list_file_locations_sql(&group.rows) {
            Ok(f) => f,
            Err(e) => {
                assert(first_bad_group(groups@, i as int, e));
                return Err(e);
            },
        };
        proof {
            let part = groups@.take(i + 1);
            assert(part.drop_last() =~= groups@.take(i as int));
            assert(part.last() == *group);
            assert(occupied(part) =~= if group.rows@.len() > 0 {
                occupied(groups@.take(i as int)).push(*group)
            } else {
                occupied(groups@.take(i as int))
            }) by {
                reveal(Seq::filter);
            }
        }
        if files.len() > 0 {
            out.push(
                CollisionGroup { quick_hash, files, verified_state: VerifiedState::Unverified },
            );
        }
        i += 1;
    }
    proof {
        assert(groups@.take(groups@.len() as int) =~= groups@);
    }
    Ok(out)
}

/// What storing a full hash comes to: a file without a row is an error.
pub fn full_hash_stored(file_uuid: FileUuid, rows: u64) -> (r: Result<(), CoreError>)
    ensures
        match r {
            Ok(_) => rows > 0,
            Err(e) => rows == 0 && e.is_not_found("no files row for file_uuid="@ + file_uuid.0.text()),
        },
{
    if rows == 0 {
        let id = file_uuid.0.to_hyphenated();
        Err(CoreError::NotFound(cat("no files row for file_uuid=", id.as_str())))
    } else {
        Ok(())
    }
}

} // verus!
