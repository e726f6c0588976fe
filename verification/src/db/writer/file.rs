//! Commands that write files and their locations.
use vstd::prelude::*;
use vstd::string::*;

use crate::db::convert::{size_to_i64, status_text, status_to_str};
use crate::db::lookups::Lookup;
use crate::db::shape::{assign, put, Assign, Form, Shape, Term, Test, Verb};
use crate::db::sql::{
    bound_text_opt, sum_counts, text_value, total, uuid_value, Bound, SqlCall, SqlValue, Stamp,
};
use crate::db::writer::job::{Command, Decision};
use crate::errors::CoreError;
use crate::events::{AppEvent, InvalidationReason};
use crate::ids::Uuid;
use crate::ports::file_repo::LocationStatusUpdate;
use crate::text::{cat3, dec_nat, text_opt, u64_text};
use crate::types::{
    BlakeHash, DeviceId, FileUuid, HashedFile, LocationStatus, MediaPath, UpsertOutcome, VolumeId,
};

verus! {

/// A command that writes files or their locations.
#[derive(Clone, Debug)]
pub enum FileWriteCmd {
    /// Insert or update the row of a file.
    UpsertFile { file: HashedFile, device: DeviceId, quick_hash: Option<BlakeHash> },
    /// Insert or update the row of a location.
    UpsertLocation { hash: BlakeHash, volume: VolumeId, path: MediaPath, device: DeviceId },
    /// Record the status of one location.
    UpdateLocationStatus {
        volume: VolumeId,
        path: MediaPath,
        status: LocationStatus,
        device: DeviceId,
    },
    /// Record the statuses that a verification sweep found.
    UpdateLocationStatuses { updates: Vec<LocationStatusUpdate>, device: DeviceId },
    /// Retire every location that is missing.
    SoftDeleteMissingLocations { device: DeviceId },
    /// Move a location to another path of its volume.
    UpdateLocationPath {
        volume: VolumeId,
        old_path: MediaPath,
        new_path: MediaPath,
        device: DeviceId,
    },
    /// Give a location without a volume its real volume.
    MigrateSentinelRow { path: MediaPath, real_volume: VolumeId, device: DeviceId },
    /// Store the full hash of a file.
    PromoteFullHash { file_uuid: FileUuid, full_hash: BlakeHash, device: DeviceId },
    /// Record that files are known to be distinct.
    MarkVerifiedDistinct { file_uuids: Vec<FileUuid>, device: DeviceId },
}

/// A statement that changes `files` or `file_locations`.
#[allow(inconsistent_fields)]
#[derive(Clone, Debug)]
pub enum FileStatement {
    InsertFile {
        hash: BlakeHash,
        file_uuid: Uuid,
        size: i64,
        quick_hash: Option<BlakeHash>,
        now: String,
        device: DeviceId,
        hlc: i64,
    },
    UpdateFile {
        size: i64,
        now: String,
        device: DeviceId,
        hlc: i64,
        hash: BlakeHash,
        quick_hash: Option<BlakeHash>,
    },
    InsertLocation {
        id: Uuid,
        hash: BlakeHash,
        volume: VolumeId,
        path: MediaPath,
        now: String,
        device: DeviceId,
        hlc: i64,
    },
    UpdateLocationHash { hash: BlakeHash, now: String, device: DeviceId, hlc: i64, id: String },
    SetLocationStatus {
        status: LocationStatus,
        now: String,
        device: DeviceId,
        hlc: i64,
        volume: VolumeId,
        path: MediaPath,
    },
    RetireMissing { now: String, device: DeviceId, hlc: i64 },
    RetireLocation { now: String, device: DeviceId, hlc: i64, volume: VolumeId, path: MediaPath },
    RenameLocation {
        new_path: MediaPath,
        now: String,
        device: DeviceId,
        hlc: i64,
        volume: VolumeId,
        old_path: MediaPath,
    },
    AdoptSentinel { volume: VolumeId, now: String, device: DeviceId, hlc: i64, path: MediaPath },
    PromoteHash { hash: BlakeHash, now: String, device: DeviceId, hlc: i64, file_uuid: FileUuid },
    MarkDistinct { now: String, device: DeviceId, hlc: i64, file_uuid: FileUuid },
}

/// The text of a hash that may be absent.
pub open spec fn hex_opt(h: Option<BlakeHash>) -> Option<Seq<char>> {
    match h {
        Some(hash) => Some(hash.hex()),
        None => None,
    }
}

/// The text of a hash to bind.
pub(crate) fn hash_value(h: &BlakeHash) -> (r: SqlValue)
    ensures
        r@ == Bound::Text(h.hex()),
{
    SqlValue::Text(h.to_hex())
}

/// The text of a hash to bind, or NULL.
pub(crate) fn hash_opt_value(h: &Option<BlakeHash>) -> (r: SqlValue)
    ensures
        r@ == bound_text_opt(hex_opt(*h)),
{
    match h {
        Some(hash) => hash_value(hash),
        None => SqlValue::Null,
    }
}

impl FileStatement {
    /// The parts of the statement.
    pub open spec fn form(self) -> Form {
        match self {
            FileStatement::InsertFile { .. } => Form {
                verb: Verb::Insert,
                table: "files"@,
                columns: seq![
                    put("blake3_hash", 1),
                    put("file_uuid", 2),
                    put("file_size", 3),
                    put("quick_hash", 4),
                    put("first_seen", 5),
                    put("updated_at", 5),
                    put("device_id", 6),
                    put("hlc", 7),
                ],
                tests: seq![],
            },
            FileStatement::UpdateFile { .. } => Form {
                verb: Verb::Update,
                table: "files"@,
                columns: seq![
                    put("file_size", 1),
                    put("updated_at", 2),
                    put("device_id", 3),
                    put("hlc", 4),
                    Assign { column: "quick_hash", term: Term::Kept(6) },
                ],
                tests: seq![
                    Test::Equals("blake3_hash", 5),
                ],
            },
            FileStatement::InsertLocation { .. } => Form {
                verb: Verb::Insert,
                table: "file_locations"@,
                columns: seq![
                    put("id", 1),
                    put("blake3_hash", 2),
                    Assign { column: "file_uuid", term: Term::FileOf(2) },
                    put("volume_id", 3),
                    put("relative_path", 4),
                    Assign { column: "status", term: Term::Word("active") },
                    put("first_seen", 5),
                    put("updated_at", 5),
                    put("device_id", 6),
                    put("hlc", 7),
                ],
                tests: seq![],
            },
            FileStatement::UpdateLocationHash { .. } => Form {
                verb: Verb::Update,
                table: "file_locations"@,
                columns: seq![
                    put("blake3_hash", 1),
                    put("updated_at", 2),
                    put("device_id", 3),
                    put("hlc", 4),
                ],
                tests: seq![
                    Test::Equals("id", 5),
                ],
            },
            FileStatement::SetLocationStatus { .. } => Form {
                verb: Verb::Update,
                table: "file_locations"@,
                columns: seq![
                    put("status", 1),
                    put("updated_at", 2),
                    put("device_id", 3),
                    put("hlc", 4),
                ],
                tests: seq![
                    Test::Equals("volume_id", 5),
                    Test::Equals("relative_path", 6),
                    Test::Absent("deleted_at"),
                ],
            },
            FileStatement::RetireMissing { .. } => Form {
                verb: Verb::Update,
                table: "file_locations"@,
                columns: seq![
                    put("deleted_at", 1),
                    put("updated_at", 1),
                    put("device_id", 2),
                    put("hlc", 3),
                ],
                tests: seq![
                    Test::Says("status", "missing"),
                    Test::Absent("deleted_at"),
                ],
            },
            FileStatement::RetireLocation { .. } => Form {
                verb: Verb::Update,
                table: "file_locations"@,
                columns: seq![
                    put("deleted_at", 1),
                    put("updated_at", 1),
                    put("device_id", 2),
                    put("hlc", 3),
                ],
                tests: seq![
                    Test::Equals("volume_id", 4),
                    Test::Equals("relative_path", 5),
                    Test::Absent("deleted_at"),
                ],
            },
            FileStatement::RenameLocation { .. } => Form {
                verb: Verb::Update,
                table: "file_locations"@,
                columns: seq![
                    put("relative_path", 1),
                    Assign { column: "status", term: Term::Word("active") },
                    put("updated_at", 2),
                    put("device_id", 3),
                    put("hlc", 4),
                ],
                tests: seq![
                    Test::Equals("volume_id", 5),
                    Test::Equals("relative_path", 6),
                    Test::Absent("deleted_at"),
                ],
            },
            FileStatement::AdoptSentinel { .. } => Form {
                verb: Verb::Update,
                table: "file_locations"@,
                columns: seq![
                    put("volume_id", 1),
                    put("updated_at", 2),
                    put("device_id", 3),
                    put("hlc", 4),
                ],
                tests: seq![
                    Test::Says("volume_id", "00000000-0000-0000-0000-000000000000"),
                    Test::Equals("relative_path", 5),
                    Test::Absent("deleted_at"),
                ],
            },
            FileStatement::PromoteHash { .. } => Form {
                verb: Verb::Update,
                table: "files"@,
                columns: seq![
                    put("blake3_hash", 1),
                    put("updated_at", 2),
                    put("device_id", 3),
                    put("hlc", 4),
                ],
                tests: seq![
                    Test::Equals("file_uuid", 5),
                    Test::Absent("deleted_at"),
                ],
            },
            FileStatement::MarkDistinct { .. } => Form {
                verb: Verb::Update,
                table: "files"@,
                columns: seq![
                    Assign { column: "verified_distinct", term: Term::Number(1) },
                    put("updated_at", 1),
                    put("device_id", 2),
                    put("hlc", 3),
                ],
                tests: seq![
                    Test::Equals("file_uuid", 4),
                    Test::Absent("deleted_at"),
                ],
            },
        }
    }

    /// The parts of the statement.
    pub fn shape(&self) -> (r: Shape)
        ensures
            r@ == self.form(),
    {
        let r = match self {
            FileStatement::InsertFile { .. } => Shape {
                verb: Verb::Insert,
                table: "files",
                columns: vec![
                    assign("blake3_hash", 1),
                    assign("file_uuid", 2),
                    assign("file_size", 3),
                    assign("quick_hash", 4),
                    assign("first_seen", 5),
                    assign("updated_at", 5),
                    assign("device_id", 6),
                    assign("hlc", 7),
                ],
                tests: Vec::new(),
            },
            FileStatement::UpdateFile { .. } => Shape {
                verb: Verb::Update,
                table: "files",
                columns: vec![
                    assign("file_size", 1),
                    assign("updated_at", 2),
                    assign("device_id", 3),
                    assign("hlc", 4),
                    Assign { column: "quick_hash", term: Term::Kept(6) },
                ],
                tests: vec![
                    Test::Equals("blake3_hash", 5),
                ],
            },
            FileStatement::InsertLocation { .. } => Shape {
                verb: Verb::Insert,
                table: "file_locations",
                columns: vec![
                    assign("id", 1),
                    assign("blake3_hash", 2),
                    Assign { column: "file_uuid", term: Term::FileOf(2) },
                    assign("volume_id", 3),
                    assign("relative_path", 4),
                    Assign { column: "status", term: Term::Word("active") },
                    assign("first_seen", 5),
                    assign("updated_at", 5),
                    assign("device_id", 6),
                    assign("hlc", 7),
                ],
                tests: Vec::new(),
            },
            FileStatement::UpdateLocationHash { .. } => Shape {
                verb: Verb::Update,
                table: "file_locations",
                columns: vec![
                    assign("blake3_hash", 1),
                    assign("updated_at", 2),
                    assign("device_id", 3),
                    assign("hlc", 4),
                ],
                tests: vec![
                    Test::Equals("id", 5),
                ],
            },
            FileStatement::SetLocationStatus { .. } => Shape {
                verb: Verb::Update,
                table: "file_locations",
                columns: vec![
                    assign("status", 1),
                    assign("updated_at", 2),
                    assign("device_id", 3),
                    assign("hlc", 4),
                ],
                tests: vec![
                    Test::Equals("volume_id", 5),
                    Test::Equals("relative_path", 6),
                    Test::Absent("deleted_at"),
                ],
            },
            FileStatement::RetireMissing { .. } => Shape {
                verb: Verb::Update,
                table: "file_locations",
                columns: vec![
                    assign("deleted_at", 1),
                    assign("updated_at", 1),
                    assign("device_id", 2),
                    assign("hlc", 3),
                ],
                tests: vec![
                    Test::Says("status", "missing"),
                    Test::Absent("deleted_at"),
                ],
            },
            FileStatement::RetireLocation { .. } => Shape {
                verb: Verb::Update,
                table: "file_locations",
                columns: vec![
                    assign("deleted_at", 1),
                    assign("updated_at", 1),
                    assign("device_id", 2),
                    assign("hlc", 3),
                ],
                tests: vec![
                    Test::Equals("volume_id", 4),
                    Test::Equals("relative_path", 5),
                    Test::Absent("deleted_at"),
                ],
            },
            FileStatement::RenameLocation { .. } => Shape {
                verb: Verb::Update,
                table: "file_locations",
                columns: vec![
                    assign("relative_path", 1),
                    Assign { column: "status", term: Term::Word("active") },
                    assign("updated_at", 2),
                    assign("device_id", 3),
                    assign("hlc", 4),
                ],
                tests: vec![
                    Test::Equals("volume_id", 5),
                    Test::Equals("relative_path", 6),
                    Test::Absent("deleted_at"),
                ],
            },
            FileStatement::AdoptSentinel { .. } => Shape {
                verb: Verb::Update,
                table: "file_locations",
                columns: vec![
                    assign("volume_id", 1),
                    assign("updated_at", 2),
                    assign("device_id", 3),
                    assign("hlc", 4),
                ],
                tests: vec![
                    Test::Says("volume_id", "00000000-0000-0000-0000-000000000000"),
                    Test::Equals("relative_path", 5),
                    Test::Absent("deleted_at"),
                ],
            },
            FileStatement::PromoteHash { .. } => Shape {
                verb: Verb::Update,
                table: "files",
                columns: vec![
                    assign("blake3_hash", 1),
                    assign("updated_at", 2),
                    assign("device_id", 3),
                    assign("hlc", 4),
                ],
                tests: vec![
                    Test::Equals("file_uuid", 5),
                    Test::Absent("deleted_at"),
                ],
            },
            FileStatement::MarkDistinct { .. } => Shape {
                verb: Verb::Update,
                table: "files",
                columns: vec![
                    Assign { column: "verified_distinct", term: Term::Number(1) },
                    assign("updated_at", 1),
                    assign("device_id", 2),
                    assign("hlc", 3),
                ],
                tests: vec![
                    Test::Equals("file_uuid", 4),
                    Test::Absent("deleted_at"),
                ],
            },
        };
        assert(r.columns@ =~= self.form().columns);
        assert(r.tests@ =~= self.form().tests);
        r
    }
}

impl FileStatement {
    /// The text of the statement.
    pub open spec fn sql(self) -> Seq<char> {
        self.form().text()
    }

    /// The values bound to the statement.
    pub open spec fn bound(self) -> Seq<Bound> {
        match self {
            FileStatement::InsertFile { hash, file_uuid, size, quick_hash, now, device, hlc } => seq![
                Bound::Text(hash.hex()),
                Bound::Text(file_uuid.text()),
                Bound::Int(size as int),
                bound_text_opt(hex_opt(quick_hash)),
                Bound::Text(now@),
                Bound::Text(device.0.text()),
                Bound::Int(hlc as int),
            ],
            FileStatement::UpdateFile { size, now, device, hlc, hash, quick_hash } => seq![
                Bound::Int(size as int),
                Bound::Text(now@),
                Bound::Text(device.0.text()),
                Bound::Int(hlc as int),
                Bound::Text(hash.hex()),
                bound_text_opt(hex_opt(quick_hash)),
            ],
            FileStatement::InsertLocation { id, hash, volume, path, now, device, hlc } => seq![
                Bound::Text(id.text()),
                Bound::Text(hash.hex()),
                Bound::Text(volume.0.text()),
                Bound::Text(path@),
                Bound::Text(now@),
                Bound::Text(device.0.text()),
                Bound::Int(hlc as int),
            ],
            FileStatement::UpdateLocationHash { hash, now, device, hlc, id } => seq![
                Bound::Text(hash.hex()),
                Bound::Text(now@),
                Bound::Text(device.0.text()),
                Bound::Int(hlc as int),
                Bound::Text(id@),
            ],
            FileStatement::SetLocationStatus { status, now, device, hlc, volume, path } => seq![
                Bound::Text(status_text(status)),
                Bound::Text(now@),
                Bound::Text(device.0.text()),
                Bound::Int(hlc as int),
                Bound::Text(volume.0.text()),
                Bound::Text(path@),
            ],
            FileStatement::RetireMissing { now, device, hlc } => seq![
                Bound::Text(now@),
                Bound::Text(device.0.text()),
                Bound::Int(hlc as int),
            ],
            FileStatement::RetireLocation { now, device, hlc, volume, path } => seq![
                Bound::Text(now@),
                Bound::Text(device.0.text()),
                Bound::Int(hlc as int),
                Bound::Text(volume.0.text()),
                Bound::Text(path@),
            ],
            FileStatement::RenameLocation { new_path, now, device, hlc, volume, old_path } => seq![
                Bound::Text(new_path@),
                Bound::Text(now@),
                Bound::Text(device.0.text()),
                Bound::Int(hlc as int),
                Bound::Text(volume.0.text()),
                Bound::Text(old_path@),
            ],
            FileStatement::AdoptSentinel { volume, now, device, hlc, path } => seq![
                Bound::Text(volume.0.text()),
                Bound::Text(now@),
                Bound::Text(device.0.text()),
                Bound::Int(hlc as int),
                Bound::Text(path@),
            ],
            FileStatement::PromoteHash { hash, now, device, hlc, file_uuid } => seq![
                Bound::Text(hash.hex()),
                Bound::Text(now@),
                Bound::Text(device.0.text()),
                Bound::Int(hlc as int),
                Bound::Text(file_uuid.0.text()),
            ],
            FileStatement::MarkDistinct { now, device, hlc, file_uuid } => seq![
                Bound::Text(now@),
                Bound::Text(device.0.text()),
                Bound::Int(hlc as int),
                Bound::Text(file_uuid.0.text()),
            ],
        }
    }

    /// The statement as the database takes it.
    pub fn call(&self) -> (r: SqlCall)
        ensures
            r.is(self.sql(), self.bound()),
    {
        match self {
            FileStatement::InsertFile { hash, file_uuid, size, quick_hash, now, device, hlc } => {
                let params: Vec<SqlValue> = vec![
                    hash_value(hash),
                    uuid_value(*file_uuid),
                    SqlValue::Int(*size),
                    hash_opt_value(quick_hash),
                    text_value(now.as_str()),
                    uuid_value(device.0),
                    SqlValue::Int(*hlc),
                ];
                self.shape().call(params)
            },
            FileStatement::UpdateFile { size, now, device, hlc, hash, quick_hash } => {
                let params: Vec<SqlValue> = vec![
                    SqlValue::Int(*size),
                    text_value(now.as_str()),
                    uuid_value(device.0),
                    SqlValue::Int(*hlc),
                    hash_value(hash),
                    hash_opt_value(quick_hash),
                ];
                self.shape().call(params)
            },
            FileStatement::InsertLocation { id, hash, volume, path, now, device, hlc } => {
                let params: Vec<SqlValue> = vec![
                    uuid_value(*id),
                    hash_value(hash),
                    uuid_value(volume.0),
                    text_value(path.as_str()),
                    text_value(now.as_str()),
                    uuid_value(device.0),
                    SqlValue::Int(*hlc),
                ];
                self.shape().call(params)
            },
            FileStatement::UpdateLocationHash { hash, now, device, hlc, id } => {
                let params: Vec<SqlValue> = vec![
                    hash_value(hash),
                    text_value(now.as_str()),
                    uuid_value(device.0),
                    SqlValue::Int(*hlc),
                    text_value(id.as_str()),
                ];
                self.shape().call(params)
            },
            FileStatement::SetLocationStatus { status, now, device, hlc, volume, path } => {
                let params: Vec<SqlValue> = vec![
                    text_value(status_to_str(*status)),
                    text_value(now.as_str()),
                    uuid_value(device.0),
                    SqlValue::Int(*hlc),
                    uuid_value(volume.0),
                    text_value(path.as_str()),
                ];
                self.shape().call(params)
            },
            FileStatement::RetireMissing { now, device, hlc } => {
                let params: Vec<SqlValue> = vec![
                    text_value(now.as_str()),
                    uuid_value(device.0),
                    SqlValue::Int(*hlc),
                ];
                self.shape().call(params)
            },
            FileStatement::RetireLocation { now, device, hlc, volume, path } => {
                let params: Vec<SqlValue> = vec![
                    text_value(now.as_str()),
                    uuid_value(device.0),
                    SqlValue::Int(*hlc),
                    uuid_value(volume.0),
                    text_value(path.as_str()),
                ];
                self.shape().call(params)
            },
            FileStatement::RenameLocation { new_path, now, device, hlc, volume, old_path } => {
                let params: Vec<SqlValue> = vec![
                    text_value(new_path.as_str()),
                    text_value(now.as_str()),
                    uuid_value(device.0),
                    SqlValue::Int(*hlc),
                    uuid_value(volume.0),
                    text_value(old_path.as_str()),
                ];
                self.shape().call(params)
            },
            FileStatement::AdoptSentinel { volume, now, device, hlc, path } => {
                let params: Vec<SqlValue> = vec![
                    uuid_value(volume.0),
                    text_value(now.as_str()),
                    uuid_value(device.0),
                    SqlValue::Int(*hlc),
                    text_value(path.as_str()),
                ];
                self.shape().call(params)
            },
            FileStatement::PromoteHash { hash, now, device, hlc, file_uuid } => {
                let params: Vec<SqlValue> = vec![
                    hash_value(hash),
                    text_value(now.as_str()),
                    uuid_value(device.0),
                    SqlValue::Int(*hlc),
                    uuid_value(file_uuid.0),
                ];
                self.shape().call(params)
            },
            FileStatement::MarkDistinct { now, device, hlc, file_uuid } => {
                let params: Vec<SqlValue> = vec![
                    text_value(now.as_str()),
                    uuid_value(device.0),
                    SqlValue::Int(*hlc),
                    uuid_value(file_uuid.0),
                ];
                self.shape().call(params)
            },
        }
    }
}

/// The stored row of a file, as far as an upsert looks at it.
#[derive(Clone, Debug)]
pub struct ExistingFile {
    pub size: i64,
    pub device: String,
    pub quick_hash: Option<String>,
}

impl ExistingFile {
    /// Whether an upsert with this size, device and quick hash has nothing to write:
    /// size and device are stored already, and no quick hash is there to fill in.
    pub open spec fn settled(
        self,
        size: i64,
        device: DeviceId,
        quick_hash: Option<BlakeHash>,
    ) -> bool {
        &&& self.size == size
        &&& self.device@ == device.0.text()
        &&& quick_hash is None || self.quick_hash is Some
    }
}

/// The stored row of a location, as far as an upsert looks at it.
#[derive(Clone, Debug)]
pub struct ExistingLocation {
    pub id: String,
    pub hash: Option<String>,
    pub device: String,
}

/// What the lookup of a command found.
#[derive(Clone, Debug)]
pub struct FileFound {
    /// The row of the file, for `UpsertFile`.
    pub file: Option<ExistingFile>,
    /// The live row at the path, for `UpsertLocation`.
    pub location: Option<ExistingLocation>,
    /// The identifier of the live row at the new path, for `UpdateLocationPath`.
    pub collision: Option<String>,
}

/// How a command is answered once its statements have run.
#[derive(Clone, Copy, Debug, PartialEq, Eq, Structural)]
pub enum FileAnswer {
    /// With this outcome.
    Outcome(UpsertOutcome),
    /// With the number of rows changed.
    Rows,
    /// With the number of rows changed, counted in 63 bits.
    SignedRows,
}

/// The statements of a command, and how it is answered.
#[derive(Clone, Debug)]
pub struct FilePlan {
    pub answer: FileAnswer,
    pub statements: Vec<FileStatement>,
}

impl FilePlan {
    /// Whether this plan runs these statements and is answered so.
    pub open spec fn is(self, answer: FileAnswer, statements: Seq<FileStatement>) -> bool {
        self.answer == answer && self.statements@ =~= statements
    }
}

/// How an upsert of a file turns out: a file that is not stored is inserted, one
/// stored with the same size and device is unchanged, any other is updated. Where
/// the stored row has no quick hash and one came with the file, filling it in is
/// an update too.
pub open spec fn upsert_file_outcome(
    size: i64,
    device: DeviceId,
    quick_hash: Option<BlakeHash>,
    existing: Option<ExistingFile>,
) -> UpsertOutcome {
    match existing {
        None => UpsertOutcome::Inserted,
        Some(row) => if row.settled(size, device, quick_hash) {
            UpsertOutcome::Unchanged
        } else {
            UpsertOutcome::Updated
        },
    }
}

/// The statements of an upsert of a file; none where it is unchanged.
pub open spec fn upsert_file_statements(
    file: HashedFile,
    size: i64,
    device: DeviceId,
    quick_hash: Option<BlakeHash>,
    stamp: Stamp,
    existing: Option<ExistingFile>,
) -> Seq<FileStatement> {
    match upsert_file_outcome(size, device, quick_hash, existing) {
        UpsertOutcome::Inserted => seq![
            FileStatement::InsertFile {
                hash: file.hash,
                file_uuid: stamp.fresh,
                size,
                quick_hash,
                now: stamp.now,
                device,
                hlc: stamp.hlc,
            },
        ],
        UpsertOutcome::Unchanged => seq![],
        UpsertOutcome::Updated => seq![
            FileStatement::UpdateFile {
                size,
                now: stamp.now,
                device,
                hlc: stamp.hlc,
                hash: file.hash,
                quick_hash,
            },
        ],
    }
}

/// Plans an upsert of a file, from the row stored under its hash. A size beyond
/// 63 bits cannot be stored.
pub fn upsert_file_impl(
    file: &HashedFile,
    device: DeviceId,
    quick_hash: &Option<BlakeHash>,
    stamp: &Stamp,
    existing: &Option<ExistingFile>,
) -> (r: Result<FilePlan, CoreError>)
    ensures
        match r {
            Ok(plan) => {
                let size = file.discovered.size.0 as i64;
                &&& file.discovered.size.0 <= i64::MAX
                &&& plan.is(
                    FileAnswer::Outcome(upsert_file_outcome(size, device, *quick_hash, *existing)),
                    upsert_file_statements(*file, size, device, *quick_hash, *stamp, *existing),
                )
            },
            Err(e) => file.discovered.size.0 > i64::MAX && e.is_internal(
                "file size"@ + " "@ + dec_nat(file.discovered.size.0 as nat) + " overflows i64"@,
            ),
        },
{
    let size: i64 = match size_to_i64(file.discovered.size) {
        Ok(n) => n,
        Err(e) => return Err(e),
    };
    let dev = device.0.to_hyphenated();
    let mut statements: Vec<FileStatement> = Vec::new();
    let outcome = match existing {
        None => {
            statements.push(
                FileStatement::InsertFile {
                    hash: file.hash,
                    file_uuid: stamp.fresh,
                    size,
                    quick_hash: *quick_hash,
                    now: stamp.now.clone(),
                    device,
                    hlc: stamp.hlc,
                },
            );
            UpsertOutcome::Inserted
        },
        Some(row) => {
            let filled = quick_hash.is_none() || row.quick_hash.is_some();
            if row.size == size && row.device == dev && filled {
                UpsertOutcome::Unchanged
            } else {
                statements.push(
                    FileStatement::UpdateFile {
                        size,
                        now: stamp.now.clone(),
                        device,
                        hlc: stamp.hlc,
                        hash: file.hash,
                        quick_hash: *quick_hash,
                    },
                );
                UpsertOutcome::Updated
            }
        },
    };
    Ok(FilePlan { answer: FileAnswer::Outcome(outcome), statements })
}

/// How an upsert of a location turns out: a path without a live row gets one, a
/// row with the same hash and device is unchanged, any other is updated.
pub open spec fn upsert_location_outcome(
    hash: BlakeHash,
    device: DeviceId,
    existing: Option<ExistingLocation>,
) -> UpsertOutcome {
    match existing {
        None => UpsertOutcome::Inserted,
        Some(row) => if text_opt(row.hash) == Some(hash.hex()) && row.device@
            == device.0.text() {
            UpsertOutcome::Unchanged
        } else {
            UpsertOutcome::Updated
        },
    }
}

/// The statements of an upsert of a location; none where it is unchanged.
pub open spec fn upsert_location_statements(
    hash: BlakeHash,
    volume: VolumeId,
    path: MediaPath,
    device: DeviceId,
    stamp: Stamp,
    existing: Option<ExistingLocation>,
) -> Seq<FileStatement> {
    match upsert_location_outcome(hash, device, existing) {
        UpsertOutcome::Inserted => seq![
            FileStatement::InsertLocation {
                id: stamp.fresh,
                hash,
                volume,
                path,
                now: stamp.now,
                device,
                hlc: stamp.hlc,
            },
        ],
        UpsertOutcome::Unchanged => seq![],
        UpsertOutcome::Updated => seq![
            FileStatement::UpdateLocationHash {
                hash,
                now: stamp.now,
                device,
                hlc: stamp.hlc,
                id: existing->0.id,
            },
        ],
    }
}

/// Plans an upsert of a location, from the live row at its path.
pub fn upsert_location_impl(
    hash: &BlakeHash,
    volume: VolumeId,
    path: &MediaPath,
    device: DeviceId,
    stamp: &Stamp,
    existing: &Option<ExistingLocation>,
) -> (r: FilePlan)
    ensures
        r.is(
            FileAnswer::Outcome(upsert_location_outcome(*hash, device, *existing)),
            upsert_location_statements(*hash, volume, *path, device, *stamp, *existing),
        ),
{
    let hex = hash.to_hex();
    let dev = device.0.to_hyphenated();
    let mut statements: Vec<FileStatement> = Vec::new();
    let outcome = match existing {
        None => {
            statements.push(
                FileStatement::InsertLocation {
                    id: stamp.fresh,
                    hash: *hash,
                    volume,
                    path: path.copy(),
                    now: stamp.now.clone(),
                    device,
                    hlc: stamp.hlc,
                },
            );
            UpsertOutcome::Inserted
        },
        Some(row) => {
            let same_hash = match &row.hash {
                Some(stored) => *stored == hex,
                None => false,
            };
            if same_hash && row.device == dev {
                UpsertOutcome::Unchanged
            } else {
                statements.push(
                    FileStatement::UpdateLocationHash {
                        hash: *hash,
                        now: stamp.now.clone(),
                        device,
                        hlc: stamp.hlc,
                        id: row.id.clone(),
                    },
                );
                UpsertOutcome::Updated
            }
        },
    };
    FilePlan { answer: FileAnswer::Outcome(outcome), statements }
}

/// The statement that records a status.
pub open spec fn status_statement(
    volume: VolumeId,
    path: MediaPath,
    status: LocationStatus,
    device: DeviceId,
    stamp: Stamp,
) -> FileStatement {
    FileStatement::SetLocationStatus {
        status,
        now: stamp.now,
        device,
        hlc: stamp.hlc,
        volume,
        path,
    }
}

/// Plans a change of one status.
pub fn update_location_status_impl(
    volume: VolumeId,
    path: &MediaPath,
    status: LocationStatus,
    device: DeviceId,
    stamp: &Stamp,
) -> (r: FilePlan)
    ensures
        r.is(FileAnswer::Rows, seq![status_statement(volume, *path, status, device, *stamp)]),
{
    let statement = FileStatement::SetLocationStatus {
        status,
        now: stamp.now.clone(),
        device,
        hlc: stamp.hlc,
        volume,
        path: path.copy(),
    };
    FilePlan { answer: FileAnswer::Rows, statements: vec![statement] }
}

/// The statements that record a batch of statuses, in the order of the batch, all
/// with the stamp of the batch.
pub open spec fn status_statements(
    updates: Seq<LocationStatusUpdate>,
    device: DeviceId,
    stamp: Stamp,
) -> Seq<FileStatement> {
    updates.map_values(
        |u: LocationStatusUpdate| status_statement(u.volume, u.path, u.status, device, stamp),
    )
}

/// Plans a batch of status changes.
pub fn update_location_statuses_impl(
    updates: &Vec<LocationStatusUpdate>,
    device: DeviceId,
    stamp: &Stamp,
) -> (r: FilePlan)
    ensures
        r.is(FileAnswer::Rows, status_statements(updates@, device, *stamp)),
{
    let mut statements: Vec<FileStatement> = Vec::new();
    let mut i: usize = 0;
    while i < updates.len()
        invariant
            i <= updates.len(),
            statements@ =~= status_statements(updates@, device, *stamp).take(i as int),
        decreases updates.len() - i,
    {
        let u = &updates[i];
        statements.push(
            FileStatement::SetLocationStatus {
                status: u.status,
                now: stamp.now.clone(),
                device,
                hlc: stamp.hlc,
                volume: u.volume,
                path: u.path.copy(),
            },
        );
        i += 1;
    }
    FilePlan { answer: FileAnswer::Rows, statements }
}

/// Plans the retirement of every missing location.
pub fn soft_delete_missing_locations_impl(device: DeviceId, stamp: &Stamp) -> (r: FilePlan)
    ensures
        r.is(
            FileAnswer::Rows,
            seq![FileStatement::RetireMissing { now: stamp.now, device, hlc: stamp.hlc }],
        ),
{
    let statement = FileStatement::RetireMissing { now: stamp.now.clone(), device, hlc: stamp.hlc };
    FilePlan { answer: FileAnswer::Rows, statements: vec![statement] }
}

/// The statement of a move: where the new path is taken the old row is retired
/// and the row there is left alone, else the row moves and becomes active.
pub open spec fn path_statement(
    volume: VolumeId,
    old_path: MediaPath,
    new_path: MediaPath,
    device: DeviceId,
    stamp: Stamp,
    taken: bool,
) -> FileStatement {
    if taken {
        FileStatement::RetireLocation {
            now: stamp.now,
            device,
            hlc: stamp.hlc,
            volume,
            path: old_path,
        }
    } else {
        FileStatement::RenameLocation {
            new_path,
            now: stamp.now,
            device,
            hlc: stamp.hlc,
            volume,
            old_path,
        }
    }
}

/// Plans a move, from the live row at the new path.
pub fn update_location_path_impl(
    volume: VolumeId,
    old_path: &MediaPath,
    new_path: &MediaPath,
    device: DeviceId,
    stamp: &Stamp,
    collision: &Option<String>,
) -> (r: FilePlan)
    ensures
        r.is(
            FileAnswer::Rows,
            seq![path_statement(volume, *old_path, *new_path, device, *stamp, collision is Some)],
        ),
{
    let statement = if collision.is_some() {
        FileStatement::RetireLocation {
            now: stamp.now.clone(),
            device,
            hlc: stamp.hlc,
            volume,
            path: old_path.copy(),
        }
    } else {
        FileStatement::RenameLocation {
            new_path: new_path.copy(),
            now: stamp.now.clone(),
            device,
            hlc: stamp.hlc,
            volume,
            old_path: old_path.copy(),
        }
    };
    FilePlan { answer: FileAnswer::Rows, statements: vec![statement] }
}

/// Plans the adoption of a row that has no volume.
pub fn migrate_sentinel_row_impl(
    path: &MediaPath,
    real_volume: VolumeId,
    device: DeviceId,
    stamp: &Stamp,
) -> (r: FilePlan)
    ensures
        r.is(
            FileAnswer::Rows,
            seq![
                FileStatement::AdoptSentinel {
                    volume: real_volume,
                    now: stamp.now,
                    device,
                    hlc: stamp.hlc,
                    path: *path,
                },
            ],
        ),
{
    let statement = FileStatement::AdoptSentinel {
        volume: real_volume,
        now: stamp.now.clone(),
        device,
        hlc: stamp.hlc,
        path: path.copy(),
    };
    FilePlan { answer: FileAnswer::Rows, statements: vec![statement] }
}

/// Plans the storing of a full hash.
pub fn promote_full_hash_impl(
    file_uuid: FileUuid,
    full_hash: &BlakeHash,
    device: DeviceId,
    stamp: &Stamp,
) -> (r: FilePlan)
    ensures
        r.is(
            FileAnswer::Rows,
            seq![
                FileStatement::PromoteHash {
                    hash: *full_hash,
                    now: stamp.now,
                    device,
                    hlc: stamp.hlc,
                    file_uuid,
                },
            ],
        ),
{
    let statement = FileStatement::PromoteHash {
        hash: *full_hash,
        now: stamp.now.clone(),
        device,
        hlc: stamp.hlc,
        file_uuid,
    };
    FilePlan { answer: FileAnswer::Rows, statements: vec![statement] }
}

/// The statements that mark files as distinct, in the order of the list.
pub open spec fn distinct_statements(
    file_uuids: Seq<FileUuid>,
    device: DeviceId,
    stamp: Stamp,
) -> Seq<FileStatement> {
    file_uuids.map_values(
        |file_uuid: FileUuid|
            FileStatement::MarkDistinct { now: stamp.now, device, hlc: stamp.hlc, file_uuid },
    )
}

/// Plans the marking of files as distinct.
pub fn mark_verified_distinct_impl(
    file_uuids: &Vec<FileUuid>,
    device: DeviceId,
    stamp: &Stamp,
) -> (r: FilePlan)
    ensures
        r.is(FileAnswer::SignedRows, distinct_statements(file_uuids@, device, *stamp)),
{
    let mut statements: Vec<FileStatement> = Vec::new();
    let mut i: usize = 0;
    while i < file_uuids.len()
        invariant
            i <= file_uuids.len(),
            statements@ =~= distinct_statements(file_uuids@, device, *stamp).take(i as int),
        decreases file_uuids.len() - i,
    {
        statements.push(
            FileStatement::MarkDistinct {
                now: stamp.now.clone(),
                device,
                hlc: stamp.hlc,
                file_uuid: file_uuids[i],
            },
        );
        i += 1;
    }
    FilePlan { answer: FileAnswer::SignedRows, statements }
}

/// What a command looks up before it writes, and where what was found goes.
#[derive(Clone, Copy, Debug, PartialEq, Eq, Structural)]
pub enum FileArm {
    /// The row of a file, into `FileFound::file`.
    File,
    /// The live row at a path, into `FileFound::location`.
    Location,
    /// The identifier of the live row at a path, into `FileFound::collision`.
    Collision,
}

impl FileWriteCmd {
    /// Whether the command does anything at all: an empty batch opens no
    /// transaction.
    pub open spec fn has_work(self) -> bool {
        match self {
            FileWriteCmd::UpdateLocationStatuses { updates, .. } => updates@.len() > 0,
            FileWriteCmd::MarkVerifiedDistinct { file_uuids, .. } => file_uuids@.len() > 0,
            _ => true,
        }
    }

    /// Whether a transaction has to be opened for the command.
    pub fn opens_transaction(&self) -> (r: bool)
        ensures
            r == self.has_work(),
    {
        match self {
            FileWriteCmd::UpdateLocationStatuses { updates, .. } => updates.len() > 0,
            FileWriteCmd::MarkVerifiedDistinct { file_uuids, .. } => file_uuids.len() > 0,
            _ => true,
        }
    }

    /// Whether this is what the command looks up before it writes.
    pub open spec fn looks_for(self, arm: FileArm, call: SqlCall) -> bool {
        match self {
            FileWriteCmd::UpsertFile { file, .. } => arm == FileArm::File && call.is(
                Lookup::File.sql(),
                seq![Bound::Text(file.hash.hex())],
            ),
            FileWriteCmd::UpsertLocation { volume, path, .. } => arm == FileArm::Location
                && call.is(Lookup::Location.sql(), seq![Bound::Text(volume.0.text()), Bound::Text(path@)]),
            FileWriteCmd::UpdateLocationPath { volume, new_path, .. } => arm == FileArm::Collision
                && call.is(
                Lookup::LocationId.sql(),
                seq![Bound::Text(volume.0.text()), Bound::Text(new_path@)],
            ),
            _ => false,
        }
    }

    /// Whether the command looks anything up before it writes.
    pub open spec fn looks_up(self) -> bool {
        self is UpsertFile || self is UpsertLocation || self is UpdateLocationPath
    }

    /// What the command looks up before it writes.
    pub fn lookup(&self) -> (r: Option<(FileArm, SqlCall)>)
        ensures
            match r {
                Some(look) => self.looks_for(look.0, look.1),
                None => !self.looks_up(),
            },
    {
        match self {
            FileWriteCmd::UpsertFile { file, .. } => {
                let params: Vec<SqlValue> = vec![hash_value(&file.hash)];
                Some((FileArm::File, Lookup::File.shape().call(params)))
            },
            FileWriteCmd::UpsertLocation { volume, path, .. } => {
                let params: Vec<SqlValue> = vec![uuid_value(volume.0), text_value(path.as_str())];
                Some((FileArm::Location, Lookup::Location.shape().call(params)))
            },
            FileWriteCmd::UpdateLocationPath { volume, new_path, .. } => {
                let params: Vec<SqlValue> = vec![
                    uuid_value(volume.0),
                    text_value(new_path.as_str()),
                ];
                Some((FileArm::Collision, Lookup::LocationId.shape().call(params)))
            },
            _ => None,
        }
    }

    /// Whether `plan` is the plan of the command when its lookup found `found`.
    pub open spec fn planned(self, stamp: Stamp, found: FileFound, plan: FilePlan) -> bool {
        match self {
            FileWriteCmd::UpsertFile { file, device, quick_hash } => {
                let size = file.discovered.size.0 as i64;
                plan.is(
                    FileAnswer::Outcome(upsert_file_outcome(size, device, quick_hash, found.file)),
                    upsert_file_statements(file, size, device, quick_hash, stamp, found.file),
                )
            },
            FileWriteCmd::UpsertLocation { hash, volume, path, device } => plan.is(
                FileAnswer::Outcome(upsert_location_outcome(hash, device, found.location)),
                upsert_location_statements(hash, volume, path, device, stamp, found.location),
            ),
            FileWriteCmd::UpdateLocationStatus { volume, path, status, device } => plan.is(
                FileAnswer::Rows,
                seq![status_statement(volume, path, status, device, stamp)],
            ),
            FileWriteCmd::UpdateLocationStatuses { updates, device } => plan.is(
                FileAnswer::Rows,
                status_statements(updates@, device, stamp),
            ),
            FileWriteCmd::SoftDeleteMissingLocations { device } => plan.is(
                FileAnswer::Rows,
                seq![FileStatement::RetireMissing { now: stamp.now, device, hlc: stamp.hlc }],
            ),
            FileWriteCmd::UpdateLocationPath { volume, old_path, new_path, device } => plan.is(
                FileAnswer::Rows,
                seq![
                    path_statement(
                        volume,
                        old_path,
                        new_path,
                        device,
                        stamp,
                        found.collision is Some,
                    ),
                ],
            ),
            FileWriteCmd::MigrateSentinelRow { path, real_volume, device } => plan.is(
                FileAnswer::Rows,
                seq![
                    FileStatement::AdoptSentinel {
                        volume: real_volume,
                        now: stamp.now,
                        device,
                        hlc: stamp.hlc,
                        path,
                    },
                ],
            ),
            FileWriteCmd::PromoteFullHash { file_uuid, full_hash, device } => plan.is(
                FileAnswer::Rows,
                seq![
                    FileStatement::PromoteHash {
                        hash: full_hash,
                        now: stamp.now,
                        device,
                        hlc: stamp.hlc,
                        file_uuid,
                    },
                ],
            ),
            FileWriteCmd::MarkVerifiedDistinct { file_uuids, device } => plan.is(
                FileAnswer::SignedRows,
                distinct_statements(file_uuids@, device, stamp),
            ),
        }
    }

    /// The size that the command cannot store, if there is one.
    pub open spec fn oversized(self) -> Option<u64> {
        match self {
            FileWriteCmd::UpsertFile { file, .. } => if file.discovered.size.0 > i64::MAX {
                Some(file.discovered.size.0)
            } else {
                None
            },
            _ => None,
        }
    }

    /// Refuses a command that cannot be stored, whatever its lookup would find.
    pub fn check_size(&self) -> (r: Result<(), CoreError>)
        ensures
            match self.oversized() {
                None => r is Ok,
                Some(size) => r matches Err(e) && e.is_internal(
                    "file size"@ + " "@ + dec_nat(size as nat) + " overflows i64"@,
                ),
            },
    {
        match self {
            FileWriteCmd::UpsertFile { file, .. } => match size_to_i64(file.discovered.size) {
                Ok(_) => Ok(()),
                Err(e) => Err(e),
            },
            _ => Ok(()),
        }
    }

    /// Whether the command goes on so when its lookup found `found`: with its plan,
    /// or with an error where a file is too large to be stored.
    pub open spec fn plans(
        self,
        stamp: Stamp,
        found: FileFound,
        d: Decision<FileArm, FilePlan>,
    ) -> bool {
        match self.oversized() {
            None => d matches Decision::Write(plan) && self.planned(stamp, found, plan),
            Some(size) => d matches Decision::Refuse(e) && e.is_internal(
                "file size"@ + " "@ + dec_nat(size as nat) + " overflows i64"@,
            ),
        }
    }

    /// Plans the command, from what its lookup found. Fails only where a file is
    /// too large to be stored.
    pub fn plan(&self, stamp: &Stamp, found: &FileFound) -> (r: Result<FilePlan, CoreError>)
        ensures
            match self.oversized() {
                None => r matches Ok(plan) && self.planned(*stamp, *found, plan),
                Some(size) => r matches Err(e) && e.is_internal(
                    "file size"@ + " "@ + dec_nat(size as nat) + " overflows i64"@,
                ),
            },
    {
        match self {
            FileWriteCmd::UpsertFile { file, device, quick_hash } => upsert_file_impl(
                file,
                *device,
                quick_hash,
                stamp,
                &found.file,
            ),
            FileWriteCmd::UpsertLocation { hash, volume, path, device } => Ok(
                upsert_location_impl(hash, *volume, path, *device, stamp, &found.location),
            ),
            FileWriteCmd::UpdateLocationStatus { volume, path, status, device } => Ok(
                update_location_status_impl(*volume, path, *status, *device, stamp),
            ),
            FileWriteCmd::UpdateLocationStatuses { updates, device } => Ok(
                update_location_statuses_impl(updates, *device, stamp),
            ),
            FileWriteCmd::SoftDeleteMissingLocations { device } => Ok(
                soft_delete_missing_locations_impl(*device, stamp),
            ),
            FileWriteCmd::UpdateLocationPath { volume, old_path, new_path, device } => Ok(
                update_location_path_impl(
                    *volume,
                    old_path,
                    new_path,
                    *device,
                    stamp,
                    &found.collision,
                ),
            ),
            FileWriteCmd::MigrateSentinelRow { path, real_volume, device } => Ok(
                migrate_sentinel_row_impl(path, *real_volume, *device, stamp),
            ),
            FileWriteCmd::PromoteFullHash { file_uuid, full_hash, device } => Ok(
                promote_full_hash_impl(*file_uuid, full_hash, *device, stamp),
            ),
            FileWriteCmd::MarkVerifiedDistinct { file_uuids, device } => Ok(
                mark_verified_distinct_impl(file_uuids, *device, stamp),
            ),
        }
    }

    /// What listeners are told once the command has written something.
    pub open spec fn reason(self) -> InvalidationReason {
        match self {
            FileWriteCmd::PromoteFullHash { .. } => InvalidationReason::CollisionsChanged,
            FileWriteCmd::MarkVerifiedDistinct { .. } => InvalidationReason::CollisionsChanged,
            _ => InvalidationReason::FilesChanged,
        }
    }

    /// The event of the command, given its reply: one event where something was
    /// written, none where nothing was or the command failed.
    pub fn event(&self, reply: &FileReply) -> (r: Option<AppEvent>)
        ensures
            match r {
                Some(event) => reply.changed() && event == (AppEvent::IndexInvalidated {
                    reason: self.reason(),
                }),
                None => !reply.changed(),
            },
    {
        let changed = match reply {
            FileReply::Outcome(Ok(outcome)) => match outcome {
                UpsertOutcome::Unchanged => false,
                _ => true,
            },
            FileReply::Rows(Ok(rows)) => *rows > 0,
            _ => false,
        };
        if changed {
            let reason = match self {
                FileWriteCmd::PromoteFullHash { .. } => InvalidationReason::CollisionsChanged,
                FileWriteCmd::MarkVerifiedDistinct { .. } => InvalidationReason::CollisionsChanged,
                _ => InvalidationReason::FilesChanged,
            };
            Some(AppEvent::IndexInvalidated { reason })
        } else {
            None
        }
    }

    /// The reply to a command that failed.
    pub fn refuse(&self, error: CoreError) -> (r: FileReply)
        ensures
            r == if self.upserts() {
                FileReply::Outcome(Err(error))
            } else {
                FileReply::Rows(Err(error))
            },
    {
        match self {
            FileWriteCmd::UpsertFile { .. } => FileReply::Outcome(Err(error)),
            FileWriteCmd::UpsertLocation { .. } => FileReply::Outcome(Err(error)),
            _ => FileReply::Rows(Err(error)),
        }
    }

    /// Whether the command is answered with an outcome.
    pub open spec fn upserts(self) -> bool {
        self is UpsertFile || self is UpsertLocation
    }
}

/// The reply to a command.
#[derive(Debug)]
pub enum FileReply {
    Outcome(Result<UpsertOutcome, CoreError>),
    Rows(Result<u64, CoreError>),
}

impl FileReply {
    /// Whether the command wrote something that listeners hear of.
    pub open spec fn changed(self) -> bool {
        match self {
            FileReply::Outcome(Ok(outcome)) => outcome != UpsertOutcome::Unchanged,
            FileReply::Rows(Ok(rows)) => rows > 0,
            _ => false,
        }
    }
}

/// Whether the row count at `k` is the first that does not fit 63 bits.
pub open spec fn first_oversized(counts: Seq<u64>, k: int) -> bool {
    0 <= k < counts.len() && counts[k] > i64::MAX && all_signed(counts.take(k))
}

/// Whether every row count fits 63 bits.
pub open spec fn all_signed(counts: Seq<u64>) -> bool {
    forall|j: int| 0 <= j < counts.len() ==> #[trigger] counts[j] <= i64::MAX
}

impl FilePlan {
    /// The reply to the command, from the rows that each statement changed. Where
    /// rows are counted in 63 bits, a count beyond them is an error.
    pub fn reply(&self, counts: &Vec<u64>) -> (r: FileReply)
        requires
            total(counts@) <= u64::MAX,
            self.answer is SignedRows && all_signed(counts@) ==> total(counts@) <= i64::MAX,
        ensures
            match self.answer {
                FileAnswer::Outcome(outcome) => r == FileReply::Outcome(Ok(outcome)),
                FileAnswer::Rows => r matches FileReply::Rows(Ok(rows)) && rows == total(counts@),
                FileAnswer::SignedRows => match r {
                    FileReply::Rows(Ok(rows)) => rows == total(counts@) && all_signed(counts@),
                    FileReply::Rows(Err(e)) => exists|k: int| #[trigger]
                        first_oversized(counts@, k) && e.is_internal(
                            "rows_changed "@ + dec_nat(counts@[k] as nat) + " too large"@,
                        ),
                    _ => false,
                },
            },
    {
        match self.answer {
            FileAnswer::Outcome(outcome) => FileReply::Outcome(Ok(outcome)),
            FileAnswer::Rows => FileReply::Rows(Ok(sum_counts(counts))),
            FileAnswer::SignedRows => {
                let mut i: usize = 0;
                while i < counts.len()
                    invariant
                        i <= counts.len(),
                        self.answer is SignedRows,
                        all_signed(counts@.take(i as int)),
                    decreases counts.len() - i,
                {
                    if counts[i] > 0x7fff_ffff_ffff_ffff {
                        assert(first_oversized(counts@, i as int));
                        let digits = u64_text(counts[i]);
                        return FileReply::Rows(
                            Err(
                                CoreError::Internal(
                                    cat3("rows_changed ", digits.as_str(), " too large"),
                                ),
                            ),
                        );
                    }
                    i += 1;
                }
                assert(counts@.take(counts@.len() as int) =~= counts@);
                FileReply::Rows(Ok(sum_counts(counts)))
            },
        }
    }
}

/// Row counts that add up to less than 63 bits are each less than that.
proof fn lemma_signed(counts: Seq<u64>, k: int)
    requires
        total(counts) <= i64::MAX,
        0 <= k <= counts.len(),
    ensures
        all_signed(counts.take(k)),
    decreases k,
{
    if k > 0 {
        lemma_signed(counts, k - 1);
        crate::db::sql::lemma_total_of_prefix(counts, k);
        crate::db::sql::lemma_total_nonnegative(counts.take(k - 1));
        assert(counts.take(k).drop_last() =~= counts.take(k - 1));
        assert forall|j: int| 0 <= j < k implies #[trigger] counts.take(k)[j] <= i64::MAX by {
            if j < k - 1 {
                assert(counts.take(k - 1)[j] <= i64::MAX);
            }
        }
    }
}

impl Command for FileWriteCmd {
    type Arm = FileArm;

    type Found = FileFound;

    type Plan = FilePlan;

    type Reply = FileReply;

    open spec fn opens(self) -> bool {
        self.has_work()
    }

    open spec fn settles(self, reply: FileReply) -> bool {
        reply == FileReply::Rows(Ok(0))
    }

    open spec fn asks(self, arm: FileArm) -> bool {
        self.looks_up()
    }

    open spec fn begins(self, stamp: Stamp, d: Decision<FileArm, FilePlan>) -> bool {
        if self.oversized() is None && self.looks_up() {
            d matches Decision::Look { arm, call } && self.looks_for(arm, call)
        } else {
            self.plans(stamp, FileFound { file: None, location: None, collision: None }, d)
        }
    }

    open spec fn goes_on(
        self,
        stamp: Stamp,
        arm: FileArm,
        found: FileFound,
        d: Decision<FileArm, FilePlan>,
    ) -> bool {
        self.plans(stamp, found, d)
    }

    open spec fn script(self, stamp: Stamp, plan: FilePlan) -> Seq<(Seq<char>, Seq<Bound>)> {
        plan.statements@.map_values(|s: FileStatement| (s.sql(), s.bound()))
    }

    open spec fn answers(self, plan: FilePlan, counts: Seq<u64>, reply: FileReply) -> bool {
        match plan.answer {
            FileAnswer::Outcome(outcome) => reply == FileReply::Outcome(Ok(outcome)),
            _ => reply matches FileReply::Rows(Ok(rows)) && rows == total(counts),
        }
    }

    open spec fn refuses(self, error: CoreError, reply: FileReply) -> bool {
        reply == if self.upserts() {
            FileReply::Outcome(Err(error))
        } else {
            FileReply::Rows(Err(error))
        }
    }

    open spec fn is_success(reply: FileReply) -> bool {
        match reply {
            FileReply::Outcome(r) => r is Ok,
            FileReply::Rows(r) => r is Ok,
        }
    }

    open spec fn told_before(self, reply: FileReply) -> Seq<AppEvent> {
        if reply.changed() {
            seq![AppEvent::IndexInvalidated { reason: self.reason() }]
        } else {
            seq![]
        }
    }

    open spec fn told_after(self, reply: FileReply) -> Seq<AppEvent> {
        seq![]
    }

    proof fn lemma_answers_succeed(self, plan: FilePlan, counts: Seq<u64>, reply: FileReply) {
    }

    proof fn lemma_refuses_fail(self, error: CoreError, reply: FileReply) {
    }

    fn settle(&self) -> (r: Option<FileReply>) {
        if self.opens_transaction() {
            None
        } else {
            Some(FileReply::Rows(Ok(0)))
        }
    }

    fn begin(&self, stamp: &Stamp) -> (d: Decision<FileArm, FilePlan>) {
        let found = FileFound { file: None, location: None, collision: None };
        match self.check_size() {
            Err(e) => Decision::Refuse(e),
            Ok(()) => match self.lookup() {
                Some((arm, call)) => Decision::Look { arm, call },
                None => match self.plan(stamp, &found) {
                    Ok(plan) => Decision::Write(plan),
                    Err(e) => Decision::Refuse(e),
                },
            },
        }
    }

    fn go_on(&self, stamp: &Stamp, arm: FileArm, found: FileFound) -> (d: Decision<
        FileArm,
        FilePlan,
    >) {
        match self.plan(stamp, &found) {
            Ok(plan) => Decision::Write(plan),
            Err(e) => Decision::Refuse(e),
        }
    }

    fn statement(&self, stamp: &Stamp, plan: &FilePlan, done: usize) -> (r: Option<SqlCall>) {
        if done < plan.statements.len() {
            Some(plan.statements[done].call())
        } else {
            None
        }
    }

    fn answer(&self, plan: FilePlan, counts: &Vec<u64>) -> (r: FileReply) {
        proof {
            lemma_signed(counts@, counts@.len() as int);
            assert(counts@.take(counts@.len() as int) =~= counts@);
        }
        plan.reply(counts)
    }

    fn refuse_with(&self, error: CoreError) -> (r: FileReply) {
        self.refuse(error)
    }

    fn notices(&self, reply: &FileReply) -> (r: (Vec<AppEvent>, Vec<AppEvent>)) {
        let mut before: Vec<AppEvent> = Vec::new();
        if let Some(event) = self.event(reply) {
            before.push(event);
        }
        (before, Vec::new())
    }
}

} // verus!
