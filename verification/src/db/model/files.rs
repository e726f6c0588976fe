//! The tables `files` and `file_locations`, and the laws of the commands that
//! write them.
use vstd::prelude::*;
use vstd::string::*;

use crate::db::convert::status_text;
use crate::db::sql::{total, Stamp};
use crate::db::writer::file::{
    distinct_statements, hex_opt, status_statements, upsert_file_outcome, upsert_location_outcome, ExistingFile, ExistingLocation,
    FileFound, FilePlan, FileReply, FileStatement, FileWriteCmd,
};
use crate::db::file_repo::LocationRow;
use crate::ports::file_repo::LocationStatusUpdate;
use crate::text::text_opt;
use crate::types::{
    BlakeHash, DeviceId, FileLocationRecord, FileUuid, HashedFile, LocationStatus, MediaPath, UpsertOutcome, VolumeId,
};

verus! {

/// A row of `files`.
pub struct FileEntry {
    pub hash: Option<Seq<char>>,
    pub file_uuid: Seq<char>,
    pub size: int,
    pub quick_hash: Option<Seq<char>>,
    pub verified_distinct: bool,
    pub first_seen: Seq<char>,
    pub updated_at: Seq<char>,
    pub deleted_at: Option<Seq<char>>,
    pub device: Seq<char>,
    pub hlc: int,
}

/// A row of `file_locations`.
pub struct LocationEntry {
    pub id: Seq<char>,
    pub hash: Option<Seq<char>>,
    pub file_uuid: Option<Seq<char>>,
    pub volume: Seq<char>,
    pub path: Seq<char>,
    pub status: Seq<char>,
    pub first_seen: Seq<char>,
    pub updated_at: Seq<char>,
    pub deleted_at: Option<Seq<char>>,
    pub device: Seq<char>,
    pub hlc: int,
}

/// The two tables.
pub struct Catalog {
    pub files: Seq<FileEntry>,
    pub locations: Seq<LocationEntry>,
}

impl LocationEntry {
    /// Whether this is the live row of a path.
    pub open spec fn live_at(self, volume: Seq<char>, path: Seq<char>) -> bool {
        self.deleted_at is None && self.volume == volume && self.path == path
    }
}

/// The text of the volume that stands for no volume.
pub open spec fn sentinel() -> Seq<char> {
    "00000000-0000-0000-0000-000000000000"@
}

/// The rows with those that `hit` picks changed by `change`.
pub open spec fn updated<T>(rows: Seq<T>, hit: spec_fn(T) -> bool, change: spec_fn(T) -> T) -> Seq<
    T,
> {
    rows.map_values(
        |r: T|
            if hit(r) {
                change(r)
            } else {
                r
            },
    )
}

/// How many rows `hit` picks.
pub open spec fn hits<T>(rows: Seq<T>, hit: spec_fn(T) -> bool) -> nat
    decreases rows.len(),
{
    if rows.len() == 0 {
        0
    } else {
        hits(rows.drop_last(), hit) + if hit(rows.last()) {
            1nat
        } else {
            0nat
        }
    }
}

pub proof fn lemma_no_hits<T>(rows: Seq<T>, hit: spec_fn(T) -> bool)
    ensures
        hits(rows, hit) == 0 <==> forall|i: int| 0 <= i < rows.len() ==> !hit(#[trigger] rows[i]),
    decreases rows.len(),
{
    if rows.len() > 0 {
        lemma_no_hits(rows.drop_last(), hit);
        if hits(rows, hit) == 0 {
            assert forall|i: int| 0 <= i < rows.len() implies !hit(#[trigger] rows[i]) by {
                if i < rows.len() - 1 {
                    assert(rows.drop_last()[i] == rows[i]);
                }
            }
        } else if forall|i: int| 0 <= i < rows.len() ==> !hit(#[trigger] rows[i]) {
            assert forall|i: int| 0 <= i < rows.drop_last().len() implies !hit(
                #[trigger] rows.drop_last()[i],
            ) by {
                assert(!hit(rows[i]));
            }
            assert(!hit(rows[rows.len() - 1]));
        }
    }
}

impl FileStatement {
    /// The rows of `files` that the statement changes.
    pub open spec fn hits_file(self) -> spec_fn(FileEntry) -> bool {
        match self {
            FileStatement::UpdateFile { hash, .. } => |f: FileEntry| f.hash == Some(hash.hex()),
            FileStatement::PromoteHash { file_uuid, .. } => |f: FileEntry|
                f.file_uuid == file_uuid.0.text() && f.deleted_at is None,
            FileStatement::MarkDistinct { file_uuid, .. } => |f: FileEntry|
                f.file_uuid == file_uuid.0.text() && f.deleted_at is None,
            _ => |f: FileEntry| false,
        }
    }

    /// What the statement makes of a row of `files` that it changes.
    pub open spec fn change_file(self) -> spec_fn(FileEntry) -> FileEntry {
        match self {
            FileStatement::UpdateFile { size, now, device, hlc, quick_hash, .. } => |f: FileEntry|
                FileEntry {
                    size: size as int,
                    updated_at: now@,
                    device: device.0.text(),
                    hlc: hlc as int,
                    quick_hash: if f.quick_hash is Some {
                        f.quick_hash
                    } else {
                        hex_opt(quick_hash)
                    },
                    ..f
                },
            FileStatement::PromoteHash { hash, now, device, hlc, .. } => |f: FileEntry|
                FileEntry {
                    hash: Some(hash.hex()),
                    updated_at: now@,
                    device: device.0.text(),
                    hlc: hlc as int,
                    ..f
                },
            FileStatement::MarkDistinct { now, device, hlc, .. } => |f: FileEntry|
                FileEntry {
                    verified_distinct: true,
                    updated_at: now@,
                    device: device.0.text(),
                    hlc: hlc as int,
                    ..f
                },
            _ => |f: FileEntry| f,
        }
    }

    /// The rows of `file_locations` that the statement changes.
    pub open spec fn hits_location(self) -> spec_fn(LocationEntry) -> bool {
        match self {
            FileStatement::UpdateLocationHash { id, .. } => |l: LocationEntry| l.id == id@,
            FileStatement::SetLocationStatus { volume, path, .. } => |l: LocationEntry|
                l.live_at(volume.0.text(), path@),
            FileStatement::RetireMissing { .. } => |l: LocationEntry|
                l.status == "missing"@ && l.deleted_at is None,
            FileStatement::RetireLocation { volume, path, .. } => |l: LocationEntry|
                l.live_at(volume.0.text(), path@),
            FileStatement::RenameLocation { volume, old_path, .. } => |l: LocationEntry|
                l.live_at(volume.0.text(), old_path@),
            FileStatement::AdoptSentinel { path, .. } => |l: LocationEntry|
                l.live_at(sentinel(), path@),
            _ => |l: LocationEntry| false,
        }
    }

    /// What the statement makes of a row of `file_locations` that it changes.
    pub open spec fn change_location(self) -> spec_fn(LocationEntry) -> LocationEntry {
        match self {
            FileStatement::UpdateLocationHash { hash, now, device, hlc, .. } => |l: LocationEntry|
                LocationEntry {
                    hash: Some(hash.hex()),
                    updated_at: now@,
                    device: device.0.text(),
                    hlc: hlc as int,
                    ..l
                },
            FileStatement::SetLocationStatus { status, now, device, hlc, .. } => |l: LocationEntry|
                LocationEntry {
                    status: status_text(status),
                    updated_at: now@,
                    device: device.0.text(),
                    hlc: hlc as int,
                    ..l
                },
            FileStatement::RetireMissing { now, device, hlc } => |l: LocationEntry|
                LocationEntry {
                    deleted_at: Some(now@),
                    updated_at: now@,
                    device: device.0.text(),
                    hlc: hlc as int,
                    ..l
                },
            FileStatement::RetireLocation { now, device, hlc, .. } => |l: LocationEntry|
                LocationEntry {
                    deleted_at: Some(now@),
                    updated_at: now@,
                    device: device.0.text(),
                    hlc: hlc as int,
                    ..l
                },
            FileStatement::RenameLocation { new_path, now, device, hlc, .. } => |l: LocationEntry|
                LocationEntry {
                    path: new_path@,
                    status: "active"@,
                    updated_at: now@,
                    device: device.0.text(),
                    hlc: hlc as int,
                    ..l
                },
            FileStatement::AdoptSentinel { volume, now, device, hlc, .. } => |l: LocationEntry|
                LocationEntry {
                    volume: volume.0.text(),
                    updated_at: now@,
                    device: device.0.text(),
                    hlc: hlc as int,
                    ..l
                },
            _ => |l: LocationEntry| l,
        }
    }

    /// The row that the statement adds to `files`, if it adds one.
    pub open spec fn new_file(self) -> Option<FileEntry> {
        match self {
            FileStatement::InsertFile { hash, file_uuid, size, quick_hash, now, device, hlc } => Some(
                FileEntry {
                    hash: Some(hash.hex()),
                    file_uuid: file_uuid.text(),
                    size: size as int,
                    quick_hash: hex_opt(quick_hash),
                    verified_distinct: false,
                    first_seen: now@,
                    updated_at: now@,
                    deleted_at: None,
                    device: device.0.text(),
                    hlc: hlc as int,
                },
            ),
            _ => None,
        }
    }

    /// The row that the statement adds to `file_locations`, if it adds one. It
    /// takes the identifier of the file with its hash, if there is one.
    pub open spec fn new_location(self, files: Seq<FileEntry>) -> Option<LocationEntry> {
        match self {
            FileStatement::InsertLocation { id, hash, volume, path, now, device, hlc } => Some(
                LocationEntry {
                    id: id.text(),
                    hash: Some(hash.hex()),
                    file_uuid: file_uuid_of(files, hash.hex()),
                    volume: volume.0.text(),
                    path: path@,
                    status: "active"@,
                    first_seen: now@,
                    updated_at: now@,
                    deleted_at: None,
                    device: device.0.text(),
                    hlc: hlc as int,
                },
            ),
            _ => None,
        }
    }

    /// The tables after the statement.
    pub open spec fn on(self, c: Catalog) -> Catalog {
        let files = updated(c.files, self.hits_file(), self.change_file());
        let locations = updated(c.locations, self.hits_location(), self.change_location());
        Catalog {
            files: match self.new_file() {
                Some(row) => files.push(row),
                None => files,
            },
            locations: match self.new_location(c.files) {
                Some(row) => locations.push(row),
                None => locations,
            },
        }
    }

    /// How many rows the statement changes or adds.
    pub open spec fn rows(self, c: Catalog) -> nat {
        if self is InsertFile || self is InsertLocation {
            1
        } else {
            hits(c.files, self.hits_file()) + hits(c.locations, self.hits_location())
        }
    }
}

/// The identifier of the file with a hash, if there is one.
pub open spec fn file_uuid_of(files: Seq<FileEntry>, hash: Seq<char>) -> Option<Seq<char>>
    decreases files.len(),
{
    if files.len() == 0 {
        None
    } else if files[0].hash == Some(hash) {
        Some(files[0].file_uuid)
    } else {
        file_uuid_of(files.drop_first(), hash)
    }
}

/// The tables after a list of statements.
pub open spec fn after(c: Catalog, statements: Seq<FileStatement>) -> Catalog
    decreases statements.len(),
{
    if statements.len() == 0 {
        c
    } else {
        statements.last().on(after(c, statements.drop_last()))
    }
}

impl Catalog {
    /// No path of a volume has two live rows.
    pub open spec fn one_live_row_per_path(self) -> bool {
        forall|i: int, j: int|
            0 <= i < self.locations.len() && 0 <= j < self.locations.len() && (
            #[trigger] self.locations[i]).live_at(
                (#[trigger] self.locations[j]).volume,
                self.locations[j].path,
            ) && self.locations[j].deleted_at is None ==> i == j
    }

    /// No two locations have the same identifier.
    pub open spec fn ids_are_unique(self) -> bool {
        forall|i: int, j: int|
            0 <= i < self.locations.len() && 0 <= j < self.locations.len() && (
            #[trigger] self.locations[i]).id == (#[trigger] self.locations[j]).id ==> i == j
    }

    /// No two files have the same hash.
    pub open spec fn hashes_are_unique(self) -> bool {
        forall|i: int, j: int|
            0 <= i < self.files.len() && 0 <= j < self.files.len() && (
            #[trigger] self.files[i]).hash is Some && self.files[i].hash == (
            #[trigger] self.files[j]).hash ==> i == j
    }

    /// No two files have the same identifier.
    pub open spec fn uuids_are_unique(self) -> bool {
        forall|i: int, j: int|
            0 <= i < self.files.len() && 0 <= j < self.files.len() && (
            #[trigger] self.files[i]).file_uuid == (#[trigger] self.files[j]).file_uuid ==> i == j
    }

    /// What every command keeps.
    pub open spec fn wf(self) -> bool {
        &&& self.one_live_row_per_path()
        &&& self.ids_are_unique()
        &&& self.hashes_are_unique()
        &&& self.uuids_are_unique()
    }

    /// Whether an identifier is in no row yet.
    pub open spec fn fresh(self, id: Seq<char>) -> bool {
        !self.has_id(id) && !self.has_uuid(id)
    }

    /// Whether some file has an identifier.
    pub open spec fn has_uuid(self, id: Seq<char>) -> bool {
        exists|i: int| 0 <= i < self.files.len() && (#[trigger] self.files[i]).file_uuid == id
    }

    /// Whether some row is the live row of a path.
    pub open spec fn has_live(self, volume: Seq<char>, path: Seq<char>) -> bool {
        exists|i: int|
            0 <= i < self.locations.len() && (#[trigger] self.locations[i]).live_at(volume, path)
    }

    /// Whether some location has an identifier.
    pub open spec fn has_id(self, id: Seq<char>) -> bool {
        exists|i: int| 0 <= i < self.locations.len() && (#[trigger] self.locations[i]).id == id
    }

    /// Whether some file has a hash.
    pub open spec fn has_hash(self, hash: Seq<char>) -> bool {
        exists|i: int| 0 <= i < self.files.len() && (#[trigger] self.files[i]).hash == Some(hash)
    }

    /// Whether a lookup by hash can give this.
    pub open spec fn finds_file(self, hash: Seq<char>, found: Option<ExistingFile>) -> bool {
        match found {
            None => !self.has_hash(hash),
            Some(row) => exists|i: int|
                0 <= i < self.files.len() && (#[trigger] self.files[i]).hash == Some(hash)
                    && self.files[i].size == row.size && self.files[i].device == row.device@
                    && self.files[i].quick_hash == text_opt(row.quick_hash),
        }
    }

    /// Whether a lookup of the live row of a path can give this.
    pub open spec fn finds_location(
        self,
        volume: Seq<char>,
        path: Seq<char>,
        found: Option<ExistingLocation>,
    ) -> bool {
        match found {
            None => !self.has_live(volume, path),
            Some(row) => exists|i: int|
                0 <= i < self.locations.len() && (#[trigger] self.locations[i]).live_at(
                    volume,
                    path,
                ) && self.locations[i].id == row.id@ && self.locations[i].hash == text_opt(row.hash)
                    && self.locations[i].device == row.device@,
        }
    }

    /// Whether the lookup of a command can give this.
    pub open spec fn finds(self, cmd: FileWriteCmd, found: FileFound) -> bool {
        match cmd {
            FileWriteCmd::UpsertFile { file, .. } => self.finds_file(file.hash.hex(), found.file),
            FileWriteCmd::UpsertLocation { volume, path, .. } => self.finds_location(
                volume.0.text(),
                path@,
                found.location,
            ),
            FileWriteCmd::UpdateLocationPath { volume, new_path, .. } => found.collision is Some
                <==> self.has_live(volume.0.text(), new_path@),
            _ => true,
        }
    }

    /// Whether the row counts are those of the statements.
    pub open spec fn counts(self, statements: Seq<FileStatement>, counts: Seq<u64>) -> bool {
        &&& counts.len() == statements.len()
        &&& forall|k: int|
            0 <= k < statements.len() ==> #[trigger] counts[k] == statements[k].rows(
                after(self, statements.take(k)),
            )
    }
}

/// What a statement has to meet for the tables to stay in order.
spec fn admissible(s: FileStatement, c: Catalog) -> bool {
    match s {
        FileStatement::InsertFile { hash, file_uuid, .. } => !c.has_hash(hash.hex()) && !c.has_uuid(
            file_uuid.text(),
        ),
        FileStatement::InsertLocation { id, volume, path, .. } => !c.has_id(id.text())
            && !c.has_live(volume.0.text(), path@),
        FileStatement::RenameLocation { new_path, volume, .. } => !c.has_live(
            volume.0.text(),
            new_path@,
        ),
        FileStatement::AdoptSentinel { volume, path, .. } => volume.0.text() == sentinel()
            || !c.has_live(volume.0.text(), path@),
        FileStatement::PromoteHash { hash, .. } => !c.has_hash(hash.hex()),
        _ => true,
    }
}

proof fn lemma_statement_keeps_order(s: FileStatement, c: Catalog)
    requires
        c.wf(),
        admissible(s, c),
    ensures
        s.on(c).wf(),
{
    let d = s.on(c);
    assert(d.ids_are_unique());
    assert(d.uuids_are_unique());
    assert(d.hashes_are_unique());
    assert(d.one_live_row_per_path());
}

proof fn lemma_one_statement(c: Catalog, s: FileStatement)
    ensures
        after(c, seq![s]) == s.on(c),
{
    let statements = seq![s];
    assert(statements.drop_last() =~= Seq::<FileStatement>::empty());
    assert(after(c, statements.drop_last()) == c);
}

/// Whether a command can run without two rows claiming one place. A command that
/// gives a location its real volume must not find that path taken there, and a
/// full hash must not be that of another file; the other commands always can.
pub open spec fn unobstructed(cmd: FileWriteCmd, c: Catalog) -> bool {
    match cmd {
        FileWriteCmd::MigrateSentinelRow { path, real_volume, .. } => real_volume.0.text()
            == sentinel() || !c.has_live(real_volume.0.text(), path@),
        FileWriteCmd::PromoteFullHash { full_hash, .. } => !c.has_hash(full_hash.hex()),
        _ => true,
    }
}

/// Every command keeps the tables in order: one live row per path, and no
/// identifier or hash twice.
pub proof fn law_commands_keep_order(
    c: Catalog,
    cmd: FileWriteCmd,
    stamp: Stamp,
    found: FileFound,
    plan: FilePlan,
)
    requires
        c.wf(),
        c.finds(cmd, found),
        c.fresh(stamp.fresh.text()),
        unobstructed(cmd, c),
        cmd.planned(stamp, found, plan),
    ensures
        after(c, plan.statements@).wf(),
{
    lemma_statements_keep_order(c, cmd, stamp, found, plan, plan.statements@.len() as int);
    assert(plan.statements@.take(plan.statements@.len() as int) =~= plan.statements@);
}

proof fn lemma_statements_keep_order(
    c: Catalog,
    cmd: FileWriteCmd,
    stamp: Stamp,
    found: FileFound,
    plan: FilePlan,
    k: int,
)
    requires
        c.wf(),
        c.finds(cmd, found),
        c.fresh(stamp.fresh.text()),
        unobstructed(cmd, c),
        cmd.planned(stamp, found, plan),
        0 <= k <= plan.statements@.len(),
    ensures
        after(c, plan.statements@.take(k)).wf(),
    decreases k,
{
    if k > 0 {
        let part = plan.statements@.take(k);
        lemma_statements_keep_order(c, cmd, stamp, found, plan, k - 1);
        assert(part.drop_last() =~= plan.statements@.take(k - 1));
        let d = after(c, part.drop_last());
        if k == 1 {
            assert(part.drop_last() =~= Seq::<FileStatement>::empty());
            assert(d == c);
        }
        assert(admissible(part.last(), d));
        lemma_statement_keeps_order(part.last(), d);
    }
}

/// Rows are never removed, and what identifies a row and says when it was first
/// seen never changes: what a statement retires stays in its table.
pub proof fn law_rows_are_kept(s: FileStatement, c: Catalog)
    ensures
        s.on(c).files.len() >= c.files.len(),
        s.on(c).locations.len() >= c.locations.len(),
        forall|i: int|
            0 <= i < c.files.len() ==> (#[trigger] s.on(c).files[i]).file_uuid
                == c.files[i].file_uuid && s.on(c).files[i].first_seen == c.files[i].first_seen,
        forall|i: int|
            0 <= i < c.locations.len() ==> (#[trigger] s.on(c).locations[i]).id
                == c.locations[i].id && s.on(c).locations[i].first_seen
                == c.locations[i].first_seen,
{
}

/// A quick hash that is stored is never overwritten.
pub proof fn law_quick_hash_is_kept(s: FileStatement, c: Catalog, i: int)
    requires
        0 <= i < c.files.len(),
        c.files[i].quick_hash is Some,
    ensures
        s.on(c).files[i].quick_hash == c.files[i].quick_hash,
{
}

/// Every row that a command changes or adds carries the time, the clock and the
/// device of the command.
pub proof fn law_changed_rows_carry_the_stamp(
    c: Catalog,
    cmd: FileWriteCmd,
    stamp: Stamp,
    found: FileFound,
    plan: FilePlan,
    k: int,
)
    requires
        cmd.planned(stamp, found, plan),
        0 <= k < plan.statements@.len(),
    ensures
        ({
            let d = plan.statements@[k].on(c);
            &&& forall|i: int|
                0 <= i < d.locations.len() ==> (i < c.locations.len() && d.locations[i]
                    == c.locations[i]) || ((#[trigger] d.locations[i]).hlc == stamp.hlc
                    && d.locations[i].updated_at == stamp.now@ && d.locations[i].device
                    == device_of(cmd).0.text())
            &&& forall|i: int|
                0 <= i < d.files.len() ==> (i < c.files.len() && d.files[i] == c.files[i]) || ((
                #[trigger] d.files[i]).hlc == stamp.hlc && d.files[i].updated_at == stamp.now@
                    && d.files[i].device == device_of(cmd).0.text())
        }),
{
}

/// The device that issued a command.
pub open spec fn device_of(cmd: FileWriteCmd) -> DeviceId {
    match cmd {
        FileWriteCmd::UpsertFile { device, .. } => device,
        FileWriteCmd::UpsertLocation { device, .. } => device,
        FileWriteCmd::UpdateLocationStatus { device, .. } => device,
        FileWriteCmd::UpdateLocationStatuses { device, .. } => device,
        FileWriteCmd::SoftDeleteMissingLocations { device } => device,
        FileWriteCmd::UpdateLocationPath { device, .. } => device,
        FileWriteCmd::MigrateSentinelRow { device, .. } => device,
        FileWriteCmd::PromoteFullHash { device, .. } => device,
        FileWriteCmd::MarkVerifiedDistinct { device, .. } => device,
    }
}

/// A command of which listeners hear nothing has written nothing.
pub proof fn law_silence_means_no_change(
    c: Catalog,
    cmd: FileWriteCmd,
    stamp: Stamp,
    found: FileFound,
    plan: FilePlan,
    counts: Seq<u64>,
    reply: FileReply,
)
    requires
        cmd.planned(stamp, found, plan),
        c.counts(plan.statements@, counts),
        match plan.answer {
            crate::db::writer::file::FileAnswer::Outcome(outcome) => reply == FileReply::Outcome(
                Ok(outcome),
            ),
            _ => reply matches FileReply::Rows(Ok(rows)) && rows == total(counts),
        },
        !reply.changed(),
    ensures
        after(c, plan.statements@) == c,
{
    let statements = plan.statements@;
    if plan.answer is Outcome {
        assert(statements.len() == 0);
    } else {
        lemma_no_rows_no_change(c, statements, counts, statements.len() as int);
        assert(statements.take(statements.len() as int) =~= statements);
    }
}

proof fn lemma_total_zero(counts: Seq<u64>, k: int)
    requires
        total(counts) == 0,
        0 <= k < counts.len(),
    ensures
        counts[k] == 0,
    decreases counts.len(),
{
    crate::db::sql::lemma_total_nonnegative(counts.drop_last());
    if k < counts.len() - 1 {
        lemma_total_zero(counts.drop_last(), k);
    }
}

proof fn lemma_no_rows_no_change(
    c: Catalog,
    statements: Seq<FileStatement>,
    counts: Seq<u64>,
    k: int,
)
    requires
        c.counts(statements, counts),
        total(counts) == 0,
        0 <= k <= statements.len(),
        forall|i: int|
            0 <= i < statements.len() ==> (#[trigger] statements[i]).new_file() is None
                && !(statements[i] is InsertLocation),
    ensures
        after(c, statements.take(k)) == c,
    decreases k,
{
    if k > 0 {
        lemma_no_rows_no_change(c, statements, counts, k - 1);
        let part = statements.take(k);
        assert(part.drop_last() =~= statements.take(k - 1));
        lemma_total_zero(counts, k - 1);
        let s = statements[k - 1];
        assert(counts[k - 1] == s.rows(c));
        assert(s.new_file() is None);
        lemma_no_hits(c.files, s.hits_file());
        lemma_no_hits(c.locations, s.hits_location());
        assert(s.on(c).files =~= c.files);
        assert(s.on(c).locations =~= c.locations);
    }
}

pub(crate) proof fn lemma_upserted_file_row(
    c: Catalog,
    file: HashedFile,
    device: DeviceId,
    quick_hash: Option<BlakeHash>,
    stamp: Stamp,
    found: FileFound,
    plan: FilePlan,
    i: int,
)
    requires
        c.wf(),
        file.discovered.size.0 <= i64::MAX,
        c.finds_file(file.hash.hex(), found.file),
        (FileWriteCmd::UpsertFile { file, device, quick_hash }).planned(stamp, found, plan),
    ensures
        after(c, plan.statements@).has_hash(file.hash.hex()),
        ({
            let d = after(c, plan.statements@);
            0 <= i < d.files.len() && d.files[i].hash == Some(file.hash.hex()) ==> d.files[i].size
                == file.discovered.size.0 && d.files[i].device == device.0.text() && (quick_hash
                is Some ==> d.files[i].quick_hash is Some)
        }),
{
    let d = after(c, plan.statements@);
    let statements = plan.statements@;
    let hex = file.hash.hex();
    if statements.len() > 0 {
        assert(statements =~= seq![statements[0]]);
        lemma_one_statement(c, statements[0]);
    }
    match found.file {
        None => {
            assert(d.files[c.files.len() as int].hash == Some(hex));
            if 0 <= i < c.files.len() {
                assert(c.files[i].hash != Some(hex));
            }
        },
        Some(row) => {
            let k = choose|k: int|
                0 <= k < c.files.len() && (#[trigger] c.files[k]).hash == Some(hex)
                    && c.files[k].size == row.size && c.files[k].device == row.device@
                    && c.files[k].quick_hash == text_opt(row.quick_hash);
            assert(d.files[k].hash == Some(hex));
            if 0 <= i < d.files.len() && d.files[i].hash == Some(hex) {
                assert(c.files[i].hash == c.files[k].hash);
            }
        },
    }
}

/// After an upsert of a file its row is stored: with the hash and the size of the
/// file, and with the device that issued the command, so that the same upsert
/// again finds nothing to change.
pub proof fn law_upserted_file_reads_back(
    c: Catalog,
    file: HashedFile,
    device: DeviceId,
    quick_hash: Option<BlakeHash>,
    stamp: Stamp,
    found: FileFound,
    plan: FilePlan,
    again: Option<ExistingFile>,
)
    requires
        c.wf(),
        file.discovered.size.0 <= i64::MAX,
        c.finds_file(file.hash.hex(), found.file),
        (FileWriteCmd::UpsertFile { file, device, quick_hash }).planned(stamp, found, plan),
        after(c, plan.statements@).finds_file(file.hash.hex(), again),
    ensures
        again matches Some(row) && row.size == file.discovered.size.0 && row.device@
            == device.0.text(),
        upsert_file_outcome(file.discovered.size.0 as i64, device, quick_hash, again)
            == UpsertOutcome::Unchanged,
{
    let d = after(c, plan.statements@);
    let hex = file.hash.hex();
    lemma_upserted_file_row(c, file, device, quick_hash, stamp, found, plan, 0);
    if let Some(row) = again {
        let k = choose|k: int|
            0 <= k < d.files.len() && (#[trigger] d.files[k]).hash == Some(hex) && d.files[k].size
                == row.size && d.files[k].device == row.device@ && d.files[k].quick_hash == text_opt(
                row.quick_hash,
            );
        lemma_upserted_file_row(c, file, device, quick_hash, stamp, found, plan, k);
    }
}

/// After an upsert of a location its path has a live row with the hash and the
/// device of the command, so that the same upsert again changes nothing.
pub proof fn law_upserted_location_reads_back(
    c: Catalog,
    hash: BlakeHash,
    volume: VolumeId,
    path: MediaPath,
    device: DeviceId,
    stamp: Stamp,
    found: FileFound,
    plan: FilePlan,
    again: Option<ExistingLocation>,
)
    requires
        c.wf(),
        c.finds_location(volume.0.text(), path@, found.location),
        (FileWriteCmd::UpsertLocation { hash, volume, path, device }).planned(stamp, found, plan),
        after(c, plan.statements@).finds_location(volume.0.text(), path@, again),
    ensures
        again matches Some(row) && text_opt(row.hash) == Some(hash.hex()) && row.device@
            == device.0.text(),
        upsert_location_outcome(hash, device, again) == UpsertOutcome::Unchanged,
{
    let d = after(c, plan.statements@);
    let statements = plan.statements@;
    let vol = volume.0.text();
    if statements.len() > 0 {
        assert(statements =~= seq![statements[0]]);
        lemma_one_statement(c, statements[0]);
    }
    match found.location {
        None => {
            assert(d.locations[c.locations.len() as int].live_at(vol, path@));
            assert(d.has_live(vol, path@));
            assert forall|i: int| 0 <= i < c.locations.len() implies !(
            #[trigger] d.locations[i]).live_at(vol, path@) by {
                assert(!c.locations[i].live_at(vol, path@));
            }
        },
        Some(row) => {
            let k = choose|i: int|
                0 <= i < c.locations.len() && (#[trigger] c.locations[i]).live_at(vol, path@)
                    && c.locations[i].id == row.id@ && c.locations[i].hash == text_opt(row.hash)
                    && c.locations[i].device == row.device@;
            assert(d.locations[k].live_at(vol, path@));
            assert(d.has_live(vol, path@));
            assert forall|i: int|
                0 <= i < d.locations.len() && (#[trigger] d.locations[i]).live_at(
                    vol,
                    path@,
                ) implies i == k by {
                assert(c.locations[i].live_at(vol, path@));
                assert(c.locations[i].live_at(c.locations[k].volume, c.locations[k].path));
            }
        },
    }
}

/// A move to a free path takes the live row there, as an active row; a move to a
/// path that is taken retires the live row of the old path and leaves the row of
/// the new path as it is, unless both are the same path.
pub proof fn law_move_keeps_the_destination(
    c: Catalog,
    volume: VolumeId,
    old_path: MediaPath,
    new_path: MediaPath,
    device: DeviceId,
    stamp: Stamp,
    found: FileFound,
    plan: FilePlan,
    i: int,
)
    requires
        c.wf(),
        (FileWriteCmd::UpdateLocationPath { volume, old_path, new_path, device }).planned(
            stamp,
            found,
            plan,
        ),
        c.finds(FileWriteCmd::UpdateLocationPath { volume, old_path, new_path, device }, found),
        0 <= i < c.locations.len(),
    ensures
        ({
            let d = after(c, plan.statements@);
            let vol = volume.0.text();
            &&& c.locations[i].live_at(vol, old_path@) && !c.has_live(vol, new_path@)
                ==> d.locations[i].live_at(vol, new_path@) && d.locations[i].status == "active"@
                && d.locations[i].hash == c.locations[i].hash
            &&& c.locations[i].live_at(vol, old_path@) && c.has_live(vol, new_path@)
                ==> d.locations[i].deleted_at == Some(stamp.now@)
            &&& !c.locations[i].live_at(vol, old_path@) ==> d.locations[i] == c.locations[i]
        }),
{
    let statements = plan.statements@;
    assert(statements =~= seq![statements[0]]);
    lemma_one_statement(c, statements[0]);
}

/// Retiring the missing locations leaves no live row that is missing, and leaves
/// every other row as it is.
pub proof fn law_prune_retires_the_missing_only(
    c: Catalog,
    device: DeviceId,
    stamp: Stamp,
    found: FileFound,
    plan: FilePlan,
    i: int,
)
    requires
        (FileWriteCmd::SoftDeleteMissingLocations { device }).planned(stamp, found, plan),
        0 <= i < c.locations.len(),
    ensures
        ({
            let d = after(c, plan.statements@);
            if c.locations[i].status == status_text(LocationStatus::Missing)
                && c.locations[i].deleted_at is None {
                d.locations[i].deleted_at == Some(stamp.now@)
            } else {
                d.locations[i] == c.locations[i]
            }
        }),
        after(c, plan.statements@).locations.len() == c.locations.len(),
{
    let statements = plan.statements@;
    assert(statements =~= seq![statements[0]]);
    lemma_one_statement(c, statements[0]);
}

/// Only a row without a volume is adopted: a row that has one keeps it.
pub proof fn law_adoption_spares_rows_with_a_volume(
    c: Catalog,
    path: MediaPath,
    real_volume: VolumeId,
    device: DeviceId,
    stamp: Stamp,
    found: FileFound,
    plan: FilePlan,
    i: int,
)
    requires
        (FileWriteCmd::MigrateSentinelRow { path, real_volume, device }).planned(
            stamp,
            found,
            plan,
        ),
        0 <= i < c.locations.len(),
    ensures
        ({
            let d = after(c, plan.statements@);
            if c.locations[i].live_at(sentinel(), path@) {
                d.locations[i].live_at(real_volume.0.text(), path@)
            } else {
                d.locations[i] == c.locations[i]
            }
        }),
{
    let statements = plan.statements@;
    assert(statements =~= seq![statements[0]]);
    lemma_one_statement(c, statements[0]);
}

impl Catalog {
    /// Whether the file at `i` is the file of the location at `j`: the file with the
    /// hash of the location; where the location has no hash yet or no file has it,
    /// the file that the location names.
    pub open spec fn belongs(self, i: int, j: int) -> bool {
        &&& 0 <= i < self.files.len()
        &&& 0 <= j < self.locations.len()
        &&& if self.locations[j].hash is Some && self.has_hash(self.locations[j].hash->0) {
            self.files[i].hash == self.locations[j].hash
        } else {
            self.locations[j].file_uuid == Some(self.files[i].file_uuid)
        }
    }
}

/// Whether a row of a list of locations shows these two rows.
pub open spec fn shows(f: FileEntry, l: LocationEntry, row: LocationRow) -> bool {
    &&& row.file_uuid@ == f.file_uuid
    &&& text_opt(row.hash) == f.hash
    &&& row.size == f.size
    &&& row.volume@ == l.volume
    &&& row.path@ == l.path
    &&& row.status@ == l.status
    &&& row.first_seen@ == l.first_seen
}

pub(crate) proof fn lemma_written_location_row(
    c: Catalog,
    hash: BlakeHash,
    volume: VolumeId,
    path: MediaPath,
    device: DeviceId,
    stamp: Stamp,
    found: FileFound,
    plan: FilePlan,
    j: int,
)
    requires
        c.wf(),
        c.finds_location(volume.0.text(), path@, found.location),
        (FileWriteCmd::UpsertLocation { hash, volume, path, device }).planned(stamp, found, plan),
    ensures
        ({
            let d = after(c, plan.statements@);
            &&& d.files == c.files
            &&& d.has_live(volume.0.text(), path@)
            &&& 0 <= j < d.locations.len() && d.locations[j].live_at(volume.0.text(), path@)
                ==> d.locations[j].hash == Some(hash.hex())
        }),
{
    let d = after(c, plan.statements@);
    let vol = volume.0.text();
    let statements = plan.statements@;
    if statements.len() > 0 {
        assert(statements =~= seq![statements[0]]);
        lemma_one_statement(c, statements[0]);
    }
    assert(d.files =~= c.files);
    if found.location is None {
        assert(d.locations[c.locations.len() as int].live_at(vol, path@));
        if 0 <= j < c.locations.len() {
            assert(!c.locations[j].live_at(vol, path@));
        }
    } else {
        let k = choose|k: int|
            0 <= k < c.locations.len() && (#[trigger] c.locations[k]).live_at(vol, path@)
                && c.locations[k].id == found.location->0.id@ && c.locations[k].hash == text_opt(
                found.location->0.hash,
            ) && c.locations[k].device == found.location->0.device@;
        assert(d.locations[k].live_at(vol, path@));
        if 0 <= j < d.locations.len() && d.locations[j].live_at(vol, path@) {
            assert(c.locations[j].live_at(vol, path@));
            assert(c.locations[j].live_at(c.locations[k].volume, c.locations[k].path));
        }
    }
}

/// What was written is what a list reads: after an upsert of a file and of its
/// location, a record for that path has the hash and the size of the file, and the
/// volume and the path of the location. Where both rows are new the record can be
/// read, is active, and has the identifier and the time that the commands gave.
pub proof fn law_written_location_reads_back(
    c: Catalog,
    file: HashedFile,
    quick_hash: Option<BlakeHash>,
    volume: VolumeId,
    device: DeviceId,
    stamp: Stamp,
    found: FileFound,
    plan: FilePlan,
    stamp2: Stamp,
    found2: FileFound,
    plan2: FilePlan,
    i: int,
    j: int,
    row: LocationRow,
    record: FileLocationRecord,
)
    requires
        c.wf(),
        c.fresh(stamp.fresh.text()),
        file.discovered.size.0 <= i64::MAX,
        file.discovered.relative_path.valid(),
        volume.0.reads_back(),
        stamp.fresh.reads_back(),
        c.finds_file(file.hash.hex(), found.file),
        (FileWriteCmd::UpsertFile { file, device, quick_hash }).planned(stamp, found, plan),
        after(c, plan.statements@).finds_location(
            volume.0.text(),
            file.discovered.relative_path@,
            found2.location,
        ),
        (FileWriteCmd::UpsertLocation {
            hash: file.hash,
            volume,
            path: file.discovered.relative_path,
            device,
        }).planned(stamp2, found2, plan2),
        ({
            let d = after(after(c, plan.statements@), plan2.statements@);
            &&& d.belongs(i, j)
            &&& d.locations[j].live_at(volume.0.text(), file.discovered.relative_path@)
            &&& shows(d.files[i], d.locations[j], row)
        }),
        row.read_as(record),
    ensures
        record.hash == Some(file.hash),
        record.size == file.discovered.size,
        record.volume_id == volume,
        record.relative_path@ == file.discovered.relative_path@,
        found.file is None && found2.location is None ==> {
            &&& row.fault() is None
            &&& record.file_uuid == FileUuid(stamp.fresh)
            &&& record.status == LocationStatus::Active
            &&& record.first_seen@ == stamp2.now@
        },
{
    let c1 = after(c, plan.statements@);
    let d = after(c1, plan2.statements@);
    let cmd1 = FileWriteCmd::UpsertFile { file, device, quick_hash };
    law_commands_keep_order(c, cmd1, stamp, found, plan);
    let statements = plan2.statements@;
    if statements.len() > 0 {
        assert(statements =~= seq![statements[0]]);
        lemma_one_statement(c1, statements[0]);
    }
    assert(d.files =~= c1.files);
    lemma_written_location_row(
        c1,
        file.hash,
        volume,
        file.discovered.relative_path,
        device,
        stamp2,
        found2,
        plan2,
        j,
    );
    if found2.location is None && j < c1.locations.len() {
        assert(!c1.locations[j].live_at(volume.0.text(), file.discovered.relative_path@));
    }
    assert(d.locations[j].hash == Some(file.hash.hex()));
    // The file with that hash has the size of the file.
    lemma_upserted_file_row(c, file, device, quick_hash, stamp, found, plan, i);
    assert(c1.files[i].size == file.discovered.size.0);
    crate::types::law_hash_text_injective(record.hash->0, file.hash);
    crate::db::convert::law_status_round_trip(LocationStatus::Active);
    crate::types::law_hash_text_round_trip(file.hash);
    if found.file is None && found2.location is None {
        assert(plan.statements@ =~= seq![plan.statements@[0]]);
        lemma_one_statement(c, plan.statements@[0]);
        assert(i == c.files.len()) by {
            if i < c.files.len() {
                assert(c1.files[i] == c.files[i]);
                assert(c.has_hash(file.hash.hex()));
            }
        }
    }
}

/// Marking files as distinct marks every live file of the list, and leaves every
/// other file as it is.
pub proof fn law_distinct_files_are_marked(
    c: Catalog,
    file_uuids: Seq<FileUuid>,
    device: DeviceId,
    stamp: Stamp,
    i: int,
)
    requires
        0 <= i < c.files.len(),
    ensures
        ({
            let d = after(c, distinct_statements(file_uuids, device, stamp));
            let listed = exists|k: int|
                0 <= k < file_uuids.len() && (#[trigger] file_uuids[k]).0.text()
                    == c.files[i].file_uuid;
            &&& d.locations == c.locations
            &&& d.files.len() == c.files.len()
            &&& if listed && c.files[i].deleted_at is None {
                d.files[i] == (FileEntry {
                    verified_distinct: true,
                    updated_at: stamp.now@,
                    device: device.0.text(),
                    hlc: stamp.hlc as int,
                    ..c.files[i]
                })
            } else {
                d.files[i] == c.files[i]
            }
        }),
    decreases file_uuids.len(),
{
    let statements = distinct_statements(file_uuids, device, stamp);
    if file_uuids.len() > 0 {
        let fewer = file_uuids.drop_last();
        law_distinct_files_are_marked(c, fewer, device, stamp, i);
        assert(statements.drop_last() =~= distinct_statements(fewer, device, stamp));
        let mid = after(c, statements.drop_last());
        let d = statements.last().on(mid);
        assert(d.locations =~= mid.locations);
        let n = file_uuids.len() - 1;
        if file_uuids[n].0.text() != c.files[i].file_uuid {
            if exists|k: int|
                0 <= k < file_uuids.len() && (#[trigger] file_uuids[k]).0.text()
                    == c.files[i].file_uuid {
                let k = choose|k: int|
                    0 <= k < file_uuids.len() && (#[trigger] file_uuids[k]).0.text()
                        == c.files[i].file_uuid;
                assert(fewer[k].0.text() == c.files[i].file_uuid);
            }
            if exists|k: int|
                0 <= k < fewer.len() && (#[trigger] fewer[k]).0.text() == c.files[i].file_uuid {
                let k = choose|k: int|
                    0 <= k < fewer.len() && (#[trigger] fewer[k]).0.text()
                        == c.files[i].file_uuid;
                assert(file_uuids[k].0.text() == c.files[i].file_uuid);
            }
        }
    }
}

/// A batch of statuses leaves each live location with the last status that the
/// batch has for its path, and leaves a location that the batch does not name as
/// it is.
pub proof fn law_last_status_of_a_batch_counts(
    c: Catalog,
    updates: Seq<LocationStatusUpdate>,
    device: DeviceId,
    stamp: Stamp,
    i: int,
    k: int,
)
    requires
        0 <= i < c.locations.len(),
        -1 <= k < updates.len(),
        forall|j: int|
            k < j < updates.len() ==> !c.locations[i].live_at(
                (#[trigger] updates[j]).volume.0.text(),
                updates[j].path@,
            ),
        k >= 0 ==> c.locations[i].live_at(updates[k].volume.0.text(), updates[k].path@),
    ensures
        ({
            let d = after(c, status_statements(updates, device, stamp));
            &&& d.locations.len() == c.locations.len()
            &&& d.locations[i].live_at(c.locations[i].volume, c.locations[i].path)
                <==> c.locations[i].deleted_at is None
            &&& if k >= 0 {
                d.locations[i] == (LocationEntry {
                    status: status_text(updates[k].status),
                    updated_at: stamp.now@,
                    device: device.0.text(),
                    hlc: stamp.hlc as int,
                    ..c.locations[i]
                })
            } else {
                d.locations[i] == c.locations[i]
            }
        }),
    decreases updates.len(),
{
    let statements = status_statements(updates, device, stamp);
    if updates.len() > 0 {
        let fewer = updates.drop_last();
        assert(statements.drop_last() =~= status_statements(fewer, device, stamp));
        let n = updates.len() - 1;
        if k < n {
            assert forall|j: int| k < j < fewer.len() implies !c.locations[i].live_at(
                (#[trigger] fewer[j]).volume.0.text(),
                fewer[j].path@,
            ) by {
                assert(!c.locations[i].live_at(updates[j].volume.0.text(), updates[j].path@));
            }
            assert(!c.locations[i].live_at(updates[n].volume.0.text(), updates[n].path@));
            law_last_status_of_a_batch_counts(c, fewer, device, stamp, i, k);
        } else {
            lemma_status_batch_keeps_places(c, fewer, device, stamp, i);
        }
    }
}

/// A batch of statuses changes at most the status and the stamp of a location.
proof fn lemma_status_batch_keeps_places(
    c: Catalog,
    updates: Seq<LocationStatusUpdate>,
    device: DeviceId,
    stamp: Stamp,
    i: int,
)
    requires
        0 <= i < c.locations.len(),
    ensures
        ({
            let d = after(c, status_statements(updates, device, stamp));
            &&& d.locations.len() == c.locations.len()
            &&& d.locations[i] == (LocationEntry {
                status: d.locations[i].status,
                updated_at: d.locations[i].updated_at,
                device: d.locations[i].device,
                hlc: d.locations[i].hlc,
                ..c.locations[i]
            })
        }),
    decreases updates.len(),
{
    let statements = status_statements(updates, device, stamp);
    if updates.len() > 0 {
        let fewer = updates.drop_last();
        assert(statements.drop_last() =~= status_statements(fewer, device, stamp));
        lemma_status_batch_keeps_places(c, fewer, device, stamp, i);
    }
}

} // verus!
