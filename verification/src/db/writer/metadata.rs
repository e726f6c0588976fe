//! Commands that write media metadata.
use vstd::prelude::*;
use vstd::string::*;

use crate::db::lookups::Lookup;
use crate::db::shape::{assign, put, Assign, Form, Shape, Term, Test, Verb};
use crate::db::sql::{
    bound_text_opt, sum_counts, text_opt_value, text_value, total, uuid_value, Bound, SqlCall,
    SqlValue, Stamp,
};
use crate::db::writer::file::hash_value;
use crate::db::writer::job::{Command, Decision, OnlyLookup};
use crate::errors::CoreError;
use crate::events::{AppEvent, InvalidationReason};
use crate::metadata::MediaMetadata;
use crate::text::{cat3, copy_text_opt, dec_nat, same_text_opt, text_opt, u64_text};
use crate::types::{BlakeHash, DeviceId, UpsertOutcome};

verus! {

/// A command that writes media metadata.
#[derive(Clone, Debug)]
pub enum MetadataWriteCmd {
    /// Insert or update the metadata of a file.
    UpsertMetadata { record: MediaMetadata, device: DeviceId },
    /// Record how far the thumbnail of a file has come.
    UpdateThumbnail { hash: BlakeHash, path: Option<String>, status: String, device: DeviceId },
}

/// A statement that changes `file_metadata`.
#[derive(Clone, Debug)]
pub enum MetadataStatement {
    Insert {
        record: MediaMetadata,
        duration: Option<i64>,
        now: String,
        device: DeviceId,
        hlc: i64,
    },
    Update {
        record: MediaMetadata,
        duration: Option<i64>,
        now: String,
        device: DeviceId,
        hlc: i64,
    },
    SetThumbnail {
        path: Option<String>,
        status: String,
        now: String,
        device: DeviceId,
        hlc: i64,
        hash: BlakeHash,
    },
}

/// An optional number as a bound value.
pub open spec fn bound_u32_opt(v: Option<u32>) -> Bound {
    match v {
        Some(n) => Bound::Int(n as int),
        None => Bound::Null,
    }
}

/// An optional number as a bound value.
pub open spec fn bound_i64_opt(v: Option<i64>) -> Bound {
    match v {
        Some(n) => Bound::Int(n as int),
        None => Bound::Null,
    }
}

fn u32_opt_value(v: Option<u32>) -> (r: SqlValue)
    ensures
        r@ == bound_u32_opt(v),
{
    match v {
        Some(n) => SqlValue::Int(n as i64),
        None => SqlValue::Null,
    }
}

fn i64_opt_value(v: Option<i64>) -> (r: SqlValue)
    ensures
        r@ == bound_i64_opt(v),
{
    match v {
        Some(n) => SqlValue::Int(n),
        None => SqlValue::Null,
    }
}

/// The values bound to an insert or update of metadata.
pub open spec fn record_bound(
    m: MediaMetadata,
    duration: Option<i64>,
    now: Seq<char>,
    device: DeviceId,
    hlc: i64,
) -> Seq<Bound> {
    seq![
        Bound::Text(m.hash.hex()),
        bound_u32_opt(m.width),
        bound_u32_opt(m.height),
        bound_i64_opt(duration),
        bound_text_opt(text_opt(m.captured_at)),
        bound_text_opt(text_opt(m.camera_make)),
        bound_text_opt(text_opt(m.camera_model)),
        bound_text_opt(text_opt(m.codec)),
        bound_u32_opt(m.bitrate_bps),
        bound_text_opt(text_opt(m.mime_type)),
        Bound::Text(now),
        Bound::Text(device.0.text()),
        Bound::Int(hlc as int),
    ]
}

fn record_values(
    m: &MediaMetadata,
    duration: Option<i64>,
    now: &str,
    device: DeviceId,
    hlc: i64,
) -> (r: Vec<SqlValue>)
    ensures
        r@.len() == 13,
        forall|i: int|
            0 <= i < 13 ==> (#[trigger] r@[i])@ == record_bound(*m, duration, now@, device, hlc)[i],
{
    vec![
        hash_value(&m.hash),
        u32_opt_value(m.width),
        u32_opt_value(m.height),
        i64_opt_value(duration),
        text_opt_value(&m.captured_at),
        text_opt_value(&m.camera_make),
        text_opt_value(&m.camera_model),
        text_opt_value(&m.codec),
        u32_opt_value(m.bitrate_bps),
        text_opt_value(&m.mime_type),
        text_value(now),
        uuid_value(device.0),
        SqlValue::Int(hlc),
    ]
}

impl MetadataStatement {
    /// The parts of the statement.
    pub open spec fn form(self) -> Form {
        match self {
            MetadataStatement::Insert { .. } => Form {
                verb: Verb::Insert,
                table: "file_metadata"@,
                columns: seq![
                    put("blake3_hash", 1),
                    put("width", 2),
                    put("height", 3),
                    put("duration_ms", 4),
                    put("captured_at", 5),
                    put("camera_make", 6),
                    put("camera_model", 7),
                    put("codec", 8),
                    put("bitrate_bps", 9),
                    put("mime_type", 10),
                    Assign { column: "thumbnail_status", term: Term::Word("pending") },
                    put("extracted_at", 11),
                    put("updated_at", 11),
                    put("device_id", 12),
                    put("hlc", 13),
                ],
                tests: seq![],
            },
            MetadataStatement::Update { .. } => Form {
                verb: Verb::Update,
                table: "file_metadata"@,
                columns: seq![
                    put("width", 2),
                    put("height", 3),
                    put("duration_ms", 4),
                    put("captured_at", 5),
                    put("camera_make", 6),
                    put("camera_model", 7),
                    put("codec", 8),
                    put("bitrate_bps", 9),
                    put("mime_type", 10),
                    put("updated_at", 11),
                    put("device_id", 12),
                    put("hlc", 13),
                ],
                tests: seq![
                    Test::Equals("blake3_hash", 1),
                ],
            },
            MetadataStatement::SetThumbnail { .. } => Form {
                verb: Verb::Update,
                table: "file_metadata"@,
                columns: seq![
                    put("thumbnail_path", 1),
                    put("thumbnail_status", 2),
                    put("updated_at", 3),
                    put("device_id", 4),
                    put("hlc", 5),
                ],
                tests: seq![
                    Test::Equals("blake3_hash", 6),
                    Test::Absent("deleted_at"),
                ],
            },
        }
    }

    /// The parts of the statement.
    pub fn shape(&self) -> (r: Shape)
        ensures
            r@ == self.form(),
    {
        let r = match self {
            MetadataStatement::Insert { .. } => Shape {
                verb: Verb::Insert,
                table: "file_metadata",
                columns: vec![
                    assign("blake3_hash", 1),
                    assign("width", 2),
                    assign("height", 3),
                    assign("duration_ms", 4),
                    assign("captured_at", 5),
                    assign("camera_make", 6),
                    assign("camera_model", 7),
                    assign("codec", 8),
                    assign("bitrate_bps", 9),
                    assign("mime_type", 10),
                    Assign { column: "thumbnail_status", term: Term::Word("pending") },
                    assign("extracted_at", 11),
                    assign("updated_at", 11),
                    assign("device_id", 12),
                    assign("hlc", 13),
                ],
                tests: Vec::new(),
            },
            MetadataStatement::Update { .. } => Shape {
                verb: Verb::Update,
                table: "file_metadata",
                columns: vec![
                    assign("width", 2),
                    assign("height", 3),
                    assign("duration_ms", 4),
                    assign("captured_at", 5),
                    assign("camera_make", 6),
                    assign("camera_model", 7),
                    assign("codec", 8),
                    assign("bitrate_bps", 9),
                    assign("mime_type", 10),
                    assign("updated_at", 11),
                    assign("device_id", 12),
                    assign("hlc", 13),
                ],
                tests: vec![
                    Test::Equals("blake3_hash", 1),
                ],
            },
            MetadataStatement::SetThumbnail { .. } => Shape {
                verb: Verb::Update,
                table: "file_metadata",
                columns: vec![
                    assign("thumbnail_path", 1),
                    assign("thumbnail_status", 2),
                    assign("updated_at", 3),
                    assign("device_id", 4),
                    assign("hlc", 5),
                ],
                tests: vec![
                    Test::Equals("blake3_hash", 6),
                    Test::Absent("deleted_at"),
                ],
            },
        };
        assert(r.columns@ =~= self.form().columns);
        assert(r.tests@ =~= self.form().tests);
        r
    }
}

impl MetadataStatement {
    /// The text of the statement.
    pub open spec fn sql(self) -> Seq<char> {
        self.form().text()
    }

    /// The values bound to the statement.
    pub open spec fn bound(self) -> Seq<Bound> {
        match self {
            MetadataStatement::Insert { record, duration, now, device, hlc } => record_bound(
                record,
                duration,
                now@,
                device,
                hlc,
            ),
            MetadataStatement::Update { record, duration, now, device, hlc } => record_bound(
                record,
                duration,
                now@,
                device,
                hlc,
            ),
            MetadataStatement::SetThumbnail { path, status, now, device, hlc, hash } => seq![
                bound_text_opt(text_opt(path)),
                Bound::Text(status@),
                Bound::Text(now@),
                Bound::Text(device.0.text()),
                Bound::Int(hlc as int),
                Bound::Text(hash.hex()),
            ],
        }
    }

    /// The statement as the database takes it.
    pub fn call(&self) -> (r: SqlCall)
        ensures
            r.is(self.sql(), self.bound()),
    {
        match self {
            MetadataStatement::Insert { record, duration, now, device, hlc } => self.shape().call(record_values(record, *duration, now.as_str(), *device, *hlc),
            ),
            MetadataStatement::Update { record, duration, now, device, hlc } => self.shape().call(record_values(record, *duration, now.as_str(), *device, *hlc),
            ),
            MetadataStatement::SetThumbnail { path, status, now, device, hlc, hash } => {
                let params: Vec<SqlValue> = vec![
                    text_opt_value(path),
                    text_value(status.as_str()),
                    text_value(now.as_str()),
                    uuid_value(device.0),
                    SqlValue::Int(*hlc),
                    hash_value(hash),
                ];
                self.shape().call(params)
            },
        }
    }
}

/// The live row of a file, as far as an upsert looks at it.
#[derive(Clone, Debug)]
pub struct ExistingMetadata {
    pub device: String,
    pub mime_type: Option<String>,
}

/// How a command is answered once its statements have run.
#[derive(Clone, Copy, Debug, PartialEq, Eq, Structural)]
pub enum MetadataAnswer {
    Outcome(UpsertOutcome),
    Rows,
}

/// The statement of a command, if it has one, and how it is answered.
#[derive(Clone, Debug)]
pub struct MetadataPlan {
    pub answer: MetadataAnswer,
    pub statement: Option<MetadataStatement>,
}

/// The reply to a command.
#[derive(Debug)]
pub enum MetadataReply {
    Outcome(Result<UpsertOutcome, CoreError>),
    Rows(Result<u64, CoreError>),
}

impl MetadataReply {
    /// Whether the command wrote something.
    pub open spec fn changed(self) -> bool {
        match self {
            MetadataReply::Outcome(Ok(outcome)) => outcome != UpsertOutcome::Unchanged,
            MetadataReply::Rows(Ok(rows)) => rows > 0,
            _ => false,
        }
    }
}

/// A duration as it is stored; what does not fit 63 bits is an error.
pub fn u64_opt_to_i64(v: Option<u64>) -> (r: Result<Option<i64>, CoreError>)
    ensures
        match v {
            None => r == Ok::<Option<i64>, CoreError>(None),
            Some(raw) => if raw <= i64::MAX {
                r == Ok::<Option<i64>, CoreError>(Some(raw as i64))
            } else {
                r matches Err(e) && e.is_internal(
                    "duration_ms "@ + dec_nat(raw as nat) + " overflows SQLite INTEGER (i64)"@,
                )
            },
        },
{
    match v {
        None => Ok(None),
        Some(raw) => {
            if raw <= 0x7fff_ffff_ffff_ffff {
                Ok(Some(raw as i64))
            } else {
                let digits = u64_text(raw);
                Err(
                    CoreError::Internal(
                        cat3("duration_ms ", digits.as_str(), " overflows SQLite INTEGER (i64)"),
                    ),
                )
            }
        },
    }
}

/// A duration that fits, as it is stored.
pub open spec fn stored_duration(v: Option<u64>) -> Option<i64> {
    match v {
        Some(raw) => Some(raw as i64),
        None => None,
    }
}

/// Whether a duration fits 63 bits.
pub open spec fn duration_fits(v: Option<u64>) -> bool {
    v matches Some(raw) ==> raw <= i64::MAX
}

/// How an upsert of metadata turns out: metadata that is not stored is inserted,
/// that of the same device and MIME type is unchanged, any other is updated.
pub open spec fn upsert_metadata_outcome(
    record: MediaMetadata,
    device: DeviceId,
    existing: Option<ExistingMetadata>,
) -> UpsertOutcome {
    match existing {
        None => UpsertOutcome::Inserted,
        Some(row) => if row.device@ == device.0.text() && text_opt(row.mime_type) == text_opt(
            record.mime_type,
        ) {
            UpsertOutcome::Unchanged
        } else {
            UpsertOutcome::Updated
        },
    }
}

/// The statement of an upsert of metadata; none where it is unchanged.
pub open spec fn upsert_metadata_statement(
    record: MediaMetadata,
    device: DeviceId,
    stamp: Stamp,
    existing: Option<ExistingMetadata>,
) -> Option<MetadataStatement> {
    match upsert_metadata_outcome(record, device, existing) {
        UpsertOutcome::Inserted => Some(
            MetadataStatement::Insert {
                record,
                duration: stored_duration(record.duration_ms),
                now: stamp.now,
                device,
                hlc: stamp.hlc,
            },
        ),
        UpsertOutcome::Unchanged => None,
        UpsertOutcome::Updated => Some(
            MetadataStatement::Update {
                record,
                duration: stored_duration(record.duration_ms),
                now: stamp.now,
                device,
                hlc: stamp.hlc,
            },
        ),
    }
}

/// Plans an upsert of metadata, from the live row of its file. A duration beyond
/// 63 bits cannot be stored.
pub fn upsert_metadata_impl(
    meta: &MediaMetadata,
    device: DeviceId,
    stamp: &Stamp,
    existing: &Option<ExistingMetadata>,
) -> (r: Result<MetadataPlan, CoreError>)
    ensures
        match r {
            Ok(plan) => {
                &&& duration_fits(meta.duration_ms)
                &&& plan.answer == MetadataAnswer::Outcome(
                    upsert_metadata_outcome(*meta, device, *existing),
                )
                &&& plan.statement == upsert_metadata_statement(*meta, device, *stamp, *existing)
            },
            Err(e) => meta.duration_ms matches Some(raw) && raw > i64::MAX && e.is_internal(
                "duration_ms "@ + dec_nat(raw as nat) + " overflows SQLite INTEGER (i64)"@,
            ),
        },
{
    let duration = match u64_opt_to_i64(meta.duration_ms) {
        Ok(d) => d,
        Err(e) => return Err(e),
    };
    let dev = device.0.to_hyphenated();
    match existing {
        None => Ok(
            MetadataPlan {
                answer: MetadataAnswer::Outcome(UpsertOutcome::Inserted),
                statement: Some(
                    MetadataStatement::Insert {
                        record: meta.copy(),
                        duration,
                        now: stamp.now.clone(),
                        device,
                        hlc: stamp.hlc,
                    },
                ),
            },
        ),
        Some(row) => {
            if row.device == dev && same_text_opt(&row.mime_type, &meta.mime_type) {
                Ok(
                    MetadataPlan {
                        answer: MetadataAnswer::Outcome(UpsertOutcome::Unchanged),
                        statement: None,
                    },
                )
            } else {
                Ok(
                    MetadataPlan {
                        answer: MetadataAnswer::Outcome(UpsertOutcome::Updated),
                        statement: Some(
                            MetadataStatement::Update {
                                record: meta.copy(),
                                duration,
                                now: stamp.now.clone(),
                                device,
                                hlc: stamp.hlc,
                            },
                        ),
                    },
                )
            }
        },
    }
}

/// Plans a change of the thumbnail columns of a live row.
pub fn update_thumbnail_impl(
    hash: &BlakeHash,
    path: &Option<String>,
    status: &String,
    device: DeviceId,
    stamp: &Stamp,
) -> (r: MetadataPlan)
    ensures
        r.answer == MetadataAnswer::Rows,
        r.statement == Some(
            MetadataStatement::SetThumbnail {
                path: *path,
                status: *status,
                now: stamp.now,
                device,
                hlc: stamp.hlc,
                hash: *hash,
            },
        ),
{
    MetadataPlan {
        answer: MetadataAnswer::Rows,
        statement: Some(
            MetadataStatement::SetThumbnail {
                path: copy_text_opt(path),
                status: status.clone(),
                now: stamp.now.clone(),
                device,
                hlc: stamp.hlc,
                hash: *hash,
            },
        ),
    }
}

impl MetadataWriteCmd {
    /// What the command looks up before it writes: the live row of the file, for
    /// an upsert. An upsert that cannot be stored is refused before it looks.
    pub fn lookup(&self) -> (r: Result<Option<SqlCall>, CoreError>)
        ensures
            match self.oversized() {
                None => match *self {
                    MetadataWriteCmd::UpsertMetadata { record, .. } => r matches Ok(Some(call))
                        && call.is(Lookup::MetadataOwner.sql(), seq![Bound::Text(record.hash.hex())]),
                    MetadataWriteCmd::UpdateThumbnail { .. } => r matches Ok(call)
                        && call is None,
                },
                Some(raw) => r matches Err(e) && e.is_internal(
                    "duration_ms "@ + dec_nat(raw as nat) + " overflows SQLite INTEGER (i64)"@,
                ),
            },
    {
        match self {
            MetadataWriteCmd::UpsertMetadata { record, .. } => match u64_opt_to_i64(
                record.duration_ms,
            ) {
                Ok(_) => {
                    let params: Vec<SqlValue> = vec![hash_value(&record.hash)];
                    Ok(Some(Lookup::MetadataOwner.shape().call(params)))
                },
                Err(e) => Err(e),
            },
            MetadataWriteCmd::UpdateThumbnail { .. } => Ok(None),
        }
    }

    /// Whether `plan` is the plan of the command when its lookup found `found`.
    pub open spec fn planned(
        self,
        stamp: Stamp,
        found: Option<ExistingMetadata>,
        plan: MetadataPlan,
    ) -> bool {
        match self {
            MetadataWriteCmd::UpsertMetadata { record, device } => {
                &&& plan.answer == MetadataAnswer::Outcome(
                    upsert_metadata_outcome(record, device, found),
                )
                &&& plan.statement == upsert_metadata_statement(record, device, stamp, found)
            },
            MetadataWriteCmd::UpdateThumbnail { hash, path, status, device } => {
                &&& plan.answer == MetadataAnswer::Rows
                &&& plan.statement == Some(
                    MetadataStatement::SetThumbnail {
                        path,
                        status,
                        now: stamp.now,
                        device,
                        hlc: stamp.hlc,
                        hash,
                    },
                )
            },
        }
    }

    /// The duration that the command cannot store, if there is one.
    pub open spec fn oversized(self) -> Option<u64> {
        match self {
            MetadataWriteCmd::UpsertMetadata { record, .. } => if duration_fits(
                record.duration_ms,
            ) {
                None
            } else {
                record.duration_ms
            },
            MetadataWriteCmd::UpdateThumbnail { .. } => None,
        }
    }

    /// Plans the command, from what its lookup found. Fails only where a duration
    /// is too long to be stored.
    pub fn plan(&self, stamp: &Stamp, found: &Option<ExistingMetadata>) -> (r: Result<
        MetadataPlan,
        CoreError,
    >)
        ensures
            match self.oversized() {
                None => r matches Ok(plan) && self.planned(*stamp, *found, plan),
                Some(raw) => r matches Err(e) && e.is_internal(
                    "duration_ms "@ + dec_nat(raw as nat) + " overflows SQLite INTEGER (i64)"@,
                ),
            },
    {
        match self {
            MetadataWriteCmd::UpsertMetadata { record, device } => upsert_metadata_impl(
                record,
                *device,
                stamp,
                found,
            ),
            MetadataWriteCmd::UpdateThumbnail { hash, path, status, device } => Ok(
                update_thumbnail_impl(hash, path, status, *device, stamp),
            ),
        }
    }

    /// The reply to a command that failed.
    pub fn refuse(&self, error: CoreError) -> (r: MetadataReply)
        ensures
            r == match *self {
                MetadataWriteCmd::UpsertMetadata { .. } => MetadataReply::Outcome(Err(error)),
                MetadataWriteCmd::UpdateThumbnail { .. } => MetadataReply::Rows(Err(error)),
            },
    {
        match self {
            MetadataWriteCmd::UpsertMetadata { .. } => MetadataReply::Outcome(Err(error)),
            MetadataWriteCmd::UpdateThumbnail { .. } => MetadataReply::Rows(Err(error)),
        }
    }
}

impl MetadataPlan {
    /// The reply to the command, from the rows that its statement changed.
    pub fn reply(&self, rows: u64) -> (r: MetadataReply)
        ensures
            r == match self.answer {
                MetadataAnswer::Outcome(outcome) => MetadataReply::Outcome(Ok(outcome)),
                MetadataAnswer::Rows => MetadataReply::Rows(Ok(rows)),
            },
    {
        match self.answer {
            MetadataAnswer::Outcome(outcome) => MetadataReply::Outcome(Ok(outcome)),
            MetadataAnswer::Rows => MetadataReply::Rows(Ok(rows)),
        }
    }
}

impl MetadataReply {
    /// The event of the command: one where something was written, none where
    /// nothing was or the command failed.
    pub fn event(&self) -> (r: Option<AppEvent>)
        ensures
            match r {
                Some(event) => self.changed() && event == (AppEvent::IndexInvalidated {
                    reason: InvalidationReason::MetadataChanged,
                }),
                None => !self.changed(),
            },
    {
        let changed = match self {
            MetadataReply::Outcome(Ok(outcome)) => match outcome {
                UpsertOutcome::Unchanged => false,
                _ => true,
            },
            MetadataReply::Rows(Ok(rows)) => *rows > 0,
            _ => false,
        };
        if changed {
            Some(AppEvent::IndexInvalidated { reason: InvalidationReason::MetadataChanged })
        } else {
            None
        }
    }
}

impl MetadataWriteCmd {
    /// Whether the command goes on so when its lookup found `found`: with its plan,
    /// or with an error where a duration is too long to be stored.
    pub open spec fn plans(
        self,
        stamp: Stamp,
        found: Option<ExistingMetadata>,
        d: Decision<OnlyLookup, MetadataPlan>,
    ) -> bool {
        match self.oversized() {
            None => d matches Decision::Write(plan) && self.planned(stamp, found, plan),
            Some(raw) => d matches Decision::Refuse(e) && e.is_internal(
                "duration_ms "@ + dec_nat(raw as nat) + " overflows SQLite INTEGER (i64)"@,
            ),
        }
    }
}

impl Command for MetadataWriteCmd {
    type Arm = OnlyLookup;

    type Found = Option<ExistingMetadata>;

    type Plan = MetadataPlan;

    type Reply = MetadataReply;

    open spec fn opens(self) -> bool {
        true
    }

    open spec fn settles(self, reply: MetadataReply) -> bool {
        false
    }

    open spec fn asks(self, arm: OnlyLookup) -> bool {
        self is UpsertMetadata
    }

    open spec fn begins(self, stamp: Stamp, d: Decision<OnlyLookup, MetadataPlan>) -> bool {
        match self {
            MetadataWriteCmd::UpsertMetadata { record, .. } if self.oversized() is None =>
                d matches Decision::Look { arm, call } && call.is(
                Lookup::MetadataOwner.sql(),
                seq![Bound::Text(record.hash.hex())],
            ),
            _ => self.plans(stamp, None, d),
        }
    }

    open spec fn goes_on(
        self,
        stamp: Stamp,
        arm: OnlyLookup,
        found: Option<ExistingMetadata>,
        d: Decision<OnlyLookup, MetadataPlan>,
    ) -> bool {
        self.plans(stamp, found, d)
    }

    open spec fn script(self, stamp: Stamp, plan: MetadataPlan) -> Seq<(Seq<char>, Seq<Bound>)> {
        match plan.statement {
            Some(s) => seq![(s.sql(), s.bound())],
            None => seq![],
        }
    }

    open spec fn answers(self, plan: MetadataPlan, counts: Seq<u64>, reply: MetadataReply) -> bool {
        match plan.answer {
            MetadataAnswer::Outcome(outcome) => reply == MetadataReply::Outcome(Ok(outcome)),
            MetadataAnswer::Rows => reply matches MetadataReply::Rows(Ok(rows)) && rows == total(
                counts,
            ),
        }
    }

    open spec fn refuses(self, error: CoreError, reply: MetadataReply) -> bool {
        reply == match self {
            MetadataWriteCmd::UpsertMetadata { .. } => MetadataReply::Outcome(Err(error)),
            MetadataWriteCmd::UpdateThumbnail { .. } => MetadataReply::Rows(Err(error)),
        }
    }

    open spec fn is_success(reply: MetadataReply) -> bool {
        match reply {
            MetadataReply::Outcome(r) => r is Ok,
            MetadataReply::Rows(r) => r is Ok,
        }
    }

    open spec fn told_before(self, reply: MetadataReply) -> Seq<AppEvent> {
        if reply.changed() {
            seq![AppEvent::IndexInvalidated { reason: InvalidationReason::MetadataChanged }]
        } else {
            seq![]
        }
    }

    open spec fn told_after(self, reply: MetadataReply) -> Seq<AppEvent> {
        seq![]
    }

    proof fn lemma_answers_succeed(
        self,
        plan: MetadataPlan,
        counts: Seq<u64>,
        reply: MetadataReply,
    ) {
    }

    proof fn lemma_refuses_fail(self, error: CoreError, reply: MetadataReply) {
    }

    fn settle(&self) -> (r: Option<MetadataReply>) {
        None
    }

    fn begin(&self, stamp: &Stamp) -> (d: Decision<OnlyLookup, MetadataPlan>) {
        match self.lookup() {
            Err(e) => Decision::Refuse(e),
            Ok(Some(call)) => Decision::Look { arm: OnlyLookup, call },
            Ok(None) => match self.plan(stamp, &None) {
                Ok(plan) => Decision::Write(plan),
                Err(e) => Decision::Refuse(e),
            },
        }
    }

    fn go_on(&self, stamp: &Stamp, arm: OnlyLookup, found: Option<ExistingMetadata>) -> (d: Decision<
        OnlyLookup,
        MetadataPlan,
    >) {
        match self.plan(stamp, &found) {
            Ok(plan) => Decision::Write(plan),
            Err(e) => Decision::Refuse(e),
        }
    }

    fn statement(&self, stamp: &Stamp, plan: &MetadataPlan, done: usize) -> (r: Option<SqlCall>) {
        match &plan.statement {
            Some(s) if done == 0 => Some(s.call()),
            _ => None,
        }
    }

    fn answer(&self, plan: MetadataPlan, counts: &Vec<u64>) -> (r: MetadataReply) {
        plan.reply(sum_counts(counts))
    }

    fn refuse_with(&self, error: CoreError) -> (r: MetadataReply) {
        self.refuse(error)
    }

    fn notices(&self, reply: &MetadataReply) -> (r: (Vec<AppEvent>, Vec<AppEvent>)) {
        let mut before: Vec<AppEvent> = Vec::new();
        if let Some(event) = reply.event() {
            before.push(event);
        }
        (before, Vec::new())
    }
}

} // verus!
