//! The command that stores a transcript.
use vstd::prelude::*;
use vstd::string::*;

use crate::db::shape::{assign, put, Form, Shape, Verb};
use crate::db::sql::{
    bound_text_opt, text_opt_value, text_value, Bound, SqlCall, SqlValue, Stamp,
};
use crate::db::transcript_repo::{TranscriptId, TranscriptRow, TranscriptSegmentRow};
use crate::db::writer::job::{Command, Decision, OnlyLookup};
use crate::errors::CoreError;
use crate::events::{AppEvent, InvalidationReason};
use crate::text::{copy_text_opt, text_opt};

verus! {

/// Store a transcript with its segments.
#[derive(Clone, Debug)]
pub struct TranscriptInsert {
    pub transcript: TranscriptRow,
    pub segments: Vec<TranscriptSegmentRow>,
    /// The device that stores it.
    pub device: String,
    /// The request that the transcript answers.
    pub request_uuid: String,
}

/// A statement that stores a part of a transcript.
#[derive(Clone, Debug)]
pub enum TranscriptStatement {
    Header {
        id: String,
        file_uuid: String,
        backend: String,
        language: Option<String>,
        duration_ms: u32,
        now: String,
        device: String,
        hlc: i64,
    },
    Segment {
        id: String,
        transcript: String,
        start_ms: u32,
        end_ms: u32,
        text: String,
        confidence_bits: Option<u32>,
        now: String,
        device: String,
        hlc: i64,
    },
}

/// An optional confidence as a bound value.
pub open spec fn bound_confidence(bits: Option<u32>) -> Bound {
    match bits {
        Some(b) => Bound::Real(b),
        None => Bound::Null,
    }
}

fn confidence_value(bits: Option<u32>) -> (r: SqlValue)
    ensures
        r@ == bound_confidence(bits),
{
    match bits {
        Some(b) => SqlValue::Real(b),
        None => SqlValue::Null,
    }
}

impl TranscriptStatement {
    /// The parts of the statement.
    pub open spec fn form(self) -> Form {
        match self {
            TranscriptStatement::Header { .. } => Form {
                verb: Verb::Insert,
                table: "transcript"@,
                columns: seq![
                    put("id", 1),
                    put("file_uuid", 2),
                    put("backend", 3),
                    put("language", 4),
                    put("duration_ms", 5),
                    put("completed_at", 6),
                    put("created_at", 6),
                    put("updated_at", 6),
                    put("device_id", 7),
                    put("hlc", 8),
                ],
                tests: seq![],
            },
            TranscriptStatement::Segment { .. } => Form {
                verb: Verb::Insert,
                table: "transcript_segment"@,
                columns: seq![
                    put("id", 1),
                    put("transcript_id", 2),
                    put("start_ms", 3),
                    put("end_ms", 4),
                    put("text", 5),
                    put("confidence", 6),
                    put("created_at", 7),
                    put("updated_at", 7),
                    put("device_id", 8),
                    put("hlc", 9),
                ],
                tests: seq![],
            },
        }
    }

    /// The parts of the statement.
    pub fn shape(&self) -> (r: Shape)
        ensures
            r@ == self.form(),
    {
        let r = match self {
            TranscriptStatement::Header { .. } => Shape {
                verb: Verb::Insert,
                table: "transcript",
                columns: vec![
                    assign("id", 1),
                    assign("file_uuid", 2),
                    assign("backend", 3),
                    assign("language", 4),
                    assign("duration_ms", 5),
                    assign("completed_at", 6),
                    assign("created_at", 6),
                    assign("updated_at", 6),
                    assign("device_id", 7),
                    assign("hlc", 8),
                ],
                tests: Vec::new(),
            },
            TranscriptStatement::Segment { .. } => Shape {
                verb: Verb::Insert,
                table: "transcript_segment",
                columns: vec![
                    assign("id", 1),
                    assign("transcript_id", 2),
                    assign("start_ms", 3),
                    assign("end_ms", 4),
                    assign("text", 5),
                    assign("confidence", 6),
                    assign("created_at", 7),
                    assign("updated_at", 7),
                    assign("device_id", 8),
                    assign("hlc", 9),
                ],
                tests: Vec::new(),
            },
        };
        assert(r.columns@ =~= self.form().columns);
        assert(r.tests@ =~= self.form().tests);
        r
    }
}

impl TranscriptStatement {
    /// The text of the statement.
    pub open spec fn sql(self) -> Seq<char> {
        self.form().text()
    }

    /// The values bound to the statement.
    pub open spec fn bound(self) -> Seq<Bound> {
        match self {
            TranscriptStatement::Header {
                id,
                file_uuid,
                backend,
                language,
                duration_ms,
                now,
                device,
                hlc,
            } => seq![
                Bound::Text(id@),
                Bound::Text(file_uuid@),
                Bound::Text(backend@),
                bound_text_opt(text_opt(language)),
                Bound::Int(duration_ms as int),
                Bound::Text(now@),
                Bound::Text(device@),
                Bound::Int(hlc as int),
            ],
            TranscriptStatement::Segment {
                id,
                transcript,
                start_ms,
                end_ms,
                text,
                confidence_bits,
                now,
                device,
                hlc,
            } => seq![
                Bound::Text(id@),
                Bound::Text(transcript@),
                Bound::Int(start_ms as int),
                Bound::Int(end_ms as int),
                Bound::Text(text@),
                bound_confidence(confidence_bits),
                Bound::Text(now@),
                Bound::Text(device@),
                Bound::Int(hlc as int),
            ],
        }
    }

    /// The statement as the database takes it.
    pub fn call(&self) -> (r: SqlCall)
        ensures
            r.is(self.sql(), self.bound()),
    {
        match self {
            TranscriptStatement::Header {
                id,
                file_uuid,
                backend,
                language,
                duration_ms,
                now,
                device,
                hlc,
            } => {
                let params: Vec<SqlValue> = vec![
                    text_value(id.as_str()),
                    text_value(file_uuid.as_str()),
                    text_value(backend.as_str()),
                    text_opt_value(language),
                    SqlValue::Int(*duration_ms as i64),
                    text_value(now.as_str()),
                    text_value(device.as_str()),
                    SqlValue::Int(*hlc),
                ];
                self.shape().call(params)
            },
            TranscriptStatement::Segment {
                id,
                transcript,
                start_ms,
                end_ms,
                text,
                confidence_bits,
                now,
                device,
                hlc,
            } => {
                let params: Vec<SqlValue> = vec![
                    text_value(id.as_str()),
                    text_value(transcript.as_str()),
                    SqlValue::Int(*start_ms as i64),
                    SqlValue::Int(*end_ms as i64),
                    text_value(text.as_str()),
                    confidence_value(*confidence_bits),
                    text_value(now.as_str()),
                    text_value(device.as_str()),
                    SqlValue::Int(*hlc),
                ];
                self.shape().call(params)
            },
        }
    }
}

impl TranscriptInsert {
    /// The statements that store the transcript: the transcript first, then its
    /// segments in order. Every row carries the stamp of the command, and every
    /// segment belongs to the transcript that it is stored with.
    pub open spec fn statements(self, stamp: Stamp) -> Seq<TranscriptStatement> {
        seq![
            TranscriptStatement::Header {
                id: self.transcript.id.0,
                file_uuid: self.transcript.file_uuid,
                backend: self.transcript.backend,
                language: self.transcript.language,
                duration_ms: self.transcript.duration_ms,
                now: stamp.now,
                device: self.device,
                hlc: stamp.hlc,
            },
        ] + self.segments@.map_values(
            |s: TranscriptSegmentRow|
                TranscriptStatement::Segment {
                    id: s.id.0,
                    transcript: self.transcript.id.0,
                    start_ms: s.start_ms,
                    end_ms: s.end_ms,
                    text: s.text,
                    confidence_bits: s.confidence_bits,
                    now: stamp.now,
                    device: self.device,
                    hlc: stamp.hlc,
                },
        )
    }

    /// The statement that comes after `done` others.
    pub fn insert_impl(&self, stamp: &Stamp, done: usize) -> (r: Option<TranscriptStatement>)
        ensures
            r == if done < self.statements(*stamp).len() {
                Some(self.statements(*stamp)[done as int])
            } else {
                None
            },
    {
        if done > self.segments.len() {
            return None;
        }
        if done == 0 {
            let t = &self.transcript;
            Some(
                TranscriptStatement::Header {
                    id: t.id.0.clone(),
                    file_uuid: t.file_uuid.clone(),
                    backend: t.backend.clone(),
                    language: copy_text_opt(&t.language),
                    duration_ms: t.duration_ms,
                    now: stamp.now.clone(),
                    device: self.device.clone(),
                    hlc: stamp.hlc,
                },
            )
        } else {
            let s = &self.segments[done - 1];
            Some(
                TranscriptStatement::Segment {
                    id: s.id.0.clone(),
                    transcript: self.transcript.id.0.clone(),
                    start_ms: s.start_ms,
                    end_ms: s.end_ms,
                    text: s.text.clone(),
                    confidence_bits: s.confidence_bits,
                    now: stamp.now.clone(),
                    device: self.device.clone(),
                    hlc: stamp.hlc,
                },
            )
        }
    }

    /// The number of segments that listeners are told; what exceeds 32 bits is
    /// told as the largest number.
    pub open spec fn told_segments(self) -> u32 {
        if self.segments@.len() <= u32::MAX {
            self.segments@.len() as u32
        } else {
            u32::MAX
        }
    }

    /// What listeners are told once the transcript is stored.
    pub open spec fn completion(self) -> Seq<AppEvent> {
        seq![
            AppEvent::TranscriptionCompleted {
                request_uuid: self.request_uuid,
                transcript_id: self.transcript.id.0,
                file_uuid: self.transcript.file_uuid,
                segment_count: self.told_segments(),
                language: self.transcript.language,
            },
            AppEvent::IndexInvalidated { reason: InvalidationReason::SearchIndexRebuilt },
        ]
    }

    /// What listeners are told once the transcript is stored.
    pub fn completed(&self) -> (r: Vec<AppEvent>)
        ensures
            r@ == self.completion(),
    {
        let count: usize = self.segments.len();
        let segment_count: u32 = if count as u64 <= 0xffff_ffff {
            count as u32
        } else {
            u32::MAX
        };
        vec![
            AppEvent::TranscriptionCompleted {
                request_uuid: self.request_uuid.clone(),
                transcript_id: self.transcript.id.0.clone(),
                file_uuid: self.transcript.file_uuid.clone(),
                segment_count,
                language: copy_text_opt(&self.transcript.language),
            },
            AppEvent::IndexInvalidated { reason: InvalidationReason::SearchIndexRebuilt },
        ]
    }
}

/// The reply where the writer is gone.
pub fn writer_disconnected() -> (r: CoreError)
    ensures
        r.is_internal("transcript writer disconnected"@),
{
    CoreError::Internal("transcript writer disconnected".to_owned())
}

/// The reply where the writer went before it answered.
pub fn writer_reply_lost() -> (r: CoreError)
    ensures
        r.is_internal("transcript writer reply lost"@),
{
    CoreError::Internal("transcript writer reply lost".to_owned())
}

impl Command for TranscriptInsert {
    type Arm = OnlyLookup;

    type Found = ();

    type Plan = ();

    type Reply = Result<TranscriptId, CoreError>;

    open spec fn opens(self) -> bool {
        true
    }

    open spec fn settles(self, reply: Result<TranscriptId, CoreError>) -> bool {
        false
    }

    open spec fn asks(self, arm: OnlyLookup) -> bool {
        true
    }

    open spec fn begins(self, stamp: Stamp, d: Decision<OnlyLookup, ()>) -> bool {
        d is Write
    }

    open spec fn goes_on(
        self,
        stamp: Stamp,
        arm: OnlyLookup,
        found: (),
        d: Decision<OnlyLookup, ()>,
    ) -> bool {
        d is Write
    }

    open spec fn script(self, stamp: Stamp, plan: ()) -> Seq<(Seq<char>, Seq<Bound>)> {
        self.statements(stamp).map_values(|s: TranscriptStatement| (s.sql(), s.bound()))
    }

    open spec fn answers(
        self,
        plan: (),
        counts: Seq<u64>,
        reply: Result<TranscriptId, CoreError>,
    ) -> bool {
        reply == Ok::<TranscriptId, CoreError>(self.transcript.id)
    }

    open spec fn refuses(self, error: CoreError, reply: Result<TranscriptId, CoreError>) -> bool {
        reply == Err::<TranscriptId, CoreError>(error)
    }

    open spec fn is_success(reply: Result<TranscriptId, CoreError>) -> bool {
        reply is Ok
    }

    open spec fn told_before(self, reply: Result<TranscriptId, CoreError>) -> Seq<AppEvent> {
        seq![]
    }

    open spec fn told_after(self, reply: Result<TranscriptId, CoreError>) -> Seq<AppEvent> {
        if reply is Ok {
            self.completion()
        } else {
            seq![]
        }
    }

    proof fn lemma_answers_succeed(
        self,
        plan: (),
        counts: Seq<u64>,
        reply: Result<TranscriptId, CoreError>,
    ) {
    }

    proof fn lemma_refuses_fail(self, error: CoreError, reply: Result<TranscriptId, CoreError>) {
    }

    fn settle(&self) -> (r: Option<Result<TranscriptId, CoreError>>) {
        None
    }

    fn begin(&self, stamp: &Stamp) -> (d: Decision<OnlyLookup, ()>) {
        Decision::Write(())
    }

    fn go_on(&self, stamp: &Stamp, arm: OnlyLookup, found: ()) -> (d: Decision<OnlyLookup, ()>) {
        Decision::Write(())
    }

    fn statement(&self, stamp: &Stamp, plan: &(), done: usize) -> (r: Option<SqlCall>) {
        match self.insert_impl(stamp, done) {
            Some(s) => Some(s.call()),
            None => None,
        }
    }

    fn answer(&self, plan: (), counts: &Vec<u64>) -> (r: Result<TranscriptId, CoreError>) {
        Ok(self.transcript.id.copy())
    }

    fn refuse_with(&self, error: CoreError) -> (r: Result<TranscriptId, CoreError>) {
        Err(error)
    }

    fn notices(&self, reply: &Result<TranscriptId, CoreError>) -> (r: (
        Vec<AppEvent>,
        Vec<AppEvent>,
    )) {
        match reply {
            Ok(_) => (Vec::new(), self.completed()),
            Err(_) => (Vec::new(), Vec::new()),
        }
    }
}

} // verus!
