//! Commands that write tags and what they are attached to.
use vstd::prelude::*;
use vstd::string::*;

use crate::db::convert::{parse_uuid_column, stored_uuid, uuid_fault};
use crate::db::lookups::Lookup;
use crate::db::shape::{assign, put, Form, Shape, Test, Verb};
use crate::db::sql::{
    sum_counts, text_value, total, uuid_value, Bound, SqlCall, SqlValue, Stamp,
};
use crate::db::writer::file::hash_value;
use crate::db::writer::job::{Command, Decision};
use crate::errors::CoreError;
use crate::events::AppEvent;
use crate::ids::Uuid;
use crate::tag::Tag;
use crate::types::{BlakeHash, DeviceId};

verus! {

/// A command that writes tags.
#[derive(Clone, Debug)]
pub enum TagWriteCmd {
    /// Find the live tag of this name, or make it. The name is in normal form.
    UpsertTag { name: String, device: DeviceId },
    /// Retire a tag.
    DeleteTag { tag_id: Uuid, device: DeviceId },
    /// Attach a tag to a file.
    Attach { hash: BlakeHash, tag_id: Uuid, device: DeviceId },
    /// Detach a tag from a file.
    Detach { hash: BlakeHash, tag_id: Uuid, device: DeviceId },
}

/// A statement that changes `tags` or `file_tags`.
#[derive(Clone, Debug)]
pub enum TagStatement {
    InsertTag { id: Uuid, name: String, now: String, device: DeviceId, hlc: i64 },
    RetireTag { now: String, device: DeviceId, hlc: i64, tag_id: Uuid },
    InsertLink {
        id: Uuid,
        hash: BlakeHash,
        tag_id: Uuid,
        now: String,
        device: DeviceId,
        hlc: i64,
    },
    RetireLink { now: String, device: DeviceId, hlc: i64, hash: BlakeHash, tag_id: Uuid },
}

impl TagStatement {
    /// The parts of the statement.
    pub open spec fn form(self) -> Form {
        match self {
            TagStatement::InsertTag { .. } => Form {
                verb: Verb::Insert,
                table: "tags"@,
                columns: seq![
                    put("id", 1),
                    put("name", 2),
                    put("first_seen", 3),
                    put("updated_at", 3),
                    put("device_id", 4),
                    put("hlc", 5),
                ],
                tests: seq![],
            },
            TagStatement::RetireTag { .. } => Form {
                verb: Verb::Update,
                table: "tags"@,
                columns: seq![
                    put("deleted_at", 1),
                    put("updated_at", 1),
                    put("device_id", 2),
                    put("hlc", 3),
                ],
                tests: seq![
                    Test::Equals("id", 4),
                    Test::Absent("deleted_at"),
                ],
            },
            TagStatement::InsertLink { .. } => Form {
                verb: Verb::Insert,
                table: "file_tags"@,
                columns: seq![
                    put("id", 1),
                    put("blake3_hash", 2),
                    put("tag_id", 3),
                    put("first_seen", 4),
                    put("updated_at", 4),
                    put("device_id", 5),
                    put("hlc", 6),
                ],
                tests: seq![],
            },
            TagStatement::RetireLink { .. } => Form {
                verb: Verb::Update,
                table: "file_tags"@,
                columns: seq![
                    put("deleted_at", 1),
                    put("updated_at", 1),
                    put("device_id", 2),
                    put("hlc", 3),
                ],
                tests: seq![
                    Test::Equals("blake3_hash", 4),
                    Test::Equals("tag_id", 5),
                    Test::Absent("deleted_at"),
                ],
            },
        }
    }

    /// The parts of the statement.
    pub fn shape(&self) -> (r: Shape)
        ensures
            r@ == self.form(),
    {
        let r = match self {
            TagStatement::InsertTag { .. } => Shape {
                verb: Verb::Insert,
                table: "tags",
                columns: vec![
                    assign("id", 1),
                    assign("name", 2),
                    assign("first_seen", 3),
                    assign("updated_at", 3),
                    assign("device_id", 4),
                    assign("hlc", 5),
                ],
                tests: Vec::new(),
            },
            TagStatement::RetireTag { .. } => Shape {
                verb: Verb::Update,
                table: "tags",
                columns: vec![
                    assign("deleted_at", 1),
                    assign("updated_at", 1),
                    assign("device_id", 2),
                    assign("hlc", 3),
                ],
                tests: vec![
                    Test::Equals("id", 4),
                    Test::Absent("deleted_at"),
                ],
            },
            TagStatement::InsertLink { .. } => Shape {
                verb: Verb::Insert,
                table: "file_tags",
                columns: vec![
                    assign("id", 1),
                    assign("blake3_hash", 2),
                    assign("tag_id", 3),
                    assign("first_seen", 4),
                    assign("updated_at", 4),
                    assign("device_id", 5),
                    assign("hlc", 6),
                ],
                tests: Vec::new(),
            },
            TagStatement::RetireLink { .. } => Shape {
                verb: Verb::Update,
                table: "file_tags",
                columns: vec![
                    assign("deleted_at", 1),
                    assign("updated_at", 1),
                    assign("device_id", 2),
                    assign("hlc", 3),
                ],
                tests: vec![
                    Test::Equals("blake3_hash", 4),
                    Test::Equals("tag_id", 5),
                    Test::Absent("deleted_at"),
                ],
            },
        };
        assert(r.columns@ =~= self.form().columns);
        assert(r.tests@ =~= self.form().tests);
        r
    }
}

impl TagStatement {
    /// The text of the statement.
    pub open spec fn sql(self) -> Seq<char> {
        self.form().text()
    }

    /// The values bound to the statement.
    pub open spec fn bound(self) -> Seq<Bound> {
        match self {
            TagStatement::InsertTag { id, name, now, device, hlc } => seq![
                Bound::Text(id.text()),
                Bound::Text(name@),
                Bound::Text(now@),
                Bound::Text(device.0.text()),
                Bound::Int(hlc as int),
            ],
            TagStatement::RetireTag { now, device, hlc, tag_id } => seq![
                Bound::Text(now@),
                Bound::Text(device.0.text()),
                Bound::Int(hlc as int),
                Bound::Text(tag_id.text()),
            ],
            TagStatement::InsertLink { id, hash, tag_id, now, device, hlc } => seq![
                Bound::Text(id.text()),
                Bound::Text(hash.hex()),
                Bound::Text(tag_id.text()),
                Bound::Text(now@),
                Bound::Text(device.0.text()),
                Bound::Int(hlc as int),
            ],
            TagStatement::RetireLink { now, device, hlc, hash, tag_id } => seq![
                Bound::Text(now@),
                Bound::Text(device.0.text()),
                Bound::Int(hlc as int),
                Bound::Text(hash.hex()),
                Bound::Text(tag_id.text()),
            ],
        }
    }

    /// The statement as the database takes it.
    pub fn call(&self) -> (r: SqlCall)
        ensures
            r.is(self.sql(), self.bound()),
    {
        match self {
            TagStatement::InsertTag { id, name, now, device, hlc } => {
                let params: Vec<SqlValue> = vec![
                    uuid_value(*id),
                    text_value(name.as_str()),
                    text_value(now.as_str()),
                    uuid_value(device.0),
                    SqlValue::Int(*hlc),
                ];
                self.shape().call(params)
            },
            TagStatement::RetireTag { now, device, hlc, tag_id } => {
                let params: Vec<SqlValue> = vec![
                    text_value(now.as_str()),
                    uuid_value(device.0),
                    SqlValue::Int(*hlc),
                    uuid_value(*tag_id),
                ];
                self.shape().call(params)
            },
            TagStatement::InsertLink { id, hash, tag_id, now, device, hlc } => {
                let params: Vec<SqlValue> = vec![
                    uuid_value(*id),
                    hash_value(hash),
                    uuid_value(*tag_id),
                    text_value(now.as_str()),
                    uuid_value(device.0),
                    SqlValue::Int(*hlc),
                ];
                self.shape().call(params)
            },
            TagStatement::RetireLink { now, device, hlc, hash, tag_id } => {
                let params: Vec<SqlValue> = vec![
                    text_value(now.as_str()),
                    uuid_value(device.0),
                    SqlValue::Int(*hlc),
                    hash_value(hash),
                    uuid_value(*tag_id),
                ];
                self.shape().call(params)
            },
        }
    }
}

/// The live row of a tag.
#[derive(Clone, Debug)]
pub struct ExistingTag {
    pub id: String,
    pub first_seen: String,
}

/// What the lookup of a command found.
#[derive(Clone, Debug)]
pub struct TagFound {
    /// The live tag of the name, for `UpsertTag`.
    pub tag: Option<ExistingTag>,
    /// The identifier of the live attachment, for `Attach`.
    pub link: Option<String>,
}

/// How a command is answered once its statement has run.
#[derive(Clone, Debug)]
pub enum TagAnswer {
    /// With this tag.
    Tag(Tag),
    /// With the number of rows changed.
    Rows,
}

/// The statement of a command, if it has one, and how it is answered.
#[derive(Clone, Debug)]
pub struct TagPlan {
    pub answer: TagAnswer,
    pub statement: Option<TagStatement>,
}

/// The reply to a command.
#[derive(Debug)]
pub enum TagReply {
    Tag(Result<Tag, CoreError>),
    Rows(Result<u64, CoreError>),
}

/// Plans an upsert of a tag, from the live tag of its name: a tag that is there is
/// the answer and nothing is written, else one is made. A stored identifier that
/// is no UUID is an error.
pub fn upsert_tag_impl(
    name: &String,
    device: DeviceId,
    stamp: &Stamp,
    existing: &Option<ExistingTag>,
) -> (r: Result<TagPlan, CoreError>)
    ensures
        match *existing {
            Some(row) => match uuid_fault(row.id@, "invalid uuid in db: "@) {
                None => r matches Ok(plan) && plan.statement is None && plan.answer
                    == TagAnswer::Tag(
                    Tag { id: stored_uuid(row.id@), name: *name, first_seen: row.first_seen },
                ),
                Some(f) => r matches Err(e) && f.reported_by(e),
            },
            None => r matches Ok(plan) && plan.statement == Some(
                TagStatement::InsertTag {
                    id: stamp.fresh,
                    name: *name,
                    now: stamp.now,
                    device,
                    hlc: stamp.hlc,
                },
            ) && plan.answer == TagAnswer::Tag(
                Tag { id: stamp.fresh, name: *name, first_seen: stamp.now },
            ),
        },
{
    match existing {
        Some(row) => match parse_uuid_column(row.id.as_str(), "invalid uuid in db: ") {
            Ok(id) => Ok(
                TagPlan {
                    answer: TagAnswer::Tag(
                        Tag { id, name: name.clone(), first_seen: row.first_seen.clone() },
                    ),
                    statement: None,
                },
            ),
            Err(e) => Err(e),
        },
        None => Ok(
            TagPlan {
                answer: TagAnswer::Tag(
                    Tag { id: stamp.fresh, name: name.clone(), first_seen: stamp.now.clone() },
                ),
                statement: Some(
                    TagStatement::InsertTag {
                        id: stamp.fresh,
                        name: name.clone(),
                        now: stamp.now.clone(),
                        device,
                        hlc: stamp.hlc,
                    },
                ),
            },
        ),
    }
}

/// Plans the retirement of a tag.
pub fn delete_tag_impl(tag_id: Uuid, device: DeviceId, stamp: &Stamp) -> (r: TagPlan)
    ensures
        r == (TagPlan {
            answer: TagAnswer::Rows,
            statement: Some(
                TagStatement::RetireTag { now: stamp.now, device, hlc: stamp.hlc, tag_id },
            ),
        }),
{
    TagPlan {
        answer: TagAnswer::Rows,
        statement: Some(
            TagStatement::RetireTag { now: stamp.now.clone(), device, hlc: stamp.hlc, tag_id },
        ),
    }
}

/// Plans an attachment, from the identifier of the live attachment: one that is
/// there stays as it is.
pub fn attach_impl(
    hash: &BlakeHash,
    tag_id: Uuid,
    device: DeviceId,
    stamp: &Stamp,
    existing: &Option<String>,
) -> (r: TagPlan)
    ensures
        r == (TagPlan {
            answer: TagAnswer::Rows,
            statement: if existing is Some {
                None
            } else {
                Some(
                    TagStatement::InsertLink {
                        id: stamp.fresh,
                        hash: *hash,
                        tag_id,
                        now: stamp.now,
                        device,
                        hlc: stamp.hlc,
                    },
                )
            },
        }),
{
    let statement = if existing.is_some() {
        None
    } else {
        Some(
            TagStatement::InsertLink {
                id: stamp.fresh,
                hash: *hash,
                tag_id,
                now: stamp.now.clone(),
                device,
                hlc: stamp.hlc,
            },
        )
    };
    TagPlan { answer: TagAnswer::Rows, statement }
}

/// Plans a detachment.
pub fn detach_impl(hash: &BlakeHash, tag_id: Uuid, device: DeviceId, stamp: &Stamp) -> (r: TagPlan)
    ensures
        r == (TagPlan {
            answer: TagAnswer::Rows,
            statement: Some(
                TagStatement::RetireLink {
                    now: stamp.now,
                    device,
                    hlc: stamp.hlc,
                    hash: *hash,
                    tag_id,
                },
            ),
        }),
{
    TagPlan {
        answer: TagAnswer::Rows,
        statement: Some(
            TagStatement::RetireLink {
                now: stamp.now.clone(),
                device,
                hlc: stamp.hlc,
                hash: *hash,
                tag_id,
            },
        ),
    }
}

/// What a command looks up before it writes, and where what was found goes.
#[derive(Clone, Copy, Debug, PartialEq, Eq, Structural)]
pub enum TagArm {
    /// The live tag of a name, into `TagFound::tag`.
    Tag,
    /// The identifier of a live attachment, into `TagFound::link`.
    Link,
}

impl TagWriteCmd {
    /// Whether this is what the command looks up before it writes.
    pub open spec fn looks_for(self, arm: TagArm, call: SqlCall) -> bool {
        match self {
            TagWriteCmd::UpsertTag { name, .. } => arm == TagArm::Tag && call.is(
                Lookup::Tag.sql(),
                seq![Bound::Text(name@)],
            ),
            TagWriteCmd::Attach { hash, tag_id, .. } => arm == TagArm::Link && call.is(
                Lookup::Link.sql(),
                seq![Bound::Text(hash.hex()), Bound::Text(tag_id.text())],
            ),
            _ => false,
        }
    }

    /// Whether the command looks anything up before it writes.
    pub open spec fn looks_up(self) -> bool {
        self is UpsertTag || self is Attach
    }

    /// What the command looks up before it writes.
    pub fn lookup(&self) -> (r: Option<(TagArm, SqlCall)>)
        ensures
            match r {
                Some(look) => self.looks_for(look.0, look.1),
                None => !self.looks_up(),
            },
    {
        match self {
            TagWriteCmd::UpsertTag { name, .. } => {
                let params: Vec<SqlValue> = vec![text_value(name.as_str())];
                Some((TagArm::Tag, Lookup::Tag.shape().call(params)))
            },
            TagWriteCmd::Attach { hash, tag_id, .. } => {
                let params: Vec<SqlValue> = vec![hash_value(hash), uuid_value(*tag_id)];
                Some((TagArm::Link, Lookup::Link.shape().call(params)))
            },
            _ => None,
        }
    }

    /// Whether the plan of the command, or its failure, is this when its lookup
    /// found `found`.
    pub open spec fn planned(
        self,
        stamp: Stamp,
        found: TagFound,
        r: Result<TagPlan, CoreError>,
    ) -> bool {
        match self {
            TagWriteCmd::UpsertTag { name, device } => match found.tag {
                Some(row) => match uuid_fault(row.id@, "invalid uuid in db: "@) {
                    None => r == Ok::<TagPlan, CoreError>(
                        TagPlan {
                            answer: TagAnswer::Tag(
                                Tag { id: stored_uuid(row.id@), name, first_seen: row.first_seen },
                            ),
                            statement: None,
                        },
                    ),
                    Some(f) => r matches Err(e) && f.reported_by(e),
                },
                None => r == Ok::<TagPlan, CoreError>(
                    TagPlan {
                        answer: TagAnswer::Tag(
                            Tag { id: stamp.fresh, name, first_seen: stamp.now },
                        ),
                        statement: Some(
                            TagStatement::InsertTag {
                                id: stamp.fresh,
                                name,
                                now: stamp.now,
                                device,
                                hlc: stamp.hlc,
                            },
                        ),
                    },
                ),
            },
            TagWriteCmd::DeleteTag { tag_id, device } => r == Ok::<TagPlan, CoreError>(
                TagPlan {
                    answer: TagAnswer::Rows,
                    statement: Some(
                        TagStatement::RetireTag { now: stamp.now, device, hlc: stamp.hlc, tag_id },
                    ),
                },
            ),
            TagWriteCmd::Attach { hash, tag_id, device } => r == Ok::<TagPlan, CoreError>(
                TagPlan {
                    answer: TagAnswer::Rows,
                    statement: if found.link is Some {
                        None
                    } else {
                        Some(
                            TagStatement::InsertLink {
                                id: stamp.fresh,
                                hash,
                                tag_id,
                                now: stamp.now,
                                device,
                                hlc: stamp.hlc,
                            },
                        )
                    },
                },
            ),
            TagWriteCmd::Detach { hash, tag_id, device } => r == Ok::<TagPlan, CoreError>(
                TagPlan {
                    answer: TagAnswer::Rows,
                    statement: Some(
                        TagStatement::RetireLink {
                            now: stamp.now,
                            device,
                            hlc: stamp.hlc,
                            hash,
                            tag_id,
                        },
                    ),
                },
            ),
        }
    }

    /// Plans the command, from what its lookup found.
    pub fn plan(&self, stamp: &Stamp, found: &TagFound) -> (r: Result<TagPlan, CoreError>)
        ensures
            self.planned(*stamp, *found, r),
    {
        match self {
            TagWriteCmd::UpsertTag { name, device } => upsert_tag_impl(
                name,
                *device,
                stamp,
                &found.tag,
            ),
            TagWriteCmd::DeleteTag { tag_id, device } => Ok(
                delete_tag_impl(*tag_id, *device, stamp),
            ),
            TagWriteCmd::Attach { hash, tag_id, device } => Ok(
                attach_impl(hash, *tag_id, *device, stamp, &found.link),
            ),
            TagWriteCmd::Detach { hash, tag_id, device } => Ok(
                detach_impl(hash, *tag_id, *device, stamp),
            ),
        }
    }

    /// The reply to a command that failed.
    pub fn refuse(&self, error: CoreError) -> (r: TagReply)
        ensures
            r == if *self is UpsertTag {
                TagReply::Tag(Err(error))
            } else {
                TagReply::Rows(Err(error))
            },
    {
        match self {
            TagWriteCmd::UpsertTag { .. } => TagReply::Tag(Err(error)),
            _ => TagReply::Rows(Err(error)),
        }
    }
}

impl TagPlan {
    /// The reply to the command, from the rows that its statement changed; a plan
    /// without a statement changed none.
    pub fn reply(self, rows: u64) -> (r: TagReply)
        ensures
            r == match self.answer {
                TagAnswer::Tag(tag) => TagReply::Tag(Ok(tag)),
                TagAnswer::Rows => TagReply::Rows(
                    Ok(
                        if self.statement is Some {
                            rows
                        } else {
                            0
                        },
                    ),
                ),
            },
    {
        match self.answer {
            TagAnswer::Tag(tag) => TagReply::Tag(Ok(tag)),
            TagAnswer::Rows => {
                let changed: u64 = if self.statement.is_some() {
                    rows
                } else {
                    0
                };
                TagReply::Rows(Ok(changed))
            },
        }
    }
}

impl Command for TagWriteCmd {
    type Arm = TagArm;

    type Found = TagFound;

    type Plan = TagPlan;

    type Reply = TagReply;

    open spec fn opens(self) -> bool {
        true
    }

    open spec fn settles(self, reply: TagReply) -> bool {
        false
    }

    open spec fn asks(self, arm: TagArm) -> bool {
        self.looks_up()
    }

    open spec fn begins(self, stamp: Stamp, d: Decision<TagArm, TagPlan>) -> bool {
        if self.looks_up() {
            d matches Decision::Look { arm, call } && self.looks_for(arm, call)
        } else {
            d matches Decision::Write(plan) && self.planned(
                stamp,
                TagFound { tag: None, link: None },
                Ok(plan),
            )
        }
    }

    open spec fn goes_on(
        self,
        stamp: Stamp,
        arm: TagArm,
        found: TagFound,
        d: Decision<TagArm, TagPlan>,
    ) -> bool {
        match d {
            Decision::Look { .. } => false,
            Decision::Write(plan) => self.planned(stamp, found, Ok(plan)),
            Decision::Refuse(e) => self.planned(stamp, found, Err(e)),
        }
    }

    open spec fn script(self, stamp: Stamp, plan: TagPlan) -> Seq<(Seq<char>, Seq<Bound>)> {
        match plan.statement {
            Some(s) => seq![(s.sql(), s.bound())],
            None => seq![],
        }
    }

    open spec fn answers(self, plan: TagPlan, counts: Seq<u64>, reply: TagReply) -> bool {
        match plan.answer {
            TagAnswer::Tag(tag) => reply == TagReply::Tag(Ok(tag)),
            TagAnswer::Rows => reply matches TagReply::Rows(Ok(rows)) && rows
                == if plan.statement is Some {
                total(counts)
            } else {
                0
            },
        }
    }

    open spec fn refuses(self, error: CoreError, reply: TagReply) -> bool {
        reply == if self is UpsertTag {
            TagReply::Tag(Err(error))
        } else {
            TagReply::Rows(Err(error))
        }
    }

    open spec fn is_success(reply: TagReply) -> bool {
        match reply {
            TagReply::Tag(r) => r is Ok,
            TagReply::Rows(r) => r is Ok,
        }
    }

    open spec fn told_before(self, reply: TagReply) -> Seq<AppEvent> {
        seq![]
    }

    open spec fn told_after(self, reply: TagReply) -> Seq<AppEvent> {
        seq![]
    }

    proof fn lemma_answers_succeed(self, plan: TagPlan, counts: Seq<u64>, reply: TagReply) {
    }

    proof fn lemma_refuses_fail(self, error: CoreError, reply: TagReply) {
    }

    fn settle(&self) -> (r: Option<TagReply>) {
        None
    }

    fn begin(&self, stamp: &Stamp) -> (d: Decision<TagArm, TagPlan>) {
        let found = TagFound { tag: None, link: None };
        match self.lookup() {
            Some((arm, call)) => Decision::Look { arm, call },
            None => match self.plan(stamp, &found) {
                Ok(plan) => Decision::Write(plan),
                Err(e) => Decision::Refuse(e),
            },
        }
    }

    fn go_on(&self, stamp: &Stamp, arm: TagArm, found: TagFound) -> (d: Decision<TagArm, TagPlan>) {
        match self.plan(stamp, &found) {
            Ok(plan) => Decision::Write(plan),
            Err(e) => Decision::Refuse(e),
        }
    }

    fn statement(&self, stamp: &Stamp, plan: &TagPlan, done: usize) -> (r: Option<SqlCall>) {
        match &plan.statement {
            Some(s) if done == 0 => Some(s.call()),
            _ => None,
        }
    }

    fn answer(&self, plan: TagPlan, counts: &Vec<u64>) -> (r: TagReply) {
        plan.reply(sum_counts(counts))
    }

    fn refuse_with(&self, error: CoreError) -> (r: TagReply) {
        self.refuse(error)
    }

    fn notices(&self, reply: &TagReply) -> (r: (Vec<AppEvent>, Vec<AppEvent>)) {
        (Vec::new(), Vec::new())
    }
}

} // verus!
