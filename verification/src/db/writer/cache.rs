//! Commands that write the cache of hashes by file identity.
use vstd::prelude::*;
use vstd::string::*;

use crate::db::convert::u64_to_i64;
use crate::db::lookups::Lookup;
use crate::db::shape::{assign, put, Form, Shape, Test, Verb};
use crate::db::sql::{bound_text_opt, text_value, uuid_value, Bound, SqlCall, SqlValue, Stamp};
use crate::db::writer::file::{hash_opt_value, hash_value, hex_opt};
use crate::db::writer::job::{Command, Decision, OnlyLookup};
use crate::errors::CoreError;
use crate::events::AppEvent;
use crate::ids::Uuid;
use crate::ports::identity_cache::{CacheEntry, CacheKey};
use crate::text::dec_nat;

verus! {

/// A command that writes the cache.
#[derive(Clone, Debug)]
pub enum CacheWriteCmd {
    /// Store an entry under a key.
    UpsertCacheRow { key: CacheKey, entry: CacheEntry },
    /// Retire the entry under a key.
    SoftDeleteCacheRow { key: CacheKey },
}

/// A statement that changes `file_identity_cache`.
#[allow(inconsistent_fields)]
#[derive(Clone, Debug)]
pub enum CacheStatement {
    Insert { id: Uuid, key: CacheKey, size: i64, entry: CacheEntry, now: String },
    Update { entry: CacheEntry, now: String, id: String },
    Retire { now: String, key: CacheKey, size: i64 },
}

/// The values of a key, as they are bound.
pub open spec fn key_bound(key: CacheKey) -> Seq<Bound> {
    seq![
        Bound::Text(key.device_id.0.text()),
        Bound::Text(key.volume_id.0.text()),
        Bound::Int(key.fs_file_id as int),
        Bound::Int(key.size_bytes as int),
        Bound::Int(key.mtime_ns as int),
    ]
}

/// The size of a key as it is stored; what does not fit 63 bits is an error.
pub fn key_size(key: &CacheKey) -> (r: Result<i64, CoreError>)
    ensures
        match r {
            Ok(n) => n == key.size_bytes,
            Err(e) => size_refused(*key, e),
        },
{
    u64_to_i64(key.size_bytes, "size_bytes")
}

/// Whether an error says that the size of a key cannot be stored.
pub open spec fn size_refused(key: CacheKey, e: CoreError) -> bool {
    key.size_bytes > i64::MAX && e.is_internal(
        "size_bytes"@ + " "@ + dec_nat(key.size_bytes as nat) + " overflows i64"@,
    )
}

impl CacheStatement {
    /// The parts of the statement.
    pub open spec fn form(self) -> Form {
        match self {
            CacheStatement::Insert { .. } => Form {
                verb: Verb::Insert,
                table: "file_identity_cache"@,
                columns: seq![
                    put("id", 1),
                    put("device_id", 2),
                    put("volume_id", 3),
                    put("fs_file_id", 4),
                    put("size_bytes", 5),
                    put("mtime_ns", 6),
                    put("quick_hash", 7),
                    put("full_hash", 8),
                    put("last_verified", 9),
                    put("first_seen", 9),
                    put("updated_at", 9),
                ],
                tests: seq![],
            },
            CacheStatement::Update { .. } => Form {
                verb: Verb::Update,
                table: "file_identity_cache"@,
                columns: seq![
                    put("quick_hash", 1),
                    put("full_hash", 2),
                    put("last_verified", 3),
                    put("updated_at", 3),
                ],
                tests: seq![
                    Test::Equals("id", 4),
                ],
            },
            CacheStatement::Retire { .. } => Form {
                verb: Verb::Update,
                table: "file_identity_cache"@,
                columns: seq![
                    put("deleted_at", 1),
                    put("updated_at", 1),
                ],
                tests: seq![
                    Test::Equals("device_id", 2),
                    Test::Equals("volume_id", 3),
                    Test::Equals("fs_file_id", 4),
                    Test::Equals("size_bytes", 5),
                    Test::Equals("mtime_ns", 6),
                    Test::Absent("deleted_at"),
                ],
            },
        }
    }

    /// The parts of the statement.
    pub fn shape(&self) -> (r: Shape)
        ensures
            r@ == self.form(),
    {
        let r = match self {
            CacheStatement::Insert { .. } => Shape {
                verb: Verb::Insert,
                table: "file_identity_cache",
                columns: vec![
                    assign("id", 1),
                    assign("device_id", 2),
                    assign("volume_id", 3),
                    assign("fs_file_id", 4),
                    assign("size_bytes", 5),
                    assign("mtime_ns", 6),
                    assign("quick_hash", 7),
                    assign("full_hash", 8),
                    assign("last_verified", 9),
                    assign("first_seen", 9),
                    assign("updated_at", 9),
                ],
                tests: Vec::new(),
            },
            CacheStatement::Update { .. } => Shape {
                verb: Verb::Update,
                table: "file_identity_cache",
                columns: vec![
                    assign("quick_hash", 1),
                    assign("full_hash", 2),
                    assign("last_verified", 3),
                    assign("updated_at", 3),
                ],
                tests: vec![
                    Test::Equals("id", 4),
                ],
            },
            CacheStatement::Retire { .. } => Shape {
                verb: Verb::Update,
                table: "file_identity_cache",
                columns: vec![
                    assign("deleted_at", 1),
                    assign("updated_at", 1),
                ],
                tests: vec![
                    Test::Equals("device_id", 2),
                    Test::Equals("volume_id", 3),
                    Test::Equals("fs_file_id", 4),
                    Test::Equals("size_bytes", 5),
                    Test::Equals("mtime_ns", 6),
                    Test::Absent("deleted_at"),
                ],
            },
        };
        assert(r.columns@ =~= self.form().columns);
        assert(r.tests@ =~= self.form().tests);
        r
    }
}

impl CacheStatement {
    /// The text of the statement.
    pub open spec fn sql(self) -> Seq<char> {
        self.form().text()
    }

    /// The values bound to the statement.
    pub open spec fn bound(self) -> Seq<Bound> {
        match self {
            CacheStatement::Insert { id, key, size, entry, now } => seq![
                Bound::Text(id.text()),
                Bound::Text(key.device_id.0.text()),
                Bound::Text(key.volume_id.0.text()),
                Bound::Int(key.fs_file_id as int),
                Bound::Int(size as int),
                Bound::Int(key.mtime_ns as int),
                Bound::Text(entry.quick_hash.hex()),
                bound_text_opt(hex_opt(entry.full_hash)),
                Bound::Text(now@),
            ],
            CacheStatement::Update { entry, now, id } => seq![
                Bound::Text(entry.quick_hash.hex()),
                bound_text_opt(hex_opt(entry.full_hash)),
                Bound::Text(now@),
                Bound::Text(id@),
            ],
            CacheStatement::Retire { now, key, size } => seq![
                Bound::Text(now@),
                Bound::Text(key.device_id.0.text()),
                Bound::Text(key.volume_id.0.text()),
                Bound::Int(key.fs_file_id as int),
                Bound::Int(size as int),
                Bound::Int(key.mtime_ns as int),
            ],
        }
    }

    /// The statement as the database takes it.
    pub fn call(&self) -> (r: SqlCall)
        ensures
            r.is(self.sql(), self.bound()),
    {
        match self {
            CacheStatement::Insert { id, key, size, entry, now } => {
                let params: Vec<SqlValue> = vec![
                    uuid_value(*id),
                    uuid_value(key.device_id.0),
                    uuid_value(key.volume_id.0),
                    SqlValue::Int(key.fs_file_id),
                    SqlValue::Int(*size),
                    SqlValue::Int(key.mtime_ns),
                    hash_value(&entry.quick_hash),
                    hash_opt_value(&entry.full_hash),
                    text_value(now.as_str()),
                ];
                self.shape().call(params)
            },
            CacheStatement::Update { entry, now, id } => {
                let params: Vec<SqlValue> = vec![
                    hash_value(&entry.quick_hash),
                    hash_opt_value(&entry.full_hash),
                    text_value(now.as_str()),
                    text_value(id.as_str()),
                ];
                self.shape().call(params)
            },
            CacheStatement::Retire { now, key, size } => {
                let params: Vec<SqlValue> = vec![
                    text_value(now.as_str()),
                    uuid_value(key.device_id.0),
                    uuid_value(key.volume_id.0),
                    SqlValue::Int(key.fs_file_id),
                    SqlValue::Int(*size),
                    SqlValue::Int(key.mtime_ns),
                ];
                self.shape().call(params)
            },
        }
    }
}

/// The statement that stores an entry: a live entry under the key is updated,
/// else one is inserted.
pub open spec fn upsert_cache_statement(
    key: CacheKey,
    entry: CacheEntry,
    stamp: Stamp,
    existing: Option<String>,
) -> CacheStatement {
    match existing {
        None => CacheStatement::Insert {
            id: stamp.fresh,
            key,
            size: key.size_bytes as i64,
            entry,
            now: stamp.now,
        },
        Some(id) => CacheStatement::Update { entry, now: stamp.now, id },
    }
}

/// Plans the storing of an entry, from the identifier of the live entry under its
/// key.
pub fn upsert_cache_impl(
    key: &CacheKey,
    entry: &CacheEntry,
    stamp: &Stamp,
    existing: &Option<String>,
) -> (r: Result<CacheStatement, CoreError>)
    ensures
        match r {
            Ok(s) => key.size_bytes <= i64::MAX && s == upsert_cache_statement(
                *key,
                *entry,
                *stamp,
                *existing,
            ),
            Err(e) => size_refused(*key, e),
        },
{
    let size: i64 = match key_size(key) {
        Ok(n) => n,
        Err(e) => return Err(e),
    };
    match existing {
        None => Ok(
            CacheStatement::Insert {
                id: stamp.fresh,
                key: *key,
                size,
                entry: *entry,
                now: stamp.now.clone(),
            },
        ),
        Some(id) => Ok(
            CacheStatement::Update { entry: *entry, now: stamp.now.clone(), id: id.clone() },
        ),
    }
}

/// Plans the retirement of the entry under a key.
pub fn soft_delete_cache_impl(key: &CacheKey, stamp: &Stamp) -> (r: Result<
    CacheStatement,
    CoreError,
>)
    ensures
        match r {
            Ok(s) => key.size_bytes <= i64::MAX && s == (CacheStatement::Retire {
                now: stamp.now,
                key: *key,
                size: key.size_bytes as i64,
            }),
            Err(e) => size_refused(*key, e),
        },
{
    match key_size(key) {
        Ok(size) => Ok(CacheStatement::Retire { now: stamp.now.clone(), key: *key, size }),
        Err(e) => Err(e),
    }
}

impl CacheWriteCmd {
    /// The key of the command.
    pub open spec fn key(self) -> CacheKey {
        match self {
            CacheWriteCmd::UpsertCacheRow { key, .. } => key,
            CacheWriteCmd::SoftDeleteCacheRow { key } => key,
        }
    }

    /// What the command looks up before it writes: the live entry under its key,
    /// where it stores one. A size that cannot be stored is refused here.
    pub fn lookup(&self) -> (r: Result<Option<SqlCall>, CoreError>)
        ensures
            match r {
                Ok(call) => self.key().size_bytes <= i64::MAX && match *self {
                    CacheWriteCmd::UpsertCacheRow { key, .. } => call matches Some(c) && c.is(
                        Lookup::CacheId.sql(),
                        key_bound(key),
                    ),
                    CacheWriteCmd::SoftDeleteCacheRow { .. } => call is None,
                },
                Err(e) => size_refused(self.key(), e),
            },
    {
        match self {
            CacheWriteCmd::UpsertCacheRow { key, .. } => match key_size(key) {
                Ok(size) => {
                    let params: Vec<SqlValue> = vec![
                        uuid_value(key.device_id.0),
                        uuid_value(key.volume_id.0),
                        SqlValue::Int(key.fs_file_id),
                        SqlValue::Int(size),
                        SqlValue::Int(key.mtime_ns),
                    ];
                    Ok(Some(Lookup::CacheId.shape().call(params)))
                },
                Err(e) => Err(e),
            },
            CacheWriteCmd::SoftDeleteCacheRow { key } => match key_size(key) {
                Ok(_) => Ok(None),
                Err(e) => Err(e),
            },
        }
    }

    /// The statement of the command when its lookup found `existing`.
    pub open spec fn planned(self, stamp: Stamp, existing: Option<String>) -> CacheStatement {
        match self {
            CacheWriteCmd::UpsertCacheRow { key, entry } => upsert_cache_statement(
                key,
                entry,
                stamp,
                existing,
            ),
            CacheWriteCmd::SoftDeleteCacheRow { key } => CacheStatement::Retire {
                now: stamp.now,
                key,
                size: key.size_bytes as i64,
            },
        }
    }

    /// Plans the command, from what its lookup found.
    pub fn plan(&self, stamp: &Stamp, existing: &Option<String>) -> (r: Result<
        CacheStatement,
        CoreError,
    >)
        ensures
            match r {
                Ok(s) => self.key().size_bytes <= i64::MAX && s == self.planned(*stamp, *existing),
                Err(e) => size_refused(self.key(), e),
            },
    {
        match self {
            CacheWriteCmd::UpsertCacheRow { key, entry } => upsert_cache_impl(
                key,
                entry,
                stamp,
                existing,
            ),
            CacheWriteCmd::SoftDeleteCacheRow { key } => soft_delete_cache_impl(key, stamp),
        }
    }

    /// The name of the command in logs.
    pub fn kind_str(&self) -> (r: &'static str)
        ensures
            r@ == match *self {
                CacheWriteCmd::UpsertCacheRow { .. } => "upsert_cache_row"@,
                CacheWriteCmd::SoftDeleteCacheRow { .. } => "soft_delete_cache_row"@,
            },
    {
        match self {
            CacheWriteCmd::UpsertCacheRow { .. } => "upsert_cache_row",
            CacheWriteCmd::SoftDeleteCacheRow { .. } => "soft_delete_cache_row",
        }
    }
}

impl CacheWriteCmd {
    /// Whether the command goes on so when its lookup found `existing`.
    pub open spec fn plans(
        self,
        stamp: Stamp,
        existing: Option<String>,
        d: Decision<OnlyLookup, CacheStatement>,
    ) -> bool {
        d == Decision::<OnlyLookup, CacheStatement>::Write(self.planned(stamp, existing))
    }
}

impl Command for CacheWriteCmd {
    type Arm = OnlyLookup;

    type Found = Option<String>;

    type Plan = CacheStatement;

    type Reply = Result<(), CoreError>;

    open spec fn opens(self) -> bool {
        self.key().size_bytes <= i64::MAX
    }

    open spec fn settles(self, reply: Result<(), CoreError>) -> bool {
        reply matches Err(e) && size_refused(self.key(), e)
    }

    open spec fn asks(self, arm: OnlyLookup) -> bool {
        self is UpsertCacheRow
    }

    open spec fn begins(self, stamp: Stamp, d: Decision<OnlyLookup, CacheStatement>) -> bool {
        match self {
            CacheWriteCmd::UpsertCacheRow { key, .. } => d matches Decision::Look { arm, call }
                && call.is(Lookup::CacheId.sql(), key_bound(key)),
            CacheWriteCmd::SoftDeleteCacheRow { .. } => self.plans(stamp, None, d),
        }
    }

    open spec fn goes_on(
        self,
        stamp: Stamp,
        arm: OnlyLookup,
        found: Option<String>,
        d: Decision<OnlyLookup, CacheStatement>,
    ) -> bool {
        self.plans(stamp, found, d)
    }

    open spec fn script(self, stamp: Stamp, plan: CacheStatement) -> Seq<(Seq<char>, Seq<Bound>)> {
        seq![(plan.sql(), plan.bound())]
    }

    open spec fn answers(
        self,
        plan: CacheStatement,
        counts: Seq<u64>,
        reply: Result<(), CoreError>,
    ) -> bool {
        reply is Ok
    }

    open spec fn refuses(self, error: CoreError, reply: Result<(), CoreError>) -> bool {
        reply == Err::<(), CoreError>(error)
    }

    open spec fn is_success(reply: Result<(), CoreError>) -> bool {
        reply is Ok
    }

    open spec fn told_before(self, reply: Result<(), CoreError>) -> Seq<AppEvent> {
        seq![]
    }

    open spec fn told_after(self, reply: Result<(), CoreError>) -> Seq<AppEvent> {
        seq![]
    }

    proof fn lemma_answers_succeed(
        self,
        plan: CacheStatement,
        counts: Seq<u64>,
        reply: Result<(), CoreError>,
    ) {
    }

    proof fn lemma_refuses_fail(self, error: CoreError, reply: Result<(), CoreError>) {
    }

    fn settle(&self) -> (r: Option<Result<(), CoreError>>) {
        match self.lookup() {
            Ok(_) => None,
            Err(e) => Some(Err(e)),
        }
    }

    fn begin(&self, stamp: &Stamp) -> (d: Decision<OnlyLookup, CacheStatement>) {
        match self.lookup() {
            Ok(Some(call)) => Decision::Look { arm: OnlyLookup, call },
            Ok(None) => match self.plan(stamp, &None) {
                Ok(statement) => Decision::Write(statement),
                Err(e) => Decision::Refuse(e),
            },
            Err(e) => Decision::Refuse(e),
        }
    }

    fn go_on(&self, stamp: &Stamp, arm: OnlyLookup, found: Option<String>) -> (d: Decision<
        OnlyLookup,
        CacheStatement,
    >) {
        match self.plan(stamp, &found) {
            Ok(statement) => Decision::Write(statement),
            Err(e) => Decision::Refuse(e),
        }
    }

    fn statement(&self, stamp: &Stamp, plan: &CacheStatement, done: usize) -> (r: Option<SqlCall>) {
        if done == 0 {
            Some(plan.call())
        } else {
            None
        }
    }

    fn answer(&self, plan: CacheStatement, counts: &Vec<u64>) -> (r: Result<(), CoreError>) {
        Ok(())
    }

    fn refuse_with(&self, error: CoreError) -> (r: Result<(), CoreError>) {
        Err(error)
    }

    fn notices(&self, reply: &Result<(), CoreError>) -> (r: (Vec<AppEvent>, Vec<AppEvent>)) {
        (Vec::new(), Vec::new())
    }
}

} // verus!
