//! Statements as the database takes them: a text and the values bound to it.
use vstd::prelude::*;
use vstd::string::*;

use crate::hlc::{wall_clock_ms, Hlc};
use crate::ids::{new_id, Uuid};

verus! {

/// A value bound to a placeholder.
#[derive(Clone, Debug, PartialEq, Eq)]
pub enum SqlValue {
    Null,
    Int(i64),
    Text(String),
    /// A single-precision number, by its IEEE 754 bits.
    Real(u32),
}

/// What a bound value holds.
pub enum Bound {
    Null,
    Int(int),
    Text(Seq<char>),
    Real(u32),
}

impl View for SqlValue {
    type V = Bound;

    open spec fn view(&self) -> Bound {
        match self {
            SqlValue::Null => Bound::Null,
            SqlValue::Int(n) => Bound::Int(*n as int),
            SqlValue::Text(s) => Bound::Text(s@),
            SqlValue::Real(b) => Bound::Real(*b),
        }
    }
}

/// An optional text as a bound value.
pub open spec fn bound_text_opt(t: Option<Seq<char>>) -> Bound {
    match t {
        Some(s) => Bound::Text(s),
        None => Bound::Null,
    }
}

/// A statement with the values for its placeholders, the first for `?1`.
#[derive(Clone, Debug, PartialEq, Eq)]
pub struct SqlCall {
    pub sql: String,
    pub params: Vec<SqlValue>,
}

impl SqlCall {
    /// Whether this is the statement `sql` with the values `bound`.
    pub open spec fn is(self, sql: Seq<char>, bound: Seq<Bound>) -> bool {
        &&& self.sql@ == sql
        &&& self.params@.len() == bound.len()
        &&& forall|i: int| 0 <= i < bound.len() ==> (#[trigger] self.params@[i])@ == bound[i]
    }

    pub(crate) fn new(sql: &str, params: Vec<SqlValue>) -> (r: SqlCall)
        ensures
            r.sql@ == sql@,
            r.params == params,
    {
        SqlCall { sql: sql.to_owned(), params }
    }
}

/// A text to bind.
pub(crate) fn text_value(s: &str) -> (r: SqlValue)
    ensures
        r@ == Bound::Text(s@),
{
    SqlValue::Text(s.to_owned())
}

/// A text to bind, or NULL.
pub(crate) fn text_opt_value(s: &Option<String>) -> (r: SqlValue)
    ensures
        r@ == bound_text_opt(crate::text::text_opt(*s)),
{
    match s {
        Some(t) => SqlValue::Text(t.clone()),
        None => SqlValue::Null,
    }
}

/// The hyphenated text of a UUID to bind.
pub(crate) fn uuid_value(u: Uuid) -> (r: SqlValue)
    ensures
        r@ == Bound::Text(u.text()),
{
    SqlValue::Text(u.to_hyphenated())
}

/// What one command stamps on the rows it writes: the time, the clock, and an
/// identifier for a row that it may insert.
#[derive(Clone, Debug, PartialEq, Eq)]
pub struct Stamp {
    /// ISO 8601 UTC timestamp.
    pub now: String,
    /// The packed point of the hybrid logical clock.
    pub hlc: i64,
    /// A fresh identifier.
    pub fresh: Uuid,
}

/// Calls `chrono::Utc::now` and `chrono::DateTime::to_rfc3339`. Nothing is stated
/// of the text: it is the time of the call.
#[verifier::external_body]
pub fn now_iso() -> (r: String) {
    chrono::Utc::now().to_rfc3339()
}

impl Stamp {
    /// Takes the stamp of one command: one point of the clock, however many rows
    /// the command writes.
    pub fn take(clock: &mut Hlc) -> (r: Stamp)
        ensures
            exists|wall_ms: u64|
                call_ensures(wall_clock_ms, (), wall_ms) && *final(clock) == #[trigger] old(
                    clock,
                ).after_tick(wall_ms),
            call_ensures(now_iso, (), r.now),
            r.hlc == final(clock).packed(),
            r.fresh.is_v7(),
            old(clock).valid() ==> final(clock).valid(),
            old(clock).valid() && !old(clock).saturated() ==> old(clock).before(*final(clock))
                && old(clock).packed() < r.hlc,
    {
        let point = Hlc::now(clock);
        proof {
            if old(clock).valid() && !old(clock).saturated() {
                crate::hlc::law_pack_keeps_order(*old(clock), point);
            }
        }
        let hlc: i64 = point.pack();
        let now = now_iso();
        let fresh = new_id();
        Stamp { now, hlc, fresh }
    }
}

/// The rows that a list of statements changed, all together.
pub open spec fn total(counts: Seq<u64>) -> int
    decreases counts.len(),
{
    if counts.len() == 0 {
        0
    } else {
        total(counts.drop_last()) + counts.last()
    }
}

pub proof fn lemma_total_of_prefix(counts: Seq<u64>, k: int)
    requires
        0 <= k <= counts.len(),
    ensures
        0 <= total(counts.take(k)) <= total(counts),
    decreases counts.len() - k,
{
    if k < counts.len() {
        lemma_total_of_prefix(counts, k + 1);
        assert(counts.take(k + 1).drop_last() =~= counts.take(k));
        lemma_total_nonnegative(counts.take(k));
    } else {
        assert(counts.take(k) =~= counts);
        lemma_total_nonnegative(counts);
    }
}

pub proof fn lemma_total_nonnegative(counts: Seq<u64>)
    ensures
        0 <= total(counts),
    decreases counts.len(),
{
    if counts.len() > 0 {
        lemma_total_nonnegative(counts.drop_last());
    }
}

/// Adds up the rows that a list of statements changed.
pub fn sum_counts(counts: &Vec<u64>) -> (r: u64)
    requires
        total(counts@) <= u64::MAX,
    ensures
        r == total(counts@),
{
    let mut sum: u64 = 0;
    let mut i: usize = 0;
    while i < counts.len()
        invariant
            i <= counts.len(),
            sum == total(counts@.take(i as int)),
            total(counts@) <= u64::MAX,
        decreases counts.len() - i,
    {
        proof {
            lemma_total_of_prefix(counts@, i + 1);
            assert(counts@.take(i + 1).drop_last() =~= counts@.take(i as int));
        }
        sum = sum + counts[i];
        i += 1;
    }
    proof {
        assert(counts@.take(counts@.len() as int) =~= counts@);
    }
    sum
}

} // verus!
