//! The command that builds the full-text index anew.
use vstd::prelude::*;
use vstd::string::*;

use crate::db::joins::{Col, QueryForm};
use crate::db::lists::{
    col, col_of, file_id, file_id_col, metadata_of_row, metadata_of_row_join, List,
};
use crate::db::sql::{Bound, SqlCall, Stamp};
use crate::db::writer::job::{Command, Decision, OnlyLookup};
use crate::errors::CoreError;
use crate::events::{AppEvent, InvalidationReason};

verus! {

/// A command that writes the full-text index.
#[derive(Clone, Copy, Debug, PartialEq, Eq, Structural)]
pub enum SearchWriteCmd {
    /// Build the index anew.
    Rebuild,
}

pub const CLEAR_SEARCH: &'static str = "DELETE FROM search_content";

/// What a column of a row that is made gets.
#[derive(Clone, Copy, Debug)]
pub enum FillTerm {
    /// What a column of the location has.
    Own(Col),
    /// What a column of the metadata has, or nothing.
    OrEmpty(Col),
    /// The names of the tags, with spaces between them.
    TagNames,
}

/// A column of a row that is made, and what it gets.
#[derive(Clone, Copy, Debug)]
pub struct FillPair {
    pub column: &'static str,
    pub term: FillTerm,
}

impl FillTerm {
    /// The text of the term.
    pub open spec fn text(self) -> Seq<char> {
        match self {
            FillTerm::Own(c) => c.text(),
            FillTerm::OrEmpty(c) => "COALESCE("@ + c.text() + ", '')"@,
            FillTerm::TagNames => "COALESCE((SELECT GROUP_CONCAT("@ + List::TagNames.form().columns[
                0
            ].text() + ", ' ')"@ + List::TagNames.form().from_text() + "), '')"@,
        }
    }

    fn append_to(&self, s: &mut String)
        ensures
            final(s)@ == old(s)@ + self.text(),
    {
        match self {
            FillTerm::Own(c) => {
                c.append_to(s);
            },
            FillTerm::OrEmpty(c) => {
                s.append("COALESCE(");
                c.append_to(s);
                s.append(", '')");
            },
            FillTerm::TagNames => {
                let names = List::TagNames.query();
                s.append("COALESCE((SELECT GROUP_CONCAT(");
                names.columns[0].append_to(s);
                s.append(", ' ')");
                names.append_from(s);
                s.append("), '')");
            },
        }
        assert(s@ =~= old(s)@ + self.text());
    }
}

/// The columns of a row that is made.
pub open spec fn fill_pairs() -> Seq<FillPair> {
    seq![
        FillPair { column: "file_uuid", term: FillTerm::Own(col(0, "r", "file_uuid")) },
        FillPair { column: "blake3_hash", term: FillTerm::Own(col(0, "r", "blake3_hash")) },
        FillPair { column: "filename", term: FillTerm::Own(col(0, "r", "relative_path")) },
        FillPair { column: "relative_path", term: FillTerm::Own(col(0, "r", "relative_path")) },
        FillPair { column: "mime_type", term: FillTerm::OrEmpty(col(1, "m", "mime_type")) },
        FillPair { column: "camera_model", term: FillTerm::OrEmpty(col(1, "m", "camera_model")) },
        FillPair { column: "captured_at", term: FillTerm::OrEmpty(col(1, "m", "captured_at")) },
        FillPair { column: "tags", term: FillTerm::TagNames },
    ]
}

fn fill_columns() -> (r: Vec<FillPair>)
    ensures
        r@ == fill_pairs(),
{
    let r: Vec<FillPair> = vec![
        FillPair { column: "file_uuid", term: FillTerm::Own(col_of(0, "r", "file_uuid")) },
        FillPair { column: "blake3_hash", term: FillTerm::Own(col_of(0, "r", "blake3_hash")) },
        FillPair { column: "filename", term: FillTerm::Own(col_of(0, "r", "relative_path")) },
        FillPair { column: "relative_path", term: FillTerm::Own(col_of(0, "r", "relative_path")) },
        FillPair { column: "mime_type", term: FillTerm::OrEmpty(col_of(1, "m", "mime_type")) },
        FillPair { column: "camera_model", term: FillTerm::OrEmpty(col_of(1, "m", "camera_model")) },
        FillPair { column: "captured_at", term: FillTerm::OrEmpty(col_of(1, "m", "captured_at")) },
        FillPair { column: "tags", term: FillTerm::TagNames },
    ];
    assert(r@ =~= fill_pairs());
    r
}

/// One side of the columns, with commas between them.
pub open spec fn pairs_text(pairs: Seq<FillPair>, names: bool) -> Seq<char>
    decreases pairs.len(),
{
    if pairs.len() == 0 {
        Seq::empty()
    } else {
        let last = if names {
            pairs.last().column@
        } else {
            pairs.last().term.text()
        };
        if pairs.len() == 1 {
            last
        } else {
            pairs_text(pairs.drop_last(), names) + ", "@ + last
        }
    }
}

fn append_pairs(s: &mut String, pairs: &Vec<FillPair>, names: bool)
    ensures
        final(s)@ == old(s)@ + pairs_text(pairs@, names),
{
    let mut i: usize = 0;
    assert(s@ =~= old(s)@ + pairs_text(pairs@.take(0), names));
    while i < pairs.len()
        invariant
            i <= pairs.len(),
            s@ == old(s)@ + pairs_text(pairs@.take(i as int), names),
        decreases pairs.len() - i,
    {
        let ghost before = s@;
        if i > 0 {
            s.append(", ");
        }
        if names {
            s.append(pairs[i].column);
        } else {
            pairs[i].term.append_to(s);
        }
        proof {
            let part = pairs@.take(i + 1);
            assert(part.drop_last() =~= pairs@.take(i as int));
            assert(part.last() == pairs@[i as int]);
            if i == 0 {
                assert(before =~= old(s)@);
            }
            assert(s@ =~= old(s)@ + pairs_text(part, names));
        }
        i += 1;
    }
    assert(pairs@.take(pairs@.len() as int) =~= pairs@);
}

/// One row for each file with a live location: its hash, the path of its
/// representative location, the live one that was seen first, and the live metadata
/// and the names of the live tags of that hash.
pub open spec fn fill_text(locations: QueryForm, per: Col) -> Seq<char> {
    "INSERT INTO search_content ("@ + pairs_text(fill_pairs(), true) + ") SELECT "@ + pairs_text(
        fill_pairs(),
        false,
    ) + " FROM ("@ + locations.first_of_each_text(per) + ") r"@ + metadata_of_row().text()
}

fn fill_sql() -> (r: String)
    ensures
        r@ == fill_text(List::Representatives.form(), file_id()),
{
    let pairs = fill_columns();
    let mut s = String::new();
    s.append("INSERT INTO search_content (");
    append_pairs(&mut s, &pairs, true);
    s.append(") SELECT ");
    append_pairs(&mut s, &pairs, false);
    s.append(" FROM (");
    let locations = List::Representatives.query().first_of_each(&file_id_col());
    s.append(locations.as_str());
    s.append(") r");
    metadata_of_row_join().append_to(&mut s);
    assert(s@ =~= fill_text(List::Representatives.form(), file_id()));
    s
}

/// A statement that changes `search_content`.
#[derive(Clone, Copy, Debug, PartialEq, Eq, Structural)]
pub enum SearchStatement {
    /// Remove every row.
    Clear,
    /// Make the rows anew.
    Fill,
}

impl SearchStatement {
    /// The text of the statement.
    pub open spec fn sql(self) -> Seq<char> {
        match self {
            SearchStatement::Clear => CLEAR_SEARCH@,
            SearchStatement::Fill => fill_text(List::Representatives.form(), file_id()),
        }
    }

    /// The statement as a call.
    pub fn call(&self) -> (r: SqlCall)
        ensures
            r.is(self.sql(), Seq::<Bound>::empty()),
    {
        match self {
            SearchStatement::Clear => SqlCall::new(CLEAR_SEARCH, Vec::new()),
            SearchStatement::Fill => SqlCall { sql: fill_sql(), params: Vec::new() },
        }
    }
}

/// The statements that build the index anew: the old rows go before the new ones
/// are made.
pub open spec fn rebuild_statements() -> Seq<SearchStatement> {
    seq![SearchStatement::Clear, SearchStatement::Fill]
}

/// The statements that build the index anew.
pub fn rebuild_impl() -> (r: Vec<SearchStatement>)
    ensures
        r@ == rebuild_statements(),
{
    vec![SearchStatement::Clear, SearchStatement::Fill]
}

/// The event of the command, given its reply: one whenever it succeeded, even if
/// there was nothing to index.
pub fn rebuild_event(reply: &Result<(), CoreError>) -> (r: Option<AppEvent>)
    ensures
        match r {
            Some(event) => *reply is Ok && event == (AppEvent::IndexInvalidated {
                reason: InvalidationReason::SearchIndexRebuilt,
            }),
            None => *reply is Err,
        },
{
    match reply {
        Ok(_) => Some(
            AppEvent::IndexInvalidated { reason: InvalidationReason::SearchIndexRebuilt },
        ),
        Err(_) => None,
    }
}

impl Command for SearchWriteCmd {
    type Arm = OnlyLookup;

    type Found = ();

    type Plan = ();

    type Reply = Result<(), CoreError>;

    open spec fn opens(self) -> bool {
        true
    }

    open spec fn settles(self, reply: Result<(), CoreError>) -> bool {
        false
    }

    open spec fn asks(self, arm: OnlyLookup) -> bool {
        true
    }

    open spec fn begins(self, stamp: Stamp, d: Decision<OnlyLookup, ()>) -> bool {
        d is Write
    }

    open spec fn goes_on(self, stamp: Stamp, arm: OnlyLookup, found: (), d: Decision<OnlyLookup, ()>) -> bool {
        d is Write
    }

    open spec fn script(self, stamp: Stamp, plan: ()) -> Seq<(Seq<char>, Seq<Bound>)> {
        rebuild_statements().map_values(|s: SearchStatement| (s.sql(), Seq::<Bound>::empty()))
    }

    open spec fn answers(self, plan: (), counts: Seq<u64>, reply: Result<(), CoreError>) -> bool {
        reply is Ok
    }

    open spec fn refuses(self, error: CoreError, reply: Result<(), CoreError>) -> bool {
        reply == Err::<(), CoreError>(error)
    }

    open spec fn is_success(reply: Result<(), CoreError>) -> bool {
        reply is Ok
    }

    open spec fn told_before(self, reply: Result<(), CoreError>) -> Seq<AppEvent> {
        if reply is Ok {
            seq![AppEvent::IndexInvalidated { reason: InvalidationReason::SearchIndexRebuilt }]
        } else {
            seq![]
        }
    }

    open spec fn told_after(self, reply: Result<(), CoreError>) -> Seq<AppEvent> {
        seq![]
    }

    proof fn lemma_answers_succeed(self, plan: (), counts: Seq<u64>, reply: Result<(), CoreError>) {
    }

    proof fn lemma_refuses_fail(self, error: CoreError, reply: Result<(), CoreError>) {
    }

    fn settle(&self) -> (r: Option<Result<(), CoreError>>) {
        None
    }

    fn begin(&self, stamp: &Stamp) -> (d: Decision<OnlyLookup, ()>) {
        Decision::Write(())
    }

    fn go_on(&self, stamp: &Stamp, arm: OnlyLookup, found: ()) -> (d: Decision<OnlyLookup, ()>) {
        Decision::Write(())
    }

    fn statement(&self, stamp: &Stamp, plan: &(), done: usize) -> (r: Option<SqlCall>) {
        let statements = rebuild_impl();
        if done < statements.len() {
            Some(statements[done].call())
        } else {
            None
        }
    }

    fn answer(&self, plan: (), counts: &Vec<u64>) -> (r: Result<(), CoreError>) {
        Ok(())
    }

    fn refuse_with(&self, error: CoreError) -> (r: Result<(), CoreError>) {
        Err(error)
    }

    fn notices(&self, reply: &Result<(), CoreError>) -> (r: (Vec<AppEvent>, Vec<AppEvent>)) {
        let mut before: Vec<AppEvent> = Vec::new();
        if let Some(event) = rebuild_event(reply) {
            before.push(event);
        }
        (before, Vec::new())
    }
}

} // verus!
