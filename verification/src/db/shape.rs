//! Statements by their parts: the table, the columns with what they are given, and
//! the tests on the rows. The text of a statement is made of its parts, and so is
//! what it does to a row.
use vstd::prelude::*;
use vstd::string::*;

use crate::db::sql::{Bound, SqlCall, SqlValue};
use crate::text::{dec_nat, u64_text};

verus! {

/// What a column is given.
#[derive(Clone, Copy, Debug)]
pub enum Term {
    /// The value bound to the placeholder with this number, the first being 1.
    Param(u64),
    /// This text.
    Word(&'static str),
    /// This number.
    Number(u64),
    /// What the column has; where that is NULL, the value bound to this placeholder.
    Kept(u64),
    /// The identifier of the file whose hash is bound to this placeholder.
    FileOf(u64),
    /// What the column has.
    Own,
}

/// A column, and what it is given.
#[derive(Clone, Copy, Debug)]
pub struct Assign {
    pub column: &'static str,
    pub term: Term,
}

/// A test on a row.
#[derive(Clone, Copy, Debug)]
pub enum Test {
    /// The column has the value bound to this placeholder.
    Equals(&'static str, u64),
    /// The column has another value than the one bound to this placeholder.
    Differs(&'static str, u64),
    /// The column has this text.
    Says(&'static str, &'static str),
    /// The column is NULL.
    Absent(&'static str),
    /// The column is not NULL.
    Present(&'static str),
}

/// What a statement does with its table.
#[derive(Clone, Copy, Debug, PartialEq, Eq, Structural)]
pub enum Verb {
    /// Adds a row.
    Insert,
    /// Adds a row in the place of the one with the same key.
    Replace,
    /// Changes the rows that pass the tests.
    Update,
    /// Gives back the columns of the rows that pass the tests.
    Select,
    /// Gives back how many rows pass the tests.
    Count,
}

/// The parts of a statement.
pub struct Form {
    pub verb: Verb,
    pub table: Seq<char>,
    pub columns: Seq<Assign>,
    pub tests: Seq<Test>,
}

/// The parts of a statement.
#[derive(Clone, Debug)]
pub struct Shape {
    pub verb: Verb,
    pub table: &'static str,
    pub columns: Vec<Assign>,
    pub tests: Vec<Test>,
}

impl View for Shape {
    type V = Form;

    open spec fn view(&self) -> Form {
        Form {
            verb: self.verb,
            table: self.table@,
            columns: self.columns@,
            tests: self.tests@,
        }
    }
}

/// A row: what each of its columns has.
pub type Row = Map<Seq<char>, Bound>;

/// The text of a placeholder.
pub open spec fn param_text(n: u64) -> Seq<char> {
    "?"@ + dec_nat(n as nat)
}

impl Assign {
    /// The text of what the column is given.
    pub open spec fn given_text(self) -> Seq<char> {
        match self.term {
            Term::Param(n) => param_text(n),
            Term::Word(w) => "'"@ + w@ + "'"@,
            Term::Number(n) => dec_nat(n as nat),
            Term::Kept(n) => "COALESCE("@ + self.column@ + ", "@ + param_text(n) + ")"@,
            Term::FileOf(n) => "(SELECT f.file_uuid FROM files f WHERE f.blake3_hash = "@
                + param_text(n) + ")"@,
            Term::Own => self.column@,
        }
    }

    /// The text of the assignment.
    pub open spec fn set_text(self) -> Seq<char> {
        self.column@ + " = "@ + self.given_text()
    }

    /// The value that the column gets in a row, `file_of` being the identifier of the
    /// file with a hash.
    pub open spec fn value(self, bound: Seq<Bound>, row: Row, file_of: spec_fn(Bound) -> Bound) -> Bound {
        match self.term {
            Term::Param(n) => bound[n - 1],
            Term::Word(w) => Bound::Text(w@),
            Term::Number(n) => Bound::Int(n as int),
            Term::Kept(n) => if row[self.column@] == Bound::Null {
                bound[n - 1]
            } else {
                row[self.column@]
            },
            Term::FileOf(n) => file_of(bound[n - 1]),
            Term::Own => row[self.column@],
        }
    }

    fn append_given(&self, s: &mut String)
        ensures
            final(s)@ == old(s)@ + self.given_text(),
    {
        match self.term {
            Term::Param(n) => {
                append_param(s, n);
            },
            Term::Word(w) => {
                s.append("'");
                s.append(w);
                s.append("'");
            },
            Term::Number(n) => {
                let digits = u64_text(n);
                s.append(digits.as_str());
            },
            Term::Kept(n) => {
                s.append("COALESCE(");
                s.append(self.column);
                s.append(", ");
                append_param(s, n);
                s.append(")");
            },
            Term::FileOf(n) => {
                s.append("(SELECT f.file_uuid FROM files f WHERE f.blake3_hash = ");
                append_param(s, n);
                s.append(")");
            },
            Term::Own => {
                s.append(self.column);
            },
        }
        assert(s@ =~= old(s)@ + self.given_text());
    }
}

fn append_param(s: &mut String, n: u64)
    ensures
        final(s)@ == old(s)@ + param_text(n),
{
    s.append("?");
    let digits = u64_text(n);
    s.append(digits.as_str());
    assert(s@ =~= old(s)@ + param_text(n));
}

impl Test {
    /// The text of the test.
    pub open spec fn text(self) -> Seq<char> {
        match self {
            Test::Equals(c, n) => c@ + " = "@ + param_text(n),
            Test::Differs(c, n) => c@ + " <> "@ + param_text(n),
            Test::Says(c, w) => c@ + " = '"@ + w@ + "'"@,
            Test::Absent(c) => c@ + " IS NULL"@,
            Test::Present(c) => c@ + " IS NOT NULL"@,
        }
    }

    /// Whether a row passes the test; a value that is NULL neither equals nor differs.
    pub open spec fn passes(self, bound: Seq<Bound>, row: Row) -> bool {
        match self {
            Test::Equals(c, n) => row[c@] != Bound::Null && row[c@] == bound[n - 1],
            Test::Differs(c, n) => row[c@] != Bound::Null && bound[n - 1] != Bound::Null && row[c@]
                != bound[n - 1],
            Test::Says(c, w) => row[c@] == Bound::Text(w@),
            Test::Absent(c) => row[c@] == Bound::Null,
            Test::Present(c) => row[c@] != Bound::Null,
        }
    }

    fn append_to(&self, s: &mut String)
        ensures
            final(s)@ == old(s)@ + self.text(),
    {
        match *self {
            Test::Equals(c, n) => {
                s.append(c);
                s.append(" = ");
                append_param(s, n);
            },
            Test::Differs(c, n) => {
                s.append(c);
                s.append(" <> ");
                append_param(s, n);
            },
            Test::Says(c, w) => {
                s.append(c);
                s.append(" = '");
                s.append(w);
                s.append("'");
            },
            Test::Absent(c) => {
                s.append(c);
                s.append(" IS NULL");
            },
            Test::Present(c) => {
                s.append(c);
                s.append(" IS NOT NULL");
            },
        }
        assert(s@ =~= old(s)@ + self.text());
    }
}

/// What of a column a list of columns shows.
#[derive(Clone, Copy, Debug, PartialEq, Eq, Structural)]
pub enum Side {
    Names,
    Givens,
    Sets,
}

impl Assign {
    /// The text of one side.
    pub open spec fn side_text(self, side: Side) -> Seq<char> {
        match side {
            Side::Names => self.column@,
            Side::Givens => self.given_text(),
            Side::Sets => self.set_text(),
        }
    }
}

/// The columns with commas between them.
pub open spec fn columns_text(columns: Seq<Assign>, side: Side) -> Seq<char>
    decreases columns.len(),
{
    if columns.len() == 0 {
        Seq::empty()
    } else if columns.len() == 1 {
        columns[0].side_text(side)
    } else {
        columns_text(columns.drop_last(), side) + ", "@ + columns.last().side_text(side)
    }
}

/// The tests, all of which a row has to pass.
pub open spec fn tests_text(tests: Seq<Test>) -> Seq<char>
    decreases tests.len(),
{
    if tests.len() == 0 {
        Seq::empty()
    } else if tests.len() == 1 {
        tests[0].text()
    } else {
        tests_text(tests.drop_last()) + " AND "@ + tests.last().text()
    }
}

fn append_columns(s: &mut String, columns: &Vec<Assign>, side: Side)
    ensures
        final(s)@ == old(s)@ + columns_text(columns@, side),
{
    let mut i: usize = 0;
    assert(s@ =~= old(s)@ + columns_text(columns@.take(0), side));
    while i < columns.len()
        invariant
            i <= columns.len(),
            s@ == old(s)@ + columns_text(columns@.take(i as int), side),
        decreases columns.len() - i,
    {
        let ghost before = s@;
        if i > 0 {
            s.append(", ");
        }
        match side {
            Side::Names => {
                s.append(columns[i].column);
            },
            Side::Givens => {
                columns[i].append_given(s);
            },
            Side::Sets => {
                s.append(columns[i].column);
                s.append(" = ");
                columns[i].append_given(s);
            },
        }
        proof {
            let part = columns@.take(i + 1);
            assert(part.drop_last() =~= columns@.take(i as int));
            assert(part.last() == columns@[i as int]);
            if i == 0 {
                assert(columns@.take(0).len() == 0);
                assert(before =~= old(s)@);
                assert(part[0] == columns@[0]);
            }
            assert(s@ =~= old(s)@ + columns_text(part, side));
        }
        i += 1;
    }
    assert(columns@.take(columns@.len() as int) =~= columns@);
}

fn append_tests(s: &mut String, tests: &Vec<Test>)
    ensures
        final(s)@ == old(s)@ + tests_text(tests@),
{
    let mut i: usize = 0;
    assert(s@ =~= old(s)@ + tests_text(tests@.take(0)));
    while i < tests.len()
        invariant
            i <= tests.len(),
            s@ == old(s)@ + tests_text(tests@.take(i as int)),
        decreases tests.len() - i,
    {
        let ghost before = s@;
        if i > 0 {
            s.append(" AND ");
        }
        tests[i].append_to(s);
        proof {
            let part = tests@.take(i + 1);
            assert(part.drop_last() =~= tests@.take(i as int));
            assert(part.last() == tests@[i as int]);
            if i == 0 {
                assert(before =~= old(s)@);
                assert(part[0] == tests@[0]);
            }
            assert(s@ =~= old(s)@ + tests_text(part));
        }
        i += 1;
    }
    assert(tests@.take(tests@.len() as int) =~= tests@);
}

impl Form {
    /// The text of the statement.
    pub open spec fn text(self) -> Seq<char> {
        match self.verb {
            Verb::Insert => "INSERT INTO "@ + self.table + " ("@ + columns_text(
                self.columns,
                Side::Names,
            ) + ") VALUES ("@ + columns_text(self.columns, Side::Givens) + ")"@,
            Verb::Replace => "INSERT OR REPLACE INTO "@ + self.table + " ("@ + columns_text(
                self.columns,
                Side::Names,
            ) + ") VALUES ("@ + columns_text(self.columns, Side::Givens) + ")"@,
            Verb::Update => "UPDATE "@ + self.table + " SET "@ + columns_text(
                self.columns,
                Side::Sets,
            ) + " WHERE "@ + tests_text(self.tests),
            Verb::Select => "SELECT "@ + columns_text(self.columns, Side::Names) + " FROM "@
                + self.table + " WHERE "@ + tests_text(self.tests),
            Verb::Count => "SELECT COUNT(*) FROM "@ + self.table + " WHERE "@ + tests_text(
                self.tests,
            ),
        }
    }

    /// Whether the statement goes for a row.
    pub open spec fn hits(self, bound: Seq<Bound>, row: Row) -> bool {
        forall|k: int| 0 <= k < self.tests.len() ==> (#[trigger] self.tests[k]).passes(bound, row)
    }

    /// A row with the first `n` columns assigned.
    pub open spec fn given(
        self,
        bound: Seq<Bound>,
        row: Row,
        file_of: spec_fn(Bound) -> Bound,
        n: int,
    ) -> Row
        decreases n,
    {
        if n <= 0 {
            row
        } else {
            self.given(bound, row, file_of, n - 1).insert(
                self.columns[n - 1].column@,
                self.columns[n - 1].value(bound, row, file_of),
            )
        }
    }

    /// What the statement makes of a row: of one that it changes, or of a row of
    /// defaults where it adds one.
    pub open spec fn makes(
        self,
        bound: Seq<Bound>,
        row: Row,
        file_of: spec_fn(Bound) -> Bound,
    ) -> Row {
        self.given(bound, row, file_of, self.columns.len() as int)
    }
}

impl Shape {
    /// The text of the statement.
    pub fn text(&self) -> (r: String)
        ensures
            r@ == self@.text(),
    {
        let mut s = String::new();
        match self.verb {
            Verb::Insert => {
                s.append("INSERT INTO ");
                s.append(self.table);
                s.append(" (");
                append_columns(&mut s, &self.columns, Side::Names);
                s.append(") VALUES (");
                append_columns(&mut s, &self.columns, Side::Givens);
                s.append(")");
            },
            Verb::Replace => {
                s.append("INSERT OR REPLACE INTO ");
                s.append(self.table);
                s.append(" (");
                append_columns(&mut s, &self.columns, Side::Names);
                s.append(") VALUES (");
                append_columns(&mut s, &self.columns, Side::Givens);
                s.append(")");
            },
            Verb::Update => {
                s.append("UPDATE ");
                s.append(self.table);
                s.append(" SET ");
                append_columns(&mut s, &self.columns, Side::Sets);
                s.append(" WHERE ");
                append_tests(&mut s, &self.tests);
            },
            Verb::Select => {
                s.append("SELECT ");
                append_columns(&mut s, &self.columns, Side::Names);
                s.append(" FROM ");
                s.append(self.table);
                s.append(" WHERE ");
                append_tests(&mut s, &self.tests);
            },
            Verb::Count => {
                s.append("SELECT COUNT(*) FROM ");
                s.append(self.table);
                s.append(" WHERE ");
                append_tests(&mut s, &self.tests);
            },
        }
        assert(s@ =~= self@.text());
        s
    }

    /// The statement with the values for its placeholders.
    pub(crate) fn call(&self, params: Vec<SqlValue>) -> (r: SqlCall)
        ensures
            r.sql@ == self@.text(),
            r.params == params,
    {
        SqlCall { sql: self.text(), params }
    }
}

/// The parts of a query for the values of a column that several rows share.
pub struct GroupForm {
    pub column: Seq<char>,
    pub table: Seq<char>,
    pub tests: Seq<Test>,
    /// More rows than this share the value.
    pub more_than: u64,
    /// The least value that this column has among them is the number.
    pub least: Seq<char>,
    pub number: u64,
}

/// The parts of a query for the values of a column that several rows share.
#[derive(Clone, Debug)]
pub struct GroupShape {
    pub column: &'static str,
    pub table: &'static str,
    pub tests: Vec<Test>,
    pub more_than: u64,
    pub least: &'static str,
    pub number: u64,
}

impl View for GroupShape {
    type V = GroupForm;

    open spec fn view(&self) -> GroupForm {
        GroupForm {
            column: self.column@,
            table: self.table@,
            tests: self.tests@,
            more_than: self.more_than,
            least: self.least@,
            number: self.number,
        }
    }
}

impl GroupForm {
    /// The text of the query.
    pub open spec fn text(self) -> Seq<char> {
        "SELECT "@ + self.column + " FROM "@ + self.table + " WHERE "@ + tests_text(self.tests)
            + " GROUP BY "@ + self.column + " HAVING COUNT(*) > "@ + dec_nat(self.more_than as nat)
            + " AND MIN("@ + self.least + ") = "@ + dec_nat(self.number as nat) + " ORDER BY "@
            + self.column
    }

    /// Picks the rows that pass the tests and have a value.
    pub open spec fn sharing(self, bound: Seq<Bound>, value: Bound) -> spec_fn(Row) -> bool {
        |row: Row|
            row[self.column] == value && forall|k: int|
                0 <= k < self.tests.len() ==> (#[trigger] self.tests[k]).passes(bound, row)
    }

    /// Whether the query gives a value.
    pub open spec fn takes(self, bound: Seq<Bound>, rows: Seq<Row>, value: Bound) -> bool {
        &&& crate::db::model::files::hits(rows, self.sharing(bound, value)) > self.more_than
        &&& exists|i: int|
            0 <= i < rows.len() && self.sharing(bound, value)(#[trigger] rows[i])
                && rows[i][self.least] == Bound::Int(self.number as int)
        &&& forall|i: int|
            0 <= i < rows.len() && self.sharing(bound, value)(#[trigger] rows[i])
                ==> rows[i][self.least]->Int_0 >= self.number
    }
}

impl GroupShape {
    /// The text of the query.
    pub fn text(&self) -> (r: String)
        ensures
            r@ == self@.text(),
    {
        let mut s = String::new();
        s.append("SELECT ");
        s.append(self.column);
        s.append(" FROM ");
        s.append(self.table);
        s.append(" WHERE ");
        append_tests(&mut s, &self.tests);
        s.append(" GROUP BY ");
        s.append(self.column);
        s.append(" HAVING COUNT(*) > ");
        let more_than = u64_text(self.more_than);
        s.append(more_than.as_str());
        s.append(" AND MIN(");
        s.append(self.least);
        s.append(") = ");
        let number = u64_text(self.number);
        s.append(number.as_str());
        s.append(" ORDER BY ");
        s.append(self.column);
        assert(s@ =~= self@.text());
        s
    }
}

/// A column that is given the value bound to a placeholder.
pub open spec fn put(column: &'static str, n: u64) -> Assign {
    Assign { column, term: Term::Param(n) }
}

/// A column that is given the value bound to a placeholder.
pub(crate) fn assign(column: &'static str, n: u64) -> (r: Assign)
    ensures
        r == put(column, n),
{
    Assign { column, term: Term::Param(n) }
}

/// A column that is shown.
pub open spec fn shown(column: &'static str) -> Assign {
    Assign { column, term: Term::Own }
}

/// A column that is shown.
pub(crate) fn show(column: &'static str) -> (r: Assign)
    ensures
        r == shown(column),
{
    Assign { column, term: Term::Own }
}

/// Where no file is looked for.
pub open spec fn no_file() -> spec_fn(Bound) -> Bound {
    |b: Bound| Bound::Null
}

/// A text that may be absent, as a column has it.
pub open spec fn text_or_null(t: Option<Seq<char>>) -> Bound {
    if t is Some {
        Bound::Text(t->0)
    } else {
        Bound::Null
    }
}

/// A number that may be absent, as a column has it.
pub open spec fn int_or_null(n: Option<int>) -> Bound {
    if n is Some {
        Bound::Int(n->0)
    } else {
        Bound::Null
    }
}

} // verus!
