//! Queries on several tables, by their parts. The text of a query is made of its
//! parts, and so is what it gives back.
use vstd::prelude::*;
use vstd::string::*;

use crate::db::model::reads::text_le;
use crate::db::shape::Row;
use crate::db::sql::{Bound, SqlCall, SqlValue};
use crate::db::tag_repo::placeholders;
use crate::text::{dec_nat, u64_text};

verus! {

/// A column of one of the tables of a query.
#[derive(Clone, Copy, Debug)]
pub struct Col {
    /// The place of the table in the query, the first being 0.
    pub slot: u64,
    /// The name of the table in the query.
    pub of: &'static str,
    pub name: &'static str,
}

/// A condition of a query.
#[derive(Clone, Copy, Debug)]
pub enum Cond {
    /// Two columns have the same value.
    Same(Col, Col),
    /// The column has the value bound to this placeholder.
    Equals(Col, u64),
    /// The column has this text.
    Says(Col, &'static str),
    /// The column is NULL.
    Absent(Col),
    /// The file in the first slot is the file of the location in the second: it has the
    /// hash of the location, or, where no file has that, the identifier that the location
    /// names.
    FileOf(u64, u64),
    /// The column has one of the values bound to the first placeholders, so many of them.
    Among(Col, u64),
}

/// A table that is joined.
#[derive(Clone, Debug)]
pub struct Join {
    /// Whether rows stay without a partner.
    pub left: bool,
    pub table: &'static str,
    pub name: &'static str,
    pub conds: Vec<Cond>,
}

/// The parts of a query.
#[derive(Clone, Debug)]
pub struct JoinQuery {
    /// Whether equal rows are given once.
    pub distinct: bool,
    pub columns: Vec<Col>,
    pub table: &'static str,
    pub name: &'static str,
    pub joins: Vec<Join>,
    pub conds: Vec<Cond>,
    /// Whether rows whose first ordering column is NULL come last.
    pub nulls_last: bool,
    /// A column of times by which, after that, the latest come first.
    pub latest: Option<Col>,
    pub order: Vec<Col>,
    /// How many rows there are at most.
    pub limit: Limit,
}

/// How many rows a query gives at most.
#[derive(Clone, Copy, Debug, PartialEq, Eq, Structural)]
pub enum Limit {
    All,
    /// As many as are bound to this placeholder.
    Param(u64),
    One,
}

/// The parts of a joined table.
pub struct JoinForm {
    pub left: bool,
    pub table: Seq<char>,
    pub name: Seq<char>,
    pub conds: Seq<Cond>,
}

/// The parts of a query.
pub struct QueryForm {
    pub distinct: bool,
    pub columns: Seq<Col>,
    pub table: Seq<char>,
    pub name: Seq<char>,
    pub joins: Seq<JoinForm>,
    pub conds: Seq<Cond>,
    pub nulls_last: bool,
    pub latest: Option<Col>,
    pub order: Seq<Col>,
    pub limit: Limit,
}

impl View for Join {
    type V = JoinForm;

    open spec fn view(&self) -> JoinForm {
        JoinForm {
            left: self.left,
            table: self.table@,
            name: self.name@,
            conds: self.conds@,
        }
    }
}

impl View for JoinQuery {
    type V = QueryForm;

    open spec fn view(&self) -> QueryForm {
        QueryForm {
            distinct: self.distinct,
            columns: self.columns@,
            table: self.table@,
            name: self.name@,
            joins: self.joins@.map_values(|j: Join| j@),
            conds: self.conds@,
            nulls_last: self.nulls_last,
            latest: self.latest,
            order: self.order@,
            limit: self.limit,
        }
    }
}

impl Col {
    /// The text of the column.
    pub open spec fn text(self) -> Seq<char> {
        self.of@ + "."@ + self.name@
    }

    pub(crate) fn append_to(&self, s: &mut String)
        ensures
            final(s)@ == old(s)@ + self.text(),
    {
        s.append(self.of);
        s.append(".");
        s.append(self.name);
        assert(s@ =~= old(s)@ + self.text());
    }

    /// The value of the column, `tables` being the rows of each table of the query and
    /// `at` the row that is looked at in each.
    pub open spec fn value(self, tables: Seq<Seq<Row>>, at: Seq<Option<int>>) -> Bound {
        match at[self.slot as int] {
            Some(i) => tables[self.slot as int][i][self.name@],
            None => Bound::Null,
        }
    }
}

fn append_placeholders(s: &mut String, n: u64)
    ensures
        final(s)@ == old(s)@ + placeholders(n as nat),
{
    let mut i: u64 = 0;
    assert(s@ =~= old(s)@ + placeholders(0));
    while i < n
        invariant
            i <= n,
            s@ == old(s)@ + placeholders(i as nat),
        decreases n - i,
    {
        let ghost before = s@;
        if i == 0 {
            s.append("?");
        } else {
            s.append(", ?");
        }
        let digits = u64_text(i + 1);
        s.append(digits.as_str());
        proof {
            if i == 0 {
                assert(before =~= old(s)@);
            }
            assert(s@ =~= old(s)@ + placeholders((i + 1) as nat));
        }
        i += 1;
    }
}

/// Whether some file has a hash.
pub open spec fn some_file_has(files: Seq<Row>, hash: Bound) -> bool {
    exists|g: int| 0 <= g < files.len() && (#[trigger] files[g])["blake3_hash"@] == hash
}

impl Cond {
    /// The text of the condition.
    pub open spec fn text(self) -> Seq<char> {
        match self {
            Cond::Same(a, b) => a.text() + " = "@ + b.text(),
            Cond::Equals(a, n) => a.text() + " = ?"@ + dec_nat(n as nat),
            Cond::Says(a, w) => a.text() + " = '"@ + w@ + "'"@,
            Cond::Absent(a) => a.text() + " IS NULL"@,
            Cond::FileOf(_, _) =>
                "(f.blake3_hash = fl.blake3_hash OR (f.file_uuid = fl.file_uuid AND NOT EXISTS (SELECT 1 FROM files g WHERE g.blake3_hash = fl.blake3_hash)))"@,
            Cond::Among(a, n) => a.text() + " IN ("@ + placeholders(n as nat) + ")"@,
        }
    }

    fn append_to(&self, s: &mut String)
        ensures
            final(s)@ == old(s)@ + self.text(),
    {
        match self {
            Cond::Same(a, b) => {
                a.append_to(s);
                s.append(" = ");
                b.append_to(s);
            },
            Cond::Equals(a, n) => {
                a.append_to(s);
                s.append(" = ?");
                let digits = u64_text(*n);
                s.append(digits.as_str());
            },
            Cond::Says(a, w) => {
                a.append_to(s);
                s.append(" = '");
                s.append(w);
                s.append("'");
            },
            Cond::Absent(a) => {
                a.append_to(s);
                s.append(" IS NULL");
            },
            Cond::FileOf(_, _) => {
                s.append(
                    "(f.blake3_hash = fl.blake3_hash OR (f.file_uuid = fl.file_uuid AND NOT EXISTS (SELECT 1 FROM files g WHERE g.blake3_hash = fl.blake3_hash)))",
                );
            },
            Cond::Among(a, n) => {
                a.append_to(s);
                s.append(" IN (");
                append_placeholders(s, *n);
                s.append(")");
            },
        }
        assert(s@ =~= old(s)@ + self.text());
    }

    /// Whether the condition holds of the rows that are looked at.
    pub open spec fn holds(self, bound: Seq<Bound>, tables: Seq<Seq<Row>>, at: Seq<Option<int>>) -> bool {
        match self {
            Cond::Same(a, b) => a.value(tables, at) != Bound::Null && a.value(tables, at)
                == b.value(tables, at),
            Cond::Equals(a, n) => a.value(tables, at) != Bound::Null && a.value(tables, at)
                == bound[n - 1],
            Cond::Says(a, w) => a.value(tables, at) == Bound::Text(w@),
            Cond::Absent(a) => a.value(tables, at) == Bound::Null,
            Cond::FileOf(f, l) => {
                let file = tables[f as int][at[f as int]->0];
                let location = tables[l as int][at[l as int]->0];
                let hash = location["blake3_hash"@];
                if hash != Bound::Null && some_file_has(tables[f as int], hash) {
                    file["blake3_hash"@] == hash
                } else {
                    file["file_uuid"@] != Bound::Null && file["file_uuid"@]
                        == location["file_uuid"@]
                }
            },
            Cond::Among(a, n) => a.value(tables, at) != Bound::Null && exists|k: int|
                0 <= k < n && #[trigger] bound[k] == a.value(tables, at),
        }
    }
}

/// Conditions, all of which have to hold.
pub open spec fn conds_text(conds: Seq<Cond>) -> Seq<char>
    decreases conds.len(),
{
    if conds.len() == 0 {
        Seq::empty()
    } else if conds.len() == 1 {
        conds[0].text()
    } else {
        conds_text(conds.drop_last()) + " AND "@ + conds.last().text()
    }
}

/// Columns with commas between them.
pub open spec fn cols_text(cols: Seq<Col>) -> Seq<char>
    decreases cols.len(),
{
    if cols.len() == 0 {
        Seq::empty()
    } else if cols.len() == 1 {
        cols[0].text()
    } else {
        cols_text(cols.drop_last()) + ", "@ + cols.last().text()
    }
}

/// The names of columns with commas between them.
pub open spec fn names_text(cols: Seq<Col>) -> Seq<char>
    decreases cols.len(),
{
    if cols.len() == 0 {
        Seq::empty()
    } else if cols.len() == 1 {
        cols[0].name@
    } else {
        names_text(cols.drop_last()) + ", "@ + cols.last().name@
    }
}

fn append_names(s: &mut String, cols: &Vec<Col>)
    ensures
        final(s)@ == old(s)@ + names_text(cols@),
{
    let mut i: usize = 0;
    assert(s@ =~= old(s)@ + names_text(cols@.take(0)));
    while i < cols.len()
        invariant
            i <= cols.len(),
            s@ == old(s)@ + names_text(cols@.take(i as int)),
        decreases cols.len() - i,
    {
        let ghost before = s@;
        if i > 0 {
            s.append(", ");
        }
        s.append(cols[i].name);
        proof {
            let part = cols@.take(i + 1);
            assert(part.drop_last() =~= cols@.take(i as int));
            assert(part.last() == cols@[i as int]);
            if i == 0 {
                assert(before =~= old(s)@);
                assert(part[0] == cols@[0]);
            }
            assert(s@ =~= old(s)@ + names_text(part));
        }
        i += 1;
    }
    assert(cols@.take(cols@.len() as int) =~= cols@);
}

fn append_conds(s: &mut String, conds: &Vec<Cond>)
    ensures
        final(s)@ == old(s)@ + conds_text(conds@),
{
    let mut i: usize = 0;
    assert(s@ =~= old(s)@ + conds_text(conds@.take(0)));
    while i < conds.len()
        invariant
            i <= conds.len(),
            s@ == old(s)@ + conds_text(conds@.take(i as int)),
        decreases conds.len() - i,
    {
        let ghost before = s@;
        if i > 0 {
            s.append(" AND ");
        }
        conds[i].append_to(s);
        proof {
            let part = conds@.take(i + 1);
            assert(part.drop_last() =~= conds@.take(i as int));
            assert(part.last() == conds@[i as int]);
            if i == 0 {
                assert(before =~= old(s)@);
                assert(part[0] == conds@[0]);
            }
            assert(s@ =~= old(s)@ + conds_text(part));
        }
        i += 1;
    }
    assert(conds@.take(conds@.len() as int) =~= conds@);
}

fn append_cols(s: &mut String, cols: &Vec<Col>)
    ensures
        final(s)@ == old(s)@ + cols_text(cols@),
{
    let mut i: usize = 0;
    assert(s@ =~= old(s)@ + cols_text(cols@.take(0)));
    while i < cols.len()
        invariant
            i <= cols.len(),
            s@ == old(s)@ + cols_text(cols@.take(i as int)),
        decreases cols.len() - i,
    {
        let ghost before = s@;
        if i > 0 {
            s.append(", ");
        }
        cols[i].append_to(s);
        proof {
            let part = cols@.take(i + 1);
            assert(part.drop_last() =~= cols@.take(i as int));
            assert(part.last() == cols@[i as int]);
            if i == 0 {
                assert(before =~= old(s)@);
                assert(part[0] == cols@[0]);
            }
            assert(s@ =~= old(s)@ + cols_text(part));
        }
        i += 1;
    }
    assert(cols@.take(cols@.len() as int) =~= cols@);
}

impl JoinForm {
    /// The text of the join.
    pub open spec fn text(self) -> Seq<char> {
        (if self.left {
            " LEFT JOIN "@
        } else {
            " JOIN "@
        }) + self.table + " "@ + self.name + " ON "@ + conds_text(self.conds)
    }

    /// Whether the conditions of the join hold of the rows that are looked at.
    pub open spec fn meets(self, bound: Seq<Bound>, tables: Seq<Seq<Row>>, at: Seq<Option<int>>) -> bool {
        all_hold(self.conds, bound, tables, at)
    }
}

/// Whether conditions hold of the rows that are looked at.
pub open spec fn all_hold(
    conds: Seq<Cond>,
    bound: Seq<Bound>,
    tables: Seq<Seq<Row>>,
    at: Seq<Option<int>>,
) -> bool {
    forall|k: int| 0 <= k < conds.len() ==> (#[trigger] conds[k]).holds(bound, tables, at)
}

impl Join {
    pub(crate) fn append_to(&self, s: &mut String)
        ensures
            final(s)@ == old(s)@ + self@.text(),
    {
        if self.left {
            s.append(" LEFT JOIN ");
        } else {
            s.append(" JOIN ");
        }
        s.append(self.table);
        s.append(" ");
        s.append(self.name);
        s.append(" ON ");
        append_conds(s, &self.conds);
        assert(s@ =~= old(s)@ + self@.text());
    }
}

/// Joins, one after the other.
pub open spec fn joins_text(joins: Seq<JoinForm>) -> Seq<char>
    decreases joins.len(),
{
    if joins.len() == 0 {
        Seq::empty()
    } else {
        joins_text(joins.drop_last()) + joins.last().text()
    }
}

fn append_joins(s: &mut String, joins: &Vec<Join>)
    ensures
        final(s)@ == old(s)@ + joins_text(joins@.map_values(|j: Join| j@)),
{
    let ghost all = joins@.map_values(|j: Join| j@);
    let mut i: usize = 0;
    assert(s@ =~= old(s)@ + joins_text(all.take(0)));
    while i < joins.len()
        invariant
            i <= joins.len(),
            all == joins@.map_values(|j: Join| j@),
            s@ == old(s)@ + joins_text(all.take(i as int)),
        decreases joins.len() - i,
    {
        joins[i].append_to(s);
        proof {
            let part = all.take(i + 1);
            assert(part.drop_last() =~= all.take(i as int));
            assert(part.last() == joins@[i as int]@);
            assert(s@ =~= old(s)@ + joins_text(part));
        }
        i += 1;
    }
    assert(all.take(all.len() as int) =~= all);
}

/// The order of values: NULL first, then numbers, then texts.
pub open spec fn value_le(a: Bound, b: Bound) -> bool {
    match (a, b) {
        (Bound::Null, _) => true,
        (_, Bound::Null) => false,
        (Bound::Int(x), Bound::Int(y)) => x <= y,
        (Bound::Text(x), Bound::Text(y)) => text_le(x, y),
        (Bound::Int(_), Bound::Text(_)) => true,
        _ => false,
    }
}

impl QueryForm {
    /// The text of what the query reads from.
    pub open spec fn from_text(self) -> Seq<char> {
        " FROM "@ + self.table + " "@ + self.name + joins_text(self.joins) + self.where_text()
    }

    /// The text of the conditions.
    pub open spec fn where_text(self) -> Seq<char> {
        if self.conds.len() == 0 {
            Seq::empty()
        } else {
            " WHERE "@ + conds_text(self.conds)
        }
    }

    /// The text of the order.
    pub open spec fn order_text(self) -> Seq<char> {
        if self.order.len() == 0 {
            Seq::empty()
        } else {
            "ORDER BY "@ + self.nulls_text() + self.latest_text() + cols_text(self.order)
        }
    }

    /// The part of the order that puts NULLs last.
    pub open spec fn nulls_text(self) -> Seq<char> {
        if self.nulls_last {
            self.order[0].text() + " IS NULL, "@
        } else {
            Seq::empty()
        }
    }

    /// The part of the order that puts the latest first.
    pub open spec fn latest_text(self) -> Seq<char> {
        match self.latest {
            Some(c) => c.text() + " DESC, "@,
            None => Seq::empty(),
        }
    }

    /// The text of the limit.
    pub open spec fn limit_text(self) -> Seq<char> {
        match self.limit {
            Limit::All => Seq::empty(),
            Limit::Param(n) => " LIMIT ?"@ + dec_nat(n as nat),
            Limit::One => " LIMIT 1"@,
        }
    }

    /// The text of the query.
    pub open spec fn text(self) -> Seq<char> {
        (if self.distinct {
            "SELECT DISTINCT "@
        } else {
            "SELECT "@
        }) + cols_text(self.columns) + self.from_text() + (if self.order.len() == 0 {
            Seq::empty()
        } else {
            " "@ + self.order_text()
        }) + self.limit_text()
    }

    /// The text of the query that gives, of the rows with the same in a column, the first
    /// by the order, and orders what it gives by that column.
    pub open spec fn first_of_each_text(self, per: Col) -> Seq<char> {
        "SELECT "@ + names_text(self.columns) + " FROM (SELECT "@ + cols_text(self.columns)
            + ", ROW_NUMBER() OVER (PARTITION BY "@ + per.text() + " "@ + self.order_text()
            + ") AS place"@ + self.from_text() + ") WHERE place = 1 ORDER BY "@ + per.name@
            + self.limit_text()
    }

    /// Whether the join at `k` goes with the rows that are looked at: with a row that
    /// meets its conditions, or, where it need not have one, with none if no row does.
    pub open spec fn joined(
        self,
        bound: Seq<Bound>,
        tables: Seq<Seq<Row>>,
        at: Seq<Option<int>>,
        k: int,
    ) -> bool {
        match at[k + 1] {
            Some(i) => 0 <= i < tables[k + 1].len() && self.joins[k].meets(bound, tables, at),
            None => self.joins[k].left && forall|i: int|
                0 <= i < tables[k + 1].len() ==> !#[trigger] self.joins[k].meets(
                    bound,
                    tables,
                    at.update(k + 1, Some(i)),
                ),
        }
    }

    /// Whether the query takes these rows.
    pub open spec fn takes(self, bound: Seq<Bound>, tables: Seq<Seq<Row>>, at: Seq<Option<int>>) -> bool {
        &&& at.len() > self.joins.len()
        &&& at[0] matches Some(i) && 0 <= i < tables[0].len()
        &&& forall|k: int|
            0 <= k < self.joins.len() ==> #[trigger] self.joined(bound, tables, at, k)
        &&& all_hold(self.conds, bound, tables, at)
    }

    /// Whether rows come before others, or at the same place: the first ordering column
    /// from `k` on in which they differ decides.
    pub open spec fn le(
        self,
        tables: Seq<Seq<Row>>,
        a: Seq<Option<int>>,
        b: Seq<Option<int>>,
        k: int,
    ) -> bool
        decreases self.order.len() - k,
    {
        if k >= self.order.len() {
            true
        } else {
            let x = self.order[k].value(tables, a);
            let y = self.order[k].value(tables, b);
            if k == 0 && self.nulls_last && x != y && (x == Bound::Null || y == Bound::Null) {
                y == Bound::Null
            } else if k == 0 && self.latest is Some && self.latest->0.value(tables, a)
                != self.latest->0.value(tables, b) {
                value_le(self.latest->0.value(tables, b), self.latest->0.value(tables, a))
            } else if x == y {
                self.le(tables, a, b, k + 1)
            } else {
                value_le(x, y)
            }
        }
    }
}

impl JoinQuery {
    pub(crate) fn append_from(&self, s: &mut String)
        ensures
            final(s)@ == old(s)@ + self@.from_text(),
    {
        s.append(" FROM ");
        s.append(self.table);
        s.append(" ");
        s.append(self.name);
        append_joins(s, &self.joins);
        let ghost head = s@;
        if self.conds.len() > 0 {
            s.append(" WHERE ");
            append_conds(s, &self.conds);
        }
        assert(s@ =~= head + self@.where_text());
        assert(s@ =~= old(s)@ + self@.from_text());
    }

    fn append_order(&self, s: &mut String)
        ensures
            final(s)@ == old(s)@ + self@.order_text(),
    {
        if self.order.len() > 0 {
            s.append("ORDER BY ");
            if self.nulls_last {
                self.order[0].append_to(s);
                s.append(" IS NULL, ");
            }
            let ghost head = s@;
            assert(head =~= old(s)@ + "ORDER BY "@ + self@.nulls_text());
            if let Some(c) = &self.latest {
                c.append_to(s);
                s.append(" DESC, ");
            }
            assert(s@ =~= head + self@.latest_text());
            append_cols(s, &self.order);
        }
        assert(s@ =~= old(s)@ + self@.order_text());
    }

    fn append_limit(&self, s: &mut String)
        ensures
            final(s)@ == old(s)@ + self@.limit_text(),
    {
        match self.limit {
            Limit::All => {},
            Limit::Param(n) => {
                s.append(" LIMIT ?");
                let digits = u64_text(n);
                s.append(digits.as_str());
            },
            Limit::One => {
                s.append(" LIMIT 1");
            },
        }
        assert(s@ =~= old(s)@ + self@.limit_text());
    }

    /// The text of the query.
    pub fn text(&self) -> (r: String)
        ensures
            r@ == self@.text(),
    {
        let mut s = String::new();
        if self.distinct {
            s.append("SELECT DISTINCT ");
        } else {
            s.append("SELECT ");
        }
        append_cols(&mut s, &self.columns);
        self.append_from(&mut s);
        if self.order.len() > 0 {
            s.append(" ");
            self.append_order(&mut s);
        }
        self.append_limit(&mut s);
        assert(s@ =~= self@.text());
        s
    }

    /// The text of the query that gives the first of each.
    pub fn first_of_each(&self, per: &Col) -> (r: String)
        ensures
            r@ == self@.first_of_each_text(*per),
    {
        let mut s = String::new();
        s.append("SELECT ");
        append_names(&mut s, &self.columns);
        s.append(" FROM (SELECT ");
        append_cols(&mut s, &self.columns);
        s.append(", ROW_NUMBER() OVER (PARTITION BY ");
        per.append_to(&mut s);
        s.append(" ");
        self.append_order(&mut s);
        s.append(") AS place");
        self.append_from(&mut s);
        s.append(") WHERE place = 1 ORDER BY ");
        s.append(per.name);
        self.append_limit(&mut s);
        assert(s@ =~= self@.first_of_each_text(*per));
        s
    }

    /// The query with the values for its placeholders.
    pub(crate) fn call(&self, params: Vec<SqlValue>) -> (r: SqlCall)
        ensures
            r.sql@ == self@.text(),
            r.params == params,
    {
        SqlCall { sql: self.text(), params }
    }
}

} // verus!
