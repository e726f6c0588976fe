//! Full-text search: the query, and what its rows mean.
use vstd::prelude::*;
use vstd::string::*;

use crate::db::convert::{parse_file_uuid, stored_uuid, uuid_fault};
use crate::db::joins::{Col, QueryForm};
use crate::db::lists::List;
use crate::db::sql::{text_value, Bound, SqlCall, SqlValue};
use crate::errors::CoreError;
use crate::search::SearchHit;
use crate::text::{cat3, copy_text_opt, dec_nat, u64_text};
use crate::types::FileUuid;

verus! {

pub const SEARCH_HEAD: &'static str = "SELECT sc.file_uuid, sc.blake3_hash, COALESCE((";

pub const SEARCH_BODY: &'static str =
    "), ''), sc.relative_path, search_index.rank FROM search_index JOIN search_content sc ON sc.rowid = search_index.rowid WHERE search_index MATCH ?1";

/// The text of the search query: the rows of the index that match, each with the volume of
/// the location that stands for its file, ordered by a column and so many at most.
pub open spec fn search_text(volume: QueryForm, order: Col, limit: u64) -> Seq<char> {
    SEARCH_HEAD@ + volume.text() + SEARCH_BODY@ + " ORDER BY "@ + order.text() + " LIMIT ?"@
        + dec_nat(limit as nat)
}

/// How well a row matches; the better, the smaller.
pub open spec fn rank() -> Col {
    Col { slot: 0, of: "search_index", name: "rank" }
}

/// A row of the search query.
#[derive(Clone, Debug)]
pub struct SearchRow {
    pub file_uuid: String,
    pub hash: Option<String>,
    pub volume: String,
    pub path: String,
    /// The IEEE 754 bits of the double-precision rank.
    pub rank_bits: u64,
}

impl SearchRow {
    /// The hit of the row.
    pub open spec fn hit(self) -> SearchHit {
        SearchHit {
            file_uuid: FileUuid(stored_uuid(self.file_uuid@)),
            blake3_hash: self.hash,
            volume_id: self.volume,
            relative_path: self.path,
            rank_bits: self.rank_bits,
        }
    }
}

/// Whether the row at `k` is the first without a proper identifier, and an error
/// reports it.
pub open spec fn first_bad_hit(rows: Seq<SearchRow>, k: int, e: CoreError) -> bool {
    &&& 0 <= k < rows.len()
    &&& forall|j: int|
        0 <= j < k ==> uuid_fault((#[trigger] rows[j]).file_uuid@, "bad file_uuid: "@) is None
    &&& uuid_fault(rows[k].file_uuid@, "bad file_uuid: "@) matches Some(f) && f.reported_by(e)
}

/// The query for the files that match, best first.
pub fn search_query(query: &str, limit: u32) -> (r: SqlCall)
    ensures
        r.is(
            search_text(List::VolumeOfHit.form(), rank(), 2),
            seq![Bound::Text(query@), Bound::Int(limit as int)],
        ),
{
    let params: Vec<SqlValue> = vec![text_value(query), SqlValue::Int(limit as i64)];
    let volume = List::VolumeOfHit.query().text();
    let mut sql = cat3(SEARCH_HEAD, volume.as_str(), SEARCH_BODY);
    sql.append(" ORDER BY ");
    let by = Col { slot: 0, of: "search_index", name: "rank" };
    by.append_to(&mut sql);
    sql.append(" LIMIT ?");
    let digits = u64_text(2);
    sql.append(digits.as_str());
    assert(sql@ =~= search_text(List::VolumeOfHit.form(), rank(), 2));
    SqlCall { sql, params }
}

/// Reads the rows of a search.
pub fn search_impl(rows: &Vec<SearchRow>) -> (r: Result<Vec<SearchHit>, CoreError>)
    ensures
        match r {
            Ok(out) => out@.len() == rows@.len() && forall|i: int|
                0 <= i < rows@.len() ==> uuid_fault(
                    (#[trigger] rows@[i]).file_uuid@,
                    "bad file_uuid: "@,
                ) is None && out@[i] == rows@[i].hit(),
            Err(e) => exists|k: int| first_bad_hit(rows@, k, e),
        },
{
    let mut out: Vec<SearchHit> = Vec::new();
    let mut i: usize = 0;
    while i < rows.len()
        invariant
            i <= rows.len(),
            out@.len() == i,
            forall|j: int|
                0 <= j < i ==> uuid_fault((#[trigger] rows@[j]).file_uuid@, "bad file_uuid: "@)
                    is None && out@[j] == rows@[j].hit(),
        decreases rows.len() - i,
    {
        let row = &rows[i];
        let file_uuid = match parse_file_uuid(row.file_uuid.as_str()) {
            Ok(u) => u,
            Err(e) => {
                assert(first_bad_hit(rows@, i as int, e));
                return Err(e);
            },
        };
        out.push(
            SearchHit {
                file_uuid,
                blake3_hash: copy_text_opt(&row.hash),
                volume_id: row.volume.clone(),
                relative_path: row.path.clone(),
                rank_bits: row.rank_bits,
            },
        );
        i += 1;
    }
    Ok(out)
}

} // verus!
