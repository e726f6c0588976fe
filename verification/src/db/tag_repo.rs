//! Reads of tags: the queries, and what their rows mean.
use vstd::prelude::*;
use vstd::string::*;

use crate::db::convert::{first_fault, parse_uuid_column, stored_uuid, uuid_fault, Fault};
use crate::db::lists::{tags_of_files, tags_of_files_query, List};
use crate::db::lookups::Lookup;
use crate::db::sql::{uuid_value, Bound, SqlCall, SqlValue};
use crate::db::writer::file::hash_value;
use crate::db::writer::tag::TagWriteCmd;
use crate::errors::CoreError;
use crate::ids::Uuid;
use crate::tag::{is_invalid_tag, lowered, nfc_form, normalize, trimmed, Tag, MAX_TAG_LEN};
use crate::text::{cat, debug_form, dec_nat, same_text};
use crate::types::{parse_hash, BlakeHash, DeviceId};

verus! {

/// The command for the tag that a user names: the name is brought to its normal
/// form first, and a name without one is refused.
pub fn upsert_tag(raw: &str, device: DeviceId) -> (r: Result<TagWriteCmd, CoreError>)
    ensures
        match r {
            Ok(cmd) => {
                &&& trimmed(raw@).len() > 0
                &&& lowered(nfc_form(trimmed(raw@))).len() <= MAX_TAG_LEN
                &&& cmd matches TagWriteCmd::UpsertTag { name, device: d } && d == device && name@
                    == lowered(nfc_form(trimmed(raw@)))
            },
            Err(e) => {
                ||| trimmed(raw@).len() == 0 && is_invalid_tag(e, "tag name is empty"@)
                ||| trimmed(raw@).len() > 0 && lowered(nfc_form(trimmed(raw@))).len() > MAX_TAG_LEN
                    && is_invalid_tag(e, "tag exceeds 64 chars: "@ + debug_form(raw@))
            },
        },
{
    match normalize(raw) {
        Ok(name) => Ok(TagWriteCmd::UpsertTag { name, device }),
        Err(e) => Err(e),
    }
}

/// A row of the query that lists tags.
#[derive(Clone, Debug)]
pub struct TagRow {
    pub id: String,
    pub name: String,
    pub first_seen: String,
}

impl TagRow {
    /// What is wrong with the row.
    pub open spec fn fault(self) -> Option<Fault> {
        uuid_fault(self.id@, "invalid uuid in db: "@)
    }

    /// The tag of the row.
    pub open spec fn tag(self) -> Tag {
        Tag { id: stored_uuid(self.id@), name: self.name, first_seen: self.first_seen }
    }

    /// Reads the row.
    pub fn read(&self) -> (r: Result<Tag, CoreError>)
        ensures
            match self.fault() {
                None => r == Ok::<Tag, CoreError>(self.tag()),
                Some(f) => r matches Err(e) && f.reported_by(e),
            },
    {
        match parse_uuid_column(self.id.as_str(), "invalid uuid in db: ") {
            Ok(id) => Ok(
                Tag { id, name: self.name.clone(), first_seen: self.first_seen.clone() },
            ),
            Err(e) => Err(e),
        }
    }
}

/// Whether the row at `k` is the first with a fault, and an error reports it.
pub open spec fn first_bad_tag(rows: Seq<TagRow>, k: int, e: CoreError) -> bool {
    &&& 0 <= k < rows.len()
    &&& forall|j: int| 0 <= j < k ==> (#[trigger] rows[j]).fault() is None
    &&& rows[k].fault() matches Some(f) && f.reported_by(e)
}

/// The query that lists tags by name.
pub fn list_tags_query() -> (r: SqlCall)
    ensures
        r.is(List::Tags.sql(), Seq::<Bound>::empty()),
{
    List::Tags.query().call(Vec::new())
}

/// Reads the rows of the list of tags.
pub fn list_tags(rows: &Vec<TagRow>) -> (r: Result<Vec<Tag>, CoreError>)
    ensures
        match r {
            Ok(out) => out@.len() == rows@.len() && forall|i: int|
                0 <= i < rows@.len() ==> (#[trigger] rows@[i]).fault() is None && out@[i]
                    == rows@[i].tag(),
            Err(e) => exists|k: int| first_bad_tag(rows@, k, e),
        },
{
    let mut out: Vec<Tag> = Vec::new();
    let mut i: usize = 0;
    while i < rows.len()
        invariant
            i <= rows.len(),
            out@.len() == i,
            forall|j: int|
                0 <= j < i ==> (#[trigger] rows@[j]).fault() is None && out@[j] == rows@[j].tag(),
        decreases rows.len() - i,
    {
        match rows[i].read() {
            Ok(tag) => out.push(tag),
            Err(e) => {
                assert(first_bad_tag(rows@, i as int, e));
                return Err(e);
            },
        }
        i += 1;
    }
    Ok(out)
}

/// The placeholders `?1` to `?n`, with commas between them.
pub open spec fn placeholders(n: nat) -> Seq<char>
    decreases n,
{
    if n == 0 {
        Seq::empty()
    } else if n == 1 {
        "?"@ + dec_nat(1)
    } else {
        placeholders((n - 1) as nat) + ", ?"@ + dec_nat(n)
    }
}

/// The query for the tags of several files; there is none for no files.
pub fn tags_for_hashes_query(hashes: &Vec<BlakeHash>) -> (r: Option<SqlCall>)
    ensures
        match r {
            None => hashes@.len() == 0,
            Some(call) => hashes@.len() > 0 && call.is(
                tags_of_files(hashes@.len() as u64).text(),
                hashes@.map_values(|h: BlakeHash| Bound::Text(h.hex())),
            ),
        },
{
    if hashes.len() == 0 {
        return None;
    }
    let mut params: Vec<SqlValue> = Vec::new();
    let mut i: usize = 0;
    while i < hashes.len()
        invariant
            i <= hashes.len(),
            params@.len() == i,
            forall|j: int|
                0 <= j < i ==> (#[trigger] params@[j])@ == Bound::Text(hashes@[j].hex()),
        decreases hashes.len() - i,
    {
        params.push(hash_value(&hashes[i]));
        i += 1;
    }
    Some(tags_of_files_query(hashes.len() as u64).call(params))
}

/// A row of the query for the tags of several files.
#[derive(Clone, Debug)]
pub struct HashTagRow {
    pub hash: String,
    pub tag: TagRow,
}

/// What is wrong with a stored hash of a file that carries a tag.
pub open spec fn link_fault(hash: Seq<char>) -> Option<Fault> {
    match parse_hash(hash) {
        Ok(_) => None,
        Err(m) => Some(Fault::Internal("invalid hash in db: "@ + ("invalid hash hex: "@ + m))),
    }
}

/// Reads the stored hash of a file that carries a tag.
fn parse_link_hash(s: &str) -> (r: Result<BlakeHash, CoreError>)
    ensures
        match link_fault(s@) {
            None => r matches Ok(h) && h.hex() == s@,
            Some(f) => r matches Err(e) && f.reported_by(e),
        },
{
    match BlakeHash::parse_hex(s) {
        Ok(h) => Ok(h),
        Err(e) => {
            let m = e.message();
            Err(CoreError::Internal(cat("invalid hash in db: ", m.as_str())))
        },
    }
}

impl HashTagRow {
    /// What is wrong with the row.
    pub open spec fn fault(self) -> Option<Fault> {
        first_fault(link_fault(self.hash@), self.tag.fault())
    }
}

/// The tags of a file, in the order of the rows.
pub open spec fn tags_of(rows: Seq<HashTagRow>, hash: Seq<char>) -> Seq<Tag>
    decreases rows.len(),
{
    if rows.len() == 0 {
        Seq::empty()
    } else {
        let earlier = tags_of(rows.drop_last(), hash);
        if rows.last().hash@ == hash {
            earlier.push(rows.last().tag.tag())
        } else {
            earlier
        }
    }
}

/// Whether a list groups the rows by file: no file twice, every file of a row
/// once, and with each file its tags.
pub open spec fn grouped(rows: Seq<HashTagRow>, out: Seq<(BlakeHash, Vec<Tag>)>) -> bool {
    &&& forall|i: int, j: int|
        0 <= i < out.len() && 0 <= j < out.len() && (#[trigger] out[i]).0.hex() == (
        #[trigger] out[j]).0.hex() ==> i == j
    &&& forall|j: int|
        0 <= j < rows.len() ==> exists|i: int|
            0 <= i < out.len() && (#[trigger] out[i]).0.hex() == (#[trigger] rows[j]).hash@
    &&& forall|i: int|
        0 <= i < out.len() ==> (#[trigger] out[i]).1@ == tags_of(rows, out[i].0.hex())
            && out[i].1@.len() > 0
}

/// Whether the row at `k` is the first with a fault, and an error reports it.
pub open spec fn first_bad_link(rows: Seq<HashTagRow>, k: int, e: CoreError) -> bool {
    &&& 0 <= k < rows.len()
    &&& forall|j: int| 0 <= j < k ==> (#[trigger] rows[j]).fault() is None
    &&& rows[k].fault() matches Some(f) && f.reported_by(e)
}

/// The place of a file in a list.
fn position(list: &Vec<(BlakeHash, Vec<Tag>)>, hex: &str) -> (r: Option<usize>)
    ensures
        match r {
            Some(k) => k < list@.len() && list@[k as int].0.hex() == hex@,
            None => forall|i: int| 0 <= i < list@.len() ==> (#[trigger] list@[i]).0.hex() != hex@,
        },
{
    let mut k: usize = 0;
    while k < list.len()
        invariant
            k <= list.len(),
            forall|i: int| 0 <= i < k ==> (#[trigger] list@[i]).0.hex() != hex@,
        decreases list.len() - k,
    {
        let text = list[k].0.to_hex();
        if same_text(text.as_str(), hex) {
            return Some(k);
        }
        k += 1;
    }
    None
}

proof fn lemma_no_tags(rows: Seq<HashTagRow>, hash: Seq<char>)
    requires
        forall|j: int| 0 <= j < rows.len() ==> (#[trigger] rows[j]).hash@ != hash,
    ensures
        tags_of(rows, hash) == Seq::<Tag>::empty(),
    decreases rows.len(),
{
    if rows.len() > 0 {
        let earlier = rows.drop_last();
        assert forall|j: int| 0 <= j < earlier.len() implies (#[trigger] earlier[j]).hash@
            != hash by {
            assert(rows[j].hash@ != hash);
        }
        lemma_no_tags(earlier, hash);
        assert(rows[rows.len() - 1].hash@ != hash);
    }
}

/// Reads the rows of the tags of several files, and groups them by file.
pub fn tags_for_hashes(rows: &Vec<HashTagRow>) -> (r: Result<
    Vec<(BlakeHash, Vec<Tag>)>,
    CoreError,
>)
    ensures
        match r {
            Ok(out) => (forall|i: int|
                0 <= i < rows@.len() ==> (#[trigger] rows@[i]).fault() is None) && grouped(
                rows@,
                out@,
            ),
            Err(e) => exists|k: int| first_bad_link(rows@, k, e),
        },
{
    let mut out: Vec<(BlakeHash, Vec<Tag>)> = Vec::new();
    let mut i: usize = 0;
    while i < rows.len()
        invariant
            i <= rows.len(),
            forall|j: int| 0 <= j < i ==> (#[trigger] rows@[j]).fault() is None,
            grouped(rows@.take(i as int), out@),
        decreases rows.len() - i,
    {
        let row = &rows[i];
        let hash = match parse_link_hash(row.hash.as_str()) {
            Ok(h) => h,
            Err(e) => {
                assert(first_bad_link(rows@, i as int, e));
                return Err(e);
            },
        };
        let tag = match row.tag.read() {
            Ok(t) => t,
            Err(e) => {
                assert(first_bad_link(rows@, i as int, e));
                return Err(e);
            },
        };
        let ghost before = rows@.take(i as int);
        let ghost now = rows@.take(i + 1);
        let ghost old_out = out@;
        proof {
            assert(now.drop_last() =~= before);
            assert(now.last() == *row);
        }
        match position(&out, row.hash.as_str()) {
            Some(k) => {
                let (key, mut tags) = out.remove(k);
                tags.push(tag);
                out.insert(k, (key, tags));
                proof {
                    assert(out@.len() == old_out.len());
                    assert forall|m: int| 0 <= m < out@.len() implies (
                    #[trigger] out@[m]).0.hex() == old_out[m].0.hex() && out@[m].1@ == tags_of(
                        now,
                        out@[m].0.hex(),
                    ) by {
                        if m != k as int {
                            assert(old_out[m].0.hex() != row.hash@) by {
                                assert(old_out[k as int].0.hex() == row.hash@);
                            }
                            assert(old_out[m].1@ == tags_of(before, old_out[m].0.hex()));
                        } else {
                            assert(old_out[k as int].1@ == tags_of(before, row.hash@));
                        }
                    }
                    assert forall|j: int| 0 <= j < now.len() implies exists|m: int|
                        0 <= m < out@.len() && (#[trigger] out@[m]).0.hex() == (
                        #[trigger] now[j]).hash@ by {
                        if j < before.len() {
                            let m = choose|m: int|
                                0 <= m < old_out.len() && (#[trigger] old_out[m]).0.hex() == (
                                #[trigger] before[j]).hash@;
                            assert(out@[m].0.hex() == old_out[m].0.hex());
                        } else {
                            assert(out@[k as int].0.hex() == now[j].hash@);
                        }
                    }
                    assert forall|a: int, b: int|
                        0 <= a < out@.len() && 0 <= b < out@.len() && (#[trigger] out@[a]).0.hex()
                            == (#[trigger] out@[b]).0.hex() implies a == b by {
                        assert(out@[a].0.hex() == old_out[a].0.hex());
                        assert(out@[b].0.hex() == old_out[b].0.hex());
                    }
                }
            },
            None => {
                let tags: Vec<Tag> = vec![tag];
                let ghost listed = tags@;
                out.push((hash, tags));
                proof {
                    assert forall|j: int| 0 <= j < before.len() implies (
                    #[trigger] before[j]).hash@ != row.hash@ by {
                        let m = choose|m: int|
                            0 <= m < old_out.len() && (#[trigger] old_out[m]).0.hex() == (
                            #[trigger] before[j]).hash@;
                        assert(old_out[m].0.hex() != row.hash@);
                    }
                    lemma_no_tags(before, row.hash@);
                    assert(listed =~= tags_of(now, row.hash@));
                    assert forall|m: int| 0 <= m < out@.len() implies (#[trigger] out@[m]).1@
                        == tags_of(now, out@[m].0.hex()) && out@[m].1@.len() > 0 by {
                        if m < old_out.len() {
                            assert(old_out[m].0.hex() != row.hash@);
                            assert(old_out[m].1@ == tags_of(before, old_out[m].0.hex()));
                        }
                    }
                    assert forall|j: int| 0 <= j < now.len() implies exists|m: int|
                        0 <= m < out@.len() && (#[trigger] out@[m]).0.hex() == (
                        #[trigger] now[j]).hash@ by {
                        if j < before.len() {
                            let m = choose|m: int|
                                0 <= m < old_out.len() && (#[trigger] old_out[m]).0.hex() == (
                                #[trigger] before[j]).hash@;
                            assert(out@[m].0.hex() == old_out[m].0.hex());
                        } else {
                            assert(out@[out@.len() - 1].0.hex() == now[j].hash@);
                        }
                    }
                }
            },
        }
        i += 1;
    }
    proof {
        assert(rows@.take(rows@.len() as int) =~= rows@);
    }
    Ok(out)
}

/// The query for the files that carry a tag.
pub fn files_with_tag_query(tag_id: Uuid) -> (r: SqlCall)
    ensures
        r.is(Lookup::TaggedHashes.sql(), seq![Bound::Text(tag_id.text())]),
{
    let params: Vec<SqlValue> = vec![uuid_value(tag_id)];
    Lookup::TaggedHashes.shape().call(params)
}

/// Whether the text at `k` is the first that is no hash, and an error reports it.
pub open spec fn first_bad_hash(rows: Seq<String>, k: int, e: CoreError) -> bool {
    &&& 0 <= k < rows.len()
    &&& forall|j: int| 0 <= j < k ==> link_fault((#[trigger] rows[j])@) is None
    &&& link_fault(rows[k]@) matches Some(f) && f.reported_by(e)
}

/// Reads the hashes of the files that carry a tag.
pub fn files_with_tag(rows: &Vec<String>) -> (r: Result<Vec<BlakeHash>, CoreError>)
    ensures
        match r {
            Ok(out) => out@.len() == rows@.len() && forall|i: int|
                0 <= i < rows@.len() ==> link_fault((#[trigger] rows@[i])@) is None
                    && out@[i].hex() == rows@[i]@,
            Err(e) => exists|k: int| first_bad_hash(rows@, k, e),
        },
{
    let mut out: Vec<BlakeHash> = Vec::new();
    let mut i: usize = 0;
    while i < rows.len()
        invariant
            i <= rows.len(),
            out@.len() == i,
            forall|j: int|
                0 <= j < i ==> link_fault((#[trigger] rows@[j])@) is None && out@[j].hex()
                    == rows@[j]@,
        decreases rows.len() - i,
    {
        match parse_link_hash(rows[i].as_str()) {
            Ok(h) => out.push(h),
            Err(e) => {
                assert(first_bad_hash(rows@, i as int, e));
                return Err(e);
            },
        }
        i += 1;
    }
    Ok(out)
}

/// The query that counts the files that carry a tag.
pub fn count_files_for_tag_query(tag_id: Uuid) -> (r: SqlCall)
    ensures
        r.is(Lookup::TaggedCount.sql(), seq![Bound::Text(tag_id.text())]),
{
    let params: Vec<SqlValue> = vec![uuid_value(tag_id)];
    Lookup::TaggedCount.shape().call(params)
}

} // verus!
