//! The table `search_content`: what building it anew makes of the other tables,
//! what a search gives back of it, and the laws of both.
use vstd::prelude::*;
use vstd::string::*;

use crate::db::model::files::{Catalog, LocationEntry};
use crate::db::model::metadata::MetadataEntry;
use crate::db::model::reads::{
    law_taken_place_is_listed, law_text_order_is_total, law_text_order_is_transitive, pair_le,
    text_le, Query,
};
use crate::db::model::table_reads::{described, describes_hash};
use crate::db::model::tags::TagTables;
use crate::db::search_repo::SearchRow;
use crate::db::writer::file::FileStatement;
use crate::db::writer::search::{rebuild_statements, SearchStatement};
use crate::text::text_opt;

verus! {

/// A row of `search_content`.
pub struct ContentEntry {
    pub file_uuid: Seq<char>,
    pub hash: Option<Seq<char>>,
    pub filename: Seq<char>,
    pub path: Seq<char>,
    pub mime_type: Seq<char>,
    pub camera_model: Seq<char>,
    pub captured_at: Seq<char>,
    pub tags: Seq<char>,
}

/// The tables that the rows are made of.
pub struct Sources {
    pub catalog: Catalog,
    pub metadata: Seq<MetadataEntry>,
    pub tags: TagTables,
}

/// Whether the location at `j` is a live one of the file at `i`.
pub open spec fn live_of(c: Catalog, i: int, j: int) -> bool {
    c.belongs(i, j) && c.locations[j].deleted_at is None
}

/// Whether the location at `a` was seen no later than the one at `b`; of two that
/// were seen at one time the smaller identifier decides.
pub open spec fn seen_le(c: Catalog, a: int, b: int) -> bool {
    pair_le(
        c.locations[a].first_seen,
        c.locations[a].id,
        c.locations[b].first_seen,
        c.locations[b].id,
    )
}

/// Whether the location at `j` stands for the file at `i`: the live one that was
/// seen first.
pub open spec fn represents(c: Catalog, i: int, j: int) -> bool {
    live_of(c, i, j) && forall|k: int| #[trigger] live_of(c, i, k) ==> seen_le(c, j, k)
}

/// A text that may be absent, as the index has it.
pub open spec fn or_empty(t: Option<Seq<char>>) -> Seq<char> {
    match t {
        Some(s) => s,
        None => Seq::empty(),
    }
}

/// Texts with spaces between them.
pub open spec fn spaced(texts: Seq<Seq<char>>) -> Seq<char>
    decreases texts.len(),
{
    if texts.len() == 0 {
        Seq::empty()
    } else if texts.len() == 1 {
        texts[0]
    } else {
        spaced(texts.drop_last()) + seq![' '] + texts.last()
    }
}

/// The list of the names of the live tags of a hash, in no particular order.
pub open spec fn tag_names(t: TagTables, hash: Option<Seq<char>>) -> Query<(int, int), Seq<char>> {
    Query {
        takes: |k: (int, int)|
            {
                &&& 0 <= k.0 < t.links.len()
                &&& 0 <= k.1 < t.tags.len()
                &&& t.links[k.0].deleted_at is None
                &&& t.tags[k.1].deleted_at is None
                &&& t.links[k.0].tag == t.tags[k.1].id
                &&& hash == Some(t.links[k.0].hash)
            },
        shows: |k: (int, int), name: Seq<char>| name == t.tags[k.1].name,
        le: |a: (int, int), b: (int, int)| true,
        limit: None,
    }
}

/// Whether a text holds the names of the live tags of a hash.
pub open spec fn holds_tags(t: TagTables, hash: Option<Seq<char>>, text: Seq<char>) -> bool {
    exists|places: Seq<(int, int)>, names: Seq<Seq<char>>| #[trigger]
        tag_names(t, hash).gives(places, names) && text == spaced(names)
}

/// Whether a row holds the live metadata of its hash, and nothing where there is
/// none.
pub open spec fn holds_metadata(metadata: Seq<MetadataEntry>, e: ContentEntry) -> bool {
    if described(metadata, e.hash) {
        exists|m: int| #[trigger]
            describes_hash(metadata, e.hash, m) && e.mime_type == or_empty(metadata[m].mime_type)
                && e.camera_model == or_empty(metadata[m].camera_model) && e.captured_at
                == or_empty(metadata[m].captured_at)
    } else {
        e.mime_type.len() == 0 && e.camera_model.len() == 0 && e.captured_at.len() == 0
    }
}

/// Whether a row is that of the file at `i`, with the location at `j`.
pub open spec fn row_of(s: Sources, i: int, j: int, e: ContentEntry) -> bool {
    &&& e.file_uuid == s.catalog.files[i].file_uuid
    &&& e.hash == s.catalog.files[i].hash
    &&& e.filename == s.catalog.locations[j].path
    &&& e.path == s.catalog.locations[j].path
    &&& holds_metadata(s.metadata, e)
    &&& holds_tags(s.tags, e.hash, e.tags)
}

/// Whether a row is that of some file, with the location that stands for it.
pub open spec fn made_of_sources(s: Sources, e: ContentEntry) -> bool {
    exists|i: int, j: int| represents(s.catalog, i, j) && #[trigger] row_of(s, i, j, e)
}

/// The rows that are made anew: one for each file with a live location.
pub open spec fn rebuilt(s: Sources) -> Query<(int, int), ContentEntry> {
    Query {
        takes: |k: (int, int)| represents(s.catalog, k.0, k.1),
        shows: |k: (int, int), e: ContentEntry| row_of(s, k.0, k.1, e),
        le: |a: (int, int), b: (int, int)| true,
        limit: None,
    }
}

impl SearchStatement {
    /// Whether the statement makes `after` of the rows `before`.
    pub open spec fn makes(
        self,
        s: Sources,
        before: Seq<ContentEntry>,
        after: Seq<ContentEntry>,
    ) -> bool {
        match self {
            SearchStatement::Clear => after.len() == 0,
            SearchStatement::Fill => exists|places: Seq<(int, int)>, rows: Seq<ContentEntry>|
                #[trigger] rebuilt(s).gives(places, rows) && after == before + rows,
        }
    }
}

/// Whether the statements that build the index anew make `content` of the rows
/// `before`, one after the other.
pub open spec fn rebuilds(s: Sources, before: Seq<ContentEntry>, content: Seq<ContentEntry>) -> bool {
    exists|mid: Seq<ContentEntry>| #[trigger]
        rebuild_statements()[0].makes(s, before, mid) && rebuild_statements()[1].makes(
            s,
            mid,
            content,
        )
}

/// Whether no two rows have the same identifier.
pub open spec fn uuids_are_distinct(content: Seq<ContentEntry>) -> bool {
    forall|a: int, b: int|
        0 <= a < content.len() && 0 <= b < content.len() && (#[trigger] content[a]).file_uuid == (
        #[trigger] content[b]).file_uuid ==> a == b
}

pub(crate) proof fn lemma_one_representative(c: Catalog, i: int, j: int, k: int)
    requires
        c.ids_are_unique(),
        represents(c, i, j),
        represents(c, i, k),
    ensures
        j == k,
{
    assert(live_of(c, i, j) && live_of(c, i, k));
    let (a, b) = (c.locations[j], c.locations[k]);
    law_text_order_is_total(a.first_seen, b.first_seen);
    law_text_order_is_total(a.id, b.id);
    assert(c.locations[j].id == c.locations[k].id);
}

pub(crate) proof fn lemma_rebuilt_places(s: Sources, before: Seq<ContentEntry>, content: Seq<ContentEntry>) -> (places:
    Seq<(int, int)>)
    requires
        rebuilds(s, before, content),
    ensures
        rebuilt(s).gives(places, content),
{
    let mid = choose|mid: Seq<ContentEntry>| #[trigger]
        rebuild_statements()[0].makes(s, before, mid) && rebuild_statements()[1].makes(
            s,
            mid,
            content,
        );
    assert(SearchStatement::Clear.makes(s, before, mid));
    assert(SearchStatement::Fill.makes(s, mid, content));
    let (places, rows) = choose|places: Seq<(int, int)>, rows: Seq<ContentEntry>| #[trigger]
        rebuilt(s).gives(places, rows) && content == mid + rows;
    assert(content =~= rows);
    places
}

pub(crate) proof fn lemma_first_seen_exists(c: Catalog, i: int, j: int) -> (r: int)
    requires
        live_of(c, i, j),
    ensures
        represents(c, i, r),
{
    lemma_first_seen_below(c, i, j, c.locations.len() as int)
}

proof fn lemma_first_seen_below(c: Catalog, i: int, j: int, n: int) -> (r: int)
    requires
        live_of(c, i, j),
        0 <= n <= c.locations.len(),
    ensures
        live_of(c, i, r),
        n == c.locations.len() ==> represents(c, i, r),
        seen_le(c, r, j),
        forall|k: int| 0 <= k < n && #[trigger] live_of(c, i, k) ==> seen_le(c, r, k),
    decreases n,
{
    if n == 0 {
        lemma_seen_order(c, j, j, j);
        j
    } else {
        let r = lemma_first_seen_below(c, i, j, n - 1);
        let k = n - 1;
        lemma_seen_order(c, r, k, j);
        if live_of(c, i, k) && !seen_le(c, r, k) {
            assert forall|m: int| 0 <= m < n && #[trigger] live_of(c, i, m) implies seen_le(
                c,
                k,
                m,
            ) by {
                lemma_seen_order(c, k, r, m);
                lemma_seen_order(c, k, k, m);
            }
            lemma_seen_order(c, k, r, j);
            k
        } else {
            r
        }
    }
}

/// The order by which locations were seen is a total order.
proof fn lemma_seen_order(c: Catalog, a: int, b: int, d: int)
    ensures
        seen_le(c, a, a),
        seen_le(c, a, b) || seen_le(c, b, a),
        seen_le(c, a, b) && seen_le(c, b, d) ==> seen_le(c, a, d),
{
    let (x, y, z) = (c.locations[a], c.locations[b], c.locations[d]);
    law_text_order_is_total(x.first_seen, y.first_seen);
    law_text_order_is_total(x.id, y.id);
    law_text_order_is_total(x.id, x.id);
    law_text_order_is_total(y.first_seen, z.first_seen);
    law_text_order_is_total(x.first_seen, z.first_seen);
    if text_le(x.first_seen, y.first_seen) && text_le(y.first_seen, z.first_seen) {
        law_text_order_is_transitive(x.first_seen, y.first_seen, z.first_seen);
    }
    if text_le(x.id, y.id) && text_le(y.id, z.id) {
        law_text_order_is_transitive(x.id, y.id, z.id);
    }
}

/// Building the index anew leaves one row for each file with a live location,
/// whatever the index held before: with the identifier and the hash of the file, the
/// path of its live location that was seen first, and the live metadata and the
/// names of the live tags of that hash. No two rows have the same identifier, so
/// that no key refuses them.
pub proof fn law_rebuild_has_one_row_for_each_file(
    s: Sources,
    before: Seq<ContentEntry>,
    content: Seq<ContentEntry>,
)
    requires
        s.catalog.wf(),
        rebuilds(s, before, content),
    ensures
        uuids_are_distinct(content),
        forall|n: int|
            0 <= n < content.len() ==> made_of_sources(s, #[trigger] content[n]),
        forall|i: int, j: int|
            #[trigger] live_of(s.catalog, i, j) ==> exists|n: int|
                0 <= n < content.len() && (#[trigger] content[n]).file_uuid
                    == s.catalog.files[i].file_uuid,
{
    let c = s.catalog;
    let q = rebuilt(s);
    let places = lemma_rebuilt_places(s, before, content);
    assert forall|a: int, b: int|
        0 <= a < content.len() && 0 <= b < content.len() && (#[trigger] content[a]).file_uuid == (
        #[trigger] content[b]).file_uuid implies a == b by {
        assert((q.takes)(places[a]) && (q.shows)(places[a], content[a]));
        assert((q.takes)(places[b]) && (q.shows)(places[b], content[b]));
        assert(live_of(c, places[a].0, places[a].1) && live_of(c, places[b].0, places[b].1));
        assert(c.files[places[a].0].file_uuid == c.files[places[b].0].file_uuid);
        lemma_one_representative(c, places[a].0, places[a].1, places[b].1);
        assert(places[a] == places[b]);
    }
    assert forall|n: int| 0 <= n < content.len() implies made_of_sources(
        s,
        #[trigger] content[n],
    ) by {
        assert((q.takes)(places[n]) && (q.shows)(places[n], content[n]));
        assert(row_of(s, places[n].0, places[n].1, content[n]));
    }
    assert forall|i: int, j: int| #[trigger] live_of(c, i, j) implies exists|n: int|
        0 <= n < content.len() && (#[trigger] content[n]).file_uuid == c.files[i].file_uuid by {
        let r = lemma_first_seen_exists(c, i, j);
        assert((q.takes)((i, r)));
        law_taken_place_is_listed(q, places, content, (i, r));
    }
}

/// Whether every live location has the hash of a file.
pub open spec fn all_hashed(c: Catalog) -> bool {
    forall|j: int|
        0 <= j < c.locations.len() && (#[trigger] c.locations[j]).deleted_at is None
            ==> c.locations[j].hash is Some && c.has_hash(c.locations[j].hash->0)
}

/// Whether the row at `n` is the only one with a hash, and has the path of the live
/// location at `j`, which was seen no later than any live location with the hash and,
/// where every live location has the hash of a file, has that hash itself.
pub open spec fn sole_row(
    c: Catalog,
    content: Seq<ContentEntry>,
    hash: Seq<char>,
    n: int,
    j: int,
) -> bool {
    &&& 0 <= n < content.len()
    &&& 0 <= j < c.locations.len()
    &&& content[n].hash == Some(hash)
    &&& content[n].path == c.locations[j].path
    &&& c.locations[j].deleted_at is None
    &&& forall|m: int|
        0 <= m < content.len() && (#[trigger] content[m]).hash == Some(hash) ==> m == n
    &&& forall|l: int|
        0 <= l < c.locations.len() && (#[trigger] c.locations[l]).deleted_at is None
            && c.locations[l].hash == Some(hash) ==> seen_le(c, j, l)
    &&& all_hashed(c) ==> c.locations[j].hash == Some(hash)
}

/// Building the index anew leaves one row for each hash of a file that a live
/// location has. The location of that row was seen no later than any live location
/// with the hash; where every live location has the hash of a file, it has that hash
/// itself, and no row has a hash that no live location has.
pub proof fn law_rebuild_has_one_row_for_each_hash(
    s: Sources,
    before: Seq<ContentEntry>,
    content: Seq<ContentEntry>,
    hash: Seq<char>,
    k: int,
)
    requires
        s.catalog.wf(),
        rebuilds(s, before, content),
        s.catalog.has_hash(hash),
        0 <= k < s.catalog.locations.len(),
        s.catalog.locations[k].deleted_at is None,
        s.catalog.locations[k].hash == Some(hash),
    ensures
        exists|n: int, j: int| #[trigger] sole_row(s.catalog, content, hash, n, j),
        all_hashed(s.catalog) ==> forall|m: int|
            0 <= m < content.len() ==> held(s.catalog, (#[trigger] content[m]).hash),
{
    let c = s.catalog;
    let q = rebuilt(s);
    let places = lemma_rebuilt_places(s, before, content);
    let i = choose|i: int| 0 <= i < c.files.len() && (#[trigger] c.files[i]).hash == Some(hash);
    assert(c.belongs(i, k));
    assert(live_of(c, i, k));
    let j = lemma_first_seen_exists(c, i, k);
    assert((q.takes)((i, j)));
    law_taken_place_is_listed(q, places, content, (i, j));
    let n = choose|n: int|
        0 <= n < content.len() && places[n] == (i, j) && (q.shows)((i, j), #[trigger] content[n]);
    assert(row_of(s, i, j, content[n]));
    assert forall|m: int|
        0 <= m < content.len() && (#[trigger] content[m]).hash == Some(hash) implies m == n by {
        assert((q.takes)(places[m]) && (q.shows)(places[m], content[m]));
        assert(row_of(s, places[m].0, places[m].1, content[m]));
        assert(live_of(c, places[m].0, places[m].1));
        assert(c.files[places[m].0].hash == c.files[i].hash);
        lemma_one_representative(c, i, j, places[m].1);
        assert(places[m] == places[n]);
    }
    assert forall|l: int|
        0 <= l < c.locations.len() && (#[trigger] c.locations[l]).deleted_at is None
            && c.locations[l].hash == Some(hash) implies seen_le(c, j, l) by {
        assert(c.belongs(i, l));
        assert(live_of(c, i, l));
    }
    if all_hashed(c) {
        assert forall|m: int| 0 <= m < content.len() implies held(
            c,
            (#[trigger] content[m]).hash,
        ) by {
            assert((q.takes)(places[m]) && (q.shows)(places[m], content[m]));
            assert(row_of(s, places[m].0, places[m].1, content[m]));
            assert(live_of(c, places[m].0, places[m].1));
            assert(c.locations[places[m].1].deleted_at is None);
        }
        assert(live_of(c, i, j));
        assert(c.locations[j].deleted_at is None);
    }
    assert(sole_row(c, content, hash, n, j));
}

/// Whether some live location has a hash.
pub open spec fn held(c: Catalog, hash: Option<Seq<char>>) -> bool {
    exists|j: int|
        0 <= j < c.locations.len() && (#[trigger] c.locations[j]).deleted_at is None
            && c.locations[j].hash == hash
}

/// Whether a row of a search shows a row of the index: its identifier, its hash and
/// its path, and the volume of the location that stands for its file; no volume where
/// the file has no live location.
pub open spec fn hit_shows(c: Catalog, e: ContentEntry, row: SearchRow) -> bool {
    &&& row.file_uuid@ == e.file_uuid
    &&& text_opt(row.hash) == e.hash
    &&& row.path@ == e.path
    &&& stands_in(c, e.file_uuid, row.volume@)
}

/// Whether a volume is that of the location that stands for a file, or none where
/// there is no such location.
pub open spec fn stands_in(c: Catalog, file_uuid: Seq<char>, volume: Seq<char>) -> bool {
    ||| exists|i: int, j: int| #[trigger]
        represents(c, i, j) && c.files[i].file_uuid == file_uuid && c.locations[j].volume == volume
    ||| volume.len() == 0 && forall|i: int, j: int| #[trigger]
        live_of(c, i, j) ==> c.files[i].file_uuid != file_uuid
}

/// Whether a row has the path of the location that stands for its file.
pub open spec fn in_step(c: Catalog, e: ContentEntry) -> bool {
    exists|i: int, j: int| #[trigger]
        represents(c, i, j) && c.files[i].file_uuid == e.file_uuid && c.locations[j].path == e.path
}

/// The volume and the path of a hit are those of one and the same location: the live
/// one of its file that was seen first, wherever the index has the path of that one.
pub proof fn law_volume_of_a_hit_agrees_with_its_path(c: Catalog, e: ContentEntry, row: SearchRow)
    requires
        c.wf(),
        in_step(c, e),
        hit_shows(c, e, row),
    ensures
        exists|i: int, j: int| #[trigger]
            represents(c, i, j) && c.files[i].file_uuid == row.file_uuid@ && c.locations[j].volume
                == row.volume@ && c.locations[j].path == row.path@,
{
    let (i, j) = choose|i: int, j: int| #[trigger]
        represents(c, i, j) && c.files[i].file_uuid == e.file_uuid && c.locations[j].path == e.path;
    assert(live_of(c, i, j));
    let (i2, j2) = choose|i: int, j: int| #[trigger]
        represents(c, i, j) && c.files[i].file_uuid == e.file_uuid && c.locations[j].volume
            == row.volume@;
    assert(represents(c, i2, j2));
    assert(live_of(c, i2, j2));
    assert(i == i2);
    lemma_one_representative(c, i, j, j2);
}

/// After the index was built anew every row is in step, so that the volume of each
/// hit agrees with its path.
pub proof fn law_rebuilt_index_is_in_step(
    s: Sources,
    before: Seq<ContentEntry>,
    content: Seq<ContentEntry>,
    n: int,
)
    requires
        rebuilds(s, before, content),
        0 <= n < content.len(),
    ensures
        in_step(s.catalog, content[n]),
{
    let q = rebuilt(s);
    let places = lemma_rebuilt_places(s, before, content);
    assert((q.takes)(places[n]) && (q.shows)(places[n], content[n]));
    assert(represents(s.catalog, places[n].0, places[n].1));
    assert(row_of(s, places[n].0, places[n].1, content[n]));
}

/// Whether the file at `i` is the file of a location.
pub open spec fn owns(c: Catalog, i: int, l: LocationEntry) -> bool {
    &&& 0 <= i < c.files.len()
    &&& if l.hash is Some && c.has_hash(l.hash->0) {
        c.files[i].hash == l.hash
    } else {
        l.file_uuid == Some(c.files[i].file_uuid)
    }
}

/// Whether the file at `i` has a live location.
pub open spec fn located(c: Catalog, i: int) -> bool {
    exists|j: int| #[trigger] live_of(c, i, j)
}

/// Whether a change of the location at `k` makes the triggers refresh the row of the
/// file at `i`: a live location is added, a live one gets another hash, or one is
/// retired or comes back.
pub open spec fn refreshes(c: Catalog, d: Catalog, i: int, k: int) -> bool {
    &&& 0 <= k < d.locations.len()
    &&& if k >= c.locations.len() {
        d.locations[k].deleted_at is None && owns(d, i, d.locations[k])
    } else {
        let old = c.locations[k];
        let new = d.locations[k];
        ||| old.hash is Some && new.hash is Some && old.hash != new.hash && new.deleted_at is None
            && (owns(d, i, new) || owns(d, i, old))
        ||| (old.deleted_at is None) != (new.deleted_at is None) && owns(d, i, new)
    }
}

/// Whether a change of the location at `k` makes the triggers move the row of the
/// file at `i`: the location gets another path, is the live one that was seen first of
/// those that name its file, and stands for the file.
pub open spec fn moves(c: Catalog, d: Catalog, i: int, k: int) -> bool {
    &&& 0 <= k < c.locations.len()
    &&& k < d.locations.len()
    &&& c.locations[k].path != d.locations[k].path
    &&& d.locations[k].file_uuid is Some
    &&& forall|l: int|
        0 <= l < d.locations.len() && (#[trigger] d.locations[l]).deleted_at is None
            && d.locations[l].file_uuid == d.locations[k].file_uuid ==> seen_le(d, k, l)
    &&& represents(d, i, k)
}

/// Whether the triggers make `after` of the paths in the index, by identifier, when a
/// statement makes the tables `d` of `c`, as far as the file at `i` goes.
pub open spec fn triggered(
    c: Catalog,
    d: Catalog,
    i: int,
    before: Map<Seq<char>, Seq<char>>,
    after: Map<Seq<char>, Seq<char>>,
) -> bool {
    let u = d.files[i].file_uuid;
    if exists|k: int| #[trigger] refreshes(c, d, i, k) {
        &&& after.contains_key(u) <==> located(d, i)
        &&& forall|j: int| #[trigger] represents(d, i, j) ==> after[u] == d.locations[j].path
    } else if exists|k: int| #[trigger] moves(c, d, i, k) {
        &&& after.contains_key(u) <==> before.contains_key(u)
        &&& forall|k: int| #[trigger] moves(c, d, i, k) ==> after[u] == d.locations[k].path
    } else {
        &&& after.contains_key(u) <==> before.contains_key(u)
        &&& after[u] == before[u]
    }
}

/// Whether the index follows the tables: it has a row for each file with a live
/// location and for no other, with the path of the location that stands for it.
pub open spec fn follows(c: Catalog, index: Map<Seq<char>, Seq<char>>) -> bool {
    forall|i: int|
        0 <= i < c.files.len() ==> {
            let u = (#[trigger] c.files[i]).file_uuid;
            &&& index.contains_key(u) <==> located(c, i)
            &&& forall|j: int| #[trigger] represents(c, i, j) ==> index[u] == c.locations[j].path
        }
}

/// Whether the triggers see all that a statement does to the files of locations. They
/// watch neither the table of files nor a location that gets its first hash, and they
/// find the row of a location that moves by the file that it names.
pub open spec fn watched(s: FileStatement, c: Catalog) -> bool {
    match s {
        FileStatement::InsertFile { .. } => false,
        FileStatement::PromoteHash { .. } => false,
        FileStatement::UpdateLocationHash { .. } => forall|k: int|
            0 <= k < c.locations.len() && s.hits_location()(#[trigger] c.locations[k])
                ==> c.locations[k].hash is Some,
        FileStatement::RenameLocation { .. } => forall|i: int, k: int| #[trigger]
            live_of(c, i, k) ==> c.locations[k].file_uuid == Some(c.files[i].file_uuid),
        _ => true,
    }
}

proof fn lemma_same_files(s: FileStatement, c: Catalog)
    requires
        watched(s, c),
    ensures
        s.on(c).files.len() == c.files.len(),
        forall|i: int|
            0 <= i < c.files.len() ==> (#[trigger] s.on(c).files[i]).hash == c.files[i].hash
                && s.on(c).files[i].file_uuid == c.files[i].file_uuid,
        forall|h: Seq<char>| #[trigger] s.on(c).has_hash(h) == c.has_hash(h),
        forall|i: int, l: LocationEntry| #[trigger] owns(s.on(c), i, l) == owns(c, i, l),
{
    let d = s.on(c);
    assert forall|h: Seq<char>| #[trigger] d.has_hash(h) == c.has_hash(h) by {
        if c.has_hash(h) {
            let i = choose|i: int| 0 <= i < c.files.len() && (#[trigger] c.files[i]).hash == Some(h);
            assert(d.files[i].hash == Some(h));
        }
        if d.has_hash(h) {
            let i = choose|i: int| 0 <= i < d.files.len() && (#[trigger] d.files[i]).hash == Some(h);
            assert(c.files[i].hash == Some(h));
        }
    }
}

proof fn lemma_unrefreshed_file_keeps_its_locations(s: FileStatement, c: Catalog, i: int, k: int)
    requires
        watched(s, c),
        0 <= i < c.files.len(),
        forall|k: int| !#[trigger] refreshes(c, s.on(c), i, k),
    ensures
        live_of(s.on(c), i, k) <==> live_of(c, i, k),
        live_of(c, i, k) ==> 0 <= k < c.locations.len() && s.on(c).locations[k].first_seen
            == c.locations[k].first_seen && s.on(c).locations[k].id == c.locations[k].id,
{
    let d = s.on(c);
    lemma_same_files(s, c);
    assert(!refreshes(c, d, i, k));
    if 0 <= k < d.locations.len() {
        assert(d.belongs(i, k) == owns(d, i, d.locations[k]));
        if k < c.locations.len() {
            assert(c.belongs(i, k) == owns(c, i, c.locations[k]));
            assert(d.locations[k].file_uuid == c.locations[k].file_uuid);
        }
    }
}

/// The index follows the tables: where it did so before a statement that the triggers
/// watch, it does so after the triggers ran.
pub proof fn law_triggers_keep_the_index_in_step(
    s: FileStatement,
    c: Catalog,
    before: Map<Seq<char>, Seq<char>>,
    after: Map<Seq<char>, Seq<char>>,
)
    requires
        s.on(c).wf(),
        watched(s, c),
        follows(c, before),
        forall|i: int|
            0 <= i < c.files.len() ==> #[trigger] triggered(c, s.on(c), i, before, after),
    ensures
        follows(s.on(c), after),
{
    let d = s.on(c);
    lemma_same_files(s, c);
    assert forall|i: int| 0 <= i < d.files.len() implies {
        let u = (#[trigger] d.files[i]).file_uuid;
        &&& after.contains_key(u) <==> located(d, i)
        &&& forall|j: int| #[trigger] represents(d, i, j) ==> after[u] == d.locations[j].path
    } by {
        let u = d.files[i].file_uuid;
        assert(triggered(c, d, i, before, after));
        assert(c.files[i].file_uuid == u);
        if !(exists|k: int| #[trigger] refreshes(c, d, i, k)) {
            assert forall|k: int| #[trigger] live_of(d, i, k) == live_of(c, i, k) by {
                lemma_unrefreshed_file_keeps_its_locations(s, c, i, k);
            }
            assert(located(d, i) == located(c, i)) by {
                if located(c, i) {
                    let k = choose|k: int| #[trigger] live_of(c, i, k);
                    assert(live_of(d, i, k));
                }
                if located(d, i) {
                    let k = choose|k: int| #[trigger] live_of(d, i, k);
                    assert(live_of(c, i, k));
                }
            }
            assert forall|j: int| #[trigger] represents(d, i, j) implies after[u]
                == d.locations[j].path by {
                lemma_unmoved_row(s, c, i, j, before, after);
            }
        }
    }
}

proof fn lemma_unmoved_row(
    s: FileStatement,
    c: Catalog,
    i: int,
    j: int,
    before: Map<Seq<char>, Seq<char>>,
    after: Map<Seq<char>, Seq<char>>,
)
    requires
        s.on(c).wf(),
        watched(s, c),
        follows(c, before),
        0 <= i < c.files.len(),
        forall|k: int| !#[trigger] refreshes(c, s.on(c), i, k),
        triggered(c, s.on(c), i, before, after),
        represents(s.on(c), i, j),
    ensures
        after[s.on(c).files[i].file_uuid] == s.on(c).locations[j].path,
{
    let d = s.on(c);
    lemma_same_files(s, c);
    assert(live_of(d, i, j));
    lemma_unrefreshed_file_keeps_its_locations(s, c, i, j);
    assert forall|k: int| #[trigger] live_of(c, i, k) implies seen_le(c, j, k) by {
        lemma_unrefreshed_file_keeps_its_locations(s, c, i, k);
        assert(live_of(d, i, k));
        assert(seen_le(d, j, k));
    }
    assert(represents(c, i, j));
    assert(c.files[i].file_uuid == d.files[i].file_uuid);
    assert(before[c.files[i].file_uuid] == c.locations[j].path);
    if c.locations[j].path != d.locations[j].path {
        assert(s is RenameLocation);
        assert(live_of(c, i, j));
        assert forall|l: int|
            0 <= l < d.locations.len() && (#[trigger] d.locations[l]).deleted_at is None
                && d.locations[l].file_uuid == d.locations[j].file_uuid implies seen_le(d, j, l) by {
            lemma_named_file_is_the_owner(s, c, i, j, l);
            assert(live_of(d, i, l));
        }
        assert(moves(c, d, i, j));
    } else {
        if exists|k: int| #[trigger] moves(c, d, i, k) {
            let k = choose|k: int| #[trigger] moves(c, d, i, k);
            lemma_one_representative(d, i, j, k);
        }
    }
}

proof fn lemma_named_file_is_the_owner(s: FileStatement, c: Catalog, i: int, j: int, l: int)
    requires
        s.on(c).wf(),
        s is RenameLocation,
        watched(s, c),
        live_of(c, i, j),
        0 <= l < s.on(c).locations.len(),
        s.on(c).locations[l].deleted_at is None,
        s.on(c).locations[l].file_uuid == s.on(c).locations[j].file_uuid,
    ensures
        live_of(s.on(c), i, l),
{
    let d = s.on(c);
    lemma_same_files(s, c);
    assert(d.locations.len() == c.locations.len());
    assert(c.locations[l].file_uuid == Some(c.files[i].file_uuid));
    assert(d.belongs(i, l) == owns(d, i, d.locations[l]));
    let h = c.locations[l].hash;
    if h is Some && c.has_hash(h->0) {
        // The file with that hash owns the location, and the location names its file.
        let m = choose|m: int| 0 <= m < c.files.len() && (#[trigger] c.files[m]).hash == h;
        assert(c.belongs(m, l));
        assert(live_of(c, m, l));
        assert(c.locations[l].file_uuid == Some(c.files[m].file_uuid));
        assert(d.files[m].file_uuid == d.files[i].file_uuid);
        assert(m == i);
    }
}

/// Whether some row has an identifier.
pub open spec fn has_row(content: Seq<ContentEntry>, file_uuid: Seq<char>) -> bool {
    exists|n: int| 0 <= n < content.len() && (#[trigger] content[n]).file_uuid == file_uuid
}

/// Whether these are the paths of the rows, by identifier.
pub open spec fn paths_of(content: Seq<ContentEntry>, index: Map<Seq<char>, Seq<char>>) -> bool {
    &&& forall|u: Seq<char>| #[trigger] index.contains_key(u) <==> has_row(content, u)
    &&& forall|n: int|
        0 <= n < content.len() ==> index[(#[trigger] content[n]).file_uuid] == content[n].path
}

/// An index that was built anew follows the tables.
pub proof fn law_rebuilt_index_follows_the_tables(
    s: Sources,
    before: Seq<ContentEntry>,
    content: Seq<ContentEntry>,
    index: Map<Seq<char>, Seq<char>>,
)
    requires
        s.catalog.wf(),
        rebuilds(s, before, content),
        paths_of(content, index),
    ensures
        follows(s.catalog, index),
{
    let c = s.catalog;
    let q = rebuilt(s);
    let places = lemma_rebuilt_places(s, before, content);
    assert forall|i: int| 0 <= i < c.files.len() implies {
        let u = (#[trigger] c.files[i]).file_uuid;
        &&& index.contains_key(u) <==> located(c, i)
        &&& forall|j: int| #[trigger] represents(c, i, j) ==> index[u] == c.locations[j].path
    } by {
        let u = c.files[i].file_uuid;
        if has_row(content, u) {
            let n = choose|n: int| 0 <= n < content.len() && (#[trigger] content[n]).file_uuid == u;
            assert((q.takes)(places[n]) && (q.shows)(places[n], content[n]));
            assert(row_of(s, places[n].0, places[n].1, content[n]));
            assert(live_of(c, places[n].0, places[n].1));
            assert(places[n].0 == i);
        }
        if located(c, i) {
            let k = choose|k: int| #[trigger] live_of(c, i, k);
            law_rebuild_has_one_row_for_each_file(s, before, content);
            let n = choose|n: int| 0 <= n < content.len() && (#[trigger] content[n]).file_uuid == u;
            assert(content[n].file_uuid == u);
            assert(has_row(content, u));
        }
        assert forall|j: int| #[trigger] represents(c, i, j) implies index[u]
            == c.locations[j].path by {
            assert((q.takes)((i, j)));
            law_taken_place_is_listed(q, places, content, (i, j));
            let n = choose|n: int|
                0 <= n < content.len() && places[n] == (i, j) && (q.shows)(
                    (i, j),
                    #[trigger] content[n],
                );
            assert(row_of(s, i, j, content[n]));
        }
    }
}

/// Where the index follows the tables, every row of a file is in step, so that the
/// volume of each hit agrees with its path.
pub proof fn law_following_index_is_in_step(
    c: Catalog,
    content: Seq<ContentEntry>,
    index: Map<Seq<char>, Seq<char>>,
    n: int,
)
    requires
        paths_of(content, index),
        follows(c, index),
        0 <= n < content.len(),
        c.has_uuid(content[n].file_uuid),
    ensures
        in_step(c, content[n]),
{
    let u = content[n].file_uuid;
    let i = choose|i: int| 0 <= i < c.files.len() && (#[trigger] c.files[i]).file_uuid == u;
    assert(has_row(content, u));
    assert(index.contains_key(u));
    assert(located(c, i));
    let k = choose|k: int| #[trigger] live_of(c, i, k);
    let j = lemma_first_seen_exists(c, i, k);
    assert(represents(c, i, j));
}

} // verus!
