//! What the triggers do: which of them a change sets off, what the body under the
//! name that is rendered for it does to the index, and the law that the index stays
//! what building it anew would make.
use vstd::prelude::*;
use vstd::string::*;

use crate::db::model::columns::{
    lemma_file_locations_columns, lemma_file_metadata_columns, lemma_file_tags_columns,
    lemma_tags_columns,
};
use crate::db::model::files::{Catalog, LocationEntry};
use crate::db::model::meaning::blank;
use crate::db::model::metadata::MetadataEntry;
use crate::db::model::reads::law_taken_place_is_listed;
use crate::db::model::search::{
    has_row, holds_metadata, holds_tags, law_rebuild_has_one_row_for_each_file,
    lemma_first_seen_exists, lemma_one_representative, lemma_rebuilt_places, live_of, located,
    or_empty, owns, rebuilds, rebuilt, represents, row_of, seen_le, tag_names, ContentEntry,
    Sources,
};
use crate::db::model::table_reads::{described, describes_hash};
use crate::db::model::tags::{LinkEntry, TagEntry, TagTables};
use crate::db::schema::spec::{fts_table, FtsAggregation, TriggerEvent, RENAME_GUARD};
use crate::db::schema::body_name;
use crate::db::shape::Row;
use crate::db::sql::Bound;

verus! {

/// The index, by the identifier of the file.
pub type Index = Map<Seq<char>, ContentEntry>;

/// A change of one row of a table that the index is made of.
pub enum Change {
    /// The location at `k` is added or changed.
    Location { k: int, old: Option<LocationEntry>, new: LocationEntry },
    Metadata { old: Option<MetadataEntry>, new: MetadataEntry },
    Link { old: Option<LinkEntry>, new: LinkEntry },
    Tag { old: Option<TagEntry>, new: TagEntry },
}

impl Change {
    /// The table of the row.
    pub open spec fn table(self) -> Seq<char> {
        match self {
            Change::Location { .. } => "file_locations"@,
            Change::Metadata { .. } => "file_metadata"@,
            Change::Link { .. } => "file_tags"@,
            Change::Tag { .. } => "tags"@,
        }
    }

    /// Whether the row is new.
    pub open spec fn adds(self) -> bool {
        match self {
            Change::Location { old, .. } => old is None,
            Change::Metadata { old, .. } => old is None,
            Change::Link { old, .. } => old is None,
            Change::Tag { old, .. } => old is None,
        }
    }

    /// The row as it was.
    pub open spec fn old_row(self) -> Row {
        match self {
            Change::Location { old: Some(e), .. } => e.row(),
            Change::Metadata { old: Some(e), .. } => e.row(),
            Change::Link { old: Some(e), .. } => e.row(),
            Change::Tag { old: Some(e), .. } => e.row(),
            _ => blank(),
        }
    }

    /// The row as it is.
    pub open spec fn new_row(self) -> Row {
        match self {
            Change::Location { new, .. } => new.row(),
            Change::Metadata { new, .. } => new.row(),
            Change::Link { new, .. } => new.row(),
            Change::Tag { new, .. } => new.row(),
        }
    }

    /// Whether a trigger for an event looks at the change. One that watches a column
    /// looks where the column gets another value.
    pub open spec fn meets(self, event: TriggerEvent) -> bool {
        match event {
            TriggerEvent::Insert => self.adds(),
            TriggerEvent::Update => !self.adds(),
            TriggerEvent::UpdateOf(column) => !self.adds() && self.old_row()[column@]
                != self.new_row()[column@],
            TriggerEvent::Delete => false,
        }
    }

    /// Whether a condition of a trigger holds, `c` being the tables after the change.
    pub open spec fn passes(self, condition: Seq<char>, c: Catalog) -> bool {
        let old = self.old_row();
        let new = self.new_row();
        if condition == "NEW.deleted_at IS NULL"@ {
            new["deleted_at"@] == Bound::Null
        } else if condition == "OLD.blake3_hash != NEW.blake3_hash AND NEW.deleted_at IS NULL"@ {
            old["blake3_hash"@] != Bound::Null && new["blake3_hash"@] != Bound::Null
                && old["blake3_hash"@] != new["blake3_hash"@] && new["deleted_at"@] == Bound::Null
        } else if condition == RENAME_GUARD@ {
            &&& old["relative_path"@] != new["relative_path"@]
            &&& new["deleted_at"@] == Bound::Null
            &&& self matches Change::Location { k, .. } && first_of_its_name(c, k)
        } else if condition == "OLD.deleted_at IS NULL AND NEW.deleted_at IS NOT NULL"@ {
            old["deleted_at"@] == Bound::Null && new["deleted_at"@] != Bound::Null
        } else if condition == "OLD.deleted_at IS NOT NULL AND NEW.deleted_at IS NULL"@ {
            old["deleted_at"@] != Bound::Null && new["deleted_at"@] == Bound::Null
        } else if condition == "OLD.name != NEW.name"@ {
            old["name"@] != new["name"@]
        } else if condition == "(OLD.deleted_at IS NULL) != (NEW.deleted_at IS NULL)"@ {
            (old["deleted_at"@] == Bound::Null) != (new["deleted_at"@] == Bound::Null)
        } else {
            false
        }
    }

    /// Whether the change sets off a trigger.
    pub open spec fn sets_off(self, a: FtsAggregation, c: Catalog) -> bool {
        &&& a.source_table@ == self.table()
        &&& self.meets(a.event)
        &&& a.when is Some ==> self.passes(a.when->0@, c)
    }
}

/// Whether the location at `k` is the live one that was seen first of those that name
/// its file.
pub open spec fn first_of_its_name(c: Catalog, k: int) -> bool {
    &&& c.locations[k].file_uuid is Some
    &&& forall|l: int|
        0 <= l < c.locations.len() && (#[trigger] c.locations[l]).deleted_at is None
            && c.locations[l].file_uuid == c.locations[k].file_uuid ==> seen_le(c, k, l)
}

/// Whether two states of the index have the same of a file.
pub open spec fn same_row(before: Index, after: Index, u: Seq<char>) -> bool {
    &&& after.contains_key(u) <==> before.contains_key(u)
    &&& after[u] == before[u]
}

/// Whether the index has what building it anew would make for the file at `i`.
pub open spec fn made_anew(s: Sources, i: int, index: Index) -> bool {
    let u = s.catalog.files[i].file_uuid;
    &&& index.contains_key(u) <==> located(s.catalog, i)
    &&& forall|j: int| #[trigger] represents(s.catalog, i, j) ==> row_of(s, i, j, index[u])
}

/// Whether the index is what building it anew would make.
pub open spec fn in_order(s: Sources, index: Index) -> bool {
    forall|i: int| 0 <= i < s.catalog.files.len() ==> #[trigger] made_anew(s, i, index)
}

/// A row with the columns of metadata, empty where the metadata is retired.
pub open spec fn with_metadata(e: ContentEntry, m: MetadataEntry) -> ContentEntry {
    if m.deleted_at is None {
        ContentEntry {
            mime_type: or_empty(m.mime_type),
            camera_model: or_empty(m.camera_model),
            captured_at: or_empty(m.captured_at),
            ..e
        }
    } else {
        ContentEntry {
            mime_type: Seq::empty(),
            camera_model: Seq::empty(),
            captured_at: Seq::empty(),
            ..e
        }
    }
}

/// Whether the rows that `hit` picks get the columns of metadata, and no other row
/// changes.
pub open spec fn refreshes_metadata(m: MetadataEntry, before: Index, after: Index, u: Seq<char>) -> bool {
    if before.contains_key(u) && before[u].hash == Some(m.hash) {
        after.contains_key(u) && after[u] == with_metadata(before[u], m)
    } else {
        same_row(before, after, u)
    }
}

/// Whether a row gets the names of the live tags of its hash, and nothing else of it
/// changes.
pub open spec fn refreshes_tags(t: TagTables, before: Index, after: Index, u: Seq<char>) -> bool {
    &&& after.contains_key(u)
    &&& after[u] == (ContentEntry { tags: after[u].tags, ..before[u] })
    &&& holds_tags(t, before[u].hash, after[u].tags)
}

/// Whether a live attachment of a tag to a hash is there.
pub open spec fn carries(t: TagTables, hash: Option<Seq<char>>, tag: Seq<char>) -> bool {
    exists|l: int|
        0 <= l < t.links.len() && (#[trigger] t.links[l]).deleted_at is None && t.links[l].tag
            == tag && hash == Some(t.links[l].hash)
}

/// Whether the body with a name makes `after` of the index `before`, as far as the
/// file at `i` goes; `s` are the tables after the change.
pub open spec fn body_makes(
    name: Seq<char>,
    change: Change,
    s: Sources,
    i: int,
    before: Index,
    after: Index,
) -> bool {
    let u = s.catalog.files[i].file_uuid;
    let hash = s.catalog.files[i].hash;
    match change {
        Change::Location { k, old, new } => {
            &&& name == "FileLocationsInsert"@ || name == "LocationSoftDelete"@ || name
                == "LocationRestore"@ ==> if owns(s.catalog, i, new) {
                made_anew(s, i, after)
            } else {
                same_row(before, after, u)
            }
            &&& name == "LocationHashChangeSeed"@ ==> if owns(s.catalog, i, new) || (old is Some
                && owns(s.catalog, i, old->0)) {
                made_anew(s, i, after)
            } else {
                same_row(before, after, u)
            }
            &&& name == "RenameRepresentative"@ ==> if before.contains_key(u) && represents(
                s.catalog,
                i,
                k,
            ) {
                after.contains_key(u) && after[u] == (ContentEntry {
                    filename: new.path,
                    path: new.path,
                    ..before[u]
                })
            } else {
                same_row(before, after, u)
            }
        },
        Change::Metadata { new, .. } => {
            &&& name == "MetadataInsert"@ ==> if hash == Some(new.hash) && !before.contains_key(u) {
                made_anew(s, i, after)
            } else {
                refreshes_metadata(new, before, after, u)
            }
            &&& name == "MetadataUpdate"@ ==> refreshes_metadata(new, before, after, u)
            &&& name == "FileTagsUpdate"@ ==> if before.contains_key(u) && before[u].hash == Some(
                new.hash,
            ) {
                refreshes_tags(s.tags, before, after, u)
            } else {
                same_row(before, after, u)
            }
        },
        Change::Link { new, .. } => {
            &&& name == "FileTagsInsert"@ ==> if hash == Some(new.hash) && !before.contains_key(u) {
                made_anew(s, i, after)
            } else if before.contains_key(u) && before[u].hash == Some(new.hash) {
                refreshes_tags(s.tags, before, after, u)
            } else {
                same_row(before, after, u)
            }
            &&& name == "FileTagsUpdate"@ ==> if before.contains_key(u) && before[u].hash == Some(
                new.hash,
            ) {
                refreshes_tags(s.tags, before, after, u)
            } else {
                same_row(before, after, u)
            }
        },
        Change::Tag { new, .. } => {
            &&& name == "TagsNameUpdate"@ || name == "TagsSoftDeleteOrRestore"@ ==> if
                before.contains_key(u) && carries(s.tags, before[u].hash, new.id) {
                refreshes_tags(s.tags, before, after, u)
            } else {
                same_row(before, after, u)
            }
        },
    }
}

/// Whether the triggers, one after the other in the order in which they are made, make
/// the last of the states of the index of the first, as far as the file at `i` goes.
pub open spec fn triggers_make(change: Change, s: Sources, i: int, states: Seq<Index>) -> bool {
    &&& states.len() == fts_table().len() + 1
    &&& forall|k: int|
        0 <= k < fts_table().len() ==> #[trigger] step_makes(change, s, i, states, k)
}

/// Whether the trigger at `k` makes the next state of the index of the one before it.
pub open spec fn step_makes(change: Change, s: Sources, i: int, states: Seq<Index>, k: int) -> bool {
    let a = fts_table()[k];
    if change.sets_off(a, s.catalog) {
        body_makes(body_name(a.body), change, s, i, states[k], states[k + 1])
    } else {
        same_row(states[k], states[k + 1], s.catalog.files[i].file_uuid)
    }
}

/// The tables that triggers watch differ from one another.
proof fn lemma_trigger_tables(k: int)
    requires
        0 <= k < fts_table().len(),
    ensures
        fts_table().len() == 18,
        fts_table()[k].source_table@ == "file_locations"@ <==> 3 <= k <= 7,
        fts_table()[k].source_table@ == "file_metadata"@ <==> 8 <= k <= 9,
        fts_table()[k].source_table@ == "file_tags"@ <==> 10 <= k <= 11,
        fts_table()[k].source_table@ == "tags"@ <==> 12 <= k <= 14,
{
    reveal_strlit("search_content");
    reveal_strlit("file_locations");
    reveal_strlit("file_metadata");
    reveal_strlit("file_tags");
    reveal_strlit("tags");
    reveal_strlit("transcript_segment");
    assert("search_content"@.len() == 14 && "search_content"@[0] == 's');
    assert("file_locations"@.len() == 14 && "file_locations"@[0] == 'f');
    assert("file_metadata"@.len() == 13);
    assert("file_tags"@.len() == 9);
    assert("tags"@.len() == 4);
    assert("transcript_segment"@.len() == 18);
}

/// The conditions of triggers differ from one another.
proof fn lemma_conditions()
    ensures
        "NEW.deleted_at IS NULL"@.len() == 22,
        "OLD.blake3_hash != NEW.blake3_hash AND NEW.deleted_at IS NULL"@.len() == 61,
        "OLD.deleted_at IS NULL AND NEW.deleted_at IS NOT NULL"@.len() == 53,
        "OLD.deleted_at IS NOT NULL AND NEW.deleted_at IS NULL"@.len() == 53,
        "OLD.name != NEW.name"@.len() == 20,
        "(OLD.deleted_at IS NULL) != (NEW.deleted_at IS NULL)"@.len() == 52,
        RENAME_GUARD@.len() == 205,
        "OLD.deleted_at IS NULL AND NEW.deleted_at IS NOT NULL"@[19] == 'U',
        "OLD.deleted_at IS NOT NULL AND NEW.deleted_at IS NULL"@[19] == 'O',
{
    reveal_strlit("NEW.deleted_at IS NULL");
    reveal_strlit("OLD.blake3_hash != NEW.blake3_hash AND NEW.deleted_at IS NULL");
    reveal_strlit("OLD.deleted_at IS NULL AND NEW.deleted_at IS NOT NULL");
    reveal_strlit("OLD.deleted_at IS NOT NULL AND NEW.deleted_at IS NULL");
    reveal_strlit("OLD.name != NEW.name");
    reveal_strlit("(OLD.deleted_at IS NULL) != (NEW.deleted_at IS NULL)");
    reveal_strlit(
        "OLD.relative_path != NEW.relative_path AND NEW.deleted_at IS NULL AND NEW.id = (SELECT id FROM file_locations WHERE file_uuid = NEW.file_uuid AND deleted_at IS NULL ORDER BY first_seen ASC, id ASC LIMIT 1)",
    );
    assert("NEW.deleted_at IS NULL"@.len() == 22);
    assert("OLD.blake3_hash != NEW.blake3_hash AND NEW.deleted_at IS NULL"@.len() == 61);
    assert("OLD.deleted_at IS NULL AND NEW.deleted_at IS NOT NULL"@.len() == 53);
    assert("OLD.deleted_at IS NOT NULL AND NEW.deleted_at IS NULL"@.len() == 53);
    assert("OLD.name != NEW.name"@.len() == 20);
    assert("(OLD.deleted_at IS NULL) != (NEW.deleted_at IS NULL)"@.len() == 52);
    assert(RENAME_GUARD@.len() == 205);
    assert("OLD.deleted_at IS NULL AND NEW.deleted_at IS NOT NULL"@[19] == 'U');
    assert("OLD.deleted_at IS NOT NULL AND NEW.deleted_at IS NULL"@[19] == 'O');
}

/// Triggers that are not set off change nothing.
proof fn lemma_quiet(change: Change, s: Sources, i: int, states: Seq<Index>, lo: int, hi: int)
    requires
        triggers_make(change, s, i, states),
        0 <= lo <= hi <= fts_table().len(),
        forall|k: int| lo <= k < hi ==> !change.sets_off(#[trigger] fts_table()[k], s.catalog),
    ensures
        same_row(states[lo], states[hi], s.catalog.files[i].file_uuid),
    decreases hi - lo,
{
    if lo < hi {
        lemma_quiet(change, s, i, states, lo, hi - 1);
        assert(step_makes(change, s, i, states, hi - 1));
        assert(!change.sets_off(fts_table()[hi - 1], s.catalog));
    }
}

/// A change of metadata sets off the trigger for its event, and no other.
proof fn lemma_metadata_change_runs_its_trigger(
    change: Change,
    s: Sources,
    i: int,
    states: Seq<Index>,
)
    requires
        change matches Change::Metadata { old, new } && (old is None ==> new.deleted_at is None),
        triggers_make(change, s, i, states),
    ensures
        ({
            let k: int = if change.adds() {
                8
            } else {
                9
            };
            &&& same_row(states[0], states[k], s.catalog.files[i].file_uuid)
            &&& same_row(states[k + 1], states.last(), s.catalog.files[i].file_uuid)
            &&& body_makes(
                if change.adds() {
                    "MetadataInsert"@
                } else {
                    "MetadataUpdate"@
                },
                change,
                s,
                i,
                states[k],
                states[k + 1],
            )
        }),
{
    lemma_conditions();
    let k: int = if change.adds() {
        8
    } else {
        9
    };
    assert forall|m: int| 0 <= m < fts_table().len() && m != k implies !change.sets_off(
        #[trigger] fts_table()[m],
        s.catalog,
    ) by {
        lemma_trigger_tables(m);
    }
    lemma_trigger_tables(k);
    lemma_quiet(change, s, i, states, 0, k);
    lemma_quiet(change, s, i, states, k + 1, 18);
    if change.adds() {
        lemma_live_metadata(change->Metadata_new);
    }
    assert(change.sets_off(fts_table()[k], s.catalog));
    assert(step_makes(change, s, i, states, k));
}

proof fn lemma_live_metadata(m: MetadataEntry)
    ensures
        m.row()["deleted_at"@] == Bound::Null <==> m.deleted_at is None,
{
    lemma_file_metadata_columns();
    reveal(MetadataEntry::row);
}

/// Whether no two rows of `file_metadata` have the same hash.
pub open spec fn keyed_by_hash(rows: Seq<MetadataEntry>) -> bool {
    forall|a: int, b: int|
        0 <= a < rows.len() && 0 <= b < rows.len() && (#[trigger] rows[a]).hash == (
        #[trigger] rows[b]).hash ==> a == b
}

/// The tables with another row of metadata at `k`, or with one more.
pub open spec fn with_metadata_row(s: Sources, k: int, new: MetadataEntry) -> Sources {
    Sources {
        metadata: if k < s.metadata.len() {
            s.metadata.update(k, new)
        } else {
            s.metadata.push(new)
        },
        ..s
    }
}

/// That change.
pub open spec fn metadata_change(s: Sources, k: int, new: MetadataEntry) -> Change {
    Change::Metadata {
        old: if k < s.metadata.len() {
            Some(s.metadata[k])
        } else {
            None
        },
        new,
    }
}

/// The index follows the metadata: after a row of metadata was added, or changed in
/// any column but its hash, and the triggers ran, the row of that hash has its MIME
/// type, its camera and its time of capture, none of them where the metadata is
/// retired; and the index is again what building it anew would make.
pub proof fn law_index_follows_the_metadata(
    s: Sources,
    k: int,
    new: MetadataEntry,
    states: Seq<Index>,
    before: Index,
    after: Index,
)
    requires
        keyed_by_hash(s.metadata),
        0 <= k <= s.metadata.len(),
        k < s.metadata.len() ==> s.metadata[k].hash == new.hash,
        k == s.metadata.len() ==> new.deleted_at is None && forall|m: int|
            0 <= m < s.metadata.len() ==> (#[trigger] s.metadata[m]).hash != new.hash,
        in_order(s, before),
        forall|i: int|
            0 <= i < s.catalog.files.len() ==> #[trigger] triggers_make(
                metadata_change(s, k, new),
                with_metadata_row(s, k, new),
                i,
                states,
            ),
        states.first() == before,
        states.last() == after,
    ensures
        ({
            let next = with_metadata_row(s, k, new);
            &&& in_order(next, after)
            &&& forall|i: int|
                0 <= i < s.catalog.files.len() && s.catalog.files[i].hash == Some(new.hash)
                    && #[trigger] located(s.catalog, i) ==> {
                    let e = after[s.catalog.files[i].file_uuid];
                    &&& after.contains_key(s.catalog.files[i].file_uuid)
                    &&& new.deleted_at is None ==> e.mime_type == or_empty(new.mime_type)
                        && e.camera_model == or_empty(new.camera_model) && e.captured_at == or_empty(
                        new.captured_at,
                    )
                    &&& new.deleted_at is Some ==> e.mime_type.len() == 0 && e.camera_model.len()
                        == 0 && e.captured_at.len() == 0
                }
        }),
{
    let next = with_metadata_row(s, k, new);
    let rows = next.metadata;
    let change = metadata_change(s, k, new);
    let c = s.catalog;
    assert forall|i: int| 0 <= i < c.files.len() implies #[trigger] made_anew(next, i, after) && (
    c.files[i].hash == Some(new.hash) && located(c, i) ==> after.contains_key(c.files[i].file_uuid)
        && after[c.files[i].file_uuid] == with_metadata(
        after[c.files[i].file_uuid],
        new,
    )) by {
        let u = c.files[i].file_uuid;
        let st = states;
        assert(triggers_make(change, next, i, st));
        assert(states.first() == states[0]);
        lemma_metadata_change_runs_its_trigger(change, next, i, st);
        assert(made_anew(s, i, before));
        if located(c, i) {
            let l = choose|l: int| #[trigger] live_of(c, i, l);
            let j = lemma_first_seen_exists(c, i, l);
            assert(represents(c, i, j));
            assert(row_of(s, i, j, before[u]));
            assert(before[u].hash == c.files[i].hash);
        }
        assert forall|j: int| #[trigger] represents(c, i, j) implies row_of(next, i, j, after[u]) by {
            assert(live_of(c, i, j));
            assert(row_of(s, i, j, before[u]));
            lemma_metadata_of_row(s.metadata, rows, k, new, before[u], after[u]);
        }
    }
    assert forall|i: int|
        0 <= i < c.files.len() && c.files[i].hash == Some(new.hash) && #[trigger] located(
            c,
            i,
        ) implies {
        let e = after[c.files[i].file_uuid];
        &&& after.contains_key(c.files[i].file_uuid)
        &&& new.deleted_at is None ==> e.mime_type == or_empty(new.mime_type) && e.camera_model
            == or_empty(new.camera_model) && e.captured_at == or_empty(new.captured_at)
        &&& new.deleted_at is Some ==> e.mime_type.len() == 0 && e.camera_model.len() == 0
            && e.captured_at.len() == 0
    } by {
        assert(made_anew(next, i, after));
    }
}

proof fn lemma_metadata_of_row(
    rows: Seq<MetadataEntry>,
    next: Seq<MetadataEntry>,
    k: int,
    new: MetadataEntry,
    e: ContentEntry,
    f: ContentEntry,
)
    requires
        keyed_by_hash(rows),
        0 <= k <= rows.len(),
        k < rows.len() ==> rows[k].hash == new.hash && next == rows.update(k, new),
        k == rows.len() ==> next == rows.push(new) && forall|m: int|
            0 <= m < rows.len() ==> (#[trigger] rows[m]).hash != new.hash,
        holds_metadata(rows, e),
        f == if e.hash == Some(new.hash) {
            with_metadata(e, new)
        } else {
            e
        },
    ensures
        holds_metadata(next, f),
{
    if e.hash == Some(new.hash) {
        if new.deleted_at is None {
            assert(next[k] == new);
            assert(describes_hash(next, f.hash, k));
        } else {
            assert forall|m: int| !#[trigger] describes_hash(next, f.hash, m) by {
                if describes_hash(next, f.hash, m) {
                    if m != k {
                        assert(next[m] == rows[m]);
                        assert(rows[m].hash == rows[k].hash);
                    }
                }
            }
        }
    } else {
        assert forall|m: int| #[trigger] describes_hash(next, e.hash, m) == describes_hash(
            rows,
            e.hash,
            m,
        ) by {
            if 0 <= m < rows.len() && m != k {
                assert(next[m] == rows[m]);
            }
        }
        if described(rows, e.hash) {
            let m = choose|m: int| #[trigger]
                describes_hash(rows, e.hash, m) && e.mime_type == or_empty(rows[m].mime_type)
                    && e.camera_model == or_empty(rows[m].camera_model) && e.captured_at
                    == or_empty(rows[m].captured_at);
            assert(describes_hash(next, e.hash, m));
            assert(next[m] == rows[m]);
        } else {
            if described(next, e.hash) {
                let m = choose|m: int| #[trigger] describes_hash(next, e.hash, m);
                assert(describes_hash(rows, e.hash, m));
            }
        }
    }
}

/// Where at most one trigger is set off, only it changes the index.
proof fn lemma_alone(change: Change, s: Sources, i: int, states: Seq<Index>, k: int)
    requires
        triggers_make(change, s, i, states),
        0 <= k < 18,
        forall|m: int|
            0 <= m < 18 && m != k ==> !change.sets_off(#[trigger] fts_table()[m], s.catalog),
    ensures
        same_row(states[0], states[k], s.catalog.files[i].file_uuid),
        same_row(states[k + 1], states.last(), s.catalog.files[i].file_uuid),
        step_makes(change, s, i, states, k),
{
    lemma_trigger_tables(0);
    lemma_quiet(change, s, i, states, 0, k);
    lemma_quiet(change, s, i, states, k + 1, 18);
}

/// The names of the live tags of a hash stay where neither its attachments nor their
/// tags change.
proof fn lemma_tags_carry(t: TagTables, n: TagTables, hash: Option<Seq<char>>, text: Seq<char>)
    requires
        holds_tags(t, hash, text),
        forall|k: (int, int)| #[trigger]
            (tag_names(n, hash).takes)(k) == (tag_names(t, hash).takes)(k),
        forall|k: (int, int)| #[trigger]
            (tag_names(t, hash).takes)(k) ==> n.tags[k.1].name == t.tags[k.1].name,
    ensures
        holds_tags(n, hash, text),
{
    let q = tag_names(t, hash);
    let r = tag_names(n, hash);
    let (places, names) = choose|places: Seq<(int, int)>, names: Seq<Seq<char>>| #[trigger]
        tag_names(t, hash).gives(places, names) && text == crate::db::model::search::spaced(names);
    assert forall|i: int| 0 <= i < places.len() implies (r.takes)(#[trigger] places[i]) && (
    r.shows)(places[i], names[i]) by {
        assert((q.takes)(places[i]) && (q.shows)(places[i], names[i]));
    }
    assert forall|k: (int, int)| #[trigger] (r.takes)(k) implies places.contains(k) by {
        assert((q.takes)(k));
    }
    assert(r.gives(places, names));
}

/// The tables with another attachment at `k`, or with one more.
pub open spec fn with_link_row(s: Sources, k: int, new: LinkEntry) -> Sources {
    Sources {
        tags: TagTables {
            links: if k < s.tags.links.len() {
                s.tags.links.update(k, new)
            } else {
                s.tags.links.push(new)
            },
            ..s.tags
        },
        ..s
    }
}

/// That change.
pub open spec fn link_change(s: Sources, k: int, new: LinkEntry) -> Change {
    Change::Link {
        old: if k < s.tags.links.len() {
            Some(s.tags.links[k])
        } else {
            None
        },
        new,
    }
}

/// The index follows the attachments: after a tag was attached to a hash, or an
/// attachment was retired or came back, and the triggers ran, the row of that hash has
/// the names of its live tags, and the index is again what building it anew would make.
pub proof fn law_index_follows_the_attachments(
    s: Sources,
    k: int,
    new: LinkEntry,
    states: Seq<Index>,
    before: Index,
    after: Index,
)
    requires
        0 <= k <= s.tags.links.len(),
        k < s.tags.links.len() ==> s.tags.links[k].hash == new.hash,
        k == s.tags.links.len() ==> new.deleted_at is None,
        in_order(s, before),
        forall|i: int|
            0 <= i < s.catalog.files.len() ==> #[trigger] triggers_make(
                link_change(s, k, new),
                with_link_row(s, k, new),
                i,
                states,
            ),
        states.first() == before,
        states.last() == after,
    ensures
        in_order(with_link_row(s, k, new), after),
        forall|i: int|
            0 <= i < s.catalog.files.len() && s.catalog.files[i].hash == Some(new.hash)
                && #[trigger] located(s.catalog, i) ==> after.contains_key(
                s.catalog.files[i].file_uuid,
            ) && holds_tags(
                with_link_row(s, k, new).tags,
                Some(new.hash),
                after[s.catalog.files[i].file_uuid].tags,
            ),
{
    let next = with_link_row(s, k, new);
    let change = link_change(s, k, new);
    let c = s.catalog;
    let m: int = if change.adds() {
        10
    } else {
        11
    };
    lemma_conditions();
    lemma_file_tags_columns();
    assert forall|n: int| 0 <= n < 18 && n != m implies !change.sets_off(
        #[trigger] fts_table()[n],
        c,
    ) by {
        lemma_trigger_tables(0);
        lemma_trigger_tables(n);
    }
    lemma_trigger_tables(0);
    lemma_trigger_tables(m);
    assert(change.sets_off(fts_table()[m], c));
    assert forall|i: int| 0 <= i < c.files.len() implies #[trigger] made_anew(next, i, after) by {
        let u = c.files[i].file_uuid;
        assert(triggers_make(change, next, i, states));
        lemma_alone(change, next, i, states, m);
        assert(states.first() == states[0]);
        assert(made_anew(s, i, before));
        if located(c, i) {
            let l = choose|l: int| #[trigger] live_of(c, i, l);
            let j = lemma_first_seen_exists(c, i, l);
            assert(row_of(s, i, j, before[u]));
        }
        assert forall|j: int| #[trigger] represents(c, i, j) implies row_of(next, i, j, after[u]) by {
            assert(live_of(c, i, j));
            let e = before[u];
            assert(row_of(s, i, j, e));
            if e.hash != Some(new.hash) {
                assert forall|p: (int, int)| #[trigger]
                    (tag_names(next.tags, e.hash).takes)(p) == (tag_names(s.tags, e.hash).takes)(
                        p,
                    ) by {
                    if 0 <= p.0 < s.tags.links.len() && p.0 != k {
                        assert(next.tags.links[p.0] == s.tags.links[p.0]);
                    }
                }
                lemma_tags_carry(s.tags, next.tags, e.hash, e.tags);
            }
        }
    }
    assert forall|i: int|
        0 <= i < c.files.len() && c.files[i].hash == Some(new.hash) && #[trigger] located(
            c,
            i,
        ) implies after.contains_key(c.files[i].file_uuid) && holds_tags(
        next.tags,
        Some(new.hash),
        after[c.files[i].file_uuid].tags,
    ) by {
        assert(made_anew(next, i, after));
        let l = choose|l: int| #[trigger] live_of(c, i, l);
        let j = lemma_first_seen_exists(c, i, l);
        assert(row_of(next, i, j, after[c.files[i].file_uuid]));
    }
}

/// The tables with another tag at `k`, or with one more.
pub open spec fn with_tag_row(s: Sources, k: int, new: TagEntry) -> Sources {
    Sources {
        tags: TagTables {
            tags: if k < s.tags.tags.len() {
                s.tags.tags.update(k, new)
            } else {
                s.tags.tags.push(new)
            },
            ..s.tags
        },
        ..s
    }
}

/// That change.
pub open spec fn tag_change(s: Sources, k: int, new: TagEntry) -> Change {
    Change::Tag {
        old: if k < s.tags.tags.len() {
            Some(s.tags.tags[k])
        } else {
            None
        },
        new,
    }
}

/// The index follows the tags: after a tag was made, renamed, retired or brought back,
/// and the triggers ran, the index is again what building it anew would make. A tag
/// that is made is attached to nothing yet.
pub proof fn law_index_follows_the_tags(
    s: Sources,
    k: int,
    new: TagEntry,
    states: Seq<Index>,
    before: Index,
    after: Index,
)
    requires
        0 <= k <= s.tags.tags.len(),
        k < s.tags.tags.len() ==> s.tags.tags[k].id == new.id,
        k == s.tags.tags.len() ==> forall|l: int|
            0 <= l < s.tags.links.len() ==> (#[trigger] s.tags.links[l]).tag != new.id,
        in_order(s, before),
        forall|i: int|
            0 <= i < s.catalog.files.len() ==> #[trigger] triggers_make(
                tag_change(s, k, new),
                with_tag_row(s, k, new),
                i,
                states,
            ),
        states.first() == before,
        states.last() == after,
    ensures
        in_order(with_tag_row(s, k, new), after),
{
    let next = with_tag_row(s, k, new);
    let change = tag_change(s, k, new);
    let c = s.catalog;
    lemma_conditions();
    lemma_tags_columns();
    lemma_trigger_tables(0);
    let renamed = k < s.tags.tags.len() && s.tags.tags[k].name != new.name;
    let turned = k < s.tags.tags.len() && (s.tags.tags[k].deleted_at is None) != (new.deleted_at
        is None);
    assert forall|n: int| 0 <= n < 18 && n != 12 && n != 13 implies !change.sets_off(
        #[trigger] fts_table()[n],
        c,
    ) by {
        lemma_trigger_tables(n);
    }
    lemma_trigger_tables(12);
    lemma_trigger_tables(13);
    assert(change.sets_off(fts_table()[12], c) == renamed);
    assert(change.sets_off(fts_table()[13], c) == turned);
    assert forall|i: int| 0 <= i < c.files.len() implies #[trigger] made_anew(next, i, after) by {
        let u = c.files[i].file_uuid;
        assert(triggers_make(change, next, i, states));
        lemma_quiet(change, next, i, states, 0, 12);
        lemma_quiet(change, next, i, states, 14, 18);
        assert(step_makes(change, next, i, states, 12));
        assert(step_makes(change, next, i, states, 13));
        assert(states.first() == states[0]);
        assert(made_anew(s, i, before));
        if located(c, i) {
            let l = choose|l: int| #[trigger] live_of(c, i, l);
            let j = lemma_first_seen_exists(c, i, l);
            assert(row_of(s, i, j, before[u]));
        }
        assert forall|j: int| #[trigger] represents(c, i, j) implies row_of(next, i, j, after[u]) by {
            assert(live_of(c, i, j));
            let e = before[u];
            assert(row_of(s, i, j, e));
            assert(before.contains_key(u));
            if !((renamed || turned) && carries(next.tags, e.hash, new.id)) {
                assert forall|p: (int, int)| #[trigger]
                    (tag_names(next.tags, e.hash).takes)(p) == (tag_names(s.tags, e.hash).takes)(
                        p,
                    ) by {
                    if 0 <= p.1 < s.tags.tags.len() && p.1 != k {
                        assert(next.tags.tags[p.1] == s.tags.tags[p.1]);
                    }
                    if p.1 == k && 0 <= p.0 < s.tags.links.len() {
                        let link = next.tags.links[p.0];
                        if link.deleted_at is None && link.tag == new.id && e.hash == Some(
                            link.hash,
                        ) {
                            assert(carries(next.tags, e.hash, new.id));
                        }
                    }
                }
                assert forall|p: (int, int)| #[trigger]
                    (tag_names(s.tags, e.hash).takes)(p) implies next.tags.tags[p.1].name
                    == s.tags.tags[p.1].name by {
                    if p.1 == k {
                        let link = next.tags.links[p.0];
                        assert(link.deleted_at is None && link.tag == new.id && e.hash == Some(
                            link.hash,
                        ));
                        assert(carries(next.tags, e.hash, new.id));
                    } else {
                        assert(next.tags.tags[p.1] == s.tags.tags[p.1]);
                    }
                }
                lemma_tags_carry(s.tags, next.tags, e.hash, e.tags);
            }
        }
    }
}

/// The tables with another location at `k`, or with one more.
pub open spec fn with_location_row(s: Sources, k: int, new: LocationEntry) -> Sources {
    Sources {
        catalog: Catalog {
            locations: if k < s.catalog.locations.len() {
                s.catalog.locations.update(k, new)
            } else {
                s.catalog.locations.push(new)
            },
            ..s.catalog
        },
        ..s
    }
}

/// That change.
pub open spec fn location_change(s: Sources, k: int, new: LocationEntry) -> Change {
    Change::Location {
        k,
        old: if k < s.catalog.locations.len() {
            Some(s.catalog.locations[k])
        } else {
            None
        },
        new,
    }
}

/// Whether a location changes in a way that the triggers see: it keeps what identifies
/// it and the file that it names, at most one of its hash, its path and its retirement
/// changes, a live one does not get its first hash or lose its hash, and where a live
/// one moves, every live location names the file that it belongs to.
pub open spec fn seen_by_triggers(s: Sources, k: int, new: LocationEntry) -> bool {
    k < s.catalog.locations.len() ==> {
        let old = s.catalog.locations[k];
        let next = with_location_row(s, k, new).catalog;
        &&& new.id == old.id
        &&& new.first_seen == old.first_seen
        &&& new.file_uuid == old.file_uuid
        &&& new.hash == old.hash || (new.path == old.path && new.deleted_at == old.deleted_at && (
        new.deleted_at is None ==> old.hash is Some && new.hash is Some))
        &&& new.path == old.path || (new.deleted_at == old.deleted_at && (new.deleted_at is None
            ==> forall|i: int, l: int| #[trigger]
            live_of(next, i, l) ==> next.locations[l].file_uuid == Some(next.files[i].file_uuid)))
    }
}

/// Whether the trigger at `m` is the one that a change of a location sets off.
spec fn location_trigger(s: Sources, k: int, new: LocationEntry, m: int) -> bool {
    let next = with_location_row(s, k, new).catalog;
    if k >= s.catalog.locations.len() {
        m == 3 && new.deleted_at is None
    } else {
        let old = s.catalog.locations[k];
        ||| m == 4 && old.hash is Some && new.hash is Some && old.hash != new.hash && new.deleted_at
            is None
        ||| m == 5 && old.path != new.path && new.deleted_at is None && first_of_its_name(next, k)
        ||| m == 6 && old.deleted_at is None && new.deleted_at is Some
        ||| m == 7 && old.deleted_at is Some && new.deleted_at is None
    }
}

proof fn lemma_location_trigger(s: Sources, k: int, new: LocationEntry, m: int)
    requires
        0 <= k <= s.catalog.locations.len(),
        0 <= m < 18,
    ensures
        location_change(s, k, new).sets_off(
            fts_table()[m],
            with_location_row(s, k, new).catalog,
        ) == location_trigger(s, k, new, m),
{
    lemma_conditions();
    lemma_file_locations_columns();
    lemma_trigger_tables(0);
    lemma_trigger_tables(m);
    let change = location_change(s, k, new);
    let c = with_location_row(s, k, new).catalog;
    reveal_strlit("blake3_hash");
    reveal_strlit("relative_path");
    reveal_strlit("deleted_at");
    let a = fts_table()[m];
    if m == 3 {
        assert(a.when == Some("NEW.deleted_at IS NULL"));
    } else if m == 4 {
        assert(a.event == TriggerEvent::UpdateOf("blake3_hash"));
    } else if m == 5 {
        assert(a.event == TriggerEvent::UpdateOf("relative_path"));
        assert(a.when == Some(RENAME_GUARD));
    } else if m == 6 {
        assert(a.event == TriggerEvent::UpdateOf("deleted_at"));
    } else if m == 7 {
        assert(a.event == TriggerEvent::UpdateOf("deleted_at"));
    }
}

/// The index follows the locations: after a location was added, got another hash,
/// moved, was retired or came back, in a way that the triggers see, and the triggers
/// ran, the index is again what building it anew would make.
pub proof fn law_index_follows_the_locations(
    s: Sources,
    k: int,
    new: LocationEntry,
    states: Seq<Index>,
    before: Index,
    after: Index,
)
    requires
        s.catalog.wf(),
        with_location_row(s, k, new).catalog.wf(),
        0 <= k <= s.catalog.locations.len(),
        seen_by_triggers(s, k, new),
        in_order(s, before),
        forall|i: int|
            0 <= i < s.catalog.files.len() ==> #[trigger] triggers_make(
                location_change(s, k, new),
                with_location_row(s, k, new),
                i,
                states,
            ),
        states.first() == before,
        states.last() == after,
    ensures
        in_order(with_location_row(s, k, new), after),
{
    let next = with_location_row(s, k, new);
    assert forall|i: int| 0 <= i < next.catalog.files.len() implies #[trigger] made_anew(
        next,
        i,
        after,
    ) by {
        lemma_index_follows_a_location(s, k, new, states, before, after, i);
    }
}

proof fn lemma_index_follows_a_location(
    s: Sources,
    k: int,
    new: LocationEntry,
    states: Seq<Index>,
    before: Index,
    after: Index,
    i: int,
)
    requires
        s.catalog.wf(),
        with_location_row(s, k, new).catalog.wf(),
        0 <= k <= s.catalog.locations.len(),
        seen_by_triggers(s, k, new),
        in_order(s, before),
        0 <= i < s.catalog.files.len(),
        triggers_make(location_change(s, k, new), with_location_row(s, k, new), i, states),
        states.first() == before,
        states.last() == after,
    ensures
        made_anew(with_location_row(s, k, new), i, after),
{
    let next = with_location_row(s, k, new);
    let change = location_change(s, k, new);
    let c = s.catalog;
    let d = next.catalog;
    let u = c.files[i].file_uuid;
    assert(made_anew(s, i, before));
    assert(states.first() == states[0]);
    assert forall|m: int| 0 <= m < 18 implies change.sets_off(#[trigger] fts_table()[m], d)
        == location_trigger(s, k, new, m) by {
        lemma_location_trigger(s, k, new, m);
    }
    lemma_trigger_tables(0);
    assert(d.files == c.files);
    assert forall|h: Seq<char>| #[trigger] d.has_hash(h) == c.has_hash(h) by {}
    let m: int = if k >= c.locations.len() {
        3
    } else if c.locations[k].hash != new.hash {
        4
    } else if c.locations[k].path != new.path {
        5
    } else if c.locations[k].deleted_at is None {
        6
    } else {
        7
    };
    assert forall|n: int| 0 <= n < 18 && n != m implies !change.sets_off(
        #[trigger] fts_table()[n],
        d,
    ) by {
        assert(!location_trigger(s, k, new, n));
    }
    lemma_alone(change, next, i, states, m);
    assert(change.sets_off(fts_table()[m], d) == location_trigger(s, k, new, m));
    // The other locations of the file are as they were.
    assert forall|l: int| l != k implies #[trigger] live_of(d, i, l) == live_of(c, i, l) by {
        if 0 <= l < c.locations.len() {
            assert(d.locations[l] == c.locations[l]);
        }
    }
    if m != 5 && location_trigger(s, k, new, m) {
        let touched = owns(d, i, new) || (m == 4 && owns(d, i, c.locations[k]));
        if !touched {
            assert(!live_of(d, i, k));
            assert(!live_of(c, i, k)) by {
                if k < c.locations.len() {
                    assert(c.belongs(i, k) == owns(d, i, c.locations[k]));
                }
            }
            lemma_row_stays(s, next, k, i, before, after);
        }
    } else if m == 5 && location_trigger(s, k, new, m) {
        lemma_moved_row(s, k, new, before, after, i);
    } else {
        // No trigger is set off.
        assert(same_row(before, after, u));
        if m == 5 && new.deleted_at is None && represents(d, i, k) {
            lemma_guard_sees_the_representative(s, k, new, i);
        }
        assert(live_of(d, i, k) == live_of(c, i, k)) by {
            if k < c.locations.len() {
                assert(c.belongs(i, k) == owns(d, i, c.locations[k]));
                assert(d.belongs(i, k) == owns(d, i, new));
            }
        }
        lemma_row_stays(s, next, k, i, before, after);
    }
}

/// Where a file has the same live locations, seen in the same order, and the path of
/// the one that stands for it stays, its row stays right.
proof fn lemma_row_stays(s: Sources, next: Sources, k: int, i: int, before: Index, after: Index)
    requires
        next.metadata == s.metadata,
        next.tags == s.tags,
        next.catalog.files == s.catalog.files,
        0 <= i < s.catalog.files.len(),
        made_anew(s, i, before),
        same_row(before, after, s.catalog.files[i].file_uuid),
        forall|l: int| #[trigger]
            live_of(next.catalog, i, l) == live_of(s.catalog, i, l),
        forall|l: int| #[trigger]
            live_of(s.catalog, i, l) ==> next.catalog.locations[l].first_seen
                == s.catalog.locations[l].first_seen && next.catalog.locations[l].id
                == s.catalog.locations[l].id,
        forall|l: int| #[trigger]
            represents(next.catalog, i, l) ==> next.catalog.locations[l].path
                == s.catalog.locations[l].path,
    ensures
        made_anew(next, i, after),
{
    let c = s.catalog;
    let d = next.catalog;
    let u = c.files[i].file_uuid;
    assert(located(d, i) == located(c, i)) by {
        if located(c, i) {
            let l = choose|l: int| #[trigger] live_of(c, i, l);
            assert(live_of(d, i, l));
        }
        if located(d, i) {
            let l = choose|l: int| #[trigger] live_of(d, i, l);
            assert(live_of(c, i, l));
        }
    }
    assert forall|j: int| #[trigger] represents(d, i, j) implies row_of(next, i, j, after[u]) by {
        assert(live_of(d, i, j));
        assert(live_of(c, i, j));
        assert forall|l: int| #[trigger] live_of(c, i, l) implies seen_le(c, j, l) by {
            assert(live_of(d, i, l));
            assert(seen_le(d, j, l));
        }
        assert(represents(c, i, j));
        assert(row_of(s, i, j, before[u]));
    }
}

/// A live location that moves and stands for its file is the first that names it.
proof fn lemma_guard_sees_the_representative(s: Sources, k: int, new: LocationEntry, i: int)
    requires
        with_location_row(s, k, new).catalog.wf(),
        0 <= k < s.catalog.locations.len(),
        seen_by_triggers(s, k, new),
        s.catalog.locations[k].path != new.path,
        new.deleted_at is None,
        represents(with_location_row(s, k, new).catalog, i, k),
    ensures
        first_of_its_name(with_location_row(s, k, new).catalog, k),
{
    let d = with_location_row(s, k, new).catalog;
    assert(live_of(d, i, k));
    assert forall|l: int|
        0 <= l < d.locations.len() && (#[trigger] d.locations[l]).deleted_at is None
            && d.locations[l].file_uuid == d.locations[k].file_uuid implies seen_le(d, k, l) by {
        let h = d.locations[l].hash;
        if h is Some && d.has_hash(h->0) {
            let n = choose|n: int| 0 <= n < d.files.len() && (#[trigger] d.files[n]).hash == Some(h->0);
            assert(d.belongs(n, l));
            assert(live_of(d, n, l));
            assert(d.files[n].file_uuid == d.files[i].file_uuid);
            assert(n == i);
        } else {
            assert(d.belongs(i, l));
        }
        assert(live_of(d, i, l));
    }
}

proof fn lemma_moved_row(
    s: Sources,
    k: int,
    new: LocationEntry,
    before: Index,
    after: Index,
    i: int,
)
    requires
        with_location_row(s, k, new).catalog.wf(),
        0 <= k < s.catalog.locations.len(),
        seen_by_triggers(s, k, new),
        s.catalog.locations[k].path != new.path,
        s.catalog.locations[k].hash == new.hash,
        new.deleted_at is None,
        0 <= i < s.catalog.files.len(),
        made_anew(s, i, before),
        ({
            let u = s.catalog.files[i].file_uuid;
            if before.contains_key(u) && represents(with_location_row(s, k, new).catalog, i, k) {
                after.contains_key(u) && after[u] == (ContentEntry {
                    filename: new.path,
                    path: new.path,
                    ..before[u]
                })
            } else {
                same_row(before, after, u)
            }
        }),
    ensures
        made_anew(with_location_row(s, k, new), i, after),
{
    let next = with_location_row(s, k, new);
    let c = s.catalog;
    let d = next.catalog;
    let u = c.files[i].file_uuid;
    assert forall|h: Seq<char>| #[trigger] d.has_hash(h) == c.has_hash(h) by {}
    assert forall|l: int| #[trigger] live_of(d, i, l) == live_of(c, i, l) by {
        if 0 <= l < c.locations.len() && l != k {
            assert(d.locations[l] == c.locations[l]);
        }
    }
    if represents(d, i, k) {
        assert(live_of(d, i, k) && live_of(c, i, k));
        assert(located(c, i) && located(d, i));
        assert forall|l: int| #[trigger] live_of(c, i, l) implies seen_le(c, k, l) by {
            assert(live_of(d, i, l));
            assert(seen_le(d, k, l));
        }
        assert(represents(c, i, k));
        assert(row_of(s, i, k, before[u]));
        assert forall|j: int| #[trigger] represents(d, i, j) implies row_of(next, i, j, after[u]) by {
            lemma_one_representative(d, i, k, j);
        }
    } else {
        assert forall|l: int| #[trigger] represents(d, i, l) implies d.locations[l].path
            == c.locations[l].path by {
            assert(live_of(d, i, l));
        }
        lemma_row_stays(s, next, k, i, before, after);
    }
}

/// An index that was built anew is in order.
pub proof fn law_rebuilt_index_is_in_order(
    s: Sources,
    old: Seq<ContentEntry>,
    content: Seq<ContentEntry>,
    index: Index,
)
    requires
        s.catalog.wf(),
        rebuilds(s, old, content),
        forall|u: Seq<char>| #[trigger] index.contains_key(u) <==> has_row(content, u),
        forall|n: int|
            0 <= n < content.len() ==> index[(#[trigger] content[n]).file_uuid] == content[n],
    ensures
        in_order(s, index),
{
    let c = s.catalog;
    let q = rebuilt(s);
    let places = lemma_rebuilt_places(s, old, content);
    assert forall|i: int| 0 <= i < c.files.len() implies #[trigger] made_anew(s, i, index) by {
        let u = c.files[i].file_uuid;
        if has_row(content, u) {
            let n = choose|n: int| 0 <= n < content.len() && (#[trigger] content[n]).file_uuid == u;
            assert((q.takes)(places[n]) && (q.shows)(places[n], content[n]));
            assert(row_of(s, places[n].0, places[n].1, content[n]));
            assert(live_of(c, places[n].0, places[n].1));
            assert(places[n].0 == i);
        }
        if located(c, i) {
            let k = choose|k: int| #[trigger] live_of(c, i, k);
            law_rebuild_has_one_row_for_each_file(s, old, content);
            let n = choose|n: int| 0 <= n < content.len() && (#[trigger] content[n]).file_uuid == u;
            assert(content[n].file_uuid == u);
            assert(has_row(content, u));
        }
        assert forall|j: int| #[trigger] represents(c, i, j) implies row_of(s, i, j, index[u]) by {
            assert((q.takes)((i, j)));
            law_taken_place_is_listed(q, places, content, (i, j));
            let n = choose|n: int|
                0 <= n < content.len() && places[n] == (i, j) && (q.shows)(
                    (i, j),
                    #[trigger] content[n],
                );
            assert(row_of(s, i, j, content[n]));
        }
    }
}

} // verus!
