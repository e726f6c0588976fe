//! The statements that install the triggers of the full-text indexes.
use vstd::prelude::*;
use vstd::string::*;

use crate::db::schema::spec::{
    fts_aggregations, fts_table, legacy_names, legacy_trigger_names, BodyKind, FtsAggregation,
    TriggerEvent,
};
use crate::errors::CoreError;
use crate::text::{cat, cat3, same_text};

pub mod spec;

verus! {

/// The template of the trigger bodies: one macro for each body, and at the end the
/// choice among them by the name in `body`.
///
/// `search_content` has one row for each file with a live location, under the
/// identifier of the file and with its hash. Its representative location, the live
/// one that was seen first, gives the path; the live metadata and the names of the
/// live tags are those of the hash. The file of a location is the one with its hash,
/// or, where no file has that, the one that the location names. `search_index` indexes its rows, `transcript_search` the live
/// segments of transcripts.
pub const FTS_TEMPLATE: &'static str = "{%- macro columns(row) -%}
{{ row }}.filename, {{ row }}.relative_path, {{ row }}.mime_type, {{ row }}.camera_model, {{ row }}.captured_at, {{ row }}.tags
{%- endmacro -%}
{%- macro index_row() -%}
  INSERT INTO search_index(rowid, filename, relative_path, mime_type, camera_model, captured_at, tags)
  VALUES (NEW.rowid, {{ columns('NEW') }});
{%- endmacro -%}
{%- macro unindex_row() -%}
  INSERT INTO search_index(search_index, rowid, filename, relative_path, mime_type, camera_model, captured_at, tags)
  VALUES ('delete', OLD.rowid, {{ columns('OLD') }});
{%- endmacro -%}
{%- macro tag_names(hash) -%}
COALESCE((SELECT GROUP_CONCAT(t.name, ' ')
            FROM file_tags ft
            JOIN tags t ON t.id = ft.tag_id
           WHERE ft.blake3_hash = {{ hash }}
             AND ft.deleted_at IS NULL
             AND t.deleted_at IS NULL), '')
{%- endmacro -%}
{%- macro metadata(column, hash) -%}
COALESCE((SELECT m.{{ column }} FROM file_metadata m
           WHERE m.blake3_hash = {{ hash }} AND m.deleted_at IS NULL), '')
{%- endmacro -%}
{%- macro file_of(hash, file) -%}
COALESCE((SELECT f.file_uuid FROM files f WHERE f.blake3_hash = {{ hash }}), {{ file }})
{%- endmacro -%}
{%- macro representative(column, file) -%}
(SELECT fl.{{ column }}
   FROM file_locations fl
   JOIN files f
     ON f.blake3_hash = fl.blake3_hash
     OR (f.file_uuid = fl.file_uuid
         AND NOT EXISTS (SELECT 1 FROM files g WHERE g.blake3_hash = fl.blake3_hash))
  WHERE f.file_uuid = {{ file }} AND fl.deleted_at IS NULL
  ORDER BY fl.first_seen ASC, fl.id ASC LIMIT 1)
{%- endmacro -%}
{%- macro seed(file) -%}
  INSERT OR IGNORE INTO search_content
    (file_uuid, blake3_hash, filename, relative_path, mime_type, camera_model, captured_at, tags)
  SELECT f.file_uuid, f.blake3_hash, {{ representative('relative_path', 'f.file_uuid') }}, {{ representative('relative_path', 'f.file_uuid') }},
         {{ metadata('mime_type', 'f.blake3_hash') }},
         {{ metadata('camera_model', 'f.blake3_hash') }},
         {{ metadata('captured_at', 'f.blake3_hash') }},
         {{ tag_names('f.blake3_hash') }}
    FROM files f
   WHERE f.file_uuid = {{ file }} AND {{ representative('id', 'f.file_uuid') }} IS NOT NULL;
{%- endmacro -%}
{%- macro refresh(file) -%}
{{ seed(file) }}
  UPDATE search_content
     SET blake3_hash = (SELECT f.blake3_hash FROM files f WHERE f.file_uuid = search_content.file_uuid),
         filename = {{ representative('relative_path', 'search_content.file_uuid') }},
         relative_path = {{ representative('relative_path', 'search_content.file_uuid') }},
         mime_type = {{ metadata('mime_type', '(SELECT f.blake3_hash FROM files f WHERE f.file_uuid = search_content.file_uuid)') }},
         camera_model = {{ metadata('camera_model', '(SELECT f.blake3_hash FROM files f WHERE f.file_uuid = search_content.file_uuid)') }},
         captured_at = {{ metadata('captured_at', '(SELECT f.blake3_hash FROM files f WHERE f.file_uuid = search_content.file_uuid)') }},
         tags = {{ tag_names('(SELECT f.blake3_hash FROM files f WHERE f.file_uuid = search_content.file_uuid)') }}
   WHERE file_uuid = {{ file }} AND {{ representative('id', 'search_content.file_uuid') }} IS NOT NULL;
  DELETE FROM search_content
   WHERE file_uuid = {{ file }} AND {{ representative('id', 'search_content.file_uuid') }} IS NULL;
{%- endmacro -%}
{%- macro refresh_tags_of_hash() -%}
  UPDATE search_content SET tags = {{ tag_names('NEW.blake3_hash') }} WHERE blake3_hash = NEW.blake3_hash;
{%- endmacro -%}
{%- macro refresh_tags_of_holders(row) -%}
  UPDATE search_content SET tags = {{ tag_names('search_content.blake3_hash') }}
   WHERE blake3_hash IN (SELECT blake3_hash FROM file_tags WHERE tag_id = {{ row }}.id AND deleted_at IS NULL);
{%- endmacro -%}
{%- macro index_segment() -%}
  INSERT INTO transcript_search(rowid, text) SELECT NEW.rowid, NEW.text WHERE NEW.deleted_at IS NULL;
{%- endmacro -%}
{%- macro unindex_segment() -%}
  DELETE FROM transcript_search WHERE rowid = OLD.rowid;
{%- endmacro -%}
{%- if body == 'SearchContentAfterInsert' -%}
{{ index_row() }}
{%- elif body == 'SearchContentAfterUpdate' -%}
{{ unindex_row() }}
{{ index_row() }}
{%- elif body == 'SearchContentAfterDelete' -%}
{{ unindex_row() }}
{%- elif body == 'FileLocationsInsert' -%}
{{ refresh(file_of('NEW.blake3_hash', 'NEW.file_uuid')) }}
{%- elif body == 'LocationHashChangeSeed' -%}
{{ refresh(file_of('NEW.blake3_hash', 'NEW.file_uuid')) }}
{{ refresh(file_of('OLD.blake3_hash', 'OLD.file_uuid')) }}
{%- elif body == 'RenameRepresentative' -%}
  UPDATE search_content SET filename = NEW.relative_path, relative_path = NEW.relative_path
   WHERE file_uuid = {{ file_of('NEW.blake3_hash', 'NEW.file_uuid') }}
     AND NEW.id = {{ representative('id', 'search_content.file_uuid') }};
{%- elif body == 'LocationSoftDelete' -%}
{{ refresh(file_of('NEW.blake3_hash', 'NEW.file_uuid')) }}
{%- elif body == 'LocationRestore' -%}
{{ refresh(file_of('NEW.blake3_hash', 'NEW.file_uuid')) }}
{%- elif body == 'MetadataInsert' -%}
{{ seed('(SELECT g.file_uuid FROM files g WHERE g.blake3_hash = NEW.blake3_hash)') }}
  UPDATE search_content
     SET mime_type = COALESCE(NEW.mime_type, ''),
         camera_model = COALESCE(NEW.camera_model, ''),
         captured_at = COALESCE(NEW.captured_at, '')
   WHERE blake3_hash = NEW.blake3_hash;
{%- elif body == 'MetadataUpdate' -%}
  UPDATE search_content
     SET mime_type = CASE WHEN NEW.deleted_at IS NULL THEN COALESCE(NEW.mime_type, '') ELSE '' END,
         camera_model = CASE WHEN NEW.deleted_at IS NULL THEN COALESCE(NEW.camera_model, '') ELSE '' END,
         captured_at = CASE WHEN NEW.deleted_at IS NULL THEN COALESCE(NEW.captured_at, '') ELSE '' END
   WHERE blake3_hash = NEW.blake3_hash;
{%- elif body == 'FileTagsInsert' -%}
{{ seed('(SELECT g.file_uuid FROM files g WHERE g.blake3_hash = NEW.blake3_hash)') }}
{{ refresh_tags_of_hash() }}
{%- elif body == 'FileTagsUpdate' -%}
{{ refresh_tags_of_hash() }}
{%- elif body == 'TagsNameUpdate' -%}
{{ refresh_tags_of_holders('NEW') }}
{%- elif body == 'TagsSoftDeleteOrRestore' -%}
{{ refresh_tags_of_holders('NEW') }}
{%- elif body == 'TagsDelete' -%}
{{ refresh_tags_of_holders('OLD') }}
{%- elif body == 'TranscriptSegmentAfterInsert' -%}
{{ index_segment() }}
{%- elif body == 'TranscriptSegmentAfterDelete' -%}
{{ unindex_segment() }}
{%- elif body == 'TranscriptSegmentAfterUpdate' -%}
{{ unindex_segment() }}
{{ index_segment() }}
{%- endif -%}";

/// The name by which the template knows a body.
pub open spec fn body_name(b: BodyKind) -> Seq<char> {
    match b {
        BodyKind::SearchContentAfterInsert => "SearchContentAfterInsert"@,
        BodyKind::SearchContentAfterUpdate => "SearchContentAfterUpdate"@,
        BodyKind::SearchContentAfterDelete => "SearchContentAfterDelete"@,
        BodyKind::FileLocationsInsert => "FileLocationsInsert"@,
        BodyKind::LocationHashChangeSeed => "LocationHashChangeSeed"@,
        BodyKind::RenameRepresentative => "RenameRepresentative"@,
        BodyKind::LocationSoftDelete => "LocationSoftDelete"@,
        BodyKind::LocationRestore => "LocationRestore"@,
        BodyKind::MetadataInsert => "MetadataInsert"@,
        BodyKind::MetadataUpdate => "MetadataUpdate"@,
        BodyKind::FileTagsInsert => "FileTagsInsert"@,
        BodyKind::FileTagsUpdate => "FileTagsUpdate"@,
        BodyKind::TagsNameUpdate => "TagsNameUpdate"@,
        BodyKind::TagsSoftDeleteOrRestore => "TagsSoftDeleteOrRestore"@,
        BodyKind::TagsDelete => "TagsDelete"@,
        BodyKind::TranscriptSegmentAfterInsert => "TranscriptSegmentAfterInsert"@,
        BodyKind::TranscriptSegmentAfterDelete => "TranscriptSegmentAfterDelete"@,
        BodyKind::TranscriptSegmentAfterUpdate => "TranscriptSegmentAfterUpdate"@,
    }
}

/// The name by which the template knows a body.
pub fn body_kind_name(b: BodyKind) -> (r: &'static str)
    ensures
        r@ == body_name(b),
{
    match b {
        BodyKind::SearchContentAfterInsert => "SearchContentAfterInsert",
        BodyKind::SearchContentAfterUpdate => "SearchContentAfterUpdate",
        BodyKind::SearchContentAfterDelete => "SearchContentAfterDelete",
        BodyKind::FileLocationsInsert => "FileLocationsInsert",
        BodyKind::LocationHashChangeSeed => "LocationHashChangeSeed",
        BodyKind::RenameRepresentative => "RenameRepresentative",
        BodyKind::LocationSoftDelete => "LocationSoftDelete",
        BodyKind::LocationRestore => "LocationRestore",
        BodyKind::MetadataInsert => "MetadataInsert",
        BodyKind::MetadataUpdate => "MetadataUpdate",
        BodyKind::FileTagsInsert => "FileTagsInsert",
        BodyKind::FileTagsUpdate => "FileTagsUpdate",
        BodyKind::TagsNameUpdate => "TagsNameUpdate",
        BodyKind::TagsSoftDeleteOrRestore => "TagsSoftDeleteOrRestore",
        BodyKind::TagsDelete => "TagsDelete",
        BodyKind::TranscriptSegmentAfterInsert => "TranscriptSegmentAfterInsert",
        BodyKind::TranscriptSegmentAfterDelete => "TranscriptSegmentAfterDelete",
        BodyKind::TranscriptSegmentAfterUpdate => "TranscriptSegmentAfterUpdate",
    }
}

/// A template rendered by the crate `minijinja`, with the variable `body`.
pub uninterp spec fn rendered_template(template: Seq<char>, body: Seq<char>) -> Seq<char>;

/// Calls `minijinja::Environment::render_str` on an empty environment, with a
/// context that holds `body` alone. The result depends on the template and the
/// variable alone, and is named: it takes the template language to state. The
/// call fails on a template that does not parse, so only the template of the
/// trigger bodies is admitted.
#[verifier::external_body]
fn render_body(template: &str, body: &str) -> (r: String)
    requires
        template@ == FTS_TEMPLATE@,
    ensures
        r@ == rendered_template(template@, body@),
{
    minijinja::Environment::empty()
        .render_str(template, minijinja::Value::from_iter([("body", body)]))
        .expect("the template renders")
}

/// What sets a trigger off, as the statement has it.
pub open spec fn event_text(e: TriggerEvent) -> Seq<char> {
    match e {
        TriggerEvent::Insert => "INSERT"@,
        TriggerEvent::Update => "UPDATE"@,
        TriggerEvent::UpdateOf(col) => "UPDATE OF "@ + col@,
        TriggerEvent::Delete => "DELETE"@,
    }
}

fn event_clause(e: &TriggerEvent) -> (r: String)
    ensures
        r@ == event_text(*e),
{
    match e {
        TriggerEvent::Insert => "INSERT".to_owned(),
        TriggerEvent::Update => "UPDATE".to_owned(),
        TriggerEvent::UpdateOf(col) => cat("UPDATE OF ", col),
        TriggerEvent::Delete => "DELETE".to_owned(),
    }
}

/// When a trigger acts, as the statement has it.
pub open spec fn when_text(when: Option<&'static str>) -> Seq<char> {
    match when {
        Some(w) => "\nWHEN "@ + w@,
        None => ""@,
    }
}

/// The statement that drops a trigger, if it is there.
pub open spec fn drop_text(name: Seq<char>) -> Seq<char> {
    "DROP TRIGGER IF EXISTS "@ + name + ";\n"@
}

/// The statement that makes a trigger with a body.
pub open spec fn create_text_with(a: FtsAggregation, body: Seq<char>) -> Seq<char> {
    "CREATE TRIGGER "@ + a.name@ + "\nAFTER "@ + event_text(a.event) + " ON "@ + a.source_table@
        + when_text(a.when) + "\nBEGIN\n"@ + body + "\nEND;\n"@
}

/// The statement that makes a trigger, with its body from the template.
pub open spec fn create_text(a: FtsAggregation) -> Seq<char> {
    create_text_with(a, rendered_template(FTS_TEMPLATE@, body_name(a.body)))
}

/// The statements that drop triggers.
pub open spec fn drops_text(names: Seq<Seq<char>>) -> Seq<char>
    decreases names.len(),
{
    if names.len() == 0 {
        Seq::empty()
    } else {
        drops_text(names.drop_last()) + drop_text(names.last())
    }
}

/// The statements that make triggers.
pub open spec fn creates_text(aggs: Seq<FtsAggregation>) -> Seq<char>
    decreases aggs.len(),
{
    if aggs.len() == 0 {
        Seq::empty()
    } else {
        creates_text(aggs.drop_last()) + create_text(aggs.last())
    }
}

/// The names to drop: the ones that no longer exist, then the ones to be made.
pub open spec fn dropped_names(aggs: Seq<FtsAggregation>, legacy: Seq<&'static str>) -> Seq<
    Seq<char>,
> {
    legacy.map_values(|n: &'static str| n@) + aggs.map_values(|a: FtsAggregation| a.name@)
}

/// The statements that install triggers: every name is dropped before any trigger
/// is made.
pub open spec fn install_text(aggs: Seq<FtsAggregation>, legacy: Seq<&'static str>) -> Seq<char> {
    drops_text(dropped_names(aggs, legacy)) + creates_text(aggs)
}

/// The statement that makes a trigger with the given body.
pub fn create_statement_with(a: &FtsAggregation, body: &str) -> (r: String)
    ensures
        r@ == create_text_with(*a, body@),
{
    let mut s = cat3("CREATE TRIGGER ", a.name, "\nAFTER ");
    let event = event_clause(&a.event);
    s.append(event.as_str());
    s.append(" ON ");
    s.append(a.source_table);
    let ghost head = s@;
    match a.when {
        Some(w) => {
            s.append("\nWHEN ");
            s.append(w);
        },
        None => {},
    }
    proof {
        reveal_strlit("");
        assert(s@ =~= head + when_text(a.when));
    }
    s.append("\nBEGIN\n");
    s.append(body);
    s.append("\nEND;\n");
    s
}

fn create_statement(a: &FtsAggregation) -> (r: String)
    ensures
        r@ == create_text(*a),
{
    let body = render_body(FTS_TEMPLATE, body_kind_name(a.body));
    create_statement_with(a, body.as_str())
}

fn append_drop(s: &mut String, name: &str)
    ensures
        final(s)@ == old(s)@ + drop_text(name@),
{
    s.append("DROP TRIGGER IF EXISTS ");
    s.append(name);
    s.append(";\n");
    proof {
        assert(s@ =~= old(s)@ + drop_text(name@));
    }
}

/// The statements that install the given triggers, and drop the given names.
pub fn render_internal(aggs: &Vec<FtsAggregation>, legacy: &Vec<&'static str>) -> (r: String)
    ensures
        r@ == install_text(aggs@, legacy@),
{
    let ghost names = dropped_names(aggs@, legacy@);
    let mut s = String::new();
    let mut i: usize = 0;
    while i < legacy.len()
        invariant
            i <= legacy.len(),
            names == dropped_names(aggs@, legacy@),
            s@ == drops_text(names.take(i as int)),
        decreases legacy.len() - i,
    {
        append_drop(&mut s, legacy[i]);
        proof {
            assert(names.take(i + 1).drop_last() =~= names.take(i as int));
        }
        i += 1;
    }
    let mut j: usize = 0;
    while j < aggs.len()
        invariant
            j <= aggs.len(),
            names == dropped_names(aggs@, legacy@),
            s@ == drops_text(names.take(legacy@.len() + j)),
        decreases aggs.len() - j,
    {
        append_drop(&mut s, aggs[j].name);
        proof {
            let k = legacy@.len() + j;
            assert(names[k as int] == aggs@[j as int].name@);
            assert(names.take(k + 1).drop_last() =~= names.take(k as int));
        }
        j += 1;
    }
    let ghost head = s@;
    proof {
        assert(names.take(names.len() as int) =~= names);
        assert(head + creates_text(aggs@.take(0)) =~= head);
    }
    let mut k: usize = 0;
    while k < aggs.len()
        invariant
            k <= aggs.len(),
            s@ == head + creates_text(aggs@.take(k as int)),
        decreases aggs.len() - k,
    {
        let statement = create_statement(&aggs[k]);
        s.append(statement.as_str());
        proof {
            assert(aggs@.take(k + 1).drop_last() =~= aggs@.take(k as int));
            assert(s@ =~= head + creates_text(aggs@.take(k + 1)));
        }
        k += 1;
    }
    proof {
        assert(aggs@.take(aggs@.len() as int) =~= aggs@);
    }
    s
}

/// The statements that install all triggers.
pub fn render_fts_triggers() -> (r: String)
    ensures
        r@ == install_text(fts_table(), legacy_names()),
{
    let aggs = fts_aggregations();
    let legacy = legacy_trigger_names();
    render_internal(&aggs, &legacy)
}

/// The triggers on one table.
pub open spec fn triggers_on(aggs: Seq<FtsAggregation>, source: Seq<char>) -> Seq<FtsAggregation> {
    aggs.filter(|a: FtsAggregation| a.source_table@ == source)
}

/// The statements that install the triggers on one table.
pub fn render_for_source(source: &str) -> (r: String)
    ensures
        r@ == install_text(triggers_on(fts_table(), source@), Seq::empty()),
{
    let all = fts_aggregations();
    let mut aggs: Vec<FtsAggregation> = Vec::new();
    let mut i: usize = 0;
    proof {
        assert(triggers_on(all@.take(0), source@) =~= Seq::<FtsAggregation>::empty()) by {
            reveal(Seq::filter);
        }
    }
    while i < all.len()
        invariant
            i <= all.len(),
            aggs@ == triggers_on(all@.take(i as int), source@),
        decreases all.len() - i,
    {
        let a = all[i];
        if same_text(a.source_table, source) {
            aggs.push(a);
        }
        proof {
            let part = all@.take(i + 1);
            assert(part.drop_last() =~= all@.take(i as int));
            reveal(Seq::filter);
        }
        i += 1;
    }
    proof {
        assert(all@.take(all@.len() as int) =~= all@);
    }
    let none: Vec<&'static str> = Vec::new();
    render_internal(&aggs, &none)
}

/// The error where the statements could not be run.
pub fn install_failed(message: &str) -> (r: CoreError)
    ensures
        r.is_internal("install_fts_triggers: "@ + message@),
{
    CoreError::Internal(cat("install_fts_triggers: ", message))
}

proof fn lemma_drops_hold_each(names: Seq<Seq<char>>, k: int) -> (at: int)
    requires
        0 <= k < names.len(),
    ensures
        0 <= at,
        at + drop_text(names[k]).len() <= drops_text(names).len(),
        drops_text(names).subrange(at, at + drop_text(names[k]).len()) == drop_text(names[k]),
    decreases names.len(),
{
    let front = drops_text(names.drop_last());
    let last = drop_text(names.last());
    if k == names.len() - 1 {
        let at = front.len() as int;
        assert(drops_text(names).subrange(at, at + last.len()) =~= last);
        at
    } else {
        let at = lemma_drops_hold_each(names.drop_last(), k);
        assert(names.drop_last()[k] == names[k]);
        let len = drop_text(names[k]).len();
        assert(drops_text(names).subrange(at, at + len) =~= front.subrange(at, at + len));
        at
    }
}

/// Whether a text has a part.
pub open spec fn has_part(s: Seq<char>, part: Seq<char>) -> bool {
    exists|at: int|
        0 <= at && at + part.len() <= s.len() && #[trigger] s.subrange(at, at + part.len()) == part
}

/// Installing can be repeated: the statements that make triggers come after
/// statements that drop, if it is there, every trigger that is made and every
/// trigger that no longer exists.
pub proof fn law_every_trigger_is_dropped_first(
    aggs: Seq<FtsAggregation>,
    legacy: Seq<&'static str>,
)
    ensures
        exists|head: Seq<char>|
            {
                &&& install_text(aggs, legacy) == #[trigger] (head + creates_text(aggs))
                &&& forall|k: int|
                    0 <= k < aggs.len() ==> has_part(head, drop_text((#[trigger] aggs[k]).name@))
                &&& forall|k: int|
                    0 <= k < legacy.len() ==> has_part(head, drop_text((#[trigger] legacy[k])@))
            },
{
    let names = dropped_names(aggs, legacy);
    let head = drops_text(names);
    assert forall|k: int| 0 <= k < aggs.len() implies has_part(
        head,
        drop_text((#[trigger] aggs[k]).name@),
    ) by {
        let at = lemma_drops_hold_each(names, legacy.len() + k);
        assert(names[legacy.len() + k] == aggs[k].name@);
        assert(head.subrange(at, at + drop_text(aggs[k].name@).len()) == drop_text(aggs[k].name@));
    }
    assert forall|k: int| 0 <= k < legacy.len() implies has_part(
        head,
        drop_text((#[trigger] legacy[k])@),
    ) by {
        let at = lemma_drops_hold_each(names, k);
        assert(names[k] == legacy[k]@);
        assert(head.subrange(at, at + drop_text(legacy[k]@).len()) == drop_text(legacy[k]@));
    }
    assert(install_text(aggs, legacy) == head + creates_text(aggs));
}

/// No two bodies are rendered under one name.
pub proof fn law_body_names_are_distinct(a: BodyKind, b: BodyKind)
    requires
        body_name(a) == body_name(b),
    ensures
        a == b,
{
    reveal_strlit("SearchContentAfterInsert");
    reveal_strlit("SearchContentAfterUpdate");
    reveal_strlit("SearchContentAfterDelete");
    reveal_strlit("FileLocationsInsert");
    reveal_strlit("LocationHashChangeSeed");
    reveal_strlit("RenameRepresentative");
    reveal_strlit("LocationSoftDelete");
    reveal_strlit("LocationRestore");
    reveal_strlit("MetadataInsert");
    reveal_strlit("MetadataUpdate");
    reveal_strlit("FileTagsInsert");
    reveal_strlit("FileTagsUpdate");
    reveal_strlit("TagsNameUpdate");
    reveal_strlit("TagsSoftDeleteOrRestore");
    reveal_strlit("TagsDelete");
    reveal_strlit("TranscriptSegmentAfterInsert");
    reveal_strlit("TranscriptSegmentAfterDelete");
    reveal_strlit("TranscriptSegmentAfterUpdate");
    assert("SearchContentAfterInsert"@.len() == 24);
    assert("SearchContentAfterUpdate"@.len() == 24);
    assert("SearchContentAfterDelete"@.len() == 24);
    assert("FileLocationsInsert"@.len() == 19);
    assert("LocationHashChangeSeed"@.len() == 22);
    assert("RenameRepresentative"@.len() == 20);
    assert("LocationSoftDelete"@.len() == 18);
    assert("LocationRestore"@.len() == 15);
    assert("MetadataInsert"@.len() == 14);
    assert("MetadataUpdate"@.len() == 14);
    assert("FileTagsInsert"@.len() == 14);
    assert("FileTagsUpdate"@.len() == 14);
    assert("TagsNameUpdate"@.len() == 14);
    assert("TagsSoftDeleteOrRestore"@.len() == 23);
    assert("TagsDelete"@.len() == 10);
    assert("TranscriptSegmentAfterInsert"@.len() == 28);
    assert("TranscriptSegmentAfterDelete"@.len() == 28);
    assert("TranscriptSegmentAfterUpdate"@.len() == 28);
    assert("FileTagsInsert"@[0] == 'F');
    assert("FileTagsInsert"@[8] == 'I');
    assert("FileTagsUpdate"@[0] == 'F');
    assert("FileTagsUpdate"@[8] == 'U');
    assert("MetadataInsert"@[0] == 'M');
    assert("MetadataInsert"@[8] == 'I');
    assert("MetadataUpdate"@[0] == 'M');
    assert("MetadataUpdate"@[8] == 'U');
    assert("SearchContentAfterDelete"@[18] == 'D');
    assert("SearchContentAfterInsert"@[18] == 'I');
    assert("SearchContentAfterUpdate"@[18] == 'U');
    assert("TagsNameUpdate"@[0] == 'T');
    assert("TranscriptSegmentAfterDelete"@[22] == 'D');
    assert("TranscriptSegmentAfterInsert"@[22] == 'I');
    assert("TranscriptSegmentAfterUpdate"@[22] == 'U');
}

/// Each body is rendered under the name of its kind.
pub proof fn law_bodies_are_rendered_by_kind()
    ensures
        body_name(BodyKind::SearchContentAfterInsert) == "SearchContentAfterInsert"@,
        body_name(BodyKind::SearchContentAfterUpdate) == "SearchContentAfterUpdate"@,
        body_name(BodyKind::SearchContentAfterDelete) == "SearchContentAfterDelete"@,
        body_name(BodyKind::FileLocationsInsert) == "FileLocationsInsert"@,
        body_name(BodyKind::LocationHashChangeSeed) == "LocationHashChangeSeed"@,
        body_name(BodyKind::RenameRepresentative) == "RenameRepresentative"@,
        body_name(BodyKind::LocationSoftDelete) == "LocationSoftDelete"@,
        body_name(BodyKind::LocationRestore) == "LocationRestore"@,
        body_name(BodyKind::MetadataInsert) == "MetadataInsert"@,
        body_name(BodyKind::MetadataUpdate) == "MetadataUpdate"@,
        body_name(BodyKind::FileTagsInsert) == "FileTagsInsert"@,
        body_name(BodyKind::FileTagsUpdate) == "FileTagsUpdate"@,
        body_name(BodyKind::TagsNameUpdate) == "TagsNameUpdate"@,
        body_name(BodyKind::TagsSoftDeleteOrRestore) == "TagsSoftDeleteOrRestore"@,
        body_name(BodyKind::TagsDelete) == "TagsDelete"@,
        body_name(BodyKind::TranscriptSegmentAfterInsert) == "TranscriptSegmentAfterInsert"@,
        body_name(BodyKind::TranscriptSegmentAfterDelete) == "TranscriptSegmentAfterDelete"@,
        body_name(BodyKind::TranscriptSegmentAfterUpdate) == "TranscriptSegmentAfterUpdate"@,
{
}

} // verus!
