//! What the statements store: each column of a row gets what the command was given
//! for it, under the name of that column, and the tables of the model hold just that.
use vstd::prelude::*;
use vstd::string::*;

use crate::db::model::cache::CacheLine;
use crate::db::model::columns::{
    lemma_file_identity_cache_columns, lemma_file_locations_columns, lemma_file_metadata_columns,
    lemma_file_tags_columns, lemma_files_columns, lemma_tags_columns, lemma_volume_mounts_columns,
    lemma_volumes_columns,
};
use crate::db::model::files::{file_uuid_of, FileEntry, LocationEntry};
use crate::db::model::metadata::MetadataEntry;
use crate::db::model::tags::{LinkEntry, TagEntry, TagTables};
use crate::db::model::volumes::{MountEntry, VolumeEntry};
use crate::db::shape::{int_or_null, no_file, text_or_null, Form, Row, Verb};
use crate::db::sql::Bound;
use crate::db::writer::cache::CacheStatement;
use crate::db::writer::file::FileStatement;
use crate::db::writer::metadata::MetadataStatement;
use crate::db::writer::tag::TagStatement;
use crate::db::writer::volume::{MountStatement, VolumeStatement};

verus! {

/// The row that an insert makes of a row of defaults.
pub open spec fn added(form: Form, bound: Seq<Bound>, defaults: Row) -> Row {
    form.makes(bound, defaults, no_file())
}

/// Whether a statement adds a row to a table.
pub open spec fn adds_to(form: Form, table: Seq<char>) -> bool {
    form.verb == Verb::Insert && form.table == table
}

/// Whether a statement changes rows of a table.
pub open spec fn changes_in(form: Form, table: Seq<char>) -> bool {
    form.verb == Verb::Update && form.table == table
}

/// A row of texts, numbers and NULLs, in which every column is NULL.
pub open spec fn blank() -> Row {
    Map::total(|name: Seq<char>| Bound::Null)
}

pub(crate) proof fn lemma_hits(form: Form, bound: Seq<Bound>, row: Row)
    ensures
        form.tests.len() == 1 ==> form.hits(bound, row) == form.tests[0].passes(bound, row),
        form.tests.len() == 2 ==> form.hits(bound, row) == (form.tests[0].passes(bound, row)
            && form.tests[1].passes(bound, row)),
        form.tests.len() == 3 ==> form.hits(bound, row) == (form.tests[0].passes(bound, row)
            && form.tests[1].passes(bound, row) && form.tests[2].passes(bound, row)),
        form.tests.len() == 4 ==> form.hits(bound, row) == (form.tests[0].passes(bound, row)
            && form.tests[1].passes(bound, row) && form.tests[2].passes(bound, row)
            && form.tests[3].passes(bound, row)),
        form.tests.len() == 6 ==> form.hits(bound, row) == (form.tests[0].passes(bound, row)
            && form.tests[1].passes(bound, row) && form.tests[2].passes(bound, row)
            && form.tests[3].passes(bound, row) && form.tests[4].passes(bound, row)
            && form.tests[5].passes(bound, row)),
{
}

impl FileEntry {
    /// The row as its columns.
    pub open spec fn row(self) -> Row {
        blank()
            .insert("blake3_hash"@, text_or_null(self.hash))
            .insert("file_uuid"@, Bound::Text(self.file_uuid))
            .insert("file_size"@, Bound::Int(self.size))
            .insert("quick_hash"@, text_or_null(self.quick_hash))
            .insert("verified_distinct"@, Bound::Int(if self.verified_distinct { 1 } else { 0 }))
            .insert("first_seen"@, Bound::Text(self.first_seen))
            .insert("updated_at"@, Bound::Text(self.updated_at))
            .insert("deleted_at"@, text_or_null(self.deleted_at))
            .insert("device_id"@, Bound::Text(self.device))
            .insert("hlc"@, Bound::Int(self.hlc))
    }
}

impl LocationEntry {
    /// The row as its columns.
    pub open spec fn row(self) -> Row {
        blank()
            .insert("id"@, Bound::Text(self.id))
            .insert("blake3_hash"@, text_or_null(self.hash))
            .insert("file_uuid"@, text_or_null(self.file_uuid))
            .insert("volume_id"@, Bound::Text(self.volume))
            .insert("relative_path"@, Bound::Text(self.path))
            .insert("status"@, Bound::Text(self.status))
            .insert("first_seen"@, Bound::Text(self.first_seen))
            .insert("updated_at"@, Bound::Text(self.updated_at))
            .insert("deleted_at"@, text_or_null(self.deleted_at))
            .insert("device_id"@, Bound::Text(self.device))
            .insert("hlc"@, Bound::Int(self.hlc))
    }
}

impl MetadataEntry {
    /// The row as its columns.
    #[verifier::opaque]
    pub open spec fn row(self) -> Row {
        blank()
            .insert("blake3_hash"@, Bound::Text(self.hash))
            .insert("width"@, int_or_null(self.width))
            .insert("height"@, int_or_null(self.height))
            .insert("duration_ms"@, int_or_null(self.duration_ms))
            .insert("bitrate_bps"@, int_or_null(self.bitrate_bps))
            .insert("captured_at"@, text_or_null(self.captured_at))
            .insert("camera_make"@, text_or_null(self.camera_make))
            .insert("camera_model"@, text_or_null(self.camera_model))
            .insert("codec"@, text_or_null(self.codec))
            .insert("mime_type"@, text_or_null(self.mime_type))
            .insert("thumbnail_path"@, text_or_null(self.thumbnail_path))
            .insert("thumbnail_status"@, text_or_null(self.thumbnail_status))
            .insert("extracted_at"@, Bound::Text(self.extracted_at))
            .insert("updated_at"@, Bound::Text(self.updated_at))
            .insert("deleted_at"@, text_or_null(self.deleted_at))
            .insert("device_id"@, Bound::Text(self.device))
            .insert("hlc"@, Bound::Int(self.hlc))
    }
}

impl VolumeEntry {
    /// The row as its columns.
    pub open spec fn row(self) -> Row {
        blank()
            .insert("volume_id"@, Bound::Text(self.id))
            .insert("gpt_partition_guid"@, text_or_null(self.guid))
            .insert("fs_uuid"@, text_or_null(self.fs_uuid))
            .insert("volume_label"@, text_or_null(self.label))
            .insert("capacity_bytes"@, Bound::Int(self.capacity))
            .insert("is_removable"@, Bound::Int(if self.removable { 1 } else { 0 }))
            .insert("last_seen"@, Bound::Text(self.last_seen))
            .insert("updated_at"@, Bound::Text(self.updated_at))
            .insert("deleted_at"@, text_or_null(self.deleted_at))
            .insert("device_id"@, Bound::Text(self.device))
            .insert("hlc"@, Bound::Int(self.hlc))
    }
}

impl MountEntry {
    /// The row as its columns.
    pub open spec fn row(self) -> Row {
        blank()
            .insert("id"@, Bound::Text(self.id))
            .insert("volume_id"@, Bound::Text(self.volume))
            .insert("machine_id"@, Bound::Text(self.machine))
            .insert("mount_path"@, Bound::Text(self.path))
            .insert("first_seen"@, Bound::Text(self.first_seen))
            .insert("updated_at"@, Bound::Text(self.updated_at))
            .insert("deleted_at"@, text_or_null(self.deleted_at))
            .insert("device_id"@, Bound::Text(self.device))
    }
}

impl TagEntry {
    /// The row as its columns.
    pub open spec fn row(self) -> Row {
        blank()
            .insert("id"@, Bound::Text(self.id))
            .insert("name"@, Bound::Text(self.name))
            .insert("first_seen"@, Bound::Text(self.first_seen))
            .insert("updated_at"@, Bound::Text(self.updated_at))
            .insert("deleted_at"@, text_or_null(self.deleted_at))
            .insert("device_id"@, Bound::Text(self.device))
            .insert("hlc"@, Bound::Int(self.hlc))
    }
}

impl LinkEntry {
    /// The row as its columns.
    pub open spec fn row(self) -> Row {
        blank()
            .insert("id"@, Bound::Text(self.id))
            .insert("blake3_hash"@, Bound::Text(self.hash))
            .insert("tag_id"@, Bound::Text(self.tag))
            .insert("first_seen"@, Bound::Text(self.first_seen))
            .insert("updated_at"@, Bound::Text(self.updated_at))
            .insert("deleted_at"@, text_or_null(self.deleted_at))
            .insert("device_id"@, Bound::Text(self.device))
            .insert("hlc"@, Bound::Int(self.hlc))
    }
}

impl CacheLine {
    /// The row as its columns.
    pub open spec fn row(self) -> Row {
        blank()
            .insert("id"@, Bound::Text(self.id))
            .insert("device_id"@, Bound::Text(self.device))
            .insert("volume_id"@, Bound::Text(self.volume))
            .insert("fs_file_id"@, Bound::Int(self.fs_file_id))
            .insert("size_bytes"@, Bound::Int(self.size))
            .insert("mtime_ns"@, Bound::Int(self.mtime_ns))
            .insert("quick_hash"@, Bound::Text(self.quick_hash))
            .insert("full_hash"@, text_or_null(self.full_hash))
            .insert("last_verified"@, Bound::Text(self.last_verified))
            .insert("first_seen"@, Bound::Text(self.first_seen))
            .insert("updated_at"@, Bound::Text(self.updated_at))
            .insert("deleted_at"@, text_or_null(self.deleted_at))
    }
}

/// The identifier of the file with a hash, as a statement looks it up.
pub open spec fn owner(files: Seq<FileEntry>) -> spec_fn(Bound) -> Bound {
    |b: Bound|
        match b {
            Bound::Text(hash) => text_or_null(file_uuid_of(files, hash)),
            _ => Bound::Null,
        }
}

/// A statement on files does to a row what the model says: it changes the rows that
/// the model has it change, and no other, and leaves in each column what the model
/// has there; and a row that it adds is the row of the model.
pub proof fn law_file_statements_do_as_modelled(s: FileStatement, f: FileEntry)
    ensures
        ({
            let form = s.form();
            let bound = s.bound();
            &&& s.hits_file()(f) <==> changes_in(form, "files"@) && form.hits(bound, f.row())
            &&& s.hits_file()(f) ==> s.change_file()(f).row() =~= form.makes(
                bound,
                f.row(),
                no_file(),
            )
            &&& s.new_file() is Some <==> adds_to(form, "files"@)
            &&& s.new_file() is Some ==> s.new_file()->0.row() =~= added(
                form,
                bound,
                blank().insert("verified_distinct"@, Bound::Int(0)),
            )
        }),
{
    lemma_files_columns();
    lemma_hits(s.form(), s.bound(), f.row());
    reveal_with_fuel(Form::given, 16);
    reveal_strlit("files");
    reveal_strlit("file_locations");
    assert("files"@.len() == 5 && "file_locations"@.len() == 14);
}

/// A statement on locations does to a row what the model says.
pub proof fn law_location_statements_do_as_modelled(
    s: FileStatement,
    files: Seq<FileEntry>,
    l: LocationEntry,
)
    ensures
        ({
            let form = s.form();
            let bound = s.bound();
            &&& s.hits_location()(l) <==> changes_in(form, "file_locations"@) && form.hits(
                bound,
                l.row(),
            )
            &&& s.hits_location()(l) ==> s.change_location()(l).row() =~= form.makes(
                bound,
                l.row(),
                owner(files),
            )
            &&& s.new_location(files) is Some <==> adds_to(form, "file_locations"@)
            &&& s.new_location(files) is Some ==> s.new_location(files)->0.row() =~= form.makes(
                bound,
                blank(),
                owner(files),
            )
        }),
{
    lemma_file_locations_columns();
    lemma_hits(s.form(), s.bound(), l.row());
    reveal_with_fuel(Form::given, 16);
    reveal_strlit("files");
    reveal_strlit("file_locations");
    assert("files"@.len() == 5 && "file_locations"@.len() == 14);
}

/// Whether two rows of `file_metadata` have the same in every column.
pub open spec fn same_metadata(a: Row, b: Row) -> bool {
    &&& a["blake3_hash"@] == b["blake3_hash"@]
    &&& a["width"@] == b["width"@]
    &&& a["height"@] == b["height"@]
    &&& a["duration_ms"@] == b["duration_ms"@]
    &&& a["bitrate_bps"@] == b["bitrate_bps"@]
    &&& a["captured_at"@] == b["captured_at"@]
    &&& a["camera_make"@] == b["camera_make"@]
    &&& a["camera_model"@] == b["camera_model"@]
    &&& a["codec"@] == b["codec"@]
    &&& a["mime_type"@] == b["mime_type"@]
    &&& a["thumbnail_path"@] == b["thumbnail_path"@]
    &&& a["thumbnail_status"@] == b["thumbnail_status"@]
    &&& a["extracted_at"@] == b["extracted_at"@]
    &&& a["updated_at"@] == b["updated_at"@]
    &&& a["deleted_at"@] == b["deleted_at"@]
    &&& a["device_id"@] == b["device_id"@]
    &&& a["hlc"@] == b["hlc"@]
}

/// Whether a statement on metadata does to the table what the model says.
pub open spec fn metadata_as_modelled(
    s: MetadataStatement,
    rows: Seq<MetadataEntry>,
    i: int,
) -> bool {
    let form = s.form();
    let bound = s.bound();
    let next = s.on(rows);
    &&& form.table == "file_metadata"@
    &&& form.verb == Verb::Insert ==> next.len() == rows.len() + 1 && same_metadata(
        next.last().row(),
        added(form, bound, blank()),
    )
    &&& form.verb == Verb::Update ==> next.len() == rows.len()
    &&& form.verb == Verb::Insert || form.verb == Verb::Update
    &&& 0 <= i < rows.len() ==> if form.verb == Verb::Update && form.hits(bound, rows[i].row()) {
        same_metadata(next[i].row(), form.makes(bound, rows[i].row(), no_file()))
    } else {
        next[i] == rows[i]
    }
}

#[verifier::spinoff_prover]
pub(crate) proof fn lemma_metadata_row(e: MetadataEntry)
    ensures
        e.row()["blake3_hash"@] == Bound::Text(e.hash),
        e.row()["width"@] == int_or_null(e.width),
        e.row()["height"@] == int_or_null(e.height),
        e.row()["duration_ms"@] == int_or_null(e.duration_ms),
        e.row()["bitrate_bps"@] == int_or_null(e.bitrate_bps),
        e.row()["captured_at"@] == text_or_null(e.captured_at),
        e.row()["camera_make"@] == text_or_null(e.camera_make),
        e.row()["camera_model"@] == text_or_null(e.camera_model),
        e.row()["codec"@] == text_or_null(e.codec),
        e.row()["mime_type"@] == text_or_null(e.mime_type),
        e.row()["thumbnail_path"@] == text_or_null(e.thumbnail_path),
        e.row()["thumbnail_status"@] == text_or_null(e.thumbnail_status),
        e.row()["extracted_at"@] == Bound::Text(e.extracted_at),
        e.row()["updated_at"@] == Bound::Text(e.updated_at),
        e.row()["deleted_at"@] == text_or_null(e.deleted_at),
        e.row()["device_id"@] == Bound::Text(e.device),
        e.row()["hlc"@] == Bound::Int(e.hlc),
{
    lemma_file_metadata_columns();
    reveal(MetadataEntry::row);
}

#[verifier::spinoff_prover]
proof fn lemma_metadata_insert(s: MetadataStatement, rows: Seq<MetadataEntry>, i: int)
    requires
        s is Insert,
    ensures
        metadata_as_modelled(s, rows, i),
{
    lemma_file_metadata_columns();
    let form = s.form();
    let bound = s.bound();
    reveal_with_fuel(Form::given, 16);
    assert(form.columns.len() == 15);
    lemma_metadata_row(s.on(rows).last());
    assert(same_metadata(s.on(rows).last().row(), added(form, bound, blank())));
}

#[verifier::spinoff_prover]
proof fn lemma_metadata_update_columns(s: MetadataStatement, row: Row)
    requires
        s is Update,
    ensures
        ({
            let made = s.form().makes(s.bound(), row, no_file());
            &&& made["width"@] == s.bound()[1]
            &&& made["height"@] == s.bound()[2]
            &&& made["duration_ms"@] == s.bound()[3]
            &&& made["captured_at"@] == s.bound()[4]
            &&& made["camera_make"@] == s.bound()[5]
            &&& made["camera_model"@] == s.bound()[6]
            &&& made["codec"@] == s.bound()[7]
            &&& made["bitrate_bps"@] == s.bound()[8]
            &&& made["mime_type"@] == s.bound()[9]
            &&& made["updated_at"@] == s.bound()[10]
            &&& made["device_id"@] == s.bound()[11]
            &&& made["hlc"@] == s.bound()[12]
            &&& made["blake3_hash"@] == row["blake3_hash"@]
            &&& made["thumbnail_path"@] == row["thumbnail_path"@]
            &&& made["thumbnail_status"@] == row["thumbnail_status"@]
            &&& made["extracted_at"@] == row["extracted_at"@]
            &&& made["deleted_at"@] == row["deleted_at"@]
        }),
{
    lemma_file_metadata_columns();
    reveal_with_fuel(Form::given, 13);
    assert(s.form().columns.len() == 12);
}

#[verifier::spinoff_prover]
proof fn lemma_metadata_update(s: MetadataStatement, rows: Seq<MetadataEntry>, i: int)
    requires
        s is Update,
    ensures
        metadata_as_modelled(s, rows, i),
{
    lemma_file_metadata_columns();
    if 0 <= i < rows.len() {
        let row = rows[i].row();
        lemma_metadata_row(rows[i]);
        lemma_metadata_row(s.on(rows)[i]);
        lemma_hits(s.form(), s.bound(), row);
        lemma_metadata_update_columns(s, row);
    }
}

#[verifier::spinoff_prover]
proof fn lemma_metadata_setthumbnail(s: MetadataStatement, rows: Seq<MetadataEntry>, i: int)
    requires
        s is SetThumbnail,
    ensures
        metadata_as_modelled(s, rows, i),
{
    lemma_file_metadata_columns();
    let form = s.form();
    let bound = s.bound();
    reveal_with_fuel(Form::given, 6);
    assert(form.columns.len() == 5);
    if 0 <= i < rows.len() {
        lemma_metadata_row(rows[i]);
        lemma_metadata_row(s.on(rows)[i]);
        lemma_hits(form, bound, rows[i].row());
        assert(form.hits(bound, rows[i].row()) ==> same_metadata(
            s.on(rows)[i].row(),
            form.makes(bound, rows[i].row(), no_file()),
        ));
    }
}

/// A statement on metadata does to the table what the model says.
pub proof fn law_metadata_statements_do_as_modelled(
    s: MetadataStatement,
    rows: Seq<MetadataEntry>,
    i: int,
)
    ensures
        metadata_as_modelled(s, rows, i),
{
    match s {
        MetadataStatement::Insert { .. } => lemma_metadata_insert(s, rows, i),
        MetadataStatement::Update { .. } => lemma_metadata_update(s, rows, i),
        MetadataStatement::SetThumbnail { .. } => lemma_metadata_setthumbnail(s, rows, i),
    }
}

/// A statement on volumes does to the table what the model says.
pub proof fn law_volume_statements_do_as_modelled(s: VolumeStatement, rows: Seq<VolumeEntry>, i: int)
    ensures
        ({
            let form = s.form();
            let bound = s.bound();
            let next = s.on(rows);
            &&& form.table == "volumes"@
            &&& form.verb == Verb::Insert ==> next.len() == rows.len() + 1 && next.last().row() =~= added(
                form,
                bound,
                blank(),
            )
            &&& form.verb == Verb::Update ==> next.len() == rows.len()
            &&& form.verb == Verb::Insert || form.verb == Verb::Update
            &&& 0 <= i < rows.len() ==> if form.verb == Verb::Update && form.hits(bound, rows[i].row()) {
                next[i].row() =~= form.makes(bound, rows[i].row(), no_file())
            } else {
                next[i] == rows[i]
            }
        }),
{
    lemma_volumes_columns();
    if 0 <= i < rows.len() {
        lemma_hits(s.form(), s.bound(), rows[i].row());
    }
    reveal_with_fuel(Form::given, 18);
}

/// A statement on mounts does to the table what the model says.
pub proof fn law_mount_statements_do_as_modelled(s: MountStatement, rows: Seq<MountEntry>, i: int)
    ensures
        ({
            let form = s.form();
            let bound = s.bound();
            let next = s.on(rows);
            &&& form.table == "volume_mounts"@
            &&& form.verb == Verb::Insert ==> next.len() == rows.len() + 1 && next.last().row() =~= added(
                form,
                bound,
                blank(),
            )
            &&& form.verb == Verb::Update ==> next.len() == rows.len()
            &&& form.verb == Verb::Insert || form.verb == Verb::Update
            &&& 0 <= i < rows.len() ==> if form.verb == Verb::Update && form.hits(bound, rows[i].row()) {
                next[i].row() =~= form.makes(bound, rows[i].row(), no_file())
            } else {
                next[i] == rows[i]
            }
        }),
{
    lemma_volume_mounts_columns();
    if 0 <= i < rows.len() {
        lemma_hits(s.form(), s.bound(), rows[i].row());
    }
    reveal_with_fuel(Form::given, 18);
}

/// A statement on the cache does to the table what the model says.
pub proof fn law_cache_statements_do_as_modelled(s: CacheStatement, rows: Seq<CacheLine>, i: int)
    requires
        s matches CacheStatement::Retire { key, size, .. } ==> size == key.size_bytes,
    ensures
        ({
            let form = s.form();
            let bound = s.bound();
            let next = s.on(rows);
            &&& form.table == "file_identity_cache"@
            &&& form.verb == Verb::Insert ==> next.len() == rows.len() + 1 && next.last().row() =~= added(
                form,
                bound,
                blank(),
            )
            &&& form.verb == Verb::Update ==> next.len() == rows.len()
            &&& form.verb == Verb::Insert || form.verb == Verb::Update
            &&& 0 <= i < rows.len() ==> if form.verb == Verb::Update && form.hits(bound, rows[i].row()) {
                next[i].row() =~= form.makes(bound, rows[i].row(), no_file())
            } else {
                next[i] == rows[i]
            }
        }),
{
    lemma_file_identity_cache_columns();
    if 0 <= i < rows.len() {
        lemma_hits(s.form(), s.bound(), rows[i].row());
    }
    reveal_with_fuel(Form::given, 18);
}

/// A statement on tags does to the table what the model says.
pub proof fn law_tag_statements_do_as_modelled(s: TagStatement, t: TagTables, i: int)
    ensures
        ({
            let form = s.form();
            let bound = s.bound();
            let next = s.on(t).tags;
            &&& adds_to(form, "tags"@) ==> next.len() == t.tags.len() + 1 && next.last().row()
                =~= added(form, bound, blank())
            &&& !adds_to(form, "tags"@) ==> next.len() == t.tags.len()
            &&& 0 <= i < t.tags.len() ==> if changes_in(form, "tags"@) && form.hits(
                bound,
                t.tags[i].row(),
            ) {
                next[i].row() =~= form.makes(bound, t.tags[i].row(), no_file())
            } else {
                next[i] == t.tags[i]
            }
        }),
{
    lemma_tags_columns();
    if 0 <= i < t.tags.len() {
        lemma_hits(s.form(), s.bound(), t.tags[i].row());
    }
    reveal_with_fuel(Form::given, 18);
    reveal_strlit("tags");
    reveal_strlit("file_tags");
    assert("tags"@.len() == 4 && "file_tags"@.len() == 9);
}

/// A statement on attachments does to the table what the model says.
pub proof fn law_link_statements_do_as_modelled(s: TagStatement, t: TagTables, i: int)
    ensures
        ({
            let form = s.form();
            let bound = s.bound();
            let next = s.on(t).links;
            &&& adds_to(form, "file_tags"@) ==> next.len() == t.links.len() + 1 && next.last().row()
                =~= added(form, bound, blank())
            &&& !adds_to(form, "file_tags"@) ==> next.len() == t.links.len()
            &&& 0 <= i < t.links.len() ==> if changes_in(form, "file_tags"@) && form.hits(
                bound,
                t.links[i].row(),
            ) {
                next[i].row() =~= form.makes(bound, t.links[i].row(), no_file())
            } else {
                next[i] == t.links[i]
            }
        }),
{
    lemma_file_tags_columns();
    if 0 <= i < t.links.len() {
        lemma_hits(s.form(), s.bound(), t.links[i].row());
    }
    reveal_with_fuel(Form::given, 18);
    reveal_strlit("tags");
    reveal_strlit("file_tags");
    assert("tags"@.len() == 4 && "file_tags"@.len() == 9);
}

} // verus!
