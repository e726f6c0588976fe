//! The lists give what the model says: the rows that each takes, what it shows of them
//! and how it orders them.
use vstd::prelude::*;
use vstd::string::*;

use crate::db::joins::{all_hold, some_file_has, Cond, Limit, QueryForm};
use crate::db::lists::{
    collisions, file_hash, file_id, metadata_of_row, tags_of_files, List,
};
use crate::db::model::catalog_reads::{
    bears, by_mount, by_recency, colliding, group_list, holding, location_list, naming,
    verify_list,
};
use crate::db::model::columns::{
    lemma_file_locations_columns, lemma_file_metadata_columns, lemma_file_tags_columns,
    lemma_files_columns, lemma_tags_columns, lemma_volume_mounts_columns, lemma_volumes_columns,
};
use crate::db::model::files::{hits, Catalog, FileEntry};
use crate::db::model::meaning::{blank, lemma_metadata_row};
use crate::db::model::metadata::MetadataEntry;
use crate::db::model::reads::{law_text_order_is_total, text_le};
use crate::db::model::search::{live_of, or_empty, seen_le, tag_names};
use crate::db::model::table_reads::{
    attached_tags, described, describes_hash, metadata_list, tag_list, volume_list,
};
use crate::db::model::tags::TagTables;
use crate::db::model::volumes::{MountEntry, VolumeEntry};
use crate::db::shape::{int_or_null, text_or_null, Row};
use crate::db::sql::Bound;
use crate::db::writer::search::{fill_pairs, FillTerm};
use crate::types::{BlakeHash, DeviceId, FileUuid, VolumeId};

verus! {

/// The rows of `files`.
pub open spec fn file_rows(c: Catalog) -> Seq<Row> {
    Seq::new(c.files.len(), |i: int| c.files[i].row())
}

/// The rows of `file_locations`.
pub open spec fn location_rows(c: Catalog) -> Seq<Row> {
    Seq::new(c.locations.len(), |i: int| c.locations[i].row())
}

/// The rows of `volume_mounts`.
pub open spec fn mount_rows(mounts: Seq<MountEntry>) -> Seq<Row> {
    Seq::new(mounts.len(), |i: int| mounts[i].row())
}

/// The rows of `file_metadata`.
pub open spec fn metadata_rows(metadata: Seq<MetadataEntry>) -> Seq<Row> {
    Seq::new(metadata.len(), |i: int| metadata[i].row())
}

/// The rows of `volumes`.
pub open spec fn volume_rows(volumes: Seq<VolumeEntry>) -> Seq<Row> {
    Seq::new(volumes.len(), |i: int| volumes[i].row())
}

/// The rows of `tags`.
pub open spec fn tag_rows(t: TagTables) -> Seq<Row> {
    Seq::new(t.tags.len(), |i: int| t.tags[i].row())
}

/// What a list shows of the rows that it looks at.
pub open spec fn shown_values(form: QueryForm, tables: Seq<Seq<Row>>, at: Seq<Option<int>>) -> Seq<Bound> {
    Seq::new(form.columns.len(), |k: int| form.columns[k].value(tables, at))
}

proof fn lemma_conds(conds: Seq<Cond>, bound: Seq<Bound>, tables: Seq<Seq<Row>>, at: Seq<Option<int>>)
    ensures
        conds.len() == 1 ==> all_hold(conds, bound, tables, at) == conds[0].holds(bound, tables, at),
        conds.len() == 2 ==> all_hold(conds, bound, tables, at) == (conds[0].holds(
            bound,
            tables,
            at,
        ) && conds[1].holds(bound, tables, at)),
        conds.len() == 3 ==> all_hold(conds, bound, tables, at) == (conds[0].holds(
            bound,
            tables,
            at,
        ) && conds[1].holds(bound, tables, at) && conds[2].holds(bound, tables, at)),
{
}

proof fn lemma_takes(q: QueryForm, bound: Seq<Bound>, tables: Seq<Seq<Row>>, at: Seq<Option<int>>)
    requires
        at.len() > q.joins.len(),
        at[0] is Some,
    ensures
        q.joins.len() == 0 ==> q.takes(bound, tables, at) == (0 <= at[0]->0 < tables[0].len()
            && all_hold(q.conds, bound, tables, at)),
        q.joins.len() == 1 ==> q.takes(bound, tables, at) == (0 <= at[0]->0 < tables[0].len()
            && q.joined(bound, tables, at, 0) && all_hold(q.conds, bound, tables, at)),
        q.joins.len() == 2 ==> q.takes(bound, tables, at) == (0 <= at[0]->0 < tables[0].len()
            && q.joined(bound, tables, at, 0) && q.joined(bound, tables, at, 1) && all_hold(
            q.conds,
            bound,
            tables,
            at,
        )),
{
}

proof fn lemma_some_file_has(c: Catalog, hash: Seq<char>)
    ensures
        some_file_has(file_rows(c), Bound::Text(hash)) == c.has_hash(hash),
{
    lemma_files_columns();
    if c.has_hash(hash) {
        let i = choose|i: int| 0 <= i < c.files.len() && (#[trigger] c.files[i]).hash == Some(hash);
        assert(file_rows(c)[i]["blake3_hash"@] == Bound::Text(hash));
    }
    if some_file_has(file_rows(c), Bound::Text(hash)) {
        let g = choose|g: int|
            0 <= g < file_rows(c).len() && (#[trigger] file_rows(c)[g])["blake3_hash"@]
                == Bound::Text(hash);
        assert(c.files[g].hash == Some(hash));
    }
}

/// The rule by which a list finds the file of a location is that of the model.
proof fn lemma_file_of(c: Catalog, bound: Seq<Bound>, rest: Seq<Seq<Row>>, at: Seq<Option<int>>, i: int, j: int)
    requires
        rest.len() >= 2,
        rest[0] == location_rows(c),
        rest[1] == file_rows(c),
        at.len() >= 2,
        at[0] == Some(j),
        at[1] == Some(i),
        0 <= i < c.files.len(),
        0 <= j < c.locations.len(),
    ensures
        Cond::FileOf(1, 0).holds(bound, rest, at) == c.belongs(i, j),
{
    lemma_files_columns();
    lemma_file_locations_columns();
    if let Some(h) = c.locations[j].hash {
        lemma_some_file_has(c, h);
    }
}

/// The list of locations, all or those of one volume, takes the locations and files that
/// the model says, shows their columns in the order in which they are read, and orders
/// them by path.
pub proof fn law_locations_are_listed_as_modelled(
    c: Catalog,
    volume: Option<VolumeId>,
    limit: nat,
    bound: Seq<Bound>,
    i: int,
    j: int,
)
    requires
        volume matches Some(v) ==> bound.len() >= 1 && bound[0] == Bound::Text(v.0.text()),
    ensures
        ({
            let form = if volume is Some {
                List::LocationsOfVolume.form()
            } else {
                List::Locations.form()
            };
            let tables = seq![location_rows(c), file_rows(c)];
            let at = seq![Some(j), Some(i)];
            &&& form.takes(bound, tables, at) <==> (location_list(c, volume, limit).takes)((i, j))
            &&& c.belongs(i, j) ==> shown_values(form, tables, at) =~= seq![
                Bound::Text(c.files[i].file_uuid),
                text_or_null(c.files[i].hash),
                Bound::Int(c.files[i].size),
                Bound::Text(c.locations[j].volume),
                Bound::Text(c.locations[j].path),
                Bound::Text(c.locations[j].status),
                Bound::Text(c.locations[j].first_seen),
            ]
            &&& !form.distinct
            &&& form.limit == if volume is Some {
                Limit::Param(2)
            } else {
                Limit::Param(1)
            }
        }),
{
    let form = if volume is Some {
        List::LocationsOfVolume.form()
    } else {
        List::Locations.form()
    };
    let tables = seq![location_rows(c), file_rows(c)];
    let at: Seq<Option<int>> = seq![Some(j), Some(i)];
    lemma_files_columns();
    lemma_file_locations_columns();
    lemma_takes(form, bound, tables, at);
    lemma_conds(form.conds, bound, tables, at);
    lemma_conds(form.joins[0].conds, bound, tables, at);
    if 0 <= i < c.files.len() && 0 <= j < c.locations.len() {
        lemma_file_of(c, bound, tables, at, i, j);
    }
}

/// Both lists of locations, the lists with metadata and the groups of a quick hash are
/// ordered by path.
pub proof fn law_locations_are_ordered_by_path(
    c: Catalog,
    list: List,
    tables: Seq<Seq<Row>>,
    a: Seq<Option<int>>,
    b: Seq<Option<int>>,
    j: int,
    k: int,
)
    requires
        list == List::Locations || list == List::LocationsOfVolume || list == List::WithMetadata
            || list == List::WithMetadataOfVolume || list == List::Group,
        tables.len() > 0,
        tables[0] == location_rows(c),
        a.len() > 0,
        b.len() > 0,
        a[0] == Some(j),
        b[0] == Some(k),
        0 <= j < c.locations.len(),
        0 <= k < c.locations.len(),
    ensures
        list.form().le(tables, a, b, 0) <==> text_le(c.locations[j].path, c.locations[k].path),
{
    lemma_file_locations_columns();
    law_text_order_is_total(c.locations[j].path, c.locations[j].path);
    reveal_with_fuel(QueryForm::le, 2);
    let form = list.form();
    assert(form.order.len() == 1);
    assert(form.order[0].value(tables, a) == Bound::Text(c.locations[j].path));
    assert(form.order[0].value(tables, b) == Bound::Text(c.locations[k].path));
}

/// A group takes the live locations of the live files with its quick hash.
pub proof fn law_groups_are_listed_as_modelled(
    c: Catalog,
    q: Seq<char>,
    bound: Seq<Bound>,
    i: int,
    j: int,
)
    requires
        bound.len() == 1,
        bound[0] == Bound::Text(q),
    ensures
        ({
            let form = List::Group.form();
            let tables = seq![location_rows(c), file_rows(c)];
            let at = seq![Some(j), Some(i)];
            &&& form.takes(bound, tables, at) <==> (group_list(c, q).takes)((i, j))
            &&& c.belongs(i, j) ==> shown_values(form, tables, at) =~= seq![
                Bound::Text(c.files[i].file_uuid),
                text_or_null(c.files[i].hash),
                Bound::Int(c.files[i].size),
                Bound::Text(c.locations[j].volume),
                Bound::Text(c.locations[j].path),
                Bound::Text(c.locations[j].status),
                Bound::Text(c.locations[j].first_seen),
            ]
            &&& form.limit == Limit::All
        }),
{
    let form = List::Group.form();
    let tables = seq![location_rows(c), file_rows(c)];
    let at: Seq<Option<int>> = seq![Some(j), Some(i)];
    lemma_files_columns();
    lemma_file_locations_columns();
    lemma_takes(form, bound, tables, at);
    lemma_conds(form.conds, bound, tables, at);
    lemma_conds(form.joins[0].conds, bound, tables, at);
    if 0 <= i < c.files.len() && 0 <= j < c.locations.len() {
        lemma_file_of(c, bound, tables, at, i, j);
    }
}

/// The list of locations to verify takes the live locations on volumes that the machine
/// has mounted, with those mounts, and orders them by volume and path.
pub proof fn law_verify_list_is_as_modelled(
    c: Catalog,
    mounts: Seq<MountEntry>,
    machine: DeviceId,
    bound: Seq<Bound>,
    j: int,
    m: int,
    j2: int,
    m2: int,
)
    requires
        bound.len() == 1,
        bound[0] == Bound::Text(machine.0.text()),
    ensures
        ({
            let form = List::ForVerify.form();
            let q = verify_list(c, mounts, machine);
            let tables = seq![location_rows(c), mount_rows(mounts)];
            let at = seq![Some(j), Some(m)];
            let at2 = seq![Some(j2), Some(m2)];
            &&& form.takes(bound, tables, at) <==> (q.takes)((j, m))
            &&& (q.takes)((j, m)) ==> shown_values(form, tables, at) =~= seq![
                Bound::Text(c.locations[j].volume),
                Bound::Text(c.locations[j].path),
                Bound::Text(c.locations[j].status),
                Bound::Text(mounts[m].path),
            ]
            &&& (q.takes)((j, m)) && (q.takes)((j2, m2)) ==> (form.le(tables, at, at2, 0) <==> (
            q.le)((j, m), (j2, m2)))
            &&& form.limit == Limit::All
            &&& !form.distinct
        }),
{
    let form = List::ForVerify.form();
    let tables = seq![location_rows(c), mount_rows(mounts)];
    let at: Seq<Option<int>> = seq![Some(j), Some(m)];
    let at2: Seq<Option<int>> = seq![Some(j2), Some(m2)];
    lemma_file_locations_columns();
    lemma_volume_mounts_columns();
    lemma_takes(form, bound, tables, at);
    lemma_conds(form.conds, bound, tables, at);
    lemma_conds(form.joins[0].conds, bound, tables, at);
    reveal_with_fuel(QueryForm::le, 3);
    if 0 <= j < c.locations.len() && 0 <= j2 < c.locations.len() {
        law_text_order_is_total(c.locations[j].path, c.locations[j].path);
        law_text_order_is_total(c.locations[j].volume, c.locations[j].volume);
        assert(form.order[0].value(tables, at) == Bound::Text(c.locations[j].volume));
        assert(form.order[0].value(tables, at2) == Bound::Text(c.locations[j2].volume));
        assert(form.order[1].value(tables, at) == Bound::Text(c.locations[j].path));
        assert(form.order[1].value(tables, at2) == Bound::Text(c.locations[j2].path));
    }
}

/// The list of pending files takes the live files without a hash, each once, that an
/// active location on a mounted volume names.
pub proof fn law_pending_list_is_as_modelled(
    c: Catalog,
    mounts: Seq<MountEntry>,
    bound: Seq<Bound>,
    i: int,
    l: int,
    m: int,
)
    ensures
        ({
            let form = List::Pending.form();
            let tables = seq![file_rows(c), location_rows(c), mount_rows(mounts)];
            let at = seq![Some(i), Some(l), Some(m)];
            &&& form.takes(bound, tables, at) <==> 0 <= i < c.files.len() && c.files[i].hash is None
                && c.files[i].deleted_at is None && naming(c, mounts, c.files[i].file_uuid)((l, m))
            &&& 0 <= i < c.files.len() ==> shown_values(form, tables, at) =~= seq![
                Bound::Text(c.files[i].file_uuid),
            ]
            &&& form.distinct
            &&& form.limit == Limit::Param(1)
            &&& form.order =~= form.columns
        }),
{
    let form = List::Pending.form();
    let tables = seq![file_rows(c), location_rows(c), mount_rows(mounts)];
    let at: Seq<Option<int>> = seq![Some(i), Some(l), Some(m)];
    lemma_files_columns();
    lemma_file_locations_columns();
    lemma_volume_mounts_columns();
    lemma_takes(form, bound, tables, at);
    lemma_conds(form.conds, bound, tables, at);
    lemma_conds(form.joins[0].conds, bound, tables, at);
    lemma_conds(form.joins[1].conds, bound, tables, at);
    if 0 <= i < c.files.len() && 0 <= l < c.locations.len() && 0 <= m < mounts.len() {
        assert(tables[0][i] == c.files[i].row());
        assert(tables[1][l] == c.locations[l].row());
        assert(tables[2][m] == mounts[m].row());
    }
}

/// The lookup of a file by its identifier takes the live file with it and the active
/// locations on mounted volumes that name it; of those the one at the smallest mount, and
/// there at the smallest path, comes first, and what has no mount comes last.
pub proof fn law_lookup_by_uuid_is_as_modelled(
    c: Catalog,
    mounts: Seq<MountEntry>,
    file_uuid: FileUuid,
    bound: Seq<Bound>,
    i: int,
    l: int,
    m: int,
    l2: int,
    m2: int,
)
    requires
        bound.len() == 1,
        bound[0] == Bound::Text(file_uuid.0.text()),
    ensures
        ({
            let form = List::ByUuid.form();
            let tables = seq![file_rows(c), location_rows(c), mount_rows(mounts)];
            let at = seq![Some(i), Some(l), Some(m)];
            let at2 = seq![Some(i), Some(l2), Some(m2)];
            let unmounted = seq![Some(i), Some(l2), None];
            let takes = naming(c, mounts, file_uuid.0.text());
            &&& form.takes(bound, tables, at) <==> 0 <= i < c.files.len() && c.files[i].file_uuid
                == file_uuid.0.text() && c.files[i].deleted_at is None && takes((l, m))
            &&& 0 <= i < c.files.len() && takes((l, m)) ==> shown_values(form, tables, at) =~= seq![
                text_or_null(c.files[i].hash),
                Bound::Int(c.files[i].size),
                Bound::Text(mounts[m].path),
                Bound::Text(c.locations[l].path),
            ]
            &&& takes((l, m)) && takes((l2, m2)) ==> (form.le(tables, at, at2, 0) <==> by_mount(
                c,
                mounts,
            )((l, m), (l2, m2)))
            &&& takes((l, m)) ==> form.le(tables, at, unmounted, 0) && !form.le(
                tables,
                unmounted,
                at,
                0,
            )
            &&& form.limit == Limit::One
        }),
{
    let form = List::ByUuid.form();
    let tables = seq![file_rows(c), location_rows(c), mount_rows(mounts)];
    let at: Seq<Option<int>> = seq![Some(i), Some(l), Some(m)];
    let at2: Seq<Option<int>> = seq![Some(i), Some(l2), Some(m2)];
    let unmounted: Seq<Option<int>> = seq![Some(i), Some(l2), None];
    lemma_files_columns();
    lemma_file_locations_columns();
    lemma_volume_mounts_columns();
    lemma_takes(form, bound, tables, at);
    lemma_conds(form.conds, bound, tables, at);
    lemma_conds(form.joins[0].conds, bound, tables, at);
    lemma_conds(form.joins[1].conds, bound, tables, at);
    reveal_with_fuel(QueryForm::le, 3);
    if 0 <= i < c.files.len() {
        assert(tables[0][i] == c.files[i].row());
    }
    if 0 <= l < c.locations.len() && 0 <= m < mounts.len() {
        assert(tables[1][l] == c.locations[l].row());
        assert(tables[2][m] == mounts[m].row());
        law_text_order_is_total(c.locations[l].path, c.locations[l].path);
        law_text_order_is_total(mounts[m].path, mounts[m].path);
        assert(form.order[0].value(tables, at) == Bound::Text(mounts[m].path));
        assert(form.order[1].value(tables, at) == Bound::Text(c.locations[l].path));
        assert(form.order[0].value(tables, unmounted) == Bound::Null);
    }
    if 0 <= l2 < c.locations.len() && 0 <= m2 < mounts.len() {
        assert(tables[1][l2] == c.locations[l2].row());
        assert(tables[2][m2] == mounts[m2].row());
        assert(form.order[0].value(tables, at2) == Bound::Text(mounts[m2].path));
        assert(form.order[1].value(tables, at2) == Bound::Text(c.locations[l2].path));
    }
}

/// The list of tags takes the live tags, and orders them by name.
pub proof fn law_tags_are_listed_as_modelled(t: TagTables, bound: Seq<Bound>, i: int, k: int)
    ensures
        ({
            let form = List::Tags.form();
            let q = tag_list(t);
            let tables = seq![tag_rows(t)];
            &&& form.takes(bound, tables, seq![Some(i)]) <==> (q.takes)(i)
            &&& (q.takes)(i) ==> shown_values(form, tables, seq![Some(i)]) =~= seq![
                Bound::Text(t.tags[i].id),
                Bound::Text(t.tags[i].name),
                Bound::Text(t.tags[i].first_seen),
            ]
            &&& (q.takes)(i) && (q.takes)(k) ==> (form.le(tables, seq![Some(i)], seq![Some(k)], 0)
                <==> (q.le)(i, k))
            &&& form.limit == Limit::All
        }),
{
    let form = List::Tags.form();
    let tables = seq![tag_rows(t)];
    let at: Seq<Option<int>> = seq![Some(i)];
    let at2: Seq<Option<int>> = seq![Some(k)];
    lemma_tags_columns();
    lemma_takes(form, bound, tables, at);
    lemma_conds(form.conds, bound, tables, at);
    reveal_with_fuel(QueryForm::le, 2);
    if 0 <= i < t.tags.len() && 0 <= k < t.tags.len() {
        law_text_order_is_total(t.tags[i].name, t.tags[i].name);
        assert(form.order[0].value(tables, at) == Bound::Text(t.tags[i].name));
        assert(form.order[0].value(tables, at2) == Bound::Text(t.tags[k].name));
    }
}

proof fn lemma_mount_meets(
    volumes: Seq<VolumeEntry>,
    mounts: Seq<MountEntry>,
    machine: DeviceId,
    bound: Seq<Bound>,
    v: int,
    m: int,
)
    requires
        bound.len() == 1,
        bound[0] == Bound::Text(machine.0.text()),
        0 <= v < volumes.len(),
        0 <= m < mounts.len(),
    ensures
        List::Volumes.form().joins[0].meets(
            bound,
            seq![volume_rows(volumes), mount_rows(mounts)],
            seq![Some(v), Some(m)],
        ) == mounts[m].live_on(volumes[v].id, machine.0.text()),
{
    let form = List::Volumes.form();
    let tables = seq![volume_rows(volumes), mount_rows(mounts)];
    let at: Seq<Option<int>> = seq![Some(v), Some(m)];
    lemma_volumes_columns();
    lemma_volume_mounts_columns();
    lemma_conds(form.joins[0].conds, bound, tables, at);
    assert(tables[0][v] == volumes[v].row());
    assert(tables[1][m] == mounts[m].row());
}

/// The list of volumes takes the live volumes, each with its live mounts on the machine or
/// once without, and orders them by volume and mount.
pub proof fn law_volumes_are_listed_as_modelled(
    volumes: Seq<VolumeEntry>,
    mounts: Seq<MountEntry>,
    machine: DeviceId,
    bound: Seq<Bound>,
    v: int,
    m: Option<int>,
    v2: int,
    m2: Option<int>,
)
    requires
        bound.len() == 1,
        bound[0] == Bound::Text(machine.0.text()),
    ensures
        ({
            let form = List::Volumes.form();
            let q = volume_list(volumes, mounts, machine);
            let tables = seq![volume_rows(volumes), mount_rows(mounts)];
            let at = seq![Some(v), m];
            let at2 = seq![Some(v2), m2];
            &&& form.takes(bound, tables, at) <==> (q.takes)((v, m))
            &&& (q.takes)((v, m)) ==> shown_values(form, tables, at) =~= seq![
                Bound::Text(volumes[v].id),
                text_or_null(volumes[v].label),
                Bound::Int(volumes[v].capacity),
                Bound::Int(if volumes[v].removable {
                    1
                } else {
                    0
                }),
                Bound::Text(volumes[v].last_seen),
                match m {
                    Some(k) => Bound::Text(mounts[k].path),
                    None => Bound::Null,
                },
            ]
            &&& (q.takes)((v, m)) && (q.takes)((v2, m2)) && (volumes[v].id != volumes[v2].id || (m
                is Some && m2 is Some)) ==> (form.le(tables, at, at2, 0) <==> (q.le)(
                (v, m),
                (v2, m2),
            ))
            &&& form.limit == Limit::All
            &&& !form.distinct
        }),
{
    let form = List::Volumes.form();
    let tables = seq![volume_rows(volumes), mount_rows(mounts)];
    let at: Seq<Option<int>> = seq![Some(v), m];
    let at2: Seq<Option<int>> = seq![Some(v2), m2];
    lemma_volumes_columns();
    lemma_volume_mounts_columns();
    lemma_takes(form, bound, tables, at);
    lemma_conds(form.conds, bound, tables, at);
    if 0 <= v < volumes.len() {
        assert(tables[0][v] == volumes[v].row());
        match m {
            Some(k) => {
                if 0 <= k < mounts.len() {
                    lemma_mount_meets(volumes, mounts, machine, bound, v, k);
                    assert(tables[1][k] == mounts[k].row());
                }
            },
            None => {
                assert forall|k: int| 0 <= k < mounts.len() implies #[trigger] form.joins[0].meets(
                    bound,
                    tables,
                    at.update(1, Some(k)),
                ) == mounts[k].live_on(volumes[v].id, machine.0.text()) by {
                    lemma_mount_meets(volumes, mounts, machine, bound, v, k);
                    assert(at.update(1, Some(k)) =~= seq![Some(v), Some(k)]);
                }
                if form.joined(bound, tables, at, 0) {
                    assert forall|k: int| 0 <= k < mounts.len() implies !(
                    #[trigger] mounts[k]).live_on(volumes[v].id, machine.0.text()) by {
                        assert(!form.joins[0].meets(bound, tables, at.update(1, Some(k))));
                    }
                }
            },
        }
    }
    let q = volume_list(volumes, mounts, machine);
    if (q.takes)((v, m)) && (q.takes)((v2, m2)) {
        reveal_with_fuel(QueryForm::le, 3);
        assert(tables[0][v2] == volumes[v2].row());
        law_text_order_is_total(volumes[v].id, volumes[v].id);
        assert(form.order[0].value(tables, at) == Bound::Text(volumes[v].id));
        assert(form.order[0].value(tables, at2) == Bound::Text(volumes[v2].id));
        if m is Some && m2 is Some {
            law_text_order_is_total(mounts[m->0].path, mounts[m->0].path);
            assert(tables[1][m->0] == mounts[m->0].row());
            assert(tables[1][m2->0] == mounts[m2->0].row());
            assert(form.order[1].value(tables, at) == Bound::Text(mounts[m->0].path));
            assert(form.order[1].value(tables, at2) == Bound::Text(mounts[m2->0].path));
        }
    }
}

proof fn lemma_metadata_meets(
    c: Catalog,
    metadata: Seq<MetadataEntry>,
    list: List,
    bound: Seq<Bound>,
    i: int,
    j: int,
    m: int,
)
    requires
        list == List::WithMetadata || list == List::WithMetadataOfVolume,
        0 <= i < c.files.len(),
        0 <= j < c.locations.len(),
        0 <= m < metadata.len(),
    ensures
        list.form().joins[1].meets(
            bound,
            seq![location_rows(c), file_rows(c), metadata_rows(metadata)],
            seq![Some(j), Some(i), Some(m)],
        ) == describes_hash(metadata, c.files[i].hash, m),
{
    let form = list.form();
    let tables = seq![location_rows(c), file_rows(c), metadata_rows(metadata)];
    let at: Seq<Option<int>> = seq![Some(j), Some(i), Some(m)];
    lemma_files_columns();
    lemma_file_metadata_columns();
    lemma_metadata_row(metadata[m]);
    lemma_conds(form.joins[1].conds, bound, tables, at);
    assert(tables[1][i] == c.files[i].row());
    assert(tables[2][m] == metadata[m].row());
}

/// The list of locations with metadata takes the locations and files of the list of
/// locations, each with the live metadata of its hash or once without.
pub proof fn law_metadata_is_listed_as_modelled(
    c: Catalog,
    metadata: Seq<MetadataEntry>,
    volume: Option<VolumeId>,
    limit: nat,
    bound: Seq<Bound>,
    i: int,
    j: int,
    m: Option<int>,
)
    requires
        volume matches Some(v) ==> bound.len() >= 1 && bound[0] == Bound::Text(v.0.text()),
    ensures
        ({
            let form = if volume is Some {
                List::WithMetadataOfVolume.form()
            } else {
                List::WithMetadata.form()
            };
            let tables = seq![location_rows(c), file_rows(c), metadata_rows(metadata)];
            let at = seq![Some(j), Some(i), m];
            &&& form.takes(bound, tables, at) <==> (metadata_list(c, metadata, volume, limit).takes)(
                (i, j, m),
            )
            &&& form.limit == if volume is Some {
                Limit::Param(2)
            } else {
                Limit::Param(1)
            }
            &&& !form.distinct
        }),
{
    let list = if volume is Some {
        List::WithMetadataOfVolume
    } else {
        List::WithMetadata
    };
    let form = list.form();
    let tables = seq![location_rows(c), file_rows(c), metadata_rows(metadata)];
    let at: Seq<Option<int>> = seq![Some(j), Some(i), m];
    lemma_files_columns();
    lemma_file_locations_columns();
    lemma_takes(form, bound, tables, at);
    lemma_conds(form.conds, bound, tables, at);
    lemma_conds(form.joins[0].conds, bound, tables, at);
    if 0 <= i < c.files.len() && 0 <= j < c.locations.len() {
        lemma_file_of(c, bound, tables, at, i, j);
        assert(tables[0][j] == c.locations[j].row());
        let hash = c.files[i].hash;
        match m {
            Some(k) => {
                if 0 <= k < metadata.len() {
                    lemma_metadata_meets(c, metadata, list, bound, i, j, k);
                }
            },
            None => {
                assert forall|k: int| 0 <= k < metadata.len() implies #[trigger] form.joins[1].meets(
                    bound,
                    tables,
                    at.update(2, Some(k)),
                ) == describes_hash(metadata, hash, k) by {
                    lemma_metadata_meets(c, metadata, list, bound, i, j, k);
                    assert(at.update(2, Some(k)) =~= seq![Some(j), Some(i), Some(k)]);
                }
                if form.joined(bound, tables, at, 1) && described(metadata, hash) {
                    let k = choose|k: int| #[trigger] describes_hash(metadata, hash, k);
                    assert(!form.joins[1].meets(bound, tables, at.update(2, Some(k))));
                }
                if !described(metadata, hash) {
                    assert forall|k: int| 0 <= k < metadata.len() implies !#[trigger]
                        form.joins[1].meets(bound, tables, at.update(2, Some(k))) by {
                        assert(!describes_hash(metadata, hash, k));
                    }
                }
            },
        }
    }
}

/// What the list of locations with metadata shows of each, column by column in the order
/// in which they are read.
pub proof fn law_metadata_list_shows_its_columns(
    c: Catalog,
    metadata: Seq<MetadataEntry>,
    list: List,
    i: int,
    j: int,
    m: int,
)
    requires
        list == List::WithMetadata || list == List::WithMetadataOfVolume,
        0 <= i < c.files.len(),
        0 <= j < c.locations.len(),
        0 <= m < metadata.len(),
    ensures
        shown_values(
            list.form(),
            seq![location_rows(c), file_rows(c), metadata_rows(metadata)],
            seq![Some(j), Some(i), Some(m)],
        ) =~= seq![
            Bound::Text(c.files[i].file_uuid),
            text_or_null(c.files[i].hash),
            Bound::Int(c.files[i].size),
            Bound::Text(c.locations[j].volume),
            Bound::Text(c.locations[j].path),
            Bound::Text(c.locations[j].status),
            Bound::Text(c.locations[j].first_seen),
            Bound::Text(metadata[m].updated_at),
            int_or_null(metadata[m].width),
            int_or_null(metadata[m].height),
            int_or_null(metadata[m].duration_ms),
            text_or_null(metadata[m].captured_at),
            text_or_null(metadata[m].camera_make),
            text_or_null(metadata[m].camera_model),
            text_or_null(metadata[m].codec),
            int_or_null(metadata[m].bitrate_bps),
            text_or_null(metadata[m].mime_type),
            text_or_null(metadata[m].thumbnail_path),
            text_or_null(metadata[m].thumbnail_status),
            text_or_null(c.files[i].quick_hash),
        ],
        shown_values(
            list.form(),
            seq![location_rows(c), file_rows(c), metadata_rows(metadata)],
            seq![Some(j), Some(i), None],
        )[7] == Bound::Null,
{
    let tables = seq![location_rows(c), file_rows(c), metadata_rows(metadata)];
    lemma_files_columns();
    lemma_file_locations_columns();
    lemma_metadata_row(metadata[m]);
    assert(tables[0][j] == c.locations[j].row());
    assert(tables[1][i] == c.files[i].row());
    assert(tables[2][m] == metadata[m].row());
}

/// The rows of `file_tags`.
pub open spec fn link_rows(t: TagTables) -> Seq<Row> {
    Seq::new(t.links.len(), |i: int| t.links[i].row())
}

/// The list of the tags of several files takes the live attachments to their hashes, with
/// the live tags.
pub proof fn law_tags_of_files_are_listed_as_modelled(
    t: TagTables,
    hashes: Seq<BlakeHash>,
    bound: Seq<Bound>,
    l: int,
    v: int,
)
    requires
        hashes.len() <= u64::MAX,
        bound =~= hashes.map_values(|h: BlakeHash| Bound::Text(h.hex())),
    ensures
        ({
            let form = tags_of_files(hashes.len() as u64);
            let q = attached_tags(t, hashes);
            let tables = seq![link_rows(t), tag_rows(t)];
            let at = seq![Some(l), Some(v)];
            &&& form.takes(bound, tables, at) <==> (q.takes)((l, v))
            &&& (q.takes)((l, v)) ==> shown_values(form, tables, at) =~= seq![
                Bound::Text(t.links[l].hash),
                Bound::Text(t.tags[v].id),
                Bound::Text(t.tags[v].name),
                Bound::Text(t.tags[v].first_seen),
            ]
            &&& form.limit == Limit::All
            &&& !form.distinct
        }),
{
    let form = tags_of_files(hashes.len() as u64);
    let tables = seq![link_rows(t), tag_rows(t)];
    let at: Seq<Option<int>> = seq![Some(l), Some(v)];
    lemma_tags_columns();
    lemma_file_tags_columns();
    lemma_takes(form, bound, tables, at);
    lemma_conds(form.conds, bound, tables, at);
    lemma_conds(form.joins[0].conds, bound, tables, at);
    if 0 <= l < t.links.len() && 0 <= v < t.tags.len() {
        assert(tables[0][l] == t.links[l].row());
        assert(tables[1][v] == t.tags[v].row());
        let hash = t.links[l].hash;
        if form.conds[0].holds(bound, tables, at) {
            let k = choose|k: int|
                0 <= k < hashes.len() && #[trigger] bound[k] == Bound::Text(hash);
            assert(hashes[k].hex() == hash);
        }
        if exists|k: int| 0 <= k < hashes.len() && (#[trigger] hashes[k]).hex() == hash {
            let k = choose|k: int| 0 <= k < hashes.len() && (#[trigger] hashes[k]).hex() == hash;
            assert(bound[k] == Bound::Text(hash));
        }
    }
}

/// The list of files to be fingerprinted looks, for each live file without a quick hash,
/// at the active locations with its hash on mounted volumes; of those the latest comes
/// first, and what has no mount comes last. It gives the first for each hash, by hash.
pub proof fn law_backfill_list_is_as_modelled(
    c: Catalog,
    mounts: Seq<MountEntry>,
    bound: Seq<Bound>,
    i: int,
    l: int,
    m: int,
    l2: int,
    m2: int,
)
    ensures
        ({
            let form = List::Backfill.form();
            let tables = seq![file_rows(c), location_rows(c), mount_rows(mounts)];
            let at = seq![Some(i), Some(l), Some(m)];
            let at2 = seq![Some(i), Some(l2), Some(m2)];
            let unmounted = seq![Some(i), Some(l2), None];
            let takes = holding(c, mounts, c.files[i].hash);
            &&& form.takes(bound, tables, at) <==> 0 <= i < c.files.len() && c.files[i].quick_hash
                is None && c.files[i].deleted_at is None && takes((l, m))
            &&& 0 <= i < c.files.len() && takes((l, m)) ==> shown_values(form, tables, at) =~= seq![
                text_or_null(c.files[i].hash),
                Bound::Int(c.files[i].size),
                Bound::Text(mounts[m].path),
                Bound::Text(c.locations[l].path),
            ]
            &&& takes((l, m)) && takes((l2, m2)) ==> (form.le(tables, at, at2, 0) <==> by_recency(
                c,
                mounts,
            )((l, m), (l2, m2)))
            &&& takes((l, m)) ==> form.le(tables, at, unmounted, 0) && !form.le(
                tables,
                unmounted,
                at,
                0,
            )
            &&& 0 <= i < c.files.len() ==> file_hash().value(tables, at) == text_or_null(
                c.files[i].hash,
            )
            &&& form.limit == Limit::Param(1)
        }),
{
    let form = List::Backfill.form();
    let tables = seq![file_rows(c), location_rows(c), mount_rows(mounts)];
    let at: Seq<Option<int>> = seq![Some(i), Some(l), Some(m)];
    let at2: Seq<Option<int>> = seq![Some(i), Some(l2), Some(m2)];
    let unmounted: Seq<Option<int>> = seq![Some(i), Some(l2), None];
    lemma_files_columns();
    lemma_file_locations_columns();
    lemma_volume_mounts_columns();
    lemma_takes(form, bound, tables, at);
    lemma_conds(form.conds, bound, tables, at);
    lemma_conds(form.joins[0].conds, bound, tables, at);
    lemma_conds(form.joins[1].conds, bound, tables, at);
    reveal_with_fuel(QueryForm::le, 3);
    if 0 <= i < c.files.len() {
        assert(tables[0][i] == c.files[i].row());
    }
    if 0 <= l < c.locations.len() && 0 <= m < mounts.len() {
        assert(tables[1][l] == c.locations[l].row());
        assert(tables[2][m] == mounts[m].row());
        law_text_order_is_total(c.locations[l].path, c.locations[l].path);
        law_text_order_is_total(mounts[m].path, mounts[m].path);
        assert(form.order[0].value(tables, at) == Bound::Text(mounts[m].path));
        assert(form.order[1].value(tables, at) == Bound::Text(c.locations[l].path));
        assert(form.latest->0.value(tables, at) == Bound::Text(c.locations[l].updated_at));
        assert(form.order[0].value(tables, unmounted) == Bound::Null);
    }
    if 0 <= l2 < c.locations.len() && 0 <= m2 < mounts.len() {
        assert(tables[1][l2] == c.locations[l2].row());
        assert(tables[2][m2] == mounts[m2].row());
        assert(form.order[0].value(tables, at2) == Bound::Text(mounts[m2].path));
        assert(form.order[1].value(tables, at2) == Bound::Text(c.locations[l2].path));
        assert(form.latest->0.value(tables, at2) == Bound::Text(c.locations[l2].updated_at));
    }
}

/// The query for colliding quick hashes gives those that the model says.
pub proof fn law_collisions_are_asked_for_as_modelled(c: Catalog, bound: Seq<Bound>, q: Seq<char>)
    ensures
        collisions().takes(bound, file_rows(c), Bound::Text(q)) <==> colliding(c, q),
        !collisions().takes(bound, file_rows(c), Bound::Null),
{
    let form = collisions();
    let rows = file_rows(c);
    let share = form.sharing(bound, Bound::Text(q));
    lemma_files_columns();
    assert forall|i: int| 0 <= i < c.files.len() implies #[trigger] share(rows[i]) == bears(q)(
        c.files[i],
    ) by {
        assert(rows[i] == c.files[i].row());
        if bears(q)(c.files[i]) {
            assert forall|k: int| 0 <= k < form.tests.len() implies (
            #[trigger] form.tests[k]).passes(bound, rows[i]) by {
                assert(k == 0 || k == 1);
            }
        } else if share(rows[i]) {
            assert(form.tests[1].passes(bound, rows[i]));
        }
    }
    lemma_hits_of_rows(c.files, rows, bears(q), share);
    assert forall|i: int| 0 <= i < c.files.len() implies (#[trigger] rows[i])["verified_distinct"@]
        == Bound::Int(if c.files[i].verified_distinct {
        1
    } else {
        0
    }) by {
        assert(rows[i] == c.files[i].row());
    }
    if colliding(c, q) {
        let i = choose|i: int|
            0 <= i < c.files.len() && bears(q)(#[trigger] c.files[i])
                && !c.files[i].verified_distinct;
        assert(share(rows[i]));
    }
    if form.takes(bound, rows, Bound::Text(q)) {
        let i = choose|i: int|
            0 <= i < rows.len() && share(#[trigger] rows[i]) && rows[i][form.least] == Bound::Int(
                form.number as int,
            );
        assert(bears(q)(c.files[i]));
    }
    let none = form.sharing(bound, Bound::Null);
    if form.takes(bound, rows, Bound::Null) {
        let i = choose|i: int|
            0 <= i < rows.len() && none(#[trigger] rows[i]) && rows[i][form.least] == Bound::Int(
                form.number as int,
            );
        assert(form.tests[0].passes(bound, rows[i]));
    }
}

proof fn lemma_hits_of_rows(
    files: Seq<FileEntry>,
    rows: Seq<Row>,
    f: spec_fn(FileEntry) -> bool,
    g: spec_fn(Row) -> bool,
)
    requires
        files.len() == rows.len(),
        forall|i: int| 0 <= i < files.len() ==> #[trigger] g(rows[i]) == f(files[i]),
    ensures
        hits(files, f) == hits(rows, g),
    decreases files.len(),
{
    if files.len() > 0 {
        let fewer = files.drop_last();
        let less = rows.drop_last();
        assert forall|i: int| 0 <= i < fewer.len() implies #[trigger] g(less[i]) == f(fewer[i]) by {
            assert(g(rows[i]) == f(files[i]));
        }
        lemma_hits_of_rows(fewer, less, f, g);
        assert(g(rows[files.len() - 1]) == f(files[files.len() - 1]));
    }
}

/// Both the query for the volume of a hit and the one that the index is built of put the
/// locations that were seen first before the others.
pub proof fn law_first_seen_come_first(
    c: Catalog,
    list: List,
    tables: Seq<Seq<Row>>,
    a: Seq<Option<int>>,
    b: Seq<Option<int>>,
    j: int,
    k: int,
)
    requires
        list == List::Representatives || list == List::VolumeOfHit,
        tables.len() > 0,
        tables[0] == location_rows(c),
        a.len() > 0,
        b.len() > 0,
        a[0] == Some(j),
        b[0] == Some(k),
        0 <= j < c.locations.len(),
        0 <= k < c.locations.len(),
    ensures
        list.form().le(tables, a, b, 0) <==> seen_le(c, j, k),
{
    lemma_file_locations_columns();
    law_text_order_is_total(c.locations[j].first_seen, c.locations[j].first_seen);
    law_text_order_is_total(c.locations[j].id, c.locations[j].id);
    reveal_with_fuel(QueryForm::le, 3);
    let form = list.form();
    assert(tables[0][j] == c.locations[j].row());
    assert(tables[0][k] == c.locations[k].row());
    assert(form.order[0].value(tables, a) == Bound::Text(c.locations[j].first_seen));
    assert(form.order[0].value(tables, b) == Bound::Text(c.locations[k].first_seen));
    assert(form.order[1].value(tables, a) == Bound::Text(c.locations[j].id));
    assert(form.order[1].value(tables, b) == Bound::Text(c.locations[k].id));
}

/// The index is built of the live locations with their files, one for each file: its
/// identifier, its hash, and the path of the location.
pub proof fn law_index_is_built_of_live_locations(c: Catalog, bound: Seq<Bound>, i: int, j: int)
    ensures
        ({
            let form = List::Representatives.form();
            let tables = seq![location_rows(c), file_rows(c)];
            let at = seq![Some(j), Some(i)];
            &&& form.takes(bound, tables, at) <==> live_of(c, i, j)
            &&& live_of(c, i, j) ==> shown_values(form, tables, at) =~= seq![
                Bound::Text(c.files[i].file_uuid),
                text_or_null(c.files[i].hash),
                Bound::Text(c.locations[j].path),
            ] && file_id().value(tables, at) == Bound::Text(c.files[i].file_uuid)
            &&& form.limit == Limit::All
        }),
{
    let form = List::Representatives.form();
    let tables = seq![location_rows(c), file_rows(c)];
    let at: Seq<Option<int>> = seq![Some(j), Some(i)];
    lemma_files_columns();
    lemma_file_locations_columns();
    lemma_takes(form, bound, tables, at);
    lemma_conds(form.conds, bound, tables, at);
    lemma_conds(form.joins[0].conds, bound, tables, at);
    if 0 <= i < c.files.len() && 0 <= j < c.locations.len() {
        lemma_file_of(c, bound, tables, at, i, j);
    }
}

/// The volume of a hit is looked for among the live locations of its file.
pub proof fn law_volume_of_a_hit_is_of_its_file(
    c: Catalog,
    bound: Seq<Bound>,
    content: Seq<Row>,
    n: int,
    u: Seq<char>,
    i: int,
    j: int,
)
    requires
        0 <= n < content.len(),
        content[n]["file_uuid"@] == Bound::Text(u),
    ensures
        ({
            let form = List::VolumeOfHit.form();
            let tables = seq![location_rows(c), file_rows(c), content];
            let at = seq![Some(j), Some(i), Some(n)];
            &&& form.takes(bound, tables, at) <==> live_of(c, i, j) && c.files[i].file_uuid == u
            &&& live_of(c, i, j) ==> shown_values(form, tables, at) =~= seq![
                Bound::Text(c.locations[j].volume),
            ]
            &&& form.limit == Limit::One
        }),
{
    let form = List::VolumeOfHit.form();
    let tables = seq![location_rows(c), file_rows(c), content];
    let at: Seq<Option<int>> = seq![Some(j), Some(i), Some(n)];
    lemma_files_columns();
    lemma_file_locations_columns();
    lemma_takes(form, bound, tables, at);
    lemma_conds(form.conds, bound, tables, at);
    lemma_conds(form.joins[0].conds, bound, tables, at);
    if 0 <= i < c.files.len() && 0 <= j < c.locations.len() {
        lemma_file_of(c, bound, tables, at, i, j);
        assert(tables[1][i] == c.files[i].row());
    }
}

/// The names of the columns of `search_content` differ from one another.
proof fn lemma_search_content_columns()
    ensures
        "file_uuid"@.len() == 9,
        "blake3_hash"@.len() == 11,
        "filename"@.len() == 8,
        "relative_path"@.len() == 13,
        "mime_type"@.len() == 9,
        "camera_model"@.len() == 12,
        "captured_at"@.len() == 11,
        "tags"@.len() == 4,
        "blake3_hash"@[0] == 'b',
        "captured_at"@[0] == 'c',
        "file_uuid"@[0] == 'f',
        "mime_type"@[0] == 'm',
{
    reveal_strlit("file_uuid");
    reveal_strlit("blake3_hash");
    reveal_strlit("filename");
    reveal_strlit("relative_path");
    reveal_strlit("mime_type");
    reveal_strlit("camera_model");
    reveal_strlit("captured_at");
    reveal_strlit("tags");
    assert("file_uuid"@.len() == 9);
    assert("blake3_hash"@.len() == 11);
    assert("filename"@.len() == 8);
    assert("relative_path"@.len() == 13);
    assert("mime_type"@.len() == 9);
    assert("camera_model"@.len() == 12);
    assert("captured_at"@.len() == 11);
    assert("tags"@.len() == 4);
    assert("blake3_hash"@[0] == 'b');
    assert("captured_at"@[0] == 'c');
    assert("file_uuid"@[0] == 'f');
    assert("mime_type"@[0] == 'm');
}

impl FillTerm {
    /// What a column gets, from the columns of the location, from those of the metadata
    /// where there is any, and from the names of the tags.
    pub open spec fn value(self, r: Row, m: Option<Row>, names: Seq<char>) -> Bound {
        match self {
            FillTerm::Own(c) => r[c.name@],
            FillTerm::OrEmpty(c) => if m is Some && (m->0)[c.name@] != Bound::Null {
                (m->0)[c.name@]
            } else {
                Bound::Text(Seq::empty())
            },
            FillTerm::TagNames => Bound::Text(names),
        }
    }
}

/// The row that is made, with its first `n` columns.
pub open spec fn filled(r: Row, m: Option<Row>, names: Seq<char>, n: int) -> Row
    decreases n,
{
    if n <= 0 {
        blank()
    } else {
        filled(r, m, names, n - 1).insert(
            fill_pairs()[n - 1].column@,
            fill_pairs()[n - 1].term.value(r, m, names),
        )
    }
}

/// A row of the index gets the identifier, the hash and the path of its location, the path
/// as its name too, the columns of the metadata where they are there, and the names of the
/// tags.
pub proof fn law_index_rows_are_filled_as_modelled(
    r: Row,
    m: Option<MetadataEntry>,
    names: Seq<char>,
)
    ensures
        ({
            let metadata: Option<Row> = match m {
                Some(e) => Some(e.row()),
                None => None,
            };
            let row = filled(r, metadata, names, fill_pairs().len() as int);
            &&& row["file_uuid"@] == r["file_uuid"@]
            &&& row["blake3_hash"@] == r["blake3_hash"@]
            &&& row["filename"@] == r["relative_path"@]
            &&& row["relative_path"@] == r["relative_path"@]
            &&& row["mime_type"@] == Bound::Text(
                match m {
                    Some(e) => or_empty(e.mime_type),
                    None => Seq::empty(),
                },
            )
            &&& row["camera_model"@] == Bound::Text(
                match m {
                    Some(e) => or_empty(e.camera_model),
                    None => Seq::empty(),
                },
            )
            &&& row["captured_at"@] == Bound::Text(
                match m {
                    Some(e) => or_empty(e.captured_at),
                    None => Seq::empty(),
                },
            )
            &&& row["tags"@] == Bound::Text(names)
        }),
{
    lemma_search_content_columns();
    if let Some(e) = m {
        lemma_metadata_row(e);
    }
    reveal_with_fuel(filled, 9);
    assert(fill_pairs().len() == 8);
}

/// The metadata of a row that is made is the live metadata of its hash.
pub proof fn law_index_rows_get_the_live_metadata(
    metadata: Seq<MetadataEntry>,
    made: Seq<Row>,
    n: int,
    hash: Option<Seq<char>>,
    bound: Seq<Bound>,
    m: int,
)
    requires
        0 <= n < made.len(),
        made[n]["blake3_hash"@] == text_or_null(hash),
        0 <= m < metadata.len(),
    ensures
        metadata_of_row().left,
        metadata_of_row().table == "file_metadata"@,
        metadata_of_row().meets(
            bound,
            seq![made, metadata_rows(metadata)],
            seq![Some(n), Some(m)],
        ) <==> describes_hash(metadata, hash, m),
{
    let tables = seq![made, metadata_rows(metadata)];
    let at: Seq<Option<int>> = seq![Some(n), Some(m)];
    lemma_file_metadata_columns();
    lemma_metadata_row(metadata[m]);
    lemma_conds(metadata_of_row().conds, bound, tables, at);
    assert(tables[1][m] == metadata[m].row());
    assert(tables[0][n] == made[n]);
}

/// The names of the tags of a row that is made are those of the live tags of its hash.
pub proof fn law_index_rows_get_the_live_tags(
    t: TagTables,
    made: Seq<Row>,
    n: int,
    hash: Option<Seq<char>>,
    bound: Seq<Bound>,
    l: int,
    v: int,
)
    requires
        0 <= n < made.len(),
        made[n]["blake3_hash"@] == text_or_null(hash),
    ensures
        ({
            let form = List::TagNames.form();
            let tables = seq![link_rows(t), tag_rows(t), made];
            let at = seq![Some(l), Some(v), Some(n)];
            &&& form.takes(bound, tables, at) <==> (tag_names(t, hash).takes)((l, v))
            &&& (tag_names(t, hash).takes)((l, v)) ==> shown_values(form, tables, at) =~= seq![
                Bound::Text(t.tags[v].name),
            ]
            &&& form.limit == Limit::All
            &&& !form.distinct
        }),
{
    let form = List::TagNames.form();
    let tables = seq![link_rows(t), tag_rows(t), made];
    let at: Seq<Option<int>> = seq![Some(l), Some(v), Some(n)];
    lemma_tags_columns();
    lemma_file_tags_columns();
    lemma_takes(form, bound, tables, at);
    lemma_conds(form.conds, bound, tables, at);
    lemma_conds(form.joins[0].conds, bound, tables, at);
    if 0 <= l < t.links.len() && 0 <= v < t.tags.len() {
        assert(tables[0][l] == t.links[l].row());
        assert(tables[1][v] == t.tags[v].row());
    }
}

} // verus!
