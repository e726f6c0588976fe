//! What the queries on volumes, tags and metadata give back, and the laws of those
//! lists.
use vstd::prelude::*;

use crate::db::convert::stored_uuid;
use crate::db::metadata_repo::LocationMetadataRow;
use crate::db::model::catalog_reads::location_list;
use crate::db::model::files::Catalog;
use crate::db::model::metadata::{holds, MetadataEntry};
use crate::db::model::reads::{law_taken_place_is_listed, text_le, Query};
use crate::db::model::tags::{after, law_tag_commands_keep_order, TagTables};
use crate::db::model::volumes::{
    law_one_live_mount_per_machine, mounted_at, mounts_after, mounts_wf, MountEntry, VolumeEntry,
};
use crate::db::sql::Stamp;
use crate::db::tag_repo::{grouped, tags_of, HashTagRow, TagRow};
use crate::db::volume_repo::{firsts, is_first, merged, mounts_of, VolumeRow};
use crate::db::writer::tag::{TagFound, TagPlan, TagWriteCmd};
use crate::db::writer::volume::mount_statements;
use crate::tag::Tag;
use crate::text::text_opt;
use crate::types::{BlakeHash, DeviceId, VolumeId, VolumeRecord};

verus! {

/// Whether a machine has a live mount of the volume at `v`.
pub open spec fn has_mount(
    volumes: Seq<VolumeEntry>,
    mounts: Seq<MountEntry>,
    machine: Seq<char>,
    v: int,
) -> bool {
    exists|m: int| 0 <= m < mounts.len() && (#[trigger] mounts[m]).live_on(volumes[v].id, machine)
}

/// The list of the live volumes with their live mounts on one machine: one row for
/// each mount, or one without a mount, by volume and mount.
pub open spec fn volume_list(
    volumes: Seq<VolumeEntry>,
    mounts: Seq<MountEntry>,
    machine: DeviceId,
) -> Query<(int, Option<int>), VolumeRow> {
    Query {
        takes: |k: (int, Option<int>)|
            0 <= k.0 < volumes.len() && volumes[k.0].deleted_at is None && match k.1 {
                Some(m) => 0 <= m < mounts.len() && mounts[m].live_on(
                    volumes[k.0].id,
                    machine.0.text(),
                ),
                None => !has_mount(volumes, mounts, machine.0.text(), k.0),
            },
        shows: |k: (int, Option<int>), row: VolumeRow|
            {
                &&& row.volume@ == volumes[k.0].id
                &&& text_opt(row.label) == volumes[k.0].label
                &&& row.capacity == volumes[k.0].capacity
                &&& (row.removable != 0) == volumes[k.0].removable
                &&& row.last_seen@ == volumes[k.0].last_seen
                &&& text_opt(row.mount) == match k.1 {
                    Some(m) => Some(mounts[m].path),
                    None => None,
                }
            },
        le: |a: (int, Option<int>), b: (int, Option<int>)|
            if volumes[a.0].id == volumes[b.0].id && a.1 is Some && b.1 is Some {
                text_le(mounts[a.1->0].path, mounts[b.1->0].path)
            } else {
                text_le(volumes[a.0].id, volumes[b.0].id)
            },
        limit: None,
    }
}

pub(crate) proof fn lemma_volume_has_a_first_row(rows: Seq<VolumeRow>, k: int)
    requires
        0 <= k < rows.len(),
    ensures
        exists|i: int|
            0 <= i < firsts(rows).len() && 0 <= #[trigger] firsts(rows)[i] < rows.len()
                && rows[firsts(rows)[i]].id() == rows[k].id(),
    decreases rows.len(),
{
    let fewer = rows.drop_last();
    let n = rows.len() - 1;
    if k == n && is_first(rows, n) {
        assert(firsts(rows)[firsts(fewer).len() as int] == n);
    } else {
        let p = if k < n {
            k
        } else {
            choose|j: int| 0 <= j < n && (#[trigger] rows[j]).id() == rows[n].id()
        };
        assert(rows[p].id() == rows[k].id());
        assert(fewer[p] == rows[p]);
        lemma_volume_has_a_first_row(fewer, p);
        let i = choose|i: int|
            0 <= i < firsts(fewer).len() && 0 <= #[trigger] firsts(fewer)[i] < fewer.len()
                && fewer[firsts(fewer)[i]].id() == fewer[p].id();
        assert(firsts(rows)[i] == firsts(fewer)[i]);
        assert(rows[firsts(rows)[i]] == fewer[firsts(fewer)[i]]);
    }
}

proof fn lemma_mount_is_among_those_of_its_volume(rows: Seq<VolumeRow>, k: int)
    requires
        0 <= k < rows.len(),
        rows[k].mount is Some,
    ensures
        mounts_of(rows, rows[k].id()).contains(rows[k].mount->0),
    decreases rows.len(),
{
    let fewer = rows.drop_last();
    let n = rows.len() - 1;
    let id = rows[k].id();
    if k < n {
        assert(fewer[k] == rows[k]);
        lemma_mount_is_among_those_of_its_volume(fewer, k);
        let i = choose|i: int|
            0 <= i < mounts_of(fewer, id).len() && mounts_of(fewer, id)[i] == rows[k].mount->0;
        assert(mounts_of(rows, id)[i] == mounts_of(fewer, id)[i]);
    } else {
        assert(mounts_of(rows, id)[mounts_of(fewer, id).len() as int] == rows[k].mount->0);
    }
}

/// Whether a record lists a mount of a volume.
pub open spec fn lists_mount(r: VolumeRecord, volume: Seq<char>, mount: Seq<char>) -> bool {
    r.id == VolumeId(stored_uuid(volume)) && exists|i: int|
        0 <= i < r.mounts_on_this_machine@.len() && (#[trigger] r.mounts_on_this_machine@[i])@
            == mount
}

/// A mount that was recorded is listed with its volume, on the machine that has it,
/// and no row gives the volume another mount there.
pub proof fn law_recorded_mount_is_listed(
    volumes: Seq<VolumeEntry>,
    mounts: Seq<MountEntry>,
    volume: VolumeId,
    machine: DeviceId,
    mount: String,
    stamp: Stamp,
    v: int,
    places: Seq<(int, Option<int>)>,
    rows: Seq<VolumeRow>,
    out: Seq<VolumeRecord>,
)
    requires
        mounts_wf(mounts),
        0 <= v < volumes.len(),
        volumes[v].deleted_at is None,
        volumes[v].id == volume.0.text(),
        volume_list(
            volumes,
            mounts_after(
                mounts,
                mount_statements(
                    volume,
                    machine,
                    mount,
                    stamp,
                    mounted_at(mounts, volume.0.text(), machine.0.text(), mount@),
                ),
            ),
            machine,
        ).gives(places, rows),
        merged(rows, out),
    ensures
        exists|i: int| 0 <= i < out.len() && lists_mount(#[trigger] out[i], volume.0.text(), mount@),
        forall|n: int|
            0 <= n < rows.len() && (#[trigger] rows[n]).volume@ == volume.0.text() ==> text_opt(
                rows[n].mount,
            ) == Some(mount@),
{
    let vol = volume.0.text();
    let mac = machine.0.text();
    let known = mounted_at(mounts, vol, mac, mount@);
    let next = mounts_after(mounts, mount_statements(volume, machine, mount, stamp, known));
    law_one_live_mount_per_machine(mounts, volume, machine, mount, stamp);
    let q = volume_list(volumes, next, machine);
    let m = choose|m: int|
        0 <= m < next.len() && (#[trigger] next[m]).live_on(vol, mac) && next[m].path == mount@;
    let k: (int, Option<int>) = (v, Some(m));
    assert((q.takes)(k));
    law_taken_place_is_listed(q, places, rows, k);
    let n = choose|n: int|
        0 <= n < rows.len() && places[n] == k && (q.shows)(k, #[trigger] rows[n]);
    assert(rows[n].volume@ == vol && text_opt(rows[n].mount) == Some(mount@));
    lemma_volume_has_a_first_row(rows, n);
    let i = choose|i: int|
        0 <= i < firsts(rows).len() && 0 <= #[trigger] firsts(rows)[i] < rows.len()
            && rows[firsts(rows)[i]].id() == rows[n].id();
    assert(rows[firsts(rows)[i]].describes(out[i]));
    lemma_mount_is_among_those_of_its_volume(rows, n);
    let listed = mounts_of(rows, rows[n].id());
    let p = choose|p: int| 0 <= p < listed.len() && listed[p] == rows[n].mount->0;
    assert(out[i].mounts_on_this_machine@[p]@ == mount@);
    assert(lists_mount(out[i], vol, mount@));
    assert forall|w: int| 0 <= w < rows.len() && (#[trigger] rows[w]).volume@ == vol implies text_opt(
        rows[w].mount,
    ) == Some(mount@) by {
        assert((q.takes)(places[w]) && (q.shows)(places[w], rows[w]));
        if places[w].1 is None {
            assert(next[m].live_on(volumes[places[w].0].id, mac));
            assert(has_mount(volumes, next, mac, places[w].0));
        }
    }
}

/// The list of the live tags, by name.
pub open spec fn tag_list(t: TagTables) -> Query<int, TagRow> {
    Query {
        takes: |i: int| 0 <= i < t.tags.len() && t.tags[i].deleted_at is None,
        shows: |i: int, row: TagRow|
            row.id@ == t.tags[i].id && row.name@ == t.tags[i].name && row.first_seen@
                == t.tags[i].first_seen,
        le: |a: int, b: int| text_le(t.tags[a].name, t.tags[b].name),
        limit: None,
    }
}

/// A tag that was named is listed under that name, once; where it was not there
/// before, with the identifier and the time that the command gave it.
pub proof fn law_named_tag_is_listed(
    t: TagTables,
    name: String,
    device: DeviceId,
    stamp: Stamp,
    found: TagFound,
    plan: TagPlan,
    places: Seq<int>,
    rows: Seq<TagRow>,
)
    requires
        t.wf(),
        !t.has_tag(stamp.fresh.text()),
        t.finds_tag(name@, found.tag),
        (TagWriteCmd::UpsertTag { name, device }).planned(stamp, found, Ok(plan)),
        tag_list(after(t, plan)).gives(places, rows),
    ensures
        exists|n: int|
            0 <= n < rows.len() && (#[trigger] rows[n]).name@ == name@ && (found.tag is None
                ==> rows[n].id@ == stamp.fresh.text() && rows[n].first_seen@ == stamp.now@),
        forall|m: int, n: int|
            0 <= m < rows.len() && 0 <= n < rows.len() && (#[trigger] rows[m]).name@ == (
            #[trigger] rows[n]).name@ ==> m == n,
{
    let next = after(t, plan);
    let q = tag_list(next);
    law_tag_commands_keep_order(t, TagWriteCmd::UpsertTag { name, device }, stamp, found, plan);
    let k = match found.tag {
        None => t.tags.len() as int,
        Some(row) => choose|i: int|
            0 <= i < t.tags.len() && (#[trigger] t.tags[i]).live_as(name@) && t.tags[i].id
                == row.id@ && t.tags[i].first_seen == row.first_seen@,
    };
    assert(next.tags[k].live_as(name@));
    assert((q.takes)(k));
    law_taken_place_is_listed(q, places, rows, k);
    let n = choose|n: int|
        0 <= n < rows.len() && places[n] == k && (q.shows)(k, #[trigger] rows[n]);
    assert(rows[n].name@ == name@);
    assert forall|m: int, n: int|
        0 <= m < rows.len() && 0 <= n < rows.len() && (#[trigger] rows[m]).name@ == (
        #[trigger] rows[n]).name@ implies m == n by {
        assert((q.takes)(places[m]) && (q.shows)(places[m], rows[m]));
        assert((q.takes)(places[n]) && (q.shows)(places[n], rows[n]));
        assert(next.tags[places[m]].live_as(next.tags[places[n]].name));
        assert(places[m] == places[n]);
    }
}

/// The list of the live tags that are attached to files, in no particular order.
pub open spec fn attached_tags(t: TagTables, hashes: Seq<BlakeHash>) -> Query<
    (int, int),
    HashTagRow,
> {
    Query {
        takes: |k: (int, int)|
            {
                &&& 0 <= k.0 < t.links.len()
                &&& 0 <= k.1 < t.tags.len()
                &&& t.links[k.0].deleted_at is None
                &&& t.tags[k.1].deleted_at is None
                &&& t.links[k.0].tag == t.tags[k.1].id
                &&& exists|i: int|
                    0 <= i < hashes.len() && (#[trigger] hashes[i]).hex() == t.links[k.0].hash
            },
        shows: |k: (int, int), row: HashTagRow|
            row.hash@ == t.links[k.0].hash && row.tag.id@ == t.tags[k.1].id && row.tag.name@
                == t.tags[k.1].name && row.tag.first_seen@ == t.tags[k.1].first_seen,
        le: |a: (int, int), b: (int, int)| true,
        limit: None,
    }
}

/// The list of the hashes that a tag is attached to, in no particular order.
pub open spec fn tagged_hashes(t: TagTables, tag: Seq<char>) -> Query<int, String> {
    Query {
        takes: |i: int|
            0 <= i < t.links.len() && t.links[i].deleted_at is None && t.links[i].tag == tag,
        shows: |i: int, row: String| row@ == t.links[i].hash,
        le: |a: int, b: int| true,
        limit: None,
    }
}

proof fn lemma_tag_is_among_those_of_its_file(rows: Seq<HashTagRow>, k: int)
    requires
        0 <= k < rows.len(),
    ensures
        tags_of(rows, rows[k].hash@).contains(rows[k].tag.tag()),
    decreases rows.len(),
{
    let fewer = rows.drop_last();
    let n = rows.len() - 1;
    let hash = rows[k].hash@;
    if k < n {
        assert(fewer[k] == rows[k]);
        lemma_tag_is_among_those_of_its_file(fewer, k);
        let i = choose|i: int|
            0 <= i < tags_of(fewer, hash).len() && tags_of(fewer, hash)[i] == rows[k].tag.tag();
        assert(tags_of(rows, hash)[i] == tags_of(fewer, hash)[i]);
    } else {
        assert(tags_of(rows, hash)[tags_of(fewer, hash).len() as int] == rows[k].tag.tag());
    }
}

/// Whether an entry lists a tag with a file.
pub open spec fn lists_tag(
    entry: (BlakeHash, Vec<Tag>),
    hash: BlakeHash,
    id: Seq<char>,
    name: Seq<char>,
) -> bool {
    entry.0.hex() == hash.hex() && exists|i: int|
        0 <= i < entry.1@.len() && (#[trigger] entry.1@[i]).id == stored_uuid(id)
            && entry.1@[i].name@ == name
}

/// A live tag that is attached to a file is listed with that file, and the file is
/// listed with that tag.
pub proof fn law_attached_tag_is_listed(
    t: TagTables,
    hashes: Seq<BlakeHash>,
    h: int,
    v: int,
    places: Seq<(int, int)>,
    rows: Seq<HashTagRow>,
    out: Seq<(BlakeHash, Vec<Tag>)>,
    places2: Seq<int>,
    rows2: Seq<String>,
)
    requires
        0 <= h < hashes.len(),
        0 <= v < t.tags.len(),
        t.tags[v].deleted_at is None,
        t.attached(hashes[h].hex(), t.tags[v].id),
        attached_tags(t, hashes).gives(places, rows),
        grouped(rows, out),
        tagged_hashes(t, t.tags[v].id).gives(places2, rows2),
    ensures
        exists|i: int|
            0 <= i < out.len() && lists_tag(
                #[trigger] out[i],
                hashes[h],
                t.tags[v].id,
                t.tags[v].name,
            ),
        exists|i: int| 0 <= i < rows2.len() && (#[trigger] rows2[i])@ == hashes[h].hex(),
{
    let l = choose|l: int|
        0 <= l < t.links.len() && (#[trigger] t.links[l]).live_for(hashes[h].hex(), t.tags[v].id);
    let q = attached_tags(t, hashes);
    assert(hashes[h].hex() == t.links[l].hash);
    assert((q.takes)((l, v)));
    law_taken_place_is_listed(q, places, rows, (l, v));
    let n = choose|n: int|
        0 <= n < rows.len() && places[n] == (l, v) && (q.shows)((l, v), #[trigger] rows[n]);
    assert(rows[n].hash@ == hashes[h].hex());
    let i = choose|i: int| 0 <= i < out.len() && (#[trigger] out[i]).0.hex() == rows[n].hash@;
    assert(out[i].1@ == tags_of(rows, out[i].0.hex()));
    lemma_tag_is_among_those_of_its_file(rows, n);
    let p = choose|p: int|
        0 <= p < tags_of(rows, rows[n].hash@).len() && tags_of(rows, rows[n].hash@)[p]
            == rows[n].tag.tag();
    assert(out[i].1@[p] == rows[n].tag.tag());
    assert(lists_tag(out[i], hashes[h], t.tags[v].id, t.tags[v].name));
    let q2 = tagged_hashes(t, t.tags[v].id);
    assert((q2.takes)(l));
    law_taken_place_is_listed(q2, places2, rows2, l);
}

/// Whether the row at `m` is the live metadata of a hash.
pub open spec fn describes_hash(metadata: Seq<MetadataEntry>, hash: Option<Seq<char>>, m: int) -> bool {
    0 <= m < metadata.len() && metadata[m].deleted_at is None && hash == Some(metadata[m].hash)
}

/// Whether a hash has live metadata.
pub open spec fn described(metadata: Seq<MetadataEntry>, hash: Option<Seq<char>>) -> bool {
    exists|m: int| #[trigger] describes_hash(metadata, hash, m)
}

/// The list of live locations with their files and the live metadata of those, all
/// or those of one volume, by path.
pub open spec fn metadata_list(
    c: Catalog,
    metadata: Seq<MetadataEntry>,
    volume: Option<VolumeId>,
    limit: nat,
) -> Query<(int, int, Option<int>), LocationMetadataRow> {
    let locations = location_list(c, volume, limit);
    Query {
        takes: |k: (int, int, Option<int>)|
            (locations.takes)((k.0, k.1)) && match k.2 {
                Some(m) => describes_hash(metadata, c.files[k.0].hash, m),
                None => !described(metadata, c.files[k.0].hash),
            },
        shows: |k: (int, int, Option<int>), row: LocationMetadataRow|
            {
                &&& (locations.shows)((k.0, k.1), row.location)
                &&& text_opt(row.quick_hash) == c.files[k.0].quick_hash
                &&& match k.2 {
                    Some(m) => text_opt(row.updated_at) == Some(metadata[m].updated_at) && holds(
                        metadata[m],
                        row.columns,
                    ),
                    None => row.updated_at is None,
                }
            },
        le: |a: (int, int, Option<int>), b: (int, int, Option<int>)|
            (locations.le)((a.0, a.1), (b.0, b.1)),
        limit: Some(limit),
    }
}

/// Each live location with a file is listed, with the live metadata of its file
/// where there is any and without where there is none, unless the list is cut off.
pub proof fn law_locations_are_listed_with_their_metadata(
    c: Catalog,
    metadata: Seq<MetadataEntry>,
    volume: Option<VolumeId>,
    limit: nat,
    places: Seq<(int, int, Option<int>)>,
    rows: Seq<LocationMetadataRow>,
    i: int,
    j: int,
)
    requires
        metadata_list(c, metadata, volume, limit).gives(places, rows),
        rows.len() < limit,
        c.belongs(i, j),
        c.locations[j].deleted_at is None,
        volume is Some ==> c.locations[j].volume == (volume->0).0.text(),
    ensures
        exists|n: int|
            #![trigger rows[n]]
            0 <= n < rows.len() && rows[n].location.volume@ == c.locations[j].volume
                && rows[n].location.path@ == c.locations[j].path && rows[n].location.file_uuid@
                == c.files[i].file_uuid && (rows[n].has_metadata() <==> described(
                metadata,
                c.files[i].hash,
            )) && (rows[n].has_metadata()
                ==> exists|m: int|
                #[trigger] describes_hash(metadata, c.files[i].hash, m) && holds(
                    metadata[m],
                    rows[n].columns,
                )),
{
    let q = metadata_list(c, metadata, volume, limit);
    let hash = c.files[i].hash;
    let locations = location_list(c, volume, limit);
    assert((locations.takes)((i, j)));
    let k: (int, int, Option<int>) = if described(metadata, hash) {
        (i, j, Some(choose|m: int| #[trigger] describes_hash(metadata, hash, m)))
    } else {
        (i, j, None)
    };
    assert((q.takes)(k));
    law_taken_place_is_listed(q, places, rows, k);
    let n = choose|n: int|
        0 <= n < rows.len() && places[n] == k && (q.shows)(k, #[trigger] rows[n]);
    assert((locations.shows)((i, j), rows[n].location));
    assert(text_opt(rows[n].location.hash) == hash);
    if let Some(m) = k.2 {
        assert(describes_hash(metadata, hash, m));
    }
}

} // verus!
