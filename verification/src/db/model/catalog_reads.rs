//! What the queries on files and locations give back, and the laws of those lists.
use vstd::prelude::*;
use vstd::string::*;

use crate::db::file_repo::{
    left_out, locations_read, mounted, occupied, BackfillRow, FileByUuidRow, GroupRows, LocationRow, VerifyRow,
};
use crate::db::model::files::{
    after, hits, law_commands_keep_order, law_distinct_files_are_marked,
    law_prune_retires_the_missing_only, lemma_no_hits, lemma_upserted_file_row,
    lemma_written_location_row, shows, Catalog, FileEntry, LocationEntry,
};
use crate::db::model::reads::{law_taken_place_is_listed, pair_le, text_le, Query};
use crate::db::model::volumes::{mounted_at, MountEntry};
use crate::db::sql::Stamp;
use crate::db::writer::file::{
    distinct_statements, FileFound, FilePlan, FileWriteCmd,
};
use crate::dedup::{CollisionGroup, VerifiedState};
use crate::ports::file_repo::BackfillFileRow;
use crate::text::text_opt;
use crate::types::{BlakeHash, DeviceId, FileUuid, HashedFile, VolumeId};

verus! {

/// The list of live locations with their files, all or those of one volume, by
/// path.
pub open spec fn location_list(c: Catalog, volume: Option<VolumeId>, limit: nat) -> Query<
    (int, int),
    LocationRow,
> {
    Query {
        takes: |k: (int, int)|
            c.belongs(k.0, k.1) && c.locations[k.1].deleted_at is None && (volume is Some
                ==> c.locations[k.1].volume == (volume->0).0.text()),
        shows: |k: (int, int), row: LocationRow| shows(c.files[k.0], c.locations[k.1], row),
        le: |a: (int, int), b: (int, int)|
            text_le(c.locations[a.1].path, c.locations[b.1].path),
        limit: Some(limit),
    }
}

/// What was written is listed: after an upsert of a file and of its location, a list
/// that is not cut off, of all volumes or of that volume, has a row for that path,
/// with the hash and the size of the file.
pub proof fn law_written_location_is_listed(
    c: Catalog,
    file: HashedFile,
    quick_hash: Option<BlakeHash>,
    volume: VolumeId,
    device: DeviceId,
    stamp: Stamp,
    found: FileFound,
    plan: FilePlan,
    stamp2: Stamp,
    found2: FileFound,
    plan2: FilePlan,
    of_volume: Option<VolumeId>,
    limit: nat,
    places: Seq<(int, int)>,
    rows: Seq<LocationRow>,
)
    requires
        c.wf(),
        c.fresh(stamp.fresh.text()),
        file.discovered.size.0 <= i64::MAX,
        c.finds_file(file.hash.hex(), found.file),
        (FileWriteCmd::UpsertFile { file, device, quick_hash }).planned(stamp, found, plan),
        after(c, plan.statements@).finds_location(
            volume.0.text(),
            file.discovered.relative_path@,
            found2.location,
        ),
        (FileWriteCmd::UpsertLocation {
            hash: file.hash,
            volume,
            path: file.discovered.relative_path,
            device,
        }).planned(stamp2, found2, plan2),
        of_volume is None || of_volume == Some(volume),
        location_list(
            after(after(c, plan.statements@), plan2.statements@),
            of_volume,
            limit,
        ).gives(places, rows),
        rows.len() < limit,
    ensures
        exists|n: int|
            #![trigger rows[n]]
            0 <= n < rows.len() && rows[n].volume@ == volume.0.text() && rows[n].path@
                == file.discovered.relative_path@ && text_opt(rows[n].hash) == Some(file.hash.hex())
                && rows[n].size == file.discovered.size.0,
{
    let c1 = after(c, plan.statements@);
    let d = after(c1, plan2.statements@);
    let vol = volume.0.text();
    let path = file.discovered.relative_path;
    let cmd1 = FileWriteCmd::UpsertFile { file, device, quick_hash };
    law_commands_keep_order(c, cmd1, stamp, found, plan);
    lemma_written_location_row(c1, file.hash, volume, path, device, stamp2, found2, plan2, 0);
    let j = choose|j: int| 0 <= j < d.locations.len() && (#[trigger] d.locations[j]).live_at(
        vol,
        path@,
    );
    lemma_written_location_row(c1, file.hash, volume, path, device, stamp2, found2, plan2, j);
    lemma_upserted_file_row(c, file, device, quick_hash, stamp, found, plan, 0);
    let i = choose|i: int|
        0 <= i < c1.files.len() && (#[trigger] c1.files[i]).hash == Some(file.hash.hex());
    lemma_upserted_file_row(c, file, device, quick_hash, stamp, found, plan, i);
    assert(d.files[i].hash == Some(file.hash.hex()));
    assert(d.has_hash(file.hash.hex()));
    assert(d.belongs(i, j));
    let q = location_list(d, of_volume, limit);
    assert((q.takes)((i, j)));
    law_taken_place_is_listed(q, places, rows, (i, j));
}

/// A file whose full hash is still to be computed is listed at each of its live
/// locations, without a hash.
pub proof fn law_pending_file_is_listed(
    c: Catalog,
    i: int,
    j: int,
    of_volume: Option<VolumeId>,
    limit: nat,
    places: Seq<(int, int)>,
    rows: Seq<LocationRow>,
)
    requires
        0 <= i < c.files.len(),
        0 <= j < c.locations.len(),
        c.files[i].hash is None,
        c.locations[j].hash is None,
        c.locations[j].file_uuid == Some(c.files[i].file_uuid),
        c.locations[j].deleted_at is None,
        of_volume is Some ==> c.locations[j].volume == (of_volume->0).0.text(),
        location_list(c, of_volume, limit).gives(places, rows),
        rows.len() < limit,
    ensures
        exists|n: int|
            #![trigger rows[n]]
            0 <= n < rows.len() && rows[n].file_uuid@ == c.files[i].file_uuid && rows[n].hash is None
                && rows[n].volume@ == c.locations[j].volume && rows[n].path@ == c.locations[j].path,
{
    let q = location_list(c, of_volume, limit);
    assert(c.belongs(i, j));
    assert((q.takes)((i, j)));
    law_taken_place_is_listed(q, places, rows, (i, j));
}

/// Picks the live files with a quick hash.
pub open spec fn bears(q: Seq<char>) -> spec_fn(FileEntry) -> bool {
    |f: FileEntry| f.deleted_at is None && f.quick_hash == Some(q)
}

/// Whether several live files share a quick hash, and not all of them are known to
/// be distinct.
pub open spec fn colliding(c: Catalog, q: Seq<char>) -> bool {
    &&& hits(c.files, bears(q)) > 1
    &&& exists|i: int|
        0 <= i < c.files.len() && bears(q)(#[trigger] c.files[i]) && !c.files[i].verified_distinct
}

/// The list of the live locations of the live files with a quick hash, by path.
pub open spec fn group_list(c: Catalog, q: Seq<char>) -> Query<(int, int), LocationRow> {
    Query {
        takes: |k: (int, int)|
            c.belongs(k.0, k.1) && bears(q)(c.files[k.0]) && c.locations[k.1].deleted_at is None,
        shows: |k: (int, int), row: LocationRow| shows(c.files[k.0], c.locations[k.1], row),
        le: |a: (int, int), b: (int, int)|
            text_le(c.locations[a.1].path, c.locations[b.1].path),
        limit: None,
    }
}

/// Whether a group is that of a quick hash.
pub open spec fn group_of(c: Catalog, q: Seq<char>, g: GroupRows) -> bool {
    g.quick_hash@ == q && exists|places: Seq<(int, int)>|
        #[trigger] group_list(c, q).gives(places, g.rows@)
}

/// The list of the groups of files that share a quick hash, by quick hash.
pub open spec fn collision_list(c: Catalog) -> Query<Seq<char>, GroupRows> {
    Query {
        takes: |q: Seq<char>| colliding(c, q),
        shows: |q: Seq<char>, g: GroupRows| group_of(c, q, g),
        le: |a: Seq<char>, b: Seq<char>| text_le(a, b),
        limit: None,
    }
}

/// The places of the groups that have locations.
spec fn occupied_places(groups: Seq<GroupRows>) -> Seq<int>
    decreases groups.len(),
{
    if groups.len() == 0 {
        Seq::empty()
    } else {
        let earlier = occupied_places(groups.drop_last());
        if groups.last().rows@.len() > 0 {
            earlier.push(groups.len() - 1)
        } else {
            earlier
        }
    }
}

proof fn lemma_occupied_places(groups: Seq<GroupRows>)
    ensures
        occupied_places(groups).len() == occupied(groups).len(),
        forall|i: int|
            0 <= i < occupied(groups).len() ==> 0 <= #[trigger] occupied_places(groups)[i]
                < groups.len() && occupied(groups)[i] == groups[occupied_places(groups)[i]]
                && occupied(groups)[i].rows@.len() > 0,
        forall|i: int, j: int|
            0 <= i < j < occupied(groups).len() ==> #[trigger] occupied_places(groups)[i]
                < #[trigger] occupied_places(groups)[j],
        forall|n: int|
            0 <= n < groups.len() && groups[n].rows@.len() > 0 ==> occupied(groups).contains(
                #[trigger] groups[n],
            ),
    decreases groups.len(),
{
    reveal(Seq::filter);
    if groups.len() > 0 {
        let fewer = groups.drop_last();
        lemma_occupied_places(fewer);
        let n = groups.len() - 1;
        if groups.last().rows@.len() > 0 {
            assert(occupied(groups) =~= occupied(fewer).push(groups.last()));
        } else {
            assert(occupied(groups) =~= occupied(fewer));
        }
        assert forall|m: int| 0 <= m < groups.len() && groups[m].rows@.len() > 0 implies occupied(
            groups,
        ).contains(#[trigger] groups[m]) by {
            if m < n {
                assert(fewer[m] == groups[m]);
                let i = choose|i: int|
                    0 <= i < occupied(fewer).len() && occupied(fewer)[i] == fewer[m];
                assert(occupied(groups)[i] == groups[m]);
            } else {
                assert(occupied(groups)[occupied(fewer).len() as int] == groups[m]);
            }
        }
    }
}

/// The groups come by ascending quick hash, none twice. Each is unverified, is not
/// empty, and has the live locations of all the live files with its quick hash, by
/// path; a file without a quick hash is in none.
pub proof fn law_collision_groups_are_in_order(
    c: Catalog,
    hashes: Seq<Seq<char>>,
    groups: Seq<GroupRows>,
    out: Seq<CollisionGroup>,
)
    requires
        collision_list(c).gives(hashes, groups),
        out.len() == occupied(groups).len(),
        forall|i: int| 0 <= i < out.len() ==> (#[trigger] occupied(groups)[i]).read_as(out[i]),
    ensures
        forall|i: int, j: int|
            0 <= i < j < out.len() ==> text_le(
                (#[trigger] out[i]).quick_hash.hex(),
                (#[trigger] out[j]).quick_hash.hex(),
            ) && out[i].quick_hash.hex() != out[j].quick_hash.hex(),
        forall|i: int|
            0 <= i < out.len() ==> (#[trigger] out[i]).verified_state == VerifiedState::Unverified
                && out[i].files@.len() > 0 && colliding(c, out[i].quick_hash.hex()) && group_of(
                c,
                out[i].quick_hash.hex(),
                occupied(groups)[i],
            ) && locations_read(occupied(groups)[i].rows@, out[i].files@),
{
    lemma_occupied_places(groups);
    let at = occupied_places(groups);
    let q = collision_list(c);
    assert forall|i: int| 0 <= i < out.len() implies hashes[at[i]]
        == (#[trigger] out[i]).quick_hash.hex() && colliding(c, hashes[at[i]]) && group_of(
        c,
        hashes[at[i]],
        occupied(groups)[i],
    ) by {
        assert(occupied(groups)[i].read_as(out[i]));
        assert((q.takes)(hashes[at[i]]) && (q.shows)(hashes[at[i]], groups[at[i]]));
    }
    assert forall|i: int, j: int| 0 <= i < j < out.len() implies text_le(
        (#[trigger] out[i]).quick_hash.hex(),
        (#[trigger] out[j]).quick_hash.hex(),
    ) && out[i].quick_hash.hex() != out[j].quick_hash.hex() by {
        assert(at[i] < at[j]);
        assert((q.le)(hashes[at[i]], hashes[at[j]]));
    }
    assert forall|i: int| 0 <= i < out.len() implies (#[trigger] out[i]).files@.len() > 0
        && out[i].verified_state == VerifiedState::Unverified && locations_read(
        occupied(groups)[i].rows@,
        out[i].files@,
    ) by {
        assert(occupied(groups)[i].read_as(out[i]));
        assert(at[i] < groups.len());
    }
}

proof fn lemma_two_hits<T>(rows: Seq<T>, hit: spec_fn(T) -> bool, i: int, j: int)
    requires
        0 <= i < j < rows.len(),
        hit(rows[i]),
        hit(rows[j]),
    ensures
        hits(rows, hit) > 1,
    decreases rows.len(),
{
    let fewer = rows.drop_last();
    assert(fewer[i] == rows[i]);
    if j < rows.len() - 1 {
        assert(fewer[j] == rows[j]);
        lemma_two_hits(fewer, hit, i, j);
    } else {
        lemma_no_hits(fewer, hit);
    }
}

/// Two live files with one quick hash, one of them not known to be distinct, make a
/// group; each live location of either is in it, whether or not its file is known
/// to be distinct.
pub proof fn law_collision_is_listed(
    c: Catalog,
    hashes: Seq<Seq<char>>,
    groups: Seq<GroupRows>,
    q: Seq<char>,
    i: int,
    j: int,
    k: int,
)
    requires
        collision_list(c).gives(hashes, groups),
        0 <= i < c.files.len(),
        0 <= j < c.files.len(),
        i != j,
        bears(q)(c.files[i]),
        bears(q)(c.files[j]),
        !c.files[i].verified_distinct,
        c.belongs(i, k) || c.belongs(j, k),
        c.locations[k].deleted_at is None,
    ensures
        exists|n: int|
            0 <= n < occupied(groups).len() && (#[trigger] occupied(groups)[n]).quick_hash@ == q
                && exists|m: int|
                0 <= m < occupied(groups)[n].rows@.len() && shows(
                    c.files[if c.belongs(i, k) {
                        i
                    } else {
                        j
                    }],
                    c.locations[k],
                    #[trigger] occupied(groups)[n].rows@[m],
                ),
{
    if i < j {
        lemma_two_hits(c.files, bears(q), i, j);
    } else {
        lemma_two_hits(c.files, bears(q), j, i);
    }
    assert(colliding(c, q));
    let all = collision_list(c);
    assert((all.takes)(q));
    law_taken_place_is_listed(all, hashes, groups, q);
    let n = choose|n: int|
        0 <= n < groups.len() && hashes[n] == q && (all.shows)(q, #[trigger] groups[n]);
    assert(group_of(c, q, groups[n]));
    let one = group_list(c, q);
    let places = choose|places: Seq<(int, int)>| #[trigger] one.gives(places, groups[n].rows@);
    let f = if c.belongs(i, k) {
        i
    } else {
        j
    };
    assert((one.takes)((f, k)));
    law_taken_place_is_listed(one, places, groups[n].rows@, (f, k));
    let m = choose|m: int|
        0 <= m < groups[n].rows@.len() && places[m] == (f, k) && (one.shows)(
            (f, k),
            #[trigger] groups[n].rows@[m],
        );
    assert(shows(c.files[f], c.locations[k], groups[n].rows@[m]));
    lemma_occupied_places(groups);
    let o = choose|o: int| 0 <= o < occupied(groups).len() && occupied(groups)[o] == groups[n];
    assert(shows(c.files[f], c.locations[k], occupied(groups)[o].rows@[m]));
}

/// Once all live files of a group are marked as distinct, no group has its quick
/// hash.
pub proof fn law_distinct_group_is_gone(
    c: Catalog,
    q: Seq<char>,
    file_uuids: Seq<FileUuid>,
    device: DeviceId,
    stamp: Stamp,
    hashes: Seq<Seq<char>>,
    groups: Seq<GroupRows>,
)
    requires
        forall|i: int|
            0 <= i < c.files.len() && bears(q)(#[trigger] c.files[i]) ==> exists|k: int|
                0 <= k < file_uuids.len() && (#[trigger] file_uuids[k]).0.text()
                    == c.files[i].file_uuid,
        collision_list(after(c, distinct_statements(file_uuids, device, stamp))).gives(
            hashes,
            groups,
        ),
    ensures
        forall|n: int| 0 <= n < groups.len() ==> (#[trigger] groups[n]).quick_hash@ != q,
{
    let d = after(c, distinct_statements(file_uuids, device, stamp));
    assert forall|i: int| 0 <= i < d.files.len() && bears(q)(#[trigger] d.files[i]) implies
        d.files[i].verified_distinct by {
        if c.files.len() > 0 {
            law_distinct_files_are_marked(c, file_uuids, device, stamp, 0);
        } else {
            lemma_no_files_no_change(c, file_uuids, device, stamp);
        }
        law_distinct_files_are_marked(c, file_uuids, device, stamp, i);
        assert(bears(q)(c.files[i]));
    }
    let all = collision_list(d);
    assert forall|n: int| 0 <= n < groups.len() implies (#[trigger] groups[n]).quick_hash@ != q by {
        assert((all.takes)(hashes[n]) && (all.shows)(hashes[n], groups[n]));
        assert(colliding(d, hashes[n]));
    }
}

proof fn lemma_no_files_no_change(
    c: Catalog,
    file_uuids: Seq<FileUuid>,
    device: DeviceId,
    stamp: Stamp,
)
    requires
        c.files.len() == 0,
    ensures
        after(c, distinct_statements(file_uuids, device, stamp)).files.len() == 0,
    decreases file_uuids.len(),
{
    let statements = distinct_statements(file_uuids, device, stamp);
    if file_uuids.len() > 0 {
        let fewer = file_uuids.drop_last();
        lemma_no_files_no_change(c, fewer, device, stamp);
        assert(statements.drop_last() =~= distinct_statements(fewer, device, stamp));
    }
}

/// Picks the live locations.
pub open spec fn live() -> spec_fn(LocationEntry) -> bool {
    |l: LocationEntry| l.deleted_at is None
}

/// Whether a machine has a live mount of a volume.
pub open spec fn mounted_on(mounts: Seq<MountEntry>, volume: Seq<char>, machine: Seq<char>) -> bool {
    exists|m: int| 0 <= m < mounts.len() && (#[trigger] mounts[m]).live_on(volume, machine)
}

/// Picks the live locations on volumes that a machine has mounted.
pub open spec fn within_reach(mounts: Seq<MountEntry>, machine: Seq<char>) -> spec_fn(
    LocationEntry,
) -> bool {
    |l: LocationEntry| l.deleted_at is None && mounted_on(mounts, l.volume, machine)
}

/// Picks the live locations on volumes that a machine has not mounted.
pub open spec fn out_of_reach(mounts: Seq<MountEntry>, machine: Seq<char>) -> spec_fn(
    LocationEntry,
) -> bool {
    |l: LocationEntry| l.deleted_at is None && !mounted_on(mounts, l.volume, machine)
}

/// The list of the live locations on volumes that a machine has mounted, by volume
/// and path.
pub open spec fn verify_list(c: Catalog, mounts: Seq<MountEntry>, machine: DeviceId) -> Query<
    (int, int),
    VerifyRow,
> {
    Query {
        takes: |k: (int, int)|
            0 <= k.0 < c.locations.len() && 0 <= k.1 < mounts.len() && c.locations[k.0].deleted_at
                is None && mounts[k.1].live_on(c.locations[k.0].volume, machine.0.text()),
        shows: |k: (int, int), row: VerifyRow|
            row.volume@ == c.locations[k.0].volume && row.path@ == c.locations[k.0].path
                && row.status@ == c.locations[k.0].status && row.mount@ == mounts[k.1].path,
        le: |a: (int, int), b: (int, int)|
            pair_le(
                c.locations[a.0].volume,
                c.locations[a.0].path,
                c.locations[b.0].volume,
                c.locations[b.0].path,
            ),
        limit: None,
    }
}

/// Whether a machine has no volume mounted twice.
pub open spec fn one_mount_each(mounts: Seq<MountEntry>, machine: Seq<char>) -> bool {
    forall|i: int, j: int|
        0 <= i < mounts.len() && 0 <= j < mounts.len() && (#[trigger] mounts[i]).live_on(
            mounts[i].volume,
            machine,
        ) && (#[trigger] mounts[j]).live_on(mounts[i].volume, machine) ==> i == j
}

proof fn lemma_count_by_places<T>(rows: Seq<T>, hit: spec_fn(T) -> bool, places: Seq<int>)
    requires
        places.no_duplicates(),
        forall|k: int|
            0 <= k < places.len() ==> 0 <= #[trigger] places[k] < rows.len() && hit(rows[places[k]]),
        forall|i: int|
            0 <= i < rows.len() && hit(#[trigger] rows[i]) ==> places.contains(i),
    ensures
        hits(rows, hit) == places.len(),
    decreases rows.len(),
{
    if rows.len() > 0 {
        let fewer = rows.drop_last();
        let n = rows.len() - 1;
        let rest = if hit(rows[n]) {
            places.remove(places.index_of(n))
        } else {
            places
        };
        if hit(rows[n]) {
            assert(places.contains(n));
        }
        let p = places.index_of(n);
        assert forall|k: int| 0 <= k < rest.len() implies 0 <= #[trigger] rest[k] < fewer.len()
            && hit(fewer[rest[k]]) by {
            if hit(rows[n]) {
                let from = if k < p {
                    k
                } else {
                    k + 1
                };
                assert(rest[k] == places[from]);
                assert(places[p] == n);
                assert(from != p);
            } else {
                assert(rest[k] == places[k]);
            }
        }
        assert forall|i: int| 0 <= i < fewer.len() && hit(#[trigger] fewer[i]) implies rest.contains(
            i,
        ) by {
            assert(fewer[i] == rows[i]);
            let k = choose|k: int| 0 <= k < places.len() && places[k] == i;
            if hit(rows[n]) {
                assert(places[p] == n);
                if k < p {
                    assert(rest[k] == i);
                } else {
                    assert(rest[k - 1] == i);
                }
            }
        }
        lemma_count_by_places(fewer, hit, rest);
    } else if places.len() > 0 {
        assert(0 <= places[0] < rows.len());
    }
}

proof fn lemma_reach_splits(rows: Seq<LocationEntry>, mounts: Seq<MountEntry>, machine: Seq<char>)
    ensures
        hits(rows, live()) == hits(rows, within_reach(mounts, machine)) + hits(
            rows,
            out_of_reach(mounts, machine),
        ),
    decreases rows.len(),
{
    if rows.len() > 0 {
        lemma_reach_splits(rows.drop_last(), mounts, machine);
    }
}

/// A sweep looks at each live location on a volume that this machine has mounted,
/// once, below the mount of that volume here; those that it is told it cannot look
/// at are the live locations on the other volumes.
pub proof fn law_verify_candidates_are_the_reachable(
    c: Catalog,
    mounts: Seq<MountEntry>,
    machine: DeviceId,
    places: Seq<(int, int)>,
    rows: Seq<VerifyRow>,
    total: i64,
    j: int,
)
    requires
        one_mount_each(mounts, machine.0.text()),
        verify_list(c, mounts, machine).gives(places, rows),
        total == hits(c.locations, live()),
        total <= usize::MAX,
    ensures
        0 <= j < c.locations.len() && within_reach(mounts, machine.0.text())(c.locations[j])
            ==> exists|n: int|
            #![trigger rows[n]]
            0 <= n < rows.len() && rows[n].volume@ == c.locations[j].volume && rows[n].path@
                == c.locations[j].path && rows[n].status@ == c.locations[j].status && mounted_at(
                mounts,
                c.locations[j].volume,
                machine.0.text(),
                rows[n].mount@,
            ),
        rows.len() == hits(c.locations, within_reach(mounts, machine.0.text())),
        left_out(total, rows.len()) == hits(
            c.locations,
            out_of_reach(mounts, machine.0.text()),
        ),
{
    let mac = machine.0.text();
    let q = verify_list(c, mounts, machine);
    if 0 <= j < c.locations.len() && within_reach(mounts, mac)(c.locations[j]) {
        let m = choose|m: int| 0 <= m < mounts.len() && (#[trigger] mounts[m]).live_on(
            c.locations[j].volume,
            mac,
        );
        assert((q.takes)((j, m)));
        law_taken_place_is_listed(q, places, rows, (j, m));
    }
    let idx = Seq::new(places.len(), |n: int| places[n].0);
    assert(idx.no_duplicates()) by {
        assert forall|a: int, b: int| 0 <= a < idx.len() && 0 <= b < idx.len() && a != b implies idx[a]
            != idx[b] by {
            assert((q.takes)(places[a]) && (q.takes)(places[b]));
            if idx[a] == idx[b] {
                let v = c.locations[idx[a]].volume;
                assert(mounts[places[a].1].live_on(v, mac));
                assert(mounts[places[b].1].live_on(v, mac));
                assert(places[a].1 == places[b].1);
                assert(places[a] == places[b]);
            }
        }
    }
    let reach = within_reach(mounts, mac);
    assert forall|k: int| 0 <= k < idx.len() implies 0 <= #[trigger] idx[k] < c.locations.len()
        && reach(c.locations[idx[k]]) by {
        assert((q.takes)(places[k]));
        assert(mounts[places[k].1].live_on(c.locations[idx[k]].volume, mac));
    }
    assert forall|i: int| 0 <= i < c.locations.len() && reach(#[trigger] c.locations[i]) implies
        idx.contains(i) by {
        let w = choose|w: int| 0 <= w < mounts.len() && (#[trigger] mounts[w]).live_on(
            c.locations[i].volume,
            mac,
        );
        assert((q.takes)((i, w)));
        let n = choose|n: int| 0 <= n < places.len() && places[n] == (i, w);
        assert(idx[n] == i);
    }
    lemma_count_by_places(c.locations, reach, idx);
    lemma_reach_splits(c.locations, mounts, mac);
}

/// Whether an active location lies on a volume that is mounted there.
pub open spec fn usable(c: Catalog, mounts: Seq<MountEntry>, k: (int, int)) -> bool {
    &&& 0 <= k.0 < c.locations.len()
    &&& 0 <= k.1 < mounts.len()
    &&& c.locations[k.0].deleted_at is None
    &&& c.locations[k.0].status == "active"@
    &&& mounts[k.1].deleted_at is None
    &&& mounts[k.1].volume == c.locations[k.0].volume
}

/// Whether mount and path are those of one location: of the first, by `le`, that
/// `takes` has; neither or only one is there where it has none.
pub open spec fn of_one_location(
    c: Catalog,
    mounts: Seq<MountEntry>,
    takes: spec_fn((int, int)) -> bool,
    le: spec_fn((int, int), (int, int)) -> bool,
    mount: Option<String>,
    path: Option<String>,
) -> bool {
    match mounted(mount, path) {
        Some(p) => exists|k: (int, int)| #[trigger]
            takes(k) && p.mount@ == mounts[k.1].path && p.relative@ == c.locations[k.0].path
                && forall|other: (int, int)| #[trigger] takes(other) ==> le(k, other),
        None => forall|k: (int, int)| !#[trigger] takes(k),
    }
}

/// Picks the usable locations of a content hash.
pub open spec fn holding(c: Catalog, mounts: Seq<MountEntry>, hash: Option<Seq<char>>) -> spec_fn(
    (int, int),
) -> bool {
    |k: (int, int)| usable(c, mounts, k) && hash is Some && c.locations[k.0].hash == hash
}

/// Picks the usable locations of a file.
pub open spec fn naming(c: Catalog, mounts: Seq<MountEntry>, file_uuid: Seq<char>) -> spec_fn(
    (int, int),
) -> bool {
    |k: (int, int)| usable(c, mounts, k) && c.locations[k.0].file_uuid == Some(file_uuid)
}

/// The order by mount and path.
pub open spec fn by_mount(c: Catalog, mounts: Seq<MountEntry>) -> spec_fn(
    (int, int),
    (int, int),
) -> bool {
    |a: (int, int), b: (int, int)|
        pair_le(
            mounts[a.1].path,
            c.locations[a.0].path,
            mounts[b.1].path,
            c.locations[b.0].path,
        )
}

/// The order by recency: what was written last comes first.
pub open spec fn by_recency(c: Catalog, mounts: Seq<MountEntry>) -> spec_fn(
    (int, int),
    (int, int),
) -> bool {
    |a: (int, int), b: (int, int)|
        if c.locations[a.0].updated_at == c.locations[b.0].updated_at {
            by_mount(c, mounts)(a, b)
        } else {
            text_le(c.locations[b.0].updated_at, c.locations[a.0].updated_at)
        }
}

/// The list of the live files without a quick hash, by hash, each with the most
/// recent usable location of its content.
pub open spec fn backfill_list(c: Catalog, mounts: Seq<MountEntry>, limit: nat) -> Query<
    int,
    BackfillRow,
> {
    Query {
        takes: |i: int|
            0 <= i < c.files.len() && c.files[i].quick_hash is None && c.files[i].deleted_at
                is None,
        shows: |i: int, row: BackfillRow|
            c.files[i].hash == Some(row.hash@) && row.size == c.files[i].size && of_one_location(
                c,
                mounts,
                holding(c, mounts, c.files[i].hash),
                by_recency(c, mounts),
                row.mount,
                row.path,
            ),
        le: |a: int, b: int| text_le(c.files[a].hash->0, c.files[b].hash->0),
        limit: Some(limit),
    }
}

/// Whether this is what a lookup of a file by its identifier gives: hash and size
/// of the live file, with the usable location at the smallest mount.
pub open spec fn found_by_uuid(
    c: Catalog,
    mounts: Seq<MountEntry>,
    file_uuid: FileUuid,
    row: Option<FileByUuidRow>,
) -> bool {
    match row {
        None => forall|i: int|
            0 <= i < c.files.len() && (#[trigger] c.files[i]).file_uuid == file_uuid.0.text()
                ==> c.files[i].deleted_at is Some,
        Some(f) => exists|i: int|
            0 <= i < c.files.len() && (#[trigger] c.files[i]).file_uuid == file_uuid.0.text()
                && c.files[i].deleted_at is None && text_opt(f.hash) == c.files[i].hash && f.size
                == c.files[i].size && of_one_location(
                c,
                mounts,
                naming(c, mounts, file_uuid.0.text()),
                by_mount(c, mounts),
                f.mount,
                f.path,
            ),
    }
}

/// The list of the live files without a full hash that have a usable location, by
/// identifier.
pub open spec fn pending_list(c: Catalog, mounts: Seq<MountEntry>, limit: nat) -> Query<int, String> {
    Query {
        takes: |i: int|
            0 <= i < c.files.len() && c.files[i].hash is None && c.files[i].deleted_at is None
                && exists|k: (int, int)| #[trigger]
                naming(c, mounts, c.files[i].file_uuid)(k),
        shows: |i: int, row: String| row@ == c.files[i].file_uuid,
        le: |a: int, b: int| text_le(c.files[a].file_uuid, c.files[b].file_uuid),
        limit: Some(limit),
    }
}

/// The path that a list of files without a quick hash gives is the path of one
/// location: one with the hash of the file, live and active, below a live mount of
/// its volume. There is no path only where there is no such location.
pub proof fn law_backfill_path_is_of_one_location(
    c: Catalog,
    mounts: Seq<MountEntry>,
    limit: nat,
    places: Seq<int>,
    rows: Seq<BackfillRow>,
    n: int,
    record: BackfillFileRow,
)
    requires
        backfill_list(c, mounts, limit).gives(places, rows),
        0 <= n < rows.len(),
        rows[n].read_as(record),
    ensures
        c.files[places[n]].hash == Some(record.hash.hex()),
        match record.active_path {
            Some(p) => exists|k: (int, int)| #[trigger]
                usable(c, mounts, k) && c.locations[k.0].hash == Some(record.hash.hex())
                    && p.mount@ == mounts[k.1].path && p.relative@ == c.locations[k.0].path,
            None => forall|k: (int, int)| #[trigger]
                usable(c, mounts, k) ==> c.locations[k.0].hash != Some(record.hash.hex()),
        },
{
    let q = backfill_list(c, mounts, limit);
    let i = places[n];
    assert((q.takes)(places[n]) && (q.shows)(places[n], rows[n]));
    let takes = holding(c, mounts, c.files[i].hash);
    match record.active_path {
        Some(p) => {
            let k = choose|k: (int, int)| #[trigger]
                takes(k) && p.mount@ == mounts[k.1].path && p.relative@ == c.locations[k.0].path;
            assert(takes(k));
            assert(usable(c, mounts, k));
        },
        None => {
            assert forall|k: (int, int)| #[trigger] usable(c, mounts, k) implies c.locations[k.0].hash
                != Some(record.hash.hex()) by {
                assert(!takes(k));
            }
        },
    }
}

/// The path that is found for a file is the path of one of its locations: one that
/// names the file, live and active, below a live mount of its volume. Nothing is
/// found of a live file only where there is no such location.
pub proof fn law_found_path_is_of_one_location(
    c: Catalog,
    mounts: Seq<MountEntry>,
    file_uuid: FileUuid,
    row: FileByUuidRow,
)
    requires
        found_by_uuid(c, mounts, file_uuid, Some(row)),
    ensures
        match mounted(row.mount, row.path) {
            Some(p) => exists|k: (int, int)| #[trigger]
                usable(c, mounts, k) && c.locations[k.0].file_uuid == Some(file_uuid.0.text())
                    && p.mount@ == mounts[k.1].path && p.relative@ == c.locations[k.0].path,
            None => forall|k: (int, int)| #[trigger]
                usable(c, mounts, k) ==> c.locations[k.0].file_uuid != Some(file_uuid.0.text()),
        },
{
    let takes = naming(c, mounts, file_uuid.0.text());
    match mounted(row.mount, row.path) {
        Some(p) => {
            let k = choose|k: (int, int)| #[trigger]
                takes(k) && p.mount@ == mounts[k.1].path && p.relative@ == c.locations[k.0].path;
            assert(takes(k));
            assert(usable(c, mounts, k));
        },
        None => {
            assert forall|k: (int, int)| #[trigger] usable(c, mounts, k) implies
                c.locations[k.0].file_uuid != Some(file_uuid.0.text()) by {
                assert(!takes(k));
            }
        },
    }
}

/// A live file without a full hash that has a usable location is listed as pending,
/// unless the list is cut off; one that has its full hash is not listed.
pub proof fn law_pending_file_awaits_its_hash(
    c: Catalog,
    mounts: Seq<MountEntry>,
    limit: nat,
    places: Seq<int>,
    rows: Seq<String>,
    i: int,
    k: (int, int),
)
    requires
        pending_list(c, mounts, limit).gives(places, rows),
        rows.len() < limit,
        0 <= i < c.files.len(),
        c.files[i].deleted_at is None,
        usable(c, mounts, k),
        c.locations[k.0].file_uuid == Some(c.files[i].file_uuid),
    ensures
        c.files[i].hash is None ==> exists|n: int|
            0 <= n < rows.len() && (#[trigger] rows[n])@ == c.files[i].file_uuid,
        c.files[i].hash is Some ==> !places.contains(i),
{
    let q = pending_list(c, mounts, limit);
    if c.files[i].hash is None {
        assert(naming(c, mounts, c.files[i].file_uuid)(k));
        assert((q.takes)(i));
        law_taken_place_is_listed(q, places, rows, i);
    } else if places.contains(i) {
        let n = choose|n: int| 0 <= n < places.len() && places[n] == i;
        assert((q.takes)(places[n]));
    }
}

/// Picks the live locations that are missing.
pub open spec fn missing() -> spec_fn(LocationEntry) -> bool {
    |l: LocationEntry| l.status == "missing"@ && l.deleted_at is None
}

proof fn lemma_same_hits<T>(rows: Seq<T>, a: spec_fn(T) -> bool, b: spec_fn(T) -> bool)
    requires
        forall|r: T| #[trigger] a(r) == b(r),
    ensures
        hits(rows, a) == hits(rows, b),
    decreases rows.len(),
{
    if rows.len() > 0 {
        lemma_same_hits(rows.drop_last(), a, b);
        assert(a(rows.last()) == b(rows.last()));
    }
}

/// What is counted as missing is what retiring the missing locations changes; after
/// that nothing is counted.
pub proof fn law_missing_count_is_what_prune_retires(
    c: Catalog,
    device: DeviceId,
    stamp: Stamp,
    found: FileFound,
    plan: FilePlan,
)
    requires
        (FileWriteCmd::SoftDeleteMissingLocations { device }).planned(stamp, found, plan),
    ensures
        plan.statements@.len() == 1,
        plan.statements@[0].rows(c) == hits(c.locations, missing()),
        hits(after(c, plan.statements@).locations, missing()) == 0,
{
    let s = plan.statements@[0];
    lemma_no_hits(c.files, s.hits_file());
    assert forall|l: LocationEntry| #[trigger] s.hits_location()(l) == missing()(l) by {}
    lemma_same_hits(c.locations, s.hits_location(), missing());
    let d = after(c, plan.statements@);
    assert forall|i: int| 0 <= i < d.locations.len() implies !missing()(#[trigger] d.locations[i]) by {
        if c.locations.len() > 0 {
            law_prune_retires_the_missing_only(c, device, stamp, found, plan, 0);
            law_prune_retires_the_missing_only(c, device, stamp, found, plan, i);
        } else {
            assert(plan.statements@ =~= seq![s]);
            assert(seq![s].drop_last() =~= Seq::empty());
            assert(after(c, Seq::empty()) == c);
        }
    }
    lemma_no_hits(d.locations, missing());
}

} // verus!
