//! Reads of volumes: the query, and what its rows mean.
use vstd::prelude::*;
use vstd::string::*;

use crate::db::convert::{first_fault, parse_volume_id, stored_uuid, uuid_fault, Fault};
use crate::db::lists::List;
use crate::db::sql::{uuid_value, Bound, SqlCall, SqlValue};
use crate::errors::CoreError;
use crate::text::{cat3, copy_text_opt, dec_int, i64_text};
use crate::types::{DeviceId, VolumeId, VolumeRecord};

verus! {

/// A row of the query that lists volumes: one for each mount of a volume, or one
/// without a mount.
#[derive(Clone, Debug)]
pub struct VolumeRow {
    pub volume: String,
    pub label: Option<String>,
    pub capacity: i64,
    pub removable: i64,
    pub last_seen: String,
    pub mount: Option<String>,
}

impl VolumeRow {
    /// The volume of the row.
    pub open spec fn id(self) -> VolumeId {
        VolumeId(stored_uuid(self.volume@))
    }

    /// What is wrong with the row.
    pub open spec fn fault(self) -> Option<Fault> {
        first_fault(
            uuid_fault(self.volume@, "bad volume uuid: "@),
            if self.capacity < 0 {
                Some(
                    Fault::Internal(
                        "stored capacity "@ + dec_int(self.capacity as int) + " is negative"@,
                    ),
                )
            } else {
                None
            },
        )
    }

    /// Whether a record says what the row says of its volume, mounts aside.
    pub open spec fn describes(self, r: VolumeRecord) -> bool {
        &&& r.id == self.id()
        &&& r.label == self.label
        &&& r.capacity_bytes == self.capacity
        &&& r.is_removable == (self.removable != 0)
        &&& r.last_seen == self.last_seen
    }
}

/// The mounts of a volume, in the order of the rows.
pub open spec fn mounts_of(rows: Seq<VolumeRow>, id: VolumeId) -> Seq<String>
    decreases rows.len(),
{
    if rows.len() == 0 {
        Seq::empty()
    } else {
        let earlier = mounts_of(rows.drop_last(), id);
        if rows.last().id() == id && rows.last().mount is Some {
            earlier.push(rows.last().mount->0)
        } else {
            earlier
        }
    }
}

/// Whether the row at `k` is the first of its volume.
pub open spec fn is_first(rows: Seq<VolumeRow>, k: int) -> bool {
    forall|j: int| 0 <= j < k ==> (#[trigger] rows[j]).id() != rows[k].id()
}

/// The places of the rows that are the first of their volume, in order.
pub open spec fn firsts(rows: Seq<VolumeRow>) -> Seq<int>
    decreases rows.len(),
{
    if rows.len() == 0 {
        Seq::empty()
    } else {
        let earlier = firsts(rows.drop_last());
        if is_first(rows, rows.len() - 1) {
            earlier.push(rows.len() - 1)
        } else {
            earlier
        }
    }
}

/// Whether records merge the rows: one record for each volume, in the order in
/// which the volumes come up, with what its first row says and all its mounts.
pub open spec fn merged(rows: Seq<VolumeRow>, out: Seq<VolumeRecord>) -> bool {
    &&& out.len() == firsts(rows).len()
    &&& forall|i: int|
        0 <= i < out.len() ==> 0 <= firsts(rows)[i] < rows.len() && rows[firsts(rows)[i]].describes(
            #[trigger] out[i],
        ) && out[i].mounts_on_this_machine@ == mounts_of(rows, out[i].id)
}

/// Whether the row at `k` is the first with a fault, and an error reports it.
pub open spec fn first_bad_volume(rows: Seq<VolumeRow>, k: int, e: CoreError) -> bool {
    &&& 0 <= k < rows.len()
    &&& forall|j: int| 0 <= j < k ==> (#[trigger] rows[j]).fault() is None
    &&& rows[k].fault() matches Some(f) && f.reported_by(e)
}

/// The query that lists volumes with their mounts on a machine.
pub fn list_query(machine: DeviceId) -> (r: SqlCall)
    ensures
        r.is(List::Volumes.sql(), seq![Bound::Text(machine.0.text())]),
{
    let params: Vec<SqlValue> = vec![uuid_value(machine.0)];
    List::Volumes.query().call(params)
}

/// Whether every row's volume has a record.
spec fn covered(rows: Seq<VolumeRow>, out: Seq<VolumeRecord>) -> bool {
    forall|j: int|
        0 <= j < rows.len() ==> exists|i: int|
            0 <= i < out.len() && (#[trigger] out[i]).id == (#[trigger] rows[j]).id()
}

/// Whether no volume has two records.
pub open spec fn ids_differ(out: Seq<VolumeRecord>) -> bool {
    forall|i: int, j: int|
        0 <= i < out.len() && 0 <= j < out.len() && (#[trigger] out[i]).id == (
        #[trigger] out[j]).id ==> i == j
}

/// The place of the record of a volume.
fn position(records: &Vec<VolumeRecord>, id: VolumeId) -> (r: Option<usize>)
    ensures
        match r {
            Some(k) => k < records@.len() && records@[k as int].id == id,
            None => forall|i: int| 0 <= i < records@.len() ==> (#[trigger] records@[i]).id != id,
        },
{
    let mut k: usize = 0;
    while k < records.len()
        invariant
            k <= records.len(),
            forall|i: int| 0 <= i < k ==> (#[trigger] records@[i]).id != id,
        decreases records.len() - k,
    {
        if records[k].id == id {
            return Some(k);
        }
        k += 1;
    }
    None
}

proof fn lemma_no_mounts(rows: Seq<VolumeRow>, id: VolumeId)
    requires
        forall|j: int| 0 <= j < rows.len() ==> (#[trigger] rows[j]).id() != id,
    ensures
        mounts_of(rows, id) == Seq::<String>::empty(),
    decreases rows.len(),
{
    if rows.len() > 0 {
        let earlier = rows.drop_last();
        assert forall|j: int| 0 <= j < earlier.len() implies (#[trigger] earlier[j]).id() != id by {
            assert(rows[j].id() != id);
        }
        lemma_no_mounts(earlier, id);
        assert(rows[rows.len() - 1].id() != id);
    }
}

/// A further row of a volume that has a record adds its mount to that record.
proof fn lemma_known_volume(
    before: Seq<VolumeRow>,
    row: VolumeRow,
    old: Seq<VolumeRecord>,
    out: Seq<VolumeRecord>,
    k: int,
)
    requires
        merged(before, old),
        covered(before, old),
        ids_differ(old),
        0 <= k < old.len(),
        old[k].id == row.id(),
        out.len() == old.len(),
        forall|m: int| 0 <= m < old.len() && m != k ==> #[trigger] out[m] == old[m],
        out[k].id == old[k].id,
        out[k].label == old[k].label,
        out[k].capacity_bytes == old[k].capacity_bytes,
        out[k].is_removable == old[k].is_removable,
        out[k].last_seen == old[k].last_seen,
        out[k].mounts_on_this_machine@ == match row.mount {
            Some(mount) => old[k].mounts_on_this_machine@.push(mount),
            None => old[k].mounts_on_this_machine@,
        },
    ensures
        merged(before.push(row), out),
        covered(before.push(row), out),
        ids_differ(out),
{
    let now = before.push(row);
    assert(now.drop_last() =~= before);
    let f = firsts(before)[k];
    assert(before[f].describes(old[k]));
    assert(now[f] == before[f]);
    assert(!is_first(now, now.len() - 1));
    assert(firsts(now) == firsts(before));
    assert forall|m: int| 0 <= m < out.len() implies #[trigger] out[m].id == old[m].id by {}
    assert forall|m: int| 0 <= m < out.len() implies 0 <= firsts(now)[m] < now.len() && now[firsts(
        now,
    )[m]].describes(#[trigger] out[m]) && out[m].mounts_on_this_machine@ == mounts_of(
        now,
        out[m].id,
    ) by {
        assert(before[firsts(before)[m]].describes(old[m]));
        assert(now[firsts(now)[m]] == before[firsts(before)[m]]);
        if m != k {
            assert(old[m].id != old[k].id);
        }
    }
    assert forall|j: int| 0 <= j < now.len() implies exists|m: int|
        0 <= m < out.len() && (#[trigger] out[m]).id == (#[trigger] now[j]).id() by {
        if j < before.len() {
            let m = choose|m: int|
                0 <= m < old.len() && (#[trigger] old[m]).id == (#[trigger] before[j]).id();
            assert(out[m].id == old[m].id);
        } else {
            assert(out[k].id == now[j].id());
        }
    }
    assert forall|a: int, b: int|
        0 <= a < out.len() && 0 <= b < out.len() && (#[trigger] out[a]).id == (
        #[trigger] out[b]).id implies a == b by {
        assert(old[a].id == old[b].id);
    }
}

proof fn lemma_unseen_volume(before: Seq<VolumeRow>, old: Seq<VolumeRecord>, id: VolumeId)
    requires
        covered(before, old),
        forall|m: int| 0 <= m < old.len() ==> (#[trigger] old[m]).id != id,
    ensures
        forall|j: int| 0 <= j < before.len() ==> (#[trigger] before[j]).id() != id,
{
    assert forall|j: int| 0 <= j < before.len() implies (#[trigger] before[j]).id() != id by {
        let m = choose|m: int|
            0 <= m < old.len() && (#[trigger] old[m]).id == (#[trigger] before[j]).id();
        assert(old[m].id != id);
    }
}

proof fn lemma_new_volume_is_covered(
    before: Seq<VolumeRow>,
    row: VolumeRow,
    old: Seq<VolumeRecord>,
    record: VolumeRecord,
)
    requires
        covered(before, old),
        record.id == row.id(),
    ensures
        covered(before.push(row), old.push(record)),
{
    let now = before.push(row);
    let out = old.push(record);
    assert forall|j: int| 0 <= j < now.len() implies exists|m: int|
        0 <= m < out.len() && (#[trigger] out[m]).id == (#[trigger] now[j]).id() by {
        if j < before.len() {
            let m = choose|m: int|
                0 <= m < old.len() && (#[trigger] old[m]).id == (#[trigger] before[j]).id();
            assert(out[m] == old[m]);
        } else {
            assert(out[out.len() - 1].id == now[j].id());
        }
    }
}

/// The first row of a volume makes its record.
proof fn lemma_new_volume(
    before: Seq<VolumeRow>,
    row: VolumeRow,
    old: Seq<VolumeRecord>,
    record: VolumeRecord,
)
    requires
        merged(before, old),
        forall|m: int| 0 <= m < old.len() ==> (#[trigger] old[m]).id != row.id(),
        forall|j: int| 0 <= j < before.len() ==> (#[trigger] before[j]).id() != row.id(),
        row.describes(record),
        record.mounts_on_this_machine@ == match row.mount {
            Some(mount) => seq![mount],
            None => Seq::empty(),
        },
    ensures
        merged(before.push(row), old.push(record)),
{
    let now = before.push(row);
    let out = old.push(record);
    assert(now.drop_last() =~= before);
    assert(now.last() == row);
    assert(is_first(now, now.len() - 1)) by {
        assert forall|j: int| 0 <= j < now.len() - 1 implies (#[trigger] now[j]).id()
            != now[now.len() - 1].id() by {
            assert(before[j].id() != row.id());
        }
    }
    assert(firsts(now) == firsts(before).push(now.len() - 1));
    lemma_no_mounts(before, row.id());
    assert(record.mounts_on_this_machine@ =~= mounts_of(now, row.id()));
    assert forall|m: int| 0 <= m < out.len() implies 0 <= firsts(now)[m] < now.len() && now[firsts(
        now,
    )[m]].describes(#[trigger] out[m]) && out[m].mounts_on_this_machine@ == mounts_of(
        now,
        out[m].id,
    ) by {
        if m < old.len() {
            assert(out[m] == old[m]);
            assert(before[firsts(before)[m]].describes(old[m]));
            assert(firsts(now)[m] == firsts(before)[m]);
            assert(now[firsts(now)[m]] == before[firsts(before)[m]]);
            assert(old[m].id != row.id());
        }
    }
}

/// Reads the rows of a list of volumes and merges the rows of each volume; the
/// first row with a fault makes the list fail.
pub fn list(rows: &Vec<VolumeRow>) -> (r: Result<Vec<VolumeRecord>, CoreError>)
    ensures
        match r {
            Ok(out) => {
                &&& forall|i: int| 0 <= i < rows@.len() ==> (#[trigger] rows@[i]).fault() is None
                &&& merged(rows@, out@)
                &&& ids_differ(out@)
            },
            Err(e) => exists|k: int| first_bad_volume(rows@, k, e),
        },
{
    let mut out: Vec<VolumeRecord> = Vec::new();
    let mut i: usize = 0;
    while i < rows.len()
        invariant
            i <= rows.len(),
            forall|j: int| 0 <= j < i ==> (#[trigger] rows@[j]).fault() is None,
            merged(rows@.take(i as int), out@),
            covered(rows@.take(i as int), out@),
            ids_differ(out@),
        decreases rows.len() - i,
    {
        let row = &rows[i];
        let id = match parse_volume_id(row.volume.as_str()) {
            Ok(v) => v,
            Err(e) => {
                assert(first_bad_volume(rows@, i as int, e));
                return Err(e);
            },
        };
        if row.capacity < 0 {
            let digits = i64_text(row.capacity);
            let e = CoreError::Internal(
                cat3("stored capacity ", digits.as_str(), " is negative"),
            );
            assert(first_bad_volume(rows@, i as int, e));
            return Err(e);
        }
        let ghost before = rows@.take(i as int);
        let ghost old_out = out@;
        assert(rows@.take(i + 1) =~= before.push(*row));
        match position(&out, id) {
            Some(k) => {
                if let Some(mount) = &row.mount {
                    let mut record = out.remove(k);
                    record.mounts_on_this_machine.push(mount.clone());
                    out.insert(k, record);
                }
                proof {
                    lemma_known_volume(before, *row, old_out, out@, k as int);
                }
            },
            None => {
                let mounts_on_this_machine: Vec<String> = match &row.mount {
                    Some(mount) => vec![mount.clone()],
                    None => Vec::new(),
                };
                let record = VolumeRecord {
                    id,
                    label: copy_text_opt(&row.label),
                    capacity_bytes: row.capacity as u64,
                    is_removable: row.removable != 0,
                    mounts_on_this_machine,
                    last_seen: row.last_seen.clone(),
                };
                proof {
                    lemma_unseen_volume(before, old_out, id);
                    assert(record.mounts_on_this_machine@ =~= match row.mount {
                        Some(mount) => seq![mount],
                        None => Seq::empty(),
                    });
                    lemma_new_volume(before, *row, old_out, record);
                    lemma_new_volume_is_covered(before, *row, old_out, record);
                }
                out.push(record);
            },
        }
        i += 1;
    }
    proof {
        assert(rows@.take(rows@.len() as int) =~= rows@);
    }
    Ok(out)
}

} // verus!
