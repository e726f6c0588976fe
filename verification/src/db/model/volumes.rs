//! The tables `volumes` and `volume_mounts`, and the laws of the commands that
//! write them.
use vstd::prelude::*;

use crate::db::convert::{stored_uuid, uuid_fault};
use crate::db::model::files::updated;
use crate::db::sql::Stamp;
use crate::db::writer::volume::{
    capacity_refused, creates, follows, from_fs_uuid, from_guid, from_label, mount_statements, touches,
    MountStatement, VolumeArm, VolumeStatement, VolumeStep,
};
use crate::text::text_opt;
use crate::types::{DeviceId, VolumeId, VolumeIdentifiers};

verus! {

/// A row of `volumes`.
pub struct VolumeEntry {
    pub id: Seq<char>,
    pub guid: Option<Seq<char>>,
    pub fs_uuid: Option<Seq<char>>,
    pub label: Option<Seq<char>>,
    pub capacity: int,
    pub removable: bool,
    pub last_seen: Seq<char>,
    pub updated_at: Seq<char>,
    pub deleted_at: Option<Seq<char>>,
    pub device: Seq<char>,
    pub hlc: int,
}

/// A row of `volume_mounts`.
pub struct MountEntry {
    pub id: Seq<char>,
    pub volume: Seq<char>,
    pub machine: Seq<char>,
    pub path: Seq<char>,
    pub first_seen: Seq<char>,
    pub updated_at: Seq<char>,
    pub deleted_at: Option<Seq<char>>,
    pub device: Seq<char>,
}

impl VolumeStatement {
    /// The table after the statement.
    pub open spec fn on(self, rows: Seq<VolumeEntry>) -> Seq<VolumeEntry> {
        match self {
            VolumeStatement::Touch { now, device, hlc, volume } => updated(
                rows,
                |v: VolumeEntry| v.id == volume@,
                |v: VolumeEntry|
                    VolumeEntry {
                        last_seen: now@,
                        updated_at: now@,
                        device: device.0.text(),
                        hlc: hlc as int,
                        ..v
                    },
            ),
            VolumeStatement::Insert { id, identifiers, capacity, now, device, hlc } => rows.push(
                VolumeEntry {
                    id: id.text(),
                    guid: text_opt(identifiers.gpt_partition_guid),
                    fs_uuid: text_opt(identifiers.fs_uuid),
                    label: text_opt(identifiers.label),
                    capacity: capacity as int,
                    removable: identifiers.is_removable,
                    last_seen: now@,
                    updated_at: now@,
                    deleted_at: None,
                    device: device.0.text(),
                    hlc: hlc as int,
                },
            ),
        }
    }
}

impl MountEntry {
    /// Whether this is a live mount of a volume on a machine.
    pub open spec fn live_on(self, volume: Seq<char>, machine: Seq<char>) -> bool {
        self.deleted_at is None && self.volume == volume && self.machine == machine
    }
}

impl MountStatement {
    /// The table after the statement.
    pub open spec fn on(self, rows: Seq<MountEntry>) -> Seq<MountEntry> {
        match self {
            MountStatement::RetireOthers { now, machine, volume, mount } => updated(
                rows,
                |m: MountEntry|
                    m.live_on(volume.0.text(), machine.0.text()) && m.path != mount@,
                |m: MountEntry|
                    MountEntry {
                        deleted_at: Some(now@),
                        updated_at: now@,
                        device: machine.0.text(),
                        ..m
                    },
            ),
            MountStatement::Insert { id, volume, machine, mount, now } => rows.push(
                MountEntry {
                    id: id.text(),
                    volume: volume.0.text(),
                    machine: machine.0.text(),
                    path: mount@,
                    first_seen: now@,
                    updated_at: now@,
                    deleted_at: None,
                    device: machine.0.text(),
                },
            ),
        }
    }
}

/// The mounts after a list of statements.
pub open spec fn mounts_after(rows: Seq<MountEntry>, statements: Seq<MountStatement>) -> Seq<
    MountEntry,
>
    decreases statements.len(),
{
    if statements.len() == 0 {
        rows
    } else {
        statements.last().on(mounts_after(rows, statements.drop_last()))
    }
}

/// No path of a machine has two live mounts of one volume.
pub open spec fn mounts_wf(rows: Seq<MountEntry>) -> bool {
    forall|i: int, j: int|
        0 <= i < rows.len() && 0 <= j < rows.len() && (#[trigger] rows[i]).live_on(
            (#[trigger] rows[j]).volume,
            rows[j].machine,
        ) && rows[j].deleted_at is None && rows[i].path == rows[j].path ==> i == j
}

/// Whether a volume has a live mount at a path of a machine.
pub open spec fn mounted_at(
    rows: Seq<MountEntry>,
    volume: Seq<char>,
    machine: Seq<char>,
    path: Seq<char>,
) -> bool {
    exists|i: int|
        0 <= i < rows.len() && (#[trigger] rows[i]).live_on(volume, machine) && rows[i].path == path
}

/// Recording a mount leaves the volume with one live mount on that machine, at
/// that path; mounts of other volumes and other machines stay as they are, and no
/// row is removed.
pub proof fn law_one_live_mount_per_machine(
    rows: Seq<MountEntry>,
    volume: VolumeId,
    machine: DeviceId,
    mount: String,
    stamp: Stamp,
)
    requires
        mounts_wf(rows),
    ensures
        ({
            let known = mounted_at(rows, volume.0.text(), machine.0.text(), mount@);
            let next = mounts_after(rows, mount_statements(volume, machine, mount, stamp, known));
            &&& mounts_wf(next)
            &&& next.len() >= rows.len()
            &&& mounted_at(next, volume.0.text(), machine.0.text(), mount@)
            &&& forall|i: int|
                0 <= i < next.len() && (#[trigger] next[i]).live_on(volume.0.text(), machine.0.text())
                    ==> next[i].path == mount@
            &&& forall|i: int, j: int|
                0 <= i < next.len() && 0 <= j < next.len() && (#[trigger] next[i]).live_on(
                    volume.0.text(),
                    machine.0.text(),
                ) && (#[trigger] next[j]).live_on(volume.0.text(), machine.0.text()) ==> i == j
            &&& forall|i: int|
                0 <= i < rows.len() && !(rows[i].volume == volume.0.text() && rows[i].machine
                    == machine.0.text()) ==> #[trigger] next[i] == rows[i]
        }),
{
    let vol = volume.0.text();
    let mac = machine.0.text();
    let known = mounted_at(rows, vol, mac, mount@);
    let statements = mount_statements(volume, machine, mount, stamp, known);
    let retire = MountStatement::RetireOthers { now: stamp.now, machine, volume, mount };
    let mid = retire.on(rows);
    assert(seq![retire].drop_last() =~= Seq::<MountStatement>::empty());
    assert(mounts_after(rows, seq![retire]) == mid) by {
        assert(mounts_after(rows, Seq::<MountStatement>::empty()) == rows);
    }
    let next = mounts_after(rows, statements);
    if known {
        assert(next == mid);
        let k = choose|i: int|
            0 <= i < rows.len() && (#[trigger] rows[i]).live_on(vol, mac) && rows[i].path == mount@;
        assert(mid[k] == rows[k]);
        assert(next[k].live_on(vol, mac));
        assert forall|i: int, j: int|
            0 <= i < next.len() && 0 <= j < next.len() && (#[trigger] next[i]).live_on(vol, mac) && (
            #[trigger] next[j]).live_on(vol, mac) implies i == j by {
            assert(next[i] == rows[i] && next[j] == rows[j]);
            assert(rows[i].live_on(rows[j].volume, rows[j].machine));
        }
    } else {
        assert(statements.drop_last() =~= seq![retire]);
        assert(next == statements.last().on(mid));
        assert(next[rows.len() as int].live_on(vol, mac));
        assert forall|i: int| 0 <= i < rows.len() implies !(#[trigger] next[i]).live_on(
            vol,
            mac,
        ) by {
            assert(next[i] == mid[i]);
            if rows[i].live_on(vol, mac) {
                assert(rows[i].path != mount@);
            }
        }
    }
    assert forall|i: int, j: int|
        0 <= i < next.len() && 0 <= j < next.len() && (#[trigger] next[i]).live_on(
            (#[trigger] next[j]).volume,
            next[j].machine,
        ) && next[j].deleted_at is None && next[i].path == next[j].path implies i == j by {
        if i < rows.len() && j < rows.len() {
            assert(next[i] == mid[i] && next[j] == mid[j]);
            assert(rows[i].live_on(rows[j].volume, rows[j].machine));
        } else {
            assert(next[i].live_on(vol, mac) && next[j].live_on(vol, mac));
        }
    }
}

/// Whether a live volume goes by this identifier.
pub open spec fn goes_by(row: VolumeEntry, ident: VolumeIdentifiers, arm: VolumeArm) -> bool {
    &&& row.deleted_at is None
    &&& match arm {
        VolumeArm::Guid => ident.gpt_partition_guid is Some && row.guid == text_opt(
            ident.gpt_partition_guid,
        ),
        VolumeArm::FsUuid => ident.fs_uuid is Some && row.fs_uuid == text_opt(ident.fs_uuid),
        VolumeArm::LabelAndCapacity => ident.label is Some && row.label == text_opt(ident.label)
            && row.capacity == ident.capacity_bytes,
    }
}

/// Whether some live volume goes by this identifier.
pub open spec fn known_by(rows: Seq<VolumeEntry>, ident: VolumeIdentifiers, arm: VolumeArm) -> bool {
    exists|i: int| 0 <= i < rows.len() && goes_by(#[trigger] rows[i], ident, arm)
}

/// Whether a lookup can give this.
pub open spec fn finds(
    rows: Seq<VolumeEntry>,
    ident: VolumeIdentifiers,
    arm: VolumeArm,
    found: Option<String>,
) -> bool {
    match found {
        None => !known_by(rows, ident, arm),
        Some(id) => exists|i: int|
            0 <= i < rows.len() && goes_by(#[trigger] rows[i], ident, arm) && rows[i].id == id@,
    }
}

/// Whether steps are those of a command that ran to its end on these rows: the
/// first begins it, each lookup is answered from the rows and followed by the next
/// step, and the last is no lookup.
pub open spec fn runs(
    rows: Seq<VolumeEntry>,
    ident: VolumeIdentifiers,
    device: DeviceId,
    stamp: Stamp,
    steps: Seq<VolumeStep>,
    answers: Seq<Option<String>>,
) -> bool {
    &&& steps.len() > 0
    &&& answers.len() == steps.len() - 1
    &&& from_guid(ident, device, stamp, steps[0])
    &&& !(steps.last() is Lookup)
    &&& forall|i: int|
        0 <= i < answers.len() ==> (steps[i] matches VolumeStep::Lookup { arm, call } && finds(
            rows,
            ident,
            arm,
            #[trigger] answers[i],
        ) && follows(ident, device, stamp, arm, answers[i], steps[i + 1]))
}

/// Whether a step settles on a live volume that goes by this identifier, or gives
/// up because the identifier of that volume is no UUID.
pub open spec fn settles(
    rows: Seq<VolumeEntry>,
    ident: VolumeIdentifiers,
    device: DeviceId,
    stamp: Stamp,
    arm: VolumeArm,
    step: VolumeStep,
) -> bool {
    exists|i: int, id: String|
        0 <= i < rows.len() && goes_by(#[trigger] rows[i], ident, arm) && rows[i].id == id@
            && #[trigger] touches(device, stamp, id, step)
}

proof fn lemma_answered(
    rows: Seq<VolumeEntry>,
    ident: VolumeIdentifiers,
    device: DeviceId,
    stamp: Stamp,
    arm: VolumeArm,
    found: Option<String>,
    step: VolumeStep,
)
    requires
        finds(rows, ident, arm, found),
        follows(ident, device, stamp, arm, found, step),
    ensures
        known_by(rows, ident, arm) ==> settles(rows, ident, device, stamp, arm, step)
            && !(step is Lookup),
        !known_by(rows, ident, arm) ==> found is None,
{
    if let Some(id) = found {
        let i = choose|i: int|
            0 <= i < rows.len() && goes_by(#[trigger] rows[i], ident, arm) && rows[i].id == id@;
        assert(goes_by(rows[i], ident, arm));
        assert(touches(device, stamp, id, step));
    }
}

proof fn lemma_end_from(
    rows: Seq<VolumeEntry>,
    ident: VolumeIdentifiers,
    device: DeviceId,
    stamp: Stamp,
    steps: Seq<VolumeStep>,
    answers: Seq<Option<String>>,
    k: int,
)
    requires
        runs(rows, ident, device, stamp, steps, answers),
        0 <= k < steps.len(),
    ensures
        !(steps[k] is Lookup) ==> k == steps.len() - 1,
        steps[k] is Lookup ==> k < answers.len(),
{
    if !(steps[k] is Lookup) && k < steps.len() - 1 {
        assert(finds(rows, ident, steps[k]->arm, answers[k]));
    }
}

/// Which volume a command ends with: one with its partition GUID if any live
/// volume has it, else one with its file-system UUID, else one with its label and
/// capacity, else a new one. A capacity that cannot be stored makes the command
/// fail where it would be looked at.
pub proof fn law_identifiers_decide_in_order(
    rows: Seq<VolumeEntry>,
    ident: VolumeIdentifiers,
    device: DeviceId,
    stamp: Stamp,
    steps: Seq<VolumeStep>,
    answers: Seq<Option<String>>,
)
    requires
        runs(rows, ident, device, stamp, steps, answers),
    ensures
        if known_by(rows, ident, VolumeArm::Guid) {
            settles(rows, ident, device, stamp, VolumeArm::Guid, steps.last())
        } else if known_by(rows, ident, VolumeArm::FsUuid) {
            settles(rows, ident, device, stamp, VolumeArm::FsUuid, steps.last())
        } else if ident.capacity_bytes <= i64::MAX && known_by(
            rows,
            ident,
            VolumeArm::LabelAndCapacity,
        ) {
            settles(rows, ident, device, stamp, VolumeArm::LabelAndCapacity, steps.last())
        } else {
            creates(ident, device, stamp, steps.last())
        },
{
    let n = steps.len() - 1;
    let mut k: int = 0;
    lemma_end_from(rows, ident, device, stamp, steps, answers, 0);
    if ident.gpt_partition_guid is Some {
        assert(finds(rows, ident, VolumeArm::Guid, answers[0]));
        lemma_answered(rows, ident, device, stamp, VolumeArm::Guid, answers[0], steps[1]);
        lemma_end_from(rows, ident, device, stamp, steps, answers, 1);
        k = 1;
    }
    if !known_by(rows, ident, VolumeArm::Guid) {
        assert(from_fs_uuid(ident, device, stamp, steps[k]));
        lemma_end_from(rows, ident, device, stamp, steps, answers, k);
        if ident.fs_uuid is Some {
            assert(finds(rows, ident, VolumeArm::FsUuid, answers[k]));
            lemma_answered(rows, ident, device, stamp, VolumeArm::FsUuid, answers[k], steps[k + 1]);
            lemma_end_from(rows, ident, device, stamp, steps, answers, k + 1);
            k = k + 1;
        }
        if !known_by(rows, ident, VolumeArm::FsUuid) {
            assert(from_label(ident, device, stamp, steps[k]));
            lemma_end_from(rows, ident, device, stamp, steps, answers, k);
            if ident.label is Some && ident.capacity_bytes <= i64::MAX {
                let arm = VolumeArm::LabelAndCapacity;
                assert(finds(rows, ident, arm, answers[k]));
                lemma_answered(rows, ident, device, stamp, arm, answers[k], steps[k + 1]);
                lemma_end_from(rows, ident, device, stamp, steps, answers, k + 1);
            }
        }
    }
}

/// The identifier that decides which volume a command ends with, if a live volume
/// goes by any of them.
pub open spec fn decider(rows: Seq<VolumeEntry>, ident: VolumeIdentifiers) -> Option<VolumeArm> {
    if known_by(rows, ident, VolumeArm::Guid) {
        Some(VolumeArm::Guid)
    } else if known_by(rows, ident, VolumeArm::FsUuid) {
        Some(VolumeArm::FsUuid)
    } else if ident.capacity_bytes <= i64::MAX && known_by(
        rows,
        ident,
        VolumeArm::LabelAndCapacity,
    ) {
        Some(VolumeArm::LabelAndCapacity)
    } else {
        None
    }
}

/// Whether no two live volumes go by this identifier.
pub open spec fn told_apart(rows: Seq<VolumeEntry>, ident: VolumeIdentifiers, arm: VolumeArm) -> bool {
    forall|i: int, j: int|
        0 <= i < rows.len() && 0 <= j < rows.len() && goes_by(#[trigger] rows[i], ident, arm)
            && goes_by(#[trigger] rows[j], ident, arm) ==> i == j
}

/// Whether a row is another one, seen again by a command.
pub open spec fn seen_again(
    row: VolumeEntry,
    earlier: VolumeEntry,
    device: DeviceId,
    stamp: Stamp,
) -> bool {
    row == (VolumeEntry {
        last_seen: stamp.now@,
        updated_at: stamp.now@,
        device: device.0.text(),
        hlc: stamp.hlc as int,
        ..earlier
    })
}

/// A volume that is known keeps what is stored of it, label and capacity too: only
/// when it was last seen, the device and the clock are written anew, and no row is
/// added. Where no other volume goes by the identifier that decides, the same call
/// again gives the same volume.
pub proof fn law_known_volume_is_only_seen_again(
    rows: Seq<VolumeEntry>,
    ident: VolumeIdentifiers,
    device: DeviceId,
    stamp: Stamp,
    steps: Seq<VolumeStep>,
    answers: Seq<Option<String>>,
    statement: VolumeStatement,
    volume: VolumeId,
    device2: DeviceId,
    stamp2: Stamp,
    steps2: Seq<VolumeStep>,
    answers2: Seq<Option<String>>,
)
    requires
        decider(rows, ident) is Some,
        runs(rows, ident, device, stamp, steps, answers),
        steps.last() == (VolumeStep::Write { statement, volume }),
        runs(statement.on(rows), ident, device2, stamp2, steps2, answers2),
    ensures
        ({
            let next = statement.on(rows);
            &&& next.len() == rows.len()
            &&& exists|k: int|
                0 <= k < rows.len() && goes_by(#[trigger] rows[k], ident, decider(rows, ident)->0)
                    && volume == VolumeId(stored_uuid(rows[k].id)) && forall|i: int|
                    0 <= i < rows.len() ==> if rows[i].id == rows[k].id {
                        seen_again(#[trigger] next[i], rows[i], device, stamp)
                    } else {
                        next[i] == rows[i]
                    }
            &&& told_apart(rows, ident, decider(rows, ident)->0) ==> (
            steps2.last() matches VolumeStep::Write { statement: s, volume: v } && s is Touch && v
                == volume)
        }),
{
    let arm = decider(rows, ident)->0;
    let next = statement.on(rows);
    law_identifiers_decide_in_order(rows, ident, device, stamp, steps, answers);
    law_identifiers_decide_in_order(next, ident, device2, stamp2, steps2, answers2);
    let (k, id) = choose|i: int, id: String|
        0 <= i < rows.len() && goes_by(#[trigger] rows[i], ident, arm) && rows[i].id == id@
            && #[trigger] touches(device, stamp, id, steps.last());
    assert(goes_by(rows[k], ident, arm));
    assert(statement is Touch);
    assert forall|i: int, a: VolumeArm| 0 <= i < rows.len() implies goes_by(
        #[trigger] next[i],
        ident,
        a,
    ) == #[trigger] goes_by(rows[i], ident, a) by {}
    assert forall|a: VolumeArm| known_by(next, ident, a) == #[trigger] known_by(rows, ident, a) by {
        if known_by(rows, ident, a) {
            let i = choose|i: int| 0 <= i < rows.len() && goes_by(#[trigger] rows[i], ident, a);
            assert(goes_by(next[i], ident, a) == goes_by(rows[i], ident, a));
        }
        if known_by(next, ident, a) {
            let i = choose|i: int| 0 <= i < next.len() && goes_by(#[trigger] next[i], ident, a);
            assert(goes_by(next[i], ident, a) == goes_by(rows[i], ident, a));
        }
    }
    assert(known_by(next, ident, VolumeArm::Guid) == known_by(rows, ident, VolumeArm::Guid));
    assert(known_by(next, ident, VolumeArm::FsUuid) == known_by(rows, ident, VolumeArm::FsUuid));
    assert(known_by(next, ident, VolumeArm::LabelAndCapacity) == known_by(
        rows,
        ident,
        VolumeArm::LabelAndCapacity,
    ));
    assert(settles(next, ident, device2, stamp2, arm, steps2.last()));
    if told_apart(rows, ident, arm) {
        let (m, id2) = choose|i: int, id: String|
            0 <= i < next.len() && goes_by(#[trigger] next[i], ident, arm) && next[i].id == id@
                && #[trigger] touches(device2, stamp2, id, steps2.last());
        assert(goes_by(next[m], ident, arm) == goes_by(rows[m], ident, arm));
        assert(m == k);
        assert(id2@ == id@);
    }
}

/// A volume that is not known and whose capacity cannot be stored is refused:
/// nothing is written.
pub proof fn law_unstorable_capacity_is_refused(
    rows: Seq<VolumeEntry>,
    ident: VolumeIdentifiers,
    device: DeviceId,
    stamp: Stamp,
    steps: Seq<VolumeStep>,
    answers: Seq<Option<String>>,
)
    requires
        decider(rows, ident) is None,
        ident.capacity_bytes > i64::MAX,
        runs(rows, ident, device, stamp, steps, answers),
    ensures
        steps.last() matches VolumeStep::Fail(e) && capacity_refused(ident.capacity_bytes, e),
        forall|i: int| 0 <= i < steps.len() ==> !(#[trigger] steps[i] is Write),
{
    law_identifiers_decide_in_order(rows, ident, device, stamp, steps, answers);
    assert forall|i: int| 0 <= i < steps.len() implies !(#[trigger] steps[i] is Write) by {
        lemma_end_from(rows, ident, device, stamp, steps, answers, i);
    }
}

/// A volume that was made is found again by the same identifiers, where it has
/// any, and no other is made.
pub proof fn law_created_volume_is_found_again(
    rows: Seq<VolumeEntry>,
    ident: VolumeIdentifiers,
    device: DeviceId,
    stamp: Stamp,
    steps: Seq<VolumeStep>,
    answers: Seq<Option<String>>,
    statement: VolumeStatement,
    volume: VolumeId,
    device2: DeviceId,
    stamp2: Stamp,
    steps2: Seq<VolumeStep>,
    answers2: Seq<Option<String>>,
)
    requires
        runs(rows, ident, device, stamp, steps, answers),
        steps.last() == (VolumeStep::Write { statement, volume }),
        statement is Insert,
        ident.gpt_partition_guid is Some || ident.fs_uuid is Some || ident.label is Some,
        runs(statement.on(rows), ident, device2, stamp2, steps2, answers2),
        volume.0.reads_back(),
    ensures
        steps2.last() matches VolumeStep::Write { statement: s, volume: v } && s is Touch && v
            == volume,
{
    law_identifiers_decide_in_order(rows, ident, device, stamp, steps, answers);
    let next = statement.on(rows);
    law_identifiers_decide_in_order(next, ident, device2, stamp2, steps2, answers2);
    let n = rows.len() as int;
    assert(creates(ident, device, stamp, steps.last()));
    assert forall|i: int, arm: VolumeArm| 0 <= i < next.len() && #[trigger] goes_by(
        next[i],
        ident,
        arm,
    ) && !known_by(rows, ident, arm) implies i == n by {
        if i < n {
            assert(next[i] == rows[i]);
            assert(goes_by(rows[i], ident, arm));
            assert(known_by(rows, ident, arm));
        }
    }
    assert(!known_by(rows, ident, VolumeArm::Guid) && !known_by(rows, ident, VolumeArm::FsUuid)
        && !known_by(rows, ident, VolumeArm::LabelAndCapacity));
    assert(ident.gpt_partition_guid is Some ==> goes_by(next[n], ident, VolumeArm::Guid));
    assert(ident.fs_uuid is Some ==> goes_by(next[n], ident, VolumeArm::FsUuid));
    assert(ident.label is Some ==> goes_by(next[n], ident, VolumeArm::LabelAndCapacity));
    let arm = if ident.gpt_partition_guid is Some {
        VolumeArm::Guid
    } else if ident.fs_uuid is Some {
        VolumeArm::FsUuid
    } else {
        VolumeArm::LabelAndCapacity
    };
    assert(settles(next, ident, device2, stamp2, arm, steps2.last()));
    let (i, id) = choose|i: int, id: String|
        0 <= i < next.len() && goes_by(#[trigger] next[i], ident, arm) && next[i].id == id@
            && #[trigger] touches(device2, stamp2, id, steps2.last());
    assert(i == n);
    assert(id@ == volume.0.text());
    assert(uuid_fault(id@, "bad volume uuid: "@) is None);
    assert(stored_uuid(id@) == volume.0);
}

} // verus!
