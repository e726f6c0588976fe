//! Commands that write volumes and their mounts.
use vstd::pervasive::unreached;
use vstd::prelude::*;
use vstd::string::*;

use crate::db::convert::{capacity_to_i64, parse_volume_id, stored_uuid, uuid_fault};
use crate::db::lookups::Lookup;
use crate::db::shape::{assign, put, Form, Shape, Test, Verb};
use crate::db::sql::{
    bound_text_opt, text_opt_value, text_value, uuid_value, Bound, SqlCall, SqlValue, Stamp,
};
use crate::db::writer::job::{Command, Decision};
use crate::errors::CoreError;
use crate::events::AppEvent;
use crate::ids::Uuid;
use crate::text::{cat, copy_text_opt, dec_nat, text_opt};
use crate::types::{DeviceId, PathText, VolumeId, VolumeIdentifiers};

verus! {

/// A command that writes volumes or their mounts.
#[derive(Clone, Debug)]
pub enum VolumeWriteCmd {
    /// Find the volume with these identifiers, or make it.
    FindOrCreate { identifiers: VolumeIdentifiers, device: DeviceId },
    /// Record where a volume is mounted on a machine.
    RecordMount { volume: VolumeId, device: DeviceId, mount: PathText },
}

/// A statement that changes `volumes`.
#[derive(Clone, Debug)]
pub enum VolumeStatement {
    Touch { now: String, device: DeviceId, hlc: i64, volume: String },
    Insert {
        id: Uuid,
        identifiers: VolumeIdentifiers,
        capacity: i64,
        now: String,
        device: DeviceId,
        hlc: i64,
    },
}

/// A statement that changes `volume_mounts`.
#[derive(Clone, Debug)]
pub enum MountStatement {
    RetireOthers { now: String, machine: DeviceId, volume: VolumeId, mount: String },
    Insert { id: Uuid, volume: VolumeId, machine: DeviceId, mount: String, now: String },
}

/// A flag as a number.
pub open spec fn flag(b: bool) -> int {
    if b {
        1
    } else {
        0
    }
}

impl VolumeStatement {
    /// The parts of the statement.
    pub open spec fn form(self) -> Form {
        match self {
            VolumeStatement::Touch { .. } => Form {
                verb: Verb::Update,
                table: "volumes"@,
                columns: seq![
                    put("last_seen", 1),
                    put("updated_at", 1),
                    put("device_id", 2),
                    put("hlc", 3),
                ],
                tests: seq![
                    Test::Equals("volume_id", 4),
                ],
            },
            VolumeStatement::Insert { .. } => Form {
                verb: Verb::Insert,
                table: "volumes"@,
                columns: seq![
                    put("volume_id", 1),
                    put("gpt_partition_guid", 2),
                    put("fs_uuid", 3),
                    put("volume_label", 4),
                    put("capacity_bytes", 5),
                    put("is_removable", 6),
                    put("last_seen", 7),
                    put("updated_at", 7),
                    put("device_id", 8),
                    put("hlc", 9),
                ],
                tests: seq![],
            },
        }
    }

    /// The parts of the statement.
    pub fn shape(&self) -> (r: Shape)
        ensures
            r@ == self.form(),
    {
        let r = match self {
            VolumeStatement::Touch { .. } => Shape {
                verb: Verb::Update,
                table: "volumes",
                columns: vec![
                    assign("last_seen", 1),
                    assign("updated_at", 1),
                    assign("device_id", 2),
                    assign("hlc", 3),
                ],
                tests: vec![
                    Test::Equals("volume_id", 4),
                ],
            },
            VolumeStatement::Insert { .. } => Shape {
                verb: Verb::Insert,
                table: "volumes",
                columns: vec![
                    assign("volume_id", 1),
                    assign("gpt_partition_guid", 2),
                    assign("fs_uuid", 3),
                    assign("volume_label", 4),
                    assign("capacity_bytes", 5),
                    assign("is_removable", 6),
                    assign("last_seen", 7),
                    assign("updated_at", 7),
                    assign("device_id", 8),
                    assign("hlc", 9),
                ],
                tests: Vec::new(),
            },
        };
        assert(r.columns@ =~= self.form().columns);
        assert(r.tests@ =~= self.form().tests);
        r
    }
}

impl VolumeStatement {
    /// The text of the statement.
    pub open spec fn sql(self) -> Seq<char> {
        self.form().text()
    }

    /// The values bound to the statement.
    pub open spec fn bound(self) -> Seq<Bound> {
        match self {
            VolumeStatement::Touch { now, device, hlc, volume } => seq![
                Bound::Text(now@),
                Bound::Text(device.0.text()),
                Bound::Int(hlc as int),
                Bound::Text(volume@),
            ],
            VolumeStatement::Insert { id, identifiers, capacity, now, device, hlc } => seq![
                Bound::Text(id.text()),
                bound_text_opt(text_opt(identifiers.gpt_partition_guid)),
                bound_text_opt(text_opt(identifiers.fs_uuid)),
                bound_text_opt(text_opt(identifiers.label)),
                Bound::Int(capacity as int),
                Bound::Int(flag(identifiers.is_removable)),
                Bound::Text(now@),
                Bound::Text(device.0.text()),
                Bound::Int(hlc as int),
            ],
        }
    }

    /// The statement as the database takes it.
    pub fn call(&self) -> (r: SqlCall)
        ensures
            r.is(self.sql(), self.bound()),
    {
        match self {
            VolumeStatement::Touch { now, device, hlc, volume } => {
                let params: Vec<SqlValue> = vec![
                    text_value(now.as_str()),
                    uuid_value(device.0),
                    SqlValue::Int(*hlc),
                    text_value(volume.as_str()),
                ];
                self.shape().call(params)
            },
            VolumeStatement::Insert { id, identifiers, capacity, now, device, hlc } => {
                let removable: i64 = if identifiers.is_removable {
                    1
                } else {
                    0
                };
                let params: Vec<SqlValue> = vec![
                    uuid_value(*id),
                    text_opt_value(&identifiers.gpt_partition_guid),
                    text_opt_value(&identifiers.fs_uuid),
                    text_opt_value(&identifiers.label),
                    SqlValue::Int(*capacity),
                    SqlValue::Int(removable),
                    text_value(now.as_str()),
                    uuid_value(device.0),
                    SqlValue::Int(*hlc),
                ];
                self.shape().call(params)
            },
        }
    }
}

impl MountStatement {
    /// The parts of the statement.
    pub open spec fn form(self) -> Form {
        match self {
            MountStatement::RetireOthers { .. } => Form {
                verb: Verb::Update,
                table: "volume_mounts"@,
                columns: seq![
                    put("deleted_at", 1),
                    put("updated_at", 1),
                    put("device_id", 2),
                ],
                tests: seq![
                    Test::Equals("volume_id", 3),
                    Test::Equals("machine_id", 4),
                    Test::Differs("mount_path", 5),
                    Test::Absent("deleted_at"),
                ],
            },
            MountStatement::Insert { .. } => Form {
                verb: Verb::Insert,
                table: "volume_mounts"@,
                columns: seq![
                    put("id", 1),
                    put("volume_id", 2),
                    put("machine_id", 3),
                    put("mount_path", 4),
                    put("first_seen", 5),
                    put("updated_at", 5),
                    put("device_id", 6),
                ],
                tests: seq![],
            },
        }
    }

    /// The parts of the statement.
    pub fn shape(&self) -> (r: Shape)
        ensures
            r@ == self.form(),
    {
        let r = match self {
            MountStatement::RetireOthers { .. } => Shape {
                verb: Verb::Update,
                table: "volume_mounts",
                columns: vec![
                    assign("deleted_at", 1),
                    assign("updated_at", 1),
                    assign("device_id", 2),
                ],
                tests: vec![
                    Test::Equals("volume_id", 3),
                    Test::Equals("machine_id", 4),
                    Test::Differs("mount_path", 5),
                    Test::Absent("deleted_at"),
                ],
            },
            MountStatement::Insert { .. } => Shape {
                verb: Verb::Insert,
                table: "volume_mounts",
                columns: vec![
                    assign("id", 1),
                    assign("volume_id", 2),
                    assign("machine_id", 3),
                    assign("mount_path", 4),
                    assign("first_seen", 5),
                    assign("updated_at", 5),
                    assign("device_id", 6),
                ],
                tests: Vec::new(),
            },
        };
        assert(r.columns@ =~= self.form().columns);
        assert(r.tests@ =~= self.form().tests);
        r
    }
}

impl MountStatement {
    /// The text of the statement.
    pub open spec fn sql(self) -> Seq<char> {
        self.form().text()
    }

    /// The values bound to the statement.
    pub open spec fn bound(self) -> Seq<Bound> {
        match self {
            MountStatement::RetireOthers { now, machine, volume, mount } => seq![
                Bound::Text(now@),
                Bound::Text(machine.0.text()),
                Bound::Text(volume.0.text()),
                Bound::Text(machine.0.text()),
                Bound::Text(mount@),
            ],
            MountStatement::Insert { id, volume, machine, mount, now } => seq![
                Bound::Text(id.text()),
                Bound::Text(volume.0.text()),
                Bound::Text(machine.0.text()),
                Bound::Text(mount@),
                Bound::Text(now@),
                Bound::Text(machine.0.text()),
            ],
        }
    }

    /// The statement as the database takes it.
    pub fn call(&self) -> (r: SqlCall)
        ensures
            r.is(self.sql(), self.bound()),
    {
        match self {
            MountStatement::RetireOthers { now, machine, volume, mount } => {
                let params: Vec<SqlValue> = vec![
                    text_value(now.as_str()),
                    uuid_value(machine.0),
                    uuid_value(volume.0),
                    uuid_value(machine.0),
                    text_value(mount.as_str()),
                ];
                self.shape().call(params)
            },
            MountStatement::Insert { id, volume, machine, mount, now } => {
                let params: Vec<SqlValue> = vec![
                    uuid_value(*id),
                    uuid_value(volume.0),
                    uuid_value(machine.0),
                    text_value(mount.as_str()),
                    text_value(now.as_str()),
                    uuid_value(machine.0),
                ];
                self.shape().call(params)
            },
        }
    }
}

/// What a volume is recognized by, the most telling first.
#[derive(Clone, Copy, Debug, PartialEq, Eq, Structural)]
pub enum VolumeArm {
    Guid,
    FsUuid,
    LabelAndCapacity,
}

/// What has to be done next to find or make a volume.
#[derive(Debug)]
pub enum VolumeStep {
    /// Look for a live volume, and go on with what was found.
    Lookup { arm: VolumeArm, call: SqlCall },
    /// Run the statement; the volume is this one.
    Write { statement: VolumeStatement, volume: VolumeId },
    /// Give up.
    Fail(CoreError),
}

/// Whether giving up with `e` is due to a capacity that cannot be stored.
pub open spec fn capacity_refused(capacity: u64, e: CoreError) -> bool {
    capacity > i64::MAX && e.is_internal(
        "capacity"@ + " "@ + dec_nat(capacity as nat) + " overflows i64"@,
    )
}

/// Whether a step makes a new volume, or gives up because its capacity cannot be
/// stored.
pub open spec fn creates(
    ident: VolumeIdentifiers,
    device: DeviceId,
    stamp: Stamp,
    step: VolumeStep,
) -> bool {
    if ident.capacity_bytes <= i64::MAX {
        step == (VolumeStep::Write {
            statement: VolumeStatement::Insert {
                id: stamp.fresh,
                identifiers: ident,
                capacity: ident.capacity_bytes as i64,
                now: stamp.now,
                device,
                hlc: stamp.hlc,
            },
            volume: VolumeId(stamp.fresh),
        })
    } else {
        step matches VolumeStep::Fail(e) && capacity_refused(ident.capacity_bytes, e)
    }
}

/// Whether a step goes on from the label: a volume with a label is looked for by
/// it and the capacity, one without is made.
pub open spec fn from_label(
    ident: VolumeIdentifiers,
    device: DeviceId,
    stamp: Stamp,
    step: VolumeStep,
) -> bool {
    match ident.label {
        Some(label) => if ident.capacity_bytes <= i64::MAX {
            step matches VolumeStep::Lookup { arm, call } && arm == VolumeArm::LabelAndCapacity
                && call.is(
                Lookup::VolumeByLabel.sql(),
                seq![Bound::Text(label@), Bound::Int(ident.capacity_bytes as int)],
            )
        } else {
            step matches VolumeStep::Fail(e) && capacity_refused(ident.capacity_bytes, e)
        },
        None => creates(ident, device, stamp, step),
    }
}

/// Whether a step goes on from the file-system UUID.
pub open spec fn from_fs_uuid(
    ident: VolumeIdentifiers,
    device: DeviceId,
    stamp: Stamp,
    step: VolumeStep,
) -> bool {
    match ident.fs_uuid {
        Some(fs_uuid) => step matches VolumeStep::Lookup { arm, call } && arm == VolumeArm::FsUuid
            && call.is(Lookup::VolumeByFsUuid.sql(), seq![Bound::Text(fs_uuid@)]),
        None => from_label(ident, device, stamp, step),
    }
}

/// Whether a step goes on from the partition GUID.
pub open spec fn from_guid(
    ident: VolumeIdentifiers,
    device: DeviceId,
    stamp: Stamp,
    step: VolumeStep,
) -> bool {
    match ident.gpt_partition_guid {
        Some(guid) => step matches VolumeStep::Lookup { arm, call } && arm == VolumeArm::Guid
            && call.is(Lookup::VolumeByGuid.sql(), seq![Bound::Text(guid@)]),
        None => from_fs_uuid(ident, device, stamp, step),
    }
}

/// Whether a step records the sighting of a volume that was found.
pub open spec fn touches(
    device: DeviceId,
    stamp: Stamp,
    found: String,
    step: VolumeStep,
) -> bool {
    match uuid_fault(found@, "bad volume uuid: "@) {
        None => step == (VolumeStep::Write {
            statement: VolumeStatement::Touch {
                now: stamp.now,
                device,
                hlc: stamp.hlc,
                volume: found,
            },
            volume: VolumeId(stored_uuid(found@)),
        }),
        Some(f) => step matches VolumeStep::Fail(e) && f.reported_by(e),
    }
}

/// Whether a step follows a lookup: what was found is the volume, and where
/// nothing was found the next identifier decides.
pub open spec fn follows(
    ident: VolumeIdentifiers,
    device: DeviceId,
    stamp: Stamp,
    arm: VolumeArm,
    found: Option<String>,
    step: VolumeStep,
) -> bool {
    match found {
        Some(id) => touches(device, stamp, id, step),
        None => match arm {
            VolumeArm::Guid => from_fs_uuid(ident, device, stamp, step),
            VolumeArm::FsUuid => from_label(ident, device, stamp, step),
            VolumeArm::LabelAndCapacity => creates(ident, device, stamp, step),
        },
    }
}

fn copy_identifiers(i: &VolumeIdentifiers) -> (r: VolumeIdentifiers)
    ensures
        r == *i,
{
    VolumeIdentifiers {
        gpt_partition_guid: copy_text_opt(&i.gpt_partition_guid),
        fs_uuid: copy_text_opt(&i.fs_uuid),
        label: copy_text_opt(&i.label),
        capacity_bytes: i.capacity_bytes,
        is_removable: i.is_removable,
    }
}

fn create_volume(ident: &VolumeIdentifiers, device: DeviceId, stamp: &Stamp) -> (r: VolumeStep)
    ensures
        creates(*ident, device, *stamp, r),
{
    match capacity_to_i64(ident.capacity_bytes) {
        Ok(capacity) => VolumeStep::Write {
            statement: VolumeStatement::Insert {
                id: stamp.fresh,
                identifiers: copy_identifiers(ident),
                capacity,
                now: stamp.now.clone(),
                device,
                hlc: stamp.hlc,
            },
            volume: VolumeId(stamp.fresh),
        },
        Err(e) => VolumeStep::Fail(e),
    }
}

fn look_by_label(ident: &VolumeIdentifiers, device: DeviceId, stamp: &Stamp) -> (r: VolumeStep)
    ensures
        from_label(*ident, device, *stamp, r),
{
    match &ident.label {
        Some(label) => match capacity_to_i64(ident.capacity_bytes) {
            Ok(capacity) => {
                let params: Vec<SqlValue> = vec![
                    text_value(label.as_str()),
                    SqlValue::Int(capacity),
                ];
                VolumeStep::Lookup {
                    arm: VolumeArm::LabelAndCapacity,
                    call: Lookup::VolumeByLabel.shape().call(params),
                }
            },
            Err(e) => VolumeStep::Fail(e),
        },
        None => create_volume(ident, device, stamp),
    }
}

fn look_by_fs_uuid(ident: &VolumeIdentifiers, device: DeviceId, stamp: &Stamp) -> (r: VolumeStep)
    ensures
        from_fs_uuid(*ident, device, *stamp, r),
{
    match &ident.fs_uuid {
        Some(fs_uuid) => {
            let params: Vec<SqlValue> = vec![text_value(fs_uuid.as_str())];
            VolumeStep::Lookup {
                arm: VolumeArm::FsUuid,
                call: Lookup::VolumeByFsUuid.shape().call(params),
            }
        },
        None => look_by_label(ident, device, stamp),
    }
}

/// Begins to find or make a volume. A volume is recognized by its partition GUID,
/// else by its file-system UUID, else by its label and capacity, else it is new.
pub fn find_or_create_impl(ident: &VolumeIdentifiers, device: DeviceId, stamp: &Stamp) -> (r:
    VolumeStep)
    ensures
        from_guid(*ident, device, *stamp, r),
{
    match &ident.gpt_partition_guid {
        Some(guid) => {
            let params: Vec<SqlValue> = vec![text_value(guid.as_str())];
            VolumeStep::Lookup { arm: VolumeArm::Guid, call: Lookup::VolumeByGuid.shape().call(params) }
        },
        None => look_by_fs_uuid(ident, device, stamp),
    }
}

/// Records the sighting of a volume that was found.
pub fn touch_and_commit(found: &String, device: DeviceId, stamp: &Stamp) -> (r: VolumeStep)
    ensures
        touches(device, *stamp, *found, r),
{
    match parse_volume_id(found.as_str()) {
        Ok(volume) => VolumeStep::Write {
            statement: VolumeStatement::Touch {
                now: stamp.now.clone(),
                device,
                hlc: stamp.hlc,
                volume: found.clone(),
            },
            volume,
        },
        Err(e) => VolumeStep::Fail(e),
    }
}

/// Goes on after a lookup.
pub fn after_lookup(
    ident: &VolumeIdentifiers,
    device: DeviceId,
    stamp: &Stamp,
    arm: VolumeArm,
    found: &Option<String>,
) -> (r: VolumeStep)
    ensures
        follows(*ident, device, *stamp, arm, *found, r),
{
    match found {
        Some(id) => touch_and_commit(id, device, stamp),
        None => match arm {
            VolumeArm::Guid => look_by_fs_uuid(ident, device, stamp),
            VolumeArm::FsUuid => look_by_label(ident, device, stamp),
            VolumeArm::LabelAndCapacity => create_volume(ident, device, stamp),
        },
    }
}

/// The text of a mount path; a path that is not valid UTF-8 is an error.
pub fn mount_text(mount: &PathText) -> (r: Result<String, CoreError>)
    ensures
        match *mount {
            PathText::Utf8(s) => r == Ok::<String, CoreError>(s),
            PathText::NotUtf8 { shown, .. } => r matches Err(CoreError::InvalidPath(m)) && m@
                == "mount path is not valid UTF-8: "@ + shown@,
        },
{
    match mount {
        PathText::Utf8(s) => Ok(s.clone()),
        PathText::NotUtf8 { shown, .. } => Err(
            CoreError::InvalidPath(cat("mount path is not valid UTF-8: ", shown.as_str())),
        ),
    }
}

/// The lookup of the live mount of a volume at a path of a machine.
pub fn mount_lookup(volume: VolumeId, machine: DeviceId, mount: &str) -> (r: SqlCall)
    ensures
        r.is(
            Lookup::Mount.sql(),
            seq![
                Bound::Text(volume.0.text()),
                Bound::Text(machine.0.text()),
                Bound::Text(mount@),
            ],
        ),
{
    let params: Vec<SqlValue> = vec![
        uuid_value(volume.0),
        uuid_value(machine.0),
        text_value(mount),
    ];
    Lookup::Mount.shape().call(params)
}

/// The statements that record a mount: the other live mounts of the volume on the
/// machine are retired, and the mount is inserted where it is not live yet.
pub open spec fn mount_statements(
    volume: VolumeId,
    machine: DeviceId,
    mount: String,
    stamp: Stamp,
    known: bool,
) -> Seq<MountStatement> {
    let retire = MountStatement::RetireOthers { now: stamp.now, machine, volume, mount };
    if known {
        seq![retire]
    } else {
        seq![
            retire,
            MountStatement::Insert { id: stamp.fresh, volume, machine, mount, now: stamp.now },
        ]
    }
}

/// Plans the recording of a mount, from the identifier of the live mount at the
/// same path.
pub fn record_mount_impl(
    volume: VolumeId,
    machine: DeviceId,
    mount: &String,
    stamp: &Stamp,
    existing: &Option<String>,
) -> (r: Vec<MountStatement>)
    ensures
        r@ == mount_statements(volume, machine, *mount, *stamp, existing is Some),
{
    let mut statements: Vec<MountStatement> = vec![
        MountStatement::RetireOthers {
            now: stamp.now.clone(),
            machine,
            volume,
            mount: mount.clone(),
        },
    ];
    if existing.is_none() {
        statements.push(
            MountStatement::Insert {
                id: stamp.fresh,
                volume,
                machine,
                mount: mount.clone(),
                now: stamp.now.clone(),
            },
        );
    }
    statements
}

/// What a volume command looks up.
#[derive(Clone, Copy, Debug, PartialEq, Eq, Structural)]
pub enum VolumeLook {
    /// A volume, by one of its identifiers.
    Volume(VolumeArm),
    /// The live mount of a volume at a path of a machine.
    Mount,
}

/// What a volume command writes.
#[derive(Clone, Debug)]
pub enum VolumePlan {
    /// One statement; the volume is this one.
    Volume { statement: VolumeStatement, volume: VolumeId },
    /// The statements that record a mount.
    Mounts { statements: Vec<MountStatement> },
}

/// The reply to a volume command.
#[derive(Debug)]
pub enum VolumeReply {
    Volume(Result<VolumeId, CoreError>),
    Mount(Result<(), CoreError>),
}

impl VolumeStep {
    /// Whether a step is taken so.
    pub open spec fn taken(self, d: Decision<VolumeLook, VolumePlan>) -> bool {
        d == match self {
            VolumeStep::Lookup { arm, call } => Decision::Look {
                arm: VolumeLook::Volume(arm),
                call,
            },
            VolumeStep::Write { statement, volume } => Decision::Write(
                VolumePlan::Volume { statement, volume },
            ),
            VolumeStep::Fail(e) => Decision::Refuse(e),
        }
    }

    fn take(self) -> (d: Decision<VolumeLook, VolumePlan>)
        ensures
            self.taken(d),
    {
        match self {
            VolumeStep::Lookup { arm, call } => Decision::Look {
                arm: VolumeLook::Volume(arm),
                call,
            },
            VolumeStep::Write { statement, volume } => Decision::Write(
                VolumePlan::Volume { statement, volume },
            ),
            VolumeStep::Fail(e) => Decision::Refuse(e),
        }
    }
}

impl Command for VolumeWriteCmd {
    type Arm = VolumeLook;

    type Found = Option<String>;

    type Plan = VolumePlan;

    type Reply = VolumeReply;

    open spec fn opens(self) -> bool {
        match self {
            VolumeWriteCmd::FindOrCreate { .. } => true,
            VolumeWriteCmd::RecordMount { mount, .. } => mount is Utf8,
        }
    }

    open spec fn settles(self, reply: VolumeReply) -> bool {
        self matches VolumeWriteCmd::RecordMount { mount: PathText::NotUtf8 { shown, .. }, .. } && (
        reply matches VolumeReply::Mount(Err(CoreError::InvalidPath(m))) && m@
            == "mount path is not valid UTF-8: "@ + shown@)
    }

    open spec fn asks(self, arm: VolumeLook) -> bool {
        self is FindOrCreate <==> arm is Volume
    }

    open spec fn begins(self, stamp: Stamp, d: Decision<VolumeLook, VolumePlan>) -> bool {
        match self {
            VolumeWriteCmd::FindOrCreate { identifiers, device } => exists|step: VolumeStep|
                #[trigger]
                from_guid(identifiers, device, stamp, step) && step.taken(d),
            VolumeWriteCmd::RecordMount { volume, device, mount } => {
                &&& mount matches PathText::Utf8(path) && (d matches Decision::Look { arm, call }
                    && arm is Mount && call.is(
                    Lookup::Mount.sql(),
                    seq![
                        Bound::Text(volume.0.text()),
                        Bound::Text(device.0.text()),
                        Bound::Text(path@),
                    ],
                ))
            },
        }
    }

    open spec fn goes_on(
        self,
        stamp: Stamp,
        arm: VolumeLook,
        found: Option<String>,
        d: Decision<VolumeLook, VolumePlan>,
    ) -> bool {
        match self {
            VolumeWriteCmd::FindOrCreate { identifiers, device } => {
                &&& arm matches VolumeLook::Volume(a) && exists|step: VolumeStep| #[trigger]
                    follows(identifiers, device, stamp, a, found, step) && step.taken(d)
            },
            VolumeWriteCmd::RecordMount { volume, device, mount } => {
                &&& mount matches PathText::Utf8(path) && (d matches Decision::Write(
                    VolumePlan::Mounts { statements },
                ) && statements@ == mount_statements(volume, device, path, stamp, found is Some))
            },
        }
    }

    open spec fn script(self, stamp: Stamp, plan: VolumePlan) -> Seq<(Seq<char>, Seq<Bound>)> {
        match plan {
            VolumePlan::Volume { statement, .. } => seq![(statement.sql(), statement.bound())],
            VolumePlan::Mounts { statements } => statements@.map_values(
                |s: MountStatement| (s.sql(), s.bound()),
            ),
        }
    }

    open spec fn answers(self, plan: VolumePlan, counts: Seq<u64>, reply: VolumeReply) -> bool {
        match plan {
            VolumePlan::Volume { volume, .. } => reply == VolumeReply::Volume(Ok(volume)),
            VolumePlan::Mounts { .. } => reply == VolumeReply::Mount(Ok(())),
        }
    }

    open spec fn refuses(self, error: CoreError, reply: VolumeReply) -> bool {
        reply == match self {
            VolumeWriteCmd::FindOrCreate { .. } => VolumeReply::Volume(Err(error)),
            VolumeWriteCmd::RecordMount { .. } => VolumeReply::Mount(Err(error)),
        }
    }

    open spec fn is_success(reply: VolumeReply) -> bool {
        match reply {
            VolumeReply::Volume(r) => r is Ok,
            VolumeReply::Mount(r) => r is Ok,
        }
    }

    open spec fn told_before(self, reply: VolumeReply) -> Seq<AppEvent> {
        seq![]
    }

    open spec fn told_after(self, reply: VolumeReply) -> Seq<AppEvent> {
        seq![]
    }

    proof fn lemma_answers_succeed(self, plan: VolumePlan, counts: Seq<u64>, reply: VolumeReply) {
    }

    proof fn lemma_refuses_fail(self, error: CoreError, reply: VolumeReply) {
    }

    fn settle(&self) -> (r: Option<VolumeReply>) {
        match self {
            VolumeWriteCmd::FindOrCreate { .. } => None,
            VolumeWriteCmd::RecordMount { mount, .. } => match mount_text(mount) {
                Ok(_) => None,
                Err(e) => Some(VolumeReply::Mount(Err(e))),
            },
        }
    }

    fn begin(&self, stamp: &Stamp) -> (d: Decision<VolumeLook, VolumePlan>) {
        match self {
            VolumeWriteCmd::FindOrCreate { identifiers, device } => {
                let step = find_or_create_impl(identifiers, *device, stamp);
                step.take()
            },
            VolumeWriteCmd::RecordMount { volume, device, mount } => match mount {
                PathText::Utf8(path) => Decision::Look {
                    arm: VolumeLook::Mount,
                    call: mount_lookup(*volume, *device, path.as_str()),
                },
                PathText::NotUtf8 { .. } => unreached(),
            },
        }
    }

    fn go_on(&self, stamp: &Stamp, arm: VolumeLook, found: Option<String>) -> (d: Decision<
        VolumeLook,
        VolumePlan,
    >) {
        match self {
            VolumeWriteCmd::FindOrCreate { identifiers, device } => match arm {
                VolumeLook::Volume(a) => {
                    let step = after_lookup(identifiers, *device, stamp, a, &found);
                    step.take()
                },
                VolumeLook::Mount => unreached(),
            },
            VolumeWriteCmd::RecordMount { volume, device, mount } => match mount {
                PathText::Utf8(path) => Decision::Write(
                    VolumePlan::Mounts {
                        statements: record_mount_impl(*volume, *device, path, stamp, &found),
                    },
                ),
                PathText::NotUtf8 { .. } => unreached(),
            },
        }
    }

    fn statement(&self, stamp: &Stamp, plan: &VolumePlan, done: usize) -> (r: Option<SqlCall>) {
        match plan {
            VolumePlan::Volume { statement, .. } => if done == 0 {
                Some(statement.call())
            } else {
                None
            },
            VolumePlan::Mounts { statements } => if done < statements.len() {
                Some(statements[done].call())
            } else {
                None
            },
        }
    }

    fn answer(&self, plan: VolumePlan, counts: &Vec<u64>) -> (r: VolumeReply) {
        match plan {
            VolumePlan::Volume { volume, .. } => VolumeReply::Volume(Ok(volume)),
            VolumePlan::Mounts { .. } => VolumeReply::Mount(Ok(())),
        }
    }

    fn refuse_with(&self, error: CoreError) -> (r: VolumeReply) {
        match self {
            VolumeWriteCmd::FindOrCreate { .. } => VolumeReply::Volume(Err(error)),
            VolumeWriteCmd::RecordMount { .. } => VolumeReply::Mount(Err(error)),
        }
    }

    fn notices(&self, reply: &VolumeReply) -> (r: (Vec<AppEvent>, Vec<AppEvent>)) {
        (Vec::new(), Vec::new())
    }
}

} // verus!
