//! The tables `tags` and `file_tags`, and the laws of the commands that write
//! them.
use vstd::prelude::*;

use crate::db::model::files::updated;
use crate::db::sql::Stamp;
use crate::db::writer::tag::{
    ExistingTag, TagAnswer, TagFound, TagPlan, TagStatement, TagWriteCmd,
};
use crate::errors::CoreError;
use crate::ids::Uuid;
use crate::tag::Tag;
use crate::types::{BlakeHash, DeviceId};

verus! {

/// A row of `tags`.
pub struct TagEntry {
    pub id: Seq<char>,
    pub name: Seq<char>,
    pub first_seen: Seq<char>,
    pub updated_at: Seq<char>,
    pub deleted_at: Option<Seq<char>>,
    pub device: Seq<char>,
    pub hlc: int,
}

/// A row of `file_tags`.
pub struct LinkEntry {
    pub id: Seq<char>,
    pub hash: Seq<char>,
    pub tag: Seq<char>,
    pub first_seen: Seq<char>,
    pub updated_at: Seq<char>,
    pub deleted_at: Option<Seq<char>>,
    pub device: Seq<char>,
    pub hlc: int,
}

/// The two tables.
pub struct TagTables {
    pub tags: Seq<TagEntry>,
    pub links: Seq<LinkEntry>,
}

impl TagEntry {
    /// Whether this is the live tag of a name.
    pub open spec fn live_as(self, name: Seq<char>) -> bool {
        self.deleted_at is None && self.name == name
    }
}

impl LinkEntry {
    /// Whether this is the live attachment of a tag to a file.
    pub open spec fn live_for(self, hash: Seq<char>, tag: Seq<char>) -> bool {
        self.deleted_at is None && self.hash == hash && self.tag == tag
    }
}

impl TagStatement {
    /// The tables after the statement.
    pub open spec fn on(self, t: TagTables) -> TagTables {
        match self {
            TagStatement::InsertTag { id, name, now, device, hlc } => TagTables {
                tags: t.tags.push(
                    TagEntry {
                        id: id.text(),
                        name: name@,
                        first_seen: now@,
                        updated_at: now@,
                        deleted_at: None,
                        device: device.0.text(),
                        hlc: hlc as int,
                    },
                ),
                ..t
            },
            TagStatement::RetireTag { now, device, hlc, tag_id } => TagTables {
                tags: updated(
                    t.tags,
                    |e: TagEntry| e.id == tag_id.text() && e.deleted_at is None,
                    |e: TagEntry|
                        TagEntry {
                            deleted_at: Some(now@),
                            updated_at: now@,
                            device: device.0.text(),
                            hlc: hlc as int,
                            ..e
                        },
                ),
                ..t
            },
            TagStatement::InsertLink { id, hash, tag_id, now, device, hlc } => TagTables {
                links: t.links.push(
                    LinkEntry {
                        id: id.text(),
                        hash: hash.hex(),
                        tag: tag_id.text(),
                        first_seen: now@,
                        updated_at: now@,
                        deleted_at: None,
                        device: device.0.text(),
                        hlc: hlc as int,
                    },
                ),
                ..t
            },
            TagStatement::RetireLink { now, device, hlc, hash, tag_id } => TagTables {
                links: updated(
                    t.links,
                    |e: LinkEntry| e.live_for(hash.hex(), tag_id.text()),
                    |e: LinkEntry|
                        LinkEntry {
                            deleted_at: Some(now@),
                            updated_at: now@,
                            device: device.0.text(),
                            hlc: hlc as int,
                            ..e
                        },
                ),
                ..t
            },
        }
    }
}

/// The tables after a plan.
pub open spec fn after(t: TagTables, plan: TagPlan) -> TagTables {
    match plan.statement {
        Some(s) => s.on(t),
        None => t,
    }
}

impl TagTables {
    /// No name has two live tags, no tag is attached twice to a file, and no two
    /// tags have the same identifier.
    pub open spec fn wf(self) -> bool {
        &&& forall|i: int, j: int|
            0 <= i < self.tags.len() && 0 <= j < self.tags.len() && (
            #[trigger] self.tags[i]).live_as((#[trigger] self.tags[j]).name)
                && self.tags[j].deleted_at is None ==> i == j
        &&& forall|i: int, j: int|
            0 <= i < self.links.len() && 0 <= j < self.links.len() && (
            #[trigger] self.links[i]).live_for((#[trigger] self.links[j]).hash, self.links[j].tag)
                && self.links[j].deleted_at is None ==> i == j
        &&& forall|i: int, j: int|
            0 <= i < self.tags.len() && 0 <= j < self.tags.len() && (#[trigger] self.tags[i]).id
                == (#[trigger] self.tags[j]).id ==> i == j
    }

    /// Whether some tag has an identifier.
    pub open spec fn has_tag(self, id: Seq<char>) -> bool {
        exists|i: int| 0 <= i < self.tags.len() && (#[trigger] self.tags[i]).id == id
    }

    /// Whether a tag is attached to a file.
    pub open spec fn attached(self, hash: Seq<char>, tag: Seq<char>) -> bool {
        exists|i: int| 0 <= i < self.links.len() && (#[trigger] self.links[i]).live_for(hash, tag)
    }

    /// Whether a lookup of the live tag of a name can give this.
    pub open spec fn finds_tag(self, name: Seq<char>, found: Option<ExistingTag>) -> bool {
        match found {
            None => forall|i: int|
                0 <= i < self.tags.len() ==> !(#[trigger] self.tags[i]).live_as(name),
            Some(row) => exists|i: int|
                0 <= i < self.tags.len() && (#[trigger] self.tags[i]).live_as(name)
                    && self.tags[i].id == row.id@ && self.tags[i].first_seen == row.first_seen@,
        }
    }

    /// Whether the lookup of a command can give this.
    pub open spec fn finds(self, cmd: TagWriteCmd, found: TagFound) -> bool {
        match cmd {
            TagWriteCmd::UpsertTag { name, .. } => self.finds_tag(name@, found.tag),
            TagWriteCmd::Attach { hash, tag_id, .. } => found.link is Some <==> self.attached(
                hash.hex(),
                tag_id.text(),
            ),
            _ => true,
        }
    }
}

/// Every command keeps one live tag per name and one attachment per tag and file.
pub proof fn law_tag_commands_keep_order(
    t: TagTables,
    cmd: TagWriteCmd,
    stamp: Stamp,
    found: TagFound,
    plan: TagPlan,
)
    requires
        t.wf(),
        t.finds(cmd, found),
        !t.has_tag(stamp.fresh.text()),
        cmd.planned(stamp, found, Ok(plan)),
    ensures
        after(t, plan).wf(),
{
    let next = after(t, plan);
    if let Some(TagStatement::InsertLink { hash, tag_id, .. }) = plan.statement {
        assert forall|i: int| 0 <= i < t.links.len() implies !(#[trigger] t.links[i]).live_for(
            hash.hex(),
            tag_id.text(),
        ) by {
            assert(!t.attached(hash.hex(), tag_id.text()));
        }
    }
}

/// Naming a tag twice gives the same tag, first sighting and all, and the second
/// time writes nothing.
pub proof fn law_upsert_tag_is_idempotent(
    t: TagTables,
    name: String,
    device: DeviceId,
    stamp: Stamp,
    found: TagFound,
    plan: TagPlan,
    device2: DeviceId,
    stamp2: Stamp,
    found2: TagFound,
    r2: Result<TagPlan, CoreError>,
)
    requires
        t.wf(),
        t.finds_tag(name@, found.tag),
        (TagWriteCmd::UpsertTag { name, device }).planned(stamp, found, Ok(plan)),
        after(t, plan).finds_tag(name@, found2.tag),
        (TagWriteCmd::UpsertTag { name, device: device2 }).planned(stamp2, found2, r2),
        stamp.fresh.reads_back(),
    ensures
        r2 matches Ok(p2) && p2.statement is None && (plan.answer matches TagAnswer::Tag(a)
            && p2.answer matches TagAnswer::Tag(b) && a.id == b.id && a.name == b.name
            && a.first_seen@ == b.first_seen@),
{
    let next = after(t, plan);
    match found.tag {
        None => {
            let n = t.tags.len() as int;
            assert(next.tags[n].live_as(name@));
            assert forall|i: int| 0 <= i < n implies !(#[trigger] next.tags[i]).live_as(name@) by {
                assert(!t.tags[i].live_as(name@));
            }
        },
        Some(row) => {
            let k = choose|i: int|
                0 <= i < t.tags.len() && (#[trigger] t.tags[i]).live_as(name@) && t.tags[i].id
                    == row.id@ && t.tags[i].first_seen == row.first_seen@;
            assert(next.tags[k].live_as(name@));
            match found2.tag {
                None => {
                    assert(!next.tags[k].live_as(name@));
                },
                Some(row2) => {
                    let m = choose|i: int|
                        0 <= i < next.tags.len() && (#[trigger] next.tags[i]).live_as(name@)
                            && next.tags[i].id == row2.id@ && next.tags[i].first_seen
                            == row2.first_seen@;
                    assert(t.tags[m].live_as(t.tags[k].name));
                },
            }
        },
    }
}

/// Attaching a tag that is attached writes nothing; after an attachment the tag is
/// attached.
pub proof fn law_attach_is_idempotent(
    t: TagTables,
    hash: BlakeHash,
    tag_id: Uuid,
    device: DeviceId,
    stamp: Stamp,
    found: TagFound,
    plan: TagPlan,
    stamp2: Stamp,
    found2: TagFound,
    plan2: TagPlan,
)
    requires
        t.finds(TagWriteCmd::Attach { hash, tag_id, device }, found),
        (TagWriteCmd::Attach { hash, tag_id, device }).planned(stamp, found, Ok(plan)),
        after(t, plan).finds(TagWriteCmd::Attach { hash, tag_id, device }, found2),
        (TagWriteCmd::Attach { hash, tag_id, device }).planned(stamp2, found2, Ok(plan2)),
    ensures
        after(t, plan).attached(hash.hex(), tag_id.text()),
        plan2.statement is None,
        after(after(t, plan), plan2) == after(t, plan),
{
    let next = after(t, plan);
    if found.link is None {
        assert(next.links[t.links.len() as int].live_for(hash.hex(), tag_id.text()));
    } else {
        assert(t.attached(hash.hex(), tag_id.text()));
    }
}

/// After a detachment the tag is not attached to the file; every other attachment
/// is as it was, and no row is removed.
pub proof fn law_detach_is_confined(
    t: TagTables,
    hash: BlakeHash,
    tag_id: Uuid,
    device: DeviceId,
    stamp: Stamp,
    found: TagFound,
    plan: TagPlan,
)
    requires
        (TagWriteCmd::Detach { hash, tag_id, device }).planned(stamp, found, Ok(plan)),
    ensures
        !after(t, plan).attached(hash.hex(), tag_id.text()),
        after(t, plan).tags == t.tags,
        after(t, plan).links.len() == t.links.len(),
        forall|i: int|
            0 <= i < t.links.len() && !t.links[i].live_for(hash.hex(), tag_id.text())
                ==> #[trigger] after(t, plan).links[i] == t.links[i],
{
}

/// Retiring a tag leaves every attachment as it is, and the names of the other
/// tags too.
pub proof fn law_delete_keeps_attachments(
    t: TagTables,
    tag_id: Uuid,
    device: DeviceId,
    stamp: Stamp,
    found: TagFound,
    plan: TagPlan,
)
    requires
        (TagWriteCmd::DeleteTag { tag_id, device }).planned(stamp, found, Ok(plan)),
    ensures
        after(t, plan).links == t.links,
        after(t, plan).tags.len() == t.tags.len(),
        forall|i: int|
            0 <= i < t.tags.len() && t.tags[i].id != tag_id.text() ==> #[trigger] after(
                t,
                plan,
            ).tags[i] == t.tags[i],
        forall|i: int|
            0 <= i < t.tags.len() && t.tags[i].id == tag_id.text() ==> (#[trigger] after(
                t,
                plan,
            ).tags[i]).deleted_at is Some,
{
}

/// Naming a tag again after it was retired makes a new tag, with another
/// identifier.
pub proof fn law_recreated_tag_is_new(
    t: TagTables,
    k: int,
    tag_id: Uuid,
    device: DeviceId,
    stamp: Stamp,
    found: TagFound,
    plan: TagPlan,
    name: String,
    stamp2: Stamp,
    found2: TagFound,
    r2: Result<TagPlan, CoreError>,
)
    requires
        t.wf(),
        0 <= k < t.tags.len(),
        t.tags[k].live_as(name@),
        t.tags[k].id == tag_id.text(),
        (TagWriteCmd::DeleteTag { tag_id, device }).planned(stamp, found, Ok(plan)),
        after(t, plan).finds_tag(name@, found2.tag),
        !after(t, plan).has_tag(stamp2.fresh.text()),
        (TagWriteCmd::UpsertTag { name, device }).planned(stamp2, found2, r2),
    ensures
        r2 matches Ok(p2) && p2.statement is Some && (p2.answer matches TagAnswer::Tag(tag)
            && tag.id == stamp2.fresh && tag.id != tag_id && tag.name == name),
{
    let next = after(t, plan);
    assert forall|i: int| 0 <= i < next.tags.len() implies !(#[trigger] next.tags[i]).live_as(
        name@,
    ) by {
        if next.tags[i].live_as(name@) {
            assert(t.tags[i].live_as(t.tags[k].name));
        }
    }
    assert(next.tags[k].id == tag_id.text());
    assert(next.has_tag(tag_id.text()));
}

} // verus!
