//! What becomes of a command: every statement of its plan is run, its reply tells
//! what came of it, and listeners hear of what changed and of nothing else.
use vstd::prelude::*;

use crate::db::sql::{total, Stamp};
use crate::db::transcript_repo::TranscriptId;
use crate::db::writer::cache::{CacheStatement, CacheWriteCmd};
use crate::db::writer::file::{FileAnswer, FilePlan, FileReply, FileWriteCmd};
use crate::db::writer::job::Command;
use crate::db::writer::metadata::{
    MetadataAnswer, MetadataPlan, MetadataReply, MetadataWriteCmd,
};
use crate::db::writer::search::SearchWriteCmd;
use crate::db::writer::tag::{TagAnswer, TagPlan, TagReply, TagWriteCmd};
use crate::db::writer::transcript::TranscriptInsert;
use crate::db::writer::volume::{VolumePlan, VolumeReply, VolumeWriteCmd};
use crate::errors::CoreError;
use crate::events::{AppEvent, InvalidationReason};
use crate::types::UpsertOutcome;

verus! {

/// All that listeners hear of a command.
pub open spec fn heard<C: Command>(cmd: C, reply: C::Reply) -> Seq<AppEvent> {
    cmd.told_before(reply) + cmd.told_after(reply)
}

/// A command on files runs the statements of its plan, all of them and in order, and
/// replies with the outcome of its plan or with the number of rows that changed. A
/// failure is replied as it is.
pub proof fn law_file_command_does_its_plan(
    cmd: FileWriteCmd,
    stamp: Stamp,
    plan: FilePlan,
    counts: Seq<u64>,
    reply: FileReply,
    error: CoreError,
    failed: FileReply,
)
    requires
        cmd.answers(plan, counts, reply),
        cmd.refuses(error, failed),
    ensures
        cmd.script(stamp, plan).len() == plan.statements@.len(),
        forall|k: int|
            0 <= k < plan.statements@.len() ==> #[trigger] cmd.script(stamp, plan)[k] == (
                plan.statements@[k].sql(),
                plan.statements@[k].bound(),
            ),
        match plan.answer {
            FileAnswer::Outcome(outcome) => reply == FileReply::Outcome(Ok(outcome)),
            _ => reply matches FileReply::Rows(Ok(n)) && n == total(counts),
        },
        FileWriteCmd::is_success(reply),
        !FileWriteCmd::is_success(failed),
        failed == FileReply::Outcome(Err(error)) || failed == FileReply::Rows(Err(error)),
{
}

/// Listeners hear once of a command on files that inserted, updated or changed
/// something: that collisions changed where a full hash was stored or files were
/// marked as distinct, and that files changed where it did anything else. Of any other
/// reply they hear nothing.
pub proof fn law_listeners_hear_of_files(cmd: FileWriteCmd, reply: FileReply)
    ensures
        ({
            let changed = match reply {
                FileReply::Outcome(Ok(outcome)) => outcome != UpsertOutcome::Unchanged,
                FileReply::Rows(Ok(n)) => n > 0,
                _ => false,
            };
            let reason = if cmd is PromoteFullHash || cmd is MarkVerifiedDistinct {
                InvalidationReason::CollisionsChanged
            } else {
                InvalidationReason::FilesChanged
            };
            if changed {
                heard(cmd, reply) =~= seq![AppEvent::IndexInvalidated { reason }]
            } else {
                heard(cmd, reply).len() == 0
            }
        }),
{
}

/// A command on metadata runs its statement where it has one, and replies with the
/// outcome of its plan or with the number of rows that changed.
pub proof fn law_metadata_command_does_its_plan(
    cmd: MetadataWriteCmd,
    stamp: Stamp,
    plan: MetadataPlan,
    counts: Seq<u64>,
    reply: MetadataReply,
    error: CoreError,
    failed: MetadataReply,
)
    requires
        cmd.answers(plan, counts, reply),
        cmd.refuses(error, failed),
    ensures
        plan.statement is None ==> cmd.script(stamp, plan).len() == 0,
        plan.statement matches Some(s) ==> cmd.script(stamp, plan) =~= seq![(s.sql(), s.bound())],
        match plan.answer {
            MetadataAnswer::Outcome(outcome) => reply == MetadataReply::Outcome(Ok(outcome)),
            MetadataAnswer::Rows => reply matches MetadataReply::Rows(Ok(n)) && n == total(counts),
        },
        MetadataWriteCmd::is_success(reply),
        !MetadataWriteCmd::is_success(failed),
        failed == MetadataReply::Outcome(Err(error)) || failed == MetadataReply::Rows(Err(error)),
{
}

/// Listeners hear once that metadata changed, where it did.
pub proof fn law_listeners_hear_of_metadata(cmd: MetadataWriteCmd, reply: MetadataReply)
    ensures
        ({
            let changed = match reply {
                MetadataReply::Outcome(Ok(outcome)) => outcome != UpsertOutcome::Unchanged,
                MetadataReply::Rows(Ok(n)) => n > 0,
                _ => false,
            };
            if changed {
                heard(cmd, reply) =~= seq![
                    AppEvent::IndexInvalidated { reason: InvalidationReason::MetadataChanged },
                ]
            } else {
                heard(cmd, reply).len() == 0
            }
        }),
{
}

/// A command on tags runs its statement where it has one, and replies with its tag or
/// with the number of rows that changed; listeners hear nothing of it.
pub proof fn law_tag_command_does_its_plan(
    cmd: TagWriteCmd,
    stamp: Stamp,
    plan: TagPlan,
    counts: Seq<u64>,
    reply: TagReply,
    error: CoreError,
    failed: TagReply,
)
    requires
        cmd.answers(plan, counts, reply),
        cmd.refuses(error, failed),
    ensures
        plan.statement is None ==> cmd.script(stamp, plan).len() == 0,
        plan.statement matches Some(s) ==> cmd.script(stamp, plan) =~= seq![(s.sql(), s.bound())],
        match plan.answer {
            TagAnswer::Tag(tag) => reply == TagReply::Tag(Ok(tag)),
            TagAnswer::Rows => reply matches TagReply::Rows(Ok(n)) && (plan.statement is Some ==> n
                == total(counts)) && (plan.statement is None ==> n == 0),
        },
        TagWriteCmd::is_success(reply),
        !TagWriteCmd::is_success(failed),
        failed == TagReply::Tag(Err(error)) || failed == TagReply::Rows(Err(error)),
        heard(cmd, reply).len() == 0,
        heard(cmd, failed).len() == 0,
{
}

/// A command on the cache runs its one statement; listeners hear nothing of it.
pub proof fn law_cache_command_does_its_plan(
    cmd: CacheWriteCmd,
    stamp: Stamp,
    plan: CacheStatement,
    counts: Seq<u64>,
    reply: Result<(), CoreError>,
    error: CoreError,
    failed: Result<(), CoreError>,
)
    requires
        cmd.answers(plan, counts, reply),
        cmd.refuses(error, failed),
    ensures
        cmd.script(stamp, plan) =~= seq![(plan.sql(), plan.bound())],
        reply is Ok,
        failed == Err::<(), CoreError>(error),
        heard(cmd, reply).len() == 0,
        heard(cmd, failed).len() == 0,
{
}

/// A command on volumes runs the statements of its plan, and replies with the volume
/// that it found or made; listeners hear nothing of it.
pub proof fn law_volume_command_does_its_plan(
    cmd: VolumeWriteCmd,
    stamp: Stamp,
    plan: VolumePlan,
    counts: Seq<u64>,
    reply: VolumeReply,
    error: CoreError,
    failed: VolumeReply,
)
    requires
        cmd.answers(plan, counts, reply),
        cmd.refuses(error, failed),
    ensures
        match plan {
            VolumePlan::Volume { statement, volume } => cmd.script(stamp, plan) =~= seq![
                (statement.sql(), statement.bound()),
            ] && reply == VolumeReply::Volume(Ok(volume)),
            VolumePlan::Mounts { statements } => {
                &&& cmd.script(stamp, plan).len() == statements@.len()
                &&& forall|k: int|
                    0 <= k < statements@.len() ==> #[trigger] cmd.script(stamp, plan)[k] == (
                        statements@[k].sql(),
                        statements@[k].bound(),
                    )
                &&& reply == VolumeReply::Mount(Ok(()))
            },
        },
        VolumeWriteCmd::is_success(reply),
        !VolumeWriteCmd::is_success(failed),
        failed == VolumeReply::Volume(Err(error)) || failed == VolumeReply::Mount(Err(error)),
        heard(cmd, reply).len() == 0,
        heard(cmd, failed).len() == 0,
{
}

/// Listeners hear once that the index was built anew, where it was.
pub proof fn law_listeners_hear_of_the_rebuild(cmd: SearchWriteCmd, reply: Result<(), CoreError>)
    ensures
        if reply is Ok {
            heard(cmd, reply) =~= seq![
                AppEvent::IndexInvalidated { reason: InvalidationReason::SearchIndexRebuilt },
            ]
        } else {
            heard(cmd, reply).len() == 0
        },
{
}

/// A transcript is stored by one statement for itself and one for each of its segments;
/// the reply is its identifier. Listeners then hear which request is done, which
/// transcript of which file it made, in which language and with how many segments, and
/// after that that the index changed. Of a failure they hear nothing.
pub proof fn law_transcript_command_does_its_plan(
    cmd: TranscriptInsert,
    stamp: Stamp,
    counts: Seq<u64>,
    reply: Result<TranscriptId, CoreError>,
    error: CoreError,
    failed: Result<TranscriptId, CoreError>,
)
    requires
        cmd.answers((), counts, reply),
        cmd.refuses(error, failed),
    ensures
        cmd.script(stamp, ()).len() == cmd.segments@.len() + 1,
        forall|k: int|
            0 <= k < cmd.script(stamp, ()).len() ==> #[trigger] cmd.script(stamp, ())[k] == (
                cmd.statements(stamp)[k].sql(),
                cmd.statements(stamp)[k].bound(),
            ),
        reply == Ok::<TranscriptId, CoreError>(cmd.transcript.id),
        failed == Err::<TranscriptId, CoreError>(error),
        heard(cmd, failed).len() == 0,
        ({
            let events = heard(cmd, reply);
            &&& events.len() == 2
            &&& events[0] matches AppEvent::TranscriptionCompleted {
                request_uuid,
                transcript_id,
                file_uuid,
                segment_count,
                language,
            } && request_uuid == cmd.request_uuid && transcript_id == cmd.transcript.id.0
                && file_uuid == cmd.transcript.file_uuid && language == cmd.transcript.language && (
            cmd.segments@.len() <= u32::MAX ==> segment_count == cmd.segments@.len()) && (
            cmd.segments@.len() > u32::MAX ==> segment_count == u32::MAX)
            &&& events[1] == (AppEvent::IndexInvalidated {
                reason: InvalidationReason::SearchIndexRebuilt,
            })
        }),
{
}

} // verus!
