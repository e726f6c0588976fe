//! The laws of the command that stores a transcript.
use vstd::prelude::*;

use crate::db::model::jobs::{
    decided, law_commit_follows_the_whole_script, lemma_phase_tells_actions, runs, wrote_all,
};
use crate::db::sql::Stamp;
use crate::db::transcript_repo::TranscriptId;
use crate::db::writer::job::{Action, Command, Job, OnlyLookup, Report};
use crate::db::writer::transcript::{TranscriptInsert, TranscriptStatement};
use crate::errors::CoreError;

verus! {

/// Nothing is looked up to store a transcript.
proof fn lemma_no_lookup(
    cmd: TranscriptInsert,
    stamp: Stamp,
    jobs: Seq<Job<TranscriptInsert>>,
    actions: Seq<Action<OnlyLookup, Result<TranscriptId, CoreError>>>,
    reports: Seq<Report<()>>,
    k: int,
)
    requires
        runs(cmd, stamp, jobs, actions, reports),
        0 <= k < jobs.len(),
    ensures
        !(jobs[k].phase is Looking),
    decreases k,
{
    if k > 0 {
        lemma_no_lookup(cmd, stamp, jobs, actions, reports, k - 1);
        assert(jobs[k - 1].expects(reports[k - 1]));
        assert(jobs[k - 1].follows(reports[k - 1], jobs[k], actions[k]));
    }
}

/// A transcript is stored whole or not at all: before its commit the row of the
/// transcript and then the rows of all its segments were written in order, and
/// nothing else was. A request that was cancelled in time is rolled back, as every
/// command is.
pub proof fn law_transcript_is_stored_whole_or_not(
    cmd: TranscriptInsert,
    stamp: Stamp,
    jobs: Seq<Job<TranscriptInsert>>,
    actions: Seq<Action<OnlyLookup, Result<TranscriptId, CoreError>>>,
    reports: Seq<Report<()>>,
    k: int,
)
    requires
        runs(cmd, stamp, jobs, actions, reports),
        0 <= k < jobs.len(),
        actions[k] is Commit,
    ensures
        k == cmd.statements(stamp).len() + 1,
        forall|i: int|
            0 <= i < cmd.statements(stamp).len() ==> (#[trigger] actions[i + 1] matches Action::Run(
                call,
            ) && call.is(cmd.statements(stamp)[i].sql(), cmd.statements(stamp)[i].bound())),
{
    law_commit_follows_the_whole_script(cmd, stamp, jobs, actions, reports, k);
    let n = cmd.statements(stamp).len() as int;
    let plan = choose|plan: ()| #[trigger]
        wrote_all(cmd, stamp, actions, reports, k, plan);
    assert(cmd.script(stamp, plan).len() == n);
    let at = k - n;
    assert(decided(cmd, stamp, actions, reports, at, plan));
    lemma_no_lookup(cmd, stamp, jobs, actions, reports, at - 1);
    lemma_phase_tells_actions(cmd, stamp, jobs, actions, reports, at - 1);
    assert forall|i: int| 0 <= i < n implies (#[trigger] actions[i + 1] matches Action::Run(call)
        && call.is(cmd.statements(stamp)[i].sql(), cmd.statements(stamp)[i].bound())) by {
        assert(actions[at + i] is Run);
        assert(cmd.script(stamp, plan)[i] == (
            cmd.statements(stamp)[i].sql(),
            cmd.statements(stamp)[i].bound(),
        ));
    }
}

/// Every segment is stored under the transcript of the command, whatever
/// transcript it names, and every row carries the same stamp.
pub proof fn law_segments_belong_to_their_transcript(cmd: TranscriptInsert, stamp: Stamp, k: int)
    requires
        0 <= k < cmd.segments@.len(),
    ensures
        cmd.statements(stamp).len() == cmd.segments@.len() + 1,
        cmd.statements(stamp)[0] matches TranscriptStatement::Header { id, hlc, now, .. } && id
            == cmd.transcript.id.0 && hlc == stamp.hlc && now == stamp.now,
        cmd.statements(stamp)[k + 1] matches TranscriptStatement::Segment { id, transcript, hlc, now, .. }
            && id == cmd.segments@[k].id.0 && transcript == cmd.transcript.id.0 && hlc == stamp.hlc
            && now == stamp.now,
{
}

} // verus!
