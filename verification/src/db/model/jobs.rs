//! The laws of a command from its beginning to its answer.
use vstd::prelude::*;

use crate::db::sql::{Bound, Stamp};
use crate::db::writer::job::{Action, Command, Decision, Job, Phase, Report};
use crate::errors::CoreError;
use crate::transcription::TranscriptionError;

verus! {

/// Whether these are the jobs, actions and reports of a command so far: the first
/// action begins it, and each report on an action is followed by the next.
pub open spec fn runs<C: Command>(
    cmd: C,
    stamp: Stamp,
    jobs: Seq<Job<C>>,
    actions: Seq<Action<C::Arm, C::Reply>>,
    reports: Seq<Report<C::Found>>,
) -> bool {
    &&& jobs.len() > 0
    &&& actions.len() == jobs.len()
    &&& reports.len() == jobs.len() - 1
    &&& jobs[0].starts(actions[0])
    &&& forall|i: int|
        0 <= i < jobs.len() ==> (#[trigger] jobs[i]).wf() && jobs[i].cmd == cmd && jobs[i].stamp
            == stamp
    &&& forall|i: int|
        0 <= i < reports.len() ==> (#[trigger] jobs[i]).expects(reports[i]) && jobs[i].follows(
            reports[i],
            jobs[i + 1],
            actions[i + 1],
        )
}

/// Whether a commit was asked for and done before the action at `k`.
pub open spec fn committed<A, R, F>(
    actions: Seq<Action<A, R>>,
    reports: Seq<Report<F>>,
    k: int,
) -> bool {
    exists|i: int|
        0 <= i < k && i < reports.len() && (#[trigger] actions[i]) is Commit && reports[i] is Done
}

/// Whether the actions from `at` on run the first `n` statements of a script, one
/// after the other, each with success.
pub open spec fn ran<A, R, F>(
    actions: Seq<Action<A, R>>,
    reports: Seq<Report<F>>,
    at: int,
    script: Seq<(Seq<char>, Seq<Bound>)>,
    n: int,
) -> bool {
    forall|i: int|
        at <= i < at + n ==> (#[trigger] actions[i] matches Action::Run(call) && call.is(
            script[i - at].0,
            script[i - at].1,
        )) && reports[i] is Changed
}

/// What the phase says of the actions so far.
pub proof fn lemma_phase_tells_actions<C: Command>(
    cmd: C,
    stamp: Stamp,
    jobs: Seq<Job<C>>,
    actions: Seq<Action<C::Arm, C::Reply>>,
    reports: Seq<Report<C::Found>>,
    k: int,
)
    requires
        runs(cmd, stamp, jobs, actions, reports),
        0 <= k < jobs.len(),
    ensures
        actions[k] is Begin <==> jobs[k].phase is Opening,
        actions[k] is Commit <==> jobs[k].phase is Committing,
        actions[k] is RollBack <==> jobs[k].phase is Undoing,
        actions[k] is Close <==> jobs[k].phase is Closed,
        actions[k] is Run <==> jobs[k].phase is Running,
        actions[k] is Find <==> jobs[k].phase is Looking,
        jobs[k].phase is Opening ==> k == 0,
        !(jobs[k].phase is Closed) ==> !committed(actions, reports, k),
    decreases k,
{
    if k > 0 {
        lemma_phase_tells_actions(cmd, stamp, jobs, actions, reports, k - 1);
        assert(jobs[k - 1].expects(reports[k - 1]));
        assert(jobs[k - 1].follows(reports[k - 1], jobs[k], actions[k]));
        if committed(actions, reports, k) && !committed(actions, reports, k - 1) {
            let i = choose|i: int|
                0 <= i < k && i < reports.len() && (#[trigger] actions[i]) is Commit
                    && reports[i] is Done;
            assert(i == k - 1);
        }
    }
}

/// Listeners are told of a command only after its commit was done.
pub proof fn law_events_follow_the_commit<C: Command>(
    cmd: C,
    stamp: Stamp,
    jobs: Seq<Job<C>>,
    actions: Seq<Action<C::Arm, C::Reply>>,
    reports: Seq<Report<C::Found>>,
    k: int,
)
    requires
        runs(cmd, stamp, jobs, actions, reports),
        0 <= k < jobs.len(),
        actions[k] matches Action::Close { before, reply, after } && before@.len() + after@.len()
            > 0,
    ensures
        k > 0 && actions[k - 1] is Commit && reports[k - 1] is Done,
{
    lemma_phase_tells_actions(cmd, stamp, jobs, actions, reports, k);
    if k > 0 {
        lemma_phase_tells_actions(cmd, stamp, jobs, actions, reports, k - 1);
        assert(jobs[k - 1].expects(reports[k - 1]));
        assert(jobs[k - 1].follows(reports[k - 1], jobs[k], actions[k]));
    }
}

/// The answer is the last action. A command that needs a transaction succeeds if
/// and only if its commit was done; any other is answered at once. What is not
/// committed is rolled back, unless no transaction was begun.
pub proof fn law_success_means_committed<C: Command>(
    cmd: C,
    stamp: Stamp,
    jobs: Seq<Job<C>>,
    actions: Seq<Action<C::Arm, C::Reply>>,
    reports: Seq<Report<C::Found>>,
    k: int,
)
    requires
        runs(cmd, stamp, jobs, actions, reports),
        0 <= k < jobs.len(),
        actions[k] is Close,
    ensures
        k == jobs.len() - 1,
        cmd.opens() ==> (C::is_success(actions[k]->reply) <==> committed(actions, reports, k)),
        !cmd.opens() ==> k == 0 && cmd.settles(actions[k]->reply),
        cmd.opens() && !committed(actions, reports, k) ==> actions[k - 1] is RollBack || (k == 1
            && reports[0] is Failed),
{
    lemma_phase_tells_actions(cmd, stamp, jobs, actions, reports, k);
    if k < jobs.len() - 1 {
        assert(jobs[k].expects(reports[k]));
    }
    if k > 0 {
        lemma_phase_tells_actions(cmd, stamp, jobs, actions, reports, k - 1);
        assert(jobs[0].wf());
        assert(jobs[k - 1].wf());
        assert(jobs[k - 1].expects(reports[k - 1]));
        assert(jobs[k - 1].follows(reports[k - 1], jobs[k], actions[k]));
        let reply = actions[k]->reply;
        if jobs[k - 1].phase is Committing {
            assert(actions[k - 1] is Commit && reports[k - 1] is Done);
        } else if committed(actions, reports, k) {
            let i = choose|i: int|
                0 <= i < k && i < reports.len() && (#[trigger] actions[i]) is Commit
                    && reports[i] is Done;
            assert(i == k - 1);
        }
        if jobs[k - 1].phase is Opening {
            let (core, r) = choose|core: CoreError, r: C::Reply|
                crate::db::errors::Error::Rusqlite(reports[k - 1]->Failed_0).lowers_to(core)
                    && #[trigger] jobs[k - 1].cmd.refuses(core, r) && jobs[k - 1].closes(
                    r,
                    false,
                    jobs[k],
                    actions[k],
                );
            cmd.lemma_refuses_fail(core, r);
        }
    }
}

/// Whether a plan is what the command decided on, as the report before the action
/// at `at` had it: once the transaction was open, or after a lookup.
pub open spec fn decided<C: Command>(
    cmd: C,
    stamp: Stamp,
    actions: Seq<Action<C::Arm, C::Reply>>,
    reports: Seq<Report<C::Found>>,
    at: int,
    plan: C::Plan,
) -> bool {
    let d = Decision::<C::Arm, C::Plan>::Write(plan);
    match actions[at - 1] {
        Action::Begin => reports[at - 1] is Done && cmd.begins(stamp, d),
        Action::Find { arm, .. } => reports[at - 1] matches Report::Found(found) && cmd.goes_on(
            stamp,
            arm,
            found,
            d,
        ),
        _ => false,
    }
}

/// Whether, before the action at `k`, the command decided on a plan and ran its
/// first `n` statements and no others.
pub open spec fn wrote<C: Command>(
    cmd: C,
    stamp: Stamp,
    actions: Seq<Action<C::Arm, C::Reply>>,
    reports: Seq<Report<C::Found>>,
    k: int,
    plan: C::Plan,
    n: int,
) -> bool {
    &&& 0 <= n < k
    &&& decided(cmd, stamp, actions, reports, k - n, plan)
    &&& ran(actions, reports, k - n, cmd.script(stamp, plan), n)
    &&& forall|i: int| 0 <= i < k - n ==> !((#[trigger] actions[i]) is Run)
}

/// Whether, before the action at `k`, the command decided on a plan and ran all its
/// statements and no others.
pub open spec fn wrote_all<C: Command>(
    cmd: C,
    stamp: Stamp,
    actions: Seq<Action<C::Arm, C::Reply>>,
    reports: Seq<Report<C::Found>>,
    k: int,
    plan: C::Plan,
) -> bool {
    wrote(cmd, stamp, actions, reports, k, plan, cmd.script(stamp, plan).len() as int)
}

proof fn lemma_written_so_far<C: Command>(
    cmd: C,
    stamp: Stamp,
    jobs: Seq<Job<C>>,
    actions: Seq<Action<C::Arm, C::Reply>>,
    reports: Seq<Report<C::Found>>,
    k: int,
)
    requires
        runs(cmd, stamp, jobs, actions, reports),
        0 <= k < jobs.len(),
    ensures
        jobs[k].phase is Opening || jobs[k].phase is Looking ==> forall|i: int|
            0 <= i <= k ==> !((#[trigger] actions[i]) is Run),
        jobs[k].phase matches Phase::Looking { arm } ==> (actions[k] matches Action::Find {
            arm: a,
            call,
        } && a == arm),
        jobs[k].phase matches Phase::Running { plan, counts } ==> wrote(
            cmd,
            stamp,
            actions,
            reports,
            k,
            plan,
            counts@.len() as int,
        ),
        jobs[k].phase is Committing ==> exists|plan: C::Plan| #[trigger]
            wrote_all(cmd, stamp, actions, reports, k, plan),
    decreases k,
{
    lemma_phase_tells_actions(cmd, stamp, jobs, actions, reports, k);
    if k > 0 {
        let was = jobs[k - 1];
        lemma_written_so_far(cmd, stamp, jobs, actions, reports, k - 1);
        lemma_phase_tells_actions(cmd, stamp, jobs, actions, reports, k - 1);
        assert(was.wf() && was.cmd == cmd && was.stamp == stamp);
        assert(was.expects(reports[k - 1]));
        assert(was.follows(reports[k - 1], jobs[k], actions[k]));
        match was.phase {
            Phase::Opening => {
                if reports[k - 1] is Done {
                    let d = choose|d: Decision<C::Arm, C::Plan>| #[trigger]
                        was.cmd.begins(was.stamp, d) && was.acts_on(d, jobs[k], actions[k]);
                    if let Decision::Write(plan) = d {
                        assert(decided(cmd, stamp, actions, reports, k, plan));
                        assert(wrote(cmd, stamp, actions, reports, k, plan, 0));
                        if jobs[k].phase is Committing {
                            assert(wrote_all(cmd, stamp, actions, reports, k, plan));
                        }
                    }
                }
            },
            Phase::Looking { arm } => {
                if let Report::Found(found) = reports[k - 1] {
                    let d = choose|d: Decision<C::Arm, C::Plan>| #[trigger]
                        was.cmd.goes_on(was.stamp, arm, found, d) && was.acts_on(
                            d,
                            jobs[k],
                            actions[k],
                        );
                    if let Decision::Write(plan) = d {
                        assert(decided(cmd, stamp, actions, reports, k, plan));
                        assert(wrote(cmd, stamp, actions, reports, k, plan, 0));
                        if jobs[k].phase is Committing {
                            assert(wrote_all(cmd, stamp, actions, reports, k, plan));
                        }
                    }
                }
            },
            Phase::Running { plan, counts } => {
                if reports[k - 1] is Changed {
                    lemma_runs_its_statement(cmd, stamp, jobs, actions, reports, k - 1);
                    lemma_wrote_one_more(
                        cmd,
                        stamp,
                        actions,
                        reports,
                        k - 1,
                        plan,
                        counts@.len() as int,
                    );
                    if jobs[k].phase is Committing {
                        assert(wrote_all(cmd, stamp, actions, reports, k, plan));
                    }
                }
            },
            _ => {},
        }
    }
}

/// A statement that was run adds to what was written.
proof fn lemma_wrote_one_more<C: Command>(
    cmd: C,
    stamp: Stamp,
    actions: Seq<Action<C::Arm, C::Reply>>,
    reports: Seq<Report<C::Found>>,
    k: int,
    plan: C::Plan,
    n: int,
)
    requires
        wrote(cmd, stamp, actions, reports, k, plan, n),
        actions[k] matches Action::Run(call) && call.is(
            cmd.script(stamp, plan)[n].0,
            cmd.script(stamp, plan)[n].1,
        ),
        reports[k] is Changed,
    ensures
        wrote(cmd, stamp, actions, reports, k + 1, plan, n + 1),
{
    let script = cmd.script(stamp, plan);
    let at = k - n;
    assert(k + 1 - (n + 1) == at);
    assert forall|i: int| at <= i < at + (n + 1) implies (#[trigger] actions[i] matches Action::Run(
        call,
    ) && call.is(script[i - at].0, script[i - at].1)) && reports[i] is Changed by {
        if i == k {
            assert(i - at == n);
        }
    }
}

/// While a plan runs, the action is its next statement.
proof fn lemma_runs_its_statement<C: Command>(
    cmd: C,
    stamp: Stamp,
    jobs: Seq<Job<C>>,
    actions: Seq<Action<C::Arm, C::Reply>>,
    reports: Seq<Report<C::Found>>,
    k: int,
)
    requires
        runs(cmd, stamp, jobs, actions, reports),
        0 <= k < jobs.len(),
    ensures
        jobs[k].phase matches Phase::Running { plan, counts } ==> (actions[k] matches Action::Run(
            call,
        ) && call.is(
            cmd.script(stamp, plan)[counts@.len() as int].0,
            cmd.script(stamp, plan)[counts@.len() as int].1,
        )),
{
    if k > 0 {
        let was = jobs[k - 1];
        assert(was.cmd == cmd && was.stamp == stamp);
        assert(was.expects(reports[k - 1]));
        assert(was.follows(reports[k - 1], jobs[k], actions[k]));
    }
}

/// A command commits what it decided on, whole and nothing else: before a commit,
/// every statement of its plan was run in order, and no other statement was.
pub proof fn law_commit_follows_the_whole_script<C: Command>(
    cmd: C,
    stamp: Stamp,
    jobs: Seq<Job<C>>,
    actions: Seq<Action<C::Arm, C::Reply>>,
    reports: Seq<Report<C::Found>>,
    k: int,
)
    requires
        runs(cmd, stamp, jobs, actions, reports),
        0 <= k < jobs.len(),
        actions[k] is Commit,
    ensures
        exists|plan: C::Plan| #[trigger]
            wrote_all(cmd, stamp, actions, reports, k, plan),
{
    lemma_phase_tells_actions(cmd, stamp, jobs, actions, reports, k);
    lemma_written_so_far(cmd, stamp, jobs, actions, reports, k);
}

/// A command that its caller gave up is rolled back and refused as cancelled.
pub proof fn law_cancelled_command_is_undone<C: Command>(
    cmd: C,
    stamp: Stamp,
    jobs: Seq<Job<C>>,
    actions: Seq<Action<C::Arm, C::Reply>>,
    reports: Seq<Report<C::Found>>,
    k: int,
)
    requires
        runs(cmd, stamp, jobs, actions, reports),
        0 <= k < reports.len() - 1,
        reports[k] is Cancelled,
        actions[k] is Run,
    ensures
        actions[k + 1] is RollBack,
        actions[k + 2] matches Action::Close { before, reply, after } && before@.len() == 0
            && after@.len() == 0 && cmd.refuses(
            CoreError::Transcription(TranscriptionError::Cancelled),
            reply,
        ),
        !committed(actions, reports, k + 2),
{
    lemma_phase_tells_actions(cmd, stamp, jobs, actions, reports, k);
    lemma_phase_tells_actions(cmd, stamp, jobs, actions, reports, k + 1);
    assert(jobs[k].cmd == cmd && jobs[k + 1].cmd == cmd);
    assert(jobs[k].follows(reports[k], jobs[k + 1], actions[k + 1]));
    assert(jobs[k + 1].follows(reports[k + 1], jobs[k + 2], actions[k + 2]));
    if committed(actions, reports, k + 2) {
        let i = choose|i: int|
            0 <= i < k + 2 && i < reports.len() && (#[trigger] actions[i]) is Commit
                && reports[i] is Done;
        assert(i == k + 1);
    }
}

} // verus!
