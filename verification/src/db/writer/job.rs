//! A command of the writer, from its first request to the database to its answer.
use vstd::pervasive::unreached;
use vstd::prelude::*;

use crate::db::errors::{Error, SqliteError};
use crate::db::sql::{total, Bound, SqlCall, Stamp};
use crate::errors::CoreError;
use crate::events::AppEvent;
use crate::transcription::TranscriptionError;

verus! {

/// What a command goes on with inside its transaction.
#[derive(Debug)]
pub enum Decision<A, P> {
    /// Look something up first; `arm` says what.
    Look { arm: A, call: SqlCall },
    /// Run the statements of this plan.
    Write(P),
    /// Give up.
    Refuse(CoreError),
}

/// What has to be done next for a command.
#[derive(Debug)]
pub enum Action<A, R> {
    /// Begin a transaction that takes the write lock at once.
    Begin,
    /// Run a query; `arm` says what its row is.
    Find { arm: A, call: SqlCall },
    /// Run a statement.
    Run(SqlCall),
    /// Commit the transaction.
    Commit,
    /// Roll the transaction back.
    RollBack,
    /// Tell the listeners of `before`, answer the caller, then tell the listeners
    /// of `after`. Nothing is left to be done.
    Close { before: Vec<AppEvent>, reply: R, after: Vec<AppEvent> },
}

/// The lookup of a command that has at most one.
#[derive(Clone, Copy, Debug, PartialEq, Eq, Structural)]
pub struct OnlyLookup;

/// What came of an action.
#[derive(Debug)]
pub enum Report<F> {
    /// It was done.
    Done,
    /// The query found this.
    Found(F),
    /// The statement changed so many rows.
    Changed(u64),
    /// The caller gave the command up, and the statement was not run.
    Cancelled,
    /// It failed.
    Failed(SqliteError),
}

/// A command that the writer carries out in one transaction.
pub trait Command: Sized {
    /// Tells the lookups of a command apart.
    type Arm: Copy;

    /// What a lookup finds.
    type Found;

    /// What decides the statements of a command and its reply.
    type Plan;

    /// The reply to a command.
    type Reply;

    /// Whether the command needs a transaction.
    spec fn opens(self) -> bool;

    /// Whether the command, if it needs no transaction, is answered so.
    spec fn settles(self, reply: Self::Reply) -> bool;

    /// Whether the command may look this up.
    spec fn asks(self, arm: Self::Arm) -> bool;

    /// Whether the command goes on so once its transaction is open.
    spec fn begins(self, stamp: Stamp, d: Decision<Self::Arm, Self::Plan>) -> bool;

    /// Whether the command goes on so after a lookup.
    spec fn goes_on(
        self,
        stamp: Stamp,
        arm: Self::Arm,
        found: Self::Found,
        d: Decision<Self::Arm, Self::Plan>,
    ) -> bool;

    /// The statements of a plan: their texts and the values bound to them.
    spec fn script(self, stamp: Stamp, plan: Self::Plan) -> Seq<(Seq<char>, Seq<Bound>)>;

    /// Whether this is the reply once the statements of a plan have changed so many
    /// rows.
    spec fn answers(self, plan: Self::Plan, counts: Seq<u64>, reply: Self::Reply) -> bool;

    /// Whether the command is refused so.
    spec fn refuses(self, error: CoreError, reply: Self::Reply) -> bool;

    /// Whether a reply says that the command succeeded.
    spec fn is_success(reply: Self::Reply) -> bool;

    /// What listeners are told before the caller is answered.
    spec fn told_before(self, reply: Self::Reply) -> Seq<AppEvent>;

    /// What listeners are told after the caller was answered.
    spec fn told_after(self, reply: Self::Reply) -> Seq<AppEvent>;

    /// A command whose statements have run has succeeded.
    proof fn lemma_answers_succeed(self, plan: Self::Plan, counts: Seq<u64>, reply: Self::Reply)
        requires
            self.answers(plan, counts, reply),
        ensures
            Self::is_success(reply),
    ;

    /// A command that is refused has not succeeded.
    proof fn lemma_refuses_fail(self, error: CoreError, reply: Self::Reply)
        requires
            self.refuses(error, reply),
        ensures
            !Self::is_success(reply),
    ;

    /// The reply to a command that needs no transaction.
    fn settle(&self) -> (r: Option<Self::Reply>)
        ensures
            match r {
                Some(reply) => !self.opens() && self.settles(reply),
                None => self.opens(),
            },
    ;

    /// What the command goes on with once its transaction is open.
    fn begin(&self, stamp: &Stamp) -> (d: Decision<Self::Arm, Self::Plan>)
        requires
            self.opens(),
        ensures
            self.begins(*stamp, d),
            d matches Decision::Look { arm, call } ==> self.asks(arm),
    ;

    /// What the command goes on with after a lookup.
    fn go_on(&self, stamp: &Stamp, arm: Self::Arm, found: Self::Found) -> (d: Decision<
        Self::Arm,
        Self::Plan,
    >)
        requires
            self.opens(),
            self.asks(arm),
        ensures
            self.goes_on(*stamp, arm, found, d),
            d matches Decision::Look { arm: next, call } ==> self.asks(next),
    ;

    /// The statement of a plan that comes after `done` others.
    fn statement(&self, stamp: &Stamp, plan: &Self::Plan, done: usize) -> (r: Option<SqlCall>)
        ensures
            match r {
                Some(call) => done < self.script(*stamp, *plan).len() && call.is(
                    self.script(*stamp, *plan)[done as int].0,
                    self.script(*stamp, *plan)[done as int].1,
                ),
                None => done >= self.script(*stamp, *plan).len(),
            },
    ;

    /// The reply once the statements of a plan have changed so many rows.
    fn answer(&self, plan: Self::Plan, counts: &Vec<u64>) -> (r: Self::Reply)
        requires
            total(counts@) <= i64::MAX,
        ensures
            self.answers(plan, counts@, r),
    ;

    /// The reply to a command that is refused.
    fn refuse_with(&self, error: CoreError) -> (r: Self::Reply)
        ensures
            self.refuses(error, r),
    ;

    /// What listeners are told before and after the caller is answered.
    fn notices(&self, reply: &Self::Reply) -> (r: (Vec<AppEvent>, Vec<AppEvent>))
        ensures
            r.0@ == self.told_before(*reply),
            r.1@ == self.told_after(*reply),
    ;
}

/// How far a command has come.
#[verifier::reject_recursive_types(C)]
pub enum Phase<C: Command> {
    /// A transaction was asked for.
    Opening,
    /// A lookup was asked for.
    Looking { arm: C::Arm },
    /// The statement after those that are counted was asked for.
    Running { plan: C::Plan, counts: Vec<u64> },
    /// The commit was asked for; this is the answer if it succeeds.
    Committing { reply: C::Reply },
    /// The rollback was asked for; this is the answer.
    Undoing { reply: C::Reply },
    /// The caller was answered.
    Closed,
}

/// A command under way.
#[verifier::reject_recursive_types(C)]
pub struct Job<C: Command> {
    pub cmd: C,
    pub stamp: Stamp,
    pub phase: Phase<C>,
}

impl<C: Command> Job<C> {
    /// What holds of every command under way.
    pub open spec fn wf(self) -> bool {
        &&& !(self.phase is Closed) ==> self.cmd.opens()
        &&& match self.phase {
            Phase::Looking { arm } => self.cmd.asks(arm),
            Phase::Running { plan, counts } => {
                &&& counts@.len() < self.cmd.script(self.stamp, plan).len()
                &&& total(counts@) <= i64::MAX
            },
            Phase::Committing { reply } => C::is_success(reply),
            Phase::Undoing { reply } => !C::is_success(reply),
            _ => true,
        }
    }

    /// Whether a report can come in at this point. Row counts add up to less than
    /// 63 bits, as the rows of a database do.
    pub open spec fn expects(self, report: Report<C::Found>) -> bool {
        match self.phase {
            Phase::Opening => report is Done || report is Failed,
            Phase::Looking { .. } => report is Found || report is Failed,
            Phase::Running { counts, .. } => match report {
                Report::Changed(rows) => total(counts@.push(rows)) <= i64::MAX,
                Report::Cancelled => true,
                Report::Failed(_) => true,
                _ => false,
            },
            Phase::Committing { .. } => report is Done || report is Failed,
            Phase::Undoing { .. } => true,
            Phase::Closed => false,
        }
    }

    /// Whether `next` and `action` end the command with a reply, and tell the
    /// listeners of it or not.
    pub open spec fn closes(
        self,
        reply: C::Reply,
        told: bool,
        next: Job<C>,
        action: Action<C::Arm, C::Reply>,
    ) -> bool {
        &&& next.phase is Closed
        &&& action matches Action::Close { before, reply: r, after } && r == reply && (if told {
            before@ == self.cmd.told_before(reply) && after@ == self.cmd.told_after(reply)
        } else {
            before@.len() == 0 && after@.len() == 0
        })
    }

    /// Whether a job and its first action begin a command: one that needs no
    /// transaction is answered at once.
    pub open spec fn starts(self, action: Action<C::Arm, C::Reply>) -> bool {
        if self.cmd.opens() {
            self.phase is Opening && action is Begin
        } else {
            exists|reply: C::Reply| #[trigger]
                self.cmd.settles(reply) && self.closes(reply, false, self, action)
        }
    }

    /// Whether `next` and `action` give the command up: the transaction is rolled
    /// back, then the error is the answer.
    pub open spec fn undoes(
        self,
        error: CoreError,
        next: Job<C>,
        action: Action<C::Arm, C::Reply>,
    ) -> bool {
        &&& action is RollBack
        &&& next.phase matches Phase::Undoing { reply } && self.cmd.refuses(error, reply)
    }

    /// Whether `next` and `action` give the command up after a failed database
    /// call.
    pub open spec fn gives_up(
        self,
        e: SqliteError,
        next: Job<C>,
        action: Action<C::Arm, C::Reply>,
    ) -> bool {
        exists|core: CoreError| #[trigger]
            Error::Rusqlite(e).lowers_to(core) && self.undoes(core, next, action)
    }

    /// Whether `next` and `action` go on with a plan after some of its statements:
    /// the next statement is run, and after the last one the transaction is
    /// committed.
    pub open spec fn carries_on(
        self,
        plan: C::Plan,
        counts: Seq<u64>,
        next: Job<C>,
        action: Action<C::Arm, C::Reply>,
    ) -> bool {
        let script = self.cmd.script(self.stamp, plan);
        if counts.len() < script.len() {
            &&& action matches Action::Run(call) && call.is(
                script[counts.len() as int].0,
                script[counts.len() as int].1,
            )
            &&& next.phase matches Phase::Running { plan: p, counts: c } && p == plan && c@
                == counts
        } else {
            &&& action is Commit
            &&& next.phase matches Phase::Committing { reply } && self.cmd.answers(
                plan,
                counts,
                reply,
            )
        }
    }

    /// Whether `next` and `action` follow a decision.
    pub open spec fn acts_on(
        self,
        d: Decision<C::Arm, C::Plan>,
        next: Job<C>,
        action: Action<C::Arm, C::Reply>,
    ) -> bool {
        match d {
            Decision::Look { arm, call } => {
                &&& action == Action::<C::Arm, C::Reply>::Find { arm, call }
                &&& next.phase == Phase::<C>::Looking { arm }
            },
            Decision::Write(plan) => self.carries_on(plan, Seq::empty(), next, action),
            Decision::Refuse(error) => self.undoes(error, next, action),
        }
    }

    /// Whether `next` and `action` follow a report. Listeners are told, and a
    /// success is answered, only once a commit was done; a failure is answered
    /// after a rollback, or at once where no transaction was begun.
    pub open spec fn follows(
        self,
        report: Report<C::Found>,
        next: Job<C>,
        action: Action<C::Arm, C::Reply>,
    ) -> bool {
        match self.phase {
            Phase::Opening => match report {
                Report::Failed(e) => exists|core: CoreError, reply: C::Reply|
                    Error::Rusqlite(e).lowers_to(core) && #[trigger] self.cmd.refuses(core, reply)
                        && self.closes(reply, false, next, action),
                _ => exists|d: Decision<C::Arm, C::Plan>| #[trigger]
                    self.cmd.begins(self.stamp, d) && self.acts_on(d, next, action),
            },
            Phase::Looking { arm } => match report {
                Report::Found(found) => exists|d: Decision<C::Arm, C::Plan>| #[trigger]
                    self.cmd.goes_on(self.stamp, arm, found, d) && self.acts_on(d, next, action),
                Report::Failed(e) => self.gives_up(e, next, action),
                _ => false,
            },
            Phase::Running { plan, counts } => match report {
                Report::Changed(rows) => self.carries_on(plan, counts@.push(rows), next, action),
                Report::Cancelled => self.undoes(
                    CoreError::Transcription(TranscriptionError::Cancelled),
                    next,
                    action,
                ),
                Report::Failed(e) => self.gives_up(e, next, action),
                _ => false,
            },
            Phase::Committing { reply } => match report {
                Report::Failed(e) => self.gives_up(e, next, action),
                _ => self.closes(reply, true, next, action),
            },
            Phase::Undoing { reply } => self.closes(reply, false, next, action),
            Phase::Closed => false,
        }
    }

    /// Begins a command.
    pub fn start(cmd: C, stamp: Stamp) -> (r: (Job<C>, Action<C::Arm, C::Reply>))
        ensures
            r.0.cmd == cmd,
            r.0.stamp == stamp,
            r.0.wf(),
            r.0.starts(r.1),
    {
        match cmd.settle() {
            None => (Job { cmd, stamp, phase: Phase::Opening }, Action::Begin),
            Some(reply) => (
                Job { cmd, stamp, phase: Phase::Closed },
                Action::Close { before: Vec::new(), reply, after: Vec::new() },
            ),
        }
    }

    fn undo(cmd: C, stamp: Stamp, error: CoreError) -> (r: (Job<C>, Action<C::Arm, C::Reply>))
        requires
            cmd.opens(),
        ensures
            r.0.cmd == cmd,
            r.0.stamp == stamp,
            r.0.wf(),
            r.0.undoes(error, r.0, r.1),
    {
        let reply = cmd.refuse_with(error);
        proof {
            cmd.lemma_refuses_fail(error, reply);
        }
        (Job { cmd, stamp, phase: Phase::Undoing { reply } }, Action::RollBack)
    }

    fn run_next(cmd: C, stamp: Stamp, plan: C::Plan, counts: Vec<u64>) -> (r: (
        Job<C>,
        Action<C::Arm, C::Reply>,
    ))
        requires
            cmd.opens(),
            total(counts@) <= i64::MAX,
        ensures
            r.0.cmd == cmd,
            r.0.stamp == stamp,
            r.0.wf(),
            r.0.carries_on(plan, counts@, r.0, r.1),
    {
        match cmd.statement(&stamp, &plan, counts.len()) {
            Some(call) => (
                Job { cmd, stamp, phase: Phase::Running { plan, counts } },
                Action::Run(call),
            ),
            None => {
                let ghost p = plan;
                let reply = cmd.answer(plan, &counts);
                proof {
                    cmd.lemma_answers_succeed(p, counts@, reply);
                }
                (Job { cmd, stamp, phase: Phase::Committing { reply } }, Action::Commit)
            },
        }
    }

    fn act_on(cmd: C, stamp: Stamp, d: Decision<C::Arm, C::Plan>) -> (r: (
        Job<C>,
        Action<C::Arm, C::Reply>,
    ))
        requires
            cmd.opens(),
            d matches Decision::Look { arm, call } ==> cmd.asks(arm),
        ensures
            r.0.cmd == cmd,
            r.0.stamp == stamp,
            r.0.wf(),
            r.0.acts_on(d, r.0, r.1),
    {
        match d {
            Decision::Look { arm, call } => (
                Job { cmd, stamp, phase: Phase::Looking { arm } },
                Action::Find { arm, call },
            ),
            Decision::Write(plan) => {
                let counts: Vec<u64> = Vec::new();
                assert(counts@ =~= Seq::<u64>::empty());
                Job::run_next(cmd, stamp, plan, counts)
            },
            Decision::Refuse(error) => Job::undo(cmd, stamp, error),
        }
    }

    /// Goes on after a report.
    pub fn report(self, report: Report<C::Found>) -> (r: (Job<C>, Action<C::Arm, C::Reply>))
        requires
            self.wf(),
            self.expects(report),
        ensures
            r.0.cmd == self.cmd,
            r.0.stamp == self.stamp,
            r.0.wf(),
            self.follows(report, r.0, r.1),
    {
        let Job { cmd, stamp, phase } = self;
        match phase {
            Phase::Opening => match report {
                Report::Failed(e) => {
                    let core = CoreError::from(Error::Rusqlite(e));
                    let reply = cmd.refuse_with(core);
                    assert(self.cmd.refuses(core, reply));
                    (
                        Job { cmd, stamp, phase: Phase::Closed },
                        Action::Close { before: Vec::new(), reply, after: Vec::new() },
                    )
                },
                _ => {
                    let d = cmd.begin(&stamp);
                    assert(self.cmd.begins(self.stamp, d));
                    Job::act_on(cmd, stamp, d)
                },
            },
            Phase::Looking { arm } => match report {
                Report::Found(found) => {
                    let ghost f = found;
                    let d = cmd.go_on(&stamp, arm, found);
                    assert(self.cmd.goes_on(self.stamp, arm, f, d));
                    Job::act_on(cmd, stamp, d)
                },
                Report::Failed(e) => Job::undo(cmd, stamp, CoreError::from(Error::Rusqlite(e))),
                _ => unreached(),
            },
            Phase::Running { plan, mut counts } => match report {
                Report::Changed(rows) => {
                    counts.push(rows);
                    Job::run_next(cmd, stamp, plan, counts)
                },
                Report::Cancelled => Job::undo(
                    cmd,
                    stamp,
                    CoreError::Transcription(TranscriptionError::Cancelled),
                ),
                Report::Failed(e) => Job::undo(cmd, stamp, CoreError::from(Error::Rusqlite(e))),
                _ => unreached(),
            },
            Phase::Committing { reply } => match report {
                Report::Failed(e) => Job::undo(cmd, stamp, CoreError::from(Error::Rusqlite(e))),
                _ => {
                    let (before, after) = cmd.notices(&reply);
                    (
                        Job { cmd, stamp, phase: Phase::Closed },
                        Action::Close { before, reply, after },
                    )
                },
            },
            Phase::Undoing { reply } => (
                Job { cmd, stamp, phase: Phase::Closed },
                Action::Close { before: Vec::new(), reply, after: Vec::new() },
            ),
            Phase::Closed => unreached(),
        }
    }
}

} // verus!
