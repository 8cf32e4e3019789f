//! The steps by which a session enters the table.
//!
//! A spawn or a reconnect is a short exchange. The manager says what is to
//! be done next for the pending session ([`Next`]); its driver does it and
//! reports how it went; the manager says what follows. A new session that is
//! to persist goes through the configuration file, the creation of its
//! backing session and the terminal that attaches to it, and every failure
//! on that way falls back to a terminal that runs the command directly.

use vstd::prelude::*;
use crate::process::{
    result_view, shell_of, tilde_expanded, HostEnvModel, Invocation, InvocationModel, OutcomeModel,
};
use crate::pty::error::{PtyError, PtyErrorModel, SpawnProblem};
use crate::pty::session::{
    info_of, CreateSessionRequestModel, PtySessionInfo, PtySessionInfoModel, PtySessionModel,
    DEFAULT_COLS, DEFAULT_ROWS, TERM, TMUX_COMMAND,
};
use crate::pty::table::{
    has_session, lemma_inserted_is_found, position_of, session_of, with_session, without_stale,
};
use crate::pty::tmux::{
    attach_args, create_args, create_result, exists_in, has_session_args, kill_args,
    listed_sessions, tmux_invocation, TmuxErrorModel, TmuxSetupModel,
};

verus! {

/// What the manager knows: its sessions, oldest first, how to reach the
/// multiplexer, what the host told, and whether persistence is wanted.
pub struct ManagerModel<H> {
    pub sessions: Seq<PtySessionModel<H>>,
    pub setup: TmuxSetupModel,
    pub host: HostEnvModel,
    pub use_tmux: bool,
}

/// Whether new sessions of `manager` are to persist: a `tmux` binary is
/// known and its use has not been switched off.
pub open spec fn using_tmux<H>(manager: ManagerModel<H>) -> bool {
    manager.setup.tmux_path is Some && manager.use_tmux
}

/// Which command of the multiplexer a pending session waits for.
#[derive(Clone, Copy, Debug, PartialEq, Eq)]
pub enum RunWait {
    /// The creation of the detached session that is to back it.
    Backing,
    /// The removal of a backing session to which no client could attach.
    Cleanup,
    /// The answer whether its backing session exists.
    Probe,
}

/// Which terminal a pending session waits for.
#[derive(Clone, Copy, Debug, PartialEq, Eq)]
pub enum LaunchWait {
    /// One whose child attaches to the backing session just created.
    Attach,
    /// One whose child is the command itself.
    Direct,
    /// One whose child attaches to a backing session that was there before.
    Reattach,
}

/// A session on its way into the table: its identity, what was asked of it,
/// and its geometry with the defaults filled in.
#[derive(Clone, Debug, PartialEq, Eq)]
pub struct SessionJob {
    pub id: String,
    pub command: Option<String>,
    pub args: Option<Vec<String>>,
    pub cwd: Option<String>,
    pub cols: u16,
    pub rows: u16,
}

/// What a [`SessionJob`] holds, as text.
pub struct SessionJobModel {
    pub id: Seq<char>,
    pub command: Option<Seq<char>>,
    pub args: Option<Seq<Seq<char>>>,
    pub cwd: Option<Seq<char>>,
    pub cols: u16,
    pub rows: u16,
}

impl DeepView for SessionJob {
    type V = SessionJobModel;

    open spec fn deep_view(&self) -> SessionJobModel {
        SessionJobModel {
            id: self.id@,
            command: self.command.deep_view(),
            args: self.args.deep_view(),
            cwd: self.cwd.deep_view(),
            cols: self.cols,
            rows: self.rows,
        }
    }
}

/// A terminal to bring up: the child to start in it, where, and how large.
#[derive(Clone, Debug, PartialEq, Eq)]
pub struct LaunchPlan {
    pub program: String,
    pub args: Vec<String>,
    /// The directory to start the child in; absent, the child starts where
    /// the terminal layer puts it.
    pub cwd: Option<String>,
    /// The value of `TERM` in the child's environment.
    pub term: String,
    pub cols: u16,
    pub rows: u16,
}

/// What a [`LaunchPlan`] holds, as text.
pub struct LaunchPlanModel {
    pub program: Seq<char>,
    pub args: Seq<Seq<char>>,
    pub cwd: Option<Seq<char>>,
    pub term: Seq<char>,
    pub cols: u16,
    pub rows: u16,
}

impl DeepView for LaunchPlan {
    type V = LaunchPlanModel;

    open spec fn deep_view(&self) -> LaunchPlanModel {
        LaunchPlanModel {
            program: self.program@,
            args: self.args.deep_view(),
            cwd: self.cwd.deep_view(),
            term: self.term@,
            cols: self.cols,
            rows: self.rows,
        }
    }
}

/// A command of the multiplexer to run for a pending session.
#[derive(Clone, Debug, PartialEq, Eq)]
pub struct Run {
    pub invocation: Invocation,
    pub wait: RunWait,
    pub job: SessionJob,
}

/// What a [`Run`] holds, as text.
pub struct RunModel {
    pub invocation: InvocationModel,
    pub wait: RunWait,
    pub job: SessionJobModel,
}

impl DeepView for Run {
    type V = RunModel;

    open spec fn deep_view(&self) -> RunModel {
        RunModel {
            invocation: self.invocation.deep_view(),
            wait: self.wait,
            job: self.job.deep_view(),
        }
    }
}

/// A terminal to bring up for a pending session.
#[derive(Clone, Debug, PartialEq, Eq)]
pub struct Launch {
    pub plan: LaunchPlan,
    pub wait: LaunchWait,
    pub job: SessionJob,
}

/// What a [`Launch`] holds, as text.
pub struct LaunchModel {
    pub plan: LaunchPlanModel,
    pub wait: LaunchWait,
    pub job: SessionJobModel,
}

impl DeepView for Launch {
    type V = LaunchModel;

    open spec fn deep_view(&self) -> LaunchModel {
        LaunchModel { plan: self.plan.deep_view(), wait: self.wait, job: self.job.deep_view() }
    }
}

/// What the driver of the manager is to do next for a pending session, or
/// how the request ended.
#[derive(Debug, PartialEq, Eq)]
pub enum Next {
    /// Make sure that the multiplexer's configuration file exists, writing
    /// the default where it does not; answer with `config_done`.
    EnsureConfig(SessionJob),
    /// Run the command; answer with `run_done`.
    Run(Run),
    /// Bring up the terminal and start relaying its output; answer with `launch_done`.
    Launch(Launch),
    /// Nothing: this is what the request returns.
    Done(Result<PtySessionInfo, PtyError>),
}

/// What a [`Next`] holds, as text.
pub enum NextModel {
    EnsureConfig(SessionJobModel),
    Run(RunModel),
    Launch(LaunchModel),
    Done(Result<PtySessionInfoModel, PtyErrorModel>),
}

impl DeepView for Next {
    type V = NextModel;

    open spec fn deep_view(&self) -> NextModel {
        match self {
            Next::EnsureConfig(job) => NextModel::EnsureConfig(job.deep_view()),
            Next::Run(run) => NextModel::Run(run.deep_view()),
            Next::Launch(launch) => NextModel::Launch(launch.deep_view()),
            Next::Done(result) => NextModel::Done(result_view(*result)),
        }
    }
}

/// The step at which bringing up a terminal failed.
#[derive(Clone, Copy, Debug, PartialEq, Eq)]
pub enum LaunchStage {
    /// Opening the pseudo-terminal.
    OpenPty,
    /// Starting the child.
    Spawn,
    /// Opening the terminal's output for reading.
    CloneReader,
    /// Opening the terminal's input for writing.
    TakeWriter,
}

/// Why no terminal came up.
#[derive(Clone, Debug, PartialEq, Eq)]
pub struct LaunchFailure {
    pub stage: LaunchStage,
    /// The system's reason.
    pub detail: String,
}

/// What a [`LaunchFailure`] holds, as text.
pub struct LaunchFailureModel {
    pub stage: LaunchStage,
    pub detail: Seq<char>,
}

impl DeepView for LaunchFailure {
    type V = LaunchFailureModel;

    open spec fn deep_view(&self) -> LaunchFailureModel {
        LaunchFailureModel { stage: self.stage, detail: self.detail@ }
    }
}

/// A terminal that came up.
#[derive(Debug)]
pub struct Launched<H> {
    /// The handle to the terminal and its child.
    pub handle: H,
    /// Whether the child was seen running right after its start.
    pub alive: bool,
}

impl<H> DeepView for Launched<H> {
    type V = Launched<H>;

    open spec fn deep_view(&self) -> Launched<H> {
        *self
    }
}

/// The job that `request` makes of the new session `id`.
pub open spec fn job_of(id: Seq<char>, request: CreateSessionRequestModel) -> SessionJobModel {
    SessionJobModel {
        id,
        command: request.command,
        args: request.args,
        cwd: request.cwd,
        cols: match request.cols {
            Some(cols) => cols,
            None => DEFAULT_COLS,
        },
        rows: match request.rows {
            Some(rows) => rows,
            None => DEFAULT_ROWS,
        },
    }
}

/// The terminal that runs the command of `job` itself: the command asked
/// for, else the user's shell; in the directory asked for, with a leading
/// `~` expanded, else in the user's home directory.
pub open spec fn direct_plan(host: HostEnvModel, job: SessionJobModel) -> LaunchPlanModel {
    LaunchPlanModel {
        program: match job.command {
            Some(command) => command,
            None => shell_of(host),
        },
        args: match job.args {
            Some(args) => args,
            None => Seq::empty(),
        },
        cwd: match job.cwd {
            Some(dir) => Some(tilde_expanded(dir, host.home)),
            None => host.home,
        },
        term: TERM@,
        cols: job.cols,
        rows: job.rows,
    }
}

/// The terminal whose child attaches to the backing session of `job`, where
/// `setup` knows the binary.
pub open spec fn attach_plan(setup: TmuxSetupModel, job: SessionJobModel) -> Option<
    LaunchPlanModel,
> {
    match setup.tmux_path {
        Some(path) => Some(
            LaunchPlanModel {
                program: path,
                args: attach_args(setup, job.id),
                cwd: None,
                term: TERM@,
                cols: job.cols,
                rows: job.rows,
            },
        ),
        None => None,
    }
}

/// The fallback of every failure on the persistent path: the direct terminal.
pub open spec fn fall_back<H>(manager: ManagerModel<H>, job: SessionJobModel) -> NextModel {
    NextModel::Launch(
        LaunchModel { plan: direct_plan(manager.host, job), wait: LaunchWait::Direct, job },
    )
}

/// The first step of a spawn: on the persistent path where persistence is
/// on, else the direct terminal at once.
pub open spec fn spawn_start<H>(
    manager: ManagerModel<H>,
    id: Seq<char>,
    request: CreateSessionRequestModel,
) -> NextModel {
    if using_tmux(manager) {
        NextModel::EnsureConfig(job_of(id, request))
    } else {
        fall_back(manager, job_of(id, request))
    }
}

/// The step after the configuration file was seen to: the creation of the
/// backing session, or the fallback where the file could not be had.
pub open spec fn after_config<H>(
    manager: ManagerModel<H>,
    job: SessionJobModel,
    result: Result<(), TmuxErrorModel>,
) -> NextModel {
    if result is Ok {
        match tmux_invocation(
            manager.setup,
            create_args(manager.setup, manager.host, job.id, job.cwd),
        ) {
            Some(invocation) => NextModel::Run(
                RunModel { invocation, wait: RunWait::Backing, job },
            ),
            None => fall_back(manager, job),
        }
    } else {
        fall_back(manager, job)
    }
}

/// The step after a command of the multiplexer ended in `outcome`.
pub open spec fn after_run<H>(manager: ManagerModel<H>, run: RunModel, outcome: OutcomeModel)
    -> NextModel {
    match run.wait {
        RunWait::Backing => if create_result(run.job.id, outcome) is Ok {
            match attach_plan(manager.setup, run.job) {
                Some(plan) => NextModel::Launch(
                    LaunchModel { plan, wait: LaunchWait::Attach, job: run.job },
                ),
                None => fall_back(manager, run.job),
            }
        } else {
            fall_back(manager, run.job)
        },
        RunWait::Cleanup => fall_back(manager, run.job),
        RunWait::Probe => if exists_in(outcome) {
            match attach_plan(manager.setup, run.job) {
                Some(plan) => NextModel::Launch(
                    LaunchModel { plan, wait: LaunchWait::Reattach, job: run.job },
                ),
                None => NextModel::Done(
                    Err(PtyErrorModel::ExternalToolFailed(TmuxErrorModel::NotFound)),
                ),
            }
        } else {
            NextModel::Done(
                Err(PtyErrorModel::ExternalToolFailed(TmuxErrorModel::SessionMissing(run.job.id))),
            )
        },
    }
}

/// What is recorded of the session that `launch` brought up at the time `now`.
pub open spec fn record_of<H>(launch: LaunchModel, handle: H, now: Seq<char>) -> PtySessionModel<
    H,
> {
    PtySessionModel {
        id: launch.job.id,
        command: if launch.wait is Direct {
            launch.plan.program
        } else {
            TMUX_COMMAND@
        },
        args: launch.plan.args,
        cwd: if launch.wait is Reattach {
            None
        } else {
            launch.job.cwd
        },
        created_at: now,
        handle,
        cols: launch.job.cols,
        rows: launch.job.rows,
        is_tmux: !(launch.wait is Direct),
    }
}

/// What the failure of `stage` is called in the error, given what was being launched.
pub open spec fn launch_problem(wait: LaunchWait, stage: LaunchStage) -> SpawnProblem {
    match stage {
        LaunchStage::OpenPty => SpawnProblem::OpenPty,
        LaunchStage::Spawn => if wait is Direct {
            SpawnProblem::SpawnCommand
        } else {
            SpawnProblem::AttachSession
        },
        LaunchStage::CloneReader => SpawnProblem::CloneReader,
        LaunchStage::TakeWriter => SpawnProblem::TakeWriter,
    }
}

/// The table and the step after the attempt to bring up a terminal.
///
/// A terminal that came up is recorded and the request is done. One that did
/// not come up ends the request with the error, except on the way to a new
/// persistent session: there the direct terminal is tried next, after the
/// backing session was removed where it was the attaching client that could
/// not be started.
pub open spec fn after_launch<H>(
    manager: ManagerModel<H>,
    launch: LaunchModel,
    result: Result<Launched<H>, LaunchFailureModel>,
    now: Seq<char>,
) -> (Seq<PtySessionModel<H>>, NextModel) {
    match result {
        Ok(launched) => (
            with_session(manager.sessions, record_of(launch, launched.handle, now)),
            NextModel::Done(Ok(info_of(record_of(launch, launched.handle, now), launched.alive))),
        ),
        Err(failure) => (
            manager.sessions,
            if launch.wait is Attach {
                if failure.stage is Spawn {
                    match tmux_invocation(manager.setup, kill_args(launch.job.id)) {
                        Some(invocation) => NextModel::Run(
                            RunModel { invocation, wait: RunWait::Cleanup, job: launch.job },
                        ),
                        None => fall_back(manager, launch.job),
                    }
                } else {
                    fall_back(manager, launch.job)
                }
            } else {
                NextModel::Done(
                    Err(
                        PtyErrorModel::SpawnFailed(
                            launch_problem(launch.wait, failure.stage),
                            failure.detail,
                        ),
                    ),
                )
            },
        ),
    }
}

/// The first step of a reconnect. A session that the table already holds is
/// told about as it is, and nothing is started, whether persistence is on or
/// not. For any other identity persistence is needed: where it is off the
/// reconnect fails; where it is on the multiplexer is asked whether the
/// backing session exists.
pub open spec fn reconnect_start<H>(
    manager: ManagerModel<H>,
    id: Seq<char>,
    cols: u16,
    rows: u16,
    alive: bool,
) -> NextModel {
    if has_session(manager.sessions, id) {
        NextModel::Done(Ok(info_of(manager.sessions[position_of(manager.sessions, id)], alive)))
    } else if !using_tmux(manager) {
        NextModel::Done(Err(PtyErrorModel::ExternalToolFailed(TmuxErrorModel::Disabled)))
    } else {
        match tmux_invocation(manager.setup, has_session_args(id)) {
            Some(invocation) => NextModel::Run(
                RunModel {
                    invocation,
                    wait: RunWait::Probe,
                    job: SessionJobModel { id, command: None, args: None, cwd: None, cols, rows },
                },
            ),
            None => NextModel::Done(
                Err(PtyErrorModel::ExternalToolFailed(TmuxErrorModel::SessionMissing(id))),
            ),
        }
    }
}

/// The identity of the session that `next` is about, where it is pending.
pub open spec fn pending_id(next: NextModel) -> Seq<char> {
    match next {
        NextModel::EnsureConfig(job) => job.id,
        NextModel::Run(run) => run.job.id,
        NextModel::Launch(launch) => launch.job.id,
        NextModel::Done(_) => Seq::empty(),
    }
}

/// The time of creation that `next` reports, where it reports a session.
pub open spec fn reported_time(next: NextModel) -> Seq<char> {
    match next {
        NextModel::Done(Ok(info)) => info.created_at,
        _ => Seq::empty(),
    }
}

/// The sessions that a listing leaves in the table: all of them where
/// persistence is off, else those that are not stale against what the
/// multiplexer listed.
pub open spec fn after_sweep<H>(manager: ManagerModel<H>, outcome: OutcomeModel) -> Seq<
    PtySessionModel<H>,
> {
    if using_tmux(manager) {
        without_stale(manager.sessions, listed_sessions(outcome))
    } else {
        manager.sessions
    }
}

/// What the driver reports back to the manager.
pub enum Answer<H> {
    /// Whether the configuration file is in place.
    Config(Result<(), TmuxErrorModel>),
    /// How a command of the multiplexer ended.
    Ran(OutcomeModel),
    /// Whether the terminal came up, and when.
    Launched(Result<Launched<H>, LaunchFailureModel>, Seq<char>),
}

/// The manager and the step after `answer` was given to `next`. An answer
/// to a question that was not asked changes nothing.
pub open spec fn answered<H>(manager: ManagerModel<H>, next: NextModel, answer: Answer<H>) -> (
    ManagerModel<H>,
    NextModel,
) {
    match (next, answer) {
        (NextModel::EnsureConfig(job), Answer::Config(result)) => (
            manager,
            after_config(manager, job, result),
        ),
        (NextModel::Run(run), Answer::Ran(outcome)) => (manager, after_run(manager, run, outcome)),
        (NextModel::Launch(launch), Answer::Launched(result, now)) => (
            ManagerModel { sessions: after_launch(manager, launch, result, now).0, ..manager },
            after_launch(manager, launch, result, now).1,
        ),
        _ => (manager, next),
    }
}

/// The manager and the step after `answers` were given one after the other,
/// starting at `next`.
pub open spec fn carried_out<H>(
    manager: ManagerModel<H>,
    next: NextModel,
    answers: Seq<Answer<H>>,
) -> (ManagerModel<H>, NextModel)
    decreases answers.len(),
{
    if answers.len() == 0 {
        (manager, next)
    } else {
        carried_out(
            answered(manager, next, answers[0]).0,
            answered(manager, next, answers[0]).1,
            answers.drop_first(),
        )
    }
}

/// Whether `next`, where it reports a session, reports the one that `job`
/// was to bring up: under its identity, with its geometry, and as the table
/// of `manager` holds it.
pub open spec fn reports_job<H>(manager: ManagerModel<H>, next: NextModel, job: SessionJobModel)
    -> bool {
    next matches NextModel::Done(Ok(info)) ==> {
        &&& info.id == job.id
        &&& info.cols == job.cols
        &&& info.rows == job.rows
        &&& session_of(manager.sessions, job.id) matches Some(session) && info == info_of(
            session,
            info.is_alive,
        )
    }
}

/// Whether `next` is a step on the way of `job` into the table: a pending
/// step carries `job` unchanged, and a report is of `job`.
pub open spec fn on_the_way<H>(manager: ManagerModel<H>, next: NextModel, job: SessionJobModel)
    -> bool {
    match next {
        NextModel::EnsureConfig(pending) => pending == job,
        NextModel::Run(run) => run.job == job,
        NextModel::Launch(launch) => launch.job == job,
        NextModel::Done(_) => reports_job(manager, next, job),
    }
}

/// Every answer keeps a session on its way.
pub proof fn lemma_answer_keeps_the_way<H>(
    manager: ManagerModel<H>,
    next: NextModel,
    answer: Answer<H>,
    job: SessionJobModel,
)
    requires
        on_the_way(manager, next, job),
    ensures
        on_the_way(answered(manager, next, answer).0, answered(manager, next, answer).1, job),
{
    match (next, answer) {
        (NextModel::Launch(launch), Answer::Launched(Ok(launched), now)) => {
            lemma_inserted_is_found(manager.sessions, record_of(launch, launched.handle, now));
        },
        _ => {},
    }
}

/// Whatever the answers, a session stays on its way.
pub proof fn lemma_answers_keep_the_way<H>(
    manager: ManagerModel<H>,
    next: NextModel,
    answers: Seq<Answer<H>>,
    job: SessionJobModel,
)
    requires
        on_the_way(manager, next, job),
    ensures
        on_the_way(
            carried_out(manager, next, answers).0,
            carried_out(manager, next, answers).1,
            job,
        ),
    decreases answers.len(),
{
    if answers.len() > 0 {
        lemma_answer_keeps_the_way(manager, next, answers[0], job);
        lemma_answers_keep_the_way(
            answered(manager, next, answers[0]).0,
            answered(manager, next, answers[0]).1,
            answers.drop_first(),
            job,
        );
    }
}

/// A spawn that ends in success has put its session into the table. However
/// the steps of the spawn of `id` for `request` went, if they end with the
/// report of a session, that session has the identity `id` and the geometry
/// that `request` asked for (80 by 24 where it asked for none), and a lookup
/// of `id` in the table finds it with that geometry.
pub proof fn lemma_spawned_session_is_found<H>(
    manager: ManagerModel<H>,
    id: Seq<char>,
    request: CreateSessionRequestModel,
    answers: Seq<Answer<H>>,
)
    ensures
        carried_out(manager, spawn_start(manager, id, request), answers).1 matches NextModel::Done(
            Ok(info),
        ) ==> {
            &&& info.id == id
            &&& info.cols == (match request.cols {
                Some(cols) => cols,
                None => 80u16,
            })
            &&& info.rows == (match request.rows {
                Some(rows) => rows,
                None => 24u16,
            })
            &&& session_of(
                carried_out(manager, spawn_start(manager, id, request), answers).0.sessions,
                id,
            ) matches Some(session) && info == info_of(session, info.is_alive)
        },
{
    lemma_answers_keep_the_way(
        manager,
        spawn_start(manager, id, request),
        answers,
        job_of(id, request),
    );
}

/// A new session persists only where persistence is on, and a failure on
/// the persistent path never ends a spawn: the step after a configuration
/// file that could not be had, after a backing session that could not be
/// created, and after a terminal that could not attach to it, is never the
/// end of the request; it leads to the direct terminal.
pub proof fn lemma_persistent_path_falls_back<H>(
    manager: ManagerModel<H>,
    job: SessionJobModel,
    error: TmuxErrorModel,
    run: RunModel,
    outcome: OutcomeModel,
    launch: LaunchModel,
    failure: LaunchFailureModel,
    now: Seq<char>,
)
    requires
        run.wait is Backing,
        create_result(run.job.id, outcome) is Err,
        launch.wait is Attach,
    ensures
        after_config(manager, job, Err(error)) == fall_back(manager, job),
        after_run(manager, run, outcome) == fall_back(manager, run.job),
        !(after_launch(manager, launch, Err(failure), now).1 is Done),
        after_launch(manager, launch, Err(failure), now).0 == manager.sessions,
        after_run(
            manager,
            RunModel { wait: RunWait::Cleanup, ..run },
            outcome,
        ) == fall_back(manager, run.job),
{
}

/// What the direct terminal records is never marked persistent.
pub proof fn lemma_direct_session_does_not_persist<H>(
    manager: ManagerModel<H>,
    job: SessionJobModel,
    launched: Launched<H>,
    now: Seq<char>,
)
    ensures
        fall_back(manager, job) matches NextModel::Launch(launch) && after_launch(
            manager,
            launch,
            Ok(launched),
            now,
        ).1 matches NextModel::Done(Ok(info)) && !info.is_tmux && info.cols == job.cols
            && info.rows == job.rows,
{
}

/// A reconnect to a session that the table already holds starts nothing and
/// changes nothing: it reports the session as the table holds it, whatever
/// geometry was asked for and whether persistence is on or off, so that a
/// second reconnect reports the same.
pub proof fn lemma_reconnect_is_idempotent<H>(
    manager: ManagerModel<H>,
    id: Seq<char>,
    cols: u16,
    rows: u16,
    other_cols: u16,
    other_rows: u16,
    alive: bool,
)
    requires
        has_session(manager.sessions, id),
    ensures
        reconnect_start(manager, id, cols, rows, alive) == NextModel::Done(
            Ok(info_of(manager.sessions[position_of(manager.sessions, id)], alive)),
        ),
        reconnect_start(manager, id, other_cols, other_rows, alive) == reconnect_start(
            manager,
            id,
            cols,
            rows,
            alive,
        ),
{
}

} // verus!
