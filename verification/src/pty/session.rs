//! The session manager: the table of live sessions and every operation on it.
//!
//! A [`PtySessionManager`] owns one [`PtySession`] for each live identity.
//! It opens no terminal and starts no process: whoever drives it performs
//! what a [`Next`] value asks for and reports how that went. What is decided
//! here is which strategy a new session gets, when a failed strategy falls
//! back to the other, what is recorded, and what every lookup answers.

use vstd::prelude::*;
use crate::process::{
    copy_optional_text, copy_texts, default_shell, expand_tilde, result_view, HostEnv, Invocation,
    InvocationModel, Outcome,
};
use crate::pty::error::{
    io_error, io_error_of, IoFailure, IoFailureModel, Operation, PtyError, PtyErrorModel,
    SpawnProblem,
};
use crate::pty::steps::{
    after_config, after_launch, after_run, after_sweep, attach_plan, fall_back, pending_id,
    reconnect_start, record_of, reported_time, spawn_start, using_tmux, Launch, LaunchFailure,
    LaunchPlan, LaunchStage, LaunchWait, Launched, ManagerModel, Next, Run, RunWait, SessionJob,
};
use crate::pty::table::{
    after_resize, alive_unless, distinct_ids, has_session, has_text, infos_of, is_listed, is_stale,
    lemma_filter_keeps_distinct, lemma_inserted_is_found, lemma_position_found, lemma_position_of,
    lemma_removed_is_gone, lemma_sweep_leaves_no_stale, listed_has, position_of, session_of,
    with_geometry, with_session, without_stale,
};
use crate::pty::tmux::{
    create_session_invocation, create_tmux_session, get_attach_command, has_session_invocation,
    kill_args, kill_session_invocation, list_args, list_sessions_invocation, list_wizterm_sessions,
    listed_sessions, session_exists, tmux_invocation, TmuxError, TmuxSessionInfo, TmuxSessionModel,
    TmuxSetup,
};
use crate::text::same_text;

verus! {

/// The width of a terminal for which none was asked.
pub const DEFAULT_COLS: u16 = 80;

/// The height of a terminal for which none was asked.
pub const DEFAULT_ROWS: u16 = 24;

/// What every child is told its terminal is, so that it uses colors.
pub const TERM: &'static str = "xterm-256color";

/// The command recorded for a session that a multiplexer backs.
pub const TMUX_COMMAND: &'static str = "tmux";

/// One live session: what it was started with, its geometry, and the handle
/// `H` through which its owner reaches the terminal and the child.
#[derive(Debug)]
pub struct PtySession<H> {
    pub id: String,
    pub command: String,
    pub args: Vec<String>,
    pub cwd: Option<String>,
    /// When it entered the table, as RFC 3339 text.
    pub created_at: String,
    pub handle: H,
    pub cols: u16,
    pub rows: u16,
    /// Whether a multiplexer session backs it, so that it outlives the application.
    pub is_tmux: bool,
}

/// What a [`PtySession`] holds, as text.
pub struct PtySessionModel<H> {
    pub id: Seq<char>,
    pub command: Seq<char>,
    pub args: Seq<Seq<char>>,
    pub cwd: Option<Seq<char>>,
    pub created_at: Seq<char>,
    pub handle: H,
    pub cols: u16,
    pub rows: u16,
    pub is_tmux: bool,
}

impl<H> DeepView for PtySession<H> {
    type V = PtySessionModel<H>;

    open spec fn deep_view(&self) -> PtySessionModel<H> {
        PtySessionModel {
            id: self.id@,
            command: self.command@,
            args: self.args.deep_view(),
            cwd: self.cwd.deep_view(),
            created_at: self.created_at@,
            handle: self.handle,
            cols: self.cols,
            rows: self.rows,
            is_tmux: self.is_tmux,
        }
    }
}

/// What is told about a session to whoever asks.
#[derive(Clone, Debug, PartialEq, Eq)]
pub struct PtySessionInfo {
    pub id: String,
    pub command: String,
    pub args: Vec<String>,
    pub cwd: Option<String>,
    pub created_at: String,
    pub cols: u16,
    pub rows: u16,
    /// Whether the child was running when this was written.
    pub is_alive: bool,
    pub is_tmux: bool,
}

/// What a [`PtySessionInfo`] holds, as text.
pub struct PtySessionInfoModel {
    pub id: Seq<char>,
    pub command: Seq<char>,
    pub args: Seq<Seq<char>>,
    pub cwd: Option<Seq<char>>,
    pub created_at: Seq<char>,
    pub cols: u16,
    pub rows: u16,
    pub is_alive: bool,
    pub is_tmux: bool,
}

impl DeepView for PtySessionInfo {
    type V = PtySessionInfoModel;

    open spec fn deep_view(&self) -> PtySessionInfoModel {
        PtySessionInfoModel {
            id: self.id@,
            command: self.command@,
            args: self.args.deep_view(),
            cwd: self.cwd.deep_view(),
            created_at: self.created_at@,
            cols: self.cols,
            rows: self.rows,
            is_alive: self.is_alive,
            is_tmux: self.is_tmux,
        }
    }
}

/// What a caller asks of a new session; whatever is absent gets its default.
#[derive(Clone, Debug, PartialEq, Eq)]
pub struct CreateSessionRequest {
    pub command: Option<String>,
    pub args: Option<Vec<String>>,
    pub cwd: Option<String>,
    pub cols: Option<u16>,
    pub rows: Option<u16>,
}

/// What a [`CreateSessionRequest`] holds, as text.
pub struct CreateSessionRequestModel {
    pub command: Option<Seq<char>>,
    pub args: Option<Seq<Seq<char>>>,
    pub cwd: Option<Seq<char>>,
    pub cols: Option<u16>,
    pub rows: Option<u16>,
}

impl DeepView for CreateSessionRequest {
    type V = CreateSessionRequestModel;

    open spec fn deep_view(&self) -> CreateSessionRequestModel {
        CreateSessionRequestModel {
            command: self.command.deep_view(),
            args: self.args.deep_view(),
            cwd: self.cwd.deep_view(),
            cols: self.cols,
            rows: self.rows,
        }
    }
}

/// A chunk of what a session's child printed, as the relay hands it on.
#[derive(Clone, Debug, PartialEq, Eq)]
pub struct TerminalOutput {
    pub session_id: String,
    pub data: Vec<u8>,
}

/// What a [`TerminalOutput`] holds.
pub struct TerminalOutputModel {
    pub session_id: Seq<char>,
    pub data: Seq<u8>,
}

impl DeepView for TerminalOutput {
    type V = TerminalOutputModel;

    open spec fn deep_view(&self) -> TerminalOutputModel {
        TerminalOutputModel { session_id: self.session_id@, data: self.data@ }
    }
}

/// The notice that a session's output has ended.
#[derive(Clone, Debug, PartialEq, Eq)]
pub struct TerminalExit {
    pub session_id: String,
    /// The child's exit code, where it is known.
    pub exit_code: Option<u32>,
}

/// What a [`TerminalExit`] holds.
pub struct TerminalExitModel {
    pub session_id: Seq<char>,
    pub exit_code: Option<u32>,
}

impl DeepView for TerminalExit {
    type V = TerminalExitModel;

    open spec fn deep_view(&self) -> TerminalExitModel {
        TerminalExitModel { session_id: self.session_id@, exit_code: self.exit_code }
    }
}

/// What is told about `session`, given whether its child is alive.
pub open spec fn info_of<H>(session: PtySessionModel<H>, alive: bool) -> PtySessionInfoModel {
    PtySessionInfoModel {
        id: session.id,
        command: session.command,
        args: session.args,
        cwd: session.cwd,
        created_at: session.created_at,
        cols: session.cols,
        rows: session.rows,
        is_alive: alive,
        is_tmux: session.is_tmux,
    }
}

/// What the non-blocking wait on a session's child showed.
#[derive(Clone, Copy, Debug, PartialEq, Eq)]
pub enum ChildProbe {
    /// The child has not exited.
    Running,
    /// The child has exited.
    Exited,
    /// The wait itself failed.
    WaitFailed,
    /// The lock around the child was poisoned.
    LockPoisoned,
}

/// Whether a child counts as alive: no exit was seen and its lock is sound.
/// A wait that failed has shown no exit.
pub open spec fn alive_after(probe: ChildProbe) -> bool {
    probe is Running || probe is WaitFailed
}

/// Whether the child that `probe` was made on counts as alive.
pub fn is_alive(probe: ChildProbe) -> (alive: bool)
    ensures
        alive == alive_after(probe),
{
    match probe {
        ChildProbe::Running => true,
        ChildProbe::WaitFailed => true,
        ChildProbe::Exited => false,
        ChildProbe::LockPoisoned => false,
    }
}

/// Writes down what is told about `session`; `alive` says whether its child
/// was seen running.
pub fn session_to_info<H>(session: &PtySession<H>, alive: bool) -> (info: PtySessionInfo)
    ensures
        info.deep_view() == info_of(session.deep_view(), alive),
{
    PtySessionInfo {
        id: session.id.clone(),
        command: session.command.clone(),
        args: copy_texts(&session.args),
        cwd: copy_optional_text(&session.cwd),
        created_at: session.created_at.clone(),
        cols: session.cols,
        rows: session.rows,
        is_alive: alive,
        is_tmux: session.is_tmux,
    }
}

/// What is left to do after a session was taken out of the table.
#[derive(Debug)]
pub struct KillOrder<H> {
    /// The session that left the table; its child is to be killed.
    pub session: PtySession<H>,
    /// The command that removes the backing multiplexer session, where there
    /// is one. It is to be run only once the child was killed, and its
    /// failure is to be noted, not passed on.
    pub cleanup: Option<Invocation>,
}

/// What became of a kill once the child was dealt with: the error, where
/// killing the child failed; else the cleanup that remains, if any.
pub open spec fn kill_finished(
    cleanup: Option<InvocationModel>,
    outcome: Result<(), IoFailureModel>,
) -> Result<Option<InvocationModel>, PtyErrorModel> {
    match outcome {
        Ok(_) => Ok(cleanup),
        Err(failure) => Err(io_error_of(Operation::Kill, failure)),
    }
}

impl<H> KillOrder<H> {
    /// Says what remains to be done once the child was killed, or that the
    /// kill failed. `outcome` is how killing the child went.
    pub fn finish(self, outcome: Result<(), IoFailure>) -> (rest: Result<
        Option<Invocation>,
        PtyError,
    >)
        ensures
            result_view(rest) == kill_finished(self.cleanup.deep_view(), result_view(outcome)),
    {
        match outcome {
            Ok(_) => Ok(self.cleanup),
            Err(failure) => Err(io_error(Operation::Kill, failure)),
        }
    }
}

/// A fresh session identity.
///
/// Calls `uuid::Uuid::new_v4` and writes the result as text. The identity
/// is random, so nothing is promised of it.
#[verifier::external_body]
fn new_session_id() -> (id: String) {
    uuid::Uuid::new_v4().to_string()
}

/// The current time as RFC 3339 text.
///
/// Calls `chrono::Utc::now` and `DateTime::to_rfc3339`. The result is the
/// clock's, so nothing is promised of it.
#[verifier::external_body]
fn timestamp_now() -> (now: String) {
    chrono::Utc::now().to_rfc3339()
}

/// The table of live sessions, with what is needed to create more.
pub struct PtySessionManager<H> {
    sessions: Vec<PtySession<H>>,
    setup: TmuxSetup,
    host: HostEnv,
    use_tmux: bool,
}

impl<H> View for PtySessionManager<H> {
    type V = ManagerModel<H>;

    closed spec fn view(&self) -> ManagerModel<H> {
        ManagerModel {
            sessions: self.sessions.deep_view(),
            setup: self.setup.deep_view(),
            host: self.host.deep_view(),
            use_tmux: self.use_tmux,
        }
    }
}

impl<H> PtySessionManager<H> {
    #[verifier::type_invariant]
    spec fn one_session_per_identity(self) -> bool {
        distinct_ids(self.sessions.deep_view())
    }

    /// A manager without sessions. Sessions persist by default where `setup`
    /// knows a `tmux` binary.
    pub fn new(setup: TmuxSetup, host: HostEnv) -> (manager: Self)
        ensures
            manager@.sessions == Seq::<PtySessionModel<H>>::empty(),
            manager@.setup == setup.deep_view(),
            manager@.host == host.deep_view(),
            manager@.use_tmux == (setup.deep_view().tmux_path is Some),
    {
        let use_tmux = setup.tmux_path.is_some();
        let sessions: Vec<PtySession<H>> = Vec::new();
        assert(sessions.deep_view() =~= Seq::<PtySessionModel<H>>::empty());
        PtySessionManager { sessions, setup, host, use_tmux }
    }

    /// Whether new sessions are to persist.
    pub fn is_using_tmux(&self) -> (using: bool)
        ensures
            using == using_tmux(self@),
    {
        self.setup.tmux_path.is_some() && self.use_tmux
    }

    /// Switches persistence on or off; it stays off where no `tmux` binary is known.
    pub fn set_use_tmux(&mut self, use_tmux: bool)
        ensures
            final(self)@ == (ManagerModel {
                use_tmux: use_tmux && (old(self)@.setup.tmux_path is Some),
                ..old(self)@
            }),
            distinct_ids(final(self)@.sessions),
    {
        proof {
            use_type_invariant(&*self);
        }
        self.use_tmux = use_tmux && self.setup.tmux_path.is_some();
    }

    /// How to reach the multiplexer.
    pub fn setup(&self) -> (setup: &TmuxSetup)
        ensures
            setup.deep_view() == self@.setup,
    {
        &self.setup
    }

    /// How many sessions are live.
    pub fn len(&self) -> (n: usize)
        ensures
            n == self@.sessions.len(),
            distinct_ids(self@.sessions),
    {
        proof {
            use_type_invariant(self);
        }
        self.sessions.len()
    }

    /// The position of the session with identity `session_id`, if there is one.
    fn find(&self, session_id: &str) -> (at: Option<usize>)
        ensures
            (at is Some) == has_session(self@.sessions, session_id@),
            at matches Some(i) ==> i == position_of(self@.sessions, session_id@) && i
                < self.sessions.len(),
    {
        let mut i: usize = 0;
        while i < self.sessions.len()
            invariant
                i <= self.sessions.len(),
                forall|j: int| 0 <= j < i ==> self.sessions.deep_view()[j].id != session_id@,
            decreases self.sessions.len() - i,
        {
            if same_text(&self.sessions[i].id, session_id) {
                proof {
                    assert(self.sessions.deep_view()[i as int].id == session_id@);
                    lemma_position_of(self.sessions.deep_view(), session_id@, i as int);
                }
                return Some(i);
            }
            assert(self.sessions.deep_view()[i as int].id != session_id@);
            i += 1;
        }
        proof {
            lemma_position_of(self.sessions.deep_view(), session_id@, i as int);
        }
        None
    }

    /// The sessions in the table, oldest first.
    pub fn sessions(&self) -> (sessions: &Vec<PtySession<H>>)
        ensures
            sessions.deep_view() == self@.sessions,
            distinct_ids(self@.sessions),
    {
        proof {
            use_type_invariant(self);
        }
        &self.sessions
    }

    /// The handle of the session `session_id`, where the table has it.
    pub fn handle_of(&self, session_id: &str) -> (handle: Option<&H>)
        ensures
            match handle {
                Some(h) => session_of(self@.sessions, session_id@) matches Some(session) && *h
                    == session.handle,
                None => !has_session(self@.sessions, session_id@),
            },
    {
        match self.find(session_id) {
            Some(i) => {
                assert(self.sessions.deep_view()[i as int] == self.sessions[i as int].deep_view());
                Some(&self.sessions[i].handle)
            },
            None => None,
        }
    }

    /// What is told about the session `session_id`, or nothing where the
    /// table has no such session. `alive` says whether its child was seen running.
    pub fn get_session(&self, session_id: &str, alive: bool) -> (info: Option<PtySessionInfo>)
        ensures
            info.deep_view() == match session_of(self@.sessions, session_id@) {
                Some(session) => Some(info_of(session, alive)),
                None => None,
            },
    {
        match self.find(session_id) {
            Some(i) => {
                assert(self.sessions.deep_view()[i as int] == self.sessions[i as int].deep_view());
                Some(session_to_info(&self.sessions[i], alive))
            },
            None => None,
        }
    }
    /// The handle of the session `session_id`, through which to write to
    /// its child; the error `NotFound` where the table has no such session.
    pub fn write_to_session(&self, session_id: &str) -> (handle: Result<&H, PtyError>)
        ensures
            match handle {
                Ok(h) => session_of(self@.sessions, session_id@) matches Some(session) && *h
                    == session.handle,
                Err(error) => !has_session(self@.sessions, session_id@) && error.deep_view()
                    == PtyErrorModel::NotFound(session_id@),
            },
    {
        match self.find(session_id) {
            Some(i) => {
                assert(self.sessions.deep_view()[i as int] == self.sessions[i as int].deep_view());
                Ok(&self.sessions[i].handle)
            },
            None => Err(PtyError::NotFound(session_id.to_owned())),
        }
    }

    /// Records the resize of the session `session_id` to `cols` by `rows`.
    /// `outcome` is how resizing its terminal went; it counts only where the
    /// session is there. The stored geometry changes only on success.
    pub fn resize_session(
        &mut self,
        session_id: &str,
        cols: u16,
        rows: u16,
        outcome: Result<(), IoFailure>,
    ) -> (resized: Result<(), PtyError>)
        ensures
            final(self)@ == (ManagerModel {
                sessions: after_resize(
                    old(self)@.sessions,
                    session_id@,
                    cols,
                    rows,
                    result_view(outcome),
                ).0,
                ..old(self)@
            }),
            result_view(resized) == after_resize(
                old(self)@.sessions,
                session_id@,
                cols,
                rows,
                result_view(outcome),
            ).1,
            distinct_ids(final(self)@.sessions),
    {
        proof {
            use_type_invariant(&*self);
        }
        match self.find(session_id) {
            None => Err(PtyError::NotFound(session_id.to_owned())),
            Some(i) => match outcome {
                Err(failure) => Err(io_error(Operation::Resize, failure)),
                Ok(_) => {
                    let ghost before = self.sessions.deep_view();
                    let mut sessions: Vec<PtySession<H>> = Vec::new();
                    assert(sessions.deep_view() =~= Seq::<PtySessionModel<H>>::empty());
                    std::mem::swap(&mut self.sessions, &mut sessions);
                    let mut session = sessions.remove(i);
                    assert(session.deep_view() == before[i as int]);
                    assert(sessions.deep_view() =~= before.remove(i as int));
                    session.cols = cols;
                    session.rows = rows;
                    sessions.insert(i, session);
                    assert(sessions.deep_view() =~= with_geometry(before, i as int, cols, rows));
                    self.sessions = sessions;
                    Ok(())
                },
            },
        }
    }

    /// Takes the session `session_id` out of the table, so that no lookup
    /// sees it any more, and says what is left to do: kill its child, then
    /// remove the multiplexer session behind it where there is one.
    pub fn kill_session(&mut self, session_id: &str) -> (order: Result<KillOrder<H>, PtyError>)
        ensures
            final(self)@ == (ManagerModel {
                sessions: if has_session(old(self)@.sessions, session_id@) {
                    old(self)@.sessions.remove(position_of(old(self)@.sessions, session_id@))
                } else {
                    old(self)@.sessions
                },
                ..old(self)@
            }),
            match order {
                Ok(order) => {
                    &&& session_of(old(self)@.sessions, session_id@) == Some(
                        order.session.deep_view(),
                    )
                    &&& order.cleanup.deep_view() == if order.session.is_tmux {
                        tmux_invocation(old(self)@.setup, kill_args(session_id@))
                    } else {
                        None
                    }
                },
                Err(error) => !has_session(old(self)@.sessions, session_id@) && error.deep_view()
                    == PtyErrorModel::NotFound(session_id@),
            },
            !has_session(final(self)@.sessions, session_id@),
            distinct_ids(final(self)@.sessions),
    {
        proof {
            use_type_invariant(&*self);
        }
        match self.find(session_id) {
            None => Err(PtyError::NotFound(session_id.to_owned())),
            Some(i) => {
                let ghost before = self.sessions.deep_view();
                let mut sessions: Vec<PtySession<H>> = Vec::new();
                assert(sessions.deep_view() =~= Seq::<PtySessionModel<H>>::empty());
                std::mem::swap(&mut self.sessions, &mut sessions);
                let session = sessions.remove(i);
                assert(session.deep_view() == before[i as int]);
                assert(sessions.deep_view() =~= before.remove(i as int));
                proof {
                    lemma_removed_is_gone(before, session_id@);
                }
                self.sessions = sessions;
                let cleanup = if session.is_tmux {
                    kill_session_invocation(&self.setup, session_id)
                } else {
                    None
                };
                Ok(KillOrder { session, cleanup })
            },
        }
    }
    /// The command that asks the multiplexer for its sessions; absent where
    /// persistence is off, when there is nothing to ask.
    pub fn reconnectable_query(&self) -> (query: Option<Invocation>)
        ensures
            query.deep_view() == if using_tmux(self@) {
                tmux_invocation(self@.setup, list_args())
            } else {
                None
            },
    {
        if self.is_using_tmux() {
            list_sessions_invocation(&self.setup)
        } else {
            None
        }
    }

    /// The multiplexer sessions that can be reconnected: those that the
    /// multiplexer listed in `outcome`, and none where persistence is off.
    pub fn list_reconnectable_sessions(&self, outcome: &Outcome) -> (sessions: Vec<
        TmuxSessionInfo,
    >)
        ensures
            sessions.deep_view() == if using_tmux(self@) {
                listed_sessions(outcome.deep_view())
            } else {
                Seq::empty()
            },
    {
        if self.is_using_tmux() {
            list_wizterm_sessions(outcome)
        } else {
            let none: Vec<TmuxSessionInfo> = Vec::new();
            assert(none.deep_view() =~= Seq::<TmuxSessionModel>::empty());
            none
        }
    }

    /// Takes the stale sessions out of the table.
    fn sweep(&mut self, listed: &Vec<TmuxSessionInfo>)
        ensures
            final(self)@ == (ManagerModel {
                sessions: without_stale(old(self)@.sessions, listed.deep_view()),
                ..old(self)@
            }),
    {
        proof {
            use_type_invariant(&*self);
        }
        let ghost before = self.sessions.deep_view();
        let ghost keep = |session: PtySessionModel<H>| !is_stale(session, listed.deep_view());
        let mut sessions: Vec<PtySession<H>> = Vec::new();
        assert(sessions.deep_view() =~= Seq::<PtySessionModel<H>>::empty());
        std::mem::swap(&mut self.sessions, &mut sessions);
        let mut i: usize = 0;
        let ghost mut seen: int = 0;
        proof {
            reveal(Seq::filter);
            assert(before.take(0) =~= Seq::<PtySessionModel<H>>::empty());
            assert(before.take(0).filter(keep) + before.skip(0) =~= before);
        }
        while i < sessions.len()
            invariant
                0 <= seen <= before.len(),
                keep == |session: PtySessionModel<H>| !is_stale(session, listed.deep_view()),
                i == before.take(seen).filter(keep).len(),
                sessions.deep_view() == before.take(seen).filter(keep) + before.skip(seen),
            decreases before.len() - seen,
        {
            let ghost kept = before.take(seen).filter(keep);
            proof {
                assert(sessions.deep_view().len() == kept.len() + before.skip(seen).len());
                assert(sessions.deep_view()[i as int] == before.skip(seen)[0]);
                assert(sessions.deep_view()[i as int] == sessions[i as int].deep_view());
                reveal(Seq::filter);
                assert(before.take(seen + 1).drop_last() =~= before.take(seen));
                assert(before.take(seen + 1).last() == before[seen]);
            }
            if sessions[i].is_tmux && !listed_has(listed, &sessions[i].id) {
                let ghost current = sessions.deep_view();
                sessions.remove(i);
                assert(sessions.deep_view() =~= current.remove(i as int));
                assert(current.remove(i as int) =~= kept + before.skip(seen + 1));
            } else {
                assert(kept.push(before[seen]) + before.skip(seen + 1) =~= kept + before.skip(
                    seen,
                ));
                i += 1;
            }
            proof {
                seen = seen + 1;
            }
        }
        proof {
            assert(before.take(seen).filter(keep).len() + before.skip(seen).len() == i);
            assert(before.take(seen) =~= before);
            assert(sessions.deep_view() =~= before.filter(keep));
            lemma_filter_keeps_distinct(before, keep);
        }
        self.sessions = sessions;
    }

    /// What is told about every session in the table, oldest first.
    fn describe_all(&self, exited: &Vec<String>) -> (infos: Vec<PtySessionInfo>)
        ensures
            infos.deep_view() == infos_of(self@.sessions, exited.deep_view()),
    {
        let mut infos: Vec<PtySessionInfo> = Vec::new();
        let mut i: usize = 0;
        while i < self.sessions.len()
            invariant
                i <= self.sessions.len(),
                infos.len() == i,
                forall|j: int|
                    0 <= j < i ==> (#[trigger] infos[j]).deep_view() == info_of(
                        self.sessions.deep_view()[j],
                        alive_unless(exited.deep_view(), self.sessions.deep_view()[j].id),
                    ),
            decreases self.sessions.len() - i,
        {
            let alive = !has_text(exited, &self.sessions[i].id);
            assert(self.sessions.deep_view()[i as int] == self.sessions[i as int].deep_view());
            infos.push(session_to_info(&self.sessions[i], alive));
            i += 1;
        }
        assert(infos.deep_view() =~= infos_of(self@.sessions, exited.deep_view()));
        infos
    }

    /// Lists the sessions. Where persistence is on, the table is first rid
    /// of its stale sessions: those marked persistent whose backing session
    /// the multiplexer, as `outcome` of [`Self::reconnectable_query`] shows,
    /// no longer has. A child counts as alive unless `exited` names its session.
    pub fn list_sessions(&mut self, outcome: &Outcome, exited: &Vec<String>) -> (infos: Vec<
        PtySessionInfo,
    >)
        ensures
            final(self)@ == (ManagerModel {
                sessions: after_sweep(old(self)@, outcome.deep_view()),
                ..old(self)@
            }),
            infos.deep_view() == infos_of(final(self)@.sessions, exited.deep_view()),
            using_tmux(old(self)@) ==> forall|i: int|
                0 <= i < infos.len() && (#[trigger] infos.deep_view()[i]).is_tmux ==> is_listed(
                    listed_sessions(outcome.deep_view()),
                    infos.deep_view()[i].id,
                ),
            distinct_ids(final(self)@.sessions),
    {
        let ghost before = self@;
        if self.is_using_tmux() {
            let listed = list_wizterm_sessions(outcome);
            self.sweep(&listed);
        }
        proof {
            use_type_invariant(&*self);
        }
        let infos = self.describe_all(exited);
        proof {
            if using_tmux(before) {
                let listed = listed_sessions(outcome.deep_view());
                assert forall|i: int|
                    0 <= i < infos.len() && (#[trigger] infos.deep_view()[i]).is_tmux implies is_listed(
                    listed,
                    infos.deep_view()[i].id,
                ) by {
                    assert(self@.sessions == without_stale(before.sessions, listed));
                    assert(infos.deep_view().len() == self@.sessions.len());
                    assert(infos.deep_view()[i] == info_of(
                        self@.sessions[i],
                        alive_unless(exited.deep_view(), self@.sessions[i].id),
                    ));
                    lemma_sweep_leaves_no_stale(before.sessions, listed, i);
                }
            }
        }
        infos
    }

    /// The direct terminal for `job`.
    fn direct_launch(&self, job: SessionJob) -> (next: Next)
        ensures
            next.deep_view() == fall_back(self@, job.deep_view()),
    {
        let program = match &job.command {
            Some(command) => command.clone(),
            None => default_shell(&self.host),
        };
        let args = match &job.args {
            Some(args) => copy_texts(args),
            None => {
                let none: Vec<String> = Vec::new();
                assert(none.deep_view() =~= Seq::<Seq<char>>::empty());
                none
            },
        };
        let cwd = match &job.cwd {
            Some(dir) => Some(expand_tilde(dir, &self.host.home)),
            None => copy_optional_text(&self.host.home),
        };
        let plan = LaunchPlan {
            program,
            args,
            cwd,
            term: TERM.to_owned(),
            cols: job.cols,
            rows: job.rows,
        };
        Next::Launch(Launch { plan, wait: LaunchWait::Direct, job })
    }

    /// The terminal that attaches to the backing session of `job`.
    fn attach_launch(&self, job: &SessionJob) -> (plan: Option<LaunchPlan>)
        ensures
            plan.deep_view() == attach_plan(self@.setup, job.deep_view()),
    {
        match get_attach_command(&self.setup, &job.id) {
            Some((program, args)) => Some(
                LaunchPlan {
                    program,
                    args,
                    cwd: None,
                    term: TERM.to_owned(),
                    cols: job.cols,
                    rows: job.rows,
                },
            ),
            None => None,
        }
    }

    /// Starts the spawn of the session `id` that `request` asks for.
    pub fn spawn_session_as(&self, id: String, request: CreateSessionRequest) -> (next: Next)
        ensures
            next.deep_view() == spawn_start(self@, id@, request.deep_view()),
    {
        let job = SessionJob {
            id,
            command: request.command,
            args: request.args,
            cwd: request.cwd,
            cols: match request.cols {
                Some(cols) => cols,
                None => DEFAULT_COLS,
            },
            rows: match request.rows {
                Some(rows) => rows,
                None => DEFAULT_ROWS,
            },
        };
        if self.is_using_tmux() {
            Next::EnsureConfig(job)
        } else {
            self.direct_launch(job)
        }
    }

    /// Starts the spawn of a new session, under a fresh identity, that
    /// `request` asks for. The result is that of [`Self::spawn_session_as`]
    /// for the identity that the pending session carries.
    pub fn spawn_session(&self, request: CreateSessionRequest) -> (next: Next)
        ensures
            next.deep_view() == spawn_start(
                self@,
                pending_id(next.deep_view()),
                request.deep_view(),
            ),
    {
        let id = new_session_id();
        self.spawn_session_as(id, request)
    }

    /// Goes on after the configuration file was seen to; `result` says
    /// whether it is in place.
    pub fn config_done(&self, job: SessionJob, result: Result<(), TmuxError>) -> (next: Next)
        ensures
            next.deep_view() == after_config(self@, job.deep_view(), result_view(result)),
    {
        match result {
            Ok(_) => {
                let cwd: Option<&str> = match &job.cwd {
                    Some(dir) => Some(dir.as_str()),
                    None => None,
                };
                match create_session_invocation(&self.setup, &self.host, &job.id, cwd) {
                    Some(invocation) => Next::Run(
                        Run { invocation, wait: RunWait::Backing, job },
                    ),
                    None => self.direct_launch(job),
                }
            },
            Err(_) => self.direct_launch(job),
        }
    }

    /// Goes on after the command of `run` ended in `outcome`.
    pub fn run_done(&self, run: Run, outcome: &Outcome) -> (next: Next)
        ensures
            next.deep_view() == after_run(self@, run.deep_view(), outcome.deep_view()),
    {
        let job = run.job;
        match run.wait {
            RunWait::Backing => match create_tmux_session(&job.id, outcome) {
                Ok(_) => match self.attach_launch(&job) {
                    Some(plan) => Next::Launch(Launch { plan, wait: LaunchWait::Attach, job }),
                    None => self.direct_launch(job),
                },
                Err(_) => self.direct_launch(job),
            },
            RunWait::Cleanup => self.direct_launch(job),
            RunWait::Probe => {
                if session_exists(outcome) {
                    match self.attach_launch(&job) {
                        Some(plan) => Next::Launch(
                            Launch { plan, wait: LaunchWait::Reattach, job },
                        ),
                        None => Next::Done(Err(PtyError::ExternalToolFailed(TmuxError::NotFound))),
                    }
                } else {
                    Next::Done(
                        Err(PtyError::ExternalToolFailed(TmuxError::SessionMissing(job.id))),
                    )
                }
            },
        }
    }

    /// Puts `session` into the table, in the place of the session of the
    /// same identity where there is one.
    fn insert(&mut self, session: PtySession<H>)
        ensures
            final(self)@ == (ManagerModel {
                sessions: with_session(old(self)@.sessions, session.deep_view()),
                ..old(self)@
            }),
    {
        proof {
            use_type_invariant(&*self);
            lemma_position_found(self.sessions.deep_view(), session.id@);
        }
        let ghost before = self.sessions.deep_view();
        let found = self.find(&session.id);
        let mut sessions: Vec<PtySession<H>> = Vec::new();
        assert(sessions.deep_view() =~= Seq::<PtySessionModel<H>>::empty());
        std::mem::swap(&mut self.sessions, &mut sessions);
        match found {
            Some(i) => {
                sessions.remove(i);
                assert(sessions.deep_view() =~= before.remove(i as int));
                sessions.insert(i, session);
                assert(sessions.deep_view() =~= before.update(i as int, session.deep_view()));
            },
            None => {
                sessions.push(session);
                assert(sessions.deep_view() =~= before.push(session.deep_view()));
            },
        }
        self.sessions = sessions;
    }

    /// Goes on after the attempt to bring up the terminal of `launch`, at
    /// the time `now`.
    pub fn launch_done_at(
        &mut self,
        launch: Launch,
        result: Result<Launched<H>, LaunchFailure>,
        now: String,
    ) -> (next: Next)
        ensures
            final(self)@ == (ManagerModel {
                sessions: after_launch(
                    old(self)@,
                    launch.deep_view(),
                    result_view(result),
                    now@,
                ).0,
                ..old(self)@
            }),
            next.deep_view() == after_launch(
                old(self)@,
                launch.deep_view(),
                result_view(result),
                now@,
            ).1,
            result matches Ok(launched) ==> session_of(final(self)@.sessions, launch.job.id@)
                == Some(record_of(launch.deep_view(), launched.handle, now@)),
            distinct_ids(final(self)@.sessions),
    {
        proof {
            if result is Ok {
                lemma_inserted_is_found(
                    self@.sessions,
                    record_of(launch.deep_view(), result->Ok_0.handle, now@),
                );
            }
        }
        let wait = launch.wait;
        let job = launch.job;
        let plan = launch.plan;
        let next = match result {
            Ok(launched) => {
                let direct = match wait {
                    LaunchWait::Direct => true,
                    _ => false,
                };
                let session = PtySession {
                    id: job.id,
                    command: if direct {
                        plan.program
                    } else {
                        TMUX_COMMAND.to_owned()
                    },
                    args: plan.args,
                    cwd: match wait {
                        LaunchWait::Reattach => None,
                        _ => job.cwd,
                    },
                    created_at: now,
                    handle: launched.handle,
                    cols: job.cols,
                    rows: job.rows,
                    is_tmux: !direct,
                };
                let info = session_to_info(&session, launched.alive);
                self.insert(session);
                Next::Done(Ok(info))
            },
            Err(failure) => match wait {
                LaunchWait::Attach => match failure.stage {
                    LaunchStage::Spawn => match kill_session_invocation(&self.setup, &job.id) {
                        Some(invocation) => Next::Run(
                            Run { invocation, wait: RunWait::Cleanup, job },
                        ),
                        None => self.direct_launch(job),
                    },
                    _ => self.direct_launch(job),
                },
                _ => {
                    let problem = match failure.stage {
                        LaunchStage::OpenPty => SpawnProblem::OpenPty,
                        LaunchStage::Spawn => match wait {
                            LaunchWait::Direct => SpawnProblem::SpawnCommand,
                            _ => SpawnProblem::AttachSession,
                        },
                        LaunchStage::CloneReader => SpawnProblem::CloneReader,
                        LaunchStage::TakeWriter => SpawnProblem::TakeWriter,
                    };
                    Next::Done(Err(PtyError::SpawnFailed(problem, failure.detail)))
                },
            },
        };
        proof {
            use_type_invariant(&*self);
        }
        next
    }

    /// Goes on after the attempt to bring up the terminal of `launch`. The
    /// result is that of [`Self::launch_done_at`] for the time of creation
    /// that the reported session carries.
    pub fn launch_done(&mut self, launch: Launch, result: Result<Launched<H>, LaunchFailure>) -> (next:
        Next)
        ensures
            final(self)@ == (ManagerModel {
                sessions: after_launch(
                    old(self)@,
                    launch.deep_view(),
                    result_view(result),
                    reported_time(next.deep_view()),
                ).0,
                ..old(self)@
            }),
            next.deep_view() == after_launch(
                old(self)@,
                launch.deep_view(),
                result_view(result),
                reported_time(next.deep_view()),
            ).1,
            distinct_ids(final(self)@.sessions),
    {
        let now = timestamp_now();
        self.launch_done_at(launch, result, now)
    }

    /// Starts the reconnect to the persistent session `session_id` with a
    /// terminal of `cols` by `rows`. Where the table already holds that
    /// session, it is told about as it is (`alive` says whether its child was
    /// seen running) and nothing is started, whether persistence is on or
    /// not. For a session that the table does not hold, persistence must be on.
    pub fn reconnect_session(&self, session_id: String, cols: u16, rows: u16, alive: bool) -> (next:
        Next)
        ensures
            next.deep_view() == reconnect_start(self@, session_id@, cols, rows, alive),
    {
        match self.find(&session_id) {
            Some(i) => {
                assert(self.sessions.deep_view()[i as int] == self.sessions[i as int].deep_view());
                Next::Done(Ok(session_to_info(&self.sessions[i], alive)))
            },
            None => if !self.is_using_tmux() {
                Next::Done(Err(PtyError::ExternalToolFailed(TmuxError::Disabled)))
            } else {
                match has_session_invocation(&self.setup, &session_id) {
                    Some(invocation) => Next::Run(
                        Run {
                            invocation,
                            wait: RunWait::Probe,
                            job: SessionJob {
                                id: session_id,
                                command: None,
                                args: None,
                                cwd: None,
                                cols,
                                rows,
                            },
                        },
                    ),
                    None => Next::Done(
                        Err(PtyError::ExternalToolFailed(TmuxError::SessionMissing(session_id))),
                    ),
                }
            },
        }
    }
}

} // verus!
