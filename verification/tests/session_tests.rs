use wiz_term::process::{CommandOutput, HostEnv, Invocation, Outcome};
use wiz_term::pty::error::{io_error, IoFailure, Operation, PtyError, SpawnProblem};
use wiz_term::pty::session::{
    is_alive, session_to_info, ChildProbe, CreateSessionRequest, PtySession, PtySessionInfo,
    PtySessionManager, DEFAULT_COLS, DEFAULT_ROWS, TERM, TMUX_COMMAND,
};
use wiz_term::pty::steps::{
    Launch, LaunchFailure, LaunchPlan, LaunchStage, LaunchWait, Launched, Next, Run, RunWait,
    SessionJob,
};
use wiz_term::pty::table::{has_text, listed_has};
use wiz_term::pty::tmux::{TmuxError, TmuxSessionInfo, TmuxSetup};

const NOW: &str = "2024-05-01T10:00:00+00:00";

fn texts(items: &[&str]) -> Vec<String> {
    items.iter().map(|s| s.to_string()).collect()
}

fn tmux_setup() -> TmuxSetup {
    TmuxSetup {
        tmux_path: Some("/usr/bin/tmux".to_string()),
        config_path: "/data/wiz-term/tmux.conf".to_string(),
    }
}

fn bare_setup() -> TmuxSetup {
    TmuxSetup { tmux_path: None, config_path: "/data/wiz-term/tmux.conf".to_string() }
}

fn ada() -> HostEnv {
    HostEnv {
        shell: Some("/bin/fish".to_string()),
        home: Some("/home/ada".to_string()),
        user: Some("ada".to_string()),
    }
}

fn plain_manager() -> PtySessionManager<u32> {
    PtySessionManager::new(bare_setup(), ada())
}

fn persistent_manager() -> PtySessionManager<u32> {
    PtySessionManager::new(tmux_setup(), ada())
}

fn empty_request() -> CreateSessionRequest {
    CreateSessionRequest { command: None, args: None, cwd: None, cols: None, rows: None }
}

fn sized_request(cols: u16, rows: u16) -> CreateSessionRequest {
    CreateSessionRequest { command: None, args: None, cwd: None, cols: Some(cols), rows: Some(rows) }
}

fn exited_ok(success: bool, stdout: &str, stderr: &str) -> Outcome {
    Outcome::Finished(CommandOutput {
        success,
        stdout: stdout.as_bytes().to_vec(),
        stderr: stderr.as_bytes().to_vec(),
    })
}

fn up(handle: u32) -> Result<Launched<u32>, LaunchFailure> {
    Ok(Launched { handle, alive: true })
}

fn down(stage: LaunchStage, detail: &str) -> Result<Launched<u32>, LaunchFailure> {
    Err(LaunchFailure { stage, detail: detail.to_string() })
}

fn expect_launch(next: Next) -> Launch {
    match next {
        Next::Launch(launch) => launch,
        other => panic!("expected a launch, got {:?}", other),
    }
}

fn expect_run(next: Next) -> Run {
    match next {
        Next::Run(run) => run,
        other => panic!("expected a run, got {:?}", other),
    }
}

fn expect_config(next: Next) -> SessionJob {
    match next {
        Next::EnsureConfig(job) => job,
        other => panic!("expected the configuration step, got {:?}", other),
    }
}

fn expect_info(next: Next) -> PtySessionInfo {
    match next {
        Next::Done(Ok(info)) => info,
        other => panic!("expected a session, got {:?}", other),
    }
}

fn expect_error(next: Next) -> PtyError {
    match next {
        Next::Done(Err(error)) => error,
        other => panic!("expected an error, got {:?}", other),
    }
}

fn spawn_direct(manager: &mut PtySessionManager<u32>, id: &str, handle: u32) -> PtySessionInfo {
    let launch = expect_launch(manager.spawn_session_as(id.to_string(), empty_request()));
    expect_info(manager.launch_done_at(launch, up(handle), NOW.to_string()))
}

fn spawn_persistent(manager: &mut PtySessionManager<u32>, id: &str, handle: u32) -> PtySessionInfo {
    let job = expect_config(manager.spawn_session_as(id.to_string(), empty_request()));
    let run = expect_run(manager.config_done(job, Ok(())));
    let launch = expect_launch(manager.run_done(run, &exited_ok(true, "", "")));
    expect_info(manager.launch_done_at(launch, up(handle), NOW.to_string()))
}

fn listing(ids: &[&str]) -> Outcome {
    let mut text = String::new();
    for id in ids {
        text.push_str(&format!("wizterm-{}:1700000000:1\n", id));
    }
    exited_ok(true, &text, "")
}

#[test]
fn new_manager_persists_where_tmux_is_known() {
    assert!(persistent_manager().is_using_tmux());
    assert!(!plain_manager().is_using_tmux());
    assert_eq!(plain_manager().len(), 0);
    assert_eq!(persistent_manager().setup(), &tmux_setup());
}

#[test]
fn persistence_can_be_switched_off_but_not_conjured() {
    let mut manager = persistent_manager();
    manager.set_use_tmux(false);
    assert!(!manager.is_using_tmux());
    manager.set_use_tmux(true);
    assert!(manager.is_using_tmux());
    let mut plain = plain_manager();
    plain.set_use_tmux(true);
    assert!(!plain.is_using_tmux());
}

#[test]
fn spawn_without_multiplexer_uses_the_given_geometry_and_default_shell() {
    let mut manager = plain_manager();
    let next = manager.spawn_session_as("s1".to_string(), sized_request(100, 40));
    let launch = expect_launch(next);
    assert_eq!(launch.wait, LaunchWait::Direct);
    assert_eq!(
        launch.plan,
        LaunchPlan {
            program: "/bin/fish".to_string(),
            args: Vec::new(),
            cwd: Some("/home/ada".to_string()),
            term: "xterm-256color".to_string(),
            cols: 100,
            rows: 40,
        }
    );
    let info = expect_info(manager.launch_done_at(launch, up(7), NOW.to_string()));
    assert_eq!(
        info,
        PtySessionInfo {
            id: "s1".to_string(),
            command: "/bin/fish".to_string(),
            args: Vec::new(),
            cwd: None,
            created_at: NOW.to_string(),
            cols: 100,
            rows: 40,
            is_alive: true,
            is_tmux: false,
        }
    );
    assert_eq!(manager.get_session("s1", true), Some(info));
}

#[test]
fn spawn_without_shell_falls_back_to_the_minimal_shell() {
    let host = HostEnv { shell: None, home: None, user: None };
    let manager: PtySessionManager<u32> = PtySessionManager::new(bare_setup(), host);
    let launch = expect_launch(manager.spawn_session_as("s1".to_string(), empty_request()));
    assert_eq!(launch.plan.program, "/bin/sh");
    assert_eq!(launch.plan.cwd, None);
    assert_eq!((launch.plan.cols, launch.plan.rows), (80, 24));
    assert_eq!((DEFAULT_COLS, DEFAULT_ROWS), (80, 24));
    assert_eq!(TERM, "xterm-256color");
}

#[test]
fn spawn_runs_the_requested_command_in_the_expanded_directory() {
    let mut manager = plain_manager();
    let request = CreateSessionRequest {
        command: Some("/usr/bin/htop".to_string()),
        args: Some(texts(&["-d", "5"])),
        cwd: Some("~/src".to_string()),
        cols: None,
        rows: Some(50),
    };
    let launch = expect_launch(manager.spawn_session_as("s2".to_string(), request));
    assert_eq!(launch.plan.program, "/usr/bin/htop");
    assert_eq!(launch.plan.args, texts(&["-d", "5"]));
    assert_eq!(launch.plan.cwd, Some("/home/ada/src".to_string()));
    assert_eq!((launch.plan.cols, launch.plan.rows), (80, 50));
    let info = expect_info(manager.launch_done_at(launch, up(1), NOW.to_string()));
    assert_eq!(info.command, "/usr/bin/htop");
    assert_eq!(info.args, texts(&["-d", "5"]));
    assert_eq!(info.cwd, Some("~/src".to_string()));
    assert_eq!((info.cols, info.rows), (80, 50));
}

#[test]
fn spawned_session_is_found_with_its_geometry() {
    let mut manager = plain_manager();
    let launch = expect_launch(manager.spawn_session_as("s1".to_string(), empty_request()));
    let info = expect_info(manager.launch_done_at(launch, up(3), NOW.to_string()));
    let found = manager.get_session("s1", true).unwrap();
    assert!(found.is_alive);
    assert_eq!((found.cols, found.rows), (80, 24));
    assert_eq!(found, info);
    assert_eq!(manager.get_session("s1", false).unwrap().is_alive, false);
    assert_eq!(manager.get_session("other", true), None);
    assert_eq!(manager.len(), 1);
}

#[test]
fn fresh_identities_differ_and_reach_the_table() {
    let mut manager = plain_manager();
    let first = expect_launch(manager.spawn_session(empty_request()));
    let second = expect_launch(manager.spawn_session(empty_request()));
    assert_ne!(first.job.id, second.job.id);
    assert_eq!(first.job.id.len(), 36);
    let id = first.job.id.clone();
    let info = expect_info(manager.launch_done(first, up(1)));
    assert_eq!(info.id, id);
    assert!(info.created_at.contains('T'));
    assert_eq!(manager.get_session(&id, true), Some(info));
}

#[test]
fn persistent_spawn_goes_through_config_backing_and_attach() {
    let mut manager = persistent_manager();
    let request = CreateSessionRequest {
        command: Some("ignored-on-this-path".to_string()),
        args: None,
        cwd: Some("~/w".to_string()),
        cols: Some(120),
        rows: Some(30),
    };
    let job = expect_config(manager.spawn_session_as("alpha".to_string(), request));
    assert_eq!((job.cols, job.rows), (120, 30));
    let run = expect_run(manager.config_done(job, Ok(())));
    assert_eq!(run.wait, RunWait::Backing);
    assert_eq!(
        run.invocation,
        Invocation {
            program: "/usr/bin/tmux".to_string(),
            args: texts(&[
                "-L",
                "wizterm",
                "-f",
                "/data/wiz-term/tmux.conf",
                "new-session",
                "-d",
                "-s",
                "wizterm-alpha",
                "-c",
                "/home/ada/w",
                "/bin/fish"
            ]),
        }
    );
    let launch = expect_launch(manager.run_done(run, &exited_ok(true, "", "")));
    assert_eq!(launch.wait, LaunchWait::Attach);
    let attach_args = texts(&[
        "-L",
        "wizterm",
        "-f",
        "/data/wiz-term/tmux.conf",
        "attach-session",
        "-t",
        "wizterm-alpha",
    ]);
    assert_eq!(
        launch.plan,
        LaunchPlan {
            program: "/usr/bin/tmux".to_string(),
            args: attach_args.clone(),
            cwd: None,
            term: "xterm-256color".to_string(),
            cols: 120,
            rows: 30,
        }
    );
    let info = expect_info(manager.launch_done_at(launch, up(9), NOW.to_string()));
    assert_eq!(TMUX_COMMAND, "tmux");
    assert_eq!(
        info,
        PtySessionInfo {
            id: "alpha".to_string(),
            command: "tmux".to_string(),
            args: attach_args,
            cwd: Some("~/w".to_string()),
            created_at: NOW.to_string(),
            cols: 120,
            rows: 30,
            is_alive: true,
            is_tmux: true,
        }
    );
}

#[test]
fn failed_multiplexer_session_falls_back_to_direct_spawn() {
    let mut manager = persistent_manager();
    let request = CreateSessionRequest {
        command: None,
        args: None,
        cwd: Some("/no/such/dir".to_string()),
        cols: None,
        rows: None,
    };
    let job = expect_config(manager.spawn_session_as("f1".to_string(), request));
    let run = expect_run(manager.config_done(job, Ok(())));
    let failed = exited_ok(false, "", "can't find directory /no/such/dir");
    let launch = expect_launch(manager.run_done(run, &failed));
    assert_eq!(launch.wait, LaunchWait::Direct);
    assert_eq!(launch.plan.program, "/bin/fish");
    assert_eq!(launch.plan.cwd, Some("/no/such/dir".to_string()));
    let info = expect_info(manager.launch_done_at(launch, up(4), NOW.to_string()));
    assert!(!info.is_tmux);
    assert_eq!(info.command, "/bin/fish");
    assert_eq!(manager.get_session("f1", true), Some(info));
}

#[test]
fn unwritable_config_falls_back_to_direct_spawn() {
    let manager = persistent_manager();
    let job = expect_config(manager.spawn_session_as("f2".to_string(), empty_request()));
    let denied = Err(TmuxError::ConfigDirFailed("permission denied".to_string()));
    let launch = expect_launch(manager.config_done(job, denied));
    assert_eq!(launch.wait, LaunchWait::Direct);
}

#[test]
fn failed_attach_removes_the_backing_session_then_falls_back() {
    let mut manager = persistent_manager();
    let job = expect_config(manager.spawn_session_as("f3".to_string(), empty_request()));
    let run = expect_run(manager.config_done(job, Ok(())));
    let launch = expect_launch(manager.run_done(run, &exited_ok(true, "", "")));
    let cleanup = expect_run(manager.launch_done_at(
        launch,
        down(LaunchStage::Spawn, "exec failed"),
        NOW.to_string(),
    ));
    assert_eq!(cleanup.wait, RunWait::Cleanup);
    assert_eq!(
        cleanup.invocation.args,
        texts(&["-L", "wizterm", "kill-session", "-t", "wizterm-f3"])
    );
    assert_eq!(manager.len(), 0);
    let launch = expect_launch(manager.run_done(cleanup, &exited_ok(false, "", "whatever")));
    assert_eq!(launch.wait, LaunchWait::Direct);
    let info = expect_info(manager.launch_done_at(launch, up(2), NOW.to_string()));
    assert!(!info.is_tmux);
}

#[test]
fn other_attach_failures_fall_back_without_cleanup() {
    for stage in [LaunchStage::OpenPty, LaunchStage::CloneReader, LaunchStage::TakeWriter] {
        let mut manager = persistent_manager();
        let job = expect_config(manager.spawn_session_as("f4".to_string(), empty_request()));
        let run = expect_run(manager.config_done(job, Ok(())));
        let launch = expect_launch(manager.run_done(run, &exited_ok(true, "", "")));
        let next = manager.launch_done_at(launch, down(stage, "x"), NOW.to_string());
        assert_eq!(expect_launch(next).wait, LaunchWait::Direct);
    }
}

#[test]
fn failed_direct_spawn_is_the_error_of_the_request() {
    let cases = [
        (LaunchStage::OpenPty, SpawnProblem::OpenPty, "Failed to open PTY: boom"),
        (LaunchStage::Spawn, SpawnProblem::SpawnCommand, "Failed to spawn command: boom"),
        (LaunchStage::CloneReader, SpawnProblem::CloneReader, "Failed to clone reader: boom"),
        (LaunchStage::TakeWriter, SpawnProblem::TakeWriter, "Failed to take writer: boom"),
    ];
    for (stage, problem, sentence) in cases {
        let mut manager = plain_manager();
        let launch = expect_launch(manager.spawn_session_as("e1".to_string(), empty_request()));
        let error = expect_error(manager.launch_done_at(launch, down(stage, "boom"), NOW.to_string()));
        assert_eq!(error, PtyError::SpawnFailed(problem, "boom".to_string()));
        assert_eq!(error.message(), sentence);
        assert_eq!(manager.len(), 0);
        assert_eq!(manager.get_session("e1", true), None);
    }
}

#[test]
fn a_session_of_the_same_identity_is_replaced() {
    let mut manager = plain_manager();
    spawn_direct(&mut manager, "a", 1);
    spawn_direct(&mut manager, "b", 2);
    let launch = expect_launch(manager.spawn_session_as("a".to_string(), sized_request(90, 20)));
    expect_info(manager.launch_done_at(launch, up(3), NOW.to_string()));
    assert_eq!(manager.len(), 2);
    assert_eq!(manager.write_to_session("a"), Ok(&3));
    assert_eq!(manager.get_session("a", true).unwrap().cols, 90);
    let listed = manager.list_sessions(&Outcome::Unavailable, &Vec::new());
    assert_eq!(listed.iter().map(|i| i.id.as_str()).collect::<Vec<_>>(), vec!["a", "b"]);
}

#[test]
fn write_reaches_the_handle_of_a_live_session() {
    let mut manager = plain_manager();
    spawn_direct(&mut manager, "a", 11);
    spawn_direct(&mut manager, "b", 22);
    assert_eq!(manager.write_to_session("a"), Ok(&11));
    assert_eq!(manager.write_to_session("b"), Ok(&22));
    let missing = manager.write_to_session("c").unwrap_err();
    assert_eq!(missing, PtyError::NotFound("c".to_string()));
    assert_eq!(missing.message(), "Session not found: c");
}

#[test]
fn resize_of_unknown_identity_is_not_found_and_changes_nothing() {
    let mut manager = plain_manager();
    spawn_direct(&mut manager, "a", 1);
    let before = manager.list_sessions(&Outcome::Unavailable, &Vec::new());
    let result = manager.resize_session("unknown-identity", 10, 10, Ok(()));
    assert_eq!(result, Err(PtyError::NotFound("unknown-identity".to_string())));
    assert_eq!(result.unwrap_err().message(), "Session not found: unknown-identity");
    assert_eq!(manager.list_sessions(&Outcome::Unavailable, &Vec::new()), before);
    assert_eq!(manager.len(), 1);
}

#[test]
fn resize_updates_only_the_geometry_of_its_session() {
    let mut manager = plain_manager();
    let a = spawn_direct(&mut manager, "a", 1);
    let b = spawn_direct(&mut manager, "b", 2);
    assert_eq!(manager.resize_session("a", 132, 43, Ok(())), Ok(()));
    let resized = PtySessionInfo { cols: 132, rows: 43, ..a };
    assert_eq!(manager.get_session("a", true), Some(resized));
    assert_eq!(manager.get_session("b", true), Some(b));
}

#[test]
fn failed_resize_keeps_the_stored_geometry() {
    let mut manager = plain_manager();
    let a = spawn_direct(&mut manager, "a", 1);
    let io = manager.resize_session("a", 1, 1, Err(IoFailure::Io("EBADF".to_string())));
    assert_eq!(io, Err(PtyError::IoFailed(Operation::Resize, "EBADF".to_string())));
    assert_eq!(io.unwrap_err().message(), "Failed to resize PTY: EBADF");
    let lock = manager.resize_session("a", 1, 1, Err(IoFailure::Lock("poisoned".to_string())));
    assert_eq!(lock, Err(PtyError::LockFailed(Operation::Resize, "poisoned".to_string())));
    assert_eq!(lock.unwrap_err().message(), "Failed to lock master: poisoned");
    assert_eq!(manager.get_session("a", true), Some(a));
}

#[test]
fn killed_session_is_gone_for_lookup_and_write() {
    let mut manager = plain_manager();
    spawn_direct(&mut manager, "a", 1);
    let b = spawn_direct(&mut manager, "b", 2);
    let order = manager.kill_session("a").unwrap();
    assert_eq!(order.session.id, "a");
    assert_eq!(order.session.handle, 1);
    assert_eq!(order.cleanup, None);
    assert_eq!(order.finish(Ok(())), Ok(None));
    assert_eq!(manager.get_session("a", true), None);
    assert_eq!(manager.write_to_session("a"), Err(PtyError::NotFound("a".to_string())));
    assert_eq!(manager.kill_session("a").unwrap_err(), PtyError::NotFound("a".to_string()));
    assert_eq!(manager.get_session("b", true), Some(b));
    assert_eq!(manager.len(), 1);
}

#[test]
fn killing_a_persistent_session_orders_the_removal_of_its_backing() {
    let mut manager = persistent_manager();
    spawn_persistent(&mut manager, "p", 5);
    let order = manager.kill_session("p").unwrap();
    assert!(order.session.is_tmux);
    let expected = Invocation {
        program: "/usr/bin/tmux".to_string(),
        args: texts(&["-L", "wizterm", "kill-session", "-t", "wizterm-p"]),
    };
    assert_eq!(order.cleanup, Some(expected.clone()));
    assert_eq!(order.finish(Ok(())), Ok(Some(expected)));
    assert_eq!(manager.get_session("p", true), None);
}

#[test]
fn a_child_that_cannot_be_killed_is_the_error_and_the_entry_stays_removed() {
    let mut manager = persistent_manager();
    spawn_persistent(&mut manager, "p", 5);
    let order = manager.kill_session("p").unwrap();
    let failed = order.finish(Err(IoFailure::Io("ESRCH".to_string())));
    assert_eq!(failed, Err(PtyError::IoFailed(Operation::Kill, "ESRCH".to_string())));
    assert_eq!(failed.unwrap_err().message(), "Failed to kill process: ESRCH");
    assert_eq!(manager.get_session("p", true), None);
    let mut again = persistent_manager();
    spawn_persistent(&mut again, "q", 6);
    let order = again.kill_session("q").unwrap();
    let poisoned = order.finish(Err(IoFailure::Lock("poisoned".to_string())));
    assert_eq!(poisoned.unwrap_err().message(), "Failed to lock child: poisoned");
}

#[test]
fn list_excludes_persistent_sessions_whose_backing_is_gone() {
    let mut manager = persistent_manager();
    spawn_persistent(&mut manager, "alpha", 1);
    spawn_persistent(&mut manager, "beta", 2);
    spawn_persistent(&mut manager, "gamma", 3);
    let all = manager.list_sessions(&listing(&["alpha", "beta", "gamma"]), &Vec::new());
    assert_eq!(all.len(), 3);
    let left = manager.list_sessions(&listing(&["gamma", "alpha", "foreign"]), &Vec::new());
    assert_eq!(left.iter().map(|i| i.id.as_str()).collect::<Vec<_>>(), vec!["alpha", "gamma"]);
    assert_eq!(manager.get_session("beta", true), None);
    assert_eq!(manager.len(), 2);
    let none = manager.list_sessions(&exited_ok(false, "", "no server running"), &Vec::new());
    assert_eq!(none, Vec::new());
    assert_eq!(manager.len(), 0);
}

#[test]
fn sweep_spares_direct_sessions() {
    let mut manager = persistent_manager();
    spawn_persistent(&mut manager, "alpha", 1);
    let job = expect_config(manager.spawn_session_as("d1".to_string(), empty_request()));
    let launch = expect_launch(manager.config_done(job, Err(TmuxError::NotFound)));
    expect_info(manager.launch_done_at(launch, up(2), NOW.to_string()));
    let left = manager.list_sessions(&listing(&[]), &Vec::new());
    assert_eq!(left.iter().map(|i| i.id.as_str()).collect::<Vec<_>>(), vec!["d1"]);
    assert!(!left[0].is_tmux);
}

#[test]
fn no_sweep_where_persistence_is_off() {
    let mut manager = persistent_manager();
    spawn_persistent(&mut manager, "alpha", 1);
    manager.set_use_tmux(false);
    assert_eq!(manager.reconnectable_query(), None);
    let left = manager.list_sessions(&listing(&[]), &Vec::new());
    assert_eq!(left.len(), 1);
    assert_eq!(manager.len(), 1);
}

#[test]
fn list_marks_exited_children() {
    let mut manager = plain_manager();
    spawn_direct(&mut manager, "a", 1);
    spawn_direct(&mut manager, "b", 2);
    let infos = manager.list_sessions(&Outcome::Unavailable, &texts(&["b", "zzz"]));
    assert_eq!(infos.len(), 2);
    assert!(infos[0].is_alive);
    assert!(!infos[1].is_alive);
    assert_eq!(manager.len(), 2);
}

#[test]
fn liveness_follows_the_probe() {
    assert!(is_alive(ChildProbe::Running));
    assert!(is_alive(ChildProbe::WaitFailed));
    assert!(!is_alive(ChildProbe::Exited));
    assert!(!is_alive(ChildProbe::LockPoisoned));
}

#[test]
fn reconnectable_sessions_come_from_the_multiplexer() {
    let manager = persistent_manager();
    assert_eq!(
        manager.reconnectable_query(),
        Some(Invocation {
            program: "/usr/bin/tmux".to_string(),
            args: texts(&[
                "-L",
                "wizterm",
                "list-sessions",
                "-F",
                "#{session_name}:#{session_created}:#{session_attached}"
            ]),
        })
    );
    let sessions = manager.list_reconnectable_sessions(&listing(&["x"]));
    assert_eq!(
        sessions,
        vec![TmuxSessionInfo {
            session_id: "x".to_string(),
            tmux_session_name: "wizterm-x".to_string(),
            created_at: 1700000000,
            attached: true,
        }]
    );
    assert!(listed_has(&sessions, "x"));
    assert!(!listed_has(&sessions, "wizterm-x"));
    assert!(has_text(&texts(&["a", "b"]), "b"));
    assert!(!has_text(&texts(&["a", "b"]), "c"));
    let plain = plain_manager();
    assert_eq!(plain.reconnectable_query(), None);
    assert_eq!(plain.list_reconnectable_sessions(&listing(&["x"])), Vec::new());
}

#[test]
fn reconnect_attaches_to_an_existing_backing_session() {
    let mut manager = persistent_manager();
    let run = expect_run(manager.reconnect_session("r1".to_string(), 90, 33, true));
    assert_eq!(run.wait, RunWait::Probe);
    assert_eq!(run.invocation.args, texts(&["-L", "wizterm", "has-session", "-t", "wizterm-r1"]));
    let launch = expect_launch(manager.run_done(run, &exited_ok(true, "", "")));
    assert_eq!(launch.wait, LaunchWait::Reattach);
    assert_eq!((launch.plan.cols, launch.plan.rows), (90, 33));
    assert_eq!(launch.plan.args[4], "attach-session");
    let info = expect_info(manager.launch_done_at(launch, up(8), NOW.to_string()));
    assert_eq!(info.command, "tmux");
    assert_eq!(info.cwd, None);
    assert!(info.is_tmux);
    assert_eq!((info.cols, info.rows), (90, 33));
    assert_eq!(manager.get_session("r1", true), Some(info));
}

#[test]
fn reconnect_twice_returns_the_same_session_and_starts_nothing() {
    let mut manager = persistent_manager();
    let first = spawn_persistent(&mut manager, "r2", 1);
    let again = expect_info(manager.reconnect_session("r2".to_string(), 10, 10, true));
    let once_more = expect_info(manager.reconnect_session("r2".to_string(), 200, 60, true));
    assert_eq!(again, first);
    assert_eq!(once_more, first);
    assert_eq!(manager.len(), 1);
    assert_eq!(manager.write_to_session("r2"), Ok(&1));
}

#[test]
fn reconnect_returns_a_live_session_with_persistence_off() {
    let mut plain = plain_manager();
    let stored = spawn_direct(&mut plain, "s1", 4);
    assert_eq!(plain.get_session("s1", true), Some(stored.clone()));
    let again = expect_info(plain.reconnect_session("s1".to_string(), 10, 10, true));
    let once_more = expect_info(plain.reconnect_session("s1".to_string(), 200, 60, true));
    assert_eq!(again, stored);
    assert_eq!(once_more, stored);
    assert_eq!(plain.len(), 1);

    let mut switched_off = persistent_manager();
    let kept = spawn_persistent(&mut switched_off, "r5", 2);
    switched_off.set_use_tmux(false);
    let found = expect_info(switched_off.reconnect_session("r5".to_string(), 1, 1, true));
    assert_eq!(found, kept);
    let other = expect_error(switched_off.reconnect_session("r6".to_string(), 1, 1, true));
    assert_eq!(other, PtyError::ExternalToolFailed(TmuxError::Disabled));
}

#[test]
fn reconnect_fails_where_persistence_is_off_or_the_backing_is_gone() {
    let plain = plain_manager();
    let off = expect_error(plain.reconnect_session("r3".to_string(), 80, 24, true));
    assert_eq!(off, PtyError::ExternalToolFailed(TmuxError::Disabled));
    assert_eq!(off.message(), "tmux is not available");
    let manager = persistent_manager();
    let run = expect_run(manager.reconnect_session("r3".to_string(), 80, 24, true));
    let gone = expect_error(manager.run_done(run, &exited_ok(false, "", "can't find session")));
    assert_eq!(gone, PtyError::ExternalToolFailed(TmuxError::SessionMissing("r3".to_string())));
    assert_eq!(gone.message(), "tmux session r3 not found");
}

#[test]
fn failed_reattach_is_the_error_without_fallback() {
    let mut manager = persistent_manager();
    let run = expect_run(manager.reconnect_session("r4".to_string(), 80, 24, true));
    let launch = expect_launch(manager.run_done(run, &exited_ok(true, "", "")));
    let error = expect_error(manager.launch_done_at(
        launch,
        down(LaunchStage::Spawn, "no exec"),
        NOW.to_string(),
    ));
    assert_eq!(error, PtyError::SpawnFailed(SpawnProblem::AttachSession, "no exec".to_string()));
    assert_eq!(error.message(), "Failed to attach to tmux session: no exec");
    assert_eq!(manager.len(), 0);
}

#[test]
fn info_copies_the_session_and_takes_the_liveness() {
    let session = PtySession {
        id: "i".to_string(),
        command: "sh".to_string(),
        args: texts(&["-c", "true"]),
        cwd: Some("/tmp".to_string()),
        created_at: NOW.to_string(),
        handle: 0u8,
        cols: 1,
        rows: 2,
        is_tmux: false,
    };
    let info = session_to_info(&session, false);
    assert_eq!(
        info,
        PtySessionInfo {
            id: "i".to_string(),
            command: "sh".to_string(),
            args: texts(&["-c", "true"]),
            cwd: Some("/tmp".to_string()),
            created_at: NOW.to_string(),
            cols: 1,
            rows: 2,
            is_alive: false,
            is_tmux: false,
        }
    );
}

#[test]
fn io_failures_become_errors_of_their_operation() {
    assert_eq!(
        io_error(Operation::Write, IoFailure::Io("EPIPE".to_string())).message(),
        "Failed to write to PTY: EPIPE"
    );
    assert_eq!(
        io_error(Operation::Write, IoFailure::Lock("poisoned".to_string())).message(),
        "Failed to lock writer: poisoned"
    );
    assert_eq!(
        PtyError::ExternalToolFailed(TmuxError::NotFound).message(),
        "tmux not found"
    );
}
