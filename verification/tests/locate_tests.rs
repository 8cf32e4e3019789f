use wiz_term::process::{CommandOutput, HostEnv, Invocation, Outcome};
use wiz_term::pty::locate::{
    check_done, find_tmux, printed_path, printed_shell, probe_done, CheckStage, ProbeStage, Search,
    FIRST_KNOWN_LOCATION, LAST_RESORT_SHELL, SECOND_KNOWN_LOCATION,
};

fn words(items: &[&str]) -> Vec<String> {
    items.iter().map(|s| s.to_string()).collect()
}

fn ran(success: bool, stdout: &str) -> Outcome {
    Outcome::Finished(CommandOutput {
        success,
        stdout: stdout.as_bytes().to_vec(),
        stderr: Vec::new(),
    })
}

fn with_shell() -> HostEnv {
    HostEnv { shell: Some("/bin/bash".to_string()), home: None, user: Some("ada".to_string()) }
}

fn without_shell() -> HostEnv {
    HostEnv { shell: None, home: None, user: Some("ada".to_string()) }
}

fn login_probe(shell: &str) -> Search {
    Search::Probe(
        Invocation { program: shell.to_string(), args: words(&["-l", "-c", "which tmux"]) },
        ProbeStage::LoginShell,
    )
}

#[test]
fn search_starts_on_the_search_path() {
    assert_eq!(
        find_tmux(),
        Search::Probe(
            Invocation { program: "which".to_string(), args: words(&["tmux"]) },
            ProbeStage::SearchPath
        )
    );
}

#[test]
fn a_printed_path_is_checked_before_it_is_believed() {
    let next = probe_done(&with_shell(), ProbeStage::SearchPath, &ran(true, "/usr/bin/tmux\n"));
    assert_eq!(next, Search::Check("/usr/bin/tmux".to_string(), CheckStage::SearchPath));
    let found = check_done(&with_shell(), CheckStage::SearchPath, "/usr/bin/tmux".to_string(), true);
    assert_eq!(found, Search::Done(Some("/usr/bin/tmux".to_string())));
}

#[test]
fn a_missing_file_sends_the_search_on() {
    let next = check_done(&with_shell(), CheckStage::SearchPath, "/usr/bin/tmux".to_string(), false);
    assert_eq!(next, login_probe("/bin/bash"));
}

#[test]
fn nothing_on_the_search_path_asks_the_login_shell() {
    for outcome in [
        ran(false, "/usr/bin/tmux\n"),
        ran(true, ""),
        ran(true, " \n"),
        Outcome::Unavailable,
        Outcome::Failed("no which".to_string()),
    ] {
        assert_eq!(probe_done(&with_shell(), ProbeStage::SearchPath, &outcome), login_probe("/bin/bash"));
    }
}

#[test]
fn without_a_shell_the_directory_service_is_asked() {
    let next = probe_done(&without_shell(), ProbeStage::SearchPath, &ran(false, ""));
    assert_eq!(
        next,
        Search::Probe(
            Invocation {
                program: "dscl".to_string(),
                args: words(&[".", "-read", "/Users/ada", "UserShell"]),
            },
            ProbeStage::UserShell
        )
    );
    let nameless = HostEnv { shell: None, home: None, user: None };
    let next = probe_done(&nameless, ProbeStage::SearchPath, &ran(false, ""));
    assert_eq!(
        next,
        Search::Probe(
            Invocation {
                program: "dscl".to_string(),
                args: words(&[".", "-read", "/Users/", "UserShell"]),
            },
            ProbeStage::UserShell
        )
    );
}

#[test]
fn the_named_shell_is_the_last_word() {
    let next = probe_done(&without_shell(), ProbeStage::UserShell, &ran(true, "UserShell: /bin/fish\n"));
    assert_eq!(next, login_probe("/bin/fish"));
    assert_eq!(printed_shell(&ran(true, "UserShell: /bin/fish\n")), Some("/bin/fish".to_string()));
    assert_eq!(printed_shell(&ran(true, "\n")), None);
    assert_eq!(printed_shell(&ran(false, "UserShell: /bin/fish\n")), None);
}

#[test]
fn without_a_named_shell_the_last_resort_is_asked() {
    assert_eq!(LAST_RESORT_SHELL, "/bin/zsh");
    let ill_formed = Outcome::Finished(CommandOutput {
        success: true,
        stdout: vec![b'/', 0xff],
        stderr: Vec::new(),
    });
    for outcome in [ran(false, "x"), ran(true, ""), Outcome::Unavailable, ill_formed] {
        assert_eq!(probe_done(&without_shell(), ProbeStage::UserShell, &outcome), login_probe("/bin/zsh"));
    }
}

#[test]
fn the_login_shell_is_believed_only_after_a_check() {
    let next = probe_done(&with_shell(), ProbeStage::LoginShell, &ran(true, "  /opt/bin/tmux \n"));
    assert_eq!(next, Search::Check("/opt/bin/tmux".to_string(), CheckStage::LoginShell));
    assert_eq!(printed_path(&ran(true, "  /opt/bin/tmux \n")), Some("/opt/bin/tmux".to_string()));
    let found = check_done(&with_shell(), CheckStage::LoginShell, "/opt/bin/tmux".to_string(), true);
    assert_eq!(found, Search::Done(Some("/opt/bin/tmux".to_string())));
}

#[test]
fn known_locations_are_the_last_candidates() {
    assert_eq!(FIRST_KNOWN_LOCATION, "/opt/homebrew/bin/tmux");
    assert_eq!(SECOND_KNOWN_LOCATION, "/usr/local/bin/tmux");
    let first = Search::Check("/opt/homebrew/bin/tmux".to_string(), CheckStage::FirstKnown);
    assert_eq!(probe_done(&with_shell(), ProbeStage::LoginShell, &ran(false, "")), first);
    assert_eq!(check_done(&with_shell(), CheckStage::LoginShell, "/x".to_string(), false), first);
    assert_eq!(
        check_done(&with_shell(), CheckStage::FirstKnown, "/opt/homebrew/bin/tmux".to_string(), false),
        Search::Check("/usr/local/bin/tmux".to_string(), CheckStage::SecondKnown)
    );
    assert_eq!(
        check_done(&with_shell(), CheckStage::SecondKnown, "/usr/local/bin/tmux".to_string(), true),
        Search::Done(Some("/usr/local/bin/tmux".to_string()))
    );
    assert_eq!(
        check_done(&with_shell(), CheckStage::SecondKnown, "/usr/local/bin/tmux".to_string(), false),
        Search::Done(None)
    );
}

#[test]
fn a_search_that_finds_nothing_ends_after_seven_questions() {
    let host = without_shell();
    let mut search = find_tmux();
    let mut questions = 0;
    loop {
        search = match search {
            Search::Probe(_, stage) => {
                questions += 1;
                probe_done(&host, stage, &ran(true, if stage == ProbeStage::UserShell { "" } else { "/gone/tmux" }))
            }
            Search::Check(candidate, stage) => {
                questions += 1;
                check_done(&host, stage, candidate, false)
            }
            Search::Done(found) => {
                assert_eq!(found, None);
                break;
            }
        };
        assert!(questions <= 7);
    }
    assert_eq!(questions, 7);
}
