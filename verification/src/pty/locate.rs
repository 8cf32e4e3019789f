//! The search for the `tmux` binary.
//!
//! The search asks the host up to seven questions, one at a time, and stops
//! at the first candidate that is seen to exist: what `which tmux` says on
//! the current search path; what it says inside the user's login shell, whose
//! search path a program started outside a terminal may lack; and two places
//! where `tmux` is commonly installed. Finding nothing is no error: sessions
//! then do not persist.
//!
//! The search runs nothing itself. Each [`Search`] value names the next
//! question; the caller answers it with [`probe_done`] or [`check_done`].

use vstd::prelude::*;
use crate::process::{
    decode_lossy, decode_strict, push_text, utf8_lossy, HostEnv, HostEnvModel, Invocation,
    InvocationModel, Outcome, OutcomeModel,
};
use crate::text::{find_last_word, join_text, last_word, trim, trimmed};
use vstd::utf8::*;

verus! {

/// The shell to ask where neither the environment nor the directory service names one.
pub const LAST_RESORT_SHELL: &'static str = "/bin/zsh";

/// The first of the places where `tmux` is commonly installed.
pub const FIRST_KNOWN_LOCATION: &'static str = "/opt/homebrew/bin/tmux";

/// The second of the places where `tmux` is commonly installed.
pub const SECOND_KNOWN_LOCATION: &'static str = "/usr/local/bin/tmux";

/// Which command the search waits for.
#[derive(Clone, Copy, Debug, PartialEq, Eq)]
pub enum ProbeStage {
    /// `which tmux` on the current search path.
    SearchPath,
    /// The directory service, asked for the user's shell.
    UserShell,
    /// `which tmux` inside the user's login shell.
    LoginShell,
}

/// Which candidate the search wants checked.
#[derive(Clone, Copy, Debug, PartialEq, Eq)]
pub enum CheckStage {
    /// The one found on the current search path.
    SearchPath,
    /// The one found inside the login shell.
    LoginShell,
    /// The first known location.
    FirstKnown,
    /// The second known location.
    SecondKnown,
}

/// Where the search stands: the next question, or the result.
#[derive(Clone, Debug, PartialEq, Eq)]
pub enum Search {
    /// Run the command; answer with [`probe_done`].
    Probe(Invocation, ProbeStage),
    /// Find out whether a file exists at the path; answer with [`check_done`].
    Check(String, CheckStage),
    /// The search is over: the binary, or nothing.
    Done(Option<String>),
}

/// What a [`Search`] holds, as text.
pub enum SearchModel {
    Probe(InvocationModel, ProbeStage),
    Check(Seq<char>, CheckStage),
    Done(Option<Seq<char>>),
}

impl DeepView for Search {
    type V = SearchModel;

    open spec fn deep_view(&self) -> SearchModel {
        match self {
            Search::Probe(invocation, stage) => SearchModel::Probe(invocation.deep_view(), *stage),
            Search::Check(path, stage) => SearchModel::Check(path@, *stage),
            Search::Done(found) => SearchModel::Done(found.deep_view()),
        }
    }
}

/// `which tmux`.
pub open spec fn which_probe() -> InvocationModel {
    InvocationModel { program: "which"@, args: seq!["tmux"@] }
}

/// The question to the directory service: which shell does `user` have?
pub open spec fn user_shell_probe(user: Option<Seq<char>>) -> InvocationModel {
    InvocationModel {
        program: "dscl"@,
        args: seq![
            "."@,
            "-read"@,
            "/Users/"@ + (match user {
                Some(name) => name,
                None => Seq::empty(),
            }),
            "UserShell"@,
        ],
    }
}

/// `which tmux`, asked inside `shell` started as a login shell.
pub open spec fn login_probe(shell: Seq<char>) -> InvocationModel {
    InvocationModel { program: shell, args: seq!["-l"@, "-c"@, "which tmux"@] }
}

/// The path that a `which` printed: its output, trimmed, where it ran,
/// exited with success and printed anything but white space.
pub open spec fn path_in(outcome: OutcomeModel) -> Option<Seq<char>> {
    match outcome {
        OutcomeModel::Finished(output) => if output.success && trimmed(
            utf8_lossy(output.stdout),
        ).len() > 0 {
            Some(trimmed(utf8_lossy(output.stdout)))
        } else {
            None
        },
        _ => None,
    }
}

/// The shell that the directory service named: the last word of what it
/// printed, where it ran, exited with success and printed well-formed UTF-8.
pub open spec fn shell_in(outcome: OutcomeModel) -> Option<Seq<char>> {
    match outcome {
        OutcomeModel::Finished(output) => if output.success && valid_utf8(output.stdout) {
            last_word(decode_utf8(output.stdout))
        } else {
            None
        },
        _ => None,
    }
}

/// What follows a search path without `tmux`: the login shell is asked, and
/// before that the directory service where the environment names no shell.
pub open spec fn after_search_path(host: HostEnvModel) -> SearchModel {
    match host.shell {
        Some(shell) => SearchModel::Probe(login_probe(shell), ProbeStage::LoginShell),
        None => SearchModel::Probe(user_shell_probe(host.user), ProbeStage::UserShell),
    }
}

/// What follows a login shell without `tmux`: the first known location.
pub open spec fn after_login_shell() -> SearchModel {
    SearchModel::Check(FIRST_KNOWN_LOCATION@, CheckStage::FirstKnown)
}

/// The start of the search.
pub open spec fn search_start() -> SearchModel {
    SearchModel::Probe(which_probe(), ProbeStage::SearchPath)
}

/// Where the search stands after the command of `stage` ended in `outcome`.
pub open spec fn after_probe(host: HostEnvModel, stage: ProbeStage, outcome: OutcomeModel)
    -> SearchModel {
    match stage {
        ProbeStage::SearchPath => match path_in(outcome) {
            Some(path) => SearchModel::Check(path, CheckStage::SearchPath),
            None => after_search_path(host),
        },
        ProbeStage::UserShell => SearchModel::Probe(
            login_probe(
                match shell_in(outcome) {
                    Some(shell) => shell,
                    None => LAST_RESORT_SHELL@,
                },
            ),
            ProbeStage::LoginShell,
        ),
        ProbeStage::LoginShell => match path_in(outcome) {
            Some(path) => SearchModel::Check(path, CheckStage::LoginShell),
            None => after_login_shell(),
        },
    }
}

/// Where the search stands after `candidate` was or was not seen to exist.
pub open spec fn after_check(
    host: HostEnvModel,
    stage: CheckStage,
    candidate: Seq<char>,
    present: bool,
) -> SearchModel {
    if present {
        SearchModel::Done(Some(candidate))
    } else {
        match stage {
            CheckStage::SearchPath => after_search_path(host),
            CheckStage::LoginShell => after_login_shell(),
            CheckStage::FirstKnown => SearchModel::Check(
                SECOND_KNOWN_LOCATION@,
                CheckStage::SecondKnown,
            ),
            CheckStage::SecondKnown => SearchModel::Done(None),
        }
    }
}

/// How many questions the search may still ask, at most.
pub open spec fn questions_left(search: SearchModel) -> nat {
    match search {
        SearchModel::Probe(_, ProbeStage::SearchPath) => 7,
        SearchModel::Check(_, CheckStage::SearchPath) => 6,
        SearchModel::Probe(_, ProbeStage::UserShell) => 5,
        SearchModel::Probe(_, ProbeStage::LoginShell) => 4,
        SearchModel::Check(_, CheckStage::LoginShell) => 3,
        SearchModel::Check(_, CheckStage::FirstKnown) => 2,
        SearchModel::Check(_, CheckStage::SecondKnown) => 1,
        SearchModel::Done(_) => 0,
    }
}

/// Every answer brings the search closer to its end, so it ends after at most
/// seven questions; and only a candidate that was seen to exist is its result.
pub proof fn lemma_search_ends(
    host: HostEnvModel,
    invocation: InvocationModel,
    probe: ProbeStage,
    outcome: OutcomeModel,
    candidate: Seq<char>,
    check: CheckStage,
    present: bool,
)
    ensures
        questions_left(after_probe(host, probe, outcome)) < questions_left(
            SearchModel::Probe(invocation, probe),
        ),
        questions_left(after_check(host, check, candidate, present)) < questions_left(
            SearchModel::Check(candidate, check),
        ),
        !(after_probe(host, probe, outcome) matches SearchModel::Done(Some(_))),
        after_check(host, check, candidate, present) matches SearchModel::Done(Some(found))
            ==> present && found == candidate,
{
}

/// The path that a `which` printed, if it printed one.
pub fn printed_path(outcome: &Outcome) -> (path: Option<String>)
    ensures
        path.deep_view() == path_in(outcome.deep_view()),
{
    match outcome {
        Outcome::Finished(output) => {
            if output.success {
                let text = decode_lossy(&output.stdout);
                let path = trim(&text);
                if path.as_str().unicode_len() > 0 {
                    Some(path)
                } else {
                    None
                }
            } else {
                None
            }
        },
        _ => None,
    }
}

/// The shell that the directory service named, if it named one.
pub fn printed_shell(outcome: &Outcome) -> (shell: Option<String>)
    ensures
        shell.deep_view() == shell_in(outcome.deep_view()),
{
    match outcome {
        Outcome::Finished(output) => {
            if output.success {
                match decode_strict(&output.stdout) {
                    Some(text) => find_last_word(&text),
                    None => None,
                }
            } else {
                None
            }
        },
        _ => None,
    }
}

/// `which tmux`, asked inside `shell` started as a login shell.
fn login_shell_probe(shell: &str) -> (search: Search)
    ensures
        search.deep_view() == SearchModel::Probe(login_probe(shell@), ProbeStage::LoginShell),
{
    let mut args: Vec<String> = Vec::new();
    assert(args.deep_view() =~= Seq::<Seq<char>>::empty());
    push_text(&mut args, "-l");
    push_text(&mut args, "-c");
    push_text(&mut args, "which tmux");
    assert(args.deep_view() =~= login_probe(shell@).args);
    Search::Probe(Invocation { program: shell.to_owned(), args }, ProbeStage::LoginShell)
}

/// What follows a search path without `tmux`.
fn leave_search_path(host: &HostEnv) -> (search: Search)
    ensures
        search.deep_view() == after_search_path(host.deep_view()),
{
    match &host.shell {
        Some(shell) => login_shell_probe(shell),
        None => {
            let home = match &host.user {
                Some(name) => join_text("/Users/", name),
                None => "/Users/".to_owned(),
            };
            assert("/Users/"@ + Seq::<char>::empty() =~= "/Users/"@);
            let mut args: Vec<String> = Vec::new();
            assert(args.deep_view() =~= Seq::<Seq<char>>::empty());
            push_text(&mut args, ".");
            push_text(&mut args, "-read");
            push_text(&mut args, &home);
            push_text(&mut args, "UserShell");
            assert(args.deep_view() =~= user_shell_probe(host.deep_view().user).args);
            Search::Probe(Invocation { program: "dscl".to_owned(), args }, ProbeStage::UserShell)
        },
    }
}

/// What follows a login shell without `tmux`.
fn leave_login_shell() -> (search: Search)
    ensures
        search.deep_view() == after_login_shell(),
{
    Search::Check(FIRST_KNOWN_LOCATION.to_owned(), CheckStage::FirstKnown)
}

/// Starts the search for the `tmux` binary: the first question is what
/// `which tmux` says on the current search path.
pub fn find_tmux() -> (search: Search)
    ensures
        search.deep_view() == search_start(),
{
    let mut args: Vec<String> = Vec::new();
    assert(args.deep_view() =~= Seq::<Seq<char>>::empty());
    push_text(&mut args, "tmux");
    assert(args.deep_view() =~= which_probe().args);
    Search::Probe(Invocation { program: "which".to_owned(), args }, ProbeStage::SearchPath)
}

/// Continues the search after the command of `stage` ended in `outcome`.
pub fn probe_done(host: &HostEnv, stage: ProbeStage, outcome: &Outcome) -> (search: Search)
    ensures
        search.deep_view() == after_probe(host.deep_view(), stage, outcome.deep_view()),
{
    match stage {
        ProbeStage::SearchPath => match printed_path(outcome) {
            Some(path) => Search::Check(path, CheckStage::SearchPath),
            None => leave_search_path(host),
        },
        ProbeStage::UserShell => match printed_shell(outcome) {
            Some(shell) => login_shell_probe(&shell),
            None => login_shell_probe(LAST_RESORT_SHELL),
        },
        ProbeStage::LoginShell => match printed_path(outcome) {
            Some(path) => Search::Check(path, CheckStage::LoginShell),
            None => leave_login_shell(),
        },
    }
}

/// Continues the search after `candidate` was (`present`) or was not seen to exist.
pub fn check_done(host: &HostEnv, stage: CheckStage, candidate: String, present: bool) -> (search:
    Search)
    ensures
        search.deep_view() == after_check(host.deep_view(), stage, candidate@, present),
{
    if present {
        Search::Done(Some(candidate))
    } else {
        match stage {
            CheckStage::SearchPath => leave_search_path(host),
            CheckStage::LoginShell => leave_login_shell(),
            CheckStage::FirstKnown => Search::Check(
                SECOND_KNOWN_LOCATION.to_owned(),
                CheckStage::SecondKnown,
            ),
            CheckStage::SecondKnown => Search::Done(None),
        }
    }
}

} // verus!
