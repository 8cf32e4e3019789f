//! The multiplexer adapter: how `tmux` is asked to create, find, list and
//! remove the detached sessions that back persistent terminals, and what its
//! answers mean.
//!
//! Every request goes to a server of its own (its socket is
//! [`TMUX_SOCKET_NAME`]) with a configuration file of its own, so the user's
//! other `tmux` sessions are neither seen nor touched. The adapter starts no
//! process itself: it builds each [`Invocation`] and reads each [`Outcome`].

use vstd::prelude::*;
use crate::process::{
    decode_lossy, decode_strict, default_shell, expand_tilde, push_text, result_view, shell_of,
    tilde_expanded, utf8_lossy, HostEnv, HostEnvModel, Invocation, InvocationModel, Outcome,
    OutcomeModel,
};
use crate::text::{
    contains, decimal_i64, has_substring, join_text, lines, parse_i64, remove_prefix, same_text,
    split, split_at_char, split_lines, strip_prefix, trim, trimmed,
};
use vstd::utf8::*;

verus! {

/// What every session name of this application starts with.
pub const TMUX_SESSION_PREFIX: &'static str = "wizterm-";

/// The socket of the `tmux` server that holds this application's sessions.
pub const TMUX_SOCKET_NAME: &'static str = "wizterm";

/// The format in which `tmux` is asked to list its sessions: name, creation
/// time and number of attached clients, with colons between.
pub const LIST_FORMAT: &'static str = "#{session_name}:#{session_created}:#{session_attached}";

/// The configuration written on first use. It hides everything `tmux` would
/// draw and passes the mouse, colors and escape sequences through, so that an
/// attached terminal behaves like a direct one.
pub const DEFAULT_TMUX_CONFIG: &'static str = r#"# wiz-term - Transparent tmux config
# This makes tmux invisible while preserving session persistence
# Edit this file to customize tmux behavior

# === Visual Elements: OFF ===
set -g status off                    # Hide status bar
set -g pane-border-status off        # Hide pane borders
set -g visual-activity off           # No activity alerts
set -g visual-bell off               # No bell flash
set -g visual-silence off            # No silence alerts

# === Mouse: Pass-through to applications ===
set -g mouse on                      # Enable mouse support
# Mouse scroll goes to application (vim, etc)
# Use Shift+scroll to access tmux scrollback

# === Performance ===
set -g escape-time 10                # 10ms escape delay (vim-friendly)

# === Copy Mode: Minimal (xterm.js handles selection) ===
set -g mode-keys vi                  # vi keys if entering copy-mode

# === Terminal Compatibility ===
set -g default-terminal "xterm-256color"
set -ga terminal-overrides ",xterm-256color:Tc"  # True color support
set -gq allow-passthrough on         # Allow escape sequences to pass through (images, etc)

# === UTF-8 Support ===
set -gq utf8 on                      # Enable UTF-8 (older tmux)
set -gq mouse-utf8 on                # UTF-8 mouse input (older tmux)
setw -gq utf8 on                     # Window UTF-8 mode

# === Session Behavior ===
set -g detach-on-destroy on          # Detach client when session is destroyed (don't switch to other sessions)
set -g remain-on-exit off            # Clean exit behavior
set -g history-limit 50000           # Generous scrollback buffer
"#;

/// Where `tmux` and its configuration file are on this host.
#[derive(Clone, Debug, PartialEq, Eq)]
pub struct TmuxSetup {
    /// The `tmux` binary, absent where none was found.
    pub tmux_path: Option<String>,
    /// The configuration file that every session is created and attached with.
    pub config_path: String,
}

/// What a [`TmuxSetup`] holds, as text.
pub struct TmuxSetupModel {
    pub tmux_path: Option<Seq<char>>,
    pub config_path: Seq<char>,
}

impl DeepView for TmuxSetup {
    type V = TmuxSetupModel;

    open spec fn deep_view(&self) -> TmuxSetupModel {
        TmuxSetupModel { tmux_path: self.tmux_path.deep_view(), config_path: self.config_path@ }
    }
}

/// One session as `tmux` lists it.
#[derive(Clone, Debug, PartialEq, Eq)]
pub struct TmuxSessionInfo {
    /// The identity of the terminal session that it backs.
    pub session_id: String,
    /// Its name inside `tmux`: the prefix, then the identity.
    pub tmux_session_name: String,
    /// When it was created, in seconds since the epoch.
    pub created_at: i64,
    /// Whether a client is attached to it.
    pub attached: bool,
}

/// What a [`TmuxSessionInfo`] holds, as text.
pub struct TmuxSessionModel {
    pub session_id: Seq<char>,
    pub tmux_session_name: Seq<char>,
    pub created_at: i64,
    pub attached: bool,
}

impl DeepView for TmuxSessionInfo {
    type V = TmuxSessionModel;

    open spec fn deep_view(&self) -> TmuxSessionModel {
        TmuxSessionModel {
            session_id: self.session_id@,
            tmux_session_name: self.tmux_session_name@,
            created_at: self.created_at,
            attached: self.attached,
        }
    }
}

/// Why a request to the multiplexer failed.
#[derive(Clone, Debug, PartialEq, Eq)]
pub enum TmuxError {
    /// No `tmux` binary is known.
    NotFound,
    /// `tmux` could not be started; the text is the system's reason.
    ExecuteFailed(String),
    /// `tmux` refused to create the session; the text is what it printed.
    CreateFailed(String),
    /// `tmux` failed to remove a session that was there; the text is what it printed.
    KillFailed(String),
    /// The directory of the configuration file could not be created.
    ConfigDirFailed(String),
    /// The configuration file could not be written.
    ConfigWriteFailed(String),
    /// The configuration file could not be read.
    ConfigReadFailed(String),
    /// Persistence is switched off, or there is no `tmux` to provide it.
    Disabled,
    /// `tmux` has no session for the terminal session of this identity.
    SessionMissing(String),
}

/// What a [`TmuxError`] holds, as text.
pub enum TmuxErrorModel {
    NotFound,
    ExecuteFailed(Seq<char>),
    CreateFailed(Seq<char>),
    KillFailed(Seq<char>),
    ConfigDirFailed(Seq<char>),
    ConfigWriteFailed(Seq<char>),
    ConfigReadFailed(Seq<char>),
    Disabled,
    SessionMissing(Seq<char>),
}

impl DeepView for TmuxError {
    type V = TmuxErrorModel;

    open spec fn deep_view(&self) -> TmuxErrorModel {
        match self {
            TmuxError::NotFound => TmuxErrorModel::NotFound,
            TmuxError::ExecuteFailed(why) => TmuxErrorModel::ExecuteFailed(why@),
            TmuxError::CreateFailed(why) => TmuxErrorModel::CreateFailed(why@),
            TmuxError::KillFailed(why) => TmuxErrorModel::KillFailed(why@),
            TmuxError::ConfigDirFailed(why) => TmuxErrorModel::ConfigDirFailed(why@),
            TmuxError::ConfigWriteFailed(why) => TmuxErrorModel::ConfigWriteFailed(why@),
            TmuxError::ConfigReadFailed(why) => TmuxErrorModel::ConfigReadFailed(why@),
            TmuxError::Disabled => TmuxErrorModel::Disabled,
            TmuxError::SessionMissing(id) => TmuxErrorModel::SessionMissing(id@),
        }
    }
}

/// The sentence that describes `error`.
pub open spec fn tmux_error_text(error: TmuxErrorModel) -> Seq<char> {
    match error {
        TmuxErrorModel::NotFound => "tmux not found"@,
        TmuxErrorModel::ExecuteFailed(why) => "Failed to execute tmux: "@ + why,
        TmuxErrorModel::CreateFailed(why) => "Failed to create tmux session: "@ + why,
        TmuxErrorModel::KillFailed(why) => "Failed to kill tmux session: "@ + why,
        TmuxErrorModel::ConfigDirFailed(why) => "Failed to create config directory: "@ + why,
        TmuxErrorModel::ConfigWriteFailed(why) => "Failed to write tmux config: "@ + why,
        TmuxErrorModel::ConfigReadFailed(why) => "Failed to read tmux config: "@ + why,
        TmuxErrorModel::Disabled => "tmux is not available"@,
        TmuxErrorModel::SessionMissing(id) => "tmux session "@ + id + " not found"@,
    }
}

impl TmuxError {
    /// A copy of this error.
    pub fn duplicate(&self) -> (copy: TmuxError)
        ensures
            copy.deep_view() == self.deep_view(),
    {
        match self {
            TmuxError::NotFound => TmuxError::NotFound,
            TmuxError::ExecuteFailed(why) => TmuxError::ExecuteFailed(why.clone()),
            TmuxError::CreateFailed(why) => TmuxError::CreateFailed(why.clone()),
            TmuxError::KillFailed(why) => TmuxError::KillFailed(why.clone()),
            TmuxError::ConfigDirFailed(why) => TmuxError::ConfigDirFailed(why.clone()),
            TmuxError::ConfigWriteFailed(why) => TmuxError::ConfigWriteFailed(why.clone()),
            TmuxError::ConfigReadFailed(why) => TmuxError::ConfigReadFailed(why.clone()),
            TmuxError::Disabled => TmuxError::Disabled,
            TmuxError::SessionMissing(id) => TmuxError::SessionMissing(id.clone()),
        }
    }

    /// The sentence that describes this error.
    pub fn message(&self) -> (text: String)
        ensures
            text@ == tmux_error_text(self.deep_view()),
    {
        match self {
            TmuxError::NotFound => "tmux not found".to_owned(),
            TmuxError::ExecuteFailed(why) => join_text("Failed to execute tmux: ", why),
            TmuxError::CreateFailed(why) => join_text(
                "Failed to create tmux session: ",
                why,
            ),
            TmuxError::KillFailed(why) => join_text("Failed to kill tmux session: ", why),
            TmuxError::ConfigDirFailed(why) => join_text(
                "Failed to create config directory: ",
                why,
            ),
            TmuxError::ConfigWriteFailed(why) => join_text(
                "Failed to write tmux config: ",
                why,
            ),
            TmuxError::ConfigReadFailed(why) => join_text(
                "Failed to read tmux config: ",
                why,
            ),
            TmuxError::Disabled => "tmux is not available".to_owned(),
            TmuxError::SessionMissing(id) => {
                let mut text = join_text("tmux session ", id);
                text.append(" not found");
                text
            },
        }
    }
}

/// The name inside `tmux` of the session that backs the terminal `session_id`.
pub open spec fn session_name_of(session_id: Seq<char>) -> Seq<char> {
    TMUX_SESSION_PREFIX@ + session_id
}

/// The name inside `tmux` of the session that backs the terminal `session_id`.
pub fn session_name(session_id: &str) -> (name: String)
    ensures
        name@ == session_name_of(session_id@),
{
    join_text(TMUX_SESSION_PREFIX, session_id)
}

/// Session names and identities determine each other: the identity is the
/// name without the prefix, and two identities with one name are the same.
pub proof fn lemma_session_name_reversible(a: Seq<char>, b: Seq<char>)
    ensures
        strip_prefix(session_name_of(a), TMUX_SESSION_PREFIX@) == Some(a),
        session_name_of(a) == session_name_of(b) ==> a == b,
{
    let p = TMUX_SESSION_PREFIX@;
    assert(p.is_prefix_of(p + a));
    assert((p + a).skip(p.len() as int) =~= a);
    assert((p + b).skip(p.len() as int) =~= b);
}

/// The `tmux` binary of `setup`, where one was found.
pub fn get_tmux_path(setup: &TmuxSetup) -> (path: Option<&String>)
    ensures
        path.deep_view() == setup.deep_view().tmux_path,
{
    setup.tmux_path.as_ref()
}

/// Whether `setup` knows a `tmux` binary, so that sessions can persist.
pub fn is_tmux_available(setup: &TmuxSetup) -> (available: bool)
    ensures
        available == (setup.deep_view().tmux_path is Some),
{
    setup.tmux_path.is_some()
}

/// The arguments that attach a client to the session of `session_id`.
pub open spec fn attach_args(setup: TmuxSetupModel, session_id: Seq<char>) -> Seq<Seq<char>> {
    seq![
        "-L"@,
        TMUX_SOCKET_NAME@,
        "-f"@,
        setup.config_path,
        "attach-session"@,
        "-t"@,
        session_name_of(session_id),
    ]
}

/// The program and arguments that attach a client to the session of
/// `session_id`, where `setup` knows the binary.
pub open spec fn attach_command(setup: TmuxSetupModel, session_id: Seq<char>) -> Option<
    (Seq<char>, Seq<Seq<char>>),
> {
    match setup.tmux_path {
        Some(path) => Some((path, attach_args(setup, session_id))),
        None => None,
    }
}

/// The program and arguments that attach a client to the session that backs
/// `session_id`; nothing is run. Absent where no `tmux` binary is known.
pub fn get_attach_command(setup: &TmuxSetup, session_id: &str) -> (command: Option<
    (String, Vec<String>),
>)
    ensures
        command.deep_view() == attach_command(setup.deep_view(), session_id@),
{
    match &setup.tmux_path {
        None => None,
        Some(path) => {
            let name = session_name(session_id);
            let mut args: Vec<String> = Vec::new();
            assert(args.deep_view() =~= Seq::<Seq<char>>::empty());
            push_text(&mut args, "-L");
            push_text(&mut args, TMUX_SOCKET_NAME);
            push_text(&mut args, "-f");
            push_text(&mut args, &setup.config_path);
            push_text(&mut args, "attach-session");
            push_text(&mut args, "-t");
            push_text(&mut args, &name);
            assert(args.deep_view() =~= attach_args(setup.deep_view(), session_id@));
            Some((path.clone(), args))
        },
    }
}

/// The arguments that ask `tmux` for its version.
pub open spec fn version_args() -> Seq<Seq<char>> {
    seq!["-V"@]
}

/// The arguments that create the detached session of `session_id`: on the
/// application's own socket and configuration, starting in `cwd` (with a
/// leading `~` expanded) where one is given, and running the user's shell.
pub open spec fn create_args(
    setup: TmuxSetupModel,
    host: HostEnvModel,
    session_id: Seq<char>,
    cwd: Option<Seq<char>>,
) -> Seq<Seq<char>> {
    seq![
        "-L"@,
        TMUX_SOCKET_NAME@,
        "-f"@,
        setup.config_path,
        "new-session"@,
        "-d"@,
        "-s"@,
        session_name_of(session_id),
    ] + (match cwd {
        Some(dir) => seq!["-c"@, tilde_expanded(dir, host.home)],
        None => Seq::empty(),
    }) + seq![shell_of(host)]
}

/// The arguments that list the sessions of the application's server.
pub open spec fn list_args() -> Seq<Seq<char>> {
    seq!["-L"@, TMUX_SOCKET_NAME@, "list-sessions"@, "-F"@, LIST_FORMAT@]
}

/// The arguments that ask whether the session of `session_id` exists.
pub open spec fn has_session_args(session_id: Seq<char>) -> Seq<Seq<char>> {
    seq!["-L"@, TMUX_SOCKET_NAME@, "has-session"@, "-t"@, session_name_of(session_id)]
}

/// The arguments that remove the session of `session_id`.
pub open spec fn kill_args(session_id: Seq<char>) -> Seq<Seq<char>> {
    seq!["-L"@, TMUX_SOCKET_NAME@, "kill-session"@, "-t"@, session_name_of(session_id)]
}

/// `tmux` with `args`, where `setup` knows the binary.
pub open spec fn tmux_invocation(setup: TmuxSetupModel, args: Seq<Seq<char>>) -> Option<
    InvocationModel,
> {
    match setup.tmux_path {
        Some(path) => Some(InvocationModel { program: path, args }),
        None => None,
    }
}

/// `tmux` with `args`, where `setup` knows the binary.
fn tmux_command(setup: &TmuxSetup, args: Vec<String>) -> (invocation: Option<Invocation>)
    ensures
        invocation.deep_view() == tmux_invocation(setup.deep_view(), args.deep_view()),
{
    match &setup.tmux_path {
        Some(path) => Some(Invocation { program: path.clone(), args }),
        None => None,
    }
}

/// The command that asks `tmux` for its version.
pub fn version_invocation(setup: &TmuxSetup) -> (invocation: Option<Invocation>)
    ensures
        invocation.deep_view() == tmux_invocation(setup.deep_view(), version_args()),
{
    let mut args: Vec<String> = Vec::new();
    assert(args.deep_view() =~= Seq::<Seq<char>>::empty());
    push_text(&mut args, "-V");
    assert(args.deep_view() =~= version_args());
    tmux_command(setup, args)
}

/// The command that creates the detached session of `session_id`.
pub fn create_session_invocation(
    setup: &TmuxSetup,
    host: &HostEnv,
    session_id: &str,
    cwd: Option<&str>,
) -> (invocation: Option<Invocation>)
    ensures
        invocation.deep_view() == tmux_invocation(
            setup.deep_view(),
            create_args(setup.deep_view(), host.deep_view(), session_id@, cwd.deep_view()),
        ),
{
    let name = session_name(session_id);
    let shell = default_shell(host);
    let mut args: Vec<String> = Vec::new();
    assert(args.deep_view() =~= Seq::<Seq<char>>::empty());
    push_text(&mut args, "-L");
    push_text(&mut args, TMUX_SOCKET_NAME);
    push_text(&mut args, "-f");
    push_text(&mut args, &setup.config_path);
    push_text(&mut args, "new-session");
    push_text(&mut args, "-d");
    push_text(&mut args, "-s");
    push_text(&mut args, &name);
    match cwd {
        Some(dir) => {
            let expanded = expand_tilde(dir, &host.home);
            push_text(&mut args, "-c");
            push_text(&mut args, &expanded);
        },
        None => {},
    }
    push_text(&mut args, &shell);
    assert(args.deep_view() =~= create_args(
        setup.deep_view(),
        host.deep_view(),
        session_id@,
        cwd.deep_view(),
    ));
    tmux_command(setup, args)
}

/// The command that lists the sessions of the application's server.
pub fn list_sessions_invocation(setup: &TmuxSetup) -> (invocation: Option<Invocation>)
    ensures
        invocation.deep_view() == tmux_invocation(setup.deep_view(), list_args()),
{
    let mut args: Vec<String> = Vec::new();
    assert(args.deep_view() =~= Seq::<Seq<char>>::empty());
    push_text(&mut args, "-L");
    push_text(&mut args, TMUX_SOCKET_NAME);
    push_text(&mut args, "list-sessions");
    push_text(&mut args, "-F");
    push_text(&mut args, LIST_FORMAT);
    assert(args.deep_view() =~= list_args());
    tmux_command(setup, args)
}

/// The command that asks whether the session of `session_id` exists.
pub fn has_session_invocation(setup: &TmuxSetup, session_id: &str) -> (invocation: Option<
    Invocation,
>)
    ensures
        invocation.deep_view() == tmux_invocation(
            setup.deep_view(),
            has_session_args(session_id@),
        ),
{
    let name = session_name(session_id);
    let mut args: Vec<String> = Vec::new();
    assert(args.deep_view() =~= Seq::<Seq<char>>::empty());
    push_text(&mut args, "-L");
    push_text(&mut args, TMUX_SOCKET_NAME);
    push_text(&mut args, "has-session");
    push_text(&mut args, "-t");
    push_text(&mut args, &name);
    assert(args.deep_view() =~= has_session_args(session_id@));
    tmux_command(setup, args)
}

/// The command that removes the session of `session_id`.
pub fn kill_session_invocation(setup: &TmuxSetup, session_id: &str) -> (invocation: Option<
    Invocation,
>)
    ensures
        invocation.deep_view() == tmux_invocation(setup.deep_view(), kill_args(session_id@)),
{
    let name = session_name(session_id);
    let mut args: Vec<String> = Vec::new();
    assert(args.deep_view() =~= Seq::<Seq<char>>::empty());
    push_text(&mut args, "-L");
    push_text(&mut args, TMUX_SOCKET_NAME);
    push_text(&mut args, "kill-session");
    push_text(&mut args, "-t");
    push_text(&mut args, &name);
    assert(args.deep_view() =~= kill_args(session_id@));
    tmux_command(setup, args)
}

/// The version that `tmux` reported: what it printed, trimmed, where it ran,
/// exited with success and printed well-formed UTF-8.
pub open spec fn version_in(outcome: OutcomeModel) -> Option<Seq<char>> {
    match outcome {
        OutcomeModel::Finished(output) => if output.success && valid_utf8(output.stdout) {
            Some(trimmed(decode_utf8(output.stdout)))
        } else {
            None
        },
        _ => None,
    }
}

/// The version string that `tmux` printed when asked with
/// [`version_invocation`], if it answered.
pub fn get_tmux_version(outcome: &Outcome) -> (version: Option<String>)
    ensures
        version.deep_view() == version_in(outcome.deep_view()),
{
    match outcome {
        Outcome::Finished(output) => {
            if output.success {
                match decode_strict(&output.stdout) {
                    Some(text) => Some(trim(&text)),
                    None => None,
                }
            } else {
                None
            }
        },
        _ => None,
    }
}

/// What the attempt to create the session of `session_id` came to: its name
/// inside `tmux`, or why there is no session.
pub open spec fn create_result(session_id: Seq<char>, outcome: OutcomeModel) -> Result<
    Seq<char>,
    TmuxErrorModel,
> {
    match outcome {
        OutcomeModel::Unavailable => Err(TmuxErrorModel::NotFound),
        OutcomeModel::Failed(why) => Err(TmuxErrorModel::ExecuteFailed(why)),
        OutcomeModel::Finished(output) => if output.success {
            Ok(session_name_of(session_id))
        } else {
            Err(TmuxErrorModel::CreateFailed(utf8_lossy(output.stderr)))
        },
    }
}

/// Reads the outcome of [`create_session_invocation`]: the name of the new
/// session where `tmux` exited with success, else the error, which carries
/// what `tmux` printed on its error stream.
pub fn create_tmux_session(session_id: &str, outcome: &Outcome) -> (created: Result<
    String,
    TmuxError,
>)
    ensures
        result_view(created) == create_result(session_id@, outcome.deep_view()),
{
    match outcome {
        Outcome::Unavailable => Err(TmuxError::NotFound),
        Outcome::Failed(why) => Err(TmuxError::ExecuteFailed(why.clone())),
        Outcome::Finished(output) => {
            if output.success {
                Ok(session_name(session_id))
            } else {
                Err(TmuxError::CreateFailed(decode_lossy(&output.stderr)))
            }
        },
    }
}

/// The session that one line of the listing describes. The line holds at
/// least three fields with colons between: a name that starts with the
/// prefix, the creation time as a decimal number, and the number of attached
/// clients, where anything but `0` counts as attached.
pub open spec fn session_in_line(line: Seq<char>) -> Option<TmuxSessionModel> {
    let parts = split(line, ':');
    if parts.len() >= 3 && strip_prefix(parts[0], TMUX_SESSION_PREFIX@) is Some && decimal_i64(
        parts[1],
    ) is Some {
        Some(
            TmuxSessionModel {
                session_id: strip_prefix(parts[0], TMUX_SESSION_PREFIX@)->0,
                tmux_session_name: parts[0],
                created_at: decimal_i64(parts[1])->0,
                attached: parts[2] != "0"@,
            },
        )
    } else {
        None
    }
}

/// A line of the listing leads back to the session that it was written
/// for. For an identity and a third field without colons, and a creation
/// time in decimal digits within range, the line made of the session's name,
/// the time and the third field describes the session of that identity,
/// under that name, created at that time, and attached unless the third
/// field is `0`.
pub proof fn lemma_listing_leads_back(id: Seq<char>, created: Seq<char>, attached: Seq<char>)
    requires
        !id.contains(':'),
        !attached.contains(':'),
        decimal_i64(created) is Some,
    ensures
        session_in_line(session_name_of(id) + seq![':'] + created + seq![':'] + attached) == Some(
            TmuxSessionModel {
                session_id: id,
                tmux_session_name: session_name_of(id),
                created_at: decimal_i64(created)->0,
                attached: attached != "0"@,
            },
        ),
{
    let name = session_name_of(id);
    let line = name + seq![':'] + created + seq![':'] + attached;
    assert(!name.contains(':')) by {
        reveal_strlit("wizterm-");
        if name.contains(':') {
            let k = choose|k: int| 0 <= k < name.len() && name[k] == ':';
            if k >= TMUX_SESSION_PREFIX@.len() {
                assert(id.contains(id[k - TMUX_SESSION_PREFIX@.len()]));
            }
        }
    }
    assert(!created.contains(':')) by {
        if created.contains(':') {
            let k = choose|k: int| 0 <= k < created.len() && created[k] == ':';
            let digits = if created[0] == '-' || created[0] == '+' {
                created.skip(1)
            } else {
                created
            };
            if k == 0 {
                assert(!crate::text::is_digit(digits[0]));
            } else if digits == created {
                assert(!crate::text::is_digit(digits[k]));
            } else {
                assert(!crate::text::is_digit(digits[k - 1]));
            }
        }
    }
    assert(line =~= name + seq![':'] + (created + seq![':'] + attached));
    crate::text::lemma_split_joined(name, ':', created + seq![':'] + attached);
    crate::text::lemma_split_joined(created, ':', attached);
    crate::text::lemma_split_joined(attached, ':', Seq::empty());
    let parts = split(line, ':');
    assert(parts =~= seq![name, created, attached]);
    lemma_session_name_reversible(id, id);
}

/// The sessions that `lines` describe, in order; lines that describe none are
/// passed over.
pub open spec fn sessions_in_lines(lines: Seq<Seq<char>>) -> Seq<TmuxSessionModel>
    decreases lines.len(),
{
    if lines.len() == 0 {
        Seq::empty()
    } else {
        let before = sessions_in_lines(lines.drop_last());
        match session_in_line(lines.last()) {
            Some(session) => before.push(session),
            None => before,
        }
    }
}

/// The sessions of this application that the listing `text` holds.
pub open spec fn sessions_in(text: Seq<char>) -> Seq<TmuxSessionModel> {
    sessions_in_lines(lines(text))
}

/// Reads one line of the listing.
pub fn parse_session_line(line: &str) -> (session: Option<TmuxSessionInfo>)
    ensures
        session.deep_view() == session_in_line(line@),
{
    let parts = split_at_char(line, ':');
    if parts.len() < 3 {
        return None;
    }
    assert(parts.deep_view()[0] == parts[0]@);
    assert(parts.deep_view()[1] == parts[1]@);
    assert(parts.deep_view()[2] == parts[2]@);
    match remove_prefix(&parts[0], TMUX_SESSION_PREFIX) {
        None => None,
        Some(session_id) => match parse_i64(&parts[1]) {
            None => None,
            Some(created_at) => {
                let attached = !same_text(&parts[2], "0");
                Some(
                    TmuxSessionInfo {
                        session_id,
                        tmux_session_name: parts[0].clone(),
                        created_at,
                        attached,
                    },
                )
            },
        },
    }
}

/// Reads the listing `text`, one session to a line.
pub fn parse_sessions(text: &str) -> (sessions: Vec<TmuxSessionInfo>)
    ensures
        sessions.deep_view() == sessions_in(text@),
{
    let all = split_lines(text);
    let mut sessions: Vec<TmuxSessionInfo> = Vec::new();
    let mut i: usize = 0;
    assert(all.deep_view().take(0) =~= Seq::<Seq<char>>::empty());
    assert(sessions.deep_view() =~= Seq::<TmuxSessionModel>::empty());
    while i < all.len()
        invariant
            i <= all.len(),
            all.deep_view() == lines(text@),
            sessions.deep_view() == sessions_in_lines(all.deep_view().take(i as int)),
        decreases all.len() - i,
    {
        proof {
            let next = all.deep_view().take(i + 1);
            assert(next.drop_last() =~= all.deep_view().take(i as int));
            assert(next.last() == all[i as int]@);
        }
        match parse_session_line(&all[i]) {
            Some(session) => {
                let ghost before = sessions.deep_view();
                sessions.push(session);
                assert(sessions.deep_view() =~= before.push(session.deep_view()));
            },
            None => {},
        }
        i += 1;
    }
    assert(all.deep_view().take(all.len() as int) =~= all.deep_view());
    sessions
}

/// The sessions that `tmux` listed: those in what it printed, where it ran
/// and exited with success; none otherwise (a server that is not running has
/// no sessions).
pub open spec fn listed_sessions(outcome: OutcomeModel) -> Seq<TmuxSessionModel> {
    match outcome {
        OutcomeModel::Finished(output) => if output.success {
            sessions_in(utf8_lossy(output.stdout))
        } else {
            Seq::empty()
        },
        _ => Seq::empty(),
    }
}

/// The sessions of this application that `tmux` listed when asked with
/// [`list_sessions_invocation`].
pub fn list_wizterm_sessions(outcome: &Outcome) -> (sessions: Vec<TmuxSessionInfo>)
    ensures
        sessions.deep_view() == listed_sessions(outcome.deep_view()),
{
    match outcome {
        Outcome::Finished(output) => {
            if output.success {
                let text = decode_lossy(&output.stdout);
                parse_sessions(&text)
            } else {
                let none: Vec<TmuxSessionInfo> = Vec::new();
                assert(none.deep_view() =~= Seq::<TmuxSessionModel>::empty());
                none
            }
        },
        _ => {
            let none: Vec<TmuxSessionInfo> = Vec::new();
            assert(none.deep_view() =~= Seq::<TmuxSessionModel>::empty());
            none
        },
    }
}

/// Whether `tmux` said that the session exists: it ran and exited with success.
pub open spec fn exists_in(outcome: OutcomeModel) -> bool {
    outcome matches OutcomeModel::Finished(output) && output.success
}

/// Whether the session asked for with [`has_session_invocation`] exists.
pub fn session_exists(outcome: &Outcome) -> (found: bool)
    ensures
        found == exists_in(outcome.deep_view()),
{
    match outcome {
        Outcome::Finished(output) => output.success,
        _ => false,
    }
}

/// Whether `stderr` says that what was to be removed is not there.
pub open spec fn already_gone(stderr: Seq<char>) -> bool {
    contains(stderr, "session not found"@) || contains(stderr, "no server running"@)
}

/// Whether `stderr` says that what was to be removed is not there.
pub fn says_already_gone(stderr: &str) -> (gone: bool)
    ensures
        gone == already_gone(stderr@),
{
    has_substring(stderr, "session not found") || has_substring(stderr, "no server running")
}

/// What the attempt to remove a session came to. A session that was already
/// gone counts as removed.
pub open spec fn kill_result(outcome: OutcomeModel) -> Result<(), TmuxErrorModel> {
    match outcome {
        OutcomeModel::Unavailable => Err(TmuxErrorModel::NotFound),
        OutcomeModel::Failed(why) => Err(TmuxErrorModel::ExecuteFailed(why)),
        OutcomeModel::Finished(output) => if !output.success && !already_gone(
            utf8_lossy(output.stderr),
        ) {
            Err(TmuxErrorModel::KillFailed(utf8_lossy(output.stderr)))
        } else {
            Ok(())
        },
    }
}

/// Reads the outcome of [`kill_session_invocation`].
pub fn kill_tmux_session(outcome: &Outcome) -> (killed: Result<(), TmuxError>)
    ensures
        result_view(killed) == kill_result(outcome.deep_view()),
{
    match outcome {
        Outcome::Unavailable => Err(TmuxError::NotFound),
        Outcome::Failed(why) => Err(TmuxError::ExecuteFailed(why.clone())),
        Outcome::Finished(output) => {
            if output.success {
                Ok(())
            } else {
                let stderr = decode_lossy(&output.stderr);
                if says_already_gone(&stderr) {
                    Ok(())
                } else {
                    Err(TmuxError::KillFailed(stderr))
                }
            }
        },
    }
}

/// What is to be written to the configuration file before a session is
/// created: the default configuration where the file does not exist yet,
/// nothing where it does, so that a user's changes stay.
pub fn config_to_create(present: bool) -> (contents: Option<&'static str>)
    ensures
        contents.deep_view() == (if present {
            None
        } else {
            Some(DEFAULT_TMUX_CONFIG@)
        }),
{
    if present {
        None
    } else {
        Some(DEFAULT_TMUX_CONFIG)
    }
}

/// The configuration in force: what the file holds, or the default
/// configuration where there is no file.
pub fn config_or_default(contents: Option<String>) -> (config: String)
    ensures
        config@ == (match contents {
            Some(text) => text@,
            None => DEFAULT_TMUX_CONFIG@,
        }),
{
    match contents {
        Some(text) => text,
        None => DEFAULT_TMUX_CONFIG.to_owned(),
    }
}

} // verus!
