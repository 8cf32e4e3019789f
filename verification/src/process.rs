//! External commands as plain data: what to run, and what came back.
//!
//! Nothing here starts a process. A caller runs an [`Invocation`] and hands
//! the library the [`Outcome`]; the library decides what it means.

use vstd::prelude::*;
use vstd::utf8::*;

verus! {

/// A command to run to completion: the program, then its arguments in order.
#[derive(Clone, Debug, PartialEq, Eq)]
pub struct Invocation {
    pub program: String,
    pub args: Vec<String>,
}

/// What an [`Invocation`] holds, as text.
pub struct InvocationModel {
    pub program: Seq<char>,
    pub args: Seq<Seq<char>>,
}

impl DeepView for Invocation {
    type V = InvocationModel;

    open spec fn deep_view(&self) -> InvocationModel {
        InvocationModel { program: self.program@, args: self.args.deep_view() }
    }
}

/// What a finished command left behind.
#[derive(Clone, Debug, PartialEq, Eq)]
pub struct CommandOutput {
    /// Whether it exited with status zero.
    pub success: bool,
    pub stdout: Vec<u8>,
    pub stderr: Vec<u8>,
}

/// What a [`CommandOutput`] holds, as bytes.
pub struct CommandOutputModel {
    pub success: bool,
    pub stdout: Seq<u8>,
    pub stderr: Seq<u8>,
}

impl DeepView for CommandOutput {
    type V = CommandOutputModel;

    open spec fn deep_view(&self) -> CommandOutputModel {
        CommandOutputModel { success: self.success, stdout: self.stdout@, stderr: self.stderr@ }
    }
}

/// How the attempt to run a command ended.
#[derive(Clone, Debug, PartialEq, Eq)]
pub enum Outcome {
    /// There was no program to run, so nothing was started.
    Unavailable,
    /// The program could not be started; the text says why.
    Failed(String),
    /// The program ran and exited.
    Finished(CommandOutput),
}

/// What an [`Outcome`] holds.
pub enum OutcomeModel {
    Unavailable,
    Failed(Seq<char>),
    Finished(CommandOutputModel),
}

impl DeepView for Outcome {
    type V = OutcomeModel;

    open spec fn deep_view(&self) -> OutcomeModel {
        match self {
            Outcome::Unavailable => OutcomeModel::Unavailable,
            Outcome::Failed(why) => OutcomeModel::Failed(why@),
            Outcome::Finished(output) => OutcomeModel::Finished(output.deep_view()),
        }
    }
}

/// What the host told about the user, each part absent where it is unset.
#[derive(Clone, Debug, PartialEq, Eq)]
pub struct HostEnv {
    /// The user's configured shell.
    pub shell: Option<String>,
    /// The user's home directory.
    pub home: Option<String>,
    /// The user's login name.
    pub user: Option<String>,
}

/// What a [`HostEnv`] holds, as text.
pub struct HostEnvModel {
    pub shell: Option<Seq<char>>,
    pub home: Option<Seq<char>>,
    pub user: Option<Seq<char>>,
}

impl DeepView for HostEnv {
    type V = HostEnvModel;

    open spec fn deep_view(&self) -> HostEnvModel {
        HostEnvModel {
            shell: self.shell.deep_view(),
            home: self.home.deep_view(),
            user: self.user.deep_view(),
        }
    }
}

/// The shell to fall back on where the user has configured none.
pub const FALLBACK_SHELL: &'static str = "/bin/sh";

/// The shell that `host` asks for: the configured one, else [`FALLBACK_SHELL`].
pub open spec fn shell_of(host: HostEnvModel) -> Seq<char> {
    match host.shell {
        Some(shell) => shell,
        None => FALLBACK_SHELL@,
    }
}

/// The shell to start for the user of `host`.
pub fn default_shell(host: &HostEnv) -> (shell: String)
    ensures
        shell@ == shell_of(host.deep_view()),
{
    match &host.shell {
        Some(shell) => shell.clone(),
        None => FALLBACK_SHELL.to_owned(),
    }
}

/// `path` with a leading `~` replaced by `home`: only where the `~` stands
/// alone or before a `/`, and only where a home directory is known.
pub open spec fn tilde_expanded(path: Seq<char>, home: Option<Seq<char>>) -> Seq<char> {
    if path.len() > 0 && path[0] == '~' && (path.len() == 1 || path[1] == '/') && home is Some {
        home->0 + path.skip(1)
    } else {
        path
    }
}

/// Expands a leading `~` in `path` to `home`.
///
/// Calls `shellexpand::tilde_with_context` with `home` as the home directory.
/// The contract states its documented result on Unix-like systems: the tilde
/// is replaced where it stands alone or before a slash and `home` is known,
/// and the path comes back as it is otherwise.
#[verifier::external_body]
pub(crate) fn expand_tilde(path: &str, home: &Option<String>) -> (expanded: String)
    ensures
        expanded@ == tilde_expanded(path@, home.deep_view()),
{
    shellexpand::tilde_with_context(path, || home.as_deref()).into_owned()
}

/// The text that lossy UTF-8 decoding makes of `bytes`: each ill-formed
/// sequence becomes one replacement character.
pub uninterp spec fn utf8_lossy(bytes: Seq<u8>) -> Seq<char>;

/// Decodes `bytes` as UTF-8, replacing what is ill-formed.
///
/// Calls `String::from_utf8_lossy`. The contract names its result, and adds
/// what the standard library documents of well-formed input: it is decoded
/// as it stands.
#[verifier::external_body]
pub(crate) fn decode_lossy(bytes: &Vec<u8>) -> (text: String)
    ensures
        text@ == utf8_lossy(bytes@),
        valid_utf8(bytes@) ==> text@ == decode_utf8(bytes@),
{
    String::from_utf8_lossy(bytes).into_owned()
}

/// Decodes `bytes` as UTF-8, or refuses them.
///
/// Calls `String::from_utf8`. The contract says what the standard library
/// documents: the bytes are accepted exactly when they are well-formed UTF-8,
/// and the text is then their decoding.
#[verifier::external_body]
pub(crate) fn decode_strict(bytes: &Vec<u8>) -> (text: Option<String>)
    ensures
        (text is Some) == valid_utf8(bytes@),
        text matches Some(t) ==> t@ == decode_utf8(bytes@),
{
    String::from_utf8(bytes.clone()).ok()
}

/// What `result` holds, success or failure, as its view.
pub open spec fn result_view<T: DeepView, E: DeepView>(result: Result<T, E>) -> Result<T::V, E::V> {
    match result {
        Ok(value) => Ok(value.deep_view()),
        Err(error) => Err(error.deep_view()),
    }
}

/// Appends `text` to `list` as a string of its own.
pub fn push_text(list: &mut Vec<String>, text: &str)
    ensures
        final(list).deep_view() == old(list).deep_view().push(text@),
{
    let ghost before = list.deep_view();
    list.push(text.to_owned());
    assert(list.deep_view() =~= before.push(text@));
}

/// A copy of `list`.
pub fn copy_texts(list: &Vec<String>) -> (r: Vec<String>)
    ensures
        r.deep_view() == list.deep_view(),
{
    let mut r: Vec<String> = Vec::new();
    let mut i: usize = 0;
    assert(r.deep_view() =~= list.deep_view().take(0));
    while i < list.len()
        invariant
            i <= list.len(),
            r.deep_view() == list.deep_view().take(i as int),
        decreases list.len() - i,
    {
        let ghost before = r.deep_view();
        r.push(list[i].clone());
        assert(r.deep_view() =~= before.push(list[i as int]@));
        assert(list.deep_view().take(i + 1) =~= list.deep_view().take(i as int).push(
            list[i as int]@,
        ));
        i += 1;
    }
    assert(list.deep_view().take(list.len() as int) =~= list.deep_view());
    r
}

/// A copy of `text`, where there is one.
pub fn copy_optional_text(text: &Option<String>) -> (r: Option<String>)
    ensures
        r.deep_view() == text.deep_view(),
{
    match text {
        Some(t) => Some(t.clone()),
        None => None,
    }
}

} // verus!
