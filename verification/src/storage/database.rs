//! The records of the relational store and the arithmetic around them.
//!
//! The store itself is not here. These are the values that go into and come
//! out of its rows, the argument list as the JSON text that a row holds, and
//! the decisions that go with them.

use vstd::prelude::*;

verus! {

/// How the terminal looks and behaves, as the user set it.
#[derive(Clone, Debug, PartialEq, Eq)]
pub struct TerminalPreferences {
    pub font_size: i32,
    pub font_family: String,
    pub scrollback: i32,
    pub cursor_blink: bool,
    pub minimap_refresh_ms: i32,
    pub use_webgl: bool,
    pub shell_path: String,
}

/// What a [`TerminalPreferences`] holds, as text.
pub struct TerminalPreferencesModel {
    pub font_size: i32,
    pub font_family: Seq<char>,
    pub scrollback: i32,
    pub cursor_blink: bool,
    pub minimap_refresh_ms: i32,
    pub use_webgl: bool,
    pub shell_path: Seq<char>,
}

impl DeepView for TerminalPreferences {
    type V = TerminalPreferencesModel;

    open spec fn deep_view(&self) -> TerminalPreferencesModel {
        TerminalPreferencesModel {
            font_size: self.font_size,
            font_family: self.font_family@,
            scrollback: self.scrollback,
            cursor_blink: self.cursor_blink,
            minimap_refresh_ms: self.minimap_refresh_ms,
            use_webgl: self.use_webgl,
            shell_path: self.shell_path@,
        }
    }
}

/// The shell of a user who has set none.
pub const DEFAULT_SHELL_PATH: &'static str = "/bin/zsh";

/// The preferences of a user who has set none.
pub open spec fn default_preferences() -> TerminalPreferencesModel {
    TerminalPreferencesModel {
        font_size: 13,
        font_family: "SF Mono"@,
        scrollback: 10000,
        cursor_blink: true,
        minimap_refresh_ms: 200,
        use_webgl: true,
        shell_path: DEFAULT_SHELL_PATH@,
    }
}

impl Default for TerminalPreferences {
    fn default() -> (preferences: Self)
        ensures
            preferences.deep_view() == default_preferences(),
    {
        TerminalPreferences {
            font_size: 13,
            font_family: "SF Mono".to_owned(),
            scrollback: 10000,
            cursor_blink: true,
            minimap_refresh_ms: 200,
            use_webgl: true,
            shell_path: DEFAULT_SHELL_PATH.to_owned(),
        }
    }
}

/// The preferences that a row of the store holds. A flag is set where its
/// column is not zero; a row from before the last two columns existed has
/// WebGL on and the default shell.
pub open spec fn preferences_in_row(
    font_size: i32,
    font_family: Seq<char>,
    scrollback: i32,
    cursor_blink: i32,
    minimap_refresh_ms: i32,
    use_webgl: Option<i32>,
    shell_path: Option<Seq<char>>,
) -> TerminalPreferencesModel {
    TerminalPreferencesModel {
        font_size,
        font_family,
        scrollback,
        cursor_blink: cursor_blink != 0,
        minimap_refresh_ms,
        use_webgl: match use_webgl {
            Some(flag) => flag != 0,
            None => true,
        },
        shell_path: match shell_path {
            Some(path) => path,
            None => DEFAULT_SHELL_PATH@,
        },
    }
}

/// Reads the preferences out of the columns of a row.
pub fn preferences_from_row(
    font_size: i32,
    font_family: String,
    scrollback: i32,
    cursor_blink: i32,
    minimap_refresh_ms: i32,
    use_webgl: Option<i32>,
    shell_path: Option<String>,
) -> (preferences: TerminalPreferences)
    ensures
        preferences.deep_view() == preferences_in_row(
            font_size,
            font_family@,
            scrollback,
            cursor_blink,
            minimap_refresh_ms,
            use_webgl,
            shell_path.deep_view(),
        ),
{
    TerminalPreferences {
        font_size,
        font_family,
        scrollback,
        cursor_blink: cursor_blink != 0,
        minimap_refresh_ms,
        use_webgl: match use_webgl {
            Some(flag) => flag != 0,
            None => true,
        },
        shell_path: match shell_path {
            Some(path) => path,
            None => DEFAULT_SHELL_PATH.to_owned(),
        },
    }
}

/// The number that a row holds for a flag: 1 where it is set, else 0.
pub fn flag_column(flag: bool) -> (column: i32)
    ensures
        column == if flag {
            1i32
        } else {
            0i32
        },
{
    if flag {
        1
    } else {
        0
    }
}

/// One terminal session as the store remembers it.
#[derive(Clone, Debug, PartialEq, Eq)]
pub struct TerminalSessionRecord {
    pub id: String,
    pub command: String,
    pub args: Vec<String>,
    pub cwd: Option<String>,
    pub created_at: i64,
    pub ended_at: Option<i64>,
    pub exit_code: Option<i32>,
}

/// What a [`TerminalSessionRecord`] holds, as text.
pub struct TerminalSessionRecordModel {
    pub id: Seq<char>,
    pub command: Seq<char>,
    pub args: Seq<Seq<char>>,
    pub cwd: Option<Seq<char>>,
    pub created_at: i64,
    pub ended_at: Option<i64>,
    pub exit_code: Option<i32>,
}

impl DeepView for TerminalSessionRecord {
    type V = TerminalSessionRecordModel;

    open spec fn deep_view(&self) -> TerminalSessionRecordModel {
        TerminalSessionRecordModel {
            id: self.id@,
            command: self.command@,
            args: self.args.deep_view(),
            cwd: self.cwd.deep_view(),
            created_at: self.created_at,
            ended_at: self.ended_at,
            exit_code: self.exit_code,
        }
    }
}

/// How many seconds a day has.
pub const SECONDS_PER_DAY: i64 = 86400;

/// The time before which ended sessions are forgotten, where `days_to_keep`
/// days before `now` is a time that 64 bits can hold.
pub open spec fn cutoff_before(now: i64, days_to_keep: i64) -> Option<i64> {
    if i64::MIN <= days_to_keep * SECONDS_PER_DAY <= i64::MAX && i64::MIN <= now - days_to_keep
        * SECONDS_PER_DAY <= i64::MAX {
        Some((now - days_to_keep * SECONDS_PER_DAY) as i64)
    } else {
        None
    }
}

/// The time, in seconds since the epoch, before which ended sessions are
/// forgotten: `days_to_keep` days before `now`. Absent where that time is
/// out of range.
pub fn cleanup_cutoff(now: i64, days_to_keep: i64) -> (cutoff: Option<i64>)
    ensures
        cutoff == cutoff_before(now, days_to_keep),
{
    match days_to_keep.checked_mul(SECONDS_PER_DAY) {
        Some(span) => now.checked_sub(span),
        None => None,
    }
}

/// The JSON text that `serde_json` writes for the list of strings `args`,
/// where it writes one.
pub uninterp spec fn json_of_strings(args: Seq<Seq<char>>) -> Option<Seq<char>>;

/// The list of strings that `serde_json` reads from the JSON text `text`,
/// where it is one.
pub uninterp spec fn strings_of_json(text: Seq<char>) -> Option<Seq<Seq<char>>>;

/// `serde_json::Error`, of which nothing is read: it only says that no JSON
/// was written or read.
#[verifier::external_type_specification]
#[verifier::external_body]
pub struct ExJsonError(serde_json::Error);

/// Writes `args` as JSON text.
///
/// Calls `serde_json::to_string`. The contract names what it returns, and
/// says that a list of strings is always written: the function fails only
/// where a value refuses to be written or a map has a key that is no string,
/// and a list of strings holds neither.
#[verifier::external_body]
fn strings_to_json(args: &Vec<String>) -> (written: Result<String, serde_json::Error>)
    ensures
        written is Ok,
        written.ok().deep_view() == json_of_strings(args.deep_view()),
{
    serde_json::to_string(args)
}

/// Reads a list of strings from JSON text.
///
/// Calls `serde_json::from_str`. The contract only names what it returns.
#[verifier::external_body]
fn json_to_strings(text: &str) -> (read: Result<Vec<String>, serde_json::Error>)
    ensures
        read.ok().deep_view() == strings_of_json(text@),
{
    serde_json::from_str::<Vec<String>>(text)
}

/// The text that a row holds for an argument list, given what writing it as
/// JSON came to: the JSON, or the empty list `[]` where none was written.
pub open spec fn args_column(written: Option<Seq<char>>) -> Seq<char> {
    match written {
        Some(json) => json,
        None => "[]"@,
    }
}

/// The argument list that a row holds, given what reading its text as JSON
/// came to: the list, or no arguments where the text is no list of strings.
pub open spec fn args_in_column(read: Option<Seq<Seq<char>>>) -> Seq<Seq<char>> {
    match read {
        Some(args) => args,
        None => Seq::empty(),
    }
}

/// Settles what a row holds for an argument list, given what writing it as
/// JSON came to.
pub fn args_column_from(written: Option<String>) -> (column: String)
    ensures
        column@ == args_column(written.deep_view()),
{
    match written {
        Some(json) => json,
        None => "[]".to_owned(),
    }
}

/// Settles the argument list of a row, given what reading its text as JSON
/// came to.
pub fn args_from_column(read: Option<Vec<String>>) -> (args: Vec<String>)
    ensures
        args.deep_view() == args_in_column(read.deep_view()),
{
    match read {
        Some(args) => args,
        None => {
            let none: Vec<String> = Vec::new();
            assert(none.deep_view() =~= Seq::<Seq<char>>::empty());
            none
        },
    }
}

/// The text that a row holds for the argument list `args`: the list as JSON.
pub fn encode_args(args: &Vec<String>) -> (column: String)
    ensures
        json_of_strings(args.deep_view()) == Some(column@),
        column@ == args_column(json_of_strings(args.deep_view())),
{
    args_column_from(strings_to_json(args).ok())
}

/// The argument list that the text `column` of a row holds.
pub fn decode_args(column: &str) -> (args: Vec<String>)
    ensures
        args.deep_view() == args_in_column(strings_of_json(column@)),
{
    args_from_column(json_to_strings(column).ok())
}

} // verus!
