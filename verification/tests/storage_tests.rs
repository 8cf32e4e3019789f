use wiz_term::pty::commands::{reconnect_geometry, reconnectable_sessions, ReconnectableSession};
use wiz_term::pty::tmux::TmuxSessionInfo;
use wiz_term::storage::database::{
    args_column_from, args_from_column, cleanup_cutoff, decode_args, encode_args, flag_column,
    preferences_from_row, TerminalPreferences, TerminalSessionRecord, DEFAULT_SHELL_PATH,
    SECONDS_PER_DAY,
};

fn strings(items: &[&str]) -> Vec<String> {
    items.iter().map(|s| s.to_string()).collect()
}

#[test]
fn default_preferences_are_the_documented_ones() {
    assert_eq!(
        TerminalPreferences::default(),
        TerminalPreferences {
            font_size: 13,
            font_family: "SF Mono".to_string(),
            scrollback: 10000,
            cursor_blink: true,
            minimap_refresh_ms: 200,
            use_webgl: true,
            shell_path: "/bin/zsh".to_string(),
        }
    );
    assert_eq!(DEFAULT_SHELL_PATH, "/bin/zsh");
}

#[test]
fn row_columns_become_preferences() {
    let full = preferences_from_row(
        15,
        "Menlo".to_string(),
        500,
        0,
        100,
        Some(0),
        Some("/bin/bash".to_string()),
    );
    assert_eq!(
        full,
        TerminalPreferences {
            font_size: 15,
            font_family: "Menlo".to_string(),
            scrollback: 500,
            cursor_blink: false,
            minimap_refresh_ms: 100,
            use_webgl: false,
            shell_path: "/bin/bash".to_string(),
        }
    );
    let old = preferences_from_row(15, "Menlo".to_string(), 500, 7, 100, None, None);
    assert!(old.cursor_blink);
    assert!(old.use_webgl);
    assert_eq!(old.shell_path, "/bin/zsh");
    assert!(preferences_from_row(1, String::new(), 1, -1, 1, Some(2), None).use_webgl);
    assert_eq!(flag_column(true), 1);
    assert_eq!(flag_column(false), 0);
}

#[test]
fn cutoff_is_days_before_now() {
    assert_eq!(SECONDS_PER_DAY, 24 * 60 * 60);
    assert_eq!(cleanup_cutoff(1_700_000_000, 7), Some(1_700_000_000 - 604_800));
    assert_eq!(cleanup_cutoff(0, 0), Some(0));
    assert_eq!(cleanup_cutoff(100, -1), Some(100 + 86_400));
    assert_eq!(cleanup_cutoff(0, i64::MAX), None);
    assert_eq!(cleanup_cutoff(i64::MIN, 1), None);
    assert_eq!(cleanup_cutoff(i64::MIN + 86_400, 1), Some(i64::MIN));
}

#[test]
fn arguments_are_kept_as_a_json_list() {
    assert_eq!(encode_args(&strings(&[])), "[]");
    assert_eq!(encode_args(&strings(&["-l"])), "[\"-l\"]");
    assert_eq!(encode_args(&strings(&["a b", "c\"d", "é\n"])), "[\"a b\",\"c\\\"d\",\"é\\n\"]");
    assert_eq!(decode_args("[\"-l\", \"x\"]"), strings(&["-l", "x"]));
    assert_eq!(decode_args("[]"), strings(&[]));
}

#[test]
fn text_that_is_no_list_of_strings_holds_no_arguments() {
    assert_eq!(decode_args(""), strings(&[]));
    assert_eq!(decode_args("not json"), strings(&[]));
    assert_eq!(decode_args("[1, 2]"), strings(&[]));
    assert_eq!(decode_args("{\"a\": \"b\"}"), strings(&[]));
    assert_eq!(decode_args("[\"open"), strings(&[]));
    assert_eq!(args_from_column(None), strings(&[]));
    assert_eq!(args_from_column(Some(strings(&["x"]))), strings(&["x"]));
    assert_eq!(args_column_from(None), "[]");
    assert_eq!(args_column_from(Some("[\"x\"]".to_string())), "[\"x\"]");
}

#[test]
fn arguments_come_back_as_they_went_in() {
    for args in [
        strings(&[]),
        strings(&[""]),
        strings(&["-c", "echo \"hi\" && ls ~"]),
        strings(&["tab\there", "uni\u{2028}code", "back\\slash"]),
    ] {
        assert_eq!(decode_args(&encode_args(&args)), args);
    }
}

#[test]
fn session_record_holds_its_fields() {
    let record = TerminalSessionRecord {
        id: "a".to_string(),
        command: "sh".to_string(),
        args: decode_args("[\"-c\",\"true\"]"),
        cwd: None,
        created_at: 5,
        ended_at: Some(9),
        exit_code: Some(0),
    };
    assert_eq!(record.args, strings(&["-c", "true"]));
    assert_eq!(record.clone(), record);
}

#[test]
fn reconnectable_session_keeps_every_field() {
    let info = TmuxSessionInfo {
        session_id: "a".to_string(),
        tmux_session_name: "wizterm-a".to_string(),
        created_at: 1700000000,
        attached: true,
    };
    let expected = ReconnectableSession {
        session_id: "a".to_string(),
        tmux_session_name: "wizterm-a".to_string(),
        created_at: 1700000000,
        attached: true,
    };
    assert_eq!(ReconnectableSession::from(info.clone()), expected);
    let other = TmuxSessionInfo {
        session_id: "b".to_string(),
        tmux_session_name: "wizterm-b".to_string(),
        created_at: 3,
        attached: false,
    };
    let both = reconnectable_sessions(vec![info, other.clone()]);
    assert_eq!(both, vec![expected, ReconnectableSession::from(other)]);
    assert_eq!(reconnectable_sessions(Vec::new()), Vec::new());
}

#[test]
fn reconnect_geometry_defaults_to_eighty_by_twenty_four() {
    assert_eq!(reconnect_geometry(None, None), (80, 24));
    assert_eq!(reconnect_geometry(Some(100), None), (100, 24));
    assert_eq!(reconnect_geometry(None, Some(40)), (80, 40));
    assert_eq!(reconnect_geometry(Some(1), Some(2)), (1, 2));
}
