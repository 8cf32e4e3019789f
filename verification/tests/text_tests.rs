use wiz_term::text::{
    find_last_word, has_substring, is_whitespace, join_text, parse_i64, remove_prefix, same_text,
    split_at_char, split_lines, starts_with, to_chars, trim,
};

fn owned(items: &[&str]) -> Vec<String> {
    items.iter().map(|s| s.to_string()).collect()
}

#[test]
fn whitespace_agrees_with_std_on_every_char() {
    for code in 0u32..=0x10FFFF {
        if let Some(c) = char::from_u32(code) {
            assert_eq!(is_whitespace(c), c.is_whitespace(), "U+{:04X}", code);
        }
    }
}

#[test]
fn trim_removes_white_space_at_both_ends() {
    assert_eq!(trim("  /usr/bin/tmux\n"), "/usr/bin/tmux");
    assert_eq!(trim("\t\r\n a b \u{3000}\u{a0}"), "a b");
    assert_eq!(trim(""), "");
    assert_eq!(trim(" \n\t"), "");
    assert_eq!(trim("x"), "x");
    assert_eq!(trim("tmux 3.4\n"), "tmux 3.4");
}

#[test]
fn trim_agrees_with_std() {
    let samples = [
        "", " ", "a", " a", "a ", " a b ", "\u{85}x\u{2028}", "é \u{205f}", "\n\n", "a\u{200b}",
        "\u{feff}a", " \u{1680}wide\u{2003} ",
    ];
    for s in samples {
        assert_eq!(trim(s), s.trim(), "{:?}", s);
    }
}

#[test]
fn split_always_gives_at_least_one_piece() {
    assert_eq!(split_at_char("", ':'), owned(&[""]));
    assert_eq!(split_at_char("abc", ':'), owned(&["abc"]));
    assert_eq!(split_at_char("a:b:c", ':'), owned(&["a", "b", "c"]));
    assert_eq!(split_at_char(":a::", ':'), owned(&["", "a", "", ""]));
    assert_eq!(split_at_char("wizterm-1:170:0", ':'), owned(&["wizterm-1", "170", "0"]));
}

#[test]
fn split_agrees_with_std() {
    let samples = ["", ":", "::", "a", "a:", ":a", "é:ü:", "a:b:c:d", "no colon"];
    for s in samples {
        let expected: Vec<String> = s.split(':').map(|p| p.to_string()).collect();
        assert_eq!(split_at_char(s, ':'), expected, "{:?}", s);
    }
}

#[test]
fn lines_end_at_line_feeds() {
    assert_eq!(split_lines(""), owned(&[]));
    assert_eq!(split_lines("\n"), owned(&[""]));
    assert_eq!(split_lines("a"), owned(&["a"]));
    assert_eq!(split_lines("a\n"), owned(&["a"]));
    assert_eq!(split_lines("a\nb"), owned(&["a", "b"]));
    assert_eq!(split_lines("a\r\nb\r\n"), owned(&["a", "b"]));
    assert_eq!(split_lines("a\n\nb"), owned(&["a", "", "b"]));
}

#[test]
fn last_line_keeps_a_lone_carriage_return() {
    assert_eq!(split_lines("foo\nbar\n\r\nbaz\r"), owned(&["foo", "bar", "", "baz\r"]));
    assert_eq!(split_lines("a\r"), owned(&["a\r"]));
    assert_eq!(split_lines("a\r\r\n"), owned(&["a\r"]));
}

#[test]
fn lines_agree_with_std() {
    let samples = [
        "", "\n", "\r\n", "\r", "a", "a\n", "a\r\n", "a\rb\n", "\n\n", "x\n\r\ny", "é\nü\r",
        "one\ntwo\nthree", "\r\r\n\r",
    ];
    for s in samples {
        let expected: Vec<String> = s.lines().map(|p| p.to_string()).collect();
        assert_eq!(split_lines(s), expected, "{:?}", s);
    }
}

#[test]
fn prefix_is_recognised_and_removed() {
    assert!(starts_with("wizterm-abc", "wizterm-"));
    assert!(starts_with("wizterm-", "wizterm-"));
    assert!(starts_with("anything", ""));
    assert!(!starts_with("wizterm", "wizterm-"));
    assert!(!starts_with("xwizterm-abc", "wizterm-"));
    assert_eq!(remove_prefix("wizterm-abc", "wizterm-"), Some("abc".to_string()));
    assert_eq!(remove_prefix("wizterm-", "wizterm-"), Some(String::new()));
    assert_eq!(remove_prefix("other-abc", "wizterm-"), None);
}

#[test]
fn substring_is_found_anywhere() {
    assert!(has_substring("error: session not found: x", "session not found"));
    assert!(has_substring("no server running on /tmp/x", "no server running"));
    assert!(has_substring("abc", ""));
    assert!(has_substring("", ""));
    assert!(has_substring("abc", "abc"));
    assert!(has_substring("aab", "ab"));
    assert!(!has_substring("abc", "abcd"));
    assert!(!has_substring("session not foun", "session not found"));
    assert!(!has_substring("", "a"));
}

#[test]
fn decimal_numbers_are_read_exactly() {
    assert_eq!(parse_i64("0"), Some(0));
    assert_eq!(parse_i64("1700000000"), Some(1700000000));
    assert_eq!(parse_i64("-42"), Some(-42));
    assert_eq!(parse_i64("+42"), Some(42));
    assert_eq!(parse_i64("-0"), Some(0));
    assert_eq!(parse_i64("0007"), Some(7));
    assert_eq!(parse_i64("9223372036854775807"), Some(i64::MAX));
    assert_eq!(parse_i64("-9223372036854775808"), Some(i64::MIN));
}

#[test]
fn what_is_no_decimal_number_is_refused() {
    assert_eq!(parse_i64(""), None);
    assert_eq!(parse_i64("+"), None);
    assert_eq!(parse_i64("-"), None);
    assert_eq!(parse_i64(" 1"), None);
    assert_eq!(parse_i64("1 "), None);
    assert_eq!(parse_i64("1.5"), None);
    assert_eq!(parse_i64("+-1"), None);
    assert_eq!(parse_i64("12a"), None);
    assert_eq!(parse_i64("٣"), None);
    assert_eq!(parse_i64("9223372036854775808"), None);
    assert_eq!(parse_i64("-9223372036854775809"), None);
    assert_eq!(parse_i64("99999999999999999999999999999999999999999999"), None);
    assert_eq!(parse_i64("99999999999999999999999999999999999999999999x"), None);
}

#[test]
fn decimal_numbers_agree_with_std() {
    let samples = [
        "", "0", "-", "+", "--1", "00", "-00", "+0", "1_000", "0x10", "123456789012345678",
        "9223372036854775806", "9223372036854775807", "9223372036854775808",
        "-9223372036854775807", "-9223372036854775808", "-9223372036854775809",
        "00000000000000000000000000000000000009223372036854775807", "1e3", "１２",
    ];
    for s in samples {
        assert_eq!(parse_i64(s), s.parse::<i64>().ok(), "{:?}", s);
    }
}

#[test]
fn last_word_is_the_last_run_without_white_space() {
    assert_eq!(find_last_word("UserShell: /bin/zsh\n"), Some("/bin/zsh".to_string()));
    assert_eq!(find_last_word("one"), Some("one".to_string()));
    assert_eq!(find_last_word("  one  "), Some("one".to_string()));
    assert_eq!(find_last_word("a b\tc"), Some("c".to_string()));
    assert_eq!(find_last_word(""), None);
    assert_eq!(find_last_word(" \n\t "), None);
}

#[test]
fn last_word_agrees_with_std() {
    let samples = ["", " ", "a", "a b", " a b ", "x\u{a0}y", "UserShell: /bin/bash\n", "é ü\n"];
    for s in samples {
        let expected = s.split_whitespace().last().map(|w| w.to_string());
        assert_eq!(find_last_word(s), expected, "{:?}", s);
    }
}

#[test]
fn texts_compare_by_their_characters() {
    assert!(same_text("", ""));
    assert!(same_text("0", "0"));
    assert!(!same_text("0", "1"));
    assert!(!same_text("0", "00"));
    assert!(!same_text("é", "e"));
}

#[test]
fn characters_and_substrings_count_characters_not_bytes() {
    assert_eq!(to_chars("aé€"), vec!['a', 'é', '€']);
    assert_eq!(remove_prefix("aé€z", "aé"), Some("€z".to_string()));
    assert_eq!(join_text("Session not found: ", "abc"), "Session not found: abc");
}
