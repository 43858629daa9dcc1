use helmor::cli_rpc::{frame_line, line_body};
use helmor::text::{
    chars_equal, chars_of, char_is_whitespace, contains_chars, join_chars, lines_of, push_decimal,
    push_signed_decimal, split_newline_chars, string_from_chars, trim_chars,
};

fn s(v: &str) -> Vec<char> {
    v.chars().collect()
}

#[test]
fn chars_round_trip() {
    let cs = chars_of("héllo ✓");
    assert_eq!(cs, s("héllo ✓"));
    assert_eq!(string_from_chars(&cs), "héllo ✓");
}

#[test]
fn whitespace_is_unicode_white_space() {
    for c in [' ', '\t', '\n', '\r', '\u{0B}', '\u{0C}', '\u{85}', '\u{A0}', '\u{2003}', '\u{3000}'] {
        assert!(char_is_whitespace(c), "{c:?}");
        assert_eq!(char_is_whitespace(c), c.is_whitespace());
    }
    for c in ['a', '0', '\u{200B}', '-', '✓'] {
        assert!(!char_is_whitespace(c), "{c:?}");
        assert_eq!(char_is_whitespace(c), c.is_whitespace());
    }
}

#[test]
fn trim_matches_str_trim() {
    for text in ["  a b  ", "\u{A0}x\u{3000}", "", "   ", "\n\tline\r\n", "no-trim"] {
        assert_eq!(trim_chars(&s(text)), s(text.trim()), "{text:?}");
    }
}

#[test]
fn split_and_lines_match_str() {
    for text in ["a\nb", "a\n", "", "\n", "a\r\nb\r\n", "x\r", "a\n\nb", "\r\n\r\n"] {
        let pieces: Vec<Vec<char>> = text.split('\n').map(s).collect();
        assert_eq!(split_newline_chars(&s(text)), pieces, "{text:?}");
        let lines: Vec<Vec<char>> = text.lines().map(s).collect();
        assert_eq!(lines_of(&s(text)), lines, "{text:?}");
    }
}

#[test]
fn join_and_contains() {
    assert_eq!(join_chars(&vec![s("a"), s("b"), s("c")], &s(" / ")), s("a / b / c"));
    assert_eq!(join_chars(&vec![], &s(",")), s(""));
    assert!(contains_chars(&s("INFO ok\nERROR bad"), &s("ERROR")));
    assert!(!contains_chars(&s("ERRO"), &s("ERROR")));
    assert!(contains_chars(&s("x"), &s("")));
    assert!(chars_equal(&s("local"), &s("local")));
    assert!(!chars_equal(&s("local"), &s("locals")));
}

#[test]
fn decimal_rendering() {
    let mut out = Vec::new();
    push_decimal(&mut out, 0);
    assert_eq!(out, s("0"));
    let mut out = Vec::new();
    push_decimal(&mut out, 340282366920938463463374607431768211455);
    assert_eq!(out, s("340282366920938463463374607431768211455"));
    let mut out = Vec::new();
    push_signed_decimal(&mut out, i64::MIN);
    assert_eq!(out, s("-9223372036854775808"));
    let mut out = s("#");
    push_signed_decimal(&mut out, 42);
    assert_eq!(out, s("#42"));
}

#[test]
fn framed_line_reads_back() {
    let payload = r#"{"cliRpcVersion":1,"request":{"kind":"githubPrShow","workspace_ref":"ws-1"}}"#;
    let line = frame_line(payload);
    assert_eq!(line, format!("{payload}\n"));
    assert_eq!(line_body(&line), payload);
    assert_eq!(line_body("  {}\r\n"), "{}");
}
