use config_script::literal::{escape, hex_digit, push_escaped};

#[test]
fn escape_leaves_plain_text_alone() {
    assert_eq!(escape("{\"a\":1}"), "{\"a\":1}");
    assert_eq!(escape(""), "");
    assert_eq!(escape("\u{7f}\u{e9}\u{4e2d}\u{1f600}\"`$;"), "\u{7f}\u{e9}\u{4e2d}\u{1f600}\"`$;");
}

#[test]
fn escape_guards_quotes_and_backslashes() {
    assert_eq!(escape("a'b\\c"), "a\\'b\\\\c");
    assert_eq!(escape("'"), "\\'");
    assert_eq!(escape("\\"), "\\\\");
    assert_eq!(escape("\\'"), "\\\\\\'");
}

#[test]
fn escape_writes_line_breaks_by_code() {
    assert_eq!(
        escape("a\nb\r\u{2028}\u{2029}\u{0}"),
        "a\\u000ab\\u000d\\u2028\\u2029\\u0000"
    );
    assert_eq!(escape("\t\u{1f}"), "\\u0009\\u001f");
    assert_eq!(escape("\u{20}\u{2027}\u{202a}"), "\u{20}\u{2027}\u{202a}");
}

#[test]
fn escaped_text_holds_no_bare_quote_or_line_break() {
    let escaped = escape("x'y\n'z\r\\'\u{2028}");
    let characters: Vec<char> = escaped.chars().collect();
    for (i, c) in characters.iter().enumerate() {
        assert!(!matches!(*c, '\n' | '\r' | '\u{2028}' | '\u{2029}'));
        if *c == '\'' {
            assert_eq!(characters[i - 1], '\\');
        }
    }
}

#[test]
fn push_escaped_appends() {
    let mut out = String::from("ab");
    push_escaped(&mut out, 'c');
    push_escaped(&mut out, '\'');
    push_escaped(&mut out, '\n');
    assert_eq!(out, "abc\\'\\u000a");
}

#[test]
fn hex_digits() {
    let digits: String = (0..16).map(hex_digit).collect();
    assert_eq!(digits, "0123456789abcdef");
    assert_eq!(hex_digit(16), 'f');
    assert_eq!(hex_digit(u32::MAX), 'f');
}
