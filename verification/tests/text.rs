use learning_async::text::{is_stop_command, is_whitespace, trim_bounds};

#[test]
fn stop_on_stdin_is_recognised() {
    assert!(is_stop_command(0, b"stop"));
    assert!(is_stop_command(0, b"stop\n"));
    assert!(is_stop_command(0, b"  stop \t\r\n"));
    assert!(is_stop_command(0, "\u{a0}stop\u{3000}".as_bytes()));
}

#[test]
fn stop_elsewhere_or_other_words_is_not() {
    assert!(!is_stop_command(1, b"stop\n"));
    assert!(!is_stop_command(5, b"stop"));
    assert!(!is_stop_command(0, b"STOP"));
    assert!(!is_stop_command(0, b"stopp"));
    assert!(!is_stop_command(0, b"st op"));
    assert!(!is_stop_command(0, b""));
    assert!(!is_stop_command(0, b"\n"));
}

#[test]
fn invalid_utf8_is_replaced_not_dropped() {
    // The invalid byte becomes U+FFFD, which is no white space.
    assert!(!is_stop_command(0, b"stop\xff"));
    assert!(!is_stop_command(0, b"\xffstop"));
}

#[test]
fn whitespace_matches_std() {
    for v in 0u32..0x3100 {
        if let Some(c) = char::from_u32(v) {
            assert_eq!(is_whitespace(c), c.is_whitespace(), "char {v:#x}");
        }
    }
    assert!(!is_whitespace('\u{fffd}'));
}

#[test]
fn trim_bounds_matches_str_trim() {
    for s in ["", " ", "a", " a ", "\t\nab c\r\n", "\u{2028}x\u{2029}", "  \u{85}"] {
        let chars: Vec<char> = s.chars().collect();
        let (a, b) = trim_bounds(&chars);
        let got: String = chars[a..b].iter().collect();
        assert_eq!(got, s.trim());
    }
}
