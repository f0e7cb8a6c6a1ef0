//! Text rules, held against the standard library.

use calendar_settings::text;

#[test]
fn white_space_is_that_of_unicode() {
    for n in 0..=0x10ffff_u32 {
        if let Some(c) = char::from_u32(n) {
            assert_eq!(text::white_space(c), c.is_whitespace(), "{n:x}");
        }
    }
}

#[test]
fn trimming() {
    for s in ["", " ", "a", " a", "a ", " \u{3000}a b\u{85}", "\u{200b}a"] {
        assert_eq!(text::trim(s), s.trim());
        assert_eq!(text::blank(s), s.trim().is_empty());
    }
    for s in ["", "/", "a/", "a//", "/a/b//", "/é/"] {
        assert_eq!(text::trim_end_matches(s, '/'), s.trim_end_matches('/'));
        assert_eq!(text::trim_start_matches(s, '/'), s.trim_start_matches('/'));
    }
}

#[test]
fn searching() {
    for s in ["", "expired", "Token expired", "é expired", "expire", "eexpired"] {
        assert_eq!(text::contains(s, "expired"), s.contains("expired"));
        assert_eq!(text::starts_with(s, "exp"), s.starts_with("exp"));
        assert_eq!(text::ends_with(s, "red"), s.ends_with("red"));
    }
    assert!(text::contains("x", ""));
    assert!(text::same_text("é", "é"));
    assert!(!text::same_text("e", "é"));
}

#[test]
fn splitting_and_joining() {
    for s in ["", ",", "a,b", ",a,,b,", "é,ß"] {
        let expected: Vec<String> = s.split(',').map(str::to_string).collect();
        assert_eq!(text::split(s, ','), expected);
        assert_eq!(text::join(&expected, ","), s);
        assert_eq!(text::split_once(s, ','), s.split_once(','));
    }
    for s in ["", "  ", "GET /x HTTP/1.1", " a\t b\r"] {
        let expected: Vec<String> = s.split_whitespace().map(str::to_string).collect();
        assert_eq!(text::split_whitespace(s), expected);
    }
    assert_eq!(text::join(&Vec::new(), ", "), "");
    assert_eq!(text::chars_of("aé"), vec!['a', 'é']);
}

#[test]
fn numbers() {
    for n in [0, 7, 10, 1440, u64::MAX as u128, u128::MAX] {
        assert_eq!(text::decimal_text(n), n.to_string());
    }
}

#[test]
fn case_of_ascii_letters() {
    for (a, b) in [
        ("#1A73E8", "#1a73e8"),
        ("a", "b"),
        ("É", "é"),
        ("a", "ab"),
        ("[", "{"),
        ("", ""),
    ] {
        assert_eq!(text::eq_ignore_ascii_case(a, b), a.eq_ignore_ascii_case(b), "{a} {b}");
    }
}
