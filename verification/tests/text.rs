use openai_oauth_proxy::text::{
    contains_str, decimal_string, ends_with_str, eq_ignore_ascii_case_str, join_strings,
    lines_of, split_on_char, split_once_on_char, starts_with_str, take_chars_str, trim,
    trim_end_matches_char, trim_start_matches_str, words_of,
};

const SAMPLES: [&str; 10] = [
    "",
    "  a b  ",
    "\u{3000}x\u{2028}",
    "\u{200b}y\u{85}",
    "line1\r\nline2\n\nline3\r",
    "a\n",
    "\n",
    " data: data:x ",
    "x,,y,",
    "é ü\t\u{a0}z",
];

#[test]
fn trim_matches_std() {
    for s in SAMPLES {
        assert_eq!(trim(s), s.trim(), "{:?}", s);
    }
}

#[test]
fn lines_match_std() {
    for s in SAMPLES {
        let expected: Vec<String> = s.lines().map(String::from).collect();
        assert_eq!(lines_of(s), expected, "{:?}", s);
    }
}

#[test]
fn words_match_std() {
    for s in SAMPLES {
        let expected: Vec<String> = s.split_whitespace().map(String::from).collect();
        assert_eq!(words_of(s), expected, "{:?}", s);
    }
}

#[test]
fn split_matches_std() {
    for s in SAMPLES {
        let expected: Vec<String> = s.split(',').map(String::from).collect();
        assert_eq!(split_on_char(s, ','), expected, "{:?}", s);
        let once = s.split_once('\n').map(|(a, b)| (a.to_string(), b.to_string()));
        assert_eq!(split_once_on_char(s, '\n'), once, "{:?}", s);
    }
}

#[test]
fn affixes_match_std() {
    for s in SAMPLES {
        for p in ["", "a", " data:", "x", "\r", "data:"] {
            assert_eq!(starts_with_str(s, p), s.starts_with(p));
            assert_eq!(ends_with_str(s, p), s.ends_with(p));
            assert_eq!(contains_str(s, p), s.contains(p));
            assert_eq!(trim_start_matches_str(s, p), s.trim_start_matches(p));
        }
        assert_eq!(trim_end_matches_char(s, ','), s.trim_end_matches(','));
        assert_eq!(take_chars_str(s, 3), s.chars().take(3).collect::<String>());
    }
}

#[test]
fn ascii_case_and_numbers() {
    assert!(eq_ignore_ascii_case_str("PrOxY", "proxy"));
    assert!(!eq_ignore_ascii_case_str("proxy", "proxies"));
    assert!(!eq_ignore_ascii_case_str("É", "é"));
    for n in [0u64, 7, 10, 99, 12345, u64::MAX] {
        assert_eq!(decimal_string(n), n.to_string());
    }
    let parts = vec!["a".to_string(), "".to_string(), "b".to_string()];
    assert_eq!(join_strings(&parts, "\n"), parts.join("\n"));
    assert_eq!(join_strings(&Vec::new(), "\n"), "");
}
