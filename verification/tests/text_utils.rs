use flash_desktop::host::or_fallback;
use flash_desktop::text::{
    chars_of, i32_to_decimal, join_first, replace, str_ends_with, str_equal, str_starts_with,
    str_trim_end_matches, str_trim_start, string_of, u64_to_decimal, white_space,
};

#[test]
fn decimal_text() {
    assert_eq!(u64_to_decimal(0), "0");
    assert_eq!(u64_to_decimal(7), "7");
    assert_eq!(u64_to_decimal(100000), "100000");
    assert_eq!(u64_to_decimal(u64::MAX), "18446744073709551615");
    assert_eq!(i32_to_decimal(-1), "-1");
    assert_eq!(i32_to_decimal(0), "0");
    assert_eq!(i32_to_decimal(i32::MIN), "-2147483648");
    assert_eq!(i32_to_decimal(42), "42");
}

#[test]
fn replace_every_occurrence() {
    assert_eq!(replace("https://a.com/https://", "https://", "wss://"), "wss://a.com/wss://");
    assert_eq!(replace("aaaa", "aa", "b"), "bb");
    assert_eq!(replace("aaa", "aa", "b"), "ba");
    assert_eq!(replace("", "x", "y"), "");
    assert_eq!(replace("héllo", "é", "e"), "hello");
}

#[test]
fn prefixes_and_suffixes() {
    assert!(str_starts_with("git status -s", "git status"));
    assert!(!str_starts_with("gi", "git"));
    assert!(str_ends_with("Safari.app", ".app"));
    assert!(!str_ends_with("app", ".app"));
    assert!(str_equal("main", "main"));
    assert!(!str_equal("main", "mai"));
}

#[test]
fn trimming() {
    assert_eq!(str_trim_start("  \t\n ls -la "), "ls -la ");
    assert_eq!(str_trim_start("\u{3000}pwd"), "pwd");
    assert_eq!(str_trim_start(""), "");
    assert_eq!(str_trim_end_matches("Zed.app.app", ".app"), "Zed");
    assert_eq!(str_trim_end_matches("Zed", ".app"), "Zed");
    assert_eq!(str_trim_end_matches(".app", ".app"), "");
    for c in ['\t', '\n', ' ', '\u{85}', '\u{a0}', '\u{2028}', '\u{3000}'] {
        assert_eq!(white_space(c), c.is_whitespace());
    }
    for c in ['a', '0', '\u{200b}', '\u{feff}'] {
        assert_eq!(white_space(c), c.is_whitespace());
    }
}

#[test]
fn chars_and_joining() {
    let v = chars_of("añb");
    assert_eq!(v, vec!['a', 'ñ', 'b']);
    assert_eq!(string_of(&v), "añb");
    let lines = vec!["a".to_string(), "b".to_string(), "c".to_string()];
    assert_eq!(join_first(&lines, 3, "\n"), "a\nb\nc");
    assert_eq!(join_first(&lines, 1, "\n"), "a");
    assert_eq!(join_first(&lines, 0, "\n"), "");
}

#[test]
fn fallback_names() {
    assert_eq!(or_fallback(Some("host".to_string()), "Unknown"), "host");
    assert_eq!(or_fallback(None, "Unknown"), "Unknown");
}
