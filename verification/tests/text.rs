use xlm::text::{skip_chars, starts_with, str_eq, trim};

#[test]
fn trim_removes_whitespace_on_both_sides() {
    assert_eq!(trim("  1.2.3 \n"), "1.2.3");
    assert_eq!(trim("\t\r\n v1 \u{a0}\u{3000}"), "v1");
    assert_eq!(trim("a b"), "a b");
}

#[test]
fn trim_of_whitespace_is_empty() {
    assert_eq!(trim(" \n\t"), "");
    assert_eq!(trim(""), "");
}

#[test]
fn trim_agrees_with_std_on_every_whitespace_character() {
    for n in 0u32..0x3100 {
        if let Some(c) = char::from_u32(n) {
            let s = format!("{c}x{c}");
            assert_eq!(trim(&s), s.trim(), "U+{n:04X}");
        }
    }
}

#[test]
fn starts_with_and_skip() {
    assert!(starts_with("url:https://x/", "url:"));
    assert!(!starts_with("ur", "url:"));
    assert!(starts_with("abc", ""));
    assert_eq!(skip_chars("file:/tmp/a", 5), "/tmp/a");
    assert_eq!(skip_chars("ab", 5), "");
    assert!(str_eq("a", "a"));
    assert!(!str_eq("a", "a "));
}
