use lightsnip::text::{contains, decimal_string, ends_with, trim};

#[test]
fn contains_finds_every_place() {
    assert!(contains("javaw.exe", "java"));
    assert!(contains("javaw.exe", "w.e"));
    assert!(contains("javaw.exe", ".exe"));
    assert!(contains("javaw.exe", "javaw.exe"));
    assert!(contains("aab", "ab"));
    assert!(contains("größe", "öß"));
}

#[test]
fn contains_refuses_what_is_not_there() {
    assert!(!contains("javaw.exe", "Java"));
    assert!(!contains("java", "javaw"));
    assert!(!contains("", "a"));
    assert!(!contains("abab", "abb"));
}

#[test]
fn the_empty_text_is_everywhere() {
    assert!(contains("", ""));
    assert!(contains("abc", ""));
    assert!(ends_with("", ""));
    assert!(ends_with("abc", ""));
}

#[test]
fn ends_with_looks_at_the_end_only() {
    assert!(ends_with("clip.mp4", ".mp4"));
    assert!(ends_with(".mp4", ".mp4"));
    assert!(!ends_with("mp4", ".mp4"));
    assert!(!ends_with("clip.mp4.png", ".mp4"));
    assert!(!ends_with("clip.MP4", ".mp4"));
}

#[test]
fn decimal_numerals() {
    assert_eq!(decimal_string(0), "0");
    assert_eq!(decimal_string(9), "9");
    assert_eq!(decimal_string(10), "10");
    assert_eq!(decimal_string(1080), "1080");
    assert_eq!(decimal_string(u64::MAX), "18446744073709551615");
    for n in 0..20_000u64 {
        assert_eq!(decimal_string(n), format!("{}", n));
    }
}

#[test]
fn trimming_removes_white_space_at_the_ends() {
    assert_eq!(trim(""), "");
    assert_eq!(trim(" \t\n"), "");
    assert_eq!(trim("hl2.exe"), "hl2.exe");
    assert_eq!(trim("  two words\u{3000}\n"), "two words");
    assert_eq!(trim(trim(" a ")), "a");
    for code in 0..=0x10ffffu32 {
        if let Some(c) = char::from_u32(code) {
            let text = format!("{}é{}x{}", c, c, c);
            assert_eq!(trim(&text), text.trim());
        }
    }
}
