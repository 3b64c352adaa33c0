use easyenv::text::{
    behind_last, chars_of, joined, joined3, contains, decimal_text, ends_with, final_line,
    same_text, trim,
};

#[test]
fn white_space_is_trimmed_as_unicode_has_it() {
    for n in 0..=0x10FFFFu32 {
        if let Some(c) = char::from_u32(n) {
            if n < 0x3100 || c.is_whitespace() {
                let s = format!("{}x{}", c, c);
                assert_eq!(trim(&s), s.trim());
            }
        }
    }
    for n in [0x9u32, 0xA, 0xB, 0xC, 0xD, 0x20, 0x85, 0xA0, 0x1680, 0x2000, 0x200A, 0x2028, 0x2029, 0x202F, 0x205F, 0x3000] {
        assert_eq!(trim(&char::from_u32(n).unwrap().to_string()), "");
    }
    for n in [0x8u32, 0xE, 0x1F, 0x21, 0x84, 0x180E, 0x200B, 0xFEFF] {
        assert_eq!(trim(&char::from_u32(n).unwrap().to_string()).chars().count(), 1);
    }
    assert_eq!(trim("  a b \t\n"), "a b");
    assert_eq!(trim(""), "");
    assert_eq!(trim(" \n "), "");
}

#[test]
fn every_other_character_stays() {
    let mut spaces = 0;
    for n in 0..=0x10FFFFu32 {
        if let Some(c) = char::from_u32(n) {
            if c.is_whitespace() {
                spaces += 1;
            }
        }
    }
    assert_eq!(spaces, 25);
}

#[test]
fn parts_are_found() {
    assert!(contains("abc", "bc"));
    assert!(contains("abc", "abc"));
    assert!(contains("abc", ""));
    assert!(contains("", ""));
    assert!(contains("aab", "ab"));
    assert!(!contains("abc", "ac"));
    assert!(!contains("ab", "abc"));
    assert!(contains("日本語", "本"));
    assert!(ends_with("abc", "bc"));
    assert!(ends_with("abc", ""));
    assert!(!ends_with("abc", "ab"));
    assert!(!ends_with("c", "abc"));
    assert!(same_text("é", "é"));
    assert!(!same_text("a", "b"));
    assert!(!same_text("a", "aa"));
    assert_eq!(chars_of("aé日"), vec!['a', 'é', '日']);
}

#[test]
fn pieces_are_cut() {
    assert_eq!(behind_last("a/b/c", '/'), "c");
    assert_eq!(behind_last("abc", '/'), "abc");
    assert_eq!(behind_last("a/", '/'), "");
    assert_eq!(behind_last("", '/'), "");
    assert_eq!(joined("a", "b"), "ab");
    assert_eq!(joined3("a", "", "c"), "ac");
}

#[test]
fn last_line_is_that_of_the_standard_library() {
    for s in ["", "a", "a\n", "a\nb", "a\nb\n", "a\r\n", "a\n\n", "\n", "\r\n", "a\r", "x\r\n\r\n", "a\n\r", "\r\r\n"] {
        assert_eq!(final_line(s).as_deref(), s.lines().last());
    }
}

#[test]
fn numbers_are_written_in_decimal() {
    for n in [0u32, 7, 10, 42, 100, 999, 1000, 123456789, u32::MAX] {
        assert_eq!(decimal_text(n), n.to_string());
    }
}
