use wazuh_agent_installer::text;

#[test]
fn contains_agrees_with_std() {
    let texts = ["", "a", "ab", "aab", "abab", "failed", "ffailed", "xfaile", "é—é", "—"];
    for hay in texts {
        for needle in texts {
            assert_eq!(text::contains(hay, needle), hay.contains(needle), "{hay:?} {needle:?}");
        }
    }
}

#[test]
fn same_compares_all_characters() {
    assert!(text::same("", ""));
    assert!(text::same("snort", "snort"));
    assert!(!text::same("snort", "Snort"));
    assert!(!text::same("snort", "snor"));
    assert!(!text::same("", "snort"));
    assert!(text::same("é—", "é—"));
}

#[test]
fn trim_treats_every_character_as_std() {
    let mut code: u32 = 0;
    while code <= 0x10ffff {
        if let Some(c) = char::from_u32(code) {
            let padded = format!("{c}x{c}");
            assert_eq!(text::trim(&padded), padded.trim(), "U+{code:04X}");
        }
        code += 1;
    }
}

#[test]
fn white_space_is_the_unicode_set() {
    let expected: Vec<u32> = vec![
        0x09, 0x0a, 0x0b, 0x0c, 0x0d, 0x20, 0x85, 0xa0, 0x1680, 0x2000, 0x2001, 0x2002, 0x2003,
        0x2004, 0x2005, 0x2006, 0x2007, 0x2008, 0x2009, 0x200a, 0x2028, 0x2029, 0x202f, 0x205f,
        0x3000,
    ];
    let found: Vec<u32> = (0..=0x10ffffu32)
        .filter(|code| char::from_u32(*code).is_some_and(|c| text::trim(&c.to_string()).is_empty()))
        .collect();
    assert_eq!(found, expected);
}

#[test]
fn trim_keeps_inner_white_space() {
    assert_eq!(text::trim(" \t a b \r\n"), "a b");
    assert_eq!(text::trim(""), "");
    assert_eq!(text::trim(" \n "), "");
    assert_eq!(text::trim("\u{3000}é é\u{a0}"), "é é");
}

#[test]
fn decimal_agrees_with_std() {
    for n in [0, 1, 9, 10, 11, 99, 100, 127, 255, -1, -9, -10, -128, i32::MAX, i32::MIN] {
        assert_eq!(text::decimal_text(n), n.to_string());
    }
    let mut n: i32 = -2000;
    while n <= 2000 {
        assert_eq!(text::decimal_text(n), n.to_string());
        n += 1;
    }
}

#[test]
fn joined_puts_one_behind_the_other() {
    assert_eq!(text::joined("a", "b"), "ab");
    assert_eq!(text::joined("", "b"), "b");
    assert_eq!(text::joined("a", ""), "a");
}
