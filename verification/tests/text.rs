use magiclink::text::{concat3, is_white_space, strip_trailing_char, trim};

#[test]
fn trim_removes_unicode_whitespace_at_both_ends() {
    assert_eq!(trim("\u{a0}\t a b \u{3000}\n"), "a b");
    assert_eq!(trim(""), "");
    assert_eq!(trim(" \t "), "");
}

#[test]
fn trailing_slashes_are_stripped() {
    assert_eq!(strip_trailing_char("http://x///", '/'), "http://x");
    assert_eq!(strip_trailing_char("///", '/'), "");
    assert_eq!(strip_trailing_char("a/b", '/'), "a/b");
}

#[test]
fn concat_joins_three_texts() {
    assert_eq!(concat3("a", "", "ő"), "aő");
}

#[test]
fn white_space_matches_std() {
    for code in 0u32..=0x3100 {
        if let Some(c) = char::from_u32(code) {
            assert_eq!(is_white_space(c), c.is_whitespace(), "{code:#x}");
        }
    }
    for c in ['\u{feff}', '\u{200b}', '\u{180e}', 'x', '\u{10ffff}'] {
        assert_eq!(is_white_space(c), c.is_whitespace());
    }
}
