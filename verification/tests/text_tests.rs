use tokimo_app_helloworld::handlers::{items_add_with_notify, request_id_or};
use tokimo_app_helloworld::text::{char_is_whitespace, is_blank_text, left_aligned, same_text};

#[test]
fn blank_texts() {
    assert!(is_blank_text(""));
    assert!(is_blank_text("  \t\r\n"));
    assert!(is_blank_text("\u{3000}\u{a0}\u{2028}"));
    assert!(!is_blank_text(" a "));
    assert!(!is_blank_text("\u{200b}"));
}

#[test]
fn blank_matches_trim() {
    for s in ["", " ", "x", " \u{85} ", "\u{180e}", "\u{feff}", " y\t"] {
        assert_eq!(is_blank_text(s), s.trim().is_empty());
    }
}

#[test]
fn left_aligned_pads_with_spaces() {
    assert_eq!(left_aligned("ab", 5), "ab   ");
    assert_eq!(left_aligned("", 3), "   ");
    assert_eq!(left_aligned("héé", 5), "héé  ");
}

#[test]
fn left_aligned_keeps_long_text() {
    assert_eq!(left_aligned("abcdef", 3), "abcdef");
    assert_eq!(left_aligned("abc", 3), "abc");
}

#[test]
fn left_aligned_matches_format_width() {
    for s in ["ID", "Created At", "2024-01-02T03:04:05+00:00", "ü"] {
        assert_eq!(left_aligned(s, 25), format!("{:<25}", s));
    }
}

#[test]
fn uuid_string_is_hyphenated_lower_hex() {
    assert_eq!(request_id_or(None, 0xa1a2a3a4b1b2c1c2d1d2d3d4d5d6d7d8), "a1a2a3a4-b1b2-c1c2-d1d2-d3d4d5d6d7d8");
    assert_eq!(request_id_or(None, 0), "00000000-0000-0000-0000-000000000000");
    assert_eq!(request_id_or(None, u128::MAX), "ffffffff-ffff-ffff-ffff-ffffffffffff");
}

#[test]
fn fresh_uuid_has_version_four_bits() {
    for _ in 0..16 {
        let id = items_add_with_notify(None, None).request_id;
        let v = u128::from_str_radix(&id.replace('-', ""), 16).expect("hex");
        assert_eq!(v & 0x0000_0000_0000_F000_C000_0000_0000_0000, 0x0000_0000_0000_4000_8000_0000_0000_0000);
    }
}

#[test]
fn same_text_compares_characters() {
    assert!(same_text("/hello.txt", "/hello.txt"));
    assert!(!same_text("/hello.txt", "/hello.txT"));
    assert!(!same_text("/hello", "/hello.txt"));
    assert!(same_text("", ""));
}

#[test]
fn whitespace_matches_std() {
    for v in (0u32..0x3100).chain([0xfeff, 0x10ffff]) {
        if let Some(c) = char::from_u32(v) {
            assert_eq!(char_is_whitespace(c), c.is_whitespace(), "U+{v:04X}");
        }
    }
}
