use open_ai_compatible::text::trim;

/// The characters with the Unicode property White_Space, from first to last.
const WHITE_SPACE: [(u32, u32); 11] = [
    (0x9, 0xd),
    (0x20, 0x20),
    (0x85, 0x85),
    (0xa0, 0xa0),
    (0x1680, 0x1680),
    (0x2000, 0x200a),
    (0x2028, 0x2028),
    (0x2029, 0x2029),
    (0x202f, 0x202f),
    (0x205f, 0x205f),
    (0x3000, 0x3000),
];

#[test]
fn exactly_white_space_is_trimmed() {
    for c in '\0'..=char::MAX {
        let code = c as u32;
        let white = WHITE_SPACE
            .iter()
            .any(|(first, last)| *first <= code && code <= *last);
        let text = c.to_string();
        let expected = if white { "" } else { text.as_str() };
        assert_eq!(trim(&text), expected, "U+{:04X}", code);
    }
}

#[test]
fn white_space_is_trimmed_at_the_ends_only() {
    assert_eq!(trim(""), "");
    assert_eq!(trim("\u{3000} a\u{a0}b\r\n"), "a\u{a0}b");
    assert_eq!(trim(trim(" x ")), "x");
}
