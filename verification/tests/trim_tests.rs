use amk::utils::trim::{is_white_space_char, trim_text};

#[test]
fn whitespace_set_is_that_of_char_is_whitespace() {
    for v in 0..=0x10FFFFu32 {
        if let Some(c) = char::from_u32(v) {
            assert_eq!(is_white_space_char(c), c.is_whitespace(), "code point {v:#x}");
        }
    }
}

#[test]
fn trim_text_agrees_with_str_trim() {
    let samples = [
        "",
        "   ",
        "abc",
        "  abc  ",
        "\n1\n2\n3\n",
        "\u{3000}\u{85}x y\u{2028}\t",
        "\u{200b}zero width\u{200b}",
        " \u{a0}é\u{1680}",
    ];
    for s in samples {
        assert_eq!(trim_text(s), s.trim(), "sample {s:?}");
    }
}
