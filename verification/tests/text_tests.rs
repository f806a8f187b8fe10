use rx_repack::text::{
    chars_of, is_whitespace, pad_left, push_str, same_text, string_of, strip_nul, trim,
};

#[test]
fn whitespace_is_the_unicode_property() {
    let mut code: u32 = 0;
    while code <= 0x10FFFF {
        if let Some(c) = char::from_u32(code) {
            assert_eq!(is_whitespace(c), c.is_whitespace(), "U+{:04X}", code);
        }
        code += 1;
    }
}

#[test]
fn trim_removes_whitespace_at_both_ends_only() {
    let samples = [
        "",
        " ",
        "abc",
        "  abc",
        "abc  ",
        " \t\r\n abc def \u{3000}\u{85}",
        "\u{a0}x\u{2028}",
        "a\0 ",
        " \0a",
        "\u{200b}zero width is kept\u{200b}",
        "   ",
    ];
    for s in samples {
        assert_eq!(trim(s), s.trim(), "{:?}", s);
    }
    assert_eq!(trim("  MRN 100 \n"), "MRN 100");
}

#[test]
fn strip_nul_removes_every_nul() {
    assert_eq!(strip_nul(""), "");
    assert_eq!(strip_nul("\0"), "");
    assert_eq!(strip_nul("1.2\0.3\0\0"), "1.2.3");
    assert_eq!(strip_nul("abc"), "abc");
    for s in ["a\0b", "\0\0x", "x\0", "no nul", "\u{e9}\0"] {
        assert_eq!(strip_nul(s), s.replace('\0', ""));
    }
}

#[test]
fn pad_left_fills_up_to_the_width() {
    assert_eq!(pad_left("7", 4, '0'), "0007");
    assert_eq!(pad_left("", 3, '0'), "000");
    assert_eq!(pad_left("12345", 4, '0'), "12345");
    assert_eq!(pad_left("1234", 4, '0'), "1234");
    assert_eq!(pad_left("ab", 0, '0'), "ab");
    assert_eq!(pad_left("\u{e9}", 3, '*'), "**\u{e9}");
    for s in ["", "1", "22", "333", "4444", "55555", "666666", "InstanceNumber", "\u{e9}\u{e9}"] {
        assert_eq!(pad_left(s, 5, '0'), format!("{:0>5}", s));
        assert_eq!(pad_left(s, 4, '0'), format!("{:0>4}", s));
    }
}

#[test]
fn characters_go_in_and_out_unchanged() {
    let text = "a\u{e9}\u{1F600}z";
    let chars = chars_of(text);
    assert_eq!(chars, vec!['a', '\u{e9}', '\u{1F600}', 'z']);
    assert_eq!(string_of(&chars, 0, 4), text);
    assert_eq!(string_of(&chars, 1, 3), "\u{e9}\u{1F600}");
    assert_eq!(string_of(&chars, 2, 2), "");
    let mut s = String::from("x");
    push_str(&mut s, text);
    assert_eq!(s, "xa\u{e9}\u{1F600}z");
}

#[test]
fn same_text_compares_characters() {
    assert!(same_text("", ""));
    assert!(same_text("IS", "IS"));
    assert!(!same_text("IS", "DS"));
    assert!(!same_text("IS", "ISS"));
    assert!(!same_text("is", "IS"));
}
