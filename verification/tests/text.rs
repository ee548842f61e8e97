use desktoprecorder::text::{
    char_is_white, decimal_text, push_padded, push_signed, push_zero_padded, text_is_blank, trim,
};

#[test]
fn white_space_agrees_with_the_standard_library() {
    for n in 0..0x110000u32 {
        if let Some(c) = char::from_u32(n) {
            assert_eq!(char_is_white(c), c.is_whitespace(), "{n:#x}");
        }
    }
}

#[test]
fn trimming_agrees_with_the_standard_library() {
    for text in ["", " ", "a", " a", "a ", " a b \n", "\u{3000}x\u{2003}", "\t\r\n"] {
        assert_eq!(trim(text), text.trim());
        assert_eq!(text_is_blank(text), text.trim().is_empty());
    }
}

#[test]
fn numbers_are_written_as_usual() {
    for n in [0, 7, 10, 99, 100, 123456789, u64::MAX] {
        assert_eq!(decimal_text(n), n.to_string());
    }
    for n in [0, -1, 1, i64::MIN, i64::MAX, -32768] {
        let mut text = String::new();
        push_signed(&mut text, n);
        assert_eq!(text, n.to_string());
    }
}

#[test]
fn padding_agrees_with_the_standard_library() {
    for text in ["", "a", "abc", "abcd", "\u{e9}\u{e8}"] {
        let mut padded = String::new();
        push_padded(&mut padded, text, 3);
        assert_eq!(padded, format!("{text:<3}"));
    }
    let mut zeros = String::new();
    push_zero_padded(&mut zeros, "7", 2);
    push_zero_padded(&mut zeros, "123", 2);
    assert_eq!(zeros, "07123");
}
