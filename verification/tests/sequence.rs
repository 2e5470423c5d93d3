use kiro_screen::sequence::{
    enter_alternate_screen_sequence, hide_cursor_sequence, leave_alternate_screen_sequence,
    fit_text, push_bytes, push_char, push_chars, push_clear_to_eol, push_decimal, push_fitted,
    push_move_to,
    push_move_to_line, push_show_cursor, push_spaces, push_str, size_probe_sequence,
};

#[test]
fn decimal_digits_of_small_and_large_numbers() {
    let mut buf = Vec::new();
    push_decimal(&mut buf, 0);
    assert_eq!(buf, b"0");
    let mut buf = Vec::new();
    push_decimal(&mut buf, 7);
    assert_eq!(buf, b"7");
    let mut buf = Vec::new();
    push_decimal(&mut buf, 10);
    assert_eq!(buf, b"10");
    let mut buf = Vec::new();
    push_decimal(&mut buf, 9999);
    assert_eq!(buf, b"9999");
    let mut buf = Vec::new();
    push_decimal(&mut buf, 1_234_567_890);
    assert_eq!(buf, b"1234567890");
}

#[test]
fn decimal_of_the_largest_number() {
    let mut buf = Vec::new();
    push_decimal(&mut buf, usize::MAX);
    assert_eq!(buf, format!("{}", usize::MAX).into_bytes());
}

#[test]
fn decimal_appends_to_what_is_there() {
    let mut buf = b"ab".to_vec();
    push_decimal(&mut buf, 42);
    assert_eq!(buf, b"ab42");
}

#[test]
fn cursor_movement_sequences() {
    let mut buf = Vec::new();
    push_move_to_line(&mut buf, 1);
    assert_eq!(buf, b"\x1b[1H");
    let mut buf = Vec::new();
    push_move_to_line(&mut buf, 24);
    assert_eq!(buf, b"\x1b[24H");
    let mut buf = Vec::new();
    push_move_to(&mut buf, 3, 17);
    assert_eq!(buf, b"\x1b[3;17H");
}

#[test]
fn fixed_sequences_are_byte_exact() {
    let mut buf = Vec::new();
    push_clear_to_eol(&mut buf);
    assert_eq!(buf, b"\x1b[K");
    let mut buf = Vec::new();
    push_show_cursor(&mut buf);
    assert_eq!(buf, b"\x1b[?25h");
    assert_eq!(hide_cursor_sequence(), b"\x1b[?25l");
    assert_eq!(enter_alternate_screen_sequence(), b"\x1b[?47h");
    assert_eq!(leave_alternate_screen_sequence(), b"\x1b[?47l\x1b[H");
    assert_eq!(size_probe_sequence(), b"\x1b[9999C\x1b[9999B\x1b[6n");
}

#[test]
fn spaces_and_bytes() {
    let mut buf = Vec::new();
    push_spaces(&mut buf, 0);
    assert_eq!(buf, b"");
    push_spaces(&mut buf, 3);
    assert_eq!(buf, b"   ");
    push_bytes(&mut buf, b"xy");
    assert_eq!(buf, b"   xy");
    push_str(&mut buf, "é");
    assert_eq!(buf, "   xyé".as_bytes());
}

#[test]
fn fitted_text_stops_at_the_width() {
    let mut buf = Vec::new();
    assert_eq!(push_fitted(&mut buf, "hello", 3), (3, false));
    assert_eq!(buf, b"hel");
    let mut buf = Vec::new();
    assert_eq!(push_fitted(&mut buf, "hello", 5), (5, true));
    assert_eq!(buf, b"hello");
    let mut buf = Vec::new();
    assert_eq!(push_fitted(&mut buf, "hello", 9), (5, true));
    assert_eq!(buf, b"hello");
    let mut buf = Vec::new();
    assert_eq!(push_fitted(&mut buf, "hello", 0), (0, false));
    assert_eq!(buf, b"");
    let mut buf = Vec::new();
    assert_eq!(push_fitted(&mut buf, "", 0), (0, true));
    assert_eq!(buf, b"");
}

#[test]
fn fitted_text_is_cut_between_characters() {
    // Two bytes, one column
    let mut buf = Vec::new();
    assert_eq!(push_fitted(&mut buf, "\u{e9}", 1), (1, true));
    assert_eq!(buf, "\u{e9}".as_bytes());
    let mut buf = Vec::new();
    assert_eq!(push_fitted(&mut buf, "h\u{e9}llo", 2), (2, false));
    assert_eq!(buf, "h\u{e9}".as_bytes());
}

#[test]
fn wide_character_that_does_not_fit_is_left_out_of_the_fit() {
    let mut buf = Vec::new();
    assert_eq!(push_fitted(&mut buf, "a全b", 2), (1, false));
    assert_eq!(buf, b"a");
    let mut buf = Vec::new();
    assert_eq!(push_fitted(&mut buf, "a全b", 3), (3, false));
    assert_eq!(buf, "a全".as_bytes());
    let mut buf = Vec::new();
    assert_eq!(push_fitted(&mut buf, "全", 1), (0, false));
    assert_eq!(buf, b"");
    assert_eq!(fit_text("全全", 4), (4, true));
    assert_eq!(fit_text("全全", 3), (2, false));
}

#[test]
fn characters_without_width_stay_with_the_fit() {
    // e and a combining acute accent: one column, two characters
    let mut buf = Vec::new();
    assert_eq!(push_fitted(&mut buf, "e\u{301}x", 1), (1, false));
    assert_eq!(buf, "e\u{301}".as_bytes());
}

#[test]
fn first_characters_of_a_text() {
    let text = vec!['a', '全', 'b'];
    let mut buf = Vec::new();
    push_chars(&mut buf, &text, 0);
    assert_eq!(buf, b"");
    push_chars(&mut buf, &text, 2);
    assert_eq!(buf, "a全".as_bytes());
    let mut buf = Vec::new();
    push_chars(&mut buf, &text, 3);
    assert_eq!(buf, "a全b".as_bytes());
}

#[test]
fn characters_are_written_in_utf8() {
    for c in ['a', '\u{7f}', '\u{80}', 'é', '\u{7ff}', '\u{800}', '全', '\u{ffff}', '\u{10000}', '😀', '\u{10ffff}'] {
        let mut buf = Vec::new();
        push_char(&mut buf, c);
        let mut expected = [0u8; 4];
        let expected = c.encode_utf8(&mut expected).as_bytes().to_vec();
        assert_eq!(buf, expected);
    }
}
