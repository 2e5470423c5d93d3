use kiro_screen::help::{
    draw_blank_lines, draw_help_line, draw_help_text, find_colon, help_lines_of, split_text,
    trim_line_start, widest, HELP,
};
use kiro_screen::screen::Screen;
use kiro_screen::term_color::TermColor;

fn palette() -> TermColor {
    let names = [
        "<reset>", "<red>", "<green>", "<gray>", "<yellow>", "<orange>", "<blue>", "<purple>",
        "<cyan>", "<cyan_>", "<redbg>", "<invert>", "<nontext>",
    ];
    TermColor::new(names.iter().map(|s| s.as_bytes().to_vec()).collect()).unwrap()
}

fn lines(text: &[&str]) -> Vec<Vec<u8>> {
    text.iter().map(|l| l.as_bytes().to_vec()).collect()
}

#[test]
fn text_is_split_at_line_feeds() {
    assert_eq!(split_text(b""), lines(&[""]));
    assert_eq!(split_text(b"a"), lines(&["a"]));
    assert_eq!(split_text(b"a\nb"), lines(&["a", "b"]));
    assert_eq!(split_text(b"a\n"), lines(&["a", ""]));
    assert_eq!(split_text(b"\n\nab\n"), lines(&["", "", "ab", ""]));
}

#[test]
fn first_colon_of_a_line() {
    assert_eq!(find_colon(b"ab:cd:e", 0), 2);
    assert_eq!(find_colon(b"ab:cd:e", 2), 2);
    assert_eq!(find_colon(b"ab:cd:e", 3), 5);
    assert_eq!(find_colon(b"ab:cd:e", 6), 7);
    assert_eq!(find_colon(b"abc", 0), 3);
    assert_eq!(find_colon(b"", 0), 0);
}

#[test]
fn white_space_at_the_start_is_trimmed() {
    assert_eq!(trim_line_start(b"   ab c "), b"ab c ");
    assert_eq!(trim_line_start(b"\t \r\nx"), b"x");
    assert_eq!(trim_line_start(b"ab"), b"ab");
    assert_eq!(trim_line_start(b"   "), b"");
    assert_eq!(trim_line_start(b""), b"");
}

#[test]
fn help_lines_start_at_the_first_line_with_a_colon() {
    let text = b"Title\n\n  a : one\n    bb : two\nplain\n";
    assert_eq!(help_lines_of(text), lines(&["a : one", "bb : two", "plain", ""]));
    assert_eq!(help_lines_of(b"no colon"), Vec::<Vec<u8>>::new());
    assert_eq!(help_lines_of(b""), Vec::<Vec<u8>>::new());
}

#[test]
fn help_text_has_one_line_for_each_binding() {
    let help = help_lines_of(HELP.as_bytes());
    assert_eq!(help.len(), 28);
    assert_eq!(help[0], b"Ctrl-Q                        : Quit");
    assert_eq!(help[27], b"Ctrl-?                        : Show this help");
    assert_eq!(widest(&help), 65);
}

#[test]
fn widest_line() {
    assert_eq!(widest(&lines(&[])), 0);
    assert_eq!(widest(&lines(&["ab", "abcd", "a"])), 4);
}

#[test]
fn blank_lines_are_erased_one_by_one() {
    let mut buf = Vec::new();
    draw_blank_lines(&mut buf, 0, 0);
    assert_eq!(buf, b"");
    draw_blank_lines(&mut buf, 1, 3);
    assert_eq!(buf, b"\x1b[2H\x1b[K\x1b[3H\x1b[K");
    let mut buf = Vec::new();
    draw_blank_lines(&mut buf, 5, 2);
    assert_eq!(buf, b"");
}

#[test]
fn help_line_shows_the_keys_in_cyan() {
    let mut buf = Vec::new();
    draw_help_line(&mut buf, &palette(), b"Ctrl-Q : Quit", 3, 2, 80);
    assert_eq!(buf, b"\x1b[3H  <cyan>Ctrl-Q <reset>: Quit\x1b[K");
}

#[test]
fn help_line_is_cut_to_the_width() {
    let mut buf = Vec::new();
    draw_help_line(&mut buf, &palette(), b"Ctrl-Q : Quit", 3, 0, 9);
    assert_eq!(buf, b"\x1b[3H<cyan>Ctrl-Q <reset>: \x1b[K");
    let mut buf = Vec::new();
    draw_help_line(&mut buf, &palette(), b"Ctrl-Q : Quit", 3, 0, 4);
    assert_eq!(buf, b"\x1b[3H<cyan>Ctrl<reset>\x1b[K");
}

#[test]
fn help_line_ends_at_a_second_colon() {
    let mut buf = Vec::new();
    draw_help_line(&mut buf, &palette(), b"a:b:c", 1, 0, 80);
    assert_eq!(buf, b"\x1b[1H<cyan>a<reset>:b\x1b[K");
}

#[test]
fn small_help_text_is_centered() {
    let mut buf = Vec::new();
    draw_help_text(&mut buf, &palette(), b"a : one\nbb : two", 6, 12);
    // Two lines on six: two blank lines above and two below. The longer
    // line has eight bytes: a margin of two on the left
    let expected = "\x1b[1H\x1b[K\x1b[2H\x1b[K\
                    \x1b[3H  <cyan>a <reset>: one\x1b[K\
                    \x1b[4H  <cyan>bb <reset>: two\x1b[K\
                    \x1b[5H\x1b[K\x1b[6H\x1b[K";
    assert_eq!(String::from_utf8(buf).unwrap(), expected);
}

#[test]
fn help_text_that_is_too_long_is_cut_at_the_bottom() {
    let mut buf = Vec::new();
    draw_help_text(&mut buf, &palette(), b"a:1\nb:2\nc:3", 2, 2);
    assert_eq!(
        String::from_utf8(buf).unwrap(),
        "\x1b[1H<cyan>a<reset>:\x1b[K\x1b[2H<cyan>b<reset>:\x1b[K"
    );
}

#[test]
fn help_text_without_bindings_clears_the_screen() {
    let mut buf = Vec::new();
    draw_help_text(&mut buf, &palette(), b"nothing here", 3, 10);
    assert_eq!(buf, b"\x1b[1H\x1b[K\x1b[2H\x1b[K\x1b[3H\x1b[K");
}

#[test]
fn help_overlay_of_the_screen() {
    let s = Screen::new((80, 32), palette()).unwrap();
    let out = String::from_utf8(s.draw_help()).unwrap();
    // 31 lines for 28 bindings: one blank line above, two below; 65 bytes
    // in 80 columns: a margin of seven
    assert!(out.starts_with(
        "\x1b[1H\x1b[K\x1b[2H       <cyan>Ctrl-Q                        <reset>: Quit\x1b[K\x1b[3H"
    ));
    assert!(out.ends_with(
        "\x1b[29H       <cyan>Ctrl-?                        <reset>: Show this help\x1b[K\x1b[30H\x1b[K\x1b[31H\x1b[K"
    ));
    assert_eq!(out.matches("<cyan>").count(), 28);
    assert_eq!(out.matches("\x1b[K").count(), 31);
}

#[test]
fn help_overlay_in_a_small_window() {
    let s = Screen::new((10, 5), palette()).unwrap();
    let out = String::from_utf8(s.draw_help()).unwrap();
    assert_eq!(
        out,
        "\x1b[1H<cyan>Ctrl-Q    <reset>\x1b[K\x1b[2H<cyan>Ctrl-S    <reset>\x1b[K\
         \x1b[3H<cyan>Ctrl-O    <reset>\x1b[K\x1b[4H<cyan>Ctrl-X    <reset>\x1b[K"
    );
}
