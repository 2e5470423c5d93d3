use kiro_screen::message::{DisplayState, StatusMessage, StatusMessageKind, MESSAGE_SECONDS};
use kiro_screen::term_color::TermColor;

fn palette() -> TermColor {
    let names = [
        "<reset>", "<red>", "<green>", "<gray>", "<yellow>", "<orange>", "<blue>", "<purple>",
        "<cyan>", "<cyan_>", "<redbg>", "<invert>", "<nontext>",
    ];
    TermColor::new(names.iter().map(|s| s.as_bytes().to_vec()).collect()).unwrap()
}

#[test]
fn new_message_waits_to_be_painted() {
    let m = StatusMessage::new("saved", StatusMessageKind::Info);
    assert_eq!(m.text, "saved");
    assert_eq!(m.kind, StatusMessageKind::Info);
    assert_eq!(m.state, DisplayState::Pending);
    assert!(m.should_redraw(0));
    assert!(m.should_redraw(u64::MAX));
    assert!(!m.is_shown());
}

#[test]
fn info_message_is_painted_plainly() {
    let m = StatusMessage::new("saved", StatusMessageKind::Info);
    let mut buf = Vec::new();
    let next = m.draw(&mut buf, &palette(), 24, 80, 1000);
    assert_eq!(buf, b"\x1b[24Hsaved\x1b[K");
    assert_eq!(next, DisplayState::Shown(1000));
}

#[test]
fn error_message_is_painted_on_red() {
    let m = StatusMessage::new("disk full", StatusMessageKind::Error);
    let mut buf = Vec::new();
    let next = m.draw(&mut buf, &palette(), 24, 80, 7);
    assert_eq!(buf, b"\x1b[24H<redbg>disk full<reset>\x1b[K");
    assert_eq!(next, DisplayState::Shown(7));
}

#[test]
fn message_is_cut_to_the_width() {
    let m = StatusMessage::new("disk full", StatusMessageKind::Error);
    let mut buf = Vec::new();
    m.draw(&mut buf, &palette(), 5, 4, 7);
    assert_eq!(buf, b"\x1b[5H<redbg>disk<reset>\x1b[K");
}

#[test]
fn shown_message_runs_out_after_five_seconds() {
    assert_eq!(MESSAGE_SECONDS, 5);
    let mut m = StatusMessage::new("saved", StatusMessageKind::Info);
    m.state = DisplayState::Shown(100);
    assert!(m.is_shown());
    assert!(!m.should_redraw(100));
    assert!(!m.should_redraw(104));
    assert!(!m.should_redraw(105));
    assert!(m.should_redraw(106));
    assert!(m.should_redraw(1000));
}

#[test]
fn clock_that_ran_backwards_keeps_the_message() {
    let mut m = StatusMessage::new("saved", StatusMessageKind::Info);
    m.state = DisplayState::Shown(100);
    assert!(!m.should_redraw(99));
    assert!(!m.should_redraw(0));
}

#[test]
fn shown_message_leaves_without_a_byte() {
    let mut m = StatusMessage::new("saved", StatusMessageKind::Info);
    m.state = DisplayState::Shown(100);
    let mut buf = b"x".to_vec();
    let next = m.draw(&mut buf, &palette(), 24, 80, 106);
    assert_eq!(buf, b"x");
    assert_eq!(next, DisplayState::Hidden);
}

#[test]
fn hidden_message_needs_nothing() {
    let mut m = StatusMessage::new("saved", StatusMessageKind::Info);
    m.state = DisplayState::Hidden;
    assert!(!m.should_redraw(0));
    assert!(!m.should_redraw(u64::MAX));
    assert!(!m.is_shown());
    let mut buf = Vec::new();
    let next = m.draw(&mut buf, &palette(), 24, 80, 106);
    assert_eq!(buf, b"");
    assert_eq!(next, DisplayState::Hidden);
}

#[test]
fn message_is_cut_between_characters() {
    let m = StatusMessage::new("\u{e9}", StatusMessageKind::Info);
    let mut buf = Vec::new();
    m.draw(&mut buf, &palette(), 3, 1, 7);
    assert_eq!(buf, "\x1b[3H\u{e9}\x1b[K".as_bytes());
    let m = StatusMessage::new("caf\u{e9} ferm\u{e9}", StatusMessageKind::Error);
    let mut buf = Vec::new();
    m.draw(&mut buf, &palette(), 3, 4, 7);
    assert_eq!(buf, "\x1b[3H<redbg>caf\u{e9}<reset>\x1b[K".as_bytes());
}

#[test]
fn wide_message_is_cut_by_columns() {
    let m = StatusMessage::new("全角全角", StatusMessageKind::Info);
    let mut buf = Vec::new();
    m.draw(&mut buf, &palette(), 3, 5, 7);
    assert_eq!(buf, "\x1b[3H全角\x1b[K".as_bytes());
    let mut buf = Vec::new();
    m.draw(&mut buf, &palette(), 3, 1, 7);
    assert_eq!(buf, b"\x1b[3H\x1b[K");
    let mut buf = Vec::new();
    m.draw(&mut buf, &palette(), 3, 8, 7);
    assert_eq!(buf, "\x1b[3H全角全角\x1b[K".as_bytes());
}
