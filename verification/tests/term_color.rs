use kiro_screen::term_color::{Color, TermColor, NUM_COLORS};

fn names() -> Vec<Vec<u8>> {
    [
        "<reset>", "<red>", "<green>", "<gray>", "<yellow>", "<orange>", "<blue>", "<purple>",
        "<cyan>", "<cyan_>", "<redbg>", "<invert>", "<nontext>",
    ]
    .iter()
    .map(|s| s.as_bytes().to_vec())
    .collect()
}

#[test]
fn palette_needs_one_sequence_for_each_color() {
    assert_eq!(NUM_COLORS, 13);
    assert!(TermColor::new(names()).is_some());
    assert!(TermColor::new(Vec::new()).is_none());
    let mut short = names();
    short.pop();
    assert!(TermColor::new(short).is_none());
    let mut long = names();
    long.push(b"<more>".to_vec());
    assert!(TermColor::new(long).is_none());
}

#[test]
fn each_color_selects_its_own_sequence() {
    let palette = TermColor::new(names()).unwrap();
    assert_eq!(palette.sequence(Color::Reset), b"<reset>");
    assert_eq!(palette.sequence(Color::Red), b"<red>");
    assert_eq!(palette.sequence(Color::Green), b"<green>");
    assert_eq!(palette.sequence(Color::Gray), b"<gray>");
    assert_eq!(palette.sequence(Color::Yellow), b"<yellow>");
    assert_eq!(palette.sequence(Color::Orange), b"<orange>");
    assert_eq!(palette.sequence(Color::Blue), b"<blue>");
    assert_eq!(palette.sequence(Color::Purple), b"<purple>");
    assert_eq!(palette.sequence(Color::Cyan), b"<cyan>");
    assert_eq!(palette.sequence(Color::CyanUnderline), b"<cyan_>");
    assert_eq!(palette.sequence(Color::RedBG), b"<redbg>");
    assert_eq!(palette.sequence(Color::Invert), b"<invert>");
    assert_eq!(palette.sequence(Color::NonText), b"<nontext>");
}

#[test]
fn color_indices_are_distinct_and_in_range() {
    let all = [
        Color::Reset, Color::Red, Color::Green, Color::Gray, Color::Yellow, Color::Orange,
        Color::Blue, Color::Purple, Color::Cyan, Color::CyanUnderline, Color::RedBG,
        Color::Invert, Color::NonText,
    ];
    for (i, c) in all.iter().enumerate() {
        assert_eq!(c.index(), i);
    }
}

#[test]
fn only_the_underlined_color_underlines() {
    assert!(Color::CyanUnderline.is_underlined());
    assert!(!Color::Cyan.is_underlined());
    assert!(!Color::Reset.is_underlined());
    assert!(!Color::RedBG.is_underlined());
}
