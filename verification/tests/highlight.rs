use kiro_screen::highlight::Highlighting;
use kiro_screen::row::Row;
use kiro_screen::term_color::Color;

fn rows(lines: &[&str]) -> Vec<Row> {
    lines.iter().map(|l| Row::new(l, Vec::new()).unwrap()).collect()
}

#[test]
fn missing_lines_become_neutral() {
    let text = rows(&["ab", "", "全角x"]);
    let mut hl = Highlighting { lines: Vec::new() };
    hl.update(&text, 3);
    assert_eq!(hl.lines, vec![vec![Color::Reset; 2], vec![], vec![Color::Reset; 3]]);
}

#[test]
fn lines_with_colors_keep_them() {
    let text = rows(&["ab", "cd", "ef"]);
    let mut hl = Highlighting { lines: vec![vec![Color::Blue, Color::Green]] };
    hl.update(&text, 2);
    assert_eq!(hl.lines, vec![vec![Color::Blue, Color::Green], vec![Color::Reset; 2]]);
}

#[test]
fn colors_stop_at_the_bottom_and_at_the_end_of_the_text() {
    let text = rows(&["ab", "cd", "ef"]);
    let mut hl = Highlighting { lines: Vec::new() };
    hl.update(&text, 0);
    assert_eq!(hl.lines.len(), 0);
    hl.update(&text, 1);
    assert_eq!(hl.lines.len(), 1);
    hl.update(&text, 100);
    assert_eq!(hl.lines.len(), 3);
    hl.update(&text, 2);
    assert_eq!(hl.lines.len(), 3);
}

#[test]
fn colors_that_reach_further_are_left_alone() {
    let text = rows(&["ab"]);
    let mut hl = Highlighting { lines: vec![vec![Color::Red], vec![Color::Blue], vec![]] };
    hl.update(&text, 1);
    assert_eq!(hl.lines, vec![vec![Color::Red], vec![Color::Blue], vec![]]);
}
