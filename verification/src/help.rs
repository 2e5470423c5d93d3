//! The help overlay: the key bindings, centered on the screen, each key in
//! cyan before its description.

use crate::sequence::{
    clamp, clear_to_eol, move_to_line, push_bytes, push_clear_to_eol, push_move_to_line,
    push_spaces, spaces,
};
use crate::term_color::{Color, TermColor};
use vstd::prelude::*;

verus! {

/// The key bindings, one on each line: the keys, a colon, and what they do.
pub const HELP: &'static str = "\
    Ctrl-Q                        : Quit
    Ctrl-S                        : Save to file
    Ctrl-O                        : Open text buffer
    Ctrl-X                        : Next text buffer
    Alt-X                         : Previous text buffer
    Ctrl-P or UP                  : Move cursor up
    Ctrl-N or DOWN                : Move cursor down
    Ctrl-F or RIGHT               : Move cursor right
    Ctrl-B or LEFT                : Move cursor left
    Ctrl-A or Alt-LEFT or HOME    : Move cursor to head of line
    Ctrl-E or Alt-RIGHT or END    : Move cursor to end of line
    Ctrl-[ or Ctrl-V or PAGE DOWN : Next page
    Ctrl-] or Alt-V or PAGE UP    : Previous page
    Alt-F or Ctrl-RIGHT           : Move cursor to next word
    Alt-B or Ctrl-LEFT            : Move cursor to previous word
    Alt-N or Ctrl-DOWN            : Move cursor to next paragraph
    Alt-P or Ctrl-UP              : Move cursor to previous paragraph
    Alt-<                         : Move cursor to top of file
    Alt->                         : Move cursor to bottom of file
    Ctrl-H or BACKSPACE           : Delete character
    Ctrl-D or DELETE              : Delete next character
    Ctrl-W                        : Delete a word
    Ctrl-J                        : Delete until head of line
    Ctrl-K                        : Delete until end of line
    Ctrl-G                        : Search text
    Ctrl-M                        : New line
    Ctrl-L                        : Refresh screen
    Ctrl-?                        : Show this help";

/// The line feed.
pub const LINE_FEED: u8 = 0x0a;

/// The colon.
pub const COLON: u8 = 0x3a;

/// Whether a byte is ASCII white space: a space, or one of the controls from
/// the horizontal tab to the carriage return.
pub open spec fn is_space(b: u8) -> bool {
    b == 0x20 || (0x09 <= b && b <= 0x0d)
}

/// The contents of executable lines.
pub open spec fn lines_view(lines: Seq<Vec<u8>>) -> Seq<Seq<u8>> {
    Seq::new(lines.len(), |i: int| lines[i]@)
}

/// The lines of `text`: a line feed ends a line and begins the next one, so
/// that a text with `n` line feeds has `n + 1` lines, the last of which may
/// be empty.
pub open spec fn split_lines(text: Seq<u8>) -> Seq<Seq<u8>>
    decreases text.len(),
{
    if text.len() == 0 {
        seq![Seq::empty()]
    } else {
        let before = split_lines(text.drop_last());
        if text.last() == LINE_FEED {
            before.push(Seq::empty())
        } else {
            before.drop_last().push(before.last().push(text.last()))
        }
    }
}

/// Where the first colon of `line` stands at or after `from`, and the length
/// of the line when there is none.
pub open spec fn first_colon(line: Seq<u8>, from: int) -> int
    decreases line.len() - from,
{
    if from >= line.len() {
        line.len() as int
    } else if line[from] == COLON {
        from
    } else {
        first_colon(line, from + 1)
    }
}

/// Whether `line` holds a colon.
pub open spec fn has_colon(line: Seq<u8>) -> bool {
    first_colon(line, 0) < line.len()
}

/// The lines from the first one that holds a colon on.
pub open spec fn skip_heading(lines: Seq<Seq<u8>>) -> Seq<Seq<u8>>
    decreases lines.len(),
{
    if lines.len() == 0 || has_colon(lines[0]) {
        lines
    } else {
        skip_heading(lines.drop_first())
    }
}

/// `line` without the white space at its start.
pub open spec fn trim_start(line: Seq<u8>) -> Seq<u8>
    decreases line.len(),
{
    if line.len() > 0 && is_space(line[0]) {
        trim_start(line.drop_first())
    } else {
        line
    }
}

/// The lines of a help text: its lines from the first one that holds a colon
/// on, each without the white space at its start.
pub open spec fn help_lines(text: Seq<u8>) -> Seq<Seq<u8>> {
    let lines = skip_heading(split_lines(text));
    Seq::new(lines.len(), |i: int| trim_start(lines[i]))
}

/// The length of the longest of the first `n` lines.
pub open spec fn max_width(lines: Seq<Seq<u8>>, n: int) -> nat
    decreases n,
{
    if n <= 0 {
        0
    } else {
        let before = max_width(lines, n - 1);
        if lines[n - 1].len() > before {
            lines[n - 1].len()
        } else {
            before
        }
    }
}

/// The keys of a help line: what stands before its first colon.
pub open spec fn keys_of(line: Seq<u8>) -> Seq<u8> {
    line.take(first_colon(line, 0))
}

/// The description of a help line: what stands between its first colon and
/// its second, or its end.
pub open spec fn description_of(line: Seq<u8>) -> Seq<u8> {
    let start = first_colon(line, 0) + 1;
    line.subrange(start, first_colon(line, start))
}

/// The bytes that erase the physical lines after line `from` up to line `to`.
pub open spec fn blank_lines(from: int, to: int) -> Seq<u8>
    decreases to - from,
{
    if to <= from {
        Seq::empty()
    } else {
        blank_lines(from, to - 1) + move_to_line(to as nat) + clear_to_eol()
    }
}

/// The bytes of one help line on physical line `line_no`, cut to `num_cols`
/// bytes: the margin, the keys in cyan, then in the neutral color the colon
/// and the description, and the rest of the line erased.
pub open spec fn help_line_bytes(
    palette: TermColor,
    line: Seq<u8>,
    line_no: nat,
    left_margin: nat,
    num_cols: nat,
) -> Seq<u8> {
    let shown = clamp(line, num_cols);
    let head = move_to_line(line_no) + spaces(left_margin) + palette.spec_sequence(Color::Cyan)
        + keys_of(shown) + palette.spec_sequence(Color::Reset);
    if has_colon(shown) {
        head + seq![COLON] + description_of(shown) + clear_to_eol()
    } else {
        head + clear_to_eol()
    }
}

/// The bytes of the first `n` help lines, the first of them on physical line
/// `top + 1`.
pub open spec fn help_block(
    palette: TermColor,
    lines: Seq<Seq<u8>>,
    top: nat,
    left_margin: nat,
    num_cols: nat,
    n: int,
) -> Seq<u8>
    decreases n,
{
    if n <= 0 {
        Seq::empty()
    } else {
        help_block(palette, lines, top, left_margin, num_cols, n - 1) + help_line_bytes(
            palette,
            lines[n - 1],
            (top + n) as nat,
            left_margin,
            num_cols,
        )
    }
}

/// The margin above the help lines on a screen of `height` lines: half of
/// what the lines leave free.
pub open spec fn vertical_margin(num_lines: nat, height: nat) -> nat {
    if num_lines < height {
        ((height - num_lines) / 2) as nat
    } else {
        0
    }
}

/// The margin left of the help lines on a screen of `num_cols` columns: half
/// of what the longest line leaves free.
pub open spec fn left_margin(lines: Seq<Seq<u8>>, num_cols: nat) -> nat {
    let widest = max_width(lines, lines.len() as int);
    if widest < num_cols {
        ((num_cols - widest) / 2) as nat
    } else {
        0
    }
}

/// How many physical lines the margin above and the help lines take, on a
/// screen of `height` lines.
pub open spec fn help_bottom(num_lines: nat, height: nat) -> nat {
    let bottom = vertical_margin(num_lines, height) + num_lines;
    if bottom < height {
        bottom
    } else {
        height
    }
}

/// The bytes of the help overlay on a screen of `height` lines and `num_cols`
/// columns: blank lines above, the help lines as far as the screen has room
/// for them, and blank lines below.
pub open spec fn help_overlay(
    palette: TermColor,
    lines: Seq<Seq<u8>>,
    height: nat,
    num_cols: nat,
) -> Seq<u8> {
    let top = vertical_margin(lines.len(), height);
    let bottom = help_bottom(lines.len(), height);
    blank_lines(0, top as int) + help_block(
        palette,
        lines,
        top,
        left_margin(lines, num_cols),
        num_cols,
        bottom - top,
    ) + blank_lines(bottom as int, height as int)
}

/// The lines of `text`.
pub fn split_text(text: &[u8]) -> (lines: Vec<Vec<u8>>)
    ensures
        lines_view(lines@) == split_lines(text@),
{
    let n = text.len();
    let mut lines: Vec<Vec<u8>> = Vec::new();
    let mut current: Vec<u8> = Vec::new();
    let mut i: usize = 0;
    assert(text@.take(0) == Seq::<u8>::empty());
    assert(lines_view(lines@).push(current@) == split_lines(text@.take(0)));
    while i < n
        invariant
            i <= n,
            n == text@.len(),
            lines_view(lines@).push(current@) == split_lines(text@.take(i as int)),
        decreases n - i,
    {
        let b = text[i];
        proof {
            assert(text@.take(i + 1).drop_last() == text@.take(i as int));
            assert(text@.take(i + 1).last() == b);
        }
        let ghost before = lines_view(lines@).push(current@);
        if b == LINE_FEED {
            let ghost old_lines = lines@;
            let ghost old_current = current@;
            lines.push(current);
            current = Vec::new();
            assert(lines_view(lines@) == lines_view(old_lines).push(old_current));
        } else {
            current.push(b);
            assert(lines_view(lines@).push(current@) == before.drop_last().push(
                before.last().push(b),
            ));
        }
        i += 1;
    }
    assert(text@.take(n as int) == text@);
    let ghost old_lines = lines@;
    lines.push(current);
    assert(lines_view(lines@) == lines_view(old_lines).push(current@));
    lines
}

/// Where the first colon of `line` stands at or after `from`.
pub fn find_colon(line: &[u8], from: usize) -> (at: usize)
    ensures
        at == first_colon(line@, from as int),
        from <= line@.len() ==> from <= at <= line@.len(),
{
    let n = line.len();
    let mut i = from;
    while i < n
        invariant
            n == line@.len(),
            from <= i,
            from <= n ==> i <= n,
            first_colon(line@, from as int) == first_colon(line@, i as int),
        decreases n - i,
    {
        if line[i] == COLON {
            return i;
        }
        i += 1;
    }
    n
}

/// `line` without the white space at its start.
pub fn trim_line_start(line: &[u8]) -> (trimmed: Vec<u8>)
    ensures
        trimmed@ == trim_start(line@),
{
    let n = line.len();
    let mut i: usize = 0;
    assert(line@.skip(0) == line@);
    while i < n && (line[i] == 0x20 || (0x09 <= line[i] && line[i] <= 0x0d))
        invariant
            i <= n,
            n == line@.len(),
            trim_start(line@) == trim_start(line@.skip(i as int)),
        decreases n - i,
    {
        assert(line@.skip(i as int).drop_first() == line@.skip(i + 1));
        i += 1;
    }
    let mut trimmed: Vec<u8> = Vec::new();
    let mut k = i;
    while k < n
        invariant
            i <= k <= n,
            n == line@.len(),
            trimmed@ == line@.subrange(i as int, k as int),
        decreases n - k,
    {
        trimmed.push(line[k]);
        k += 1;
    }
    assert(line@.subrange(i as int, n as int) == line@.skip(i as int));
    trimmed
}

/// The lines of a help text.
pub fn help_lines_of(text: &[u8]) -> (help: Vec<Vec<u8>>)
    ensures
        lines_view(help@) == help_lines(text@),
{
    let lines = split_text(text);
    let n = lines.len();
    let ghost all = lines_view(lines@);
    let mut first: usize = 0;
    let mut found = false;
    assert(all.skip(0) == all);
    while first < n && !found
        invariant
            first <= n,
            n == lines@.len(),
            all == lines_view(lines@),
            skip_heading(all) == skip_heading(all.skip(first as int)),
            found ==> first < n && has_colon(all[first as int]),
        decreases n - first + if found { 0int } else { 1int },
    {
        let line = lines[first].as_slice();
        if find_colon(line, 0) < line.len() {
            found = true;
        } else {
            assert(all.skip(first as int).drop_first() == all.skip(first + 1));
            assert(all.skip(first as int)[0] == all[first as int]);
            first += 1;
        }
    }
    assert(skip_heading(all) == all.skip(first as int)) by {
        if found {
            assert(all.skip(first as int)[0] == all[first as int]);
        } else {
            assert(all.skip(first as int).len() == 0);
        }
    }
    let mut help: Vec<Vec<u8>> = Vec::new();
    let mut i = first;
    while i < n
        invariant
            first <= i <= n,
            n == lines@.len(),
            all == lines_view(lines@),
            help@.len() == i - first,
            forall|k: int|
                0 <= k < i - first ==> #[trigger] help@[k]@ == trim_start(all[first + k]),
        decreases n - i,
    {
        let trimmed = trim_line_start(lines[i].as_slice());
        help.push(trimmed);
        i += 1;
    }
    assert(lines_view(help@) =~= help_lines(text@));
    help
}

/// Appends the bytes that erase the physical lines after line `from` up to
/// line `to`.
pub fn draw_blank_lines(buf: &mut Vec<u8>, from: usize, to: usize)
    ensures
        final(buf)@ == old(buf)@ + blank_lines(from as int, to as int),
{
    let mut y = from;
    assert(buf@ == old(buf)@ + Seq::<u8>::empty());
    while y < to
        invariant
            from <= y,
            from <= to ==> y <= to,
            from > to ==> y == from,
            buf@ == old(buf)@ + blank_lines(from as int, y as int),
        decreases to - y,
    {
        push_move_to_line(buf, y + 1);
        push_clear_to_eol(buf);
        y += 1;
        assert(buf@ == old(buf)@ + blank_lines(from as int, y as int));
    }
    assert(blank_lines(from as int, to as int) == blank_lines(from as int, y as int));
}

/// Appends one help line on physical line `line_no`.
pub fn draw_help_line(
    buf: &mut Vec<u8>,
    palette: &TermColor,
    line: &[u8],
    line_no: usize,
    left_margin: usize,
    num_cols: usize,
)
    ensures
        final(buf)@ == old(buf)@ + help_line_bytes(
            *palette,
            line@,
            line_no as nat,
            left_margin as nat,
            num_cols as nat,
        ),
{
    push_move_to_line(buf, line_no);
    push_spaces(buf, left_margin);
    let shown_len = if line.len() <= num_cols {
        line.len()
    } else {
        num_cols
    };
    let shown = vstd::slice::slice_subrange(line, 0, shown_len);
    assert(shown@ == clamp(line@, num_cols as nat));
    push_bytes(buf, palette.sequence(Color::Cyan));
    let colon = find_colon(shown, 0);
    push_bytes(buf, vstd::slice::slice_subrange(shown, 0, colon));
    push_bytes(buf, palette.sequence(Color::Reset));
    if colon < shown_len {
        let end = find_colon(shown, colon + 1);
        buf.push(COLON);
        push_bytes(buf, vstd::slice::slice_subrange(shown, colon + 1, end));
    }
    push_clear_to_eol(buf);
    assert(buf@ == old(buf)@ + help_line_bytes(
        *palette,
        line@,
        line_no as nat,
        left_margin as nat,
        num_cols as nat,
    ));
}

/// The length of the longest line.
pub fn widest(lines: &Vec<Vec<u8>>) -> (w: usize)
    ensures
        w == max_width(lines_view(lines@), lines@.len() as int),
{
    let n = lines.len();
    let mut w: usize = 0;
    let mut i: usize = 0;
    while i < n
        invariant
            i <= n,
            n == lines@.len(),
            w == max_width(lines_view(lines@), i as int),
        decreases n - i,
    {
        if lines[i].len() > w {
            w = lines[i].len();
        }
        i += 1;
    }
    w
}

/// Appends the help overlay for the help text `text`, on a screen of `height`
/// lines and `num_cols` columns.
pub fn draw_help_text(
    buf: &mut Vec<u8>,
    palette: &TermColor,
    text: &[u8],
    height: usize,
    num_cols: usize,
)
    ensures
        final(buf)@ == old(buf)@ + help_overlay(
            *palette,
            help_lines(text@),
            height as nat,
            num_cols as nat,
        ),
{
    let help = help_lines_of(text);
    let ghost lines = lines_view(help@);
    let vertical_margin = if help.len() < height {
        (height - help.len()) / 2
    } else {
        0
    };
    let help_max_width = widest(&help);
    let left_margin = if help_max_width < num_cols {
        (num_cols - help_max_width) / 2
    } else {
        0
    };
    draw_blank_lines(buf, 0, vertical_margin);
    let help_height = if help.len() < height - vertical_margin {
        vertical_margin + help.len()
    } else {
        height
    };
    let ghost head = buf@;
    let mut y = vertical_margin;
    assert(buf@ == head + Seq::<u8>::empty());
    while y < help_height
        invariant
            vertical_margin <= y <= help_height <= height,
            help_height <= vertical_margin + help@.len(),
            lines == lines_view(help@),
            buf@ == head + help_block(
                *palette,
                lines,
                vertical_margin as nat,
                left_margin as nat,
                num_cols as nat,
                y - vertical_margin,
            ),
        decreases help_height - y,
    {
        let idx = y - vertical_margin;
        draw_help_line(buf, palette, help[idx].as_slice(), y + 1, left_margin, num_cols);
        y += 1;
        assert(buf@ == head + help_block(
            *palette,
            lines,
            vertical_margin as nat,
            left_margin as nat,
            num_cols as nat,
            y - vertical_margin,
        ));
    }
    draw_blank_lines(buf, help_height, height);
    assert(buf@ == old(buf)@ + help_overlay(*palette, lines, height as nat, num_cols as nat));
}

} // verus!
