//! Painting the text: which characters of a line are on screen, and the
//! colors in which they are written.
//!
//! The color that was written last is carried from character to character
//! and from line to line, so that a color is selected only where it changes.

use crate::highlight::Highlighting;
use crate::row::Row;
use crate::sequence::{
    clear_to_eol, move_to_line, push_bytes, push_char, push_clear_to_eol, push_move_to_line,
    push_spaces, push_str, spaces,
};
use crate::term_color::{Color, TermColor};
use crate::viewport::{Viewport, Window};
use crate::width::{
    column_after, columns_of, lemma_column_monotonic, lemma_column_step, text_width,
};
use vstd::prelude::*;
use vstd::string::StrSliceExecFns;
use vstd::string::StringExecFns;
use vstd::utf8::{encode_scalar, encode_utf8, is_ascii_chars, is_ascii_chars_encode_utf8};

verus! {

/// What painting leaves behind: the bytes written, and the color that is
/// active on the terminal after them.
pub struct Painted {
    pub bytes: Seq<u8>,
    pub color: Color,
}

/// The bytes that make `next` the active color after `prev`: nothing when the
/// color stays, and else the sequence of `next`, after a reset if `prev`
/// underlines, since underlining does not end with a new color.
pub open spec fn color_change(palette: TermColor, prev: Color, next: Color) -> Seq<u8> {
    if next == prev {
        Seq::empty()
    } else if prev.spec_is_underlined() {
        palette.spec_sequence(Color::Reset) + palette.spec_sequence(next)
    } else {
        palette.spec_sequence(next)
    }
}

/// Whether character `k` of `text` is on screen: the column at its end lies
/// after the left edge of the viewport and not after the right one.
pub open spec fn is_visible(text: Seq<char>, k: int, vp: Window) -> bool {
    vp.coloff < column_after(text, k + 1) <= vp.coloff + vp.num_cols
}

/// Painting the first `k` characters of `text`, each with its color from
/// `tags`, when `start` is the active color: every visible character is
/// written in UTF-8, after the change to its color.
pub open spec fn paint_cells(
    palette: TermColor,
    text: Seq<char>,
    tags: Seq<Color>,
    vp: Window,
    start: Color,
    k: int,
) -> Painted
    decreases k,
{
    if k <= 0 {
        Painted { bytes: Seq::empty(), color: start }
    } else {
        let before = paint_cells(palette, text, tags, vp, start, k - 1);
        if is_visible(text, k - 1, vp) {
            Painted {
                bytes: before.bytes + color_change(palette, before.color, tags[k - 1])
                    + encode_scalar(text[k - 1] as u32),
                color: tags[k - 1],
            }
        } else {
            before
        }
    }
}

/// How many characters of a line have a color: characters and colors are
/// paired one to one, as far as both go.
pub open spec fn cell_count(text: Seq<char>, tags: Seq<Color>) -> int {
    if text.len() <= tags.len() {
        text.len() as int
    } else {
        tags.len() as int
    }
}

/// Painting the text of a line with its colors.
pub open spec fn paint_text(
    palette: TermColor,
    text: Seq<char>,
    tags: Seq<Color>,
    vp: Window,
    start: Color,
) -> Painted {
    paint_cells(palette, text, tags, vp, start, cell_count(text, tags))
}

/// Once a character ends beyond the right edge, nothing after it is painted.
pub proof fn lemma_cells_past_right_edge(
    palette: TermColor,
    text: Seq<char>,
    tags: Seq<Color>,
    vp: Window,
    start: Color,
    i: int,
    n: int,
)
    requires
        0 <= i < n <= text.len(),
        column_after(text, i + 1) > vp.coloff + vp.num_cols,
    ensures
        paint_cells(palette, text, tags, vp, start, n) == paint_cells(
            palette,
            text,
            tags,
            vp,
            start,
            i,
        ),
    decreases n - i,
{
    lemma_column_monotonic(text, i + 1, n);
    if n > i + 1 {
        lemma_cells_past_right_edge(palette, text, tags, vp, start, i, n - 1);
    }
}

/// Appends the change from color `prev` to color `next`.
pub fn push_color_change(buf: &mut Vec<u8>, palette: &TermColor, prev: Color, next: Color)
    ensures
        final(buf)@ == old(buf)@ + color_change(*palette, prev, next),
{
    if next != prev {
        if prev.is_underlined() {
            push_bytes(buf, palette.sequence(Color::Reset));
        }
        push_bytes(buf, palette.sequence(next));
        assert(buf@ == old(buf)@ + color_change(*palette, prev, next));
    } else {
        assert(buf@ == old(buf)@ + Seq::<u8>::empty());
    }
}

/// Appends the visible characters of `row` in the colors `tags`, and returns
/// the color that is active afterwards.
pub fn draw_text(
    buf: &mut Vec<u8>,
    palette: &TermColor,
    row: &Row,
    tags: &Vec<Color>,
    vp: Viewport,
    prev_color: Color,
) -> (color: Color)
    ensures
        final(buf)@ == old(buf)@ + paint_text(*palette, row.text(), tags@, vp@, prev_color).bytes,
        color == paint_text(*palette, row.text(), tags@, vp@, prev_color).color,
{
    let text = row.render_text();
    let n = if text.len() <= tags.len() {
        text.len()
    } else {
        tags.len()
    };
    let mut color = prev_color;
    let mut col: usize = 0;
    let mut i: usize = 0;
    assert(text@.take(0).len() == 0);
    assert(buf@ == old(buf)@ + Seq::<u8>::empty());
    while i < n
        invariant
            i <= n,
            n == cell_count(text@, tags@),
            text@ == row.text(),
            text_width(text@) <= usize::MAX,
            col == column_after(text@, i as int),
            buf@ == old(buf)@ + paint_cells(
                *palette,
                text@,
                tags@,
                vp@,
                prev_color,
                i as int,
            ).bytes,
            color == paint_cells(*palette, text@, tags@, vp@, prev_color, i as int).color,
        decreases n - i,
    {
        proof {
            lemma_column_step(text@, i as int);
            lemma_column_monotonic(text@, i + 1, text@.len() as int);
            assert(text@.take(text@.len() as int) == text@);
        }
        col = col + columns_of(text[i]);
        if col > vp.coloff {
            if col - vp.coloff > vp.num_cols {
                proof {
                    lemma_cells_past_right_edge(
                        *palette,
                        text@,
                        tags@,
                        vp@,
                        prev_color,
                        i as int,
                        n as int,
                    );
                }
                return color;
            }
            let next = tags[i];
            push_color_change(buf, palette, color, next);
            color = next;
            push_char(buf, text[i]);
            assert(buf@ == old(buf)@ + paint_cells(
                *palette,
                text@,
                tags@,
                vp@,
                prev_color,
                i + 1,
            ).bytes);
        }
        i += 1;
    }
    color
}

/// The version shown in the welcome banner.
pub const VERSION: &'static str = "0.1.0";

/// The welcome banner.
pub open spec fn banner() -> Seq<char> {
    "Kiro editor -- version "@ + VERSION@
}

/// The part of a line of plain text that the viewport shows: `num_cols`
/// characters from character `coloff` on, and nothing of a line that has no
/// more than `coloff` bytes.
pub open spec fn spec_trim_line(line: Seq<char>, vp: Window) -> Seq<char> {
    if encode_utf8(line).len() <= vp.coloff {
        Seq::empty()
    } else {
        let from = if vp.coloff <= line.len() {
            vp.coloff as int
        } else {
            line.len() as int
        };
        let to = if from + vp.num_cols <= line.len() {
            from + vp.num_cols
        } else {
            line.len() as int
        };
        line.subrange(from, to)
    }
}

/// The welcome line: the visible part of the banner, centered by a margin
/// that starts with `~`.
pub open spec fn welcome_bytes(vp: Window) -> Seq<u8> {
    let welcome = encode_utf8(spec_trim_line(banner(), vp));
    let padding = (vp.num_cols - welcome.len()) / 2;
    if padding > 0 {
        seq![0x7eu8] + spaces((padding - 1) as nat) + welcome
    } else {
        welcome
    }
}

/// Painting screen line `y` when `prev` is the active color. A line of the
/// text is painted in its colors. Below the text stands `~`, written in the
/// neutral color, but for the welcome line: a third of the way down the
/// screen, on the first pass over an empty text. The painting starts at the
/// head of the physical line and ends by erasing what is left of it.
pub open spec fn paint_line(
    palette: TermColor,
    rows: Seq<Row>,
    hl: Highlighting,
    vp: Window,
    first_paint: bool,
    y: int,
    prev: Color,
) -> Painted {
    let file_row = y + vp.rowoff;
    if file_row >= rows.len() {
        if rows.len() == 0 && first_paint && y == vp.height / 3 {
            Painted {
                bytes: move_to_line((y + 1) as nat) + welcome_bytes(vp) + clear_to_eol(),
                color: prev,
            }
        } else if prev != Color::Reset {
            Painted {
                bytes: move_to_line((y + 1) as nat) + palette.spec_sequence(Color::Reset)
                    + seq![0x7eu8] + clear_to_eol(),
                color: Color::Reset,
            }
        } else {
            Painted {
                bytes: move_to_line((y + 1) as nat) + seq![0x7eu8] + clear_to_eol(),
                color: Color::Reset,
            }
        }
    } else {
        let cells = paint_text(palette, rows[file_row].text(), hl.tags(file_row), vp, prev);
        Painted {
            bytes: move_to_line((y + 1) as nat) + cells.bytes + clear_to_eol(),
            color: cells.color,
        }
    }
}

/// Painting the first `n` lines of the screen, of which those that show
/// text from line `dirty_start` on are painted and the others are left as
/// they are. The neutral color is selected first.
pub open spec fn paint_lines(
    palette: TermColor,
    rows: Seq<Row>,
    hl: Highlighting,
    vp: Window,
    first_paint: bool,
    dirty_start: nat,
    n: int,
) -> Painted
    decreases n,
{
    if n <= 0 {
        Painted { bytes: palette.spec_sequence(Color::Reset), color: Color::Reset }
    } else {
        let before = paint_lines(palette, rows, hl, vp, first_paint, dirty_start, n - 1);
        if n - 1 + vp.rowoff < dirty_start {
            before
        } else {
            let line = paint_line(palette, rows, hl, vp, first_paint, n - 1, before.color);
            Painted { bytes: before.bytes + line.bytes, color: line.color }
        }
    }
}

/// The bytes that repaint the text region from line `dirty_start` of the
/// text on: the lines of the screen from top to bottom, and a reset at the
/// end if a color is still active, so that none leaks into the bars below.
pub open spec fn rows_region(
    palette: TermColor,
    rows: Seq<Row>,
    hl: Highlighting,
    vp: Window,
    first_paint: bool,
    dirty_start: nat,
) -> Seq<u8> {
    let painted = paint_lines(palette, rows, hl, vp, first_paint, dirty_start, vp.height as int);
    if painted.color != Color::Reset {
        painted.bytes + palette.spec_sequence(Color::Reset)
    } else {
        painted.bytes
    }
}

/// The banner is plain ASCII: each of its characters is one byte and one
/// column.
proof fn lemma_banner_is_ascii()
    ensures
        is_ascii_chars(banner()),
{
    reveal_strlit("Kiro editor -- version ");
    reveal_strlit("0.1.0");
    assert(is_ascii_chars("Kiro editor -- version "@));
    assert(is_ascii_chars("0.1.0"@));
    assert forall|i: int| 0 <= i < banner().len() implies '\0' <= #[trigger] banner()[i]
        <= '\u{7f}' by {
        if i < "Kiro editor -- version "@.len() {
            assert(banner()[i] == "Kiro editor -- version "@[i]);
        } else {
            assert(banner()[i] == "0.1.0"@[i - "Kiro editor -- version "@.len()]);
        }
    }
}

/// The visible part of the banner takes no more bytes than the screen has
/// columns.
proof fn lemma_welcome_fits(vp: Window)
    ensures
        encode_utf8(spec_trim_line(banner(), vp)).len() <= vp.num_cols,
{
    lemma_banner_is_ascii();
    let part = spec_trim_line(banner(), vp);
    assert(is_ascii_chars(part));
    is_ascii_chars_encode_utf8(part);
}

/// The part of a line of plain text that the viewport shows.
pub fn trim_line(line: &str, vp: Viewport) -> (trimmed: String)
    ensures
        trimmed@ == spec_trim_line(line@, vp@),
{
    if line.as_bytes().len() <= vp.coloff {
        return String::new();
    }
    let len = line.unicode_len();
    let from = if vp.coloff <= len {
        vp.coloff
    } else {
        len
    };
    let to = if vp.num_cols <= len - from {
        from + vp.num_cols
    } else {
        len
    };
    line.substring_char(from, to).to_owned()
}

/// Appends the welcome line.
pub fn draw_welcome_message(buf: &mut Vec<u8>, vp: Viewport)
    ensures
        final(buf)@ == old(buf)@ + welcome_bytes(vp@),
{
    let mut msg_buf = String::from_str("Kiro editor -- version ");
    msg_buf.append(VERSION);
    let welcome = trim_line(msg_buf.as_str(), vp);
    proof {
        lemma_welcome_fits(vp@);
    }
    let padding = (vp.num_cols - welcome.as_str().as_bytes().len()) / 2;
    if padding > 0 {
        buf.push(0x7e);
        push_spaces(buf, padding - 1);
    }
    push_str(buf, welcome.as_str());
    assert(buf@ == old(buf)@ + welcome_bytes(vp@));
}

/// Appends screen line `y` and returns the color that is active afterwards.
fn draw_line(
    buf: &mut Vec<u8>,
    palette: &TermColor,
    rows: &[Row],
    hl: &Highlighting,
    vp: Viewport,
    first_paint: bool,
    y: usize,
    prev_color: Color,
) -> (color: Color)
    requires
        y < vp.height,
        hl.covers(rows@.len(), (vp.rowoff + vp.height) as nat),
    ensures
        final(buf)@ == old(buf)@ + paint_line(
            *palette,
            rows@,
            *hl,
            vp@,
            first_paint,
            y as int,
            prev_color,
        ).bytes,
        color == paint_line(*palette, rows@, *hl, vp@, first_paint, y as int, prev_color).color,
{
    let row_len = rows.len();
    let mut color = prev_color;
    push_move_to_line(buf, y + 1);
    if vp.rowoff >= row_len || y >= row_len - vp.rowoff {
        if row_len == 0 && first_paint && y == vp.height / 3 {
            draw_welcome_message(buf, vp);
        } else {
            if color != Color::Reset {
                push_bytes(buf, palette.sequence(Color::Reset));
                color = Color::Reset;
            }
            buf.push(0x7e);
        }
    } else {
        let file_row = y + vp.rowoff;
        color = draw_text(buf, palette, &rows[file_row], &hl.lines[file_row], vp, color);
    }
    push_clear_to_eol(buf);
    assert(buf@ == old(buf)@ + paint_line(
        *palette,
        rows@,
        *hl,
        vp@,
        first_paint,
        y as int,
        prev_color,
    ).bytes);
    color
}

/// Appends the text region, repainted from line `dirty_start` of the text on.
pub fn draw_rows(
    buf: &mut Vec<u8>,
    palette: &TermColor,
    vp: Viewport,
    first_paint: bool,
    dirty_start: usize,
    rows: &[Row],
    hl: &Highlighting,
)
    requires
        hl.covers(rows@.len(), (vp.rowoff + vp.height) as nat),
    ensures
        final(buf)@ == old(buf)@ + rows_region(
            *palette,
            rows@,
            *hl,
            vp@,
            first_paint,
            dirty_start as nat,
        ),
{
    let mut prev_color = Color::Reset;
    push_bytes(buf, palette.sequence(Color::Reset));
    let mut y: usize = 0;
    while y < vp.height
        invariant
            y <= vp.height,
            hl.covers(rows@.len(), (vp.rowoff + vp.height) as nat),
            buf@ == old(buf)@ + paint_lines(
                *palette,
                rows@,
                *hl,
                vp@,
                first_paint,
                dirty_start as nat,
                y as int,
            ).bytes,
            prev_color == paint_lines(
                *palette,
                rows@,
                *hl,
                vp@,
                first_paint,
                dirty_start as nat,
                y as int,
            ).color,
        decreases vp.height - y,
    {
        if dirty_start <= vp.rowoff || y >= dirty_start - vp.rowoff {
            prev_color = draw_line(buf, palette, rows, hl, vp, first_paint, y, prev_color);
            assert(buf@ == old(buf)@ + paint_lines(
                *palette,
                rows@,
                *hl,
                vp@,
                first_paint,
                dirty_start as nat,
                y + 1,
            ).bytes);
        }
        y += 1;
    }
    if prev_color != Color::Reset {
        push_bytes(buf, palette.sequence(Color::Reset));
    }
}

} // verus!
