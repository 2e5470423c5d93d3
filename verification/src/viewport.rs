//! The scroll offsets of the viewport: how they follow the cursor.
//!
//! The row offset follows the cursor's line. The column offset follows the
//! cursor's column in the rendered text, and when it moves right it stops at
//! the end of a character, so that the left edge never cuts a wide character
//! of the cursor's line in two.

use crate::row::Row;
use crate::width::{
    column_after, is_glyph_boundary, lemma_column_monotonic, lemma_total_width_monotonic,
    lemma_total_width_of_text, total_width, widths_of, widths_of_text,
};
use vstd::prelude::*;

verus! {

/// The part of the text that the screen shows: `height` lines from line
/// `rowoff` on, and of each line `num_cols` columns from column `coloff` on.
#[derive(Clone, Copy, Debug, PartialEq, Eq, Structural)]
pub struct Viewport {
    /// First line shown.
    pub rowoff: usize,
    /// First column shown.
    pub coloff: usize,
    /// Number of lines shown.
    pub height: usize,
    /// Number of columns shown.
    pub num_cols: usize,
}

/// A viewport in contracts.
pub struct Window {
    pub rowoff: nat,
    pub coloff: nat,
    pub height: nat,
    pub num_cols: nat,
}

impl View for Viewport {
    type V = Window;

    open spec fn view(&self) -> Window {
        Window {
            rowoff: self.rowoff as nat,
            coloff: self.coloff as nat,
            height: self.height as nat,
            num_cols: self.num_cols as nat,
        }
    }
}

/// Where a scan of `text` stops that has taken `k` characters and goes on
/// until the column after the characters taken reaches `want`: the number of
/// characters taken then, or all of them.
pub open spec fn scan_stop(text: Seq<char>, want: nat, k: int) -> int
    decreases text.len() - k,
{
    if k >= text.len() {
        text.len() as int
    } else if column_after(text, k + 1) >= want {
        k + 1
    } else {
        scan_stop(text, want, k + 1)
    }
}

/// The column offset found by scanning `text` from the left, a character at a
/// time, until the column reaches `want`.
pub open spec fn spec_next_coloff(text: Seq<char>, want: nat) -> nat {
    column_after(text, scan_stop(text, want, 0))
}

/// The row offset after the viewport, `height` lines high, has followed the
/// cursor to line `cy`.
pub open spec fn scroll_row_offset(rowoff: nat, height: nat, cy: nat) -> nat {
    let up = if cy < rowoff {
        cy
    } else {
        rowoff
    };
    if cy >= up + height {
        (cy - height + 1) as nat
    } else {
        up
    }
}

/// The column offset after the viewport, `width` columns wide, has followed
/// the cursor to column `rx` of the rendered `text` of its line.
pub open spec fn scroll_col_offset(coloff: nat, width: nat, rx: nat, text: Seq<char>) -> nat {
    let left = if rx < coloff {
        rx
    } else {
        coloff
    };
    if rx >= left + width {
        spec_next_coloff(text, (rx - width + 1) as nat)
    } else {
        left
    }
}

/// The rendered text of line `cy`, and no text for a line that does not exist
/// yet.
pub open spec fn text_of_line(rows: Seq<Row>, cy: nat) -> Seq<char> {
    if cy < rows.len() {
        rows[cy as int].text()
    } else {
        Seq::empty()
    }
}

/// The column of the cursor in the rendered text of its line, and column 0 on
/// a line that does not exist yet.
pub open spec fn render_column(rows: Seq<Row>, cx: nat, cy: nat) -> nat {
    if cy < rows.len() {
        rows[cy as int].spec_rx_from_cx(cx)
    } else {
        0
    }
}

/// What a scan finds: it stops after the first character at whose end the
/// column has reached `want`, or at the end of the text when no character
/// gets that far.
pub proof fn lemma_scan_stop(text: Seq<char>, want: nat, k: int)
    requires
        0 <= k <= text.len(),
    ensures
        k <= scan_stop(text, want, k) <= text.len(),
        k < text.len() ==> k < scan_stop(text, want, k),
        forall|j: int| k < j < scan_stop(text, want, k) ==> column_after(text, j) < want,
        scan_stop(text, want, k) < text.len() ==> column_after(text, scan_stop(text, want, k))
            >= want,
    decreases text.len() - k,
{
    if k < text.len() && column_after(text, k + 1) < want {
        lemma_scan_stop(text, want, k + 1);
    }
}

/// When the column offset moves right to bring column `rx` into view, and
/// `rx` is a glyph boundary of the text, the new offset is the smallest
/// glyph boundary that is at least `want`: it is a boundary, it lies between
/// `want` and `rx`, and no boundary from `want` on is smaller.
pub proof fn lemma_next_coloff_is_least_boundary(text: Seq<char>, want: nat, rx: nat)
    requires
        1 <= want <= rx,
        is_glyph_boundary(text, rx as int),
    ensures
        is_glyph_boundary(text, spec_next_coloff(text, want) as int),
        want <= spec_next_coloff(text, want) <= rx,
        forall|b: int|
            want <= b && is_glyph_boundary(text, b) ==> spec_next_coloff(text, want) <= b,
{
    let s = scan_stop(text, want, 0);
    lemma_scan_stop(text, want, 0);
    assert(text.take(0).len() == 0);
    assert(column_after(text, 0) == 0);
    let m = choose|m: int| 0 <= m <= text.len() && #[trigger] column_after(text, m) == rx as int;
    assert(m >= 1);
    assert(s <= m) by {
        if s > m {
            assert(column_after(text, m) < want);
        }
    }
    lemma_column_monotonic(text, s, m);
    assert(column_after(text, s) >= want) by {
        if s == text.len() {
            assert(s == m);
        }
    }
    assert(is_glyph_boundary(text, column_after(text, s) as int));
    assert forall|b: int| want <= b && is_glyph_boundary(text, b) implies spec_next_coloff(
        text,
        want,
    ) <= b by {
        let j = choose|j: int| 0 <= j <= text.len() && #[trigger] column_after(text, j) == b;
        if j < s {
            assert(j >= 1);
            assert(column_after(text, j) < want);
        } else {
            lemma_column_monotonic(text, s, j);
        }
    }
}

/// After the row offset has followed the cursor, the cursor's line is inside
/// the viewport.
pub proof fn lemma_scroll_keeps_line_in_view(rowoff: nat, height: nat, cy: nat)
    requires
        height >= 1,
    ensures
        scroll_row_offset(rowoff, height, cy) <= cy < scroll_row_offset(rowoff, height, cy)
            + height,
{
}

/// After the column offset has followed the cursor, the cursor's column is
/// inside the viewport, and an offset that moved, in either direction, stands
/// on a glyph boundary of the cursor's line.
pub proof fn lemma_scroll_keeps_column_in_view(coloff: nat, width: nat, rx: nat, text: Seq<char>)
    requires
        width >= 1,
        is_glyph_boundary(text, rx as int),
    ensures
        scroll_col_offset(coloff, width, rx, text) <= rx < scroll_col_offset(
            coloff,
            width,
            rx,
            text,
        ) + width,
        scroll_col_offset(coloff, width, rx, text) != coloff ==> is_glyph_boundary(
            text,
            scroll_col_offset(coloff, width, rx, text) as int,
        ),
{
    let left = if rx < coloff {
        rx
    } else {
        coloff
    };
    if rx >= left + width {
        lemma_next_coloff_is_least_boundary(text, (rx - width + 1) as nat, rx);
    }
}

/// Where a scan of the given widths stops that has taken `k` of them and
/// goes on until the columns taken reach `want`: the number of widths taken
/// then, or all of them.
pub open spec fn stop_from(widths: Seq<usize>, want: nat, k: int) -> int
    decreases widths.len() - k,
{
    if k >= widths.len() {
        widths.len() as int
    } else if total_width(widths, k + 1) >= want {
        k + 1
    } else {
        stop_from(widths, want, k + 1)
    }
}

/// The column offset found by scanning the given widths from the left, one
/// at a time, until the columns reach `want`.
pub open spec fn spec_next_offset(widths: Seq<usize>, want: nat) -> nat {
    total_width(widths, stop_from(widths, want, 0))
}

/// A scan of a text stops where the scan of its widths stops.
pub proof fn lemma_scan_of_widths(text: Seq<char>, want: nat, k: int)
    requires
        0 <= k <= text.len(),
    ensures
        scan_stop(text, want, k) == stop_from(widths_of(text), want, k),
    decreases text.len() - k,
{
    if k < text.len() {
        lemma_total_width_of_text(text, k + 1);
        if column_after(text, k + 1) < want {
            lemma_scan_of_widths(text, want, k + 1);
        }
    }
}

/// The column offset found in a text is the one found in its widths.
pub proof fn lemma_next_offset_of_text(text: Seq<char>, want: nat)
    ensures
        spec_next_coloff(text, want) == spec_next_offset(widths_of(text), want),
{
    lemma_scan_of_widths(text, want, 0);
    lemma_scan_stop(text, want, 0);
    lemma_total_width_of_text(text, scan_stop(text, want, 0));
}

/// Scans the given widths from the left, one at a time, until the columns
/// taken reach `want_stop`, and returns the columns taken: the end of a
/// character, never its middle. The widths together must fit a `usize`.
pub fn next_offset(want_stop: usize, widths: &[usize]) -> (coloff: usize)
    requires
        total_width(widths@, widths@.len() as int) <= usize::MAX,
    ensures
        coloff == spec_next_offset(widths@, want_stop as nat),
{
    let n = widths.len();
    let mut coloff: usize = 0;
    let mut i: usize = 0;
    while i < n
        invariant
            i <= n,
            n == widths@.len(),
            total_width(widths@, n as int) <= usize::MAX,
            coloff == total_width(widths@, i as int),
            stop_from(widths@, want_stop as nat, 0) == stop_from(
                widths@,
                want_stop as nat,
                i as int,
            ),
        decreases n - i,
    {
        proof {
            lemma_total_width_monotonic(widths@, i + 1, n as int);
        }
        coloff = coloff + widths[i];
        i += 1;
        if coloff >= want_stop {
            return coloff;
        }
    }
    coloff
}

/// Scans the rendered text of `row` from the left, a character at a time,
/// until the column reaches `want_stop`, and returns the column reached: the
/// screen cannot start in the middle of a wide character.
pub fn next_coloff(want_stop: usize, row: &Row) -> (coloff: usize)
    ensures
        coloff == spec_next_coloff(row.text(), want_stop as nat),
{
    let text = row.render_text();
    let widths = widths_of_text(text);
    proof {
        lemma_total_width_of_text(text@, text@.len() as int);
        assert(text@.take(text@.len() as int) == text@);
        lemma_next_offset_of_text(text@, want_stop as nat);
    }
    next_offset(want_stop, widths.as_slice())
}

} // verus!
