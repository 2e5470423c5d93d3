//! The status bar: one line in inverted video, with one text at its left end
//! and one at its right end.
//!
//! The bar is measured in columns. A text is cut between characters, never
//! inside one, and a wide character that does not fit leaves its column to a
//! space.

use crate::sequence::{
    fit_text, move_to_line, push_bytes, push_fitted, push_move_to_line, push_spaces, push_str,
    spaces,
};
use crate::term_color::{Color, TermColor};
use crate::width::{fitted, lemma_fitted_is_longest, text_width};
use vstd::prelude::*;
use vstd::utf8::encode_utf8;

verus! {

/// What the status bar shows. The screen lays the two texts out; what they
/// say, and when the bar must be drawn again, is for whoever owns them.
pub struct StatusBar {
    /// Text at the left end.
    pub left: String,
    /// Text at the right end.
    pub right: String,
    /// Whether the bar must be drawn again.
    pub redraw: bool,
}

/// The part of the left text that is shown in a bar `width` columns wide: its
/// longest prefix that is no wider.
pub open spec fn left_part(left: Seq<char>, width: nat) -> Seq<char> {
    fitted(left, width)
}

/// The columns that the left part leaves free.
pub open spec fn rest_width(left: Seq<char>, width: nat) -> nat {
    (width - text_width(left_part(left, width))) as nat
}

/// Whether the right text has room beside the left part.
pub open spec fn right_fits(left: Seq<char>, right: Seq<char>, width: nat) -> bool {
    text_width(right) <= rest_width(left, width)
}

/// The spaces after the left part: up to the right text when it has room, and
/// else to the end of the bar.
pub open spec fn padding(left: Seq<char>, right: Seq<char>, width: nat) -> nat {
    if right_fits(left, right, width) {
        (rest_width(left, width) - text_width(right)) as nat
    } else {
        rest_width(left, width)
    }
}

/// The text of a status bar `width` columns wide: the left part, spaces, and
/// the right text if it has room.
pub open spec fn status_text(left: Seq<char>, right: Seq<char>, width: nat) -> Seq<u8> {
    if right_fits(left, right, width) {
        encode_utf8(left_part(left, width)) + spaces(padding(left, right, width)) + encode_utf8(
            right,
        )
    } else {
        encode_utf8(left_part(left, width)) + spaces(padding(left, right, width))
    }
}

/// The bytes that draw the status bar on physical line `line`: the cursor
/// movement, inverted video, the text, and a reset of the attributes unless
/// the bar ended without the right text.
pub open spec fn status_bar_bytes(
    palette: TermColor,
    line: nat,
    left: Seq<char>,
    right: Seq<char>,
    width: nat,
) -> Seq<u8> {
    if right_fits(left, right, width) {
        move_to_line(line) + palette.spec_sequence(Color::Invert) + status_text(
            left,
            right,
            width,
        ) + palette.spec_sequence(Color::Reset)
    } else {
        move_to_line(line) + palette.spec_sequence(Color::Invert) + status_text(
            left,
            right,
            width,
        )
    }
}

/// The layout of the status bar, in columns. The left part is a prefix of the
/// left text, whole characters only, no wider than the bar, and no longer one
/// would fit; it is the whole left text when that fits. The left part, the
/// spaces (one column each) and the right text, when it is shown, fill
/// exactly `width` columns. The right text is shown, at the right end, exactly
/// when it has room beside the left part, and always when the two texts
/// together are no wider than the bar.
pub proof fn lemma_status_text_layout(left: Seq<char>, right: Seq<char>, width: nat)
    ensures
        left_part(left, width).is_prefix_of(left),
        text_width(left_part(left, width)) <= width,
        forall|j: int|
            left_part(left, width).len() < j <= left.len() ==> text_width(#[trigger] left.take(j))
                > width,
        text_width(left) <= width ==> left_part(left, width) == left,
        right_fits(left, right, width) ==> text_width(left_part(left, width)) + padding(
            left,
            right,
            width,
        ) + text_width(right) == width,
        !right_fits(left, right, width) ==> text_width(left_part(left, width)) + padding(
            left,
            right,
            width,
        ) == width,
        text_width(left) + text_width(right) <= width ==> right_fits(left, right, width),
{
    lemma_fitted_is_longest(left, width);
}

/// Appends the status bar, placed on physical line `line` of a screen
/// `num_cols` columns wide.
pub fn draw_status_bar(
    buf: &mut Vec<u8>,
    palette: &TermColor,
    line: usize,
    status_bar: &StatusBar,
    num_cols: usize,
)
    ensures
        final(buf)@ == old(buf)@ + status_bar_bytes(
            *palette,
            line as nat,
            status_bar.left@,
            status_bar.right@,
            num_cols as nat,
        ),
{
    push_move_to_line(buf, line);
    push_bytes(buf, palette.sequence(Color::Invert));
    let (used, _) = push_fitted(buf, status_bar.left.as_str(), num_cols);
    let rest_len = num_cols - used;
    let (right_len, fits) = fit_text(status_bar.right.as_str(), rest_len);
    if fits {
        proof {
            lemma_fitted_is_longest(status_bar.right@, rest_len as nat);
        }
        push_spaces(buf, rest_len - right_len);
        push_str(buf, status_bar.right.as_str());
        push_bytes(buf, palette.sequence(Color::Reset));
        assert(buf@ == old(buf)@ + status_bar_bytes(
            *palette,
            line as nat,
            status_bar.left@,
            status_bar.right@,
            num_cols as nat,
        ));
    } else {
        push_spaces(buf, rest_len);
        assert(buf@ == old(buf)@ + status_bar_bytes(
            *palette,
            line as nat,
            status_bar.left@,
            status_bar.right@,
            num_cols as nat,
        ));
    }
}

} // verus!
