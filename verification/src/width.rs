//! Display width of characters and of rendered text, in terminal columns.

use unicode_width::UnicodeWidthChar;
use vstd::prelude::*;

verus! {

/// What `unicode_width::UnicodeWidthChar::width_cjk` returns for a character:
/// its displayed width in columns in an East Asian context, or `None` for a
/// control character.
pub uninterp spec fn width_cjk(c: char) -> Option<usize>;

/// Calls `unicode_width::UnicodeWidthChar::width_cjk`.
///
/// Trusted: the result is the crate's table lookup for `c`, a function of the
/// character alone. Nothing more is claimed of it.
#[verifier::external_body]
fn lookup_width_cjk(c: char) -> (w: Option<usize>)
    ensures
        w == width_cjk(c),
{
    c.width_cjk()
}

/// Columns that a character of the given width takes on screen: its width,
/// and one column for a control character, which has none.
pub open spec fn columns_from(width: Option<usize>) -> nat {
    match width {
        Some(w) => w as nat,
        None => 1,
    }
}

/// Columns that `c` takes on screen: its East Asian width, and one column for
/// a control character.
pub open spec fn char_columns(c: char) -> nat {
    columns_from(width_cjk(c))
}

/// Columns that a character of the given width takes on screen.
pub fn columns_from_width(width: Option<usize>) -> (w: usize)
    ensures
        w == columns_from(width),
{
    match width {
        Some(w) => w,
        None => 1,
    }
}

/// Columns that `c` takes on screen.
pub fn columns_of(c: char) -> (w: usize)
    ensures
        w == char_columns(c),
{
    columns_from_width(lookup_width_cjk(c))
}

/// Columns taken by a whole text: the sum over its characters.
pub open spec fn text_width(text: Seq<char>) -> nat
    decreases text.len(),
{
    if text.len() == 0 {
        0
    } else {
        text_width(text.drop_last()) + char_columns(text.last())
    }
}

/// The column just after the first `k` characters of `text`.
pub open spec fn column_after(text: Seq<char>, k: int) -> nat {
    text_width(text.take(k))
}

/// A glyph boundary is a column at which some character of the text ends, or
/// column 0: a column that does not fall inside a wide character.
pub open spec fn is_glyph_boundary(text: Seq<char>, col: int) -> bool {
    exists|k: int| 0 <= k <= text.len() && #[trigger] column_after(text, k) == col
}

/// Taking one more character adds that character's columns.
pub proof fn lemma_column_step(text: Seq<char>, k: int)
    requires
        0 <= k < text.len(),
    ensures
        column_after(text, k + 1) == column_after(text, k) + char_columns(text[k]),
{
    assert(text.take(k + 1).drop_last() == text.take(k));
}

/// Columns never decrease along the text.
pub proof fn lemma_column_monotonic(text: Seq<char>, i: int, j: int)
    requires
        0 <= i <= j <= text.len(),
    ensures
        column_after(text, i) <= column_after(text, j),
    decreases j - i,
{
    if i < j {
        lemma_column_monotonic(text, i, j - 1);
        lemma_column_step(text, j - 1);
    }
}

/// Column 0 and the full width are glyph boundaries of every text.
pub proof fn lemma_ends_are_boundaries(text: Seq<char>)
    ensures
        is_glyph_boundary(text, 0),
        is_glyph_boundary(text, text_width(text) as int),
{
    assert(text.take(0).len() == 0);
    assert(column_after(text, 0) == 0);
    assert(text.take(text.len() as int) == text);
    assert(column_after(text, text.len() as int) == text_width(text));
}

/// The columns taken by the first `k` of the given widths.
pub open spec fn total_width(widths: Seq<usize>, k: int) -> nat
    decreases k,
{
    if k <= 0 {
        0
    } else {
        total_width(widths, k - 1) + widths[k - 1] as nat
    }
}

/// How many of the given widths, counted from the first, fit into `limit`
/// columns, when the first `k` are known to fit.
pub open spec fn fit_from(widths: Seq<usize>, limit: nat, k: int) -> int
    decreases widths.len() - k,
{
    if k >= widths.len() {
        widths.len() as int
    } else if total_width(widths, k + 1) > limit {
        k
    } else {
        fit_from(widths, limit, k + 1)
    }
}

/// How many of the given widths, counted from the first, fit into `limit`
/// columns.
pub open spec fn fit_count(widths: Seq<usize>, limit: nat) -> int {
    fit_from(widths, limit, 0)
}

/// The width of each character of `text`.
pub open spec fn widths_of(text: Seq<char>) -> Seq<usize> {
    Seq::new(text.len(), |i: int| char_columns(text[i]) as usize)
}

/// How many characters of `text`, counted from the first, fit into `limit`
/// columns.
pub open spec fn fit_chars(text: Seq<char>, limit: nat) -> int {
    fit_count(widths_of(text), limit)
}

/// The longest prefix of `text` that is no more than `limit` columns wide.
pub open spec fn fitted(text: Seq<char>, limit: nat) -> Seq<char> {
    text.take(fit_chars(text, limit))
}

/// Widths never take columns away.
pub proof fn lemma_total_width_monotonic(widths: Seq<usize>, i: int, j: int)
    requires
        0 <= i <= j,
    ensures
        total_width(widths, i) <= total_width(widths, j),
    decreases j - i,
{
    if i < j {
        lemma_total_width_monotonic(widths, i, j - 1);
    }
}

/// What fits is the greatest number of widths that stays within the limit:
/// those counted fit, and one more would not.
pub proof fn lemma_fit_from(widths: Seq<usize>, limit: nat, k: int)
    requires
        0 <= k <= widths.len(),
        total_width(widths, k) <= limit,
    ensures
        k <= fit_from(widths, limit, k) <= widths.len(),
        total_width(widths, fit_from(widths, limit, k)) <= limit,
        forall|j: int|
            fit_from(widths, limit, k) < j <= widths.len() ==> total_width(widths, j) > limit,
    decreases widths.len() - k,
{
    if k < widths.len() {
        if total_width(widths, k + 1) > limit {
            assert forall|j: int| k < j <= widths.len() implies total_width(widths, j)
                > limit by {
                lemma_total_width_monotonic(widths, k + 1, j);
            }
        } else {
            lemma_fit_from(widths, limit, k + 1);
        }
    }
}

/// The columns of given widths are the columns of the text they belong to.
pub proof fn lemma_total_width_of_text(text: Seq<char>, k: int)
    requires
        0 <= k <= text.len(),
    ensures
        total_width(widths_of(text), k) == column_after(text, k),
    decreases k,
{
    if k > 0 {
        lemma_total_width_of_text(text, k - 1);
        lemma_column_step(text, k - 1);
    } else {
        assert(text.take(0).len() == 0);
    }
}

/// The fitted prefix of a text is its longest prefix that is no more than
/// `limit` columns wide: it is that narrow, and with one more character, or
/// any number more, it is wider.
pub proof fn lemma_fitted_is_longest(text: Seq<char>, limit: nat)
    ensures
        0 <= fit_chars(text, limit) <= text.len(),
        text_width(fitted(text, limit)) <= limit,
        forall|j: int|
            fit_chars(text, limit) < j <= text.len() ==> text_width(#[trigger] text.take(j))
                > limit,
        text_width(text) <= limit ==> fitted(text, limit) == text,
        fit_chars(text, limit) == text.len() <==> text_width(text) <= limit,
{
    let widths = widths_of(text);
    lemma_fit_from(widths, limit, 0);
    let k = fit_chars(text, limit);
    lemma_total_width_of_text(text, k);
    assert forall|j: int| k < j <= text.len() implies text_width(#[trigger] text.take(j))
        > limit by {
        lemma_total_width_of_text(text, j);
    }
    assert(text.take(text.len() as int) == text);
    if text_width(text) <= limit {
        if k < text.len() {
            assert(text_width(text.take(text.len() as int)) > limit);
        }
    }
}

/// Counts how many of the given widths, from the first on, fit into `limit`
/// columns, and the columns that they take.
pub fn fit_prefix(widths: &[usize], limit: usize) -> (fit: (usize, usize))
    ensures
        fit.0 == fit_count(widths@, limit as nat),
        fit.1 == total_width(widths@, fit.0 as int),
        fit.0 <= widths@.len(),
        fit.1 <= limit,
{
    let n = widths.len();
    let mut columns: usize = 0;
    let mut i: usize = 0;
    while i < n
        invariant
            i <= n,
            n == widths@.len(),
            columns == total_width(widths@, i as int),
            columns <= limit,
            fit_count(widths@, limit as nat) == fit_from(widths@, limit as nat, i as int),
        decreases n - i,
    {
        if widths[i] > limit - columns {
            return (i, columns);
        }
        columns = columns + widths[i];
        i += 1;
    }
    (i, columns)
}

/// The width of each character of `text`.
pub fn widths_of_text(text: &Vec<char>) -> (widths: Vec<usize>)
    ensures
        widths@ == widths_of(text@),
{
    let n = text.len();
    let mut widths: Vec<usize> = Vec::new();
    let mut i: usize = 0;
    while i < n
        invariant
            i <= n,
            n == text@.len(),
            widths@.len() == i,
            forall|k: int| 0 <= k < i ==> #[trigger] widths@[k] == widths_of(text@)[k],
        decreases n - i,
    {
        widths.push(columns_of(text[i]));
        i += 1;
    }
    assert(widths@ =~= widths_of(text@));
    widths
}

} // verus!
