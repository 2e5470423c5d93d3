//! One line of text as the screen sees it.

use crate::width::{
    column_after, columns_of, is_glyph_boundary, lemma_column_monotonic,
    lemma_column_step, lemma_ends_are_boundaries, text_width,
};
use vstd::prelude::*;
use vstd::std_specs::iter::IteratorSpec;

verus! {

/// A line of the text model: its rendered characters (tabs already expanded)
/// and, for each cursor position in the line, the column of the rendered text
/// at which the cursor stands.
///
/// Every such column is a glyph boundary of the rendered text, and the whole
/// text is at most `usize::MAX` columns wide.
pub struct Row {
    render: Vec<char>,
    columns: Vec<usize>,
    width: usize,
}

/// The characters of `text`, one by one.
pub fn chars_of(text: &str) -> (chars: Vec<char>)
    ensures
        chars@ == text@,
{
    let mut chars: Vec<char> = Vec::new();
    let source = text.chars();
    for c in it: source
        invariant
            it.seq() == text@,
            chars@ == it.seq().take(it.index() as int),
    {
        chars.push(c);
    }
    chars
}

/// The column after each prefix of `text`: entry `k` is the width of the first
/// `k` characters. `None` when the text is wider than `usize::MAX` columns.
fn prefix_columns(text: &Vec<char>) -> (bounds: Option<Vec<usize>>)
    ensures
        bounds is Some <==> text_width(text@) <= usize::MAX,
        bounds matches Some(b) ==> {
            &&& b@.len() == text@.len() + 1
            &&& forall|k: int| 0 <= k <= text@.len() ==> #[trigger] b@[k] == column_after(text@, k)
        },
{
    let n = text.len();
    let mut bounds: Vec<usize> = Vec::new();
    let mut col: usize = 0;
    bounds.push(col);
    assert(text@.take(0).len() == 0);
    let mut i: usize = 0;
    while i < n
        invariant
            i <= n,
            n == text@.len(),
            col == column_after(text@, i as int),
            bounds@.len() == i + 1,
            forall|k: int| 0 <= k <= i ==> #[trigger] bounds@[k] == column_after(text@, k),
        decreases n - i,
    {
        let w = columns_of(text[i]);
        proof {
            lemma_column_step(text@, i as int);
        }
        match col.checked_add(w) {
            Some(next) => {
                col = next;
            },
            None => {
                proof {
                    lemma_column_monotonic(text@, i + 1, n as int);
                    assert(text@.take(n as int) == text@);
                }
                return None;
            },
        }
        bounds.push(col);
        i += 1;
    }
    assert(text@.take(n as int) == text@);
    Some(bounds)
}

/// Whether each of `columns` occurs among `bounds`, which is in ascending
/// order.
fn all_among(columns: &Vec<usize>, bounds: &Vec<usize>) -> (all: bool)
    requires
        forall|a: int, b: int| 0 <= a <= b < bounds@.len() ==> bounds@[a] <= bounds@[b],
    ensures
        all <==> forall|i: int|
            0 <= i < columns@.len() ==> bounds@.contains(#[trigger] columns@[i]),
{
    let m = columns.len();
    let n = bounds.len();
    let mut prev: usize = 0;
    let mut k: usize = 0;
    let mut i: usize = 0;
    while i < m
        invariant
            i <= m,
            m == columns@.len(),
            n == bounds@.len(),
            k <= n,
            forall|a: int, b: int| 0 <= a <= b < bounds@.len() ==> bounds@[a] <= bounds@[b],
            forall|j: int| 0 <= j < k ==> bounds@[j] < prev,
            forall|j: int| 0 <= j < i ==> bounds@.contains(#[trigger] columns@[j]),
        decreases m - i,
    {
        let c = columns[i];
        if c < prev {
            k = 0;
        }
        while k < n && bounds[k] < c
            invariant
                k <= n,
                n == bounds@.len(),
                forall|j: int| 0 <= j < k ==> bounds@[j] < c,
            decreases n - k,
        {
            k += 1;
        }
        if k == n || bounds[k] != c {
            assert(!bounds@.contains(columns@[i as int])) by {
                assert forall|j: int| 0 <= j < bounds@.len() implies bounds@[j] != c by {
                    if j >= k {
                        assert(bounds@[k as int] <= bounds@[j]);
                    }
                }
            }
            return false;
        }
        assert(bounds@[k as int] == columns@[i as int]);
        prev = c;
        i += 1;
    }
    true
}

impl Row {
    #[verifier::type_invariant]
    spec fn inv(self) -> bool {
        &&& self.width == text_width(self.render@)
        &&& forall|i: int|
            0 <= i < self.columns@.len() ==> is_glyph_boundary(
                self.render@,
                #[trigger] self.columns@[i] as int,
            )
    }

    /// The rendered characters.
    pub closed spec fn text(self) -> Seq<char> {
        self.render@
    }

    /// The column of each cursor position.
    pub closed spec fn columns(self) -> Seq<usize> {
        self.columns@
    }

    /// What holds of every row: its width fits a `usize`, and each cursor
    /// column is a glyph boundary of its text.
    pub open spec fn wf(self) -> bool {
        &&& text_width(self.text()) <= usize::MAX
        &&& forall|i: int|
            0 <= i < self.columns().len() ==> is_glyph_boundary(
                self.text(),
                #[trigger] self.columns()[i] as int,
            )
    }

    /// The column in the rendered text of cursor position `cx`. Past the last
    /// position the cursor stands at the end of the line.
    pub open spec fn spec_rx_from_cx(self, cx: nat) -> nat {
        if cx < self.columns().len() {
            self.columns()[cx as int] as nat
        } else {
            text_width(self.text())
        }
    }

    /// A row from its rendered text and the column of each cursor position.
    /// `None` when a column falls inside a wide character or past the end of
    /// the text, or when the text is wider than `usize::MAX` columns.
    pub fn new(render: &str, columns: Vec<usize>) -> (row: Option<Row>)
        ensures
            row is Some <==> {
                &&& text_width(render@) <= usize::MAX
                &&& forall|i: int|
                    0 <= i < columns@.len() ==> is_glyph_boundary(
                        render@,
                        #[trigger] columns@[i] as int,
                    )
            },
            row matches Some(r) ==> r.text() == render@ && r.columns() == columns@ && r.wf(),
    {
        let chars = chars_of(render);
        let n = chars.len();
        match prefix_columns(&chars) {
            None => None,
            Some(bounds) => {
                assert forall|a: int, b: int| 0 <= a <= b < bounds@.len() implies bounds@[a]
                    <= bounds@[b] by {
                    lemma_column_monotonic(chars@, a, b);
                }
                let valid = all_among(&columns, &bounds);
                assert(valid <==> forall|i: int|
                    0 <= i < columns@.len() ==> is_glyph_boundary(
                        chars@,
                        #[trigger] columns@[i] as int,
                    )) by {
                    if valid {
                        assert forall|i: int| 0 <= i < columns@.len() implies is_glyph_boundary(
                            chars@,
                            #[trigger] columns@[i] as int,
                        ) by {
                            assert(bounds@.contains(columns@[i]));
                            let k = choose|k: int|
                                0 <= k < bounds@.len() && bounds@[k] == columns@[i];
                            assert(column_after(chars@, k) == columns@[i]);
                        }
                    }
                    if forall|i: int|
                        0 <= i < columns@.len() ==> is_glyph_boundary(
                            chars@,
                            #[trigger] columns@[i] as int,
                        ) {
                        assert forall|i: int| 0 <= i < columns@.len() implies bounds@.contains(
                            #[trigger] columns@[i],
                        ) by {
                            assert(is_glyph_boundary(chars@, columns@[i] as int));
                            let k = choose|k: int|
                                0 <= k <= chars@.len() && #[trigger] column_after(chars@, k)
                                    == columns@[i] as int;
                            assert(bounds@[k] == columns@[i]);
                        }
                    }
                }
                if valid {
                    let width = bounds[n];
                    assert(chars@.take(n as int) == chars@);
                    Some(Row { render: chars, columns, width })
                } else {
                    None
                }
            },
        }
    }

    /// The rendered characters.
    pub fn render_text(&self) -> (text: &Vec<char>)
        ensures
            text@ == self.text(),
            self.wf(),
    {
        proof {
            use_type_invariant(self);
        }
        &self.render
    }

    /// The width of the rendered text in columns.
    pub fn width(&self) -> (w: usize)
        ensures
            w == text_width(self.text()),
            self.wf(),
    {
        proof {
            use_type_invariant(self);
        }
        self.width
    }

    /// The column in the rendered text of cursor position `cx`.
    pub fn rx_from_cx(&self, cx: usize) -> (rx: usize)
        ensures
            rx == self.spec_rx_from_cx(cx as nat),
            is_glyph_boundary(self.text(), rx as int),
            self.wf(),
    {
        proof {
            use_type_invariant(self);
            lemma_ends_are_boundaries(self.render@);
        }
        if cx < self.columns.len() {
            self.columns[cx]
        } else {
            self.width
        }
    }
}

} // verus!
