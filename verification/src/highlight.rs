//! The colors of the text: for each line, one color for each rendered
//! character.

use crate::row::Row;
use crate::term_color::Color;
use vstd::prelude::*;

verus! {

/// The colors that the highlighter gave to the text. Which color a character
/// gets is the highlighter's business; the screen paints what it is given,
/// and paints in the neutral color what the highlighter has not reached.
pub struct Highlighting {
    /// For each line of the text, the color of each rendered character.
    pub lines: Vec<Vec<Color>>,
}

/// The colors of a line of `len` characters that the highlighter has not
/// reached: neutral throughout.
pub open spec fn neutral_line(len: nat) -> Seq<Color> {
    Seq::new(len, |k: int| Color::Reset)
}

/// How many lines of a text of `num_lines` lines lie above `bottom`.
pub open spec fn lines_above(num_lines: nat, bottom: nat) -> nat {
    if num_lines <= bottom {
        num_lines
    } else {
        bottom
    }
}

impl Highlighting {
    /// The colors of line `line`.
    pub open spec fn tags(self, line: int) -> Seq<Color> {
        self.lines@[line]@
    }

    /// Whether every line of a text of `num_lines` lines that lies above
    /// `bottom` has its colors.
    pub open spec fn covers(self, num_lines: nat, bottom: nat) -> bool {
        lines_above(num_lines, bottom) <= self.lines@.len()
    }

    /// Whether these colors are what `before` becomes when it is extended
    /// down to line `bottom` of `rows`: the lines that had colors keep them,
    /// and each line above `bottom` that had none is neutral.
    pub open spec fn extends(self, before: Highlighting, rows: Seq<Row>, bottom: nat) -> bool {
        &&& self.lines@.len() == if before.lines@.len() >= lines_above(rows.len(), bottom) {
            before.lines@.len()
        } else {
            lines_above(rows.len(), bottom)
        }
        &&& forall|i: int|
            0 <= i < before.lines@.len() ==> #[trigger] self.tags(i) == before.tags(i)
        &&& forall|i: int|
            before.lines@.len() <= i < self.lines@.len() ==> #[trigger] self.tags(i)
                == neutral_line(rows[i].text().len())
    }

    /// Extends the colors down to line `bottom` of `rows`, so that every line
    /// above it has colors: lines that the highlighter has not reached get
    /// the neutral color.
    pub fn update(&mut self, rows: &[Row], bottom: usize)
        ensures
            final(self).extends(*old(self), rows@, bottom as nat),
            final(self).covers(rows@.len(), bottom as nat),
    {
        let needed = if rows.len() <= bottom {
            rows.len()
        } else {
            bottom
        };
        let ghost before = *self;
        while self.lines.len() < needed
            invariant
                needed == lines_above(rows@.len(), bottom as nat),
                before.lines@.len() <= self.lines@.len(),
                self.lines@.len() <= needed || self.lines@.len() == before.lines@.len(),
                forall|i: int|
                    0 <= i < before.lines@.len() ==> #[trigger] self.tags(i) == before.tags(i),
                forall|i: int|
                    before.lines@.len() <= i < self.lines@.len() ==> #[trigger] self.tags(i)
                        == neutral_line(rows@[i].text().len()),
            decreases needed - self.lines@.len(),
        {
            let len = rows[self.lines.len()].render_text().len();
            let mut line: Vec<Color> = Vec::new();
            let mut k: usize = 0;
            while k < len
                invariant
                    k <= len,
                    line@ == neutral_line(k as nat),
                decreases len - k,
            {
                line.push(Color::Reset);
                assert(line@ == neutral_line((k + 1) as nat));
                k += 1;
            }
            let ghost prev = *self;
            assert(line@ == neutral_line(rows@[prev.lines@.len() as int].text().len()));
            self.lines.push(line);
            assert forall|i: int| 0 <= i < before.lines@.len() implies #[trigger] self.tags(i)
                == before.tags(i) by {
                assert(self.lines@[i] == prev.lines@[i]);
                assert(prev.tags(i) == before.tags(i));
            }
            assert forall|i: int|
                before.lines@.len() <= i < self.lines@.len() implies #[trigger] self.tags(i)
                == neutral_line(rows@[i].text().len()) by {
                if i < prev.lines@.len() {
                    assert(self.lines@[i] == prev.lines@[i]);
                    assert(prev.tags(i) == neutral_line(rows@[i].text().len()));
                }
            }
        }
    }
}

} // verus!
