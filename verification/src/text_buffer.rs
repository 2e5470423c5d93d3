//! The text model, as far as the screen reads it.

use crate::row::Row;
use vstd::prelude::*;

verus! {

/// The lines of the text and the place of the cursor in it.
pub struct TextBuffer {
    /// The lines.
    pub rows: Vec<Row>,
    /// The cursor's position in its line.
    pub cx: usize,
    /// The cursor's line. It may be the line after the last one, which does
    /// not exist yet.
    pub cy: usize,
}

} // verus!
