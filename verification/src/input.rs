//! Decoded terminal input, as far as the screen reads it.

use vstd::prelude::*;

verus! {

/// One decoded input sequence.
#[derive(Clone, Copy, Debug, PartialEq, Eq, Structural)]
pub enum KeySeq {
    /// A cursor position report: line, then column, both 1-based.
    Cursor(usize, usize),
    /// Any other key or sequence.
    Other,
}

} // verus!
