//! Errors of the screen.

use vstd::prelude::*;

verus! {

/// Why the screen could not be set up or resized.
#[derive(Clone, Copy, Debug, PartialEq, Eq, Structural)]
pub enum Error {
    /// Neither the operating system nor the terminal told the window size.
    UnknownWindowSize,
    /// The window has no column, or fewer than three lines: columns, then
    /// lines. Two lines go to the status bar and the message bar, and one must
    /// remain for text.
    TooSmallWindow(usize, usize),
}

} // verus!
