//! Logical colors and the byte sequences that select them on a terminal.

use vstd::prelude::*;

verus! {

/// A logical color or attribute. Which bytes select it depends on what the
/// terminal supports, and is looked up in a `TermColor`.
#[derive(Clone, Copy, Debug, PartialEq, Eq, Structural)]
pub enum Color {
    Reset,
    Red,
    Green,
    Gray,
    Yellow,
    Orange,
    Blue,
    Purple,
    Cyan,
    CyanUnderline,
    RedBG,
    Invert,
    NonText,
}

/// Number of logical colors.
pub const NUM_COLORS: usize = 13;

impl Color {
    /// Position of the color in a palette.
    pub open spec fn spec_index(self) -> nat {
        match self {
            Color::Reset => 0,
            Color::Red => 1,
            Color::Green => 2,
            Color::Gray => 3,
            Color::Yellow => 4,
            Color::Orange => 5,
            Color::Blue => 6,
            Color::Purple => 7,
            Color::Cyan => 8,
            Color::CyanUnderline => 9,
            Color::RedBG => 10,
            Color::Invert => 11,
            Color::NonText => 12,
        }
    }

    /// Position of the color in a palette.
    pub fn index(self) -> (i: usize)
        ensures
            i == self.spec_index(),
            i < NUM_COLORS,
    {
        match self {
            Color::Reset => 0,
            Color::Red => 1,
            Color::Green => 2,
            Color::Gray => 3,
            Color::Yellow => 4,
            Color::Orange => 5,
            Color::Blue => 6,
            Color::Purple => 7,
            Color::Cyan => 8,
            Color::CyanUnderline => 9,
            Color::RedBG => 10,
            Color::Invert => 11,
            Color::NonText => 12,
        }
    }

    /// Whether the color switches underlining on. A terminal keeps
    /// underlining until it is reset: a new color alone does not end it.
    pub open spec fn spec_is_underlined(self) -> bool {
        self == Color::CyanUnderline
    }

    /// Whether the color switches underlining on.
    pub fn is_underlined(self) -> (b: bool)
        ensures
            b == self.spec_is_underlined(),
    {
        match self {
            Color::CyanUnderline => true,
            _ => false,
        }
    }
}

/// The palette of a terminal: for each logical color, the bytes that select
/// it.
pub struct TermColor {
    sequences: Vec<Vec<u8>>,
}

impl TermColor {
    #[verifier::type_invariant]
    spec fn inv(self) -> bool {
        self.sequences@.len() == NUM_COLORS
    }

    /// The bytes that select `color`.
    pub closed spec fn spec_sequence(self, color: Color) -> Seq<u8> {
        self.sequences@[color.spec_index() as int]@
    }

    /// A palette from one byte sequence per color, in the order of
    /// `Color::index`. `None` unless there is exactly one sequence for each
    /// color.
    pub fn new(sequences: Vec<Vec<u8>>) -> (palette: Option<TermColor>)
        ensures
            palette is Some <==> sequences@.len() == NUM_COLORS,
            palette matches Some(p) ==> forall|c: Color|
                #[trigger] p.spec_sequence(c) == sequences@[c.spec_index() as int]@,
    {
        if sequences.len() == NUM_COLORS {
            Some(TermColor { sequences })
        } else {
            None
        }
    }

    /// The bytes that select `color`.
    pub fn sequence(&self, color: Color) -> (bytes: &[u8])
        ensures
            bytes@ == self.spec_sequence(color),
    {
        proof {
            use_type_invariant(self);
        }
        self.sequences[color.index()].as_slice()
    }
}

} // verus!
