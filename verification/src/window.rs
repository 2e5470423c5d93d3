//! Finding out the size of the terminal window.
//!
//! The size comes from the caller's hint, else from the operating system,
//! else from the terminal itself: the cursor is sent to the far corner and
//! asked for its position, and the first cursor position report that comes
//! back tells the size.

use crate::error::Error;
use crate::input::KeySeq;
use vstd::prelude::*;

verus! {

/// How the size of the window is to be learned.
#[derive(Clone, Copy, Debug, PartialEq, Eq, Structural)]
pub enum SizeQuery {
    /// The size is known: columns, then lines.
    Known(usize, usize),
    /// The terminal must be asked: the probe sequence is to be written, and
    /// the input read up to the first cursor position report.
    AskTerminal,
}

/// Calls `term_size::dimensions_stdout`.
///
/// Trusted: nothing is claimed of the result, which is whatever the operating
/// system reports for the standard output at the time of the call.
#[verifier::external_body]
fn stdout_dimensions() -> (size: Option<(usize, usize)>) {
    term_size::dimensions_stdout()
}

/// The query that follows from a hint and from what the operating system
/// reported: the hint wins, then the operating system, and only without both
/// is the terminal asked.
pub open spec fn spec_size_query(
    size_hint: Option<(usize, usize)>,
    os_size: Option<(usize, usize)>,
) -> SizeQuery {
    match size_hint {
        Some((w, h)) => SizeQuery::Known(w, h),
        None => match os_size {
            Some((w, h)) => SizeQuery::Known(w, h),
            None => SizeQuery::AskTerminal,
        },
    }
}

/// The size that the first cursor position report in `input` tells, as
/// columns and lines.
pub open spec fn first_report(input: Seq<KeySeq>) -> Option<(usize, usize)>
    decreases input.len(),
{
    if input.len() == 0 {
        None
    } else {
        match input[0] {
            KeySeq::Cursor(line, col) => Some((col, line)),
            KeySeq::Other => first_report(input.drop_first()),
        }
    }
}

/// The window size that a query and the input read after it give.
pub open spec fn spec_window_size(query: SizeQuery, input: Seq<KeySeq>) -> Result<
    (usize, usize),
    Error,
> {
    match query {
        SizeQuery::Known(w, h) => Ok((w, h)),
        SizeQuery::AskTerminal => match first_report(input) {
            Some(size) => Ok(size),
            None => Err(Error::UnknownWindowSize),
        },
    }
}

/// The window size if it is usable: at least one column and three lines.
pub open spec fn spec_check_size(w: usize, h: usize) -> Result<(usize, usize), Error> {
    if w == 0 || h < 3 {
        Err(Error::TooSmallWindow(w, h))
    } else {
        Ok((w, h))
    }
}

/// Decides how to learn the window size from a hint and from the size that
/// the operating system reported.
pub fn size_query(size_hint: Option<(usize, usize)>, os_size: Option<(usize, usize)>) -> (query:
    SizeQuery)
    ensures
        query == spec_size_query(size_hint, os_size),
{
    match size_hint {
        Some((w, h)) => SizeQuery::Known(w, h),
        None => match os_size {
            Some((w, h)) => SizeQuery::Known(w, h),
            None => SizeQuery::AskTerminal,
        },
    }
}

/// Decides how to learn the window size. With a hint the size is known.
/// Without one the operating system is asked, and the query is the one that
/// `size_query` gives for its answer.
pub fn begin_size_query(size_hint: Option<(usize, usize)>) -> (query: SizeQuery)
    ensures
        size_hint matches Some((w, h)) ==> query == SizeQuery::Known(w, h),
        size_hint is None ==> exists|os_size: Option<(usize, usize)>|
            query == #[trigger] spec_size_query(None, os_size),
{
    match size_hint {
        Some((w, h)) => SizeQuery::Known(w, h),
        None => {
            let os_size = stdout_dimensions();
            let query = size_query(None, os_size);
            assert(query == spec_size_query(None, os_size));
            query
        },
    }
}

/// The window size, as columns and lines, from a query and the input that
/// was read after the probe was written. Input before the first cursor
/// position report is passed over; without a report the size stays unknown.
pub fn get_window_size(query: SizeQuery, input: &[KeySeq]) -> (size: Result<(usize, usize), Error>)
    ensures
        size == spec_window_size(query, input@),
{
    match query {
        SizeQuery::Known(w, h) => Ok((w, h)),
        SizeQuery::AskTerminal => {
            let n = input.len();
            let mut i: usize = 0;
            assert(input@.skip(0) == input@);
            while i < n
                invariant
                    i <= n,
                    n == input@.len(),
                    query == SizeQuery::AskTerminal,
                    first_report(input@) == first_report(input@.skip(i as int)),
                decreases n - i,
            {
                assert(input@.skip(i as int).drop_first() == input@.skip(i + 1));
                assert(input@.skip(i as int)[0] == input@[i as int]);
                match input[i] {
                    KeySeq::Cursor(line, col) => {
                        return Ok((col, line));
                    },
                    KeySeq::Other => {},
                }
                i += 1;
            }
            Err(Error::UnknownWindowSize)
        },
    }
}

/// Whether `key` ends the wait for the terminal's answer to the probe: it
/// does when it tells the size, and input read after it is not needed.
pub fn ends_probe(key: KeySeq) -> (done: bool)
    ensures
        done == (first_report(seq![key]) is Some),
        done == (key is Cursor),
{
    proof {
        assert(seq![key][0] == key);
        assert(seq![key].drop_first().len() == 0);
        reveal_with_fuel(first_report, 2);
    }
    match key {
        KeySeq::Cursor(_, _) => true,
        KeySeq::Other => false,
    }
}

/// Accepts a window size that leaves room for one line of text above the
/// status bar and the message bar.
pub fn check_size(w: usize, h: usize) -> (size: Result<(usize, usize), Error>)
    ensures
        size == spec_check_size(w, h),
{
    if w == 0 || h < 3 {
        Err(Error::TooSmallWindow(w, h))
    } else {
        Ok((w, h))
    }
}

} // verus!
