//! The screen: the viewport, the dirty mark and the message bar, and the frame
//! that brings the terminal up to date.
//!
//! The screen writes nothing itself. Each operation that has something to
//! show returns the bytes for the terminal, and the caller writes them.

use crate::dirty::{mark_dirty, mark_view, merge_dirty};
use crate::error::Error;
use crate::help::{draw_help_text, help_lines, help_overlay, HELP};
use crate::highlight::Highlighting;
use crate::message::{DisplayState, MessageView, StatusMessage, StatusMessageKind};
use crate::paint::{rows_region, spec_trim_line, welcome_bytes};
use crate::row::Row;
use crate::sequence::{
    hide_cursor, hide_cursor_sequence, move_to, push_move_to, push_show_cursor, show_cursor,
};
use crate::status_bar::{status_bar_bytes, StatusBar};
use crate::term_color::TermColor;
use crate::text_buffer::TextBuffer;
use crate::viewport::{
    lemma_scroll_keeps_column_in_view, lemma_scroll_keeps_line_in_view, render_column,
    scroll_col_offset, scroll_row_offset, spec_next_coloff, text_of_line, Viewport, Window,
};
use crate::width::{is_glyph_boundary, lemma_ends_are_boundaries};
use crate::window::check_size;
use vstd::prelude::*;
use vstd::utf8::encode_utf8;

verus! {

/// The message that a new screen shows.
pub const FIRST_MESSAGE: &'static str = "Ctrl-? for help";

/// The screen of the editor.
pub struct Screen {
    // Column of the cursor in the rendered text of its line
    rx: usize,
    // Size of the screen
    num_cols: usize,
    num_rows: usize,
    message: StatusMessage,
    // Whether the message bar held its line when the last frame was built
    message_is_shown: bool,
    // First line of the text whose picture is stale. All lines after it are
    // painted with it, since a change in one line may change the colors of
    // those that follow
    dirty_start: Option<usize>,
    term_color: TermColor,
    // Whether the text region was never painted yet
    first_paint: bool,
    cursor_moved: bool,
    // The dirty mark that the last frame leaves, while the frame waits to be
    // reported written
    awaiting: Option<Option<usize>>,
    // Scroll offsets
    rowoff: usize,
    coloff: usize,
}

/// What a screen stands for in contracts.
pub struct ScreenView {
    /// Column of the cursor in the rendered text of its line.
    pub rx: nat,
    /// Columns of the window.
    pub num_cols: nat,
    /// Lines of the window that show text while the message bar is up: two
    /// less than the window has.
    pub num_rows: nat,
    /// The message and where it is in its life.
    pub message: MessageView,
    /// Whether the message bar held its line when the last frame was built.
    pub message_is_shown: bool,
    /// The dirty mark.
    pub dirty_start: Option<nat>,
    /// The palette.
    pub term_color: TermColor,
    /// Whether the text region was never painted yet.
    pub first_paint: bool,
    /// Whether the cursor moved since the last frame.
    pub cursor_moved: bool,
    /// While a frame waits to be reported written: the dirty mark that it
    /// leaves.
    pub awaiting: Option<Option<nat>>,
    /// First line of the text on screen.
    pub rowoff: nat,
    /// First column of the rendered text on screen.
    pub coloff: nat,
}

/// What is to be written to the terminal to bring it up to date.
pub enum Frame {
    /// Nothing.
    Idle,
    /// One command that puts the cursor in its place.
    MoveCursor(Vec<u8>),
    /// A repaint. `hide` hides the cursor and is written and flushed first, so
    /// that the cursor is out of sight whatever time the rest takes; `body` is
    /// then written and flushed as one unit.
    Repaint { hide: Vec<u8>, body: Vec<u8> },
}

/// A frame in contracts.
pub enum FrameView {
    Idle,
    MoveCursor(Seq<u8>),
    Repaint { hide: Seq<u8>, body: Seq<u8> },
}

impl View for Frame {
    type V = FrameView;

    open spec fn view(&self) -> FrameView {
        match self {
            Frame::Idle => FrameView::Idle,
            Frame::MoveCursor(bytes) => FrameView::MoveCursor(bytes@),
            Frame::Repaint { hide, body } => FrameView::Repaint { hide: hide@, body: body@ },
        }
    }
}

impl ScreenView {
    /// What holds of every screen: it has a column, and a line for text.
    pub open spec fn wf(self) -> bool {
        &&& 1 <= self.num_cols <= usize::MAX
        &&& 1 <= self.num_rows <= usize::MAX - 2
    }

    /// Lines that show text: the message bar takes one while it is up.
    pub open spec fn rows(self) -> nat {
        if self.message_is_shown {
            self.num_rows
        } else {
            self.num_rows + 1
        }
    }

    /// The part of the text on screen.
    pub open spec fn window(self) -> Window {
        Window {
            rowoff: self.rowoff,
            coloff: self.coloff,
            height: self.rows(),
            num_cols: self.num_cols,
        }
    }

    /// The screen at the start, in a window of `w` columns and `h` lines: at
    /// the top left of the text, all of it to be painted, with the first
    /// message waiting.
    pub open spec fn initial(w: nat, h: nat, term_color: TermColor) -> ScreenView {
        ScreenView {
            rx: 0,
            num_cols: w,
            num_rows: (h - 2) as nat,
            message: MessageView::pending(FIRST_MESSAGE@, StatusMessageKind::Info),
            message_is_shown: false,
            dirty_start: Some(0),
            term_color,
            first_paint: true,
            cursor_moved: true,
            awaiting: None,
            rowoff: 0,
            coloff: 0,
        }
    }

    /// The screen after line `start` of the text was reported stale.
    pub open spec fn marked_dirty(self, start: nat) -> ScreenView {
        ScreenView { dirty_start: merge_dirty(self.dirty_start, start), ..self }
    }

    /// The screen in a window of `w` columns and `h` lines, all of it to be
    /// painted.
    pub open spec fn resized(self, w: nat, h: nat) -> ScreenView {
        ScreenView { num_cols: w, num_rows: (h - 2) as nat, dirty_start: Some(0), ..self }
    }

    /// The screen after a message was set: the message replaces the one
    /// before it and waits to be painted.
    pub open spec fn with_message(self, text: Seq<char>, kind: StatusMessageKind) -> ScreenView {
        ScreenView { message: MessageView::pending(text, kind), ..self }
    }

    /// The screen after its message was taken back.
    pub open spec fn without_message(self) -> ScreenView {
        ScreenView { message: self.message.hidden(), ..self }
    }

    /// The offsets after the viewport has followed the cursor to position
    /// `cx` of line `cy`, before the screen is marked.
    pub open spec fn scrolled_to(self, rows: Seq<Row>, cx: nat, cy: nat) -> ScreenView {
        let rx = render_column(rows, cx, cy);
        ScreenView {
            rx,
            rowoff: scroll_row_offset(self.rowoff, self.rows(), cy),
            coloff: scroll_col_offset(self.coloff, self.num_cols, rx, text_of_line(rows, cy)),
            ..self
        }
    }

    /// Whether following the cursor to position `cx` of line `cy` moves an
    /// offset.
    pub open spec fn scroll_changes(self, rows: Seq<Row>, cx: nat, cy: nat) -> bool {
        let to = self.scrolled_to(rows, cx, cy);
        to.rowoff != self.rowoff || to.coloff != self.coloff
    }

    /// The screen after the viewport has followed the cursor to position `cx`
    /// of line `cy`: when an offset moved, everything on screen is stale,
    /// from the new first line on.
    pub open spec fn scrolled(self, rows: Seq<Row>, cx: nat, cy: nat) -> ScreenView {
        let to = self.scrolled_to(rows, cx, cy);
        if self.scroll_changes(rows, cx, cy) {
            to.marked_dirty(to.rowoff)
        } else {
            to
        }
    }

    /// Whether the cursor, on line `cy`, is inside the viewport.
    pub open spec fn cursor_in_view(self, cy: nat) -> bool {
        &&& self.rowoff <= cy < self.rowoff + self.rows()
        &&& self.coloff <= self.rx < self.coloff + self.num_cols
    }

    /// The command that puts the cursor in its place on screen.
    pub open spec fn cursor_command(self, cy: nat) -> Seq<u8> {
        move_to((cy - self.rowoff + 1) as nat, (self.rx - self.coloff + 1) as nat)
    }

    /// Whether a frame at `now` must repaint: a line is stale, the status bar
    /// asks for it, or the message bar needs work.
    pub open spec fn needs_repaint(self, now: u64, status_bar: StatusBar) -> bool {
        self.dirty_start is Some || status_bar.redraw || self.message.should_redraw(now)
    }

    /// The message after a frame at `now`.
    pub open spec fn message_after(self, now: u64) -> MessageView {
        if self.message.should_redraw(now) {
            self.message.after_draw(now)
        } else {
            self.message
        }
    }

    /// The screen after a repaint was built at `now`: the message bar was
    /// worked on.
    pub open spec fn repainted(self, now: u64) -> ScreenView {
        ScreenView {
            message: self.message_after(now),
            message_is_shown: self.message_after(now).is_shown(),
            ..self
        }
    }

    /// What a repaint writes for the text region: the stale lines, if any.
    pub open spec fn rows_part(self, rows: Seq<Row>, hl: Highlighting) -> Seq<u8> {
        match self.dirty_start {
            Some(start) => rows_region(
                self.term_color,
                rows,
                hl,
                self.window(),
                self.first_paint,
                start,
            ),
            None => Seq::empty(),
        }
    }

    /// What a repaint at `now` writes for the message bar.
    pub open spec fn message_part(self, now: u64) -> Seq<u8> {
        if self.message.should_redraw(now) {
            self.message.bar_bytes(self.term_color, self.num_rows + 2, self.num_cols)
        } else {
            Seq::empty()
        }
    }

    /// Whether a repaint at `now` takes the message bar down or puts it up.
    pub open spec fn toggles_message_bar(self, now: u64) -> bool {
        self.message_is_shown != self.message_after(now).is_shown()
    }

    /// Whether a repaint at `now` takes the message bar down.
    pub open spec fn squashes_message_bar(self, now: u64) -> bool {
        self.message_is_shown && !self.message_after(now).is_shown()
    }

    /// What a repaint at `now` writes for the status bar: the bar, on the
    /// line below the text, when it was asked for or when the message bar
    /// below it came or went.
    pub open spec fn status_part(self, now: u64, status_bar: StatusBar) -> Seq<u8> {
        if status_bar.redraw || self.toggles_message_bar(now) {
            status_bar_bytes(
                self.term_color,
                self.repainted(now).rows() + 1,
                status_bar.left@,
                status_bar.right@,
                self.num_cols,
            )
        } else {
            Seq::empty()
        }
    }

    /// The body of a repaint at `now`: the text region, the message bar, the
    /// status bar, the cursor put in its place and shown again.
    pub open spec fn repaint_body(
        self,
        now: u64,
        text_buf: TextBuffer,
        hl: Highlighting,
        status_bar: StatusBar,
    ) -> Seq<u8> {
        self.rows_part(text_buf.rows@, hl) + self.message_part(now) + self.status_part(
            now,
            status_bar,
        ) + self.cursor_command(text_buf.cy as nat) + show_cursor()
    }

    /// The frame at `now`.
    pub open spec fn frame(
        self,
        now: u64,
        text_buf: TextBuffer,
        hl: Highlighting,
        status_bar: StatusBar,
    ) -> FrameView {
        if self.needs_repaint(now, status_bar) {
            FrameView::Repaint {
                hide: hide_cursor(),
                body: self.repaint_body(now, text_buf, hl, status_bar),
            }
        } else if self.cursor_moved {
            FrameView::MoveCursor(self.cursor_command(text_buf.cy as nat))
        } else {
            FrameView::Idle
        }
    }

    /// The dirty mark after a frame at `now`: the line that the message bar
    /// gave back to the text when it went down, and else none.
    pub open spec fn next_dirty_start(self, now: u64, status_bar: StatusBar) -> Option<nat> {
        if self.needs_repaint(now, status_bar) && self.squashes_message_bar(now) {
            Some((self.rowoff + self.repainted(now).rows() - 1) as nat)
        } else {
            None
        }
    }

    /// The screen after a frame was built at `now`.
    pub open spec fn redrawn(self, now: u64, status_bar: StatusBar) -> ScreenView {
        if self.needs_repaint(now, status_bar) {
            self.repainted(now)
        } else {
            self
        }
    }

    /// Whether a frame at `now` has anything to write.
    pub open spec fn writes_frame(self, now: u64, status_bar: StatusBar) -> bool {
        self.needs_repaint(now, status_bar) || self.cursor_moved
    }

    /// The line down to which a refresh asks for colors: the bottom of the
    /// screen after the viewport has followed the cursor to line `cy`.
    pub open spec fn colors_bottom(self, cy: nat) -> nat {
        scroll_row_offset(self.rowoff, self.rows(), cy) + self.rows()
    }

    /// The screen after a refresh at `now`: the viewport has followed the
    /// cursor and the frame was built. The dirty mark and the cursor flag
    /// stay as they are until the frame is reported written; the mark that
    /// the frame leaves waits with it.
    pub open spec fn refreshed(
        self,
        now: u64,
        text_buf: TextBuffer,
        status_bar: StatusBar,
    ) -> ScreenView {
        let scrolled = self.scrolled(text_buf.rows@, text_buf.cx as nat, text_buf.cy as nat);
        ScreenView {
            awaiting: if scrolled.writes_frame(now, status_bar) {
                Some(scrolled.next_dirty_start(now, status_bar))
            } else {
                None
            },
            ..scrolled.redrawn(now, status_bar)
        }
    }

    /// The screen after the frame that waits was reported written: the dirty
    /// mark becomes what the frame left, the cursor counts as not moved, and
    /// the text region counts as painted once it was. Without a frame that
    /// waits nothing changes.
    pub open spec fn written(self) -> ScreenView {
        match self.awaiting {
            Some(next) => ScreenView {
                dirty_start: next,
                cursor_moved: false,
                first_paint: self.first_paint && self.dirty_start is None,
                awaiting: None,
                ..self
            },
            None => self,
        }
    }

    /// The frame of a refresh at `now`, painted in the colors `hl`.
    pub open spec fn refresh_frame(
        self,
        now: u64,
        text_buf: TextBuffer,
        hl: Highlighting,
        status_bar: StatusBar,
    ) -> FrameView {
        self.scrolled(text_buf.rows@, text_buf.cx as nat, text_buf.cy as nat).frame(
            now,
            text_buf,
            hl,
            status_bar,
        )
    }
}

/// Wherever the cursor goes, after the viewport has followed it the cursor is
/// inside the viewport: its line is one of the lines on screen, and its
/// column one of the columns. A column offset that moved to follow it, left
/// or right, stands on a glyph boundary of the cursor's line: the left edge
/// of the screen does not cut a wide character of that line in two. And when
/// an offset moved, the screen is dirty from its new first line on, at the
/// latest.
pub proof fn lemma_scroll_keeps_cursor_in_view(s: ScreenView, rows: Seq<Row>, cx: nat, cy: nat)
    requires
        s.wf(),
        cy < rows.len() ==> rows[cy as int].wf(),
    ensures
        s.scrolled(rows, cx, cy).cursor_in_view(cy),
        s.scrolled(rows, cx, cy).coloff != s.coloff ==> is_glyph_boundary(
            text_of_line(rows, cy),
            s.scrolled(rows, cx, cy).coloff as int,
        ),
        s.scroll_changes(rows, cx, cy) ==> (s.scrolled(rows, cx, cy).dirty_start matches Some(
            start,
        ) && start <= s.scrolled(rows, cx, cy).rowoff),
        s.scrolled(rows, cx, cy).scrolled(rows, cx, cy) == s.scrolled(rows, cx, cy),
{
    let rx = render_column(rows, cx, cy);
    let text = text_of_line(rows, cy);
    lemma_ends_are_boundaries(text);
    assert(is_glyph_boundary(text, rx as int));
    lemma_scroll_keeps_line_in_view(s.rowoff, s.rows(), cy);
    lemma_scroll_keeps_column_in_view(s.coloff, s.num_cols, rx, text);
}

/// The message bar takes exactly one line from the text: a screen whose
/// message bar is up shows one line of text less than the same screen with
/// the bar down.
pub proof fn lemma_message_bar_takes_one_row(s: ScreenView)
    ensures
        (ScreenView { message_is_shown: true, ..s }).rows() + 1 == (ScreenView {
            message_is_shown: false,
            ..s
        }).rows(),
{
}

/// A message that was set is painted by the next refresh, whenever it comes:
/// the frame is a repaint, its message bar part is the message on the last
/// line of the window, and from then on the message is on screen and holds
/// its line.
pub proof fn lemma_message_painted_by_next_refresh(
    s: ScreenView,
    text: Seq<char>,
    kind: StatusMessageKind,
    now: u64,
    text_buf: TextBuffer,
    hl: Highlighting,
    status_bar: StatusBar,
)
    requires
        s.wf(),
    ensures
        ({
            let set = s.with_message(text, kind);
            let scrolled = set.scrolled(text_buf.rows@, text_buf.cx as nat, text_buf.cy as nat);
            let after = set.refreshed(now, text_buf, status_bar);
            &&& set.refresh_frame(now, text_buf, hl, status_bar) == FrameView::Repaint {
                hide: hide_cursor(),
                body: scrolled.repaint_body(now, text_buf, hl, status_bar),
            }
            &&& scrolled.message_part(now) == MessageView::pending(text, kind).bar_bytes(
                s.term_color,
                s.num_rows + 2,
                s.num_cols,
            )
            &&& scrolled.message_part(now).len() > 0
            &&& after.message.state == DisplayState::Shown(now)
            &&& after.message.text == text
            &&& after.message_is_shown
            &&& after.rows() == s.num_rows
        }),
{
}

/// A message that is on screen stays as it is while no more than five seconds
/// have gone by since it was painted, or the clock ran backwards: a refresh
/// writes nothing for the message bar and leaves the message alone.
pub proof fn lemma_message_stays_within_timeout(
    s: ScreenView,
    at: u64,
    now: u64,
    text_buf: TextBuffer,
    status_bar: StatusBar,
)
    requires
        s.wf(),
        s.message.state == DisplayState::Shown(at),
        now - at <= 5,
    ensures
        ({
            let scrolled = s.scrolled(text_buf.rows@, text_buf.cx as nat, text_buf.cy as nat);
            let after = s.refreshed(now, text_buf, status_bar);
            &&& scrolled.message_part(now) == Seq::<u8>::empty()
            &&& after.message == s.message
        }),
{
}

/// A message that has been on screen for more than five seconds is not drawn
/// by a refresh: the frame is a repaint that writes nothing for the message
/// bar, and afterwards the message is gone. If the bar held its line, the
/// text has one line more afterwards, and once the frame is written exactly
/// that line is marked dirty for the next frame.
pub proof fn lemma_message_hidden_after_timeout(
    s: ScreenView,
    at: u64,
    now: u64,
    text_buf: TextBuffer,
    hl: Highlighting,
    status_bar: StatusBar,
)
    requires
        s.wf(),
        s.message.state == DisplayState::Shown(at),
        now - at > 5,
    ensures
        ({
            let scrolled = s.scrolled(text_buf.rows@, text_buf.cx as nat, text_buf.cy as nat);
            let after = s.refreshed(now, text_buf, status_bar);
            &&& s.refresh_frame(now, text_buf, hl, status_bar) is Repaint
            &&& scrolled.message_part(now) == Seq::<u8>::empty()
            &&& after.message.state == DisplayState::Hidden
            &&& !after.message_is_shown
            &&& s.message_is_shown ==> after.rows() == s.rows() + 1
                && after.written().dirty_start == Some((after.rowoff + after.rows() - 1) as nat)
        }),
{
}

/// A frame that was not reported written leaves the dirty mark and the
/// cursor flag as the scroll left them, so that the next refresh builds what
/// this one failed to show: a screen that was dirty, or whose cursor had
/// moved, has a frame to write again.
pub proof fn lemma_unwritten_frame_is_built_again(
    s: ScreenView,
    now: u64,
    later: u64,
    text_buf: TextBuffer,
    hl: Highlighting,
    status_bar: StatusBar,
)
    requires
        s.wf(),
    ensures
        ({
            let scrolled = s.scrolled(text_buf.rows@, text_buf.cx as nat, text_buf.cy as nat);
            let after = s.refreshed(now, text_buf, status_bar);
            &&& after.dirty_start == scrolled.dirty_start
            &&& after.cursor_moved == s.cursor_moved
            &&& after.first_paint == s.first_paint
            &&& scrolled.dirty_start is Some ==> after.refresh_frame(
                later,
                text_buf,
                hl,
                status_bar,
            ) is Repaint
            &&& s.cursor_moved ==> !(after.refresh_frame(later, text_buf, hl, status_bar) is Idle)
        }),
{
}

/// A second refresh right after a first one whose frame was written, with
/// the same text, cursor and colors, writes nothing and changes nothing,
/// provided that nothing is left to do: the first refresh did not take the
/// message bar down (which leaves a line to paint), the cursor is still
/// inside the viewport (the message bar did not come up over its line), the
/// status bar does not ask to be drawn, and the message does not run out
/// between the two.
pub proof fn lemma_second_refresh_is_idle(
    s: ScreenView,
    now: u64,
    later: u64,
    text_buf: TextBuffer,
    hl: Highlighting,
    status_bar: StatusBar,
)
    requires
        s.wf(),
        s.refreshed(now, text_buf, status_bar).written().dirty_start is None,
        s.refreshed(now, text_buf, status_bar).cursor_in_view(text_buf.cy as nat),
        !status_bar.redraw,
        !s.refreshed(now, text_buf, status_bar).message.should_redraw(later),
    ensures
        s.refreshed(now, text_buf, status_bar).written().refresh_frame(
            later,
            text_buf,
            hl,
            status_bar,
        ) == FrameView::Idle,
        s.refreshed(now, text_buf, status_bar).written().refreshed(later, text_buf, status_bar)
            == s.refreshed(now, text_buf, status_bar).written(),
{
}

impl View for Screen {
    type V = ScreenView;

    closed spec fn view(&self) -> ScreenView {
        ScreenView {
            rx: self.rx as nat,
            num_cols: self.num_cols as nat,
            num_rows: self.num_rows as nat,
            message: self.message@,
            message_is_shown: self.message_is_shown,
            dirty_start: mark_view(self.dirty_start),
            term_color: self.term_color,
            first_paint: self.first_paint,
            cursor_moved: self.cursor_moved,
            awaiting: match self.awaiting {
                Some(next) => Some(mark_view(next)),
                None => None,
            },
            rowoff: self.rowoff as nat,
            coloff: self.coloff as nat,
        }
    }
}

impl Screen {
    #[verifier::type_invariant]
    spec fn inv(self) -> bool {
        &&& 1 <= self.num_cols
        &&& 1 <= self.num_rows <= usize::MAX - 2
    }

    /// A screen for a window of `size` columns and lines, which selects its
    /// colors from `term_color`. A window without a column, or with fewer
    /// than three lines, is too small.
    pub fn new(size: (usize, usize), term_color: TermColor) -> (screen: Result<Screen, Error>)
        ensures
            match screen {
                Ok(s) => size.0 >= 1 && size.1 >= 3 && s@ == ScreenView::initial(
                    size.0 as nat,
                    size.1 as nat,
                    term_color,
                ) && s@.wf(),
                Err(e) => (size.0 == 0 || size.1 < 3) && e == Error::TooSmallWindow(size.0, size.1),
            },
    {
        match check_size(size.0, size.1) {
            Err(e) => Err(e),
            Ok((w, h)) => Ok(
                Screen {
                    rx: 0,
                    num_cols: w,
                    // Two lines less than the window: the status bar and the
                    // message bar take one each
                    num_rows: h - 2,
                    message: StatusMessage::new(FIRST_MESSAGE, StatusMessageKind::Info),
                    message_is_shown: false,
                    // The whole screen is painted at first
                    dirty_start: Some(0),
                    term_color,
                    first_paint: true,
                    cursor_moved: true,
                    awaiting: None,
                    rowoff: 0,
                    coloff: 0,
                },
            ),
        }
    }

    /// Lines that show text.
    pub fn rows(&self) -> (rows: usize)
        ensures
            rows == self@.rows(),
            self@.wf(),
    {
        proof {
            use_type_invariant(self);
        }
        if self.message_is_shown {
            self.num_rows
        } else {
            self.num_rows + 1
        }
    }

    /// Columns of the screen.
    pub fn cols(&self) -> (cols: usize)
        ensures
            cols == self@.num_cols,
            self@.wf(),
    {
        proof {
            use_type_invariant(self);
        }
        self.num_cols
    }

    /// The text of the message, and no text when there is none.
    pub fn message_text(&self) -> (text: &str)
        ensures
            text@ == self@.message.visible_text(),
    {
        match self.message.state {
            DisplayState::Hidden => {
                proof {
                    reveal_strlit("");
                }
                ""
            },
            _ => self.message.text.as_str(),
        }
    }

    /// First line of the text on screen.
    pub fn rowoff(&self) -> (rowoff: usize)
        ensures
            rowoff == self@.rowoff,
    {
        self.rowoff
    }

    /// First column of the rendered text on screen.
    pub fn coloff(&self) -> (coloff: usize)
        ensures
            coloff == self@.coloff,
    {
        self.coloff
    }

    /// The dirty mark: the first line of the text that the next frame paints,
    /// if it paints any.
    pub fn dirty_start(&self) -> (mark: Option<usize>)
        ensures
            mark_view(mark) == self@.dirty_start,
    {
        self.dirty_start
    }

    /// Whether the cursor moved since the last frame.
    pub fn cursor_moved(&self) -> (moved: bool)
        ensures
            moved == self@.cursor_moved,
    {
        self.cursor_moved
    }

    /// Says whether the cursor moved since the last frame.
    pub fn set_cursor_moved(&mut self, moved: bool)
        ensures
            final(self)@ == (ScreenView { cursor_moved: moved, ..old(self)@ }),
    {
        proof {
            use_type_invariant(&*self);
        }
        self.cursor_moved = moved;
    }

    /// Puts the viewport at line `rowoff` and column `coloff` of the text.
    pub fn set_offsets(&mut self, rowoff: usize, coloff: usize)
        ensures
            final(self)@ == (ScreenView {
                rowoff: rowoff as nat,
                coloff: coloff as nat,
                ..old(self)@
            }),
    {
        proof {
            use_type_invariant(&*self);
        }
        self.rowoff = rowoff;
        self.coloff = coloff;
    }

    /// Reports line `start` of the text stale: it and all lines after it will
    /// be painted with the next frame. A mark that stands at an earlier line
    /// stays.
    pub fn set_dirty_start(&mut self, start: usize)
        ensures
            final(self)@ == old(self)@.marked_dirty(start as nat),
    {
        proof {
            use_type_invariant(&*self);
        }
        self.dirty_start = mark_dirty(self.dirty_start, start);
    }

    /// Takes the size of the window again after a resize. `resized_to` is the
    /// size that was found after the window reported a resize, and `None`
    /// when it reported none: then nothing changes. With the new size the
    /// whole screen is painted again. A window that is too small is refused,
    /// and the screen stays as it is.
    pub fn maybe_resize(&mut self, resized_to: Option<(usize, usize)>) -> (resized: Result<
        bool,
        Error,
    >)
        ensures
            match resized_to {
                None => resized == Ok::<bool, Error>(false) && final(self)@ == old(self)@,
                Some((w, h)) => if w == 0 || h < 3 {
                    resized == Err::<bool, Error>(Error::TooSmallWindow(w, h)) && final(self)@
                        == old(self)@
                } else {
                    resized == Ok::<bool, Error>(true) && final(self)@ == old(self)@.resized(
                        w as nat,
                        h as nat,
                    )
                },
            },
    {
        proof {
            use_type_invariant(&*self);
        }
        match resized_to {
            None => Ok(false),
            Some((w, h)) => match check_size(w, h) {
                Err(e) => Err(e),
                Ok((w, h)) => {
                    self.num_rows = h - 2;
                    self.num_cols = w;
                    self.dirty_start = Some(0);
                    Ok(true)
                },
            },
        }
    }

    /// Sets a notice, to be painted with the next frame.
    pub fn set_info_message(&mut self, message: &str)
        ensures
            final(self)@ == old(self)@.with_message(message@, StatusMessageKind::Info),
    {
        proof {
            use_type_invariant(&*self);
        }
        self.message = StatusMessage::new(message, StatusMessageKind::Info);
    }

    /// Sets an error notice, to be painted with the next frame.
    pub fn set_error_message(&mut self, message: &str)
        ensures
            final(self)@ == old(self)@.with_message(message@, StatusMessageKind::Error),
    {
        proof {
            use_type_invariant(&*self);
        }
        self.message = StatusMessage::new(message, StatusMessageKind::Error);
    }

    /// Takes the message back. The message bar gives its line back with the
    /// next repaint.
    pub fn unset_message(&mut self)
        ensures
            final(self)@ == old(self)@.without_message(),
    {
        proof {
            use_type_invariant(&*self);
        }
        self.message.state = DisplayState::Hidden;
    }

    /// The part of the text on screen.
    pub fn viewport(&self) -> (vp: Viewport)
        ensures
            vp@ == self@.window(),
            self@.wf(),
    {
        let height = self.rows();
        Viewport { rowoff: self.rowoff, coloff: self.coloff, height, num_cols: self.num_cols }
    }

    /// Scans the rendered text of `row` from the left, a character at a time,
    /// until the column reaches `want_stop`, and returns the column reached:
    /// a column offset that does not cut a character of `row` in two.
    pub fn next_coloff(&self, want_stop: usize, row: &Row) -> (coloff: usize)
        ensures
            coloff == spec_next_coloff(row.text(), want_stop as nat),
    {
        crate::viewport::next_coloff(want_stop, row)
    }

    /// Lets the viewport follow the cursor to position `cx` of line `cy` of
    /// `rows`, and tells whether an offset moved. Afterwards the cursor is
    /// inside the viewport; a column offset that moved stands on a glyph
    /// boundary of the cursor's line; and when an offset moved the screen is
    /// dirty from its new first line on.
    pub fn do_scroll(&mut self, rows: &[Row], cx: usize, cy: usize) -> (changed: bool)
        ensures
            final(self)@ == old(self)@.scrolled(rows@, cx as nat, cy as nat),
            changed == old(self)@.scroll_changes(rows@, cx as nat, cy as nat),
            final(self)@.cursor_in_view(cy as nat),
            final(self)@.coloff != old(self)@.coloff ==> is_glyph_boundary(
                text_of_line(rows@, cy as nat),
                final(self)@.coloff as int,
            ),
            changed ==> (final(self)@.dirty_start matches Some(start)
                && start <= final(self)@.rowoff),
            final(self)@.wf(),
    {
        let prev_rowoff = self.rowoff;
        let prev_coloff = self.coloff;
        let height = self.rows();
        proof {
            lemma_scroll_keeps_line_in_view(self.rowoff as nat, height as nat, cy as nat);
        }
        // The column of the cursor in the rendered text
        if cy < rows.len() {
            self.rx = rows[cy].rx_from_cx(cx);
        } else {
            self.rx = 0;
            proof {
                lemma_ends_are_boundaries(Seq::<char>::empty());
            }
        }
        proof {
            lemma_scroll_keeps_column_in_view(
                self.coloff as nat,
                self.num_cols as nat,
                self.rx as nat,
                text_of_line(rows@, cy as nat),
            );
        }
        if cy < self.rowoff {
            // The cursor is above the top of the screen
            self.rowoff = cy;
        }
        if cy - self.rowoff >= height {
            // The cursor is below the bottom of the screen
            self.rowoff = cy - height + 1;
        }
        if self.rx < self.coloff {
            self.coloff = self.rx;
        }
        if self.rx - self.coloff >= self.num_cols {
            self.coloff = self.next_coloff(self.rx - self.num_cols + 1, &rows[cy]);
        }
        if prev_rowoff != self.rowoff || prev_coloff != self.coloff {
            // After a scroll every line on screen is stale
            self.dirty_start = mark_dirty(self.dirty_start, self.rowoff);
            true
        } else {
            false
        }
    }

    /// The part of a line of plain text that the viewport shows.
    pub fn trim_line(&self, line: &str) -> (trimmed: String)
        ensures
            trimmed@ == spec_trim_line(line@, self@.window()),
    {
        crate::paint::trim_line(line, self.viewport())
    }

    /// Appends the welcome line.
    pub fn draw_welcome_message(&self, buf: &mut Vec<u8>)
        ensures
            final(buf)@ == old(buf)@ + welcome_bytes(self@.window()),
    {
        crate::paint::draw_welcome_message(buf, self.viewport())
    }

    /// Appends the text region, repainted from line `dirty_start` of the text
    /// on. The colors must reach as far down as the text on screen does.
    pub fn draw_rows(&self, buf: &mut Vec<u8>, dirty_start: usize, rows: &[Row], hl: &Highlighting)
        requires
            hl.covers(rows@.len(), self@.rowoff + self@.rows()),
        ensures
            final(buf)@ == old(buf)@ + rows_region(
                self@.term_color,
                rows@,
                *hl,
                self@.window(),
                self@.first_paint,
                dirty_start as nat,
            ),
    {
        crate::paint::draw_rows(
            buf,
            &self.term_color,
            self.viewport(),
            self.first_paint,
            dirty_start,
            rows,
            hl,
        )
    }

    /// Appends the status bar, on the line below the text.
    pub fn draw_status_bar(&self, buf: &mut Vec<u8>, status_bar: &StatusBar)
        ensures
            final(buf)@ == old(buf)@ + status_bar_bytes(
                self@.term_color,
                self@.rows() + 1,
                status_bar.left@,
                status_bar.right@,
                self@.num_cols,
            ),
    {
        let line = self.rows() + 1;
        crate::status_bar::draw_status_bar(buf, &self.term_color, line, status_bar, self.num_cols)
    }

    /// Whether the message bar needs work at `now`: a message waits to be
    /// painted, or the one on screen has been there for too long.
    pub fn should_redraw_message_bar(&self, now: u64) -> (redraw: bool)
        ensures
            redraw == self@.message.should_redraw(now),
    {
        self.message.should_redraw(now)
    }

    /// Works on the message bar at `now`: paints a message that waits, on the
    /// last line of the window, and lets go of one that was on screen.
    pub fn draw_message_bar(&mut self, buf: &mut Vec<u8>, now: u64)
        ensures
            final(buf)@ == old(buf)@ + old(self)@.message.bar_bytes(
                old(self)@.term_color,
                old(self)@.num_rows + 2,
                old(self)@.num_cols,
            ),
            final(self)@ == (ScreenView {
                message: old(self)@.message.after_draw(now),
                ..old(self)@
            }),
    {
        proof {
            use_type_invariant(&*self);
        }
        let next = self.message.draw(buf, &self.term_color, self.num_rows + 2, self.num_cols, now);
        self.message.state = next;
    }

    /// Builds the frame at `now` for a cursor that is inside the viewport,
    /// and returns with it the dirty mark that the frame leaves.
    fn redraw(
        &mut self,
        now: u64,
        text_buf: &TextBuffer,
        hl: &Highlighting,
        status_bar: &StatusBar,
    ) -> (out: (Frame, Option<usize>))
        requires
            old(self)@.cursor_in_view(text_buf.cy as nat),
            hl.covers(text_buf.rows@.len(), old(self)@.rowoff + old(self)@.rows()),
            old(self)@.rowoff + old(self)@.num_rows <= usize::MAX,
        ensures
            out.0@ == old(self)@.frame(now, *text_buf, *hl, *status_bar),
            mark_view(out.1) == old(self)@.next_dirty_start(now, *status_bar),
            final(self)@ == old(self)@.redrawn(now, *status_bar),
    {
        proof {
            use_type_invariant(&*self);
        }
        let cursor_row = text_buf.cy - self.rowoff + 1;
        let cursor_col = self.rx - self.coloff + 1;
        let redraw_message_bar = self.should_redraw_message_bar(now);

        if self.dirty_start.is_none() && !status_bar.redraw && !redraw_message_bar {
            if self.cursor_moved {
                let mut buf: Vec<u8> = Vec::new();
                push_move_to(&mut buf, cursor_row, cursor_col);
                assert(buf@ == old(self)@.cursor_command(text_buf.cy as nat));
                return (Frame::MoveCursor(buf), None);
            }
            return (Frame::Idle, None);
        }
        // The cursor is hidden while the screen is updated. This goes out
        // first, or the cursor may be seen moving
        let hide = hide_cursor_sequence();

        let mut buf: Vec<u8> = Vec::new();
        if let Some(s) = self.dirty_start {
            self.draw_rows(&mut buf, s, text_buf.rows.as_slice(), hl);
        }
        assert(buf@ == old(self)@.rows_part(text_buf.rows@, *hl));

        // The message bar comes before the status bar: it tells on which
        // line the status bar stands
        if redraw_message_bar {
            self.draw_message_bar(&mut buf, now);
        }
        assert(buf@ == old(self)@.rows_part(text_buf.rows@, *hl) + old(self)@.message_part(now));

        let message_is_shown = self.message.is_shown();
        // The bar was up and is not any more: it goes down now
        let squashing_message_bar = self.message_is_shown && !message_is_shown;
        let toggling_message_bar = self.message_is_shown != message_is_shown;
        self.message_is_shown = message_is_shown;
        assert(self@ == old(self)@.repainted(now));
        if status_bar.redraw || toggling_message_bar {
            self.draw_status_bar(&mut buf, status_bar);
        }
        assert(buf@ == old(self)@.rows_part(text_buf.rows@, *hl) + old(self)@.message_part(now)
            + old(self)@.status_part(now, *status_bar));

        // The cursor is put in its place even if it did not move: the
        // painting has moved it
        push_move_to(&mut buf, cursor_row, cursor_col);
        push_show_cursor(&mut buf);
        assert(buf@ == old(self)@.repaint_body(now, *text_buf, *hl, *status_bar));

        // A message bar that goes down gives one more line to the text,
        // which is painted with the next frame
        let next_dirty_start = if squashing_message_bar {
            Some(self.rowoff + (self.rows() - 1))
        } else {
            None
        };
        (Frame::Repaint { hide, body: buf }, next_dirty_start)
    }

    /// Whether a frame at `now` will repaint: a line is stale, the status bar
    /// asks for it, or the message bar needs work. A caller that wants the
    /// cursor out of sight while a repaint is built asks this after the
    /// scroll, and hides the cursor before it asks for the frame.
    pub fn needs_repaint(&self, now: u64, status_bar: &StatusBar) -> (repaint: bool)
        ensures
            repaint == self@.needs_repaint(now, *status_bar),
    {
        self.dirty_start.is_some() || status_bar.redraw || self.message.should_redraw(now)
    }

    /// Brings the screen up to date at `now`: lets the viewport follow the
    /// cursor of `buf`, asks `hl` for colors down to the bottom of the screen,
    /// and builds the frame that shows what changed. The dirty mark and the
    /// cursor flag stay until the frame is reported written with
    /// `frame_written`, so that a frame that could not be written is built
    /// again.
    pub fn refresh(
        &mut self,
        now: u64,
        buf: &TextBuffer,
        hl: &mut Highlighting,
        status_bar: &StatusBar,
    ) -> (frame: Frame)
        requires
            buf.cy + old(self)@.num_rows < usize::MAX,
        ensures
            final(hl).extends(
                *old(hl),
                buf.rows@,
                old(self)@.colors_bottom(buf.cy as nat),
            ),
            final(hl).covers(buf.rows@.len(), old(self)@.colors_bottom(buf.cy as nat)),
            frame@ == old(self)@.refresh_frame(now, *buf, *final(hl), *status_bar),
            final(self)@ == old(self)@.refreshed(now, *buf, *status_bar),
            final(self)@.wf(),
            // A message that waits is painted by this frame and is on screen
            // from `now` on
            old(self)@.message.state is Pending ==> frame@ is Repaint
                && final(self)@.message.state == DisplayState::Shown(now)
                && final(self)@.message_is_shown,
            // A message that ran out is gone after this frame
            (old(self)@.message.state matches DisplayState::Shown(at) && now - at > 5)
                ==> frame@ is Repaint && final(self)@.message.state == DisplayState::Hidden
                && !final(self)@.message_is_shown,
    {
        self.do_scroll(buf.rows.as_slice(), buf.cx, buf.cy);
        let bottom = self.rowoff + self.rows();
        hl.update(buf.rows.as_slice(), bottom);
        let (frame, next_dirty_start) = self.redraw(now, buf, hl, status_bar);
        let idle = match &frame {
            Frame::Idle => true,
            _ => false,
        };
        if idle {
            self.awaiting = None;
        } else {
            self.awaiting = Some(next_dirty_start);
        }
        proof {
            use_type_invariant(&*self);
        }
        frame
    }

    /// Takes note that the frame of the last refresh was written: the dirty
    /// mark becomes what the frame left, and the cursor counts as not moved.
    pub fn frame_written(&mut self)
        ensures
            final(self)@ == old(self)@.written(),
    {
        proof {
            use_type_invariant(&*self);
        }
        if let Some(next_dirty_start) = self.awaiting {
            if self.dirty_start.is_some() {
                self.first_paint = false;
            }
            self.dirty_start = next_dirty_start;
            self.cursor_moved = false;
            self.awaiting = None;
        }
    }

    /// The help overlay: the key bindings, centered on the lines that show
    /// text.
    pub fn draw_help(&self) -> (out: Vec<u8>)
        ensures
            out@ == help_overlay(
                self@.term_color,
                help_lines(encode_utf8(HELP@)),
                self@.rows(),
                self@.num_cols,
            ),
    {
        let mut buf: Vec<u8> = Vec::new();
        draw_help_text(&mut buf, &self.term_color, HELP.as_bytes(), self.rows(), self.num_cols);
        buf
    }
}

} // verus!
