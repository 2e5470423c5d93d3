//! The message bar: a one-line notice below the status bar that appears with
//! the next frame and goes away a few seconds after it was first painted.
//!
//! Times are whole seconds on the caller's clock.

use crate::sequence::{
    clear_to_eol, move_to_line, push_bytes, push_clear_to_eol, push_fitted, push_move_to_line,
};
use crate::width::fitted;
use crate::term_color::{Color, TermColor};
use vstd::prelude::*;
use vstd::utf8::encode_utf8;

verus! {

/// Seconds for which a message stays on screen after it was first painted.
pub const MESSAGE_SECONDS: u64 = 5;

/// What kind of notice a message is.
#[derive(Clone, Copy, Debug, PartialEq, Eq, Structural)]
pub enum StatusMessageKind {
    /// Drawn plainly.
    Info,
    /// Drawn on a red background.
    Error,
}

/// Where a message is in its life.
#[derive(Clone, Copy, Debug, PartialEq, Eq, Structural)]
pub enum DisplayState {
    /// Set, and not painted yet.
    Pending,
    /// On screen since the time given, when it was first painted.
    Shown(u64),
    /// Gone, or never set.
    Hidden,
}

/// A message and where it is in its life.
pub struct StatusMessage {
    /// The text of the notice.
    pub text: String,
    /// Its kind.
    pub kind: StatusMessageKind,
    /// Whether it waits to be painted, is on screen, or is gone.
    pub state: DisplayState,
}

/// What a message stands for in contracts.
pub struct MessageView {
    pub text: Seq<char>,
    pub kind: StatusMessageKind,
    pub state: DisplayState,
}

impl View for StatusMessage {
    type V = MessageView;

    open spec fn view(&self) -> MessageView {
        MessageView { text: self.text@, kind: self.kind, state: self.state }
    }
}

/// Whether a message first painted at `at` has been on screen for too long
/// at `now`. A clock that ran backwards has not run out.
pub open spec fn expired(at: u64, now: u64) -> bool {
    now - at > MESSAGE_SECONDS
}

impl MessageView {
    /// A message that was just set.
    pub open spec fn pending(text: Seq<char>, kind: StatusMessageKind) -> MessageView {
        MessageView { text, kind, state: DisplayState::Pending }
    }

    /// The same message, gone from the screen.
    pub open spec fn hidden(self) -> MessageView {
        MessageView { state: DisplayState::Hidden, ..self }
    }

    /// Whether the message bar needs work at `now`: a pending message must be
    /// painted, and one that has been on screen for too long must go.
    pub open spec fn should_redraw(self, now: u64) -> bool {
        match self.state {
            DisplayState::Pending => true,
            DisplayState::Shown(at) => expired(at, now),
            DisplayState::Hidden => false,
        }
    }

    /// Whether the message holds its line of the screen.
    pub open spec fn is_shown(self) -> bool {
        self.state is Shown
    }

    /// The text as callers see it: the text of a message that is set, and
    /// nothing once it is gone.
    pub open spec fn visible_text(self) -> Seq<char> {
        if self.state is Hidden {
            Seq::empty()
        } else {
            self.text
        }
    }

    /// The message after the message bar was worked on at `now`: a pending
    /// message is on screen from `now` on, and one that was on screen is gone.
    pub open spec fn after_draw(self, now: u64) -> MessageView {
        match self.state {
            DisplayState::Pending => MessageView { state: DisplayState::Shown(now), ..self },
            DisplayState::Shown(_) => self.hidden(),
            DisplayState::Hidden => self,
        }
    }

    /// The bytes that the message bar takes when it is worked on. A pending
    /// message is painted on physical line `line`: the longest prefix of its
    /// text that is no more than `num_cols` columns wide, whole characters
    /// only, between red background and reset if it is an error, and the
    /// rest of the line erased. Nothing is written for a message that leaves:
    /// its line goes back to the text.
    pub open spec fn bar_bytes(self, palette: TermColor, line: nat, num_cols: nat) -> Seq<u8> {
        match self.state {
            DisplayState::Pending => {
                let text = encode_utf8(fitted(self.text, num_cols));
                move_to_line(line) + (if self.kind == StatusMessageKind::Error {
                    palette.spec_sequence(Color::RedBG) + text + palette.spec_sequence(
                        Color::Reset,
                    )
                } else {
                    text
                }) + clear_to_eol()
            },
            _ => Seq::empty(),
        }
    }
}

impl StatusMessage {
    /// A message that waits to be painted.
    pub fn new(message: &str, kind: StatusMessageKind) -> (m: StatusMessage)
        ensures
            m@ == MessageView::pending(message@, kind),
    {
        StatusMessage { text: message.to_owned(), kind, state: DisplayState::Pending }
    }

    /// Whether the message bar needs work at `now`.
    pub fn should_redraw(&self, now: u64) -> (redraw: bool)
        ensures
            redraw == self@.should_redraw(now),
    {
        match self.state {
            DisplayState::Pending => true,
            DisplayState::Shown(at) => now > at && now - at > MESSAGE_SECONDS,
            DisplayState::Hidden => false,
        }
    }

    /// Whether the message holds its line of the screen.
    pub fn is_shown(&self) -> (shown: bool)
        ensures
            shown == self@.is_shown(),
    {
        match self.state {
            DisplayState::Shown(_) => true,
            _ => false,
        }
    }

    /// Works on the message bar at `now`: paints a pending message on physical
    /// line `line`, writes nothing for one that was on screen, and returns
    /// where the message is in its life afterwards.
    pub fn draw(
        &self,
        buf: &mut Vec<u8>,
        palette: &TermColor,
        line: usize,
        num_cols: usize,
        now: u64,
    ) -> (next: DisplayState)
        ensures
            final(buf)@ == old(buf)@ + self@.bar_bytes(*palette, line as nat, num_cols as nat),
            next == self@.after_draw(now).state,
    {
        match self.state {
            DisplayState::Hidden => {
                assert(buf@ == old(buf)@ + Seq::<u8>::empty());
                DisplayState::Hidden
            },
            DisplayState::Shown(_) => {
                // Nothing is erased: the line goes back to the text, which
                // paints it with the next frame
                assert(buf@ == old(buf)@ + Seq::<u8>::empty());
                DisplayState::Hidden
            },
            DisplayState::Pending => {
                push_move_to_line(buf, line);
                match self.kind {
                    StatusMessageKind::Error => {
                        push_bytes(buf, palette.sequence(Color::RedBG));
                        push_fitted(buf, self.text.as_str(), num_cols);
                        push_bytes(buf, palette.sequence(Color::Reset));
                    },
                    StatusMessageKind::Info => {
                        push_fitted(buf, self.text.as_str(), num_cols);
                    },
                }
                push_clear_to_eol(buf);
                assert(buf@ == old(buf)@ + self@.bar_bytes(*palette, line as nat, num_cols as nat));
                DisplayState::Shown(now)
            },
        }
    }
}

} // verus!
