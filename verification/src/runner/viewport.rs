//! The mathematical model of the log viewport: an append-only buffer of
//! lines, a scroll position, and the outcome once the run has ended.

use vstd::prelude::*;
use crate::runner::message::{Message, Outcome};

verus! {

/// The largest distance from the live edge that the viewport remembers.
pub open spec fn max_scroll_offset() -> nat {
    0xffff
}

/// The text that an outcome adds to the log, so that a failure to start or to
/// observe the process is visible in line with the output.
pub open spec fn outcome_lines(outcome: Outcome) -> Seq<Seq<char>> {
    match outcome {
        Outcome::SpawnError(text) => seq![text],
        Outcome::ProcessError(text) => seq![text],
        _ => Seq::empty(),
    }
}

/// The state of the log viewport.
pub struct Viewport {
    /// The lines received so far, in arrival order.
    pub lines: Seq<Seq<char>>,
    /// Distance from the live edge, in lines. It counts only while
    /// `auto_scroll` is off.
    pub scroll_offset: nat,
    /// Whether the viewport tracks the newest line.
    pub auto_scroll: bool,
    /// The outcome of the run, once it has ended.
    pub outcome: Option<Outcome>,
    /// Whether the stop signal has been given.
    pub cancel_requested: bool,
}

impl Viewport {
    /// The viewport of a run that has just started.
    pub open spec fn empty() -> Viewport {
        Viewport {
            lines: Seq::empty(),
            scroll_offset: 0,
            auto_scroll: true,
            outcome: None,
            cancel_requested: false,
        }
    }

    /// The viewport tracks the live edge exactly when it is at distance 0.
    pub open spec fn well_formed(self) -> bool {
        &&& self.scroll_offset <= max_scroll_offset()
        &&& self.auto_scroll <==> self.scroll_offset == 0
    }

    pub open spec fn is_finished(self) -> bool {
        self.outcome is Some
    }

    /// One message taken from the channel. A line is appended. The first
    /// outcome is recorded, with its error text as the last log content; a
    /// later one is ignored.
    pub open spec fn absorb(self, message: Message) -> Viewport {
        match message {
            Message::Output(line) => Viewport { lines: self.lines.push(line), ..self },
            Message::Finished(outcome) => if self.outcome is Some {
                self
            } else {
                Viewport {
                    lines: self.lines + outcome_lines(outcome),
                    outcome: Some(outcome),
                    ..self
                }
            },
        }
    }

    /// The messages of `messages` taken in order.
    pub open spec fn absorb_all(self, messages: Seq<Message>) -> Viewport
        decreases messages.len(),
    {
        if messages.len() == 0 {
            self
        } else {
            self.absorb_all(messages.drop_last()).absorb(messages.last())
        }
    }

    /// The stop signal is given once, and never to a run that has ended.
    pub open spec fn cancel(self) -> Viewport {
        if self.outcome is Some {
            self
        } else {
            Viewport { cancel_requested: true, ..self }
        }
    }

    /// Whether a call of `cancel` in this state gives the stop signal.
    pub open spec fn cancel_signals(self) -> bool {
        self.outcome is None && !self.cancel_requested
    }

    /// One line away from the live edge; tracking stops.
    pub open spec fn scroll_up(self) -> Viewport {
        Viewport {
            auto_scroll: false,
            scroll_offset: if self.scroll_offset < max_scroll_offset() {
                self.scroll_offset + 1
            } else {
                max_scroll_offset()
            },
            ..self
        }
    }

    /// One line towards the live edge; on reaching it, tracking resumes.
    pub open spec fn scroll_down(self) -> Viewport {
        if self.scroll_offset > 0 {
            Viewport {
                scroll_offset: (self.scroll_offset - 1) as nat,
                auto_scroll: self.auto_scroll || self.scroll_offset == 1,
                ..self
            }
        } else {
            self
        }
    }

    /// `count` calls of `scroll_up`.
    pub open spec fn scroll_up_by(self, count: nat) -> Viewport
        decreases count,
    {
        if count == 0 {
            self
        } else {
            self.scroll_up_by((count - 1) as nat).scroll_up()
        }
    }

    /// `count` calls of `scroll_down`.
    pub open spec fn scroll_down_by(self, count: nat) -> Viewport
        decreases count,
    {
        if count == 0 {
            self
        } else {
            self.scroll_down_by((count - 1) as nat).scroll_down()
        }
    }

    /// The index of the first visible line when everything newest is shown.
    pub open spec fn bottom_top(self, height: nat) -> nat {
        if self.lines.len() > height {
            (self.lines.len() - height) as nat
        } else {
            0
        }
    }

    /// The index of the first visible line.
    pub open spec fn top(self, height: nat) -> nat {
        if self.auto_scroll {
            self.bottom_top(height)
        } else if self.bottom_top(height) > self.scroll_offset {
            (self.bottom_top(height) - self.scroll_offset) as nat
        } else {
            0
        }
    }

    /// The index one past the last visible line.
    pub open spec fn bottom(self, height: nat) -> nat {
        if self.top(height) + height < self.lines.len() {
            self.top(height) + height
        } else {
            self.lines.len()
        }
    }

    /// The visible slice: at most `height` lines, from `top` on.
    pub open spec fn visible(self, height: nat) -> Seq<Seq<char>> {
        self.lines.subrange(self.top(height) as int, self.bottom(height) as int)
    }
}

} // verus!
