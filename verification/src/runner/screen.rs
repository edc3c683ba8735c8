//! The build screen: it drains the channel on each tick, keeps the log and
//! the scroll position, and hands the renderer the visible slice.

use vstd::prelude::*;
use tokio::sync::mpsc::unbounded_channel;
use tokio::sync::mpsc::UnboundedReceiver;
use tokio::sync::mpsc::UnboundedSender;
use tokio_util::sync::CancellationToken;
use crate::runner::message::{BuildMessage, BuildResult, Message, Outcome};
use crate::runner::viewport::Viewport;
use crate::runner::viewport_laws::lemma_absorb_all_keeps_position;

verus! {

/// What the renderer draws in the output area.
#[derive(Debug, PartialEq, Eq)]
pub struct LogFrame {
    /// Index, in the whole log, of the first visible line.
    pub top: usize,
    /// The visible lines, oldest first.
    pub lines: Vec<String>,
}

/// The words behind the host name in the title. A stopped build reads
/// differently from a broken one.
pub open spec fn status_indicator(outcome: Option<Outcome>) -> Seq<char> {
    match outcome {
        None => " (building...)"@,
        Some(Outcome::Success) => " (success)"@,
        Some(Outcome::Failed(_)) => " (failed)"@,
        Some(Outcome::Cancelled) => " (cancelled)"@,
        Some(Outcome::SpawnError(_)) => " (error)"@,
        Some(Outcome::ProcessError(_)) => " (error)"@,
    }
}

/// The title line of the build screen.
pub open spec fn title_text(host: Seq<char>, outcome: Option<Outcome>) -> Seq<char> {
    "Building: "@ + host + status_indicator(outcome)
}

/// The key hints under the log.
pub open spec fn help_text(finished: bool) -> Seq<char> {
    if finished {
        "Esc: back • q: quit"@
    } else {
        "↑/↓: scroll • Esc: cancel"@
    }
}

/// Screen for running and displaying nixos-rebuild build output.
pub struct BuildScreen {
    /// Host name being built.
    host_name: String,
    /// Lines of build output.
    output_lines: Vec<String>,
    /// Current scroll offset (0 = auto-scroll to bottom).
    scroll_offset: u16,
    /// Whether auto-scroll is active.
    auto_scroll: bool,
    /// Build result when complete.
    result: Option<BuildResult>,
    /// Channel receiver for build output messages.
    rx: UnboundedReceiver<BuildMessage>,
    /// Cancellation token for stopping the build.
    cancel_token: CancellationToken,
    /// Whether the token has been signalled from this screen.
    cancel_requested: bool,
}

impl View for BuildScreen {
    type V = Viewport;

    closed spec fn view(&self) -> Viewport {
        Viewport {
            lines: self.output_lines.deep_view(),
            scroll_offset: self.scroll_offset as nat,
            auto_scroll: self.auto_scroll,
            outcome: match self.result {
                Some(result) => Some(result@),
                None => None,
            },
            cancel_requested: self.cancel_requested,
        }
    }
}

impl BuildScreen {
    /// The host being built, as text.
    pub closed spec fn host(&self) -> Seq<char> {
        self.host_name@
    }

    /// The screen of a build that has just been started: `rx` is the
    /// receiving end of its channel, `cancel_token` stops it.
    pub fn new(
        host_name: String,
        rx: UnboundedReceiver<BuildMessage>,
        cancel_token: CancellationToken,
    ) -> (screen: Self)
        ensures
            screen@ == Viewport::empty(),
            screen@.well_formed(),
            screen.host() == host_name@,
    {
        let screen = BuildScreen {
            host_name,
            output_lines: Vec::new(),
            scroll_offset: 0,
            auto_scroll: true,
            result: None,
            rx,
            cancel_token,
            cancel_requested: false,
        };
        assert(screen.output_lines.deep_view() =~= Seq::empty());
        screen
    }

    /// The screen of a build that is about to start, with what its
    /// supervisor needs: the sending end of the screen's channel, and a
    /// handle on the token by which the screen stops the build.
    pub fn open(host_name: String) -> (opened: (
        Self,
        UnboundedSender<BuildMessage>,
        CancellationToken,
    ))
        ensures
            opened.0@ == Viewport::empty(),
            opened.0@.well_formed(),
            opened.0.host() == host_name@,
    {
        let (tx, rx) = unbounded_channel();
        let cancel_token = CancellationToken::new();
        let token = cancel_token.clone();
        (BuildScreen::new(host_name, rx, cancel_token), tx, token)
    }

    /// Takes one message: a line is appended, the first outcome is recorded
    /// (with its error text as the last line), a later outcome is ignored.
    pub fn handle_message(&mut self, message: BuildMessage)
        ensures
            final(self)@ == old(self)@.absorb(message@),
            old(self)@.well_formed() ==> final(self)@.well_formed(),
            final(self).host() == old(self).host(),
    {
        match message {
            BuildMessage::Output(line) => {
                let ghost before = self.output_lines.deep_view();
                self.output_lines.push(line);
                assert(self.output_lines.deep_view() =~= before.push(line@));
            },
            BuildMessage::Finished(result) => {
                if self.result.is_none() {
                    let ghost before = self.output_lines.deep_view();
                    match &result {
                        BuildResult::SpawnError(text) => {
                            self.output_lines.push(text.clone());
                            assert(self.output_lines.deep_view() =~= before + seq![text@]);
                        },
                        BuildResult::ProcessError(text) => {
                            self.output_lines.push(text.clone());
                            assert(self.output_lines.deep_view() =~= before + seq![text@]);
                        },
                        _ => {
                            assert(self.output_lines.deep_view() =~= before + Seq::empty());
                        },
                    }
                    self.result = Some(result);
                }
            },
        }
    }

    /// Poll for new messages from the build process (non-blocking): takes
    /// the messages that are waiting when it is called, in order.
    pub fn poll(&mut self)
        ensures
            exists|messages: Seq<Message>| final(self)@ == #[trigger] old(self)@.absorb_all(messages),
            old(self)@.well_formed() ==> final(self)@.well_formed(),
            final(self).host() == old(self).host(),
    {
        let waiting: usize = self.rx.len();
        let mut taken: usize = 0;
        let ghost mut seen: Seq<Message> = Seq::empty();
        while taken < waiting
            invariant
                self@ == old(self)@.absorb_all(seen),
                self.host() == old(self).host(),
            decreases waiting - taken,
        {
            match self.rx.try_recv() {
                Ok(message) => {
                    proof {
                        assert(seen.push(message@).drop_last() =~= seen);
                        seen = seen.push(message@);
                    }
                    self.handle_message(message);
                },
                Err(_) => {
                    break ;
                },
            }
            taken = taken + 1;
        }
        proof {
            lemma_absorb_all_keeps_position(old(self)@, seen);
        }
    }

    /// Whether the build has completed.
    pub fn is_finished(&self) -> (finished: bool)
        ensures
            finished == self@.is_finished(),
    {
        self.result.is_some()
    }

    /// Cancel the running build process. The token is signalled on the
    /// first call only, and never once the build has completed.
    pub fn cancel(&mut self)
        ensures
            final(self)@ == old(self)@.cancel(),
            old(self)@.well_formed() ==> final(self)@.well_formed(),
            final(self).host() == old(self).host(),
    {
        if self.result.is_none() && !self.cancel_requested {
            self.cancel_token.cancel();
            self.cancel_requested = true;
        }
    }

    /// Scroll up.
    pub fn scroll_up(&mut self)
        ensures
            final(self)@ == old(self)@.scroll_up(),
            old(self)@.well_formed() ==> final(self)@.well_formed(),
            final(self).host() == old(self).host(),
    {
        self.auto_scroll = false;
        if self.scroll_offset < u16::MAX {
            self.scroll_offset = self.scroll_offset + 1;
        }
    }

    /// Scroll down.
    pub fn scroll_down(&mut self)
        ensures
            final(self)@ == old(self)@.scroll_down(),
            old(self)@.well_formed() ==> final(self)@.well_formed(),
            final(self).host() == old(self).host(),
    {
        if self.scroll_offset > 0 {
            self.scroll_offset = self.scroll_offset - 1;
            if self.scroll_offset == 0 {
                self.auto_scroll = true;
            }
        }
    }

    /// The visible slice of the log for an output area of `viewport_height`
    /// lines, and where it starts. The screen is left as it is.
    pub fn render(&self, viewport_height: usize) -> (frame: LogFrame)
        ensures
            frame.top == self@.top(viewport_height as nat),
            frame.lines.deep_view() == self@.visible(viewport_height as nat),
    {
        let total: usize = self.output_lines.len();
        let bottom_top: usize = if total > viewport_height {
            total - viewport_height
        } else {
            0
        };
        let offset: usize = self.scroll_offset as usize;
        let top: usize = if self.auto_scroll {
            bottom_top
        } else if bottom_top > offset {
            bottom_top - offset
        } else {
            0
        };
        let bottom: usize = if total - top > viewport_height {
            top + viewport_height
        } else {
            total
        };
        let mut lines: Vec<String> = Vec::new();
        let mut next: usize = top;
        while next < bottom
            invariant
                top <= next <= bottom <= self.output_lines.len(),
                lines.deep_view() == self.output_lines.deep_view().subrange(top as int, next as int),
            decreases bottom - next,
        {
            let ghost before = lines.deep_view();
            lines.push(self.output_lines[next].clone());
            assert(lines.deep_view() =~= before.push(self.output_lines[next as int]@));
            next = next + 1;
        }
        LogFrame { top, lines }
    }

    /// The words behind the host name in the title.
    pub fn status_indicator(&self) -> (text: &'static str)
        ensures
            text@ == status_indicator(self@.outcome),
    {
        match &self.result {
            None => " (building...)",
            Some(BuildResult::Success) => " (success)",
            Some(BuildResult::Failed(_)) => " (failed)",
            Some(BuildResult::Cancelled) => " (cancelled)",
            Some(BuildResult::SpawnError(_)) => " (error)",
            Some(BuildResult::ProcessError(_)) => " (error)",
        }
    }

    /// The title line: the host being built and how the build stands.
    pub fn title(&self) -> (text: String)
        ensures
            text@ == title_text(self.host(), self@.outcome),
    {
        let mut text = String::from_str("Building: ");
        text.append(self.host_name.as_str());
        text.append(self.status_indicator());
        text
    }

    /// The key hints under the log.
    pub fn help_text(&self) -> (text: &'static str)
        ensures
            text@ == help_text(self@.is_finished()),
    {
        if self.is_finished() {
            "Esc: back • q: quit"
        } else {
            "↑/↓: scroll • Esc: cancel"
        }
    }

    /// The host being built.
    pub fn host_name(&self) -> (name: &String)
        ensures
            name@ == self.host(),
    {
        &self.host_name
    }

    /// The whole log, oldest line first.
    pub fn output_lines(&self) -> (lines: &Vec<String>)
        ensures
            lines.deep_view() == self@.lines,
    {
        &self.output_lines
    }

    /// The outcome of the build, once it has completed.
    pub fn result(&self) -> (result: &Option<BuildResult>)
        ensures
            match *result {
                Some(outcome) => self@.outcome == Some(outcome@),
                None => self@.outcome is None,
            },
    {
        &self.result
    }

    /// Distance from the live edge, in lines.
    pub fn scroll_offset(&self) -> (offset: u16)
        ensures
            offset == self@.scroll_offset,
    {
        self.scroll_offset
    }

    /// Whether the viewport tracks the newest line.
    pub fn auto_scroll(&self) -> (tracking: bool)
        ensures
            tracking == self@.auto_scroll,
    {
        self.auto_scroll
    }
}

} // verus!
