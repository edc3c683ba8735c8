//! What holds of every viewport, whatever arrives and however it is scrolled.

use vstd::prelude::*;
use crate::runner::message::{Message, Outcome};
use crate::runner::viewport::{max_scroll_offset, outcome_lines, Viewport};

verus! {

/// The text of each line in `lines`, as output messages in the same order.
pub open spec fn output_messages(lines: Seq<Seq<char>>) -> Seq<Message> {
    Seq::new(lines.len(), |i: int| Message::Output(lines[i]))
}

/// Every operation of the viewport keeps it well formed: it tracks the live
/// edge exactly when its distance from it is 0.
pub proof fn lemma_operations_keep_well_formed(viewport: Viewport, message: Message)
    requires
        viewport.well_formed(),
    ensures
        Viewport::empty().well_formed(),
        viewport.absorb(message).well_formed(),
        viewport.cancel().well_formed(),
        viewport.scroll_up().well_formed(),
        viewport.scroll_down().well_formed(),
{
}

/// Draining any messages keeps the viewport well formed and leaves the
/// scroll position and the stop signal as they were.
pub proof fn lemma_absorb_all_keeps_position(viewport: Viewport, messages: Seq<Message>)
    ensures
        viewport.absorb_all(messages).scroll_offset == viewport.scroll_offset,
        viewport.absorb_all(messages).auto_scroll == viewport.auto_scroll,
        viewport.absorb_all(messages).cancel_requested == viewport.cancel_requested,
        viewport.well_formed() ==> viewport.absorb_all(messages).well_formed(),
    decreases messages.len(),
{
    if messages.len() > 0 {
        lemma_absorb_all_keeps_position(viewport, messages.drop_last());
    }
}

/// Draining one batch and then another is draining both in order.
pub proof fn lemma_absorb_all_concat(viewport: Viewport, first: Seq<Message>, second: Seq<Message>)
    ensures
        viewport.absorb_all(first + second) == viewport.absorb_all(first).absorb_all(second),
    decreases second.len(),
{
    if second.len() == 0 {
        assert(first + second =~= first);
    } else {
        lemma_absorb_all_concat(viewport, first, second.drop_last());
        assert((first + second).drop_last() =~= first + second.drop_last());
        assert((first + second).last() == second.last());
    }
}

/// The outcome is set at most once: once a run is terminal, no message
/// changes its outcome.
pub proof fn lemma_outcome_is_set_once(viewport: Viewport, messages: Seq<Message>)
    requires
        viewport.is_finished(),
    ensures
        viewport.absorb_all(messages).outcome == viewport.outcome,
    decreases messages.len(),
{
    if messages.len() > 0 {
        lemma_outcome_is_set_once(viewport, messages.drop_last());
    }
}

/// A second `Finished` for the same run is ignored: the viewport stays
/// exactly as the first one left it.
pub proof fn lemma_second_outcome_is_ignored(viewport: Viewport, first: Outcome, second: Outcome)
    ensures
        viewport.absorb(Message::Finished(first)).absorb(Message::Finished(second))
            == viewport.absorb(Message::Finished(first)),
{
}

/// The log is append-only: what was in it stays, in the same order, at the
/// same indices.
pub proof fn lemma_log_is_append_only(viewport: Viewport, messages: Seq<Message>)
    ensures
        viewport.lines.is_prefix_of(viewport.absorb_all(messages).lines),
    decreases messages.len(),
{
    if messages.len() > 0 {
        lemma_log_is_append_only(viewport, messages.drop_last());
        let before = viewport.absorb_all(messages.drop_last());
        assert(before.lines.is_prefix_of(before.absorb(messages.last()).lines));
    }
}

/// Draining output lines appends exactly those lines, in order, and changes
/// nothing else.
pub proof fn lemma_absorb_output(viewport: Viewport, lines: Seq<Seq<char>>)
    ensures
        viewport.absorb_all(output_messages(lines)) == (Viewport {
            lines: viewport.lines + lines,
            ..viewport
        }),
    decreases lines.len(),
{
    let messages = output_messages(lines);
    if lines.len() == 0 {
        assert(viewport.lines + lines =~= viewport.lines);
    } else {
        lemma_absorb_output(viewport, lines.drop_last());
        assert(messages.drop_last() =~= output_messages(lines.drop_last()));
        assert(messages.last() == Message::Output(lines.last()));
        assert((viewport.lines + lines.drop_last()).push(lines.last()) =~= viewport.lines + lines);
    }
}

/// The whole run as the viewport sees it: the output lines in order, then
/// the outcome. The log holds the lines, then the error text if the outcome
/// carries one, and the outcome is recorded.
pub proof fn lemma_absorb_run(lines: Seq<Seq<char>>, outcome: Outcome)
    ensures
        Viewport::empty().absorb_all(output_messages(lines).push(Message::Finished(outcome)))
            == (Viewport {
            lines: lines + outcome_lines(outcome),
            outcome: Some(outcome),
            ..Viewport::empty()
        }),
{
    let messages = output_messages(lines).push(Message::Finished(outcome));
    lemma_absorb_output(Viewport::empty(), lines);
    assert(messages.drop_last() =~= output_messages(lines));
    assert(Seq::<Seq<char>>::empty() + lines =~= lines);
}

/// `cancel()` is idempotent: a second call changes nothing and gives no
/// signal, and a call after the run has ended has no effect at all.
pub proof fn lemma_cancel_is_idempotent(viewport: Viewport)
    ensures
        viewport.cancel().cancel() == viewport.cancel(),
        !viewport.cancel().cancel_signals(),
        viewport.is_finished() ==> viewport.cancel() == viewport,
{
}

/// Where `count` lines up lead: the distance grows by `count`, up to the
/// largest distance, and tracking is off after the first line.
pub proof fn lemma_scroll_up_by(viewport: Viewport, count: nat)
    requires
        viewport.scroll_offset <= max_scroll_offset(),
    ensures
        viewport.scroll_up_by(count) == (Viewport {
            scroll_offset: if viewport.scroll_offset + count < max_scroll_offset() {
                viewport.scroll_offset + count
            } else {
                max_scroll_offset()
            },
            auto_scroll: viewport.auto_scroll && count == 0,
            ..viewport
        }),
    decreases count,
{
    if count > 0 {
        lemma_scroll_up_by(viewport, (count - 1) as nat);
    }
}

/// Where `count` lines down lead: the distance shrinks by `count`, down to
/// 0, and tracking is on exactly when 0 is reached.
pub proof fn lemma_scroll_down_by(viewport: Viewport, count: nat)
    requires
        viewport.well_formed(),
    ensures
        viewport.scroll_down_by(count) == (Viewport {
            scroll_offset: if viewport.scroll_offset > count {
                (viewport.scroll_offset - count) as nat
            } else {
                0
            },
            auto_scroll: viewport.scroll_offset <= count,
            ..viewport
        }),
    decreases count,
{
    if count > 0 {
        lemma_scroll_down_by(viewport, (count - 1) as nat);
    }
}

/// Scroll round-trip. From a viewport that tracks the live edge, `count`
/// lines up followed by `count` lines down, with nothing arriving in
/// between, lead back to the same viewport: tracking is on again, and what
/// is rendered, for every height, is what was rendered before.
pub proof fn lemma_scroll_round_trip(viewport: Viewport, count: nat, height: nat)
    requires
        viewport.well_formed(),
        viewport.auto_scroll,
    ensures
        viewport.scroll_up_by(count).scroll_down_by(count) == viewport,
        viewport.scroll_up_by(count).scroll_down_by(count).auto_scroll,
        viewport.scroll_up_by(count).scroll_down_by(count).top(height) == viewport.top(height),
        viewport.scroll_up_by(count).scroll_down_by(count).visible(height) == viewport.visible(
            height,
        ),
{
    lemma_scroll_up_by(viewport, count);
    lemma_scroll_down_by(viewport.scroll_up_by(count), count);
}

/// Scroll round-trip away from the live edge. From a viewport that is
/// already scrolled up, `count` lines up and `count` lines down lead back to
/// the same viewport as long as the way up does not reach the largest
/// distance.
pub proof fn lemma_scroll_round_trip_when_scrolled(viewport: Viewport, count: nat)
    requires
        viewport.well_formed(),
        viewport.scroll_offset + count <= max_scroll_offset(),
    ensures
        viewport.scroll_up_by(count).scroll_down_by(count) == viewport,
{
    lemma_scroll_up_by(viewport, count);
    lemma_scroll_down_by(viewport.scroll_up_by(count), count);
}

/// Auto-scroll. While the viewport tracks the live edge and the log fills
/// the output area, the area is full and its last line is the line appended
/// most recently.
pub proof fn lemma_auto_scroll_shows_newest(viewport: Viewport, height: nat)
    requires
        viewport.auto_scroll,
        height >= 1,
        viewport.lines.len() >= height,
    ensures
        viewport.visible(height).len() == height,
        viewport.visible(height).last() == viewport.lines.last(),
{
}

/// With auto-scroll on, a line that arrives is the last visible line as
/// soon as it has been absorbed.
pub proof fn lemma_new_line_is_visible(viewport: Viewport, line: Seq<char>, height: nat)
    requires
        viewport.auto_scroll,
        height >= 1,
    ensures
        viewport.absorb(Message::Output(line)).visible(height).last() == line,
{
}

/// The visible slice never holds more lines than the output area has, and
/// holds all lines when they fit.
pub proof fn lemma_visible_fits(viewport: Viewport, height: nat)
    ensures
        viewport.visible(height).len() <= height,
        viewport.top(height) <= viewport.lines.len(),
        viewport.lines.len() <= height ==> viewport.visible(height) == viewport.lines,
{
    if viewport.lines.len() <= height {
        assert(viewport.visible(height) =~= viewport.lines);
    }
}

} // verus!
