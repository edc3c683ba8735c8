//! What holds of every run: what is sent, in which order, and how it ends.

use vstd::prelude::*;
use crate::runner::command::{echo_line, process_error_text, CommandLine};
use crate::runner::message::{Message, Outcome};
use crate::runner::supervisor::{
    classify_exit, emitted, phase_after, sent, transition, Action, Event, Phase, Transition,
};
use crate::runner::viewport::{outcome_lines, Viewport};
use crate::runner::viewport_laws::{lemma_absorb_run, output_messages};

verus! {

/// The outcome that an event settles while the process is alive, if it
/// settles one.
pub open spec fn decided(event: Event) -> Option<Outcome> {
    match event {
        Event::Exited(code) => Some(classify_exit(code)),
        Event::WaitFailed(reason) => Some(Outcome::ProcessError(process_error_text(reason))),
        Event::CancelRequested => Some(Outcome::Cancelled),
        _ => None,
    }
}

/// The lines that the relay readers decoded among `events`, in order.
pub open spec fn relayed(events: Seq<Event>) -> Seq<Seq<char>>
    decreases events.len(),
{
    if events.len() == 0 {
        Seq::empty()
    } else {
        match events.last() {
            Event::Line(text) => relayed(events.drop_last()).push(text),
            _ => relayed(events.drop_last()),
        }
    }
}

/// No message but the last is an outcome.
pub open spec fn outcome_only_last(messages: Seq<Message>) -> bool {
    forall|i: int| 0 <= i < messages.len() && messages[i] is Finished ==> i == messages.len() - 1
}

/// The two lines that open the log of a run that spawned.
pub open spec fn opening_lines(command: CommandLine) -> Seq<Seq<char>> {
    seq![echo_line(command), Seq::empty()]
}

/// The events of a run that spawned: it relayed `before`, then `decider`
/// settled the outcome, the readers ran to completion over `after`, and
/// `rest` came when all was over.
pub open spec fn settled_run(
    before: Seq<Event>,
    decider: Event,
    after: Seq<Event>,
    rest: Seq<Event>,
) -> Seq<Event> {
    seq![Event::Spawned] + before + seq![decider] + after + seq![Event::RelaysJoined] + rest
}

proof fn lemma_sent_one(message: Message)
    ensures
        sent(seq![Action::Send(message)]) == seq![message],
{
    let actions = seq![Action::Send(message)];
    assert(actions.drop_last() =~= Seq::empty());
    assert(sent(Seq::<Action>::empty()) =~= Seq::empty());
    assert(sent(actions) =~= seq![message]);
}

proof fn lemma_sent_none(actions: Seq<Action>)
    requires
        forall|i: int| 0 <= i < actions.len() ==> !(actions[i] is Send),
    ensures
        sent(actions) == Seq::<Message>::empty(),
    decreases actions.len(),
{
    if actions.len() > 0 {
        lemma_sent_none(actions.drop_last());
    }
}

/// What one event makes the run send: the opening lines on a spawn, the
/// line on a relayed line, the outcome when it is due, and otherwise nothing.
pub proof fn lemma_sent_by_transition(command: CommandLine, phase: Phase, event: Event)
    ensures
        sent(transition(command, phase, event).actions) == match (phase, event) {
            (Phase::Idle, Event::SpawnFailed(_)) => seq![
                Message::Finished(transition(command, phase, event).next->Finished_0),
            ],
            (Phase::Idle, Event::Spawned) => output_messages(opening_lines(command)),
            (Phase::Running, Event::Line(text)) => seq![Message::Output(text)],
            (Phase::Draining(_), Event::Line(text)) => seq![Message::Output(text)],
            (Phase::Draining(outcome), Event::RelaysJoined) => seq![Message::Finished(outcome)],
            _ => Seq::empty(),
        },
{
    let actions = transition(command, phase, event).actions;
    match (phase, event) {
        (Phase::Idle, Event::SpawnFailed(_)) => {
            lemma_sent_one(actions[0]->Send_0);
            assert(actions =~= seq![actions[0]]);
        },
        (Phase::Idle, Event::Spawned) => {
            let first = Message::Output(echo_line(command));
            let second = Message::Output(Seq::empty());
            let two = seq![Action::Send(first), Action::Send(second)];
            let one = seq![Action::Send(first)];
            assert(actions.drop_last() =~= two);
            assert(two.drop_last() =~= one);
            lemma_sent_one(first);
            assert(sent(two) =~= seq![first, second]);
            assert(sent(actions) =~= output_messages(opening_lines(command)));
        },
        (Phase::Running, Event::Line(text)) => {
            lemma_sent_one(Message::Output(text));
        },
        (Phase::Draining(_), Event::Line(text)) => {
            lemma_sent_one(Message::Output(text));
        },
        (Phase::Draining(outcome), Event::RelaysJoined) => {
            lemma_sent_one(Message::Finished(outcome));
        },
        _ => {
            lemma_sent_none(actions);
        },
    }
}

/// A run that saw `first` and then `second` is where the run that saw
/// `second` from the phase after `first` is, and has sent what both sent.
pub proof fn lemma_run_concat(
    command: CommandLine,
    phase: Phase,
    first: Seq<Event>,
    second: Seq<Event>,
)
    ensures
        phase_after(command, phase, first + second) == phase_after(
            command,
            phase_after(command, phase, first),
            second,
        ),
        emitted(command, phase, first + second) == emitted(command, phase, first) + emitted(
            command,
            phase_after(command, phase, first),
            second,
        ),
    decreases second.len(),
{
    let middle = phase_after(command, phase, first);
    if second.len() == 0 {
        assert(first + second =~= first);
        assert(emitted(command, phase, first) + Seq::<Message>::empty() =~= emitted(
            command,
            phase,
            first,
        ));
    } else {
        lemma_run_concat(command, phase, first, second.drop_last());
        assert((first + second).drop_last() =~= first + second.drop_last());
        assert((first + second).last() == second.last());
        let step = sent(
            transition(command, phase_after(command, middle, second.drop_last()), second.last()).actions,
        );
        assert(emitted(command, phase, first + second) =~= emitted(command, phase, first) + (
        emitted(command, middle, second.drop_last()) + step));
    }
}

proof fn lemma_run_one(command: CommandLine, phase: Phase, event: Event)
    ensures
        phase_after(command, phase, seq![event]) == transition(command, phase, event).next,
        emitted(command, phase, seq![event]) == sent(transition(command, phase, event).actions),
{
    let events = seq![event];
    assert(events.drop_last() =~= Seq::empty());
    assert(emitted(command, phase, Seq::<Event>::empty()) =~= Seq::empty());
    assert(phase_after(command, phase, Seq::<Event>::empty()) == phase);
    assert(emitted(command, phase, events) =~= sent(transition(command, phase, event).actions));
}

/// Terminal states are absorbing: once the outcome has been sent, no event
/// changes the phase, and nothing more is sent.
pub proof fn lemma_finished_is_absorbing(command: CommandLine, outcome: Outcome, events: Seq<Event>)
    ensures
        phase_after(command, Phase::Finished(outcome), events) == Phase::Finished(outcome),
        emitted(command, Phase::Finished(outcome), events) == Seq::<Message>::empty(),
    decreases events.len(),
{
    if events.len() > 0 {
        lemma_finished_is_absorbing(command, outcome, events.drop_last());
        lemma_sent_by_transition(command, Phase::Finished(outcome), events.last());
    }
}

/// While nothing settles the outcome, the run stays running and sends the
/// relayed lines, in order, and nothing else.
pub proof fn lemma_running_relays(command: CommandLine, events: Seq<Event>)
    requires
        forall|i: int| 0 <= i < events.len() ==> decided(events[i]) is None,
    ensures
        phase_after(command, Phase::Running, events) == Phase::Running,
        emitted(command, Phase::Running, events) == output_messages(relayed(events)),
    decreases events.len(),
{
    if events.len() == 0 {
        assert(output_messages(relayed(events)) =~= Seq::empty());
    } else {
        lemma_running_relays(command, events.drop_last());
        lemma_sent_by_transition(command, Phase::Running, events.last());
        assert(emitted(command, Phase::Running, events) =~= output_messages(relayed(events)));
    }
}

/// Once the outcome is settled, it stays settled until the readers are
/// joined: a repeated stop signal or a late exit changes nothing, and the
/// run sends the lines that are still relayed, and nothing else.
pub proof fn lemma_draining_relays(command: CommandLine, outcome: Outcome, events: Seq<Event>)
    requires
        forall|i: int| 0 <= i < events.len() ==> !(events[i] is RelaysJoined),
    ensures
        phase_after(command, Phase::Draining(outcome), events) == Phase::Draining(outcome),
        emitted(command, Phase::Draining(outcome), events) == output_messages(relayed(events)),
    decreases events.len(),
{
    if events.len() == 0 {
        assert(output_messages(relayed(events)) =~= Seq::empty());
    } else {
        lemma_draining_relays(command, outcome, events.drop_last());
        lemma_sent_by_transition(command, Phase::Draining(outcome), events.last());
        assert(emitted(command, Phase::Draining(outcome), events) =~= output_messages(
            relayed(events),
        ));
    }
}

/// Ordering. Whatever happens to a run, every output message precedes the
/// outcome: the outcome is sent at most once, it is the last message, and
/// it has been sent exactly when the run is in a terminal state.
pub proof fn lemma_output_precedes_outcome(command: CommandLine, events: Seq<Event>)
    ensures
        outcome_only_last(emitted(command, Phase::Idle, events)),
        match phase_after(command, Phase::Idle, events) {
            Phase::Finished(outcome) => {
                let messages = emitted(command, Phase::Idle, events);
                messages.len() > 0 && messages.last() == Message::Finished(outcome)
            },
            _ => forall|i: int|
                0 <= i < emitted(command, Phase::Idle, events).len() ==> !(emitted(
                    command,
                    Phase::Idle,
                    events,
                )[i] is Finished),
        },
    decreases events.len(),
{
    if events.len() > 0 {
        let before = events.drop_last();
        lemma_output_precedes_outcome(command, before);
        lemma_sent_by_transition(command, phase_after(command, Phase::Idle, before), events.last());
    }
}

/// A command that cannot be spawned yields a single message, the outcome
/// `SpawnError`; no output is ever produced for that run.
pub proof fn lemma_spawn_failure(command: CommandLine, reason: Seq<char>, rest: Seq<Event>)
    ensures
        emitted(command, Phase::Idle, seq![Event::SpawnFailed(reason)] + rest).len() == 1,
        emitted(command, Phase::Idle, seq![Event::SpawnFailed(reason)] + rest)[0] is Finished,
        emitted(command, Phase::Idle, seq![Event::SpawnFailed(reason)] + rest)[0]->Finished_0
            is SpawnError,
        phase_after(command, Phase::Idle, seq![Event::SpawnFailed(reason)] + rest) is Finished,
{
    let first = seq![Event::SpawnFailed(reason)];
    lemma_run_one(command, Phase::Idle, Event::SpawnFailed(reason));
    lemma_sent_by_transition(command, Phase::Idle, Event::SpawnFailed(reason));
    lemma_run_concat(command, Phase::Idle, first, rest);
    let outcome = transition(command, Phase::Idle, Event::SpawnFailed(reason)).next->Finished_0;
    lemma_finished_is_absorbing(command, outcome, rest);
    assert(emitted(command, Phase::Idle, first + rest) =~= seq![Message::Finished(outcome)]);
}

/// How a run that spawned ends. Whatever settles the outcome first settles
/// it for good; the run sends the two opening lines, every relayed line in
/// order, and then the outcome, once, as its last message.
pub proof fn lemma_settled_run(
    command: CommandLine,
    before: Seq<Event>,
    decider: Event,
    after: Seq<Event>,
    rest: Seq<Event>,
)
    requires
        forall|i: int| 0 <= i < before.len() ==> decided(before[i]) is None,
        decided(decider) is Some,
        forall|i: int| 0 <= i < after.len() ==> !(after[i] is RelaysJoined),
    ensures
        phase_after(command, Phase::Idle, settled_run(before, decider, after, rest))
            == Phase::Finished(decided(decider)->Some_0),
        emitted(command, Phase::Idle, settled_run(before, decider, after, rest))
            == output_messages(opening_lines(command) + relayed(before) + relayed(after)).push(
            Message::Finished(decided(decider)->Some_0),
        ),
{
    let outcome = decided(decider)->Some_0;
    let e1 = seq![Event::Spawned];
    let e2 = e1 + before;
    let e3 = e2 + seq![decider];
    let e4 = e3 + after;
    let e5 = e4 + seq![Event::RelaysJoined];
    lemma_run_one(command, Phase::Idle, Event::Spawned);
    lemma_sent_by_transition(command, Phase::Idle, Event::Spawned);
    lemma_run_concat(command, Phase::Idle, e1, before);
    lemma_running_relays(command, before);
    lemma_run_concat(command, Phase::Idle, e2, seq![decider]);
    lemma_run_one(command, Phase::Running, decider);
    lemma_sent_by_transition(command, Phase::Running, decider);
    lemma_run_concat(command, Phase::Idle, e3, after);
    lemma_draining_relays(command, outcome, after);
    lemma_run_concat(command, Phase::Idle, e4, seq![Event::RelaysJoined]);
    lemma_run_one(command, Phase::Draining(outcome), Event::RelaysJoined);
    lemma_sent_by_transition(command, Phase::Draining(outcome), Event::RelaysJoined);
    lemma_run_concat(command, Phase::Idle, e5, rest);
    lemma_finished_is_absorbing(command, outcome, rest);
    assert(emitted(command, Phase::Idle, e5 + rest) =~= output_messages(
        opening_lines(command) + relayed(before) + relayed(after),
    ).push(Message::Finished(outcome)));
}

/// What the viewport shows of a run that spawned, once it has drained the
/// channel: the outcome that was settled; a log that starts with the echoed
/// command and holds every relayed line in order, then the error text if
/// the outcome carries one.
pub proof fn lemma_settled_run_in_viewport(
    command: CommandLine,
    before: Seq<Event>,
    decider: Event,
    after: Seq<Event>,
    rest: Seq<Event>,
)
    requires
        forall|i: int| 0 <= i < before.len() ==> decided(before[i]) is None,
        decided(decider) is Some,
        forall|i: int| 0 <= i < after.len() ==> !(after[i] is RelaysJoined),
    ensures
        ({
            let messages = emitted(
                command,
                Phase::Idle,
                settled_run(before, decider, after, rest),
            );
            let viewport = Viewport::empty().absorb_all(messages);
            &&& outcome_only_last(messages)
            &&& viewport.outcome == decided(decider)
            &&& viewport.lines == opening_lines(command) + relayed(before) + relayed(after)
                + outcome_lines(decided(decider)->Some_0)
            &&& viewport.lines.len() >= 2
            &&& viewport.lines[0] == echo_line(command)
        }),
{
    lemma_settled_run(command, before, decider, after, rest);
    lemma_output_precedes_outcome(command, settled_run(before, decider, after, rest));
    lemma_absorb_run(
        opening_lines(command) + relayed(before) + relayed(after),
        decided(decider)->Some_0,
    );
}

/// A command that spawns and exits with code 0 ends in `Success`. Its
/// output is not empty, since it holds at least the echoed command, and all
/// of it is in the channel before the outcome.
pub proof fn lemma_exit_zero_is_success(
    command: CommandLine,
    before: Seq<Event>,
    after: Seq<Event>,
    rest: Seq<Event>,
)
    requires
        forall|i: int| 0 <= i < before.len() ==> decided(before[i]) is None,
        forall|i: int| 0 <= i < after.len() ==> !(after[i] is RelaysJoined),
    ensures
        ({
            let messages = emitted(
                command,
                Phase::Idle,
                settled_run(before, Event::Exited(Some(0i32)), after, rest),
            );
            let viewport = Viewport::empty().absorb_all(messages);
            &&& viewport.outcome == Some(Outcome::Success)
            &&& messages.last() == Message::Finished(Outcome::Success)
            &&& outcome_only_last(messages)
            &&& messages.len() >= 3
            &&& messages[0] == Message::Output(echo_line(command))
            &&& viewport.lines.len() >= 2
            &&& viewport.lines[0] == echo_line(command)
        }),
{
    let decider = Event::Exited(Some(0i32));
    lemma_settled_run(command, before, decider, after, rest);
    lemma_settled_run_in_viewport(command, before, decider, after, rest);
}

/// A command that spawns and exits with a code other than 0 ends in
/// `Failed` with that code.
pub proof fn lemma_nonzero_exit_is_failure(
    command: CommandLine,
    code: i32,
    before: Seq<Event>,
    after: Seq<Event>,
    rest: Seq<Event>,
)
    requires
        code != 0,
        forall|i: int| 0 <= i < before.len() ==> decided(before[i]) is None,
        forall|i: int| 0 <= i < after.len() ==> !(after[i] is RelaysJoined),
    ensures
        ({
            let messages = emitted(
                command,
                Phase::Idle,
                settled_run(before, Event::Exited(Some(code)), after, rest),
            );
            let viewport = Viewport::empty().absorb_all(messages);
            &&& viewport.outcome == Some(Outcome::Failed(code))
            &&& messages.last() == Message::Finished(Outcome::Failed(code))
            &&& outcome_only_last(messages)
        }),
{
    let decider = Event::Exited(Some(code));
    lemma_settled_run(command, before, decider, after, rest);
    lemma_settled_run_in_viewport(command, before, decider, after, rest);
}

/// The stop signal observed twice in immediate succession yields exactly
/// one outcome, `Cancelled`: the second signal changes nothing and sends
/// nothing, and neither `Success` nor `Failed` is recorded for that run.
pub proof fn lemma_cancel_twice_cancels_once(
    command: CommandLine,
    before: Seq<Event>,
    after: Seq<Event>,
    rest: Seq<Event>,
)
    requires
        forall|i: int| 0 <= i < before.len() ==> decided(before[i]) is None,
        forall|i: int| 0 <= i < after.len() ==> !(after[i] is RelaysJoined),
    ensures
        transition(command, Phase::Draining(Outcome::Cancelled), Event::CancelRequested) == (
        Transition { next: Phase::Draining(Outcome::Cancelled), actions: Seq::empty() }),
        ({
            let messages = emitted(
                command,
                Phase::Idle,
                settled_run(
                    before,
                    Event::CancelRequested,
                    seq![Event::CancelRequested] + after,
                    rest,
                ),
            );
            let viewport = Viewport::empty().absorb_all(messages);
            &&& viewport.outcome == Some(Outcome::Cancelled)
            &&& messages.last() == Message::Finished(Outcome::Cancelled)
            &&& outcome_only_last(messages)
            &&& messages == emitted(
                command,
                Phase::Idle,
                settled_run(before, Event::CancelRequested, after, rest),
            )
        }),
{
    let decider = Event::CancelRequested;
    let twice = seq![Event::CancelRequested] + after;
    lemma_settled_run(command, before, decider, twice, rest);
    lemma_settled_run_in_viewport(command, before, decider, twice, rest);
    lemma_settled_run(command, before, decider, after, rest);
    lemma_relayed_skips(Event::CancelRequested, after);
}

proof fn lemma_relayed_skips(event: Event, events: Seq<Event>)
    requires
        !(event is Line),
    ensures
        relayed(seq![event] + events) == relayed(events),
    decreases events.len(),
{
    let all = seq![event] + events;
    if events.len() == 0 {
        assert(all.drop_last() =~= Seq::empty());
        assert(relayed(all.drop_last()) =~= Seq::empty());
    } else {
        lemma_relayed_skips(event, events.drop_last());
        assert(all.drop_last() =~= seq![event] + events.drop_last());
        assert(all.last() == events.last());
    }
}

} // verus!
