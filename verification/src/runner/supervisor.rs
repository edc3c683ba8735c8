//! The decisions of the process supervisor. The driver spawns the process,
//! waits for its exit or for the stop signal, and reports each thing that
//! happened as an event; `Supervisor::step` answers with what to do next.

use vstd::prelude::*;
use crate::runner::command::{
    echo_line, process_error_text, spawn_error_text, CommandLine, CommandSpec,
};
use crate::runner::message::{BuildMessage, BuildResult, Message, Outcome};

verus! {

/// Where a run stands.
pub enum Phase {
    /// Nothing has been spawned yet.
    Idle,
    /// The process is alive and its output is being relayed.
    Running,
    /// The process is gone, by exit or by kill, with this outcome; the
    /// relay readers are still forwarding what it left behind.
    Draining(Outcome),
    /// The outcome has been sent. Nothing follows.
    Finished(Outcome),
}

/// What can happen to a run.
pub enum Event {
    /// The process could not be created, for this reason.
    SpawnFailed(Seq<char>),
    /// The process was created.
    Spawned,
    /// A relay reader decoded this line from one of the two streams.
    Line(Seq<char>),
    /// The process exited by itself, with this code if it has one.
    Exited(Option<i32>),
    /// The exit status could not be observed, for this reason.
    WaitFailed(Seq<char>),
    /// The stop signal was observed.
    CancelRequested,
    /// Both relay readers have run to completion.
    RelaysJoined,
}

/// What the run does in answer.
pub enum Action {
    /// Put this message into the channel.
    Send(Message),
    /// Start one relay reader per output stream, then wait for the exit or
    /// the stop signal, whichever comes first.
    StartRelays,
    /// Terminate the process by force.
    Kill,
    /// Wait until both relay readers are done.
    JoinRelays,
}

/// A step of the run: the phase it leads to and what is done on the way.
pub struct Transition {
    pub next: Phase,
    pub actions: Seq<Action>,
}

/// Exit code 0 is success; any other code is a failure with that code; an
/// exit without a code counts as a failure with code -1.
pub open spec fn classify_exit(code: Option<i32>) -> Outcome {
    match code {
        Some(value) => if value == 0 {
            Outcome::Success
        } else {
            Outcome::Failed(value)
        },
        None => Outcome::Failed((-1) as i32),
    }
}

/// The transition relation of a run of `command`.
pub open spec fn transition(command: CommandLine, phase: Phase, event: Event) -> Transition {
    match (phase, event) {
        (Phase::Idle, Event::SpawnFailed(reason)) => {
            let outcome = Outcome::SpawnError(spawn_error_text(command, reason));
            Transition {
                next: Phase::Finished(outcome),
                actions: seq![Action::Send(Message::Finished(outcome))],
            }
        },
        (Phase::Idle, Event::Spawned) => Transition {
            next: Phase::Running,
            actions: seq![
                Action::Send(Message::Output(echo_line(command))),
                Action::Send(Message::Output(Seq::empty())),
                Action::StartRelays,
            ],
        },
        (Phase::Running, Event::Line(text)) => Transition {
            next: Phase::Running,
            actions: seq![Action::Send(Message::Output(text))],
        },
        (Phase::Draining(outcome), Event::Line(text)) => Transition {
            next: Phase::Draining(outcome),
            actions: seq![Action::Send(Message::Output(text))],
        },
        (Phase::Running, Event::Exited(code)) => Transition {
            next: Phase::Draining(classify_exit(code)),
            actions: seq![Action::JoinRelays],
        },
        (Phase::Running, Event::WaitFailed(reason)) => Transition {
            next: Phase::Draining(Outcome::ProcessError(process_error_text(reason))),
            actions: seq![Action::JoinRelays],
        },
        (Phase::Running, Event::CancelRequested) => Transition {
            next: Phase::Draining(Outcome::Cancelled),
            actions: seq![Action::Kill, Action::JoinRelays],
        },
        (Phase::Draining(outcome), Event::RelaysJoined) => Transition {
            next: Phase::Finished(outcome),
            actions: seq![Action::Send(Message::Finished(outcome))],
        },
        _ => Transition { next: phase, actions: Seq::empty() },
    }
}

/// The phase of a run that started in `phase` and saw `events` in order.
pub open spec fn phase_after(command: CommandLine, phase: Phase, events: Seq<Event>) -> Phase
    decreases events.len(),
{
    if events.len() == 0 {
        phase
    } else {
        transition(command, phase_after(command, phase, events.drop_last()), events.last()).next
    }
}

/// The messages among `actions`, in order.
pub open spec fn sent(actions: Seq<Action>) -> Seq<Message>
    decreases actions.len(),
{
    if actions.len() == 0 {
        Seq::empty()
    } else {
        match actions.last() {
            Action::Send(message) => sent(actions.drop_last()).push(message),
            _ => sent(actions.drop_last()),
        }
    }
}

/// Everything that a run which started in `phase` and saw `events` put into
/// the channel, in order.
pub open spec fn emitted(command: CommandLine, phase: Phase, events: Seq<Event>) -> Seq<Message>
    decreases events.len(),
{
    if events.len() == 0 {
        Seq::empty()
    } else {
        let before = events.drop_last();
        emitted(command, phase, before) + sent(
            transition(command, phase_after(command, phase, before), events.last()).actions,
        )
    }
}

/// Where a run stands, as the supervisor holds it.
#[derive(Debug, PartialEq, Eq)]
pub enum SupervisorState {
    Idle,
    Running,
    Draining(BuildResult),
    Finished(BuildResult),
}

impl View for SupervisorState {
    type V = Phase;

    open spec fn view(&self) -> Phase {
        match self {
            SupervisorState::Idle => Phase::Idle,
            SupervisorState::Running => Phase::Running,
            SupervisorState::Draining(result) => Phase::Draining(result@),
            SupervisorState::Finished(result) => Phase::Finished(result@),
        }
    }
}

/// What the driver reports to the supervisor.
#[derive(Debug, PartialEq, Eq)]
pub enum SupervisorEvent {
    /// The process could not be created, for this reason.
    SpawnFailed(String),
    /// The process was created.
    Spawned,
    /// The process exited by itself, with this code if it has one.
    Exited(Option<i32>),
    /// The exit status could not be observed, for this reason.
    WaitFailed(String),
    /// The stop signal was observed.
    CancelRequested,
    /// Both relay readers have run to completion.
    RelaysJoined,
}

impl View for SupervisorEvent {
    type V = Event;

    open spec fn view(&self) -> Event {
        match self {
            SupervisorEvent::SpawnFailed(reason) => Event::SpawnFailed(reason@),
            SupervisorEvent::Spawned => Event::Spawned,
            SupervisorEvent::Exited(code) => Event::Exited(*code),
            SupervisorEvent::WaitFailed(reason) => Event::WaitFailed(reason@),
            SupervisorEvent::CancelRequested => Event::CancelRequested,
            SupervisorEvent::RelaysJoined => Event::RelaysJoined,
        }
    }
}

/// What the driver is told to do.
#[derive(Debug, PartialEq, Eq)]
pub enum SupervisorAction {
    /// Put this message into the channel.
    Send(BuildMessage),
    /// Start one relay reader per output stream, then wait for the exit or
    /// the stop signal, whichever comes first.
    StartRelays,
    /// Terminate the process by force.
    Kill,
    /// Wait until both relay readers are done.
    JoinRelays,
}

impl View for SupervisorAction {
    type V = Action;

    open spec fn view(&self) -> Action {
        match self {
            SupervisorAction::Send(message) => Action::Send(message@),
            SupervisorAction::StartRelays => Action::StartRelays,
            SupervisorAction::Kill => Action::Kill,
            SupervisorAction::JoinRelays => Action::JoinRelays,
        }
    }
}

/// The views of `actions`, in order.
pub open spec fn action_views(actions: Seq<SupervisorAction>) -> Seq<Action> {
    Seq::new(actions.len(), |i: int| actions[i]@)
}

/// Classifies a natural exit by its code.
pub fn classify_exit_code(code: Option<i32>) -> (result: BuildResult)
    ensures
        result@ == classify_exit(code),
{
    match code {
        Some(value) => if value == 0 {
            BuildResult::Success
        } else {
            BuildResult::Failed(value)
        },
        None => BuildResult::Failed(-1),
    }
}

/// The message that a relay reader sends for a line it decoded: the run's
/// answer to `Event::Line`.
pub fn relay_line(line: String) -> (message: BuildMessage)
    ensures
        message@ == Message::Output(line@),
{
    BuildMessage::Output(line)
}

/// The supervisor of one run.
pub struct Supervisor {
    spec: CommandSpec,
    state: SupervisorState,
}

impl Supervisor {
    /// The command being run, as text.
    pub closed spec fn command(&self) -> CommandLine {
        self.spec@
    }

    /// Where the run stands.
    pub closed spec fn phase(&self) -> Phase {
        self.state@
    }

    /// The supervisor of a run of `spec` that has not been spawned yet.
    pub fn new(spec: CommandSpec) -> (supervisor: Self)
        ensures
            supervisor.command() == spec@,
            supervisor.phase() == Phase::Idle,
    {
        Supervisor { spec, state: SupervisorState::Idle }
    }

    /// The command being run.
    pub fn spec(&self) -> (spec: &CommandSpec)
        ensures
            spec@ == self.command(),
    {
        &self.spec
    }

    /// Where the run stands.
    pub fn state(&self) -> (state: &SupervisorState)
        ensures
            state@ == self.phase(),
    {
        &self.state
    }

    /// Whether the outcome has been sent.
    pub fn is_finished(&self) -> (finished: bool)
        ensures
            finished == (self.phase() is Finished),
    {
        match &self.state {
            SupervisorState::Finished(_) => true,
            _ => false,
        }
    }

    /// Takes one event and says what to do: the next state and the actions
    /// are those of `transition`.
    pub fn step(&mut self, event: SupervisorEvent) -> (actions: Vec<SupervisorAction>)
        ensures
            final(self).command() == old(self).command(),
            final(self).phase() == transition(old(self).command(), old(self).phase(), event@).next,
            action_views(actions@) == transition(
                old(self).command(),
                old(self).phase(),
                event@,
            ).actions,
    {
        let mut actions: Vec<SupervisorAction> = Vec::new();
        let ghost expected = transition(self.command(), self.phase(), event@);
        match (&self.state, event) {
            (SupervisorState::Idle, SupervisorEvent::SpawnFailed(reason)) => {
                let mut text = String::from_str("Failed to start ");
                text.append(self.spec.program.as_str());
                text.append(": ");
                text.append(reason.as_str());
                actions.push(
                    SupervisorAction::Send(
                        BuildMessage::Finished(BuildResult::SpawnError(text.clone())),
                    ),
                );
                self.state = SupervisorState::Finished(BuildResult::SpawnError(text));
            },
            (SupervisorState::Idle, SupervisorEvent::Spawned) => {
                actions.push(SupervisorAction::Send(BuildMessage::Output(self.spec.echo_line())));
                actions.push(SupervisorAction::Send(BuildMessage::Output(String::new())));
                actions.push(SupervisorAction::StartRelays);
                self.state = SupervisorState::Running;
            },
            (SupervisorState::Running, SupervisorEvent::Exited(code)) => {
                actions.push(SupervisorAction::JoinRelays);
                self.state = SupervisorState::Draining(classify_exit_code(code));
            },
            (SupervisorState::Running, SupervisorEvent::WaitFailed(reason)) => {
                let mut text = String::from_str("Process error: ");
                text.append(reason.as_str());
                actions.push(SupervisorAction::JoinRelays);
                self.state = SupervisorState::Draining(BuildResult::ProcessError(text));
            },
            (SupervisorState::Running, SupervisorEvent::CancelRequested) => {
                actions.push(SupervisorAction::Kill);
                actions.push(SupervisorAction::JoinRelays);
                self.state = SupervisorState::Draining(BuildResult::Cancelled);
            },
            (SupervisorState::Draining(result), SupervisorEvent::RelaysJoined) => {
                let outcome = result.clone();
                actions.push(SupervisorAction::Send(BuildMessage::Finished(result.clone())));
                self.state = SupervisorState::Finished(outcome);
            },
            _ => {},
        }
        assert(action_views(actions@) =~= expected.actions);
        actions
    }
}

} // verus!
