//! The sending side of a run: the relay readers forward lines, the
//! supervisor sends what it decided.

use vstd::prelude::*;
use tokio::sync::mpsc::error::SendError;
use tokio::sync::mpsc::UnboundedSender;
use crate::runner::message::BuildMessage;
use crate::runner::supervisor::{action_views, relay_line, Action, SupervisorAction};

verus! {

/// The actions among `actions` that are not messages to send, in order.
pub open spec fn unsent(actions: Seq<Action>) -> Seq<Action>
    decreases actions.len(),
{
    if actions.len() == 0 {
        Seq::empty()
    } else {
        match actions.last() {
            Action::Send(_) => unsent(actions.drop_last()),
            other => unsent(actions.drop_last()).push(other),
        }
    }
}

/// Whether a relay reader goes on after a send: a receiver that is gone
/// ends the relay, quietly.
pub fn goes_on(sent: &Result<(), SendError<BuildMessage>>) -> (go_on: bool)
    ensures
        go_on == (*sent is Ok),
{
    match sent {
        Ok(_) => true,
        Err(_) => false,
    }
}

/// Forwards a decoded line into the channel and says whether the relay goes
/// on: it does until the receiver is gone.
pub fn forward_line(tx: &UnboundedSender<BuildMessage>, line: String) -> (go_on: bool) {
    let sent = tx.send(relay_line(line));
    goes_on(&sent)
}

/// Sends the messages among `actions`, in order, and hands back what is
/// left for the driver to do. A receiver that is gone is no reason to stop:
/// the run is wound up all the same.
pub fn send_messages(tx: &UnboundedSender<BuildMessage>, actions: Vec<SupervisorAction>) -> (rest:
    Vec<SupervisorAction>)
    ensures
        action_views(rest@) == unsent(action_views(actions@)),
{
    let mut rest: Vec<SupervisorAction> = Vec::new();
    let ghost all = action_views(actions@);
    assert(action_views(rest@) =~= unsent(all.take(0)));
    for action in iter: actions
        invariant
            action_views(iter.seq()) == all,
            action_views(rest@) == unsent(all.take(iter.index() as int)),
    {
        let ghost before = action_views(rest@);
        let ghost more = all.take(iter.index() + 1);
        assert(more.drop_last() =~= all.take(iter.index() as int));
        assert(more.last() == action@);
        match action {
            SupervisorAction::Send(message) => {
                let _ = tx.send(message);
            },
            other => {
                rest.push(other);
                assert(action_views(rest@) =~= before.push(other@));
            },
        }
    }
    assert(all.take(all.len() as int) =~= all);
    rest
}

} // verus!
