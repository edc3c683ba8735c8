//! The channel between the producers of a run and the viewport, and the
//! stop signal that travels the other way.

use vstd::prelude::*;
use tokio::sync::mpsc::error::SendError;
use tokio::sync::mpsc::error::TryRecvError;
use tokio::sync::mpsc::UnboundedReceiver;
use tokio::sync::mpsc::UnboundedSender;
use tokio_util::sync::CancellationToken;

verus! {

#[verifier::external_type_specification]
#[verifier::external_body]
#[verifier::reject_recursive_types(T)]
pub struct ExUnboundedReceiver<T>(UnboundedReceiver<T>);

#[verifier::external_type_specification]
#[verifier::external_body]
#[verifier::reject_recursive_types(T)]
pub struct ExUnboundedSender<T>(UnboundedSender<T>);

#[verifier::external_type_specification]
#[verifier::external_body]
pub struct ExTryRecvError(TryRecvError);

#[verifier::external_type_specification]
#[verifier::external_body]
#[verifier::reject_recursive_types(T)]
pub struct ExSendError<T>(SendError<T>);

#[verifier::external_type_specification]
#[verifier::external_body]
pub struct ExCancellationToken(CancellationToken);

/// `unbounded_channel` of tokio: a new channel without a bound, as its
/// sending and its receiving end. How the two ends are tied is outside what
/// a contract over values can say, so nothing is claimed.
pub assume_specification<T>[ tokio::sync::mpsc::unbounded_channel::<T> ]() -> (ends: (
    UnboundedSender<T>,
    UnboundedReceiver<T>,
))
;

/// `CancellationToken::new` of tokio-util: a new token that has not been
/// cancelled. The token's state is shared, so nothing is claimed.
pub assume_specification[ CancellationToken::new ]() -> (token: CancellationToken)
;

/// `CancellationToken::clone` of tokio-util: another handle on the same
/// token; either is cancelled whenever the other is. The token's state is
/// shared, so nothing is claimed.
pub assume_specification[ <CancellationToken as Clone>::clone ](token: &CancellationToken) -> (copy:
    CancellationToken)
;

/// `UnboundedReceiver::len` of tokio: the number of messages waiting in the
/// channel. Senders run concurrently, so nothing is claimed of the number.
pub assume_specification<T>[ UnboundedReceiver::<T>::len ](rx: &UnboundedReceiver<T>) -> (waiting: usize)
;

/// `UnboundedReceiver::try_recv` of tokio: takes the next message without
/// waiting, or says that none is there. Which of the two happens depends on
/// the senders, so nothing is claimed of the result.
pub assume_specification<T>[ UnboundedReceiver::<T>::try_recv ](
    rx: &mut UnboundedReceiver<T>,
) -> (next: Result<T, TryRecvError>)
;

/// `UnboundedSender::send` of tokio: puts a message into the channel
/// without waiting, or fails because the receiver is gone. Which of the two
/// happens depends on the receiver, so nothing is claimed of the result.
pub assume_specification<T>[ UnboundedSender::<T>::send ](
    tx: &UnboundedSender<T>,
    message: T,
) -> (delivery: Result<(), SendError<T>>)
;

/// `CancellationToken::cancel` of tokio-util: gives the stop signal to every
/// holder of the token. The token's state is shared, so nothing is claimed.
pub assume_specification[ CancellationToken::cancel ](token: &CancellationToken)
;

} // verus!
