//! Reply channels: the single-use path on which the answer to a call
//! travels back.
//!
//! The channel is tokio's oneshot channel. What happens at its far end is
//! up to another task, so the contracts here say only what holds whatever
//! that task does.

use vstd::prelude::*;
use crate::error::Error;

verus! {

/// The sending end of a single-use reply channel.
#[verifier::external_type_specification]
#[verifier::external_body]
#[verifier::reject_recursive_types(T)]
pub struct ExReplySender<T>(tokio::sync::oneshot::Sender<T>);

/// The receiving end of a single-use reply channel.
#[verifier::external_type_specification]
#[verifier::external_body]
#[verifier::reject_recursive_types(T)]
pub struct ExReplyReceiver<T>(tokio::sync::oneshot::Receiver<T>);

/// What the receiving end yields when the sending end went away silently.
#[verifier::external_type_specification]
#[verifier::external_body]
pub struct ExReplyLost(tokio::sync::oneshot::error::RecvError);

/// The handle through which a task asks to be woken.
#[verifier::external_type_specification]
#[verifier::external_body]
pub struct ExTaskContext<'a>(core::task::Context<'a>);

/// `tokio::sync::oneshot::channel`: makes the two ends of a fresh reply
/// channel. Nothing is claimed of them.
pub assume_specification<T>[ tokio::sync::oneshot::channel::<T> ]() -> (ends: (
    tokio::sync::oneshot::Sender<T>,
    tokio::sync::oneshot::Receiver<T>,
));

/// `tokio::sync::oneshot::Sender::send`: tries to hand `t` to the receiving
/// end. Whether that works depends on the other side; when it does not, the
/// value that comes back in `Err` is the one that was passed in.
pub assume_specification<T>[ tokio::sync::oneshot::Sender::<T>::send ](
    sender: tokio::sync::oneshot::Sender<T>,
    t: T,
) -> (sent: Result<(), T>)
    ensures
        sent matches Err(back) ==> back == t,
;

/// `tokio::sync::oneshot::Sender::poll_closed`: asks whether the receiving
/// end has been closed or dropped, and if not registers the task's waker for
/// that event. The answer depends on the other side, so nothing is claimed of
/// it.
#[verifier::external_body]
pub(crate) fn reply_abandoned<T>(
    sender: &mut tokio::sync::oneshot::Sender<T>,
    cx: &mut core::task::Context<'_>,
) -> (gone: bool) {
    sender.poll_closed(cx).is_ready()
}

/// The caller's end of a call that the mailbox has accepted.
///
/// The driver of the caller waits on the receiver that `into_receiver` hands
/// out and passes what it yields to `settle`.
#[verifier::reject_recursive_types(R)]
pub struct Pending<R> {
    receiver: tokio::sync::oneshot::Receiver<R>,
}

impl<R> Pending<R> {
    /// The receiving end that this value was made around.
    pub closed spec fn receiver(self) -> tokio::sync::oneshot::Receiver<R> {
        self.receiver
    }

    pub(crate) fn new(receiver: tokio::sync::oneshot::Receiver<R>) -> (p: Self)
        ensures
            p.receiver() == receiver,
    {
        Pending { receiver }
    }

    /// Gives up the receiving end, to be awaited or dropped.
    pub fn into_receiver(self) -> (receiver: tokio::sync::oneshot::Receiver<R>)
        ensures
            receiver == self.receiver(),
    {
        self.receiver
    }

    /// What the caller observes, given what the receiving end yielded: the
    /// value if one came through, `ServicePaused` if the channel was closed
    /// without one.
    pub fn settle(outcome: Result<R, tokio::sync::oneshot::error::RecvError>) -> (seen: Result<R, Error>)
        ensures
            outcome matches Ok(value) ==> seen == Ok::<R, Error>(value),
            outcome is Err ==> seen == Err::<R, Error>(Error::ServicePaused),
    {
        match outcome {
            Ok(value) => Ok(value),
            Err(_) => Err(Error::ServicePaused),
        }
    }
}

} // verus!
