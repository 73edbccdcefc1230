//! The ends of a service's mailbox.
//!
//! The mailbox is tokio's unbounded channel of envelopes. Its handles are kept
//! in structs whose fields the verifier does not read: an envelope is
//! dispatched against the context, and the context holds the channel of
//! envelopes, a circle that the verifier does not accept through a type of
//! another crate. What is in the channel is shared with other tasks, so the
//! contracts below say only what holds whatever the other side does.

use vstd::prelude::*;
use crate::envelop::Envelope;
use crate::lifecycle::Look;

verus! {

/// A producer's handle on the mailbox. While one exists, the mailbox stays
/// open unless its receiving side is closed.
#[verifier::external_body]
#[verifier::reject_recursive_types(S)]
pub(crate) struct Outlet<S> {
    sender: tokio::sync::mpsc::UnboundedSender<Envelope<S>>,
}

/// A handle that can mint producers' handles without keeping the mailbox
/// open by itself.
#[verifier::external_body]
#[verifier::reject_recursive_types(S)]
pub(crate) struct Minter<S> {
    sender: tokio::sync::mpsc::WeakUnboundedSender<Envelope<S>>,
}

/// The receiving side of the mailbox.
#[verifier::external_body]
#[verifier::reject_recursive_types(S)]
pub(crate) struct Inlet<S> {
    receiver: tokio::sync::mpsc::UnboundedReceiver<Envelope<S>>,
}

/// What one look into the mailbox found.
#[verifier::reject_recursive_types(S)]
pub(crate) enum Intake<S> {
    /// Nothing for now; the task's waker is registered.
    Idle,
    /// The envelope at the head of the queue.
    Next(Envelope<S>),
    /// The mailbox is closed and empty: nothing will ever come.
    Exhausted,
}

impl<S> Intake<S> {
    /// What was found, without the envelope itself.
    pub(crate) open spec fn look(self) -> Look {
        match self {
            Intake::Idle => Look::Idle,
            Intake::Next(envelope) => Look::Next(envelope.slot()),
            Intake::Exhausted => Look::Exhausted,
        }
    }
}

/// `tokio::sync::mpsc::unbounded_channel`: makes a fresh mailbox and hands
/// out its two ends.
#[verifier::external_body]
pub(crate) fn open<S>() -> (ends: (Outlet<S>, Inlet<S>)) {
    let (sender, receiver) = tokio::sync::mpsc::unbounded_channel();
    (Outlet { sender }, Inlet { receiver })
}

impl<S> Outlet<S> {
    /// `UnboundedSender::send`: appends the envelope to the queue unless the
    /// receiving side is closed or gone. On refusal the envelope that comes
    /// back is the one that was passed in.
    #[verifier::external_body]
    pub(crate) fn post(&self, envelope: Envelope<S>) -> (posted: Result<(), Envelope<S>>)
        ensures
            posted matches Err(back) ==> back == envelope,
    {
        match self.sender.send(envelope) {
            Ok(()) => Ok(()),
            Err(refused) => Err(refused.0),
        }
    }

    /// `UnboundedSender::is_closed`: whether the receiving side has been
    /// closed or dropped.
    #[verifier::external_body]
    pub(crate) fn is_closed(&self) -> (closed: bool) {
        self.sender.is_closed()
    }

    /// `UnboundedSender::clone`: another handle on the same mailbox. A
    /// sender is nothing but a shared pointer to its channel, and the clone
    /// holds the same pointer: as a value it is the sender it was made from.
    #[verifier::external_body]
    pub(crate) fn duplicate(&self) -> (twin: Outlet<S>)
        ensures
            twin == *self,
    {
        Outlet { sender: self.sender.clone() }
    }

    /// `UnboundedSender::downgrade`: a minter for the same mailbox.
    #[verifier::external_body]
    pub(crate) fn downgrade(&self) -> (minter: Minter<S>) {
        Minter { sender: self.sender.downgrade() }
    }
}

impl<S> Minter<S> {
    /// `WeakUnboundedSender::upgrade`: a producer's handle, if some other
    /// producer's handle is still alive.
    #[verifier::external_body]
    pub(crate) fn upgrade(&self) -> (minted: Option<Outlet<S>>) {
        match self.sender.upgrade() {
            Some(sender) => Some(Outlet { sender }),
            None => None,
        }
    }
}

impl<S> Inlet<S> {
    /// `UnboundedReceiver::close`: from now on the mailbox refuses envelopes;
    /// those already queued can still be taken.
    #[verifier::external_body]
    pub(crate) fn close(&mut self) {
        self.receiver.close()
    }

    /// `UnboundedReceiver::poll_recv`: takes the envelope at the head of the
    /// queue if there is one; tells whether the mailbox is closed and empty;
    /// otherwise registers the task's waker.
    #[verifier::external_body]
    pub(crate) fn poll_next(&mut self, cx: &mut core::task::Context<'_>) -> (intake: Intake<S>) {
        match self.receiver.poll_recv(cx) {
            core::task::Poll::Pending => Intake::Idle,
            core::task::Poll::Ready(Some(envelope)) => Intake::Next(envelope),
            core::task::Poll::Ready(None) => Intake::Exhausted,
        }
    }
}

} // verus!
