//! Addresses: what producers hold to reach a service.

use vstd::prelude::*;
use crate::envelop::Envelope;
use crate::error::Error;
use crate::handler::{Handler, Message};
use crate::mailbox::{open, Outlet};
use crate::reply::Pending;
use crate::service::Service;

verus! {

/// What a producer is told of its envelope: success if the mailbox queued
/// it, `ServiceStoped` if not.
pub open spec fn admission(queued: bool) -> Result<(), Error> {
    if queued {
        Ok(())
    } else {
        Err(Error::ServiceStoped)
    }
}

/// A producer's handle on the mailbox of a service. Clones reach the same
/// mailbox. Once every address of a mailbox is gone, the mailbox closes.
#[verifier::reject_recursive_types(S)]
pub struct Address<S> {
    outlet: Outlet<S>,
}

impl<S> Clone for Address<S> {
    /// The clone holds the same handle on the same mailbox.
    fn clone(&self) -> (twin: Self)
        ensures
            twin == *self,
    {
        Address { outlet: self.outlet.duplicate() }
    }
}

impl<S> Address<S> {
    /// The address that holds `outlet`.
    pub(crate) closed spec fn around(outlet: Outlet<S>) -> Address<S> {
        Address { outlet }
    }

    /// Makes the address that holds `outlet`.
    pub(crate) fn over(outlet: Outlet<S>) -> (a: Self)
        ensures
            a == Address::around(outlet),
    {
        Address { outlet }
    }

    /// The address that a context which is no longer anchored hands out,
    /// given what its minter said: the address that holds the minted handle
    /// if there is one. If there is none, every address of the mailbox is
    /// gone and the mailbox with them; the address is then one of a mailbox
    /// of its own whose receiving side is gone, so that every operation on
    /// it fails with `ServiceStoped`.
    pub(crate) fn minted(upgraded: Option<Outlet<S>>) -> (a: Self)
        ensures
            upgraded matches Some(outlet) ==> a == Address::around(outlet),
    {
        match upgraded {
            Some(outlet) => Address::over(outlet),
            None => {
                let (outlet, _gone) = open::<S>();
                Address::over(outlet)
            },
        }
    }

    /// Whether the receiving side of the mailbox has been closed or is gone.
    /// The answer holds for the moment of the question only.
    pub fn is_stop(&self) -> (stopped: bool) {
        self.outlet.is_closed()
    }

    /// What a producer is told, given what the mailbox said to its envelope:
    /// success if the envelope was queued, `ServiceStoped` if it was refused.
    /// A refused envelope is dropped, and with it the reply channel inside.
    pub fn admitted(posted: Result<(), Envelope<S>>) -> (told: Result<(), Error>)
        ensures
            told == admission(posted is Ok),
    {
        match posted {
            Ok(()) => Ok(()),
            Err(_) => Err(Error::ServiceStoped),
        }
    }
}

impl<S: Service> Address<S> {
    /// Queues `message` without asking for an answer.
    ///
    /// Returns as soon as the mailbox has taken or refused the envelope; the
    /// only failure is `ServiceStoped`.
    pub fn send<M>(&self, message: M) -> (told: Result<(), Error>) where
        S: Handler<M>,
        M: Message + Send + 'static,
        M::Result: Send,

        ensures
            told matches Err(e) ==> e == Error::ServiceStoped,
    {
        let envelope = Envelope::new(message, None);
        Address::admitted(self.outlet.post(envelope))
    }

    /// Queues `message` together with the sending end of a fresh reply
    /// channel, and hands back the receiving end.
    ///
    /// The only failure at this point is `ServiceStoped`: a refused call
    /// leaves no channel behind on which anything could arrive later.
    pub fn call<M>(&self, message: M) -> (told: Result<Pending<M::Result>, Error>) where
        S: Handler<M>,
        M: Message + Send + 'static,
        M::Result: Send,

        ensures
            told matches Err(e) ==> e == Error::ServiceStoped,
    {
        let (sender, receiver) = tokio::sync::oneshot::channel::<M::Result>();
        let envelope = Envelope::new(message, Some(sender));
        match Address::admitted(self.outlet.post(envelope)) {
            Ok(()) => Ok(Pending::new(receiver)),
            Err(e) => Err(e),
        }
    }
}

} // verus!
