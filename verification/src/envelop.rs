//! Envelopes: one message, and maybe the channel on which its answer is
//! expected, behind one interface that hides the type of the message.

use vstd::prelude::*;
use crate::context::Context;
use crate::handler::{handled, Handler, Message};
use crate::reply::reply_abandoned;
use crate::service::Service;

verus! {

/// What an envelope holds, as far as dispatching it is concerned.
pub struct Slot {
    /// The message is still inside.
    pub loaded: bool,
    /// A reply channel is inside.
    pub answerable: bool,
}

/// How one dispatch of an envelope ended.
#[derive(Debug, Clone, Copy, PartialEq, Eq, Structural)]
pub enum Dispatch {
    /// The envelope had been dispatched before: nothing was done.
    Spent,
    /// The handler ran; no answer was asked for.
    Handled,
    /// The handler ran and its answer went into the reply channel.
    Replied,
    /// The handler ran, but the caller had let go of the reply channel: the
    /// answer was dropped.
    Unclaimed,
    /// The handler ran while the service was paused: the answer was dropped
    /// and the reply channel stays in the envelope, unused, until the caller
    /// lets go of it.
    Withheld,
}

impl Slot {
    /// An envelope that was dispatched while paused and still keeps the
    /// caller's reply channel.
    pub open spec fn withholding(self) -> bool {
        !self.loaded && self.answerable
    }

    /// The slot after one dispatch, where `paused` is the service's flag
    /// once the handler has returned.
    pub open spec fn dispatched(self, paused: bool) -> Slot {
        if self.loaded {
            Slot { loaded: false, answerable: self.answerable && paused }
        } else {
            self
        }
    }

    /// What one dispatch reports, where `paused` is the service's flag once
    /// the handler has returned and `claimed` tells whether the caller still
    /// held its end when the answer was sent.
    pub open spec fn outcome(self, paused: bool, claimed: bool) -> Dispatch {
        if !self.loaded {
            Dispatch::Spent
        } else if !self.answerable {
            Dispatch::Handled
        } else if paused {
            Dispatch::Withheld
        } else if claimed {
            Dispatch::Replied
        } else {
            Dispatch::Unclaimed
        }
    }

    /// The slot after the loop has asked whether a withheld reply is let go,
    /// where `gone` tells whether the caller has closed its end.
    pub open spec fn released(self, gone: bool) -> Slot {
        if self.withholding() && gone {
            Slot { loaded: false, answerable: false }
        } else {
            self
        }
    }
}

impl Dispatch {
    /// Whether this dispatch found the message still in the envelope.
    pub open spec fn found_message(self) -> bool {
        !(self is Spent)
    }

    /// How a dispatch that tried to deliver its answer ended, given what the
    /// reply channel said to the attempt.
    pub fn delivery<R>(sent: Result<(), R>) -> (d: Dispatch)
        ensures
            sent is Ok ==> d == Dispatch::Replied,
            sent is Err ==> d == Dispatch::Unclaimed,
    {
        match sent {
            Ok(()) => Dispatch::Replied,
            Err(_) => Dispatch::Unclaimed,
        }
    }
}

/// An envelope gives its message out once: whatever the first dispatch
/// found, it leaves the slot empty, and a second dispatch reports `Spent`
/// and changes nothing.
pub proof fn lemma_second_dispatch_is_spent(slot: Slot, paused: bool, paused_later: bool, claimed: bool)
    ensures
        !slot.dispatched(paused).loaded,
        slot.dispatched(paused).outcome(paused_later, claimed) == Dispatch::Spent,
        slot.dispatched(paused).dispatched(paused_later) == slot.dispatched(paused),
{
}

/// A dispatch reports that it found the message exactly when the slot
/// was loaded, whatever else holds.
pub proof fn lemma_message_found_iff_loaded(slot: Slot, paused: bool, claimed: bool)
    ensures
        slot.outcome(paused, claimed).found_message() <==> slot.loaded,
{
}

/// A call that is dispatched while the service is paused is handled, but
/// its answer is never sent: the reply channel stays in the envelope until
/// the caller lets go, and is dropped then.
pub proof fn lemma_paused_call_is_withheld(slot: Slot, claimed: bool)
    requires
        slot.loaded,
        slot.answerable,
    ensures
        slot.outcome(true, claimed) == Dispatch::Withheld,
        slot.dispatched(true).withholding(),
        slot.dispatched(true).released(false) == slot.dispatched(true),
        slot.dispatched(true).released(true) == (Slot { loaded: false, answerable: false }),
{
}

/// A message that was sent without a reply channel is handled the same
/// way whether the service is paused or not.
pub proof fn lemma_send_ignores_pause(slot: Slot, paused: bool, claimed: bool)
    requires
        slot.loaded,
        !slot.answerable,
    ensures
        slot.outcome(paused, claimed) == Dispatch::Handled,
        slot.dispatched(paused) == (Slot { loaded: false, answerable: false }),
{
}

/// The one capability that the run loop needs of an envelope, whatever the
/// type of the message inside.
pub(crate) trait EnvelopProxy<S>: Send {
    /// What the envelope holds.
    spec fn slot(&self) -> Slot;

    /// Whether one run of the handler on the message inside can lead from
    /// `before` to `after`. False of an envelope without its message.
    spec fn effect(&self, before: S, ctx_before: Context<S>, after: S, ctx_after: Context<S>) -> bool;

    /// Takes the message out and runs the service's handler on it, then
    /// settles the answer: dropped if none was asked for, kept back if the
    /// service is paused by then, sent otherwise.
    ///
    /// An envelope gives its message out once. A second dispatch finds the
    /// slot empty and touches neither the service nor the context.
    fn handle(&mut self, svc: &mut S, ctx: &mut Context<S>) -> (d: Dispatch)
        ensures
            final(self).slot() == old(self).slot().dispatched(final(ctx).paused()),
            d == old(self).slot().outcome(final(ctx).paused(), true) || d == old(self).slot().outcome(
                final(ctx).paused(),
                false,
            ),
            old(self).slot().loaded ==> old(self).effect(*old(svc), *old(ctx), *final(svc), *final(ctx)),
            !old(self).slot().loaded ==> *final(svc) == *old(svc) && *final(ctx) == *old(ctx),
    ;

    /// Asks whether a reply that this envelope keeps back has been let go by
    /// its caller, and drops the channel if so. `true` means that the
    /// envelope keeps nothing back (any more).
    fn poll_released(&mut self, cx: &mut core::task::Context<'_>) -> (free: bool)
        ensures
            final(self).slot() == old(self).slot().released(true) || final(self).slot() == old(
                self,
            ).slot().released(false),
            free == !final(self).slot().withholding(),
    ;
}

/// A message with the sending end of its reply channel, if its sender asked
/// for an answer.
pub(crate) struct EnvelopWithMessage<M: Message> {
    message: Option<M>,
    result_channel: Option<tokio::sync::oneshot::Sender<M::Result>>,
}

impl<M: Message> EnvelopWithMessage<M> {
    /// The message, while it has not been handled.
    pub(crate) closed spec fn message(&self) -> Option<M> {
        self.message
    }

    /// The reply channel, while the envelope holds one.
    pub(crate) closed spec fn channel(&self) -> Option<tokio::sync::oneshot::Sender<M::Result>> {
        self.result_channel
    }

    /// What the two fields amount to.
    pub(crate) open spec fn contents(&self) -> Slot {
        Slot { loaded: self.message() is Some, answerable: self.channel() is Some }
    }

    /// Puts `message` in an envelope of its own type.
    pub(crate) fn new(message: M, result_channel: Option<tokio::sync::oneshot::Sender<M::Result>>) -> (e: Self)
        ensures
            e.message() == Some(message),
            e.channel() == result_channel,
    {
        EnvelopWithMessage { message: Some(message), result_channel }
    }

    /// Settles the answer that the handler gave to this envelope's message:
    /// dropped if no reply channel is inside, kept back with the channel if
    /// the service is paused, sent into the channel otherwise.
    ///
    /// `run` names the run of the handler that gave `answer`: the service,
    /// the message and the context before, the service and the context
    /// after. Nothing but that run's answer is accepted here, so nothing
    /// else can reach the reply channel.
    fn conclude<S: Handler<M>>(
        &mut self,
        answer: M::Result,
        paused: bool,
        Ghost(run): Ghost<(S, M, Context<S>, S, Context<S>)>,
    ) -> (d: Dispatch)
        requires
            old(self).message() is None,
            S::handles(run.0, run.1, run.2, run.3, run.4, answer),
        ensures
            final(self).message() is None,
            d == (Slot { loaded: true, answerable: old(self).channel() is Some }).outcome(paused, true) || d == (
            Slot { loaded: true, answerable: old(self).channel() is Some }).outcome(paused, false),
            d is Withheld ==> final(self).channel() == old(self).channel(),
            !(d is Withheld) ==> final(self).channel() is None,
    {
        match self.result_channel.take() {
            None => Dispatch::Handled,
            Some(channel) => {
                if paused {
                    self.result_channel = Some(channel);
                    Dispatch::Withheld
                } else {
                    Dispatch::delivery(channel.send(answer))
                }
            },
        }
    }

    /// Acts on what the reply channel said when asked whether the caller
    /// has gone: an envelope that keeps a reply back drops the channel if
    /// the caller has gone and keeps it if not; any other envelope is left
    /// as it is. `true` means that the envelope keeps nothing back.
    fn let_go(&mut self, gone: bool) -> (free: bool)
        ensures
            final(self).contents() == old(self).contents().released(gone),
            final(self).message() == old(self).message(),
            !(old(self).contents().withholding() && gone) ==> final(self).channel() == old(self).channel(),
            free == !final(self).contents().withholding(),
    {
        if self.message.is_some() {
            return true;
        }
        match self.result_channel.take() {
            None => true,
            Some(channel) => {
                if gone {
                    true
                } else {
                    self.result_channel = Some(channel);
                    false
                }
            },
        }
    }
}

impl<S, M> EnvelopProxy<S> for EnvelopWithMessage<M> where
    S: Handler<M>,
    M: Message + Send,
    M::Result: Send,
 {
    open spec fn slot(&self) -> Slot {
        self.contents()
    }

    open spec fn effect(&self, before: S, ctx_before: Context<S>, after: S, ctx_after: Context<S>) -> bool {
        self.message() matches Some(message) && handled::<S, M>(before, message, ctx_before, after, ctx_after)
    }

    fn handle(&mut self, svc: &mut S, ctx: &mut Context<S>) -> (d: Dispatch)
        ensures
            final(self).message() is None,
            d is Withheld || d is Spent ==> final(self).channel() == old(self).channel(),
            !(d is Withheld || d is Spent) ==> final(self).channel() is None,
    {
        match self.message.take() {
            None => Dispatch::Spent,
            Some(message) => {
                let ghost before = (*svc, message, *ctx);
                let answer = svc.handler(message, ctx);
                let paused = ctx.is_paused();
                self.conclude::<S>(answer, paused, Ghost((before.0, before.1, before.2, *svc, *ctx)))
            },
        }
    }

    fn poll_released(&mut self, cx: &mut core::task::Context<'_>) -> (free: bool) {
        if self.message.is_some() {
            return true;
        }
        match self.result_channel.take() {
            None => true,
            Some(mut channel) => {
                let gone = reply_abandoned(&mut channel, cx);
                self.result_channel = Some(channel);
                self.let_go(gone)
            },
        }
    }
}

/// An envelope as the mailbox carries it: the type of the message is
/// forgotten, only the service that it is for is known.
#[verifier::reject_recursive_types(S)]
pub struct Envelope<S>(Box<dyn EnvelopProxy<S>>);

impl<S: Service> Envelope<S> {
    /// Wraps `message`, with the sending end of a reply channel if an answer
    /// is wanted. What a dispatch of the envelope does to a service is what
    /// the service's handler does with this message.
    pub fn new<M>(message: M, result_channel: Option<tokio::sync::oneshot::Sender<M::Result>>) -> (e: Self) where
        S: Handler<M>,
        M: Message + Send + 'static,
        M::Result: Send,

        ensures
            e.slot() == (Slot { loaded: true, answerable: result_channel is Some }),
            forall|before: S, ctx_before: Context<S>, after: S, ctx_after: Context<S>|
                #[trigger] e.effect(before, ctx_before, after, ctx_after) == handled::<S, M>(
                    before,
                    message,
                    ctx_before,
                    after,
                    ctx_after,
                ),
    {
        Envelope(Box::new(EnvelopWithMessage::new(message, result_channel)))
    }
}

impl<S> Envelope<S> {
    /// What the envelope holds.
    pub closed spec fn slot(&self) -> Slot {
        self.0.slot()
    }

    /// Whether one run of the handler on the message inside can lead from
    /// `before` to `after`. False of an envelope without its message.
    pub closed spec fn effect(&self, before: S, ctx_before: Context<S>, after: S, ctx_after: Context<S>) -> bool {
        self.0.effect(before, ctx_before, after, ctx_after)
    }

    /// Whether one dispatch of this envelope can lead from `before` to
    /// `after` and report `d`: the report is the one that the slot and the
    /// paused flag call for, a loaded envelope has its handler run, an
    /// empty one touches nothing.
    pub open spec fn dispatches(
        &self,
        before: S,
        ctx_before: Context<S>,
        after: S,
        ctx_after: Context<S>,
        d: Dispatch,
    ) -> bool {
        &&& d == self.slot().outcome(ctx_after.paused(), true) || d == self.slot().outcome(
            ctx_after.paused(),
            false,
        )
        &&& self.slot().loaded ==> self.effect(before, ctx_before, after, ctx_after)
        &&& !self.slot().loaded ==> after == before && ctx_after == ctx_before
    }

    /// Takes the message out and runs the service's handler on it, then
    /// settles the answer: dropped if none was asked for, kept back if the
    /// service is paused by then, sent otherwise.
    ///
    /// An envelope gives its message out once. A second dispatch finds the
    /// slot empty and touches neither the service nor the context.
    pub fn handle(&mut self, svc: &mut S, ctx: &mut Context<S>) -> (d: Dispatch)
        ensures
            final(self).slot() == old(self).slot().dispatched(final(ctx).paused()),
            old(self).dispatches(*old(svc), *old(ctx), *final(svc), *final(ctx), d),
    {
        self.0.handle(svc, ctx)
    }

    /// Asks whether a reply that this envelope keeps back has been let go by
    /// its caller, and drops the channel if so. `true` means that the
    /// envelope keeps nothing back (any more).
    pub fn poll_released(&mut self, cx: &mut core::task::Context<'_>) -> (free: bool)
        ensures
            final(self).slot() == old(self).slot().released(true) || final(self).slot() == old(
                self,
            ).slot().released(false),
            free == !final(self).slot().withholding(),
    {
        self.0.poll_released(cx)
    }
}

} // verus!
