//! The context of a running service, and the loop that runs it.

use vstd::prelude::*;
use crate::address::Address;
use crate::envelop::{Dispatch, Envelope};
use crate::lifecycle::{absorbs, resumes, LoopState, Phase, Step};
use crate::mailbox::{open, Inlet, Intake, Minter, Outlet};
use crate::service::Service;

verus! {

/// What a service holds of its own mailbox while it runs: the receiving
/// side, the means to mint addresses, and the two switches `pause` and
/// `stop`.
#[verifier::reject_recursive_types(S)]
pub struct Context<S> {
    /// Keeps the mailbox open from the moment it is made until the loop has
    /// started, so that a mailbox without any address yet is not taken for
    /// an abandoned one.
    keeper: Option<Outlet<S>>,
    minter: Minter<S>,
    inlet: Inlet<S>,
    paused: bool,
    stop_requested: bool,
}

impl<S> Context<S> {
    /// Whether `pause` has been called.
    pub closed spec fn paused(&self) -> bool {
        self.paused
    }

    /// Whether `stop` has been called.
    pub closed spec fn stop_requested(&self) -> bool {
        self.stop_requested
    }

    /// Whether the context itself still keeps the mailbox open.
    pub closed spec fn anchored(&self) -> bool {
        self.keeper is Some
    }

    /// The address that an anchored context itself holds on its mailbox.
    pub closed spec fn home(&self) -> Address<S> {
        Address::around(self.keeper->0)
    }

    /// This context once it has let go of its own hold on the mailbox;
    /// nothing else differs.
    pub closed spec fn released(self) -> Context<S> {
        Context { keeper: None, ..self }
    }

    /// Letting go changes neither flag, and leaves the context unanchored.
    pub proof fn lemma_released(self)
        ensures
            !self.released().anchored(),
            self.released().paused() == self.paused(),
            self.released().stop_requested() == self.stop_requested(),
    {
    }

    /// Whether the two contexts hold the same ends of the same mailbox.
    pub closed spec fn same_mailbox(&self, other: &Self) -> bool {
        self.keeper == other.keeper && self.minter == other.minter && self.inlet == other.inlet
    }

    /// Makes a context around a fresh mailbox: open, not paused.
    pub fn new() -> (ctx: Self)
        ensures
            !ctx.paused(),
            !ctx.stop_requested(),
            ctx.anchored(),
    {
        let (outlet, inlet) = open::<S>();
        let minter = outlet.downgrade();
        Context { keeper: Some(outlet), minter, inlet, paused: false, stop_requested: false }
    }

    /// Mints an address of this service's mailbox.
    ///
    /// While the context is anchored, the address is a clone of the one
    /// that the context holds itself. Once the loop runs, the mailbox lives
    /// on the addresses that are out: the new one is minted from them, and
    /// if all of them are gone, so is the mailbox, and the address that
    /// comes back is one on which every operation fails with
    /// `ServiceStoped`.
    pub fn addr(&self) -> (address: Address<S>)
        ensures
            self.anchored() ==> address == self.home(),
    {
        match &self.keeper {
            Some(outlet) => Address::over(outlet.duplicate()),
            None => Address::minted(self.minter.upgrade()),
        }
    }

    /// Sets the paused flag. Envelopes are still taken and handled; answers
    /// to calls are kept back from then on.
    pub fn pause(&mut self)
        ensures
            final(self).paused(),
            final(self).stop_requested() == old(self).stop_requested(),
            final(self).anchored() == old(self).anchored(),
            final(self).home() == old(self).home(),
            final(self).same_mailbox(old(self)),
    {
        self.paused = true;
    }

    /// Closes the receiving side of the mailbox: what is queued will still
    /// be handled, nothing more is taken in.
    pub fn stop(&mut self)
        ensures
            final(self).stop_requested(),
            final(self).paused() == old(self).paused(),
            final(self).anchored() == old(self).anchored(),
            final(self).home() == old(self).home(),
    {
        self.inlet.close();
        self.stop_requested = true;
    }

    /// Whether `pause` has been called.
    pub fn is_paused(&self) -> (paused: bool)
        ensures
            paused == self.paused(),
    {
        self.paused
    }

    /// Whether `stop` has been called.
    pub fn is_stop_requested(&self) -> (requested: bool)
        ensures
            requested == self.stop_requested(),
    {
        self.stop_requested
    }

    /// Lets go of the handle that kept the mailbox open before the loop ran.
    pub(crate) fn release(&mut self)
        ensures
            *final(self) == old(self).released(),
    {
        self.keeper = None;
    }

    /// Looks into the mailbox once.
    pub(crate) fn poll_next(&mut self, cx: &mut core::task::Context<'_>) -> (intake: Intake<S>)
        ensures
            final(self).paused() == old(self).paused(),
            final(self).stop_requested() == old(self).stop_requested(),
            final(self).anchored() == old(self).anchored(),
            final(self).home() == old(self).home(),
    {
        self.inlet.poll_next(cx)
    }
}

impl<S> Default for Context<S> {
    fn default() -> (ctx: Self)
        ensures
            !ctx.paused(),
            !ctx.stop_requested(),
            ctx.anchored(),
    {
        Context::new()
    }
}

impl<S> Context<S> {
    /// Binds `service` to this context. Hands back an address of the mailbox
    /// and the loop, which has done nothing yet: whoever holds it drives it
    /// with [`RunLoop::step`].
    pub fn run(self, service: S) -> (begun: (Address<S>, RunLoop<S>))
        ensures
            begun.1@ == LoopState::initial(),
            begun.1.service() == service,
            begun.1.context() == self,
            self.anchored() ==> begun.0 == self.home(),
    {
        let address = self.addr();
        (address, RunLoop { service, ctx: self, gear: Gear::Starting })
    }
}

/// Where a loop is, together with what it holds there.
#[verifier::reject_recursive_types(S)]
enum Gear<S> {
    Starting,
    Running,
    /// Running, with an envelope that was dispatched while the service was
    /// paused and still holds its caller's reply channel.
    Stalled(Envelope<S>),
    Draining,
    Stopped,
}

impl<S> Gear<S> {
    spec fn state(self) -> LoopState {
        match self {
            Gear::Starting => LoopState { phase: Phase::Starting, stalled: false },
            Gear::Running => LoopState { phase: Phase::Running, stalled: false },
            Gear::Stalled(_) => LoopState { phase: Phase::Running, stalled: true },
            Gear::Draining => LoopState { phase: Phase::Draining, stalled: false },
            Gear::Stopped => LoopState { phase: Phase::Stopped, stalled: false },
        }
    }
}

/// A service with its context, and where the two are in their life.
///
/// The loop does one thing per call of [`RunLoop::step`] and never waits:
/// where it cannot go on, it says so and leaves the task's waker with
/// whatever it waits for.
#[verifier::reject_recursive_types(S)]
pub struct RunLoop<S> {
    service: S,
    ctx: Context<S>,
    gear: Gear<S>,
}

impl<S> View for RunLoop<S> {
    type V = LoopState;

    closed spec fn view(&self) -> LoopState {
        self.gear.state()
    }
}

impl<S> RunLoop<S> {
    /// The service as it is now.
    pub closed spec fn service(&self) -> S {
        self.service
    }

    /// The context as it is now.
    pub closed spec fn context(&self) -> Context<S> {
        self.ctx
    }

    /// The envelope whose reply the loop keeps back, while it is stalled.
    pub closed spec fn held(&self) -> Option<Envelope<S>> {
        match self.gear {
            Gear::Stalled(envelope) => Some(envelope),
            _ => None,
        }
    }

    /// A loop is never stalled outside its running phase, and it is
    /// stalled exactly while it holds an envelope.
    pub proof fn lemma_well_formed(&self)
        ensures
            self@.wf(),
            self@.stalled <==> self.held() is Some,
    {
    }

    /// Where the loop is in its life.
    pub fn phase(&self) -> (phase: Phase)
        ensures
            phase == self@.phase,
    {
        match &self.gear {
            Gear::Starting => Phase::Starting,
            Gear::Running => Phase::Running,
            Gear::Stalled(_) => Phase::Running,
            Gear::Draining => Phase::Draining,
            Gear::Stopped => Phase::Stopped,
        }
    }

    /// Whether the loop waits for the caller of a withheld reply.
    pub fn is_stalled(&self) -> (stalled: bool)
        ensures
            stalled == self@.stalled,
    {
        match &self.gear {
            Gear::Stalled(_) => true,
            _ => false,
        }
    }

    /// A look at the service.
    pub fn service_ref(&self) -> (service: &S)
        ensures
            *service == self.service(),
    {
        &self.service
    }

    /// A look at the context.
    pub fn context_ref(&self) -> (ctx: &Context<S>)
        ensures
            *ctx == self.context(),
    {
        &self.ctx
    }
}

impl<S: Service> RunLoop<S> {
    /// What a running loop that holds nothing does with what the mailbox
    /// yielded: it waits if there was nothing, starts draining if nothing
    /// will ever come, and dispatches an envelope at once. An envelope
    /// whose reply was withheld is kept, with the reply channel inside,
    /// and stalls the loop.
    fn absorb(&mut self, intake: Intake<S>) -> (out: Step)
        requires
            old(self)@ == (LoopState { phase: Phase::Running, stalled: false }),
        ensures
            absorbs(intake.look(), final(self).context().paused(), out),
            final(self)@ == old(self)@.after(out),
            intake is Idle ==> {
                &&& out == Step::Waiting
                &&& final(self).service() == old(self).service()
                &&& final(self).context() == old(self).context()
            },
            intake is Exhausted ==> {
                &&& out == Step::Exhausted
                &&& final(self).service() == old(self).service()
                &&& final(self).context() == old(self).context()
            },
            intake matches Intake::Next(envelope) ==> {
                &&& out matches Step::Dispatched(d)
                &&& envelope.dispatches(
                    old(self).service(),
                    old(self).context(),
                    final(self).service(),
                    final(self).context(),
                    d,
                )
                &&& d is Withheld ==> final(self).held() is Some && final(self).held()->0.slot()
                    == envelope.slot().dispatched(final(self).context().paused())
            },
    {
        match intake {
            Intake::Idle => Step::Waiting,
            Intake::Exhausted => {
                self.gear = Gear::Draining;
                Step::Exhausted
            },
            Intake::Next(mut envelope) => {
                let d = envelope.handle(&mut self.service, &mut self.ctx);
                if d == Dispatch::Withheld {
                    self.gear = Gear::Stalled(envelope);
                }
                Step::Dispatched(d)
            },
        }
    }

    /// What a loop does with the envelope that stalled it, given whether
    /// that envelope keeps nothing back any more: free, it drops the
    /// envelope and goes on; if not, it keeps the envelope and waits.
    fn resume(&mut self, envelope: Envelope<S>, free: bool) -> (out: Step)
        requires
            old(self)@ == (LoopState { phase: Phase::Running, stalled: false }),
        ensures
            resumes(free, out),
            free ==> final(self).held() is None,
            !free ==> final(self).held() == Some(envelope),
            final(self)@ == (LoopState { phase: Phase::Running, stalled: !free }),
            final(self).service() == old(self).service(),
            final(self).context() == old(self).context(),
    {
        if free {
            Step::Released
        } else {
            self.gear = Gear::Stalled(envelope);
            Step::Waiting
        }
    }

    /// Does the one thing that is due.
    ///
    /// - Starting: runs the startup hook and lets go of the context's hold
    ///   on the mailbox; the loop is running.
    /// - Running, stalled: asks the held envelope whether the caller of the
    ///   withheld reply has let go; if so the envelope is dropped and the
    ///   loop is free.
    /// - Running, free: looks into the mailbox; an envelope is dispatched at
    ///   once, and kept if its reply was withheld; a closed and empty mailbox
    ///   sends the loop draining.
    /// - Draining: runs the shutdown hook; the loop has stopped.
    /// - Stopped: nothing.
    pub fn step(&mut self, cx: &mut core::task::Context<'_>) -> (out: Step)
        ensures
            old(self)@.permits(out),
            final(self)@ == old(self)@.after(out),
            out is Started ==> {
                &&& !final(self).context().anchored()
                &&& exists|hooked: Context<S>|
                    {
                        &&& #[trigger] S::starts(old(self).service(), old(self).context(), final(self).service(), hooked)
                        &&& final(self).context() == hooked.released()
                    }
            },
            out is Finished ==> S::stops(
                old(self).service(),
                old(self).context(),
                final(self).service(),
                final(self).context(),
            ),
            out is Waiting || out is Released || out is Exhausted || out is Halted ==> {
                &&& final(self).service() == old(self).service()
                &&& final(self).context().paused() == old(self).context().paused()
                &&& final(self).context().stop_requested() == old(self).context().stop_requested()
            },
            out is Halted ==> *final(self) == *old(self),
            out matches Step::Dispatched(d) ==> {
                &&& d is Withheld ==> final(self).context().paused()
                &&& d is Replied || d is Unclaimed ==> !final(self).context().paused()
                &&& exists|envelope: Envelope<S>, polled: Context<S>|
                    {
                        &&& polled.paused() == old(self).context().paused()
                        &&& polled.stop_requested() == old(self).context().stop_requested()
                        &&& #[trigger] envelope.dispatches(
                            old(self).service(),
                            polled,
                            final(self).service(),
                            final(self).context(),
                            d,
                        )
                        &&& d is Withheld ==> final(self).held() is Some && final(self).held()->0.slot()
                            == envelope.slot().dispatched(final(self).context().paused())
                    }
            },
            old(self)@.stalled && out is Waiting ==> {
                &&& final(self).held() is Some
                &&& old(self).held() is Some
                &&& final(self).held()->0.slot().withholding()
                &&& final(self).held()->0.slot() == old(self).held()->0.slot()
            },
    {
        let mut gear = Gear::Stopped;
        core::mem::swap(&mut self.gear, &mut gear);
        match gear {
            Gear::Starting => {
                self.service.started(&mut self.ctx);
                let ghost hooked = self.ctx;
                self.ctx.release();
                self.gear = Gear::Running;
                proof {
                    hooked.lemma_released();
                    assert(S::starts(old(self).service(), old(self).context(), self.service(), hooked));
                }
                Step::Started
            },
            Gear::Stalled(mut envelope) => {
                self.gear = Gear::Running;
                let free = envelope.poll_released(cx);
                self.resume(envelope, free)
            },
            Gear::Running => {
                self.gear = Gear::Running;
                let intake = self.ctx.poll_next(cx);
                let ghost taken = intake;
                let ghost polled = self.ctx;
                let ghost before = self.service;
                let out = self.absorb(intake);
                proof {
                    match (taken, out) {
                        (Intake::Next(envelope), Step::Dispatched(d)) => {
                            assert(before == old(self).service());
                            assert(polled.stop_requested() == old(self).context().stop_requested());
                            assert(envelope.dispatches(before, polled, self.service(), self.context(), d));
                        },
                        _ => {},
                    }
                }
                out
            },
            Gear::Draining => {
                self.service.stopped(&mut self.ctx);
                self.gear = Gear::Stopped;
                Step::Finished
            },
            Gear::Stopped => Step::Halted,
        }
    }
}

} // verus!
