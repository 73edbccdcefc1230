//! The service as a whole, on paper.
//!
//! A world is a mailbox, the loop that empties it, and a record of what has
//! happened. The mailbox is the queue that the channel is taken to be: first
//! in, first out, closed by `stop` or by the loss of every address, emptied
//! before it reports its end. The loop and the envelopes move as
//! [`LoopState`] and [`Slot`] say, which is what the contracts of
//! `RunLoop::step` and `Envelope::handle` promise of the code. The lemmas at
//! the end hold of every history that such a world can have.

use vstd::prelude::*;
use crate::envelop::{Dispatch, Slot};
use crate::error::Error;
use crate::lifecycle::{absorbs, resumes, Look, LoopState, Phase, Step};

verus! {

/// A queued envelope.
pub struct Parcel {
    /// Its place among the envelopes that the mailbox has taken: `0` for
    /// the first.
    pub serial: nat,
    /// Whether its sender waits for an answer.
    pub call: bool,
}

/// A mailbox with its service, and what has happened so far.
#[verifier::ext_equal]
pub struct World {
    /// The envelopes that wait, the oldest first.
    pub queue: Seq<Parcel>,
    /// The receiving side has been closed.
    pub closed: bool,
    /// The context itself keeps the mailbox open.
    pub anchored: bool,
    /// How many addresses are alive.
    pub addresses: nat,
    /// Where the loop is.
    pub lifecycle: LoopState,
    /// The service's paused flag.
    pub paused: bool,
    /// How many envelopes the mailbox has taken.
    pub accepted: nat,
    /// The serials of the envelopes whose handler has run, in that order.
    pub handled: Seq<nat>,
    /// The serials of the calls whose answer went into the reply channel.
    pub answered: Set<nat>,
}

/// One thing that happens to a world.
pub enum Event {
    /// A producer posts an envelope: a `send`, or a `call` if `call` is set.
    Post { call: bool },
    /// An address is cloned, or minted by the context.
    Mint,
    /// An address is dropped.
    Drop,
    /// The owner of the context pauses or stops it before the loop starts.
    Preset { pauses: bool, stops: bool },
    /// The loop takes one step. The hook or handler that runs in it may
    /// pause or stop the service; `claimed` tells whether the caller of a
    /// handled call still holds its end of the reply channel.
    Turn { step: Step, pauses: bool, stops: bool, claimed: bool },
}

impl Parcel {
    /// The envelope as it lies in the queue.
    pub open spec fn slot(self) -> Slot {
        Slot { loaded: true, answerable: self.call }
    }
}

impl World {
    /// The world of a context that has just been made.
    pub open spec fn genesis() -> World {
        World {
            queue: Seq::empty(),
            closed: false,
            anchored: true,
            addresses: 0,
            lifecycle: LoopState::initial(),
            paused: false,
            accepted: 0,
            handled: Seq::empty(),
            answered: Set::empty(),
        }
    }

    /// Whether the mailbox takes envelopes.
    pub open spec fn accepting(self) -> bool {
        !self.closed && (self.anchored || self.addresses > 0)
    }

    /// What a producer that posts now is told.
    pub open spec fn told(self) -> Result<(), Error> {
        crate::address::admission(self.accepting())
    }

    /// Whether `event` can happen in this world.
    pub open spec fn permits(self, event: Event) -> bool {
        match event {
            Event::Post { .. } => true,
            Event::Mint => true,
            Event::Drop => self.addresses > 0,
            Event::Preset { .. } => self.lifecycle.phase is Starting,
            Event::Turn { step, pauses, stops, claimed } => {
                &&& self.lifecycle.permits(step)
                &&& match step {
                    Step::Started => true,
                    Step::Finished => true,
                    Step::Dispatched(d) => {
                        &&& self.queue.len() > 0
                        &&& d == self.queue[0].slot().outcome(self.paused || pauses, claimed)
                    },
                    Step::Exhausted => self.queue.len() == 0 && !self.accepting() && !pauses && !stops,
                    Step::Waiting => !pauses && !stops,
                    Step::Released => !pauses && !stops,
                    Step::Halted => !pauses && !stops,
                }
            },
        }
    }

    /// The world after `event`.
    pub open spec fn after(self, event: Event) -> World {
        match event {
            Event::Post { call } => if self.accepting() {
                World {
                    queue: self.queue.push(Parcel { serial: self.accepted, call }),
                    accepted: self.accepted + 1,
                    ..self
                }
            } else {
                self
            },
            Event::Mint => if self.anchored || self.addresses > 0 {
                World { addresses: self.addresses + 1, ..self }
            } else {
                self
            },
            Event::Drop => World { addresses: (self.addresses - 1) as nat, ..self },
            Event::Preset { pauses, stops } => World {
                paused: self.paused || pauses,
                closed: self.closed || stops,
                ..self
            },
            Event::Turn { step, pauses, stops, claimed } => {
                let turned = World {
                    lifecycle: self.lifecycle.after(step),
                    paused: self.paused || pauses,
                    closed: self.closed || stops,
                    anchored: self.anchored && !(step is Started),
                    ..self
                };
                match step {
                    Step::Dispatched(d) => World {
                        queue: self.queue.drop_first(),
                        handled: self.handled.push(self.queue[0].serial),
                        answered: if d is Replied {
                            self.answered.insert(self.queue[0].serial)
                        } else {
                            self.answered
                        },
                        ..turned
                    },
                    _ => turned,
                }
            },
        }
    }

    /// Whether a look into the mailbox of this world can find `look`: the
    /// head of the queue if there is one, the end if the mailbox is empty
    /// and takes nothing more, and nothing at any time.
    pub open spec fn yields(self, look: Look) -> bool {
        match look {
            Look::Idle => true,
            Look::Next(slot) => self.queue.len() > 0 && slot == self.queue[0].slot(),
            Look::Exhausted => self.queue.len() == 0 && !self.accepting(),
        }
    }

    /// The step `step` of the loop as an event of this world, where
    /// `paused` is the service's flag once the step is over.
    pub open spec fn turn(self, step: Step, paused: bool, stops: bool, claimed: bool) -> Event {
        Event::Turn { step, pauses: paused && !self.paused, stops, claimed }
    }

    /// What every world that can come about looks like.
    pub open spec fn consistent(self) -> bool {
        &&& self.lifecycle.wf()
        &&& self.handled.len() + self.queue.len() == self.accepted
        &&& forall|i: int| 0 <= i < self.handled.len() ==> self.handled[i] == i
        &&& forall|i: int|
            0 <= i < self.queue.len() ==> (#[trigger] self.queue[i]).serial == self.handled.len() + i
        &&& forall|s: nat| self.answered.contains(s) ==> s < self.handled.len()
        &&& self.anchored <==> self.lifecycle.phase is Starting
        &&& self.lifecycle.phase is Draining || self.lifecycle.phase is Stopped ==> self.queue.len() == 0
            && !self.accepting()
    }

    /// The world after the first `n` of `events`, starting from a fresh
    /// context.
    pub open spec fn reached(events: Seq<Event>, n: nat) -> World
        decreases n,
    {
        if n == 0 {
            World::genesis()
        } else {
            World::reached(events, (n - 1) as nat).after(events[n - 1])
        }
    }

    /// Whether `events` can happen one after the other, starting from a
    /// fresh context.
    pub open spec fn possible(events: Seq<Event>) -> bool {
        forall|i: nat| i < events.len() ==> #[trigger] World::reached(events, i).permits(events[i as int])
    }
}

/// What the loop does with what the mailbox yields is a turn of the
/// world: if the look is one that the world's mailbox can yield, and the
/// step is the one that the loop reports for it, then the world permits
/// that step, and after it the envelope that was found is gone from the
/// queue and counted as handled. The handler may pause and stop the
/// service; it is taken not to undo a pause.
pub proof fn lemma_absorbed_look_is_a_turn(w: World, look: Look, paused: bool, stops: bool, out: Step)
    requires
        w.lifecycle == (LoopState { phase: Phase::Running, stalled: false }),
        w.yields(look),
        absorbs(look, paused, out),
        w.paused ==> paused,
        !(look is Next) ==> paused == w.paused && !stops,
    ensures
        exists|claimed: bool| #[trigger] w.permits(w.turn(out, paused, stops, claimed)),
        forall|claimed: bool|
            ({
                let v = #[trigger] w.after(w.turn(out, paused, stops, claimed));
                &&& v.lifecycle == w.lifecycle.after(out)
                &&& v.paused == paused
                &&& v.closed == (w.closed || stops)
                &&& look is Next ==> v.queue == w.queue.drop_first() && v.handled == w.handled.push(
                    w.queue[0].serial,
                )
                &&& !(look is Next) ==> v.queue == w.queue && v.handled == w.handled
            }),
{
    match look {
        Look::Next(slot) => {
            let d = out->Dispatched_0;
            if d == slot.outcome(paused, true) {
                assert(w.permits(w.turn(out, paused, stops, true)));
            } else {
                assert(w.permits(w.turn(out, paused, stops, false)));
            }
        },
        _ => {
            assert(w.permits(w.turn(out, paused, stops, true)));
        },
    }
}

/// What a stalled loop does with its envelope's answer is a turn of the
/// world, and one that changes nothing but whether the loop is stalled.
pub proof fn lemma_resumed_stall_is_a_turn(w: World, free: bool, out: Step)
    requires
        w.lifecycle == (LoopState { phase: Phase::Running, stalled: true }),
        resumes(free, out),
    ensures
        w.permits(Event::Turn { step: out, pauses: false, stops: false, claimed: false }),
        w.after(Event::Turn { step: out, pauses: false, stops: false, claimed: false }) == (World {
            lifecycle: LoopState { phase: Phase::Running, stalled: !free },
            ..w
        }),
{
}

/// One event leads from a consistent world to a consistent world.
pub proof fn lemma_consistency_is_kept(w: World, event: Event)
    requires
        w.consistent(),
        w.permits(event),
    ensures
        w.after(event).consistent(),
{
    let v = w.after(event);
    match event {
        Event::Post { call } => {},
        Event::Mint => {},
        Event::Drop => {},
        Event::Preset { pauses, stops } => {},
        Event::Turn { step, pauses, stops, claimed } => {
            match step {
                Step::Dispatched(d) => {
                    assert(w.queue[0].serial == w.handled.len());
                    assert forall|i: int| 0 <= i < v.queue.len() implies (#[trigger] v.queue[i]).serial
                        == v.handled.len() + i by {
                        assert(v.queue[i] == w.queue[i + 1]);
                    }
                },
                _ => {},
            }
        },
    }
}

/// Every world that a history reaches is consistent.
pub proof fn lemma_histories_are_consistent(events: Seq<Event>, n: nat)
    requires
        World::possible(events),
        n <= events.len(),
    ensures
        World::reached(events, n).consistent(),
    decreases n,
{
    if n > 0 {
        let m: nat = (n - 1) as nat;
        lemma_histories_are_consistent(events, m);
        assert(World::reached(events, m).permits(events[m as int]));
        lemma_consistency_is_kept(World::reached(events, m), events[m as int]);
    }
}

/// The handler runs on the envelopes in the order in which the mailbox took
/// them, once on each and skipping none: the envelopes handled so far are
/// the first that were taken, those that wait are the rest, and when the
/// loop has stopped none is left.
pub proof fn lemma_handled_once_in_order(events: Seq<Event>, n: nat)
    requires
        World::possible(events),
        n <= events.len(),
    ensures
        ({
            let w = World::reached(events, n);
            &&& forall|i: int| 0 <= i < w.handled.len() ==> w.handled[i] == i
            &&& forall|i: int| 0 <= i < w.queue.len() ==> (#[trigger] w.queue[i]).serial == w.handled.len() + i
            &&& w.handled.len() + w.queue.len() == w.accepted
            &&& w.lifecycle.phase is Stopped ==> w.handled.len() == w.accepted
        }),
{
    lemma_histories_are_consistent(events, n);
}

/// A post to a mailbox that does not take envelopes is told
/// `ServiceStoped` and leaves no trace: nothing is queued, so nothing is
/// handled or answered on its account later.
pub proof fn lemma_refused_post_leaves_no_trace(w: World, call: bool)
    requires
        !w.accepting(),
    ensures
        w.told() == Err::<(), Error>(Error::ServiceStoped),
        w.after(Event::Post { call }) == w,
{
}

/// A mailbox that takes envelopes queues the post and tells the producer
/// so.
pub proof fn lemma_accepted_post_is_queued(w: World, call: bool)
    requires
        w.accepting(),
    ensures
        w.told() == Ok::<(), Error>(()),
        w.after(Event::Post { call }).queue == w.queue.push(Parcel { serial: w.accepted, call }),
{
}

/// Once the receiving side is closed it stays closed: every later post is
/// refused.
pub proof fn lemma_closed_for_good(events: Seq<Event>, m: nat, n: nat)
    requires
        World::possible(events),
        m <= n <= events.len(),
        World::reached(events, m).closed,
    ensures
        World::reached(events, n).closed,
        World::reached(events, n).told() == Err::<(), Error>(Error::ServiceStoped),
    decreases n,
{
    if m < n {
        lemma_closed_for_good(events, m, (n - 1) as nat);
    }
}

/// Once the loop has stopped, whether by `stop` or because every address
/// was dropped, every post is refused.
pub proof fn lemma_stopped_loop_refuses(events: Seq<Event>, n: nat)
    requires
        World::possible(events),
        n <= events.len(),
        World::reached(events, n).lifecycle.phase is Stopped,
    ensures
        World::reached(events, n).told() == Err::<(), Error>(Error::ServiceStoped),
{
    lemma_histories_are_consistent(events, n);
}

/// A call that is dispatched while the service is paused has its handler
/// run, and its answer withheld: the loop stalls, and nothing goes into the
/// reply channel.
pub proof fn lemma_paused_call_is_handled_unanswered(events: Seq<Event>, n: nat)
    requires
        World::possible(events),
        n < events.len(),
        events[n as int] matches Event::Turn { step: Step::Dispatched(_), pauses, .. }
            && World::reached(events, n).queue[0].call && (World::reached(events, n).paused || pauses),
    ensures
        events[n as int] matches Event::Turn { step: Step::Dispatched(d), .. } && d == Dispatch::Withheld,
        ({
            let before = World::reached(events, n);
            let after = World::reached(events, (n + 1) as nat);
            &&& after.handled == before.handled.push(before.queue[0].serial)
            &&& !after.answered.contains(before.queue[0].serial)
            &&& after.lifecycle.stalled
            &&& after.paused
        }),
{
    lemma_histories_are_consistent(events, n);
    assert(World::reached(events, n).permits(events[n as int]));
}

/// Whether a handled call was answered is settled when it is handled: no
/// later event changes it.
pub proof fn lemma_answer_is_settled_at_dispatch(events: Seq<Event>, m: nat, n: nat, serial: nat)
    requires
        World::possible(events),
        m <= n <= events.len(),
        serial < World::reached(events, m).handled.len(),
    ensures
        serial < World::reached(events, n).handled.len(),
        World::reached(events, n).answered.contains(serial) == World::reached(events, m).answered.contains(
            serial,
        ),
    decreases n,
{
    if m < n {
        let k: nat = (n - 1) as nat;
        lemma_answer_is_settled_at_dispatch(events, m, k, serial);
        lemma_histories_are_consistent(events, k);
        assert(World::reached(events, k).permits(events[k as int]));
    }
}

} // verus!
