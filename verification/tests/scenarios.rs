use std::task::{Context as TaskContext, Waker};

use tiny_actor::{Address, Context, Dispatch, Error, Handler, Message, Pending, Phase, RunLoop, Service, Step};

/// A counter that remembers what happened to it.
struct Counter {
    count: u32,
    started: u32,
    stopped: u32,
    seen: Vec<u32>,
    last_address: Option<Address<Counter>>,
}

fn counter() -> Counter {
    Counter { count: 0, started: 0, stopped: 0, seen: Vec::new(), last_address: None }
}

impl Service for Counter {
    fn started(&mut self, _ctx: &mut Context<Self>) {
        self.started += 1;
    }

    fn stopped(&mut self, ctx: &mut Context<Self>) {
        self.stopped += 1;
        self.last_address = Some(ctx.addr());
    }
}

struct Increment;

impl Message for Increment {
    type Result = ();
}

impl Handler<Increment> for Counter {
    fn handler(&mut self, _message: Increment, _ctx: &mut Context<Self>) {
        self.count += 1;
    }
}

struct GetCount;

impl Message for GetCount {
    type Result = u32;
}

impl Handler<GetCount> for Counter {
    fn handler(&mut self, _message: GetCount, _ctx: &mut Context<Self>) -> u32 {
        self.count
    }
}

struct Note(u32);

impl Message for Note {
    type Result = usize;
}

impl Handler<Note> for Counter {
    fn handler(&mut self, message: Note, _ctx: &mut Context<Self>) -> usize {
        self.seen.push(message.0);
        self.seen.len()
    }
}

struct Pause;

impl Message for Pause {
    type Result = ();
}

impl Handler<Pause> for Counter {
    fn handler(&mut self, _message: Pause, ctx: &mut Context<Self>) {
        ctx.pause();
    }
}

struct Stop;

impl Message for Stop {
    type Result = ();
}

impl Handler<Stop> for Counter {
    fn handler(&mut self, _message: Stop, ctx: &mut Context<Self>) {
        ctx.stop();
    }
}

/// Steps the loop until it waits or has halted, and says what it did.
fn drive(run_loop: &mut RunLoop<Counter>) -> Vec<Step> {
    let mut cx = TaskContext::from_waker(Waker::noop());
    let mut steps = Vec::new();
    loop {
        let step = run_loop.step(&mut cx);
        steps.push(step);
        if step == Step::Waiting || step == Step::Halted {
            return steps;
        }
    }
}

/// What the caller of an accepted call sees once the other side is done
/// with the reply channel.
fn answer<R>(pending: Pending<R>) -> Result<R, Error> {
    Pending::settle(pending.into_receiver().blocking_recv())
}

#[test]
fn three_sends_then_a_call_reply_three() {
    let (address, mut run_loop) = counter().start();
    assert_eq!(address.send(Increment), Ok(()));
    assert_eq!(address.send(Increment), Ok(()));
    assert_eq!(address.send(Increment), Ok(()));
    let pending = address.call(GetCount).ok().expect("the mailbox is open");

    let steps = drive(&mut run_loop);
    assert_eq!(
        steps,
        vec![
            Step::Started,
            Step::Dispatched(Dispatch::Handled),
            Step::Dispatched(Dispatch::Handled),
            Step::Dispatched(Dispatch::Handled),
            Step::Dispatched(Dispatch::Replied),
            Step::Waiting,
        ]
    );
    assert_eq!(answer(pending), Ok(3));
    assert_eq!(run_loop.service_ref().count, 3);
}

#[test]
fn paused_call_sees_service_paused_and_the_loop_still_exits() {
    let (address, mut run_loop) = counter().start();
    assert_eq!(address.send(Increment), Ok(()));
    assert_eq!(address.send(Pause), Ok(()));
    let pending = address.call(Note(7)).ok().expect("the mailbox is open");
    assert_eq!(address.send(Stop), Ok(()));

    // The call is handled, its reply withheld, and the loop takes nothing
    // more while the caller holds on.
    let steps = drive(&mut run_loop);
    assert_eq!(
        steps,
        vec![
            Step::Started,
            Step::Dispatched(Dispatch::Handled),
            Step::Dispatched(Dispatch::Handled),
            Step::Dispatched(Dispatch::Withheld),
            Step::Waiting,
        ]
    );
    assert!(run_loop.is_stalled());
    assert!(run_loop.context_ref().is_paused());
    assert_eq!(run_loop.service_ref().seen, vec![7]);
    assert_eq!(drive(&mut run_loop), vec![Step::Waiting]);

    // The caller lets go: it observes the pause, not the handler's answer.
    let mut receiver = pending.into_receiver();
    receiver.close();
    assert_eq!(Pending::settle(receiver.blocking_recv()), Err(Error::ServicePaused));

    // The loop goes on, handles the stop, drains and halts.
    let steps = drive(&mut run_loop);
    assert_eq!(
        steps,
        vec![
            Step::Released,
            Step::Dispatched(Dispatch::Handled),
            Step::Exhausted,
            Step::Finished,
            Step::Halted,
        ]
    );
    assert_eq!(run_loop.phase(), Phase::Stopped);
    assert!(run_loop.context_ref().is_stop_requested());
    assert_eq!(run_loop.service_ref().stopped, 1);
    assert_eq!(address.send(Increment), Err(Error::ServiceStoped));
}

#[test]
fn dropping_every_address_stops_the_loop() {
    let (address, mut run_loop) = counter().start();
    let twin = address.clone();
    assert_eq!(twin.send(Increment), Ok(()));
    drop(address);
    drop(twin);

    let steps = drive(&mut run_loop);
    assert_eq!(
        steps,
        vec![
            Step::Started,
            Step::Dispatched(Dispatch::Handled),
            Step::Exhausted,
            Step::Finished,
            Step::Halted,
        ]
    );
    assert_eq!(run_loop.phase(), Phase::Stopped);
    assert_eq!(run_loop.service_ref().started, 1);
    assert_eq!(run_loop.service_ref().stopped, 1);
    assert_eq!(run_loop.service_ref().count, 1);
    assert!(!run_loop.context_ref().is_stop_requested());

    // Stepping a stopped loop does nothing; the hook does not run again.
    assert_eq!(drive(&mut run_loop), vec![Step::Halted]);
    assert_eq!(run_loop.service_ref().stopped, 1);
}

#[test]
fn an_open_mailbox_keeps_the_loop_waiting() {
    let (address, mut run_loop) = counter().start();
    assert_eq!(run_loop.phase(), Phase::Starting);
    assert_eq!(drive(&mut run_loop), vec![Step::Started, Step::Waiting]);
    assert_eq!(run_loop.phase(), Phase::Running);
    assert_eq!(drive(&mut run_loop), vec![Step::Waiting]);
    assert_eq!(run_loop.service_ref().started, 1);
    assert_eq!(run_loop.service_ref().stopped, 0);
    assert!(!address.is_stop());
}

#[test]
fn sends_are_handled_once_each_in_the_order_sent() {
    let (address, mut run_loop) = counter().start();
    for n in [4u32, 8, 15, 16, 23, 42] {
        assert_eq!(address.send(Note(n)), Ok(()));
    }
    assert_eq!(address.send(Stop), Ok(()));
    // Queued before the stop is handled: still drained.
    assert_eq!(address.send(Note(77)), Ok(()));

    let steps = drive(&mut run_loop);
    assert_eq!(steps.len(), 12);
    assert_eq!(steps[0], Step::Started);
    for step in &steps[1..9] {
        assert_eq!(*step, Step::Dispatched(Dispatch::Handled));
    }
    assert_eq!(steps[9..], [Step::Exhausted, Step::Finished, Step::Halted]);
    assert_eq!(run_loop.service_ref().seen, vec![4, 8, 15, 16, 23, 42, 77]);

    // Sent after the stop: refused, never handled.
    assert_eq!(address.send(Note(99)), Err(Error::ServiceStoped));
    assert_eq!(drive(&mut run_loop), vec![Step::Halted]);
    assert_eq!(run_loop.service_ref().seen, vec![4, 8, 15, 16, 23, 42, 77]);
}

#[test]
fn interleaved_producers_keep_their_own_order() {
    let (first, mut run_loop) = counter().start();
    let second = first.clone();
    assert_eq!(first.send(Note(1)), Ok(()));
    assert_eq!(second.send(Note(10)), Ok(()));
    assert_eq!(first.send(Note(2)), Ok(()));
    assert_eq!(second.send(Note(20)), Ok(()));
    drive(&mut run_loop);
    assert_eq!(run_loop.service_ref().seen, vec![1, 10, 2, 20]);
}

#[test]
fn call_after_stop_is_refused() {
    let (address, mut run_loop) = counter().start();
    assert_eq!(address.send(Increment), Ok(()));
    assert_eq!(address.send(Stop), Ok(()));
    drive(&mut run_loop);
    assert_eq!(run_loop.phase(), Phase::Stopped);
    assert!(address.is_stop());

    assert_eq!(address.call(GetCount).err(), Some(Error::ServiceStoped));
    assert_eq!(address.send(Increment), Err(Error::ServiceStoped));
    // Nothing was handled after the stop.
    assert_eq!(run_loop.service_ref().count, 1);
}

#[test]
fn send_and_call_after_the_loop_is_gone_are_refused() {
    let (address, mut run_loop) = counter().start();
    let twin = address.clone();
    assert_eq!(drive(&mut run_loop), vec![Step::Started, Step::Waiting]);
    drop(run_loop);

    assert!(address.is_stop());
    assert_eq!(address.send(Increment), Err(Error::ServiceStoped));
    assert_eq!(twin.call(GetCount).err(), Some(Error::ServiceStoped));
}

#[test]
fn a_call_whose_envelope_is_never_handled_sees_service_paused() {
    let (address, mut run_loop) = counter().start();
    assert_eq!(drive(&mut run_loop), vec![Step::Started, Step::Waiting]);
    let pending = address.call(GetCount).ok().expect("the mailbox is open");
    // The loop goes away with the envelope still queued.
    drop(run_loop);
    assert_eq!(answer(pending), Err(Error::ServicePaused));
}

#[test]
fn an_abandoned_call_is_handled_and_its_answer_dropped() {
    let (address, mut run_loop) = counter().start();
    let pending = address.call(Note(5)).ok().expect("the mailbox is open");
    drop(pending);
    let steps = drive(&mut run_loop);
    assert_eq!(steps, vec![Step::Started, Step::Dispatched(Dispatch::Unclaimed), Step::Waiting]);
    assert_eq!(run_loop.service_ref().seen, vec![5]);
    assert!(!run_loop.is_stalled());
}

#[test]
fn a_paused_service_handles_sends_without_stalling() {
    let (address, mut run_loop) = counter().start();
    assert_eq!(address.send(Pause), Ok(()));
    assert_eq!(address.send(Increment), Ok(()));
    assert_eq!(address.send(Increment), Ok(()));
    let steps = drive(&mut run_loop);
    assert_eq!(
        steps,
        vec![
            Step::Started,
            Step::Dispatched(Dispatch::Handled),
            Step::Dispatched(Dispatch::Handled),
            Step::Dispatched(Dispatch::Handled),
            Step::Waiting,
        ]
    );
    assert_eq!(run_loop.service_ref().count, 2);
    assert!(!run_loop.is_stalled());
}

#[test]
fn a_withheld_reply_holds_back_what_follows_until_the_caller_lets_go() {
    let (address, mut run_loop) = counter().start();
    assert_eq!(address.send(Pause), Ok(()));
    let pending = address.call(GetCount).ok().expect("the mailbox is open");
    assert_eq!(address.send(Increment), Ok(()));

    drive(&mut run_loop);
    assert!(run_loop.is_stalled());
    assert_eq!(run_loop.service_ref().count, 0);

    drop(pending);
    let steps = drive(&mut run_loop);
    assert_eq!(steps, vec![Step::Released, Step::Dispatched(Dispatch::Handled), Step::Waiting]);
    assert_eq!(run_loop.service_ref().count, 1);
}

#[test]
fn an_address_minted_before_the_start_reaches_the_service() {
    let ctx: Context<Counter> = Context::new();
    assert!(!ctx.is_paused());
    assert!(!ctx.is_stop_requested());
    let early = ctx.addr();
    assert_eq!(early.send(Increment), Ok(()));

    let (address, mut run_loop) = counter().start_by_context(ctx);
    assert_eq!(address.send(Increment), Ok(()));
    let pending = early.call(GetCount).ok().expect("the mailbox is open");
    drive(&mut run_loop);
    assert_eq!(answer(pending), Ok(2));
}

#[test]
fn a_default_context_is_a_new_one() {
    let ctx: Context<Counter> = Context::default();
    assert!(!ctx.is_paused());
    assert!(!ctx.is_stop_requested());
    let (address, mut run_loop) = ctx.run(counter());
    assert_eq!(address.send(Increment), Ok(()));
    assert_eq!(
        drive(&mut run_loop),
        vec![Step::Started, Step::Dispatched(Dispatch::Handled), Step::Waiting]
    );
}

#[test]
fn an_address_minted_when_all_are_gone_fails_cleanly() {
    let (address, mut run_loop) = counter().start();
    drop(address);
    drive(&mut run_loop);
    assert_eq!(run_loop.phase(), Phase::Stopped);
    // The shutdown hook minted an address after the last one was dropped.
    let late = run_loop.service_ref().last_address.as_ref().expect("the hook ran");
    assert!(late.is_stop());
    assert_eq!(late.send(Increment), Err(Error::ServiceStoped));
    assert_eq!(late.call(GetCount).err(), Some(Error::ServiceStoped));
}

#[test]
fn an_address_minted_while_running_reaches_the_service() {
    let (address, mut run_loop) = counter().start();
    drive(&mut run_loop);
    let minted = run_loop.context_ref().addr();
    assert_eq!(minted.send(Increment), Ok(()));
    drop(address);
    // The minted address alone keeps the mailbox open.
    assert_eq!(drive(&mut run_loop), vec![Step::Dispatched(Dispatch::Handled), Step::Waiting]);
    drop(minted);
    assert_eq!(drive(&mut run_loop), vec![Step::Exhausted, Step::Finished, Step::Halted]);
}
