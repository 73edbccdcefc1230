use std::future::poll_fn;
use std::task::Poll;

use tiny_actor::{Address, Context, Error, Handler, Message, Pending, RunLoop, Service, Step};

struct Meter {
    count: u32,
    started: u32,
    stopped: u32,
}

impl Service for Meter {
    fn started(&mut self, _ctx: &mut Context<Self>) {
        self.started += 1;
    }

    fn stopped(&mut self, _ctx: &mut Context<Self>) {
        self.stopped += 1;
    }
}

struct Tick;

impl Message for Tick {
    type Result = ();
}

impl Handler<Tick> for Meter {
    fn handler(&mut self, _message: Tick, _ctx: &mut Context<Self>) {
        self.count += 1;
    }
}

struct Read;

impl Message for Read {
    type Result = u32;
}

impl Handler<Read> for Meter {
    fn handler(&mut self, _message: Read, _ctx: &mut Context<Self>) -> u32 {
        self.count
    }
}

struct Hold;

impl Message for Hold {
    type Result = ();
}

impl Handler<Hold> for Meter {
    fn handler(&mut self, _message: Hold, ctx: &mut Context<Self>) {
        ctx.pause();
    }
}

struct Halt;

impl Message for Halt {
    type Result = ();
}

impl Handler<Halt> for Meter {
    fn handler(&mut self, _message: Halt, ctx: &mut Context<Self>) {
        ctx.stop();
    }
}

/// What the service looked like when its loop halted.
struct Ending {
    count: u32,
    started: u32,
    stopped: u32,
}

/// Drives the loop on a task of its own until it halts.
fn launch(run_loop: RunLoop<Meter>) -> tokio::task::JoinHandle<Ending> {
    let mut run_loop = run_loop;
    tokio::spawn(poll_fn(move |cx| loop {
        match run_loop.step(cx) {
            Step::Waiting => return Poll::Pending,
            Step::Halted => {
                let service = run_loop.service_ref();
                return Poll::Ready(Ending {
                    count: service.count,
                    started: service.started,
                    stopped: service.stopped,
                });
            }
            _ => {}
        }
    }))
}

async fn ask(address: &Address<Meter>) -> Result<u32, Error> {
    match address.call(Read) {
        Ok(pending) => Pending::settle(pending.into_receiver().await),
        Err(e) => Err(e),
    }
}

fn runtime() -> tokio::runtime::Runtime {
    tokio::runtime::Builder::new_current_thread().build().expect("a runtime can be built")
}

#[test]
fn on_a_task_three_sends_then_a_call_reply_three() {
    runtime().block_on(async {
        let (address, run_loop) = Meter { count: 0, started: 0, stopped: 0 }.start();
        let task = launch(run_loop);
        assert_eq!(address.send(Tick), Ok(()));
        assert_eq!(address.send(Tick), Ok(()));
        assert_eq!(address.send(Tick), Ok(()));
        assert_eq!(ask(&address).await, Ok(3));

        // The loop sleeps between messages and wakes for the next.
        tokio::task::yield_now().await;
        assert_eq!(address.send(Tick), Ok(()));
        assert_eq!(ask(&address).await, Ok(4));

        assert_eq!(address.send(Halt), Ok(()));
        let ending = task.await.expect("the loop ends");
        assert_eq!(ending.count, 4);
        assert_eq!(ending.started, 1);
        assert_eq!(ending.stopped, 1);
        assert_eq!(ask(&address).await, Err(Error::ServiceStoped));
    });
}

#[test]
fn on_a_task_dropping_every_address_ends_the_loop() {
    runtime().block_on(async {
        let (address, run_loop) = Meter { count: 0, started: 0, stopped: 0 }.start();
        let twin = address.clone();
        let task = launch(run_loop);
        assert_eq!(address.send(Tick), Ok(()));
        tokio::task::yield_now().await;
        assert!(!task.is_finished());

        assert_eq!(twin.send(Tick), Ok(()));
        drop(address);
        drop(twin);
        let ending = task.await.expect("the loop ends");
        assert_eq!(ending.count, 2);
        assert_eq!(ending.started, 1);
        assert_eq!(ending.stopped, 1);
    });
}

#[test]
fn on_a_task_a_paused_call_stalls_the_loop_until_its_caller_gives_up() {
    runtime().block_on(async {
        let (address, run_loop) = Meter { count: 0, started: 0, stopped: 0 }.start();
        let task = launch(run_loop);
        assert_eq!(address.send(Hold), Ok(()));

        let caller = {
            let address = address.clone();
            tokio::spawn(async move { ask(&address).await })
        };
        for _ in 0..8 {
            tokio::task::yield_now().await;
        }
        // The call was handled, yet its caller still waits, and so does
        // everything behind it.
        assert!(!caller.is_finished());
        assert_eq!(address.send(Tick), Ok(()));
        assert_eq!(address.send(Halt), Ok(()));
        for _ in 0..8 {
            tokio::task::yield_now().await;
        }
        assert!(!task.is_finished());

        // The caller gives up; the loop wakes, goes on and drains.
        caller.abort();
        assert!(caller.await.is_err());
        let ending = task.await.expect("the loop ends");
        assert_eq!(ending.count, 1);
        assert_eq!(ending.stopped, 1);
    });
}

#[test]
fn on_a_task_a_call_left_in_a_dropped_mailbox_sees_service_paused() {
    runtime().block_on(async {
        let (address, run_loop) = Meter { count: 0, started: 0, stopped: 0 }.start();
        let pending = address.call(Read).ok().expect("the mailbox is open");
        drop(run_loop);
        assert_eq!(Pending::settle(pending.into_receiver().await), Err(Error::ServicePaused));
    });
}
