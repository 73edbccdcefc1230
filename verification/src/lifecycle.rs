//! The run loop as a state machine, and what follows from its transitions.

use vstd::prelude::*;
use crate::envelop::{Dispatch, Slot};

verus! {

/// Where a run loop is in its life.
#[derive(Debug, Clone, Copy, PartialEq, Eq, Structural)]
pub enum Phase {
    /// The startup hook has not run yet.
    Starting,
    /// Envelopes are taken from the mailbox and dispatched, one at a time.
    Running,
    /// The mailbox has yielded its last envelope; the shutdown hook is due.
    Draining,
    /// The shutdown hook has run. Nothing happens any more.
    Stopped,
}

/// What one step of the run loop did.
#[derive(Debug, Clone, Copy, PartialEq, Eq, Structural)]
pub enum Step {
    /// The startup hook ran.
    Started,
    /// Nothing could be done; the task will be woken when that changes.
    Waiting,
    /// One envelope was taken from the mailbox and dispatched.
    Dispatched(Dispatch),
    /// The caller of a withheld reply let go of its channel; the loop is
    /// free to take the next envelope.
    Released,
    /// The mailbox is closed and empty.
    Exhausted,
    /// The shutdown hook ran.
    Finished,
    /// The loop had stopped before; nothing was done.
    Halted,
}

/// What one look into the mailbox found, as far as the loop's next step
/// depends on it.
pub enum Look {
    /// Nothing for now.
    Idle,
    /// An envelope, with what it holds.
    Next(Slot),
    /// The mailbox is closed and empty.
    Exhausted,
}

/// What a running loop that holds nothing reports for a look into the
/// mailbox, where `paused` is the service's flag once the step is over:
/// it waits if there was nothing, starts draining if nothing will ever
/// come, and dispatches what came.
pub open spec fn absorbs(look: Look, paused: bool, out: Step) -> bool {
    match look {
        Look::Idle => out == Step::Waiting,
        Look::Exhausted => out == Step::Exhausted,
        Look::Next(slot) => out matches Step::Dispatched(d) && (d == slot.outcome(paused, true) || d
            == slot.outcome(paused, false)),
    }
}

/// What a stalled loop reports once it has asked its envelope whether it
/// still keeps something back: a release if not, and that it waits if so.
pub open spec fn resumes(free: bool, out: Step) -> bool {
    out == if free {
        Step::Released
    } else {
        Step::Waiting
    }
}

/// The part of a run loop's state that decides what it does next.
pub struct LoopState {
    pub phase: Phase,
    /// Whether the loop holds an envelope whose reply it keeps back.
    pub stalled: bool,
}

impl Phase {
    /// The place of a phase in the order in which a loop goes through them.
    pub open spec fn rank(self) -> nat {
        match self {
            Phase::Starting => 0,
            Phase::Running => 1,
            Phase::Draining => 2,
            Phase::Stopped => 3,
        }
    }
}

impl LoopState {
    /// The state of a loop that has just been bound to its service.
    pub open spec fn initial() -> LoopState {
        LoopState { phase: Phase::Starting, stalled: false }
    }

    /// A loop stalls only while it is running.
    pub open spec fn wf(self) -> bool {
        self.stalled ==> self.phase is Running
    }

    /// Whether a loop in this state can report `step`.
    pub open spec fn permits(self, step: Step) -> bool {
        match self.phase {
            Phase::Starting => step is Started,
            Phase::Running => if self.stalled {
                step is Waiting || step is Released
            } else {
                step is Waiting || step is Dispatched || step is Exhausted
            },
            Phase::Draining => step is Finished,
            Phase::Stopped => step is Halted,
        }
    }

    /// The state in which `step` leaves a loop that was in this state.
    pub open spec fn after(self, step: Step) -> LoopState {
        match step {
            Step::Started => LoopState { phase: Phase::Running, stalled: false },
            Step::Waiting => self,
            Step::Dispatched(d) => LoopState { phase: self.phase, stalled: d is Withheld },
            Step::Released => LoopState { phase: self.phase, stalled: false },
            Step::Exhausted => LoopState { phase: Phase::Draining, stalled: false },
            Step::Finished => LoopState { phase: Phase::Stopped, stalled: false },
            Step::Halted => self,
        }
    }

    /// The state after the first `n` of `steps`, starting from this one.
    pub open spec fn advanced(self, steps: Seq<Step>, n: nat) -> LoopState
        decreases n,
    {
        if n == 0 {
            self
        } else {
            self.advanced(steps, (n - 1) as nat).after(steps[n - 1])
        }
    }

    /// Whether `steps` is what a loop starting in this state can report, one
    /// step after the other.
    pub open spec fn runs(self, steps: Seq<Step>) -> bool {
        forall|i: nat| i < steps.len() ==> #[trigger] self.advanced(steps, i).permits(steps[i as int])
    }
}

/// A loop that starts well-formed stays so: it is stalled only while it
/// is running.
pub proof fn lemma_run_stays_well_formed(start: LoopState, steps: Seq<Step>, n: nat)
    requires
        start.wf(),
        start.runs(steps),
        n <= steps.len(),
    ensures
        start.advanced(steps, n).wf(),
    decreases n,
{
    if n > 0 {
        let m: nat = (n - 1) as nat;
        lemma_run_stays_well_formed(start, steps, m);
        assert(start.advanced(steps, m).permits(steps[m as int]));
    }
}

/// A loop never goes back to an earlier phase.
pub proof fn lemma_phase_never_goes_back(start: LoopState, steps: Seq<Step>, m: nat, n: nat)
    requires
        start.runs(steps),
        m <= n <= steps.len(),
    ensures
        start.advanced(steps, m).phase.rank() <= start.advanced(steps, n).phase.rank(),
    decreases n,
{
    if m < n {
        let k: nat = (n - 1) as nat;
        lemma_phase_never_goes_back(start, steps, m, k);
        assert(start.advanced(steps, k).permits(steps[k as int]));
    }
}

/// The startup hook runs in the first step of a loop's life and in no
/// other.
pub proof fn lemma_startup_first_and_once(steps: Seq<Step>, i: nat)
    requires
        LoopState::initial().runs(steps),
        i < steps.len(),
    ensures
        steps[i as int] is Started <==> i == 0,
{
    let start = LoopState::initial();
    assert(start.advanced(steps, i).permits(steps[i as int]));
    if i > 0 {
        assert(start.advanced(steps, 0).permits(steps[0]));
        lemma_phase_never_goes_back(start, steps, 1, i);
    }
}

/// Once the shutdown hook has run, every later step finds the loop
/// halted: the hook runs at most once, and nothing is dispatched after it.
pub proof fn lemma_shutdown_is_final(start: LoopState, steps: Seq<Step>, i: nat, j: nat)
    requires
        start.runs(steps),
        i < j < steps.len(),
        steps[i as int] is Finished,
    ensures
        steps[j as int] is Halted,
{
    let next: nat = (i + 1) as nat;
    assert(start.advanced(steps, i).permits(steps[i as int]));
    lemma_phase_never_goes_back(start, steps, next, j);
    assert(start.advanced(steps, j).permits(steps[j as int]));
}

/// Once the mailbox is found closed and empty, the loop takes no further
/// envelope: the next step runs the shutdown hook, and the later ones find
/// the loop halted.
pub proof fn lemma_exhausted_ends_intake(start: LoopState, steps: Seq<Step>, i: nat, j: nat)
    requires
        start.runs(steps),
        i < j < steps.len(),
        steps[i as int] is Exhausted,
    ensures
        if j == i + 1 {
            steps[j as int] is Finished
        } else {
            steps[j as int] is Halted
        },
{
    let next: nat = (i + 1) as nat;
    assert(start.advanced(steps, i).permits(steps[i as int]));
    assert(start.advanced(steps, next).permits(steps[next as int]));
    if j > next {
        lemma_shutdown_is_final(start, steps, next, j);
    } else {
        assert(start.advanced(steps, j).permits(steps[j as int]));
    }
}

/// Envelopes are dispatched only by a loop that is running and not
/// stalled, and so only between the startup hook and the shutdown hook.
pub proof fn lemma_dispatch_needs_free_running_loop(start: LoopState, steps: Seq<Step>, i: nat)
    requires
        start.runs(steps),
        i < steps.len(),
        steps[i as int] is Dispatched,
    ensures
        start.advanced(steps, i) == (LoopState { phase: Phase::Running, stalled: false }),
{
    assert(start.advanced(steps, i).permits(steps[i as int]));
}

/// After a reply has been withheld, the loop takes the next envelope only
/// once the caller has let go: between the two dispatches there is a
/// release.
pub proof fn lemma_withheld_reply_stalls_intake(start: LoopState, steps: Seq<Step>, i: nat, j: nat)
    requires
        start.runs(steps),
        i < j < steps.len(),
        steps[i as int] == Step::Dispatched(Dispatch::Withheld),
        steps[j as int] is Dispatched,
    ensures
        exists|k: nat| i < k < j && steps[k as int] is Released,
{
    let next: nat = (i + 1) as nat;
    assert(start.advanced(steps, i).permits(steps[i as int]));
    lemma_stalled_until_released(start, steps, next, j);
    let k: nat = choose|k: nat| next <= k < j && steps[k as int] is Released;
    assert(i < k < j && steps[k as int] is Released);
}

/// A loop that is stalled stays so until it reports a release, and
/// dispatches nothing before.
proof fn lemma_stalled_until_released(start: LoopState, steps: Seq<Step>, m: nat, j: nat)
    requires
        start.runs(steps),
        m <= j < steps.len(),
        start.advanced(steps, m) == (LoopState { phase: Phase::Running, stalled: true }),
        steps[j as int] is Dispatched,
    ensures
        exists|k: nat| m <= k < j && steps[k as int] is Released,
    decreases j - m,
{
    assert(start.advanced(steps, m).permits(steps[m as int]));
    if m < j && !(steps[m as int] is Released) {
        let next: nat = (m + 1) as nat;
        lemma_stalled_until_released(start, steps, next, j);
        let k: nat = choose|k: nat| next <= k < j && steps[k as int] is Released;
        assert(m <= k < j && steps[k as int] is Released);
    }
}

} // verus!
