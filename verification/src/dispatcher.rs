//! Serialising hotkey presses into sequential pipeline runs.
//!
//! A press deposits a token in a slot that holds at most one; a press that
//! finds the slot full is dropped. A single worker takes the token when it is
//! idle, runs the pipeline to completion, and only then looks at the slot
//! again. So at most one run executes at a time and at most one is pending.

use vstd::prelude::*;

verus! {

/// What the worker is doing.
#[derive(Debug, Clone, Copy, PartialEq, Eq, Structural)]
pub enum WorkerState {
    Idle,
    Running,
}

/// What can happen to the dispatcher.
#[derive(Debug, Clone, Copy, PartialEq, Eq, Structural)]
pub enum Signal {
    /// The hotkey fired.
    Press,
    /// The worker looks for a token.
    Receive,
    /// The worker finished its run.
    Complete,
}

/// The single-slot channel together with the state of the worker behind it.
#[derive(Debug, Clone, Copy, PartialEq, Eq, Structural)]
pub struct HotkeyDispatcher {
    pub state: WorkerState,
    pub pending: bool,
}

/// Counts of what a sequence of signals did.
pub struct Tally {
    /// Presses that deposited a token.
    pub accepted: nat,
    /// Presses that found the slot full.
    pub dropped: nat,
    /// Runs that the worker started.
    pub started: nat,
    /// Runs that the worker finished.
    pub completed: nat,
}

impl Tally {
    pub open spec fn zero() -> Tally {
        Tally { accepted: 0, dropped: 0, started: 0, completed: 0 }
    }
}

impl HotkeyDispatcher {
    /// The dispatcher at process start: worker idle, slot empty.
    pub open spec fn initial() -> HotkeyDispatcher {
        HotkeyDispatcher { state: WorkerState::Idle, pending: false }
    }

    /// Whether a press now would deposit a token.
    pub open spec fn accepts(self) -> bool {
        !self.pending
    }

    /// Whether the worker, looking now, would start a run.
    pub open spec fn starts(self) -> bool {
        self.state == WorkerState::Idle && self.pending
    }

    /// The dispatcher after one signal.
    pub open spec fn step(self, signal: Signal) -> HotkeyDispatcher {
        match signal {
            Signal::Press => HotkeyDispatcher { state: self.state, pending: true },
            Signal::Receive => if self.starts() {
                HotkeyDispatcher { state: WorkerState::Running, pending: false }
            } else {
                self
            },
            Signal::Complete => HotkeyDispatcher { state: WorkerState::Idle, pending: self.pending },
        }
    }

    /// The tally after one signal.
    pub open spec fn count(self, signal: Signal, tally: Tally) -> Tally {
        match signal {
            Signal::Press => if self.accepts() {
                Tally { accepted: tally.accepted + 1, ..tally }
            } else {
                Tally { dropped: tally.dropped + 1, ..tally }
            },
            Signal::Receive => if self.starts() {
                Tally { started: tally.started + 1, ..tally }
            } else {
                tally
            },
            Signal::Complete => if self.state == WorkerState::Running {
                Tally { completed: tally.completed + 1, ..tally }
            } else {
                tally
            },
        }
    }

    /// The dispatcher after a sequence of signals.
    pub open spec fn replay(self, trace: Seq<Signal>) -> HotkeyDispatcher
        decreases trace.len(),
    {
        if trace.len() == 0 {
            self
        } else {
            self.replay(trace.drop_last()).step(trace.last())
        }
    }

    /// What a sequence of signals did, counted from zero.
    pub open spec fn tally(self, trace: Seq<Signal>) -> Tally
        decreases trace.len(),
    {
        if trace.len() == 0 {
            Tally::zero()
        } else {
            self.replay(trace.drop_last()).count(trace.last(), self.tally(trace.drop_last()))
        }
    }

    /// The dispatcher at process start.
    pub fn new() -> (d: HotkeyDispatcher)
        ensures
            d == HotkeyDispatcher::initial(),
    {
        HotkeyDispatcher { state: WorkerState::Idle, pending: false }
    }

    /// The hotkey fired: deposit a token unless one is already waiting.
    /// Returns whether the press was accepted; a press that finds the slot
    /// full is dropped and changes nothing.
    pub fn press(&mut self) -> (accepted: bool)
        ensures
            accepted == old(self).accepts(),
            *final(self) == old(self).step(Signal::Press),
    {
        let accepted = !self.pending;
        self.pending = true;
        accepted
    }

    /// The worker looks for a token. Returns whether a run starts: only when
    /// the worker is idle and a token waits, and the token is consumed.
    pub fn receive(&mut self) -> (started: bool)
        ensures
            started == old(self).starts(),
            *final(self) == old(self).step(Signal::Receive),
    {
        match self.state {
            WorkerState::Idle => {
                if self.pending {
                    self.state = WorkerState::Running;
                    self.pending = false;
                    true
                } else {
                    false
                }
            },
            WorkerState::Running => false,
        }
    }

    /// The worker finished its run, whether it succeeded or failed, and is
    /// idle again. A token deposited meanwhile stays in the slot.
    pub fn complete(&mut self)
        ensures
            *final(self) == old(self).step(Signal::Complete),
    {
        self.state = WorkerState::Idle;
    }

    /// Applies one signal. Returns whether it took effect: a press that was
    /// accepted, a look that started a run, a completion that ended one.
    pub fn signal(&mut self, signal: Signal) -> (effective: bool)
        ensures
            *final(self) == old(self).step(signal),
            effective == match signal {
                Signal::Press => old(self).accepts(),
                Signal::Receive => old(self).starts(),
                Signal::Complete => old(self).state == WorkerState::Running,
            },
    {
        match signal {
            Signal::Press => self.press(),
            Signal::Receive => self.receive(),
            Signal::Complete => {
                let was_running = match self.state {
                    WorkerState::Running => true,
                    WorkerState::Idle => false,
                };
                self.complete();
                was_running
            },
        }
    }
}

/// Runs never overlap: after any sequence of signals from the initial state,
/// the runs started exceed the runs completed by one exactly while the worker
/// is running, and by none while it is idle.
pub proof fn law_runs_never_overlap(trace: Seq<Signal>)
    ensures
        ({
            let d = HotkeyDispatcher::initial();
            let t = d.tally(trace);
            t.started == t.completed + (if d.replay(trace).state == WorkerState::Running {
                1nat
            } else {
                0nat
            })
        }),
    decreases trace.len(),
{
    if trace.len() > 0 {
        law_runs_never_overlap(trace.drop_last());
    }
}

/// Pending work is bounded: after any sequence of signals from the initial
/// state, the presses accepted exceed the runs started by one exactly while a
/// token waits, and by none otherwise. Every other press was dropped.
pub proof fn law_at_most_one_pending(trace: Seq<Signal>)
    ensures
        ({
            let d = HotkeyDispatcher::initial();
            let t = d.tally(trace);
            t.accepted == t.started + (if d.replay(trace).pending {
                1nat
            } else {
                0nat
            })
        }),
    decreases trace.len(),
{
    if trace.len() > 0 {
        law_at_most_one_pending(trace.drop_last());
    }
}

/// A sequence that holds presses only.
pub open spec fn all_presses(trace: Seq<Signal>) -> bool {
    forall|i: int| 0 <= i < trace.len() ==> trace[i] == Signal::Press
}

/// A burst of presses while a run executes folds into one pending run: no run
/// starts during the burst, the worker keeps running, and exactly one token
/// waits afterwards however many presses there were. At most one of them was
/// accepted.
pub proof fn law_burst_during_run(d: HotkeyDispatcher, burst: Seq<Signal>)
    requires
        d.state == WorkerState::Running,
        all_presses(burst),
        burst.len() > 0,
    ensures
        d.replay(burst).state == WorkerState::Running,
        d.replay(burst).pending,
        d.tally(burst).started == 0,
        d.tally(burst).completed == 0,
        d.tally(burst).accepted == (if d.pending {
            0nat
        } else {
            1nat
        }),
        d.tally(burst).accepted + d.tally(burst).dropped == burst.len(),
    decreases burst.len(),
{
    let head = burst.drop_last();
    if head.len() > 0 {
        assert(all_presses(head));
        law_burst_during_run(d, head);
    } else {
        assert(d.replay(head) == d);
        assert(d.tally(head) == Tally::zero());
    }
}

/// The run that a burst left pending begins strictly after the current one
/// completes: a look by the worker changes nothing while it is running, and
/// after completion the next look starts exactly one run and empties the slot.
pub proof fn law_pending_run_waits(d: HotkeyDispatcher)
    requires
        d.state == WorkerState::Running,
        d.pending,
    ensures
        !d.starts(),
        d.step(Signal::Receive) == d,
        d.step(Signal::Complete).starts(),
        d.step(Signal::Complete).step(Signal::Receive) == (HotkeyDispatcher {
            state: WorkerState::Running,
            pending: false,
        }),
        !d.step(Signal::Complete).step(Signal::Receive).step(Signal::Complete).starts(),
{
}

} // verus!
