//! The background worker: a ratio that climbs by a fixed increment and stays
//! at the whole once it gets there.

use vstd::prelude::*;
use crate::event::Event;
use crate::ratio::{clamp_parts, Ratio, FULL};

verus! {

/// Milliseconds between two heartbeats.
pub const TICK_INTERVAL_MS: u64 = 200;

/// Milliseconds between two reports of the worker.
pub const WORKER_INTERVAL_MS: u64 = 100;

/// What the worker adds between two reports: a hundredth of the whole.
pub const WORKER_INCREMENT: u32 = 100;

/// The ratio of the `k`-th report of a worker that began at `start` and adds
/// `increment` each time. Report 0 stands for the state before any report.
pub open spec fn emission(start: nat, increment: nat, k: nat) -> nat {
    clamp_parts(start + k * increment)
}

/// A simulated long-running task. It never finishes: at the whole it keeps
/// reporting the whole.
#[derive(Clone, Copy, Debug, PartialEq, Eq)]
pub struct ProgressWorker {
    progress: Ratio,
    increment: u32,
}

impl ProgressWorker {
    /// The ratio reached so far, in ten-thousandths.
    pub closed spec fn progress(self) -> nat {
        self.progress@
    }

    /// The parts added at each step.
    pub closed spec fn increment(self) -> nat {
        self.increment as nat
    }

    /// A worker that has done nothing yet and adds `increment` parts at each
    /// step.
    pub fn new(increment: u32) -> (worker: ProgressWorker)
        ensures
            worker.progress() == 0,
            worker.increment() == increment,
    {
        ProgressWorker { progress: Ratio::zero(), increment }
    }

    /// The ratio reached so far.
    pub fn current(&self) -> (ratio: Ratio)
        ensures
            ratio@ == self.progress(),
    {
        self.progress
    }

    /// One step of work: adds the increment, caps the sum at the whole, and
    /// returns the report to send.
    pub fn advance(&mut self) -> (event: Event)
        ensures
            final(self).progress() == clamp_parts(old(self).progress() + old(self).increment()),
            final(self).increment() == old(self).increment(),
            event matches Event::ProgressUpdate(ratio) && ratio@ == final(self).progress(),
            old(self).progress() <= final(self).progress() <= FULL,
            old(self).progress() == FULL ==> final(self).progress() == FULL,
    {
        let next = self.progress.advanced_by(self.increment);
        self.progress = next;
        Event::ProgressUpdate(next)
    }
}

/// Each step of the worker leads from one report to the next.
pub proof fn lemma_emission_step(start: nat, increment: nat, k: nat)
    ensures
        emission(start, increment, k + 1) == clamp_parts(
            emission(start, increment, k) + increment,
        ),
        start <= FULL ==> emission(start, increment, 0) == start,
{
    assert(start + (k + 1) * increment == start + k * increment + increment)
        by (nonlinear_arith);
}

/// No report exceeds the whole.
pub proof fn lemma_emissions_bounded(start: nat, increment: nat, k: nat)
    ensures
        0 <= emission(start, increment, k) <= FULL,
{
}

/// The reports never go down: a later one is at least an earlier one.
pub proof fn lemma_emissions_non_decreasing(start: nat, increment: nat, i: nat, j: nat)
    requires
        i <= j,
    ensures
        emission(start, increment, i) <= emission(start, increment, j),
{
    assert(i * increment <= j * increment) by (nonlinear_arith)
        requires
            i <= j,
    ;
}

/// Once a report is the whole, every later report is the whole.
pub proof fn lemma_emissions_stay_full(start: nat, increment: nat, i: nat, j: nat)
    requires
        i <= j,
        emission(start, increment, i) == FULL,
    ensures
        emission(start, increment, j) == FULL,
{
    lemma_emissions_non_decreasing(start, increment, i, j);
}

} // verus!
