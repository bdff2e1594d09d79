//! The prober's side of the watchdog: a self-correcting sampling schedule.
//!
//! Each iteration of the prober loop waits for either cancellation or a
//! timeout, then measures the target once and publishes the result. The
//! wait is shortened by the time the previous measurement consumed, so the
//! start-to-start period stays close to the configured interval no matter
//! how slow the probe itself is.

use vstd::prelude::*;

verus! {

/// Outcome of the prober's single timed wait on the shutdown signal.
#[derive(Clone, Copy, Debug, PartialEq, Eq, Structural)]
pub enum WaitOutcome {
    /// The cancellation signal fired.
    Cancelled,
    /// The cancellation channel is gone: nobody can fire it any more.
    Disconnected,
    /// The wait ran out without a signal: time to probe.
    TimedOut,
}

/// What the prober loop must do after one timed wait.
#[derive(Clone, Copy, Debug, PartialEq, Eq, Structural)]
pub enum ProberDirective {
    /// Perform one probe-and-publish cycle.
    Probe,
    /// Leave the loop; this is the prober's only normal exit.
    Halt,
}

/// Mathematical state of the prober: the configured interval and the cost
/// of the last measurement, both in milliseconds.
pub struct ProberModel {
    pub interval_ms: int,
    pub last_cost_ms: int,
}

pub open spec fn prober_wf(m: ProberModel) -> bool {
    1 <= m.interval_ms && 0 <= m.last_cost_ms < m.interval_ms
}

/// The next wait compensates for the time the last measurement consumed.
pub open spec fn prober_wait(m: ProberModel) -> int {
    m.interval_ms - m.last_cost_ms
}

/// A measurement's cost is capped one millisecond short of the interval,
/// so the next wait stays positive even when a probe overruns the whole
/// interval.
pub open spec fn capped_cost(interval_ms: int, elapsed_ms: int) -> int {
    if elapsed_ms <= interval_ms - 1 {
        elapsed_ms
    } else {
        interval_ms - 1
    }
}

pub open spec fn prober_record(m: ProberModel, elapsed_ms: int) -> ProberModel {
    ProberModel {
        interval_ms: m.interval_ms,
        last_cost_ms: capped_cost(m.interval_ms, elapsed_ms),
    }
}

/// Only a timed-out wait leads to a probe; a cancellation, like a lost
/// cancellation channel, halts the loop.
pub open spec fn prober_directive(outcome: WaitOutcome) -> ProberDirective {
    match outcome {
        WaitOutcome::TimedOut => ProberDirective::Probe,
        _ => ProberDirective::Halt,
    }
}

/// The prober's private state between iterations.
pub struct Prober {
    interval_ms: u64,
    last_cost_ms: u64,
}

impl View for Prober {
    type V = ProberModel;

    closed spec fn view(&self) -> ProberModel {
        ProberModel {
            interval_ms: self.interval_ms as int,
            last_cost_ms: self.last_cost_ms as int,
        }
    }
}

impl Prober {
    pub open spec fn wf(&self) -> bool {
        prober_wf(self@)
    }

    /// A fresh prober has seen no measurement yet, so its first wait is the
    /// whole interval.
    pub fn new(interval_ms: u64) -> (p: Prober)
        requires
            1 <= interval_ms,
        ensures
            p.wf(),
            p@.interval_ms == interval_ms as int,
            p@.last_cost_ms == 0,
    {
        Prober { interval_ms, last_cost_ms: 0 }
    }

    /// How long the next wait for cancellation may last, in milliseconds.
    pub fn next_wait_ms(&self) -> (wait: u64)
        requires
            self.wf(),
        ensures
            wait == prober_wait(self@),
            1 <= wait <= self@.interval_ms,
    {
        self.interval_ms - self.last_cost_ms
    }

    /// Folds the wall-clock cost of the measurement just taken into the
    /// schedule, capped so the next wait stays positive.
    pub fn record_probe(&mut self, elapsed_ms: u64)
        requires
            old(self).wf(),
        ensures
            final(self).wf(),
            final(self)@ == prober_record(old(self)@, elapsed_ms as int),
    {
        let cap = self.interval_ms - 1;
        self.last_cost_ms = if elapsed_ms <= cap {
            elapsed_ms
        } else {
            cap
        };
    }
}

/// Decides the loop's fate after one timed wait.
pub fn on_wait(outcome: WaitOutcome) -> (d: ProberDirective)
    ensures
        d == prober_directive(outcome),
{
    match outcome {
        WaitOutcome::TimedOut => ProberDirective::Probe,
        WaitOutcome::Cancelled => ProberDirective::Halt,
        WaitOutcome::Disconnected => ProberDirective::Halt,
    }
}

/// Interval compensation: a probe that costs less than the interval makes
/// the following wait exactly the interval minus that cost, and the wait
/// never drops to zero.
pub proof fn lemma_interval_compensation(m: ProberModel, cost_ms: int)
    requires
        prober_wf(m),
        0 <= cost_ms < m.interval_ms,
    ensures
        prober_wait(prober_record(m, cost_ms)) == m.interval_ms - cost_ms,
        prober_wait(prober_record(m, cost_ms)) >= 1,
{
}

/// Shutdown promptness, prober half: cancellation, like the loss of the
/// cancellation channel, halts the loop at its very next wait, and no wait
/// outlasts one configured interval.
pub proof fn lemma_prober_halts_within_one_wait(m: ProberModel)
    requires
        prober_wf(m),
    ensures
        prober_directive(WaitOutcome::Cancelled) == ProberDirective::Halt,
        prober_directive(WaitOutcome::Disconnected) == ProberDirective::Halt,
        prober_wait(m) <= m.interval_ms,
{
}

} // verus!
