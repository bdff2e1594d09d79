//! The reporter's side of the watchdog: one heartbeat per cadence tick.
//!
//! The reporter waits up to its cadence plus a fixed grace for a fresh
//! measurement. Whether or not one arrives it emits a report, repeating
//! the last known texts when nothing new came — the receiving side is a
//! dead-man's switch, so silence would look like an outage. Only the loss
//! of the sample channel ends the loop.

use vstd::prelude::*;

use crate::measurement::{Measurement, MeasurementView};

verus! {

/// Extra slack, in milliseconds, the reporter grants beyond its cadence
/// before it stops waiting for fresh data and repeats the last report.
pub const GRACE_MS: u64 = 100;

/// What one timed receive on the sample channel yielded.
pub enum RecvOutcome {
    /// A fresh measurement arrived within the wait.
    Received(Measurement),
    /// The wait ran out with nothing new.
    TimedOut,
    /// The prober is gone and will never publish again.
    Disconnected,
}

/// Spec-level image of a receive outcome.
pub enum RecvOutcomeView {
    Received(MeasurementView),
    TimedOut,
    Disconnected,
}

impl View for RecvOutcome {
    type V = RecvOutcomeView;

    open spec fn view(&self) -> RecvOutcomeView {
        match *self {
            RecvOutcome::Received(m) => RecvOutcomeView::Received(m@),
            RecvOutcome::TimedOut => RecvOutcomeView::TimedOut,
            RecvOutcome::Disconnected => RecvOutcomeView::Disconnected,
        }
    }
}

/// What the reporter loop must do after one timed receive.
pub enum ReporterAction {
    /// Issue one heartbeat report carrying this measurement's texts.
    Emit(Measurement),
    /// Leave the loop; the reporter's only normal exit.
    Halt,
}

/// Spec-level image of a reporter action.
pub enum ReporterActionView {
    Emit(MeasurementView),
    Halt,
}

impl View for ReporterAction {
    type V = ReporterActionView;

    open spec fn view(&self) -> ReporterActionView {
        match *self {
            ReporterAction::Emit(m) => ReporterActionView::Emit(m@),
            ReporterAction::Halt => ReporterActionView::Halt,
        }
    }
}

/// Mathematical state of the reporter: the texts of the most recent
/// measurement it has seen, empty placeholders before the first one.
pub struct ReporterModel {
    pub last_uptime: Seq<char>,
    pub last_ping: Seq<char>,
}

pub open spec fn reporter_init() -> ReporterModel {
    ReporterModel { last_uptime: Seq::empty(), last_ping: Seq::empty() }
}

/// A fresh measurement replaces the remembered texts; a timeout and a
/// disconnection leave them as they are.
pub open spec fn reporter_next(s: ReporterModel, ev: RecvOutcomeView) -> ReporterModel {
    match ev {
        RecvOutcomeView::Received(m) => ReporterModel { last_uptime: m.uptime, last_ping: m.ping },
        _ => s,
    }
}

/// Every tick emits a report — the fresh measurement if one arrived, the
/// remembered one on a timeout. Only disconnection halts the loop.
pub open spec fn reporter_action(s: ReporterModel, ev: RecvOutcomeView) -> ReporterActionView {
    match ev {
        RecvOutcomeView::Received(m) => ReporterActionView::Emit(m),
        RecvOutcomeView::TimedOut => ReporterActionView::Emit(
            MeasurementView { uptime: s.last_uptime, ping: s.last_ping },
        ),
        RecvOutcomeView::Disconnected => ReporterActionView::Halt,
    }
}

/// How long the reporter waits for fresh data each tick, in milliseconds.
pub open spec fn reporter_wait(cadence_ms: int) -> int {
    cadence_ms + GRACE_MS
}

/// The reporter's private state between iterations.
pub struct Reporter {
    last_uptime: String,
    last_ping: String,
}

impl View for Reporter {
    type V = ReporterModel;

    closed spec fn view(&self) -> ReporterModel {
        ReporterModel { last_uptime: self.last_uptime@, last_ping: self.last_ping@ }
    }
}

impl Reporter {
    /// Before the first measurement the reporter knows only empty
    /// placeholders.
    pub fn new() -> (r: Reporter)
        ensures
            r@ == reporter_init(),
    {
        Reporter { last_uptime: String::new(), last_ping: String::new() }
    }

    /// The length of one tick's wait: the cadence plus the fixed grace.
    pub fn recv_wait_ms(cadence_ms: u64) -> (wait: u64)
        requires
            cadence_ms + GRACE_MS <= u64::MAX,
        ensures
            wait == reporter_wait(cadence_ms as int),
    {
        cadence_ms + GRACE_MS
    }

    /// One reporter iteration, after its timed receive.
    pub fn step(&mut self, outcome: RecvOutcome) -> (action: ReporterAction)
        ensures
            final(self)@ == reporter_next(old(self)@, outcome@),
            action@ == reporter_action(old(self)@, outcome@),
    {
        match outcome {
            RecvOutcome::Received(m) => {
                let out = m.clone();
                self.last_uptime = m.uptime;
                self.last_ping = m.ping;
                ReporterAction::Emit(out)
            },
            RecvOutcome::TimedOut => ReporterAction::Emit(
                Measurement {
                    uptime: self.last_uptime.clone(),
                    ping: self.last_ping.clone(),
                },
            ),
            RecvOutcome::Disconnected => ReporterAction::Halt,
        }
    }
}

/// Keepalive: a tick with no fresh measurement still emits exactly one
/// report, repeating the last known texts and leaving the state unchanged;
/// a fresh reporter repeats empty placeholders.
pub proof fn lemma_keepalive(s: ReporterModel)
    ensures
        reporter_action(s, RecvOutcomeView::TimedOut) == ReporterActionView::Emit(
            MeasurementView { uptime: s.last_uptime, ping: s.last_ping },
        ),
        reporter_next(s, RecvOutcomeView::TimedOut) == s,
        reporter_action(reporter_init(), RecvOutcomeView::TimedOut) == ReporterActionView::Emit(
            MeasurementView { uptime: Seq::<char>::empty(), ping: Seq::<char>::empty() },
        ),
{
}

/// Shutdown promptness, reporter half: once the sample channel reports
/// disconnection the reporter halts at its very next step, and no wait
/// outlasts one cadence plus the fixed grace.
pub proof fn lemma_reporter_halts_within_one_wait(s: ReporterModel, cadence_ms: int)
    ensures
        reporter_action(s, RecvOutcomeView::Disconnected) == ReporterActionView::Halt,
        reporter_next(s, RecvOutcomeView::Disconnected) == s,
        reporter_wait(cadence_ms) == cadence_ms + 100,
{
}

} // verus!
