//! Measurements and the single-slot sample channel between the two loops.
//!
//! The prober publishes at most one pending measurement; a newer one
//! supersedes an unread older one. The reporter drains the slot and so
//! only ever observes the most recently published measurement.

use vstd::prelude::*;

verus! {

/// One sampled pair: host uptime and round-trip latency, both already
/// formatted as the text the heartbeat report will carry.
pub struct Measurement {
    pub uptime: String,
    pub ping: String,
}

/// Spec-level image of a measurement.
pub struct MeasurementView {
    pub uptime: Seq<char>,
    pub ping: Seq<char>,
}

impl View for Measurement {
    type V = MeasurementView;

    open spec fn view(&self) -> MeasurementView {
        MeasurementView { uptime: self.uptime@, ping: self.ping@ }
    }
}

impl Clone for Measurement {
    fn clone(&self) -> (r: Self)
        ensures
            r@ == self@,
    {
        Measurement { uptime: self.uptime.clone(), ping: self.ping.clone() }
    }
}

/// What a publish leaves in the slot: the new measurement, whatever was
/// there before.
pub open spec fn slot_publish(
    slot: Option<MeasurementView>,
    m: MeasurementView,
) -> Option<MeasurementView> {
    Some(m)
}

/// The sample channel's one slot. It never queues: a publish replaces any
/// unread measurement, so the prober is never blocked by a full channel.
pub struct SampleSlot {
    slot: Option<Measurement>,
}

impl View for SampleSlot {
    type V = Option<MeasurementView>;

    closed spec fn view(&self) -> Option<MeasurementView> {
        match self.slot {
            Some(m) => Some(m@),
            None => None,
        }
    }
}

impl SampleSlot {
    pub fn empty() -> (s: SampleSlot)
        ensures
            s@ is None,
    {
        SampleSlot { slot: None }
    }

    /// Publishes a measurement: never blocks, never queues, supersedes any
    /// unread one.
    pub fn publish(&mut self, m: Measurement)
        ensures
            final(self)@ == slot_publish(old(self)@, m@),
    {
        self.slot = Some(m);
    }

    /// Takes the pending measurement, if any, leaving the slot empty.
    pub fn drain(&mut self) -> (r: Option<Measurement>)
        ensures
            final(self)@ is None,
            match r {
                Some(m) => old(self)@ == Some(m@),
                None => old(self)@ is None,
            },
    {
        self.slot.take()
    }

    pub fn has_sample(&self) -> (r: bool)
        ensures
            r == (self@ is Some),
    {
        self.slot.is_some()
    }
}

/// Latest wins: when two measurements are published before the reporter
/// drains, only the second is left to be observed.
pub proof fn lemma_latest_wins(
    slot: Option<MeasurementView>,
    first: MeasurementView,
    second: MeasurementView,
)
    ensures
        slot_publish(slot_publish(slot, first), second) == Some(second),
{
}

} // verus!
