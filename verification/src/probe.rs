//! The texts a measurement carries: host uptime and probe latency.
//!
//! Both are formatted at capture time, because the only consumer is the
//! text-based report payload. A failed probe yields an empty placeholder
//! rather than ending the sampling loop.

use vstd::prelude::*;

use crate::measurement::Measurement;

verus! {

/// What humantime's duration formatter writes for the given duration; a
/// function of the duration alone.
pub uninterp spec fn human_duration_of(secs: u64, nanos: u32) -> Seq<char>;

/// Relies on humantime::format_duration, whose text depends on the
/// duration alone.
#[verifier::external_body]
pub(crate) fn format_duration_text(secs: u64, nanos: u32) -> (r: String)
    requires
        nanos < 1_000_000_000,
    ensures
        r@ == human_duration_of(secs, nanos),
{
    humantime::format_duration(core::time::Duration::new(secs, nanos)).to_string()
}

/// What the standard debug formatter writes for a duration of the given
/// nanoseconds; a function of the duration alone.
pub uninterp spec fn duration_debug_of(nanos: u64) -> Seq<char>;

/// Relies on the Debug formatting of core::time::Duration, whose text
/// depends on the duration alone.
#[verifier::external_body]
fn duration_debug_text(nanos: u64) -> (r: String)
    ensures
        r@ == duration_debug_of(nanos),
{
    format!("{:?}", core::time::Duration::from_nanos(nanos))
}

/// Relies on sysinfo::System::uptime: how long the machine has been up, in
/// seconds, read from the system at the moment of the call.
#[verifier::external_body]
fn system_uptime_secs() -> u64 {
    sysinfo::System::uptime()
}

/// The uptime line of a report: "up " followed by the formatted duration.
pub open spec fn uptime_text_of(secs: u64) -> Seq<char> {
    "up "@ + human_duration_of(secs, 0)
}

/// Formats a whole-second uptime as report text.
pub fn uptime_text(secs: u64) -> (r: String)
    ensures
        r@ == uptime_text_of(secs),
{
    let formatted = format_duration_text(secs, 0);
    String::from_str("up ").concat(formatted.as_str())
}

/// Reads the machine's uptime and formats it. The reading is whatever the
/// system reports at the moment of the call.
pub fn get_uptime() -> (r: String)
    ensures
        exists|secs: u64| r@ == uptime_text_of(secs),
{
    let secs = system_uptime_secs();
    let text = uptime_text(secs);
    proof {
        assert(text@ == uptime_text_of(secs));
    }
    text
}

/// The latency text of a measurement: the round trip in debug formatting,
/// or an empty placeholder when the probe failed.
pub open spec fn ping_text_of(latency_nanos: Option<u64>) -> Seq<char> {
    match latency_nanos {
        Some(n) => duration_debug_of(n),
        None => Seq::empty(),
    }
}

/// Formats a probe result, substituting the empty placeholder for a
/// failure.
pub fn ping_text(latency_nanos: Option<u64>) -> (r: String)
    ensures
        r@ == ping_text_of(latency_nanos),
{
    match latency_nanos {
        Some(n) => duration_debug_text(n),
        None => String::new(),
    }
}

/// Builds the measurement one prober tick publishes.
pub fn build_measurement(uptime: String, latency_nanos: Option<u64>) -> (m: Measurement)
    ensures
        m@.uptime == uptime@,
        m@.ping == ping_text_of(latency_nanos),
{
    let ping = ping_text(latency_nanos);
    Measurement { uptime, ping }
}

} // verus!
