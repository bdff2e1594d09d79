//! Dead-man's-switch heartbeat reporter.
//!
//! The crate holds the concurrency core of a watchdog that periodically
//! probes a target host and reports the latest measurement to a remote
//! endpoint at a fixed cadence: the prober's self-correcting schedule, the
//! reporter's keepalive policy, the latest-wins sample slot the two loops
//! share, and the configuration validation of the composition root. The
//! loops' timed waits, the probe itself and the outgoing HTTP request are
//! left to the host program, which drives the state machines defined here.

pub mod args;
pub mod endpoint;
pub mod logger;
pub mod measurement;
pub mod probe;
pub mod prober;
pub mod reporter;
pub mod shutdown;
pub mod text;
pub mod watchdog;

pub use measurement::Measurement;
pub use measurement::SampleSlot;
pub use prober::Prober;
pub use reporter::Reporter;
