//! The cancellation signal both loops watch.
//!
//! It is a bounded channel of one slot carrying nothing: sending once, or
//! dropping the sender, fires the signal, and firing again has no further
//! effect. The prober races its timed wait against this channel; the
//! reporter learns of the shutdown through the sample channel going quiet.

use vstd::prelude::*;

use std::sync::mpsc::Receiver;
use std::sync::mpsc::SyncSender;

verus! {

#[verifier::external_type_specification]
#[verifier::external_body]
#[verifier::reject_recursive_types(T)]
pub struct ExSyncSender<T>(SyncSender<T>);

#[verifier::external_type_specification]
#[verifier::external_body]
#[verifier::reject_recursive_types(T)]
pub struct ExReceiver<T>(Receiver<T>);

/// Relies on std::sync::mpsc::sync_channel: a bounded channel with one
/// slot. One send, or dropping the sender, ends every receive.
#[verifier::external_body]
fn unit_signal_channel() -> (SyncSender<()>, Receiver<()>) {
    std::sync::mpsc::sync_channel::<()>(1)
}

/// Creates the cancellation signal: the sender is the trigger handed to
/// the host process, the receiver the prober's wait handle.
pub fn create_shutdown_chanel() -> (SyncSender<()>, Receiver<()>) {
    unit_signal_channel()
}

} // verus!
