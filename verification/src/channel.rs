//! Coalescing channels: the one-directional, latest-value-wins links
//! between the sensor worker, the interactive surface and the audio sink.
//!
//! The channel itself comes from an outside crate; the coalescing rule —
//! of all pending values only the newest is kept, older ones are
//! discarded, never queued — is the library's own, verified logic.

use vstd::prelude::*;

verus! {

use crate::controls::Controls;
use crate::settings::Settings;

#[verifier::external_type_specification]
#[verifier::external_body]
#[verifier::reject_recursive_types(T)]
pub struct ExSender<T>(crossbeam_channel::Sender<T>);

#[verifier::external_type_specification]
#[verifier::external_body]
#[verifier::reject_recursive_types(T)]
pub struct ExReceiver<T>(crossbeam_channel::Receiver<T>);

/// Relies on crossbeam_channel::unbounded: a connected asynchronous
/// channel pair with first-in-first-out buffering and no capacity bound.
#[verifier::external_body]
fn channel_pair<T>() -> (r: (crossbeam_channel::Sender<T>, crossbeam_channel::Receiver<T>)) {
    crossbeam_channel::unbounded()
}

/// Relies on crossbeam_channel::Sender::send, which fails only when every
/// receiver has been dropped; the message is lost in that case, which the
/// returned flag reports.
#[verifier::external_body]
fn send_value<T>(tx: &crossbeam_channel::Sender<T>, value: T) -> (r: bool) {
    tx.send(value).is_ok()
}

/// Relies on crossbeam_channel::Receiver::try_iter, which yields exactly
/// the messages already waiting in the channel, oldest first, without
/// blocking. What the batch holds depends on the senders' timing, so
/// nothing more is claimed of it.
#[verifier::external_body]
fn drain_pending<T>(rx: &crossbeam_channel::Receiver<T>) -> (r: Vec<T>) {
    rx.try_iter().collect()
}

/// Latest-value-wins coalescing: of a batch of pending updates only the
/// newest (last-sent) one is applied; the rest are dropped. An empty batch
/// yields nothing.
pub fn coalesce<T>(batch: Vec<T>) -> (r: Option<T>)
    ensures
        batch@.len() == 0 ==> r is None,
        batch@.len() > 0 ==> r == Some(batch@.last()),
{
    let mut batch = batch;
    batch.pop()
}

/// Creates the settings channel: interactive surface toward sensor worker.
pub fn settings_channel() -> (r: (
    crossbeam_channel::Sender<Settings>,
    crossbeam_channel::Receiver<Settings>,
)) {
    channel_pair()
}

/// Creates the snapshot channel: sensor worker toward its consumers.
pub fn snapshot_channel() -> (r: (
    crossbeam_channel::Sender<Controls>,
    crossbeam_channel::Receiver<Controls>,
)) {
    channel_pair()
}

/// Sends one settings update toward the sensor worker; false when the
/// worker is gone.
pub fn send_settings(tx: &crossbeam_channel::Sender<Settings>, settings: Settings) -> bool {
    send_value(tx, settings)
}

/// Publishes one control snapshot; false when every consumer is gone.
pub fn publish_snapshot(tx: &crossbeam_channel::Sender<Controls>, snapshot: Controls) -> bool {
    send_value(tx, snapshot)
}

/// Drains the settings channel and keeps only the most recently sent
/// update, the coalescing step of each worker cycle. What arrives depends
/// on the surface's timing; that only the newest pending update survives
/// is the contract of `coalesce`.
pub fn latest_settings(rx: &crossbeam_channel::Receiver<Settings>) -> Option<Settings> {
    coalesce(drain_pending(rx))
}

/// The consumer-side twin: of all snapshots published since the last
/// look, only the newest is rendered; a busy consumer skips stale ones.
pub fn latest_snapshot(rx: &crossbeam_channel::Receiver<Controls>) -> Option<Controls> {
    coalesce(drain_pending(rx))
}

} // verus!
