//! Trusted boundary to the standard library's mpsc channels.
//!
//! The command channel and the tasks' cancellation channels are built on
//! `std::sync::mpsc`. Nothing can be promised about what a receive yields —
//! it depends on what other threads have sent — so these wrappers state no
//! more than the shape of each outcome, and every decision taken on a
//! received value lives in verified code.

use vstd::prelude::*;

verus! {

#[verifier::external_type_specification]
#[verifier::external_body]
#[verifier::reject_recursive_types(T)]
pub struct ExSender<T>(std::sync::mpsc::Sender<T>);

#[verifier::external_type_specification]
#[verifier::external_body]
#[verifier::reject_recursive_types(T)]
pub struct ExReceiver<T>(std::sync::mpsc::Receiver<T>);

/// What a non-blocking receive found.
pub enum TryRecvOutcome<T> {
    /// A value was pending.
    Received(T),
    /// Nothing pending; the sending side is still alive.
    Empty,
    /// The sending side is gone and the queue is drained.
    Disconnected,
}

/// Relies on `std::sync::mpsc::Sender::send`: queues the value for the
/// receiver; reports false exactly when the receiving end has been dropped,
/// in which case the value is lost and nothing else happens.
#[verifier::external_body]
pub fn channel_send<T>(tx: &std::sync::mpsc::Sender<T>, value: T) -> (delivered: bool) {
    tx.send(value).is_ok()
}

/// Relies on `std::sync::mpsc::Receiver::recv`: blocks until a value
/// arrives; yields nothing once the sending side is gone and the queue is
/// drained.
#[verifier::external_body]
pub fn channel_recv<T>(rx: &std::sync::mpsc::Receiver<T>) -> (r: Option<T>) {
    rx.recv().ok()
}

/// Relies on `std::sync::mpsc::Receiver::try_recv`: never blocks, and tells
/// a pending value apart from an empty queue and a closed channel.
#[verifier::external_body]
pub fn channel_try_recv<T>(rx: &std::sync::mpsc::Receiver<T>) -> (r: TryRecvOutcome<T>) {
    match rx.try_recv() {
        Ok(value) => TryRecvOutcome::Received(value),
        Err(std::sync::mpsc::TryRecvError::Empty) => TryRecvOutcome::Empty,
        Err(std::sync::mpsc::TryRecvError::Disconnected) => TryRecvOutcome::Disconnected,
    }
}

} // verus!
