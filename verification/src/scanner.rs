//! The device scanner task: keeps a shared snapshot of output devices fresh.
//!
//! The scanner owns a lock-guarded snapshot of device names. Each cycle it
//! fetches the current device list and compares *counts*: the snapshot is
//! replaced wholesale exactly when the fetched count differs from the stored
//! count. A swap of devices that preserves the count is deliberately
//! invisible to it — stronger, content-based comparison would change
//! observable behavior. A diagnostic counter tracks how many scanner tasks
//! are alive: one increment at task start, one decrement at teardown.

use crate::channel::TryRecvOutcome;
use vstd::prelude::*;

verus! {

/// The device-name snapshot shared between the scanner and the control
/// plane. The scanner is its only writer while running; after teardown it
/// retains its last contents, stale but valid.
pub struct DeviceSnapshot {
    /// The stored device names, in the order the last fetch listed them.
    pub devices: Vec<String>,
}

impl DeviceSnapshot {
    /// A snapshot holding the given names.
    pub fn new(devices: Vec<String>) -> (s: Self)
        ensures
            s.devices == devices,
    {
        DeviceSnapshot { devices }
    }

    /// One scanner cycle over a freshly fetched list: replace the snapshot
    /// wholesale if and only if the fetched count differs from the stored
    /// count. Content-only changes with the same count leave it unchanged.
    pub fn refresh(&mut self, fetched: Vec<String>) -> (changed: bool)
        ensures
            changed == (fetched.len() != old(self).devices.len()),
            changed ==> final(self).devices == fetched,
            !changed ==> final(self).devices == old(self).devices,
    {
        if fetched.len() != self.devices.len() {
            self.devices = fetched;
            true
        } else {
            false
        }
    }
}

/// Whether one non-blocking poll of the cancellation channel stops the
/// scanner: only a delivered signal does. A channel that merely closed does
/// not — the task keeps scanning, as it always has; tearing it down takes an
/// explicit signal before the sender is dropped.
pub fn scanner_should_stop(polled: TryRecvOutcome<()>) -> (stop: bool)
    ensures
        stop == (polled is Received),
{
    match polled {
        TryRecvOutcome::Received(_) => true,
        TryRecvOutcome::Empty => false,
        TryRecvOutcome::Disconnected => false,
    }
}

/// The diagnostic count of live scanner tasks after one starts.
pub fn counter_on_start(count: i32) -> (r: i32)
    requires
        count < i32::MAX,
    ensures
        r == count + 1,
{
    count + 1
}

/// The diagnostic count of live scanner tasks after one is joined.
pub fn counter_on_stop(count: i32) -> (r: i32)
    requires
        count > i32::MIN,
    ensures
        r == count - 1,
{
    count - 1
}

} // verus!
