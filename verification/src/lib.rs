//! A volume-limiter worker library.
//!
//! The library models and verifies the background subsystem of a volume
//! limiter: a command channel that serializes all access to the system's
//! audio backend behind a single processor, a cancellable limiter task that
//! clamps the output volume to a configured ceiling, a cancellable scanner
//! task that keeps a snapshot of the available output devices fresh, and the
//! control-plane state machine that drives them.
//!
//! Volumes are percentages: integers in `0 ..= 100`.

pub mod channel;
pub mod command;
pub mod control;
pub mod hover;
pub mod limiter;
pub mod percent;
pub mod scanner;
pub mod sink;

use vstd::prelude::*;

verus! {

/// The highest volume percentage: volumes live in `0 ..= PERCENT_MAX`.
pub const PERCENT_MAX: u8 = 100;

} // verus!
