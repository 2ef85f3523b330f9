//! The volume sink abstraction.
//!
//! The limiter can be deployed in two configurations: a *direct* sink that
//! reaches the system's audio facility itself, and a *brokered* sink that
//! routes every read and write through the command channel so the processor
//! serializes access. The two have different concurrency properties — a
//! direct limiter may race benignly with the processor — so they stay
//! distinct implementations of this one trait, selected at construction.
//!
//! The trait promises nothing about the values read or written: what comes
//! back from an audio facility depends on the machine. Everything the
//! limiter decides is specified over the reading it was handed.

use vstd::prelude::*;

verus! {

/// A sink for volume reads and writes.
///
/// Implementations: [`crate::command::BackendState`] (an in-memory,
/// deterministic facility), [`crate::command::BrokeredSink`] (round-trips
/// over the command channel), [`DirectSink`] (straight onto an audio
/// facility), and whatever operating-system facility the embedding program
/// supplies.
pub trait VolumeSink {
    /// Read the current volume. A failing facility reports 0.
    fn get_volume(&mut self) -> u8;

    /// Set the volume to `percent`; reports whether the write was accepted.
    fn set_volume(&mut self, percent: u8) -> bool;
}

/// The full audio facility the command processor consumes: volume reads and
/// writes plus device enumeration. Every operation is best effort — a
/// failing facility reports a default (zero volume, an empty device list)
/// rather than a hard error, because the control loop must keep running.
pub trait AudioBackend {
    /// Read the current volume percent; 0 on failure.
    fn get_volume(&mut self) -> u8;

    /// Set the volume percent; reports whether the write was accepted.
    fn set_volume(&mut self, percent: u8) -> bool;

    /// List the output device names; empty on failure or when unsupported.
    fn list_devices(&mut self) -> Vec<String>;
}

/// The direct deployment variant: the limiter writes straight onto the
/// audio facility, bypassing the command processor's serialization. The
/// resulting race with the processor is benign because every write is an
/// idempotent clamp, not an accumulation.
pub struct DirectSink<B: AudioBackend> {
    /// The facility written to directly.
    pub backend: B,
}

impl<B: AudioBackend> VolumeSink for DirectSink<B> {
    fn get_volume(&mut self) -> u8 {
        self.backend.get_volume()
    }

    fn set_volume(&mut self, percent: u8) -> bool {
        self.backend.set_volume(percent)
    }
}

} // verus!
