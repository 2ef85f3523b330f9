//! The limiter task: while armed, it clamps the output volume to a ceiling.
//!
//! A limiter is spawned with a ceiling fixed for its lifetime and a control
//! channel carrying booleans. The first value received decides whether it
//! starts armed (a closed channel defaults to armed). Each pass it reads the
//! volume and, only when the reading exceeds the ceiling, writes the ceiling
//! back — one corrective write per detected breach. After each pass it polls
//! the control channel; a received `false` disarms it and its loop ends, so
//! disabling takes effect within one polling interval.

use crate::channel::channel_send;
use crate::sink::VolumeSink;
use crate::PERCENT_MAX;
use vstd::prelude::*;

verus! {

/// The state of one limiter task: the armed flag and the captured ceiling.
pub struct LimiterState {
    /// Whether the enforcement loop keeps running.
    pub active: bool,
    /// The highest volume allowed while armed; fixed at spawn.
    pub ceiling: u8,
}

/// What observing a control message does to the task's state: a received
/// boolean replaces the armed flag, no message leaves it alone.
pub open spec fn spec_on_control(s: LimiterState, msg: Option<bool>) -> LimiterState {
    match msg {
        Some(armed) => LimiterState { active: armed, ceiling: s.ceiling },
        None => s,
    }
}

/// The corrective write for a reading: exactly the ceiling when the reading
/// exceeds it, and no write at all otherwise.
pub open spec fn spec_correction(ceiling: u8, current: u8) -> Option<u8> {
    if current > ceiling {
        Some(ceiling)
    } else {
        None
    }
}

impl LimiterState {
    /// A limiter state is well formed when its ceiling is a percent.
    pub open spec fn wf(self) -> bool {
        self.ceiling <= PERCENT_MAX
    }

    /// The state adopted at spawn: the first receipt from the control
    /// channel decides the armed flag; a channel that closed before
    /// delivering one defaults to armed.
    pub fn start(ceiling: u8, first: Option<bool>) -> (s: Self)
        requires
            ceiling <= PERCENT_MAX,
        ensures
            s.wf(),
            s.ceiling == ceiling,
            s.active == (match first {
                Some(armed) => armed,
                None => true,
            }),
    {
        let active = match first {
            Some(armed) => armed,
            None => true,
        };
        LimiterState { active, ceiling }
    }

    /// Adopt a polled control message.
    pub fn on_control(&mut self, msg: Option<bool>)
        ensures
            *final(self) == spec_on_control(*old(self), msg),
    {
        if let Some(armed) = msg {
            self.active = armed;
        }
    }

    /// The loop's continue test.
    pub fn should_run(&self) -> (r: bool)
        ensures
            r == self.active,
    {
        self.active
    }

    /// The corrective write for a reading under this state's ceiling.
    pub fn correction(&self, current: u8) -> (r: Option<u8>)
        ensures
            r == spec_correction(self.ceiling, current),
    {
        if current > self.ceiling {
            Some(self.ceiling)
        } else {
            None
        }
    }
}

/// One enforcement pass: read the volume through the sink and, exactly when
/// the reading exceeds the ceiling, write the ceiling back. Returns the
/// reading and the corrective write that was issued for it.
pub fn limiter_pass<S: VolumeSink>(state: &LimiterState, sink: &mut S) -> (r: (u8, Option<u8>))
    requires
        state.wf(),
    ensures
        r.1 == spec_correction(state.ceiling, r.0),
{
    let current = sink.get_volume();
    let write = state.correction(current);
    if let Some(v) = write {
        let _ = sink.set_volume(v);
    }
    (current, write)
}

/// Send the disable signal on a limiter task's control channel. The task
/// disarms on its next poll and its thread then ends; the caller still joins
/// it before treating the limiter as stopped. A closed channel means the
/// task is already gone — that is reported, not an error.
pub fn disable_limiter(tx: &std::sync::mpsc::Sender<bool>) -> (delivered: bool) {
    channel_send(tx, false)
}

/// For every ceiling and every reading: a reading above the ceiling is
/// corrected to exactly the ceiling, and a reading at or below it causes no
/// write.
pub proof fn lemma_correction_exact(ceiling: u8, current: u8)
    ensures
        current > ceiling ==> spec_correction(ceiling, current) == Some(ceiling),
        current <= ceiling ==> spec_correction(ceiling, current) is None,
{
}

/// Observing a disable message disarms the limiter, whatever state it was
/// in: the loop's continue test is false on the very next iteration, so the
/// task ends within one polling interval of the signal being observed.
pub proof fn lemma_disable_disarms(s: LimiterState)
    ensures
        !spec_on_control(s, Some(false)).active,
{
}

} // verus!
