//! The command channel and its processor.
//!
//! All privileged access to the audio facility is funneled through one
//! processor thread. The control plane sends exactly one [`Command`] and
//! then blocks until exactly one [`Response`] arrives before sending the
//! next — strict half-duplex, no pipelining. The processor loops: it takes
//! at most one pending command per iteration, dispatches it against the
//! audio facility, and replies with the same tag.
//!
//! Volumes travel as percents, integers in `0 ..= 100`. Mute is synthesized
//! from the volume being exactly zero: muting sets the volume to zero, and
//! unmuting is a no-op that does not restore the prior volume — no prior
//! volume is ever stored. That non-restoring unmute is deliberate, kept
//! behavior.

use crate::channel::{channel_recv, channel_send, channel_try_recv, TryRecvOutcome};
use crate::sink::{AudioBackend, VolumeSink};
use crate::PERCENT_MAX;
use vstd::prelude::*;

verus! {

/// A request to the command processor. The same tags come back as
/// [`Response`] values with the payload slot filled.
pub enum Command {
    /// Read the current volume.
    GetVolume,
    /// Write the given volume percent.
    SetVolume(u8),
    /// List the output device names.
    ListDevices,
    /// Ask whether the output is muted (volume exactly zero).
    GetMute,
    /// Mute (set volume to zero) or unmute (do nothing).
    SetMute(bool),
    /// Reserved sentinel; the processor answers it with [`Response::Failed`].
    Failed,
}

/// The processor's reply to one [`Command`], carrying the same tag with its
/// payload filled. `Failed` is what the *client* reports locally when the
/// channel is broken; the processor never produces it for a real command.
pub enum Response {
    /// The volume that was read.
    GetVolume(u8),
    /// Echo of the volume that was requested — an acknowledgment, not the
    /// post-write reading; re-query for ground truth.
    SetVolume(u8),
    /// The full device-name snapshot.
    ListDevices(Vec<String>),
    /// Whether the volume read as exactly zero.
    GetMute(bool),
    /// Echo of the requested mute flag.
    SetMute(bool),
    /// The channel was broken, or the command was the reserved sentinel.
    Failed,
}

/// An in-memory audio facility: a volume and a device list, applying every
/// write synchronously. The processor's exact semantics are stated against
/// it, and it stands in for the operating system wherever determinism is
/// wanted.
pub struct BackendState {
    /// The current volume percent.
    pub volume: u8,
    /// The current output device names.
    pub devices: Vec<String>,
}

impl BackendState {
    /// The facility's invariant: the volume is a percent.
    pub open spec fn wf(self) -> bool {
        self.volume <= PERCENT_MAX
    }

    /// A facility holding the given volume and devices.
    pub fn new(volume: u8, devices: Vec<String>) -> (s: Self)
        requires
            volume <= PERCENT_MAX,
        ensures
            s.wf(),
            s.volume == volume,
            s.devices == devices,
    {
        BackendState { volume, devices }
    }
}

impl AudioBackend for BackendState {
    fn get_volume(&mut self) -> u8 {
        self.volume
    }

    fn set_volume(&mut self, percent: u8) -> bool {
        self.volume = percent;
        true
    }

    fn list_devices(&mut self) -> Vec<String> {
        self.devices.clone()
    }
}

impl VolumeSink for BackendState {
    fn get_volume(&mut self) -> u8 {
        self.volume
    }

    fn set_volume(&mut self, percent: u8) -> bool {
        self.volume = percent;
        true
    }
}

/// The volume the facility holds after the processor handles one command
/// against a facility holding `volume`: a set within range is applied, a set
/// out of range is rejected and the prior value retained, muting forces
/// zero, and everything else — unmuting included — changes nothing.
pub open spec fn spec_volume_after(cmd: Command, volume: u8) -> u8 {
    match cmd {
        Command::SetVolume(v) => if v <= PERCENT_MAX {
            v
        } else {
            volume
        },
        Command::SetMute(m) => if m {
            0
        } else {
            volume
        },
        _ => volume,
    }
}

/// The reply owed for one command against the pre-state `s`: same tag as the
/// command, reads reporting the pre-state, sets echoing their payload, and
/// mute reporting whether the volume is exactly zero.
pub open spec fn spec_response_ok(cmd: Command, r: Response, s: BackendState) -> bool {
    match cmd {
        Command::GetVolume => r == Response::GetVolume(s.volume),
        Command::SetVolume(v) => r == Response::SetVolume(v),
        Command::ListDevices => r matches Response::ListDevices(d) && d@ == s.devices@,
        Command::GetMute => r == Response::GetMute(s.volume == 0),
        Command::SetMute(m) => r == Response::SetMute(m),
        Command::Failed => r == Response::Failed,
    }
}

/// Handle one command against the in-memory facility: the exact model of
/// what the processor does per command. Success is owed for every command;
/// only the reserved sentinel is answered with `Failed`.
pub fn process_command(cmd: &Command, state: &mut BackendState) -> (r: Response)
    requires
        old(state).wf(),
    ensures
        final(state).wf(),
        final(state).volume == spec_volume_after(*cmd, old(state).volume),
        final(state).devices == old(state).devices,
        spec_response_ok(*cmd, r, *old(state)),
{
    match cmd {
        Command::GetVolume => Response::GetVolume(state.volume),
        Command::SetVolume(v) => {
            if *v <= PERCENT_MAX {
                state.volume = *v;
            }
            Response::SetVolume(*v)
        },
        Command::ListDevices => {
            let d = state.devices.clone();
            proof {
                assert(d@ =~= state.devices@);
            }
            Response::ListDevices(d)
        },
        Command::GetMute => Response::GetMute(mute_from_volume(state.volume)),
        Command::SetMute(m) => {
            if *m {
                state.volume = 0;
            }
            Response::SetMute(*m)
        },
        Command::Failed => Response::Failed,
    }
}

/// Whether a volume reading means muted: mute is synthesized from the volume
/// being exactly zero.
fn mute_from_volume(current: u8) -> (r: bool)
    ensures
        r == (current == 0),
{
    current == 0
}

/// The processor's dispatch of one command against any audio facility. The
/// reply's tag always matches the command's, sets echo their payload, and
/// `Failed` comes back only for the reserved sentinel.
pub fn dispatch<B: AudioBackend>(cmd: &Command, backend: &mut B) -> (r: Response)
    ensures
        match *cmd {
            Command::GetVolume => r is GetVolume,
            Command::SetVolume(v) => r == Response::SetVolume(v),
            Command::ListDevices => r is ListDevices,
            Command::GetMute => r is GetMute,
            Command::SetMute(m) => r == Response::SetMute(m),
            Command::Failed => r == Response::Failed,
        },
{
    match cmd {
        Command::GetVolume => Response::GetVolume(backend.get_volume()),
        Command::SetVolume(v) => {
            if *v <= PERCENT_MAX {
                let _ = backend.set_volume(*v);
            }
            Response::SetVolume(*v)
        },
        Command::ListDevices => Response::ListDevices(backend.list_devices()),
        Command::GetMute => {
            let current = backend.get_volume();
            Response::GetMute(mute_from_volume(current))
        },
        Command::SetMute(m) => {
            if *m {
                let _ = backend.set_volume(0);
            }
            Response::SetMute(*m)
        },
        Command::Failed => Response::Failed,
    }
}

/// The control plane's end of the command channel.
pub struct CommandClient {
    /// Where commands go out.
    pub tx: std::sync::mpsc::Sender<Command>,
    /// Where the paired responses come back.
    pub rx: std::sync::mpsc::Receiver<Response>,
}

impl CommandClient {
    /// One strict half-duplex round trip: send the command, then block until
    /// the paired response arrives. A channel broken in either direction is
    /// reported as [`Response::Failed`]; what else comes back is whatever
    /// the processor replied.
    pub fn request(&self, cmd: Command) -> Response {
        let delivered = channel_send(&self.tx, cmd);
        if !delivered {
            return Response::Failed;
        }
        match channel_recv(&self.rx) {
            Some(r) => r,
            None => Response::Failed,
        }
    }
}

/// The processor's end of the command channel.
pub struct CommandServer {
    /// Where commands arrive.
    pub rx: std::sync::mpsc::Receiver<Command>,
    /// Where replies go out.
    pub tx: std::sync::mpsc::Sender<Response>,
}

/// What one processor iteration did.
pub enum PollOutcome {
    /// A command was pending; it was dispatched and the reply sent.
    Handled,
    /// Nothing was pending; the processor should idle briefly and poll
    /// again.
    Idle,
    /// The request channel is gone; the processor's loop can end.
    Disconnected,
}

impl CommandServer {
    /// One processor iteration: take at most one pending command, dispatch
    /// it against the facility, and reply. Never blocks; the surrounding
    /// loop provides the idle interval.
    pub fn poll<B: AudioBackend>(&self, backend: &mut B) -> PollOutcome {
        match channel_try_recv(&self.rx) {
            TryRecvOutcome::Received(cmd) => {
                let response = dispatch(&cmd, backend);
                let _ = channel_send(&self.tx, response);
                PollOutcome::Handled
            },
            TryRecvOutcome::Empty => PollOutcome::Idle,
            TryRecvOutcome::Disconnected => PollOutcome::Disconnected,
        }
    }
}

/// A volume sink that routes every read and write through the command
/// channel, so the processor serializes its access with everyone else's.
pub struct BrokeredSink {
    /// The channel endpoints this sink round-trips over.
    pub client: CommandClient,
}

impl VolumeSink for BrokeredSink {
    fn get_volume(&mut self) -> u8 {
        match self.client.request(Command::GetVolume) {
            Response::GetVolume(v) => v,
            _ => 0,
        }
    }

    fn set_volume(&mut self, percent: u8) -> bool {
        match self.client.request(Command::SetVolume(percent)) {
            Response::SetVolume(_) => true,
            _ => false,
        }
    }
}

/// Round trips are strictly sequential, so against a facility that applies
/// writes synchronously, a set followed by a get observes the set's effect:
/// the set is acknowledged with its own value and the get's reply carries
/// exactly the value the set wrote.
pub proof fn lemma_set_then_get_reads_written(
    s0: BackendState,
    s1: BackendState,
    v: u8,
    r1: Response,
    r2: Response,
)
    requires
        s0.wf(),
        v <= PERCENT_MAX,
        spec_response_ok(Command::SetVolume(v), r1, s0),
        s1.volume == spec_volume_after(Command::SetVolume(v), s0.volume),
        spec_response_ok(Command::GetVolume, r2, s1),
    ensures
        r1 == Response::SetVolume(v),
        r2 == Response::GetVolume(v),
{
}

/// Muting and then unmuting does not restore the volume held before the
/// mute: the mute forces zero, the unmute changes nothing, and the volume
/// ends at zero whatever it was before.
pub proof fn lemma_unmute_does_not_restore(volume0: u8)
    ensures
        spec_volume_after(Command::SetMute(true), volume0) == 0,
        spec_volume_after(
            Command::SetMute(false),
            spec_volume_after(Command::SetMute(true), volume0),
        ) == 0,
{
}

} // verus!
