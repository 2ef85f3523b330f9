//! The control plane's state machine.
//!
//! The control plane owns the lifecycle of the limiter and scanner tasks and
//! issues all audio operations as effects. It never touches the audio
//! facility itself: every transition is a pure step from a state and a
//! message to the next state plus a list of [`Effect`] values, which the
//! embedding program performs — spawning or stopping a task, writing a
//! volume, or feeding a follow-up message back into the state machine.
//!
//! Messages that depend on a fresh reading (the current volume, a device
//! list) carry that reading as a payload; the embedding program fetches it
//! when it dispatches the message.

use crate::percent::{
    dec_seq, parses_as_u8, parse_u8_str, percent_input_ok, spec_percent_input_ok, u8_to_string,
    u8_value,
};
use crate::PERCENT_MAX;
use vstd::prelude::*;

verus! {

/// How the user edits the volume.
#[derive(Clone, Copy, Debug, PartialEq, Eq, Structural)]
pub enum InputType {
    /// With a slider.
    Slider,
    /// As text.
    Text,
}

/// The preset limit selections.
#[derive(Clone, Copy, Debug, PartialEq, Eq, Structural)]
pub enum BuiltIn {
    /// A 20 percent ceiling.
    Twenty,
    /// A 50 percent ceiling.
    Fifty,
    /// An 80 percent ceiling.
    Eighty,
    /// A user-entered ceiling.
    Custom,
}

/// The control plane's reportable error states. None of them is fatal: each
/// is displayed for a short window and then cleared.
#[derive(Clone, Copy, Debug, PartialEq, Eq, Structural)]
pub enum ControlError {
    /// A background task failed when it was stopped.
    UpdateError,
    /// The limit text does not denote a percent.
    ParseError,
    /// The volume text does not denote a percent.
    ParseVolError,
    /// An adjustment was attempted while the limiter was armed.
    AdjustWhileOn,
}

/// The preset that a percent value selects.
pub open spec fn builtin_of(p: u8) -> BuiltIn {
    if p == 20 {
        BuiltIn::Twenty
    } else if p == 50 {
        BuiltIn::Fifty
    } else if p == 80 {
        BuiltIn::Eighty
    } else {
        BuiltIn::Custom
    }
}

/// A message the control plane reacts to. Payloads named `current` carry the
/// volume reading the dispatcher fetched just before delivering the message.
#[derive(Debug, PartialEq)]
pub enum ControlMsg {
    /// Arm the limiter; carries the current volume reading.
    EnableLimit(u8),
    /// Disarm the limiter and tear its task down.
    DisableLimit,
    /// New text in the limit field (`true`) or the volume field (`false`).
    ChangePercent(String, bool),
    /// Commit the limit field (`true`) or the volume field (`false`).
    ConfirmPercent(bool),
    /// Select an output device by name; the empty name selects none.
    ChangeDevice(String),
    /// Reconcile with the scanner: the shared snapshot, then a fresh fetch.
    UpdateDeviceList(Vec<String>, Vec<String>),
    /// Re-evaluate whether the limiter should arm or disarm itself.
    AutoLimiter,
    /// Turn the device scanner on or off.
    AutoCheck(bool),
    /// Step the limit (`true`) or the volume (`false`) up or down by one.
    ChangeByOne(bool, bool),
    /// The system volume was read; carries the reading.
    SystemVolChange(u8),
    /// The slider moved, for the limit (`true`) or the volume (`false`).
    SliderVolChange(u8, bool),
    /// Nothing to do.
    Idle,
    /// Switch the volume input style.
    ChangeVolInput(InputType),
    /// Select a preset limit.
    ChangeLimitSel(BuiltIn),
    /// One tick of the error-display clock.
    ClearError,
    /// Turn the automatic limiter on or off.
    ChangeAutoLimiter(bool),
    /// Turn automatic re-arming of the automatic limiter on or off.
    ChangeAutoAutoLimiter(bool),
    /// The limiter toggle was flipped by hand.
    OnToggle(bool),
    /// A device was picked from the list.
    OnPick(String),
}

/// A message the state machine asks to have fed back to itself. The
/// dispatcher turns it into a [`ControlMsg`], fetching whatever fresh
/// reading that message carries.
#[derive(Clone, Debug, PartialEq)]
pub enum FollowUp {
    /// Feed back [`ControlMsg::EnableLimit`] with a fresh volume reading.
    EnableLimit,
    /// Feed back [`ControlMsg::DisableLimit`].
    DisableLimit,
    /// Feed back [`ControlMsg::ConfirmPercent`].
    ConfirmPercent(bool),
    /// Feed back [`ControlMsg::ChangeByOne`].
    ChangeByOne(bool, bool),
    /// Feed back [`ControlMsg::ChangeLimitSel`].
    ChangeLimitSel(BuiltIn),
    /// Feed back [`ControlMsg::ChangeAutoAutoLimiter`].
    ChangeAutoAutoLimiter(bool),
    /// Feed back [`ControlMsg::ChangeDevice`].
    ChangeDevice(String),
}

/// What the embedding program must do after a transition, in order.
#[derive(Clone, Debug, PartialEq)]
pub enum Effect {
    /// Feed the message back into the state machine.
    Requeue(FollowUp),
    /// Spawn the limiter task with this ceiling, starting armed.
    StartLimiter(u8),
    /// Signal the limiter task to stop, then join its thread.
    StopLimiter,
    /// Spawn the device scanner task.
    StartScanner,
    /// Signal the scanner task to stop, then join its thread and report the
    /// join's outcome with [`ControlState::on_scanner_stopped`].
    StopScanner,
    /// Write this volume to the audio facility.
    SetBackendVolume(u8),
}

/// The control plane's state. The embedding program owns the task handles
/// themselves; their presence is what the two `running` flags stand for.
#[derive(Clone, Debug)]
pub struct ControlState {
    /// Whether the limiter is meant to be armed.
    pub limiter: bool,
    /// Whether a limiter task is alive (its handle is held).
    pub limiter_running: bool,
    /// Whether a scanner task is alive (its handle is held).
    pub scanner_running: bool,
    /// The committed limit ceiling.
    pub percent: u8,
    /// The limit field's text.
    pub percent_str: String,
    /// The last known volume.
    pub volume: u8,
    /// The volume field's text.
    pub vol_str: String,
    /// Every device name ever observed.
    pub all_devices: Vec<String>,
    /// The device names currently offered.
    pub devices: Vec<String>,
    /// The selected device, if any.
    pub device: Option<String>,
    /// Whether the device scanner is requested.
    pub autocheck: bool,
    /// Whether the automatic limiter is on.
    pub autolimiter: bool,
    /// Whether the automatic limiter may re-arm itself.
    pub auto_autolimiter: bool,
    /// The error being displayed, if any.
    pub error: Option<ControlError>,
    /// Ticks the current error has been displayed.
    pub error_length: u8,
    /// The volume input style.
    pub input_vol: Option<InputType>,
    /// The selected limit preset.
    pub sel_lim: Option<BuiltIn>,
}

/// `s` holds a string with the same characters as `x`.
pub open spec fn seq_contains_str(s: Seq<String>, x: Seq<char>) -> bool {
    exists|i: int| 0 <= i < s.len() && #[trigger] s[i]@ == x
}

/// Merge `add` into `acc` left to right, appending each name whose
/// characters are not yet present.
pub open spec fn spec_merge(acc: Seq<String>, add: Seq<String>) -> Seq<String>
    decreases add.len(),
{
    if add.len() == 0 {
        acc
    } else {
        let acc2 = if seq_contains_str(acc, add[0]@) {
            acc
        } else {
            acc.push(add[0])
        };
        spec_merge(acc2, add.skip(1))
    }
}

impl ControlState {
    /// The state's invariant: the committed limit and volume are percents
    /// and the error clock stays inside its wrap window.
    pub open spec fn wf(self) -> bool {
        &&& self.percent <= PERCENT_MAX
        &&& self.volume <= PERCENT_MAX
        &&& self.error_length <= 200
    }

    /// The starting state: the devices seen at startup, prefixed with the
    /// empty name for "no device", and the starting volume reading. A
    /// reading outside the percent range counts as a failed read and is
    /// taken as zero. The limit starts at 20 with its preset selected, no
    /// task runs, and the automatic limiter is on.
    pub fn init(fetched: Vec<String>, reading: u8) -> (s: Self)
        ensures
            s.wf(),
            !s.limiter && !s.limiter_running && !s.scanner_running,
            s.percent == 20,
            s.percent_str@ == dec_seq(20),
            s.volume == (if reading <= PERCENT_MAX {
                reading
            } else {
                0
            }),
            s.vol_str@ == dec_seq(s.volume as nat),
            s.all_devices.deep_view() == seq![Seq::<char>::empty()] + fetched.deep_view(),
            s.devices@ == s.all_devices@,
            s.device matches Some(d) && d@ == Seq::<char>::empty(),
            !s.autocheck && s.autolimiter && s.auto_autolimiter,
            s.error is None && s.error_length == 0,
            s.input_vol == Some(InputType::Slider),
            s.sel_lim == Some(BuiltIn::Twenty),
    {
        let mut list: Vec<String> = Vec::new();
        list.push(String::new());
        let mut rest = fetched;
        list.append(&mut rest);
        let all_devices = list.clone();
        proof {
            assert(all_devices@ =~= list@);
        }
        let volume: u8 = if reading <= PERCENT_MAX {
            reading
        } else {
            0
        };
        ControlState {
            limiter: false,
            limiter_running: false,
            scanner_running: false,
            percent: 20,
            percent_str: u8_to_string(20),
            volume,
            vol_str: u8_to_string(volume),
            all_devices,
            devices: list,
            device: Some(String::new()),
            autocheck: false,
            autolimiter: true,
            auto_autolimiter: true,
            error: None,
            error_length: 0,
            input_vol: Some(InputType::Slider),
            sel_lim: Some(BuiltIn::Twenty),
        }
    }
}

/// Arming the limiter. With no task alive and the limit text committed, a
/// task is spawned with the current limit as its ceiling and the shown
/// volume drops to the ceiling if the fresh reading is above it. Uncommitted
/// limit text is committed first and the message replayed. With a task
/// already alive, nothing happens.
pub open spec fn step_enable_limit(
    pre: ControlState,
    current: u8,
    post: ControlState,
    eff: Seq<Effect>,
) -> bool {
    if !pre.limiter_running {
        if pre.percent_str@ == dec_seq(pre.percent as nat) {
            &&& post == ControlState {
                limiter: true,
                limiter_running: true,
                volume: post.volume,
                vol_str: post.vol_str,
                ..pre
            }
            &&& post.volume == if current < pre.percent {
                current
            } else {
                pre.percent
            }
            &&& post.vol_str@ == dec_seq(post.volume as nat)
            &&& eff == seq![Effect::StartLimiter(pre.percent)]
        } else {
            &&& post == ControlState { volume: post.volume, vol_str: post.vol_str, ..pre }
            &&& post.volume == if current <= PERCENT_MAX {
                current
            } else {
                pre.volume
            }
            &&& post.vol_str@ == dec_seq(post.volume as nat)
            &&& eff == seq![
                Effect::Requeue(FollowUp::ConfirmPercent(true)),
                Effect::Requeue(FollowUp::EnableLimit),
            ]
        }
    } else {
        post == pre && eff == Seq::<Effect>::empty()
    }
}

/// Disarming the limiter: if a task is alive it is signalled and joined;
/// otherwise nothing happens.
pub open spec fn step_disable_limit(pre: ControlState, post: ControlState, eff: Seq<Effect>) -> bool {
    if pre.limiter_running {
        &&& post == ControlState { limiter: false, limiter_running: false, ..pre }
        &&& eff == seq![Effect::StopLimiter]
    } else {
        post == pre && eff == Seq::<Effect>::empty()
    }
}

/// New field text: it is stored as typed, and the matching parse error is
/// raised afresh when it does not denote a percent, or cleared when it does.
pub open spec fn step_change_percent(
    pre: ControlState,
    input: String,
    limit: bool,
    post: ControlState,
    eff: Seq<Effect>,
) -> bool {
    &&& eff == Seq::<Effect>::empty()
    &&& if limit {
        &&& post == ControlState {
            percent_str: post.percent_str,
            error: post.error,
            error_length: post.error_length,
            ..pre
        }
        &&& post.percent_str == input
        &&& if spec_percent_input_ok(input@) {
            post.error is None && post.error_length == pre.error_length
        } else {
            post.error == Some(ControlError::ParseError) && post.error_length == 0
        }
    } else {
        &&& post == ControlState {
            vol_str: post.vol_str,
            error: post.error,
            error_length: post.error_length,
            ..pre
        }
        &&& post.vol_str == input
        &&& if spec_percent_input_ok(input@) {
            post.error is None && post.error_length == pre.error_length
        } else {
            post.error == Some(ControlError::ParseVolError) && post.error_length == 0
        }
    }
}

/// The committed limit after confirming the limit text: text that denotes a
/// percent commits its value; a failed parse, or a parse to a value above
/// 100, is rejected and the prior value retained.
pub open spec fn confirmed_percent(pre: ControlState) -> u8 {
    if spec_percent_input_ok(pre.percent_str@) {
        u8_value(pre.percent_str@) as u8
    } else {
        pre.percent
    }
}

/// Whether confirming the volume text is accepted. With the limiter
/// disarmed, the text must denote a percent — a parse to a value above 100
/// is rejected like a failed parse, and the prior value retained. With the
/// limiter armed, any parsed value is accepted and then capped at the limit:
/// that cap is the limiter's own semantics, not a range rejection.
pub open spec fn volume_commit_ok(pre: ControlState) -> bool {
    if pre.limiter {
        parses_as_u8(pre.vol_str@)
    } else {
        spec_percent_input_ok(pre.vol_str@)
    }
}

/// The committed volume after confirming the volume text: a rejected commit
/// keeps the prior value; an accepted one commits the parsed value, capped
/// at the limit while the limiter is armed.
pub open spec fn confirmed_volume(pre: ControlState) -> u8 {
    if volume_commit_ok(pre) {
        if pre.limiter && u8_value(pre.vol_str@) > pre.percent {
            pre.percent
        } else {
            u8_value(pre.vol_str@) as u8
        }
    } else {
        pre.volume
    }
}

/// Committing a field. Limit text is committed only with the limiter
/// disarmed — with it armed the limiter is torn down, the commit replayed
/// and the limiter re-armed. A rejected commit raises the parse error and
/// keeps the prior value. Committing the volume field also writes the
/// committed volume to the audio facility, accepted or not.
pub open spec fn step_confirm_percent(
    pre: ControlState,
    limit: bool,
    post: ControlState,
    eff: Seq<Effect>,
) -> bool {
    if limit && !pre.limiter {
        &&& post == ControlState {
            percent: confirmed_percent(pre),
            percent_str: post.percent_str,
            error: post.error,
            error_length: post.error_length,
            sel_lim: Some(builtin_of(confirmed_percent(pre))),
            ..pre
        }
        &&& post.percent_str@ == dec_seq(confirmed_percent(pre) as nat)
        &&& if spec_percent_input_ok(pre.percent_str@) {
            post.error == pre.error && post.error_length == pre.error_length
        } else {
            post.error == Some(ControlError::ParseError) && post.error_length == 0
        }
        &&& eff == Seq::<Effect>::empty()
    } else if limit {
        &&& post == pre
        &&& eff == seq![
            Effect::Requeue(FollowUp::DisableLimit),
            Effect::Requeue(FollowUp::ConfirmPercent(true)),
            Effect::Requeue(FollowUp::EnableLimit),
        ]
    } else {
        &&& post == ControlState {
            volume: confirmed_volume(pre),
            vol_str: post.vol_str,
            error: post.error,
            error_length: post.error_length,
            ..pre
        }
        &&& post.vol_str@ == dec_seq(confirmed_volume(pre) as nat)
        &&& if volume_commit_ok(pre) {
            post.error == pre.error && post.error_length == pre.error_length
        } else {
            post.error == Some(ControlError::ParseError) && post.error_length == 0
        }
        &&& eff == seq![Effect::SetBackendVolume(confirmed_volume(pre))]
    }
}

/// Selecting a device by name: the empty name selects none.
pub open spec fn step_change_device(
    pre: ControlState,
    device: String,
    post: ControlState,
    eff: Seq<Effect>,
) -> bool {
    &&& eff == Seq::<Effect>::empty()
    &&& post == ControlState { device: post.device, ..pre }
    &&& if device@ == Seq::<char>::empty() {
        post.device is None
    } else {
        post.device == Some(device)
    }
}

/// Reconciling with the scanner's shared snapshot: only when its count
/// differs from the offered list's count are unseen names merged into the
/// record of all devices and the offered list replaced by the fresh fetch.
pub open spec fn step_update_device_list(
    pre: ControlState,
    shared: Seq<String>,
    fresh: Vec<String>,
    post: ControlState,
    eff: Seq<Effect>,
) -> bool {
    &&& eff == Seq::<Effect>::empty()
    &&& if shared.len() != pre.devices@.len() {
        &&& post == ControlState {
            all_devices: post.all_devices,
            devices: post.devices,
            ..pre
        }
        &&& post.all_devices@ == spec_merge(pre.all_devices@, shared)
        &&& post.devices == fresh
    } else {
        post == pre
    }
}

/// The automatic limiter's decision. When it is allowed to act: a selected,
/// present, non-empty device arms a disarmed limiter; a missing device (or
/// none selected while armed) clears the selection and disarms.
pub open spec fn step_auto_limiter(pre: ControlState, post: ControlState, eff: Seq<Effect>) -> bool {
    if pre.autolimiter && pre.auto_autolimiter {
        let name = match pre.device {
            Some(d) => d@,
            None => Seq::<char>::empty(),
        };
        let in_list = seq_contains_str(pre.devices@, name);
        let some_nonempty = match pre.device {
            Some(d) => d@ != Seq::<char>::empty(),
            None => false,
        };
        if in_list && some_nonempty && !pre.limiter {
            post == pre && eff == seq![Effect::Requeue(FollowUp::EnableLimit)]
        } else if !in_list || (pre.device is None && pre.limiter) {
            &&& post == ControlState { device: post.device, ..pre }
            &&& post.device matches Some(d) && d@ == Seq::<char>::empty()
            &&& eff == seq![Effect::Requeue(FollowUp::DisableLimit)]
        } else {
            post == pre && eff == Seq::<Effect>::empty()
        }
    } else {
        post == pre && eff == Seq::<Effect>::empty()
    }
}

/// Turning the scanner on or off. The request is recorded either way; a
/// task is spawned only if none is alive, and stopped only if one is.
pub open spec fn step_auto_check(
    pre: ControlState,
    status: bool,
    post: ControlState,
    eff: Seq<Effect>,
) -> bool {
    if status && !pre.scanner_running {
        &&& post == ControlState { autocheck: true, scanner_running: true, ..pre }
        &&& eff == seq![Effect::StartScanner]
    } else if !status && pre.scanner_running {
        &&& post == ControlState { autocheck: false, scanner_running: false, ..pre }
        &&& eff == seq![Effect::StopScanner]
    } else {
        post == ControlState { autocheck: status, ..pre } && eff == Seq::<Effect>::empty()
    }
}

/// The limit after one up or down step. A step up past 100 falls through to
/// the step-down branch — kept behavior, not corrected.
pub open spec fn stepped_percent(pre: ControlState, increase: bool) -> u8 {
    if increase && pre.percent < PERCENT_MAX {
        (pre.percent + 1) as u8
    } else if pre.percent > 0 {
        (pre.percent - 1) as u8
    } else {
        pre.percent
    }
}

/// The volume after one up or down step: a step up applies only below 100
/// and, with the limiter armed, only below the limit; a blocked step up at
/// 100 falls through to the step-down branch — kept behavior.
pub open spec fn stepped_volume(pre: ControlState, increase: bool) -> u8 {
    if increase && pre.volume < PERCENT_MAX {
        if (pre.volume < pre.percent && pre.limiter) || !pre.limiter {
            (pre.volume + 1) as u8
        } else {
            pre.volume
        }
    } else if pre.volume > 0 {
        (pre.volume - 1) as u8
    } else {
        pre.volume
    }
}

/// Stepping a value by one. The step applies only when the field text
/// matches the committed value; otherwise the commit is replayed first and
/// the step after it. Stepping the limit while armed tears the limiter
/// down, replays, and re-arms. A stepped volume is written to the facility.
pub open spec fn step_change_by_one(
    pre: ControlState,
    increase: bool,
    limit: bool,
    post: ControlState,
    eff: Seq<Effect>,
) -> bool {
    if limit {
        if pre.percent_str@ == dec_seq(pre.percent as nat) && !pre.limiter {
            &&& post == ControlState {
                percent: stepped_percent(pre, increase),
                percent_str: post.percent_str,
                sel_lim: Some(builtin_of(stepped_percent(pre, increase))),
                ..pre
            }
            &&& post.percent_str@ == dec_seq(stepped_percent(pre, increase) as nat)
            &&& eff == Seq::<Effect>::empty()
        } else if pre.limiter {
            &&& post == pre
            &&& eff == seq![
                Effect::Requeue(FollowUp::DisableLimit),
                Effect::Requeue(FollowUp::ConfirmPercent(true)),
                Effect::Requeue(FollowUp::ChangeByOne(increase, true)),
                Effect::Requeue(FollowUp::EnableLimit),
            ]
        } else {
            &&& post == pre
            &&& eff == seq![
                Effect::Requeue(FollowUp::ConfirmPercent(true)),
                Effect::Requeue(FollowUp::ChangeByOne(increase, true)),
            ]
        }
    } else {
        if pre.vol_str@ == dec_seq(pre.volume as nat) {
            &&& post == ControlState {
                volume: stepped_volume(pre, increase),
                vol_str: post.vol_str,
                ..pre
            }
            &&& post.vol_str@ == dec_seq(stepped_volume(pre, increase) as nat)
            &&& eff == seq![Effect::SetBackendVolume(stepped_volume(pre, increase))]
        } else {
            &&& post == pre
            &&& eff == seq![
                Effect::Requeue(FollowUp::ConfirmPercent(false)),
                Effect::Requeue(FollowUp::ChangeByOne(increase, false)),
            ]
        }
    }
}

/// Adopting a system volume reading: a changed, in-range reading is shown;
/// a reading outside the percent range is rejected and the prior value
/// retained.
pub open spec fn step_system_vol_change(
    pre: ControlState,
    current: u8,
    post: ControlState,
    eff: Seq<Effect>,
) -> bool {
    &&& eff == Seq::<Effect>::empty()
    &&& if current != pre.volume && current <= PERCENT_MAX {
        &&& post == ControlState { volume: current, vol_str: post.vol_str, ..pre }
        &&& post.vol_str@ == dec_seq(current as nat)
    } else {
        post == pre
    }
}

/// A slider move: a changed limit is committed silently (its text and
/// preset are left alone); a changed volume is shown and written to the
/// facility. Values outside the percent range are rejected.
pub open spec fn step_slider_vol_change(
    pre: ControlState,
    value: u8,
    limit: bool,
    post: ControlState,
    eff: Seq<Effect>,
) -> bool {
    if limit {
        &&& eff == Seq::<Effect>::empty()
        &&& if value != pre.percent && value <= PERCENT_MAX {
            post == ControlState { percent: value, ..pre }
        } else {
            post == pre
        }
    } else {
        if value != pre.volume && value <= PERCENT_MAX {
            &&& post == ControlState { volume: value, vol_str: post.vol_str, ..pre }
            &&& post.vol_str@ == dec_seq(value as nat)
            &&& eff == seq![Effect::SetBackendVolume(value)]
        } else {
            post == pre && eff == Seq::<Effect>::empty()
        }
    }
}

/// Selecting a preset: a numbered preset commits its value and re-renders
/// the limit text; the custom preset confirms whatever text stands. With
/// the limiter armed, it is torn down, the selection replayed, and re-armed.
pub open spec fn step_change_limit_sel(
    pre: ControlState,
    choice: BuiltIn,
    post: ControlState,
    eff: Seq<Effect>,
) -> bool {
    if !pre.limiter {
        match choice {
            BuiltIn::Custom => {
                &&& post == ControlState { sel_lim: Some(BuiltIn::Custom), ..pre }
                &&& eff == seq![Effect::Requeue(FollowUp::ConfirmPercent(true))]
            },
            _ => {
                let value: u8 = match choice {
                    BuiltIn::Twenty => 20,
                    BuiltIn::Fifty => 50,
                    BuiltIn::Eighty => 80,
                    BuiltIn::Custom => pre.percent,
                };
                &&& post == ControlState {
                    percent: value,
                    percent_str: post.percent_str,
                    sel_lim: Some(choice),
                    ..pre
                }
                &&& post.percent_str@ == dec_seq(value as nat)
                &&& eff == Seq::<Effect>::empty()
            },
        }
    } else {
        &&& post == pre
        &&& eff == seq![
            Effect::Requeue(FollowUp::DisableLimit),
            Effect::Requeue(FollowUp::ChangeLimitSel(choice)),
            Effect::Requeue(FollowUp::EnableLimit),
        ]
    }
}

/// One tick of the error-display clock: on the third tick the error is
/// cleared, and the clock wraps back once it passes 200 so it never
/// overflows.
pub open spec fn step_clear_error(pre: ControlState, post: ControlState, eff: Seq<Effect>) -> bool {
    let ticked = (pre.error_length + 1) as u8;
    &&& eff == Seq::<Effect>::empty()
    &&& post == ControlState {
        error: if ticked == 3 {
            None
        } else {
            pre.error
        },
        error_length: if ticked > 200 {
            4
        } else {
            ticked
        },
        ..pre
    }
}

/// Flipping the limiter toggle by hand turns automatic re-arming off and
/// feeds back the matching arm or disarm message.
pub open spec fn step_on_toggle(
    pre: ControlState,
    toggle: bool,
    post: ControlState,
    eff: Seq<Effect>,
) -> bool {
    &&& post == ControlState { auto_autolimiter: false, ..pre }
    &&& eff == seq![
        Effect::Requeue(
            if toggle {
                FollowUp::EnableLimit
            } else {
                FollowUp::DisableLimit
            },
        ),
    ]
}

/// Picking a device re-enables automatic re-arming and then selects it.
pub open spec fn step_on_pick(
    pre: ControlState,
    device: String,
    post: ControlState,
    eff: Seq<Effect>,
) -> bool {
    &&& post == pre
    &&& eff.len() == 2
    &&& eff[0] == Effect::Requeue(FollowUp::ChangeAutoAutoLimiter(true))
    &&& eff[1] matches Effect::Requeue(FollowUp::ChangeDevice(d)) && d == device
}

/// The whole transition relation: what one message does to the state and
/// which effects it asks for, in order.
pub open spec fn spec_step(
    pre: ControlState,
    msg: ControlMsg,
    post: ControlState,
    eff: Seq<Effect>,
) -> bool {
    match msg {
        ControlMsg::EnableLimit(current) => step_enable_limit(pre, current, post, eff),
        ControlMsg::DisableLimit => step_disable_limit(pre, post, eff),
        ControlMsg::ChangePercent(input, limit) => step_change_percent(pre, input, limit, post, eff),
        ControlMsg::ConfirmPercent(limit) => step_confirm_percent(pre, limit, post, eff),
        ControlMsg::ChangeDevice(device) => step_change_device(pre, device, post, eff),
        ControlMsg::UpdateDeviceList(shared, fresh) => step_update_device_list(
            pre,
            shared@,
            fresh,
            post,
            eff,
        ),
        ControlMsg::AutoLimiter => step_auto_limiter(pre, post, eff),
        ControlMsg::AutoCheck(status) => step_auto_check(pre, status, post, eff),
        ControlMsg::ChangeByOne(increase, limit) => step_change_by_one(
            pre,
            increase,
            limit,
            post,
            eff,
        ),
        ControlMsg::SystemVolChange(current) => step_system_vol_change(pre, current, post, eff),
        ControlMsg::SliderVolChange(value, limit) => step_slider_vol_change(
            pre,
            value,
            limit,
            post,
            eff,
        ),
        ControlMsg::Idle => post == pre && eff == Seq::<Effect>::empty(),
        ControlMsg::ChangeVolInput(choice) => post == ControlState {
            input_vol: Some(choice),
            ..pre
        } && eff == Seq::<Effect>::empty(),
        ControlMsg::ChangeLimitSel(choice) => step_change_limit_sel(pre, choice, post, eff),
        ControlMsg::ClearError => step_clear_error(pre, post, eff),
        ControlMsg::ChangeAutoLimiter(status) => post == ControlState {
            autolimiter: status,
            ..pre
        } && eff == Seq::<Effect>::empty(),
        ControlMsg::ChangeAutoAutoLimiter(status) => post == ControlState {
            auto_autolimiter: status,
            ..pre
        } && eff == Seq::<Effect>::empty(),
        ControlMsg::OnToggle(toggle) => step_on_toggle(pre, toggle, post, eff),
        ControlMsg::OnPick(device) => step_on_pick(pre, device, post, eff),
    }
}

/// `v` holds a string with the same characters as `x`.
pub fn vec_contains_str(v: &Vec<String>, x: &String) -> (r: bool)
    ensures
        r == seq_contains_str(v@, x@),
{
    let n = v.len();
    let mut i: usize = 0;
    while i < n
        invariant
            0 <= i <= n,
            n == v@.len(),
            forall|j: int| 0 <= j < i ==> #[trigger] v@[j]@ != x@,
        decreases n - i,
    {
        let entry = &v[i];
        if entry.eq(x) {
            return true;
        }
        i = i + 1;
    }
    false
}

/// Merge `shared` into `all` left to right, appending each name not yet
/// present by character comparison.
fn merge_devices(all: &mut Vec<String>, shared: &Vec<String>)
    ensures
        final(all)@ == spec_merge(old(all)@, shared@),
{
    let n = shared.len();
    let mut i: usize = 0;
    while i < n
        invariant
            0 <= i <= n,
            n == shared@.len(),
            spec_merge(all@, shared@.skip(i as int)) == spec_merge(old(all)@, shared@.skip(0)),
        decreases n - i,
    {
        proof {
            assert(shared@.skip(i as int)[0] == shared@[i as int]);
            assert(shared@.skip(i as int).skip(1) =~= shared@.skip(i as int + 1));
        }
        let ghost before = all@;
        if !vec_contains_str(all, &shared[i]) {
            all.push(shared[i].clone());
            proof {
                assert(all@ =~= before.push(shared@[i as int]));
            }
        }
        i = i + 1;
    }
    proof {
        assert(shared@.skip(n as int) =~= Seq::<String>::empty());
        assert(shared@.skip(0) =~= shared@);
    }
}

impl ControlState {
    fn do_enable_limit(&mut self, current: u8) -> (eff: Vec<Effect>)
        requires
            old(self).wf(),
        ensures
            final(self).wf(),
            step_enable_limit(*old(self), current, *final(self), eff@),
    {
        let mut eff: Vec<Effect> = Vec::new();
        if !self.limiter_running {
            let rendered = u8_to_string(self.percent);
            if self.percent_str.eq(&rendered) {
                self.limiter = true;
                self.limiter_running = true;
                self.volume = if current < self.percent {
                    current
                } else {
                    self.percent
                };
                self.vol_str = u8_to_string(self.volume);
                eff.push(Effect::StartLimiter(self.percent));
                proof {
                    assert(eff@ =~= seq![Effect::StartLimiter(self.percent)]);
                }
            } else {
                if current <= PERCENT_MAX {
                    self.volume = current;
                }
                self.vol_str = u8_to_string(self.volume);
                eff.push(Effect::Requeue(FollowUp::ConfirmPercent(true)));
                eff.push(Effect::Requeue(FollowUp::EnableLimit));
                proof {
                    assert(eff@ =~= seq![
                        Effect::Requeue(FollowUp::ConfirmPercent(true)),
                        Effect::Requeue(FollowUp::EnableLimit),
                    ]);
                }
            }
        }
        eff
    }

    fn do_disable_limit(&mut self) -> (eff: Vec<Effect>)
        ensures
            step_disable_limit(*old(self), *final(self), eff@),
    {
        let mut eff: Vec<Effect> = Vec::new();
        if self.limiter_running {
            self.limiter = false;
            self.limiter_running = false;
            eff.push(Effect::StopLimiter);
            proof {
                assert(eff@ =~= seq![Effect::StopLimiter]);
            }
        }
        eff
    }

    fn do_change_percent(&mut self, input: String, limit: bool) -> (eff: Vec<Effect>)
        ensures
            step_change_percent(*old(self), input, limit, *final(self), eff@),
    {
        let valid = percent_input_ok(input.as_str());
        if limit {
            self.percent_str = input;
            if !valid {
                self.error = Some(ControlError::ParseError);
                self.error_length = 0;
            } else {
                self.error = None;
            }
        } else {
            self.vol_str = input;
            if !valid {
                self.error = Some(ControlError::ParseVolError);
                self.error_length = 0;
            } else {
                self.error = None;
            }
        }
        Vec::new()
    }

    fn do_confirm_percent(&mut self, limit: bool) -> (eff: Vec<Effect>)
        requires
            old(self).wf(),
        ensures
            final(self).wf(),
            step_confirm_percent(*old(self), limit, *final(self), eff@),
    {
        let mut eff: Vec<Effect> = Vec::new();
        if limit && !self.limiter {
            match parse_u8_str(self.percent_str.as_str()) {
                Some(v) => {
                    if v <= PERCENT_MAX {
                        self.percent = v;
                    } else {
                        self.error = Some(ControlError::ParseError);
                        self.error_length = 0;
                    }
                },
                None => {
                    self.error = Some(ControlError::ParseError);
                    self.error_length = 0;
                },
            }
            self.percent_str = u8_to_string(self.percent);
            self.sel_lim = Some(
                if self.percent == 20 {
                    BuiltIn::Twenty
                } else if self.percent == 50 {
                    BuiltIn::Fifty
                } else if self.percent == 80 {
                    BuiltIn::Eighty
                } else {
                    BuiltIn::Custom
                },
            );
        } else if limit {
            eff.push(Effect::Requeue(FollowUp::DisableLimit));
            eff.push(Effect::Requeue(FollowUp::ConfirmPercent(true)));
            eff.push(Effect::Requeue(FollowUp::EnableLimit));
            proof {
                assert(eff@ =~= seq![
                    Effect::Requeue(FollowUp::DisableLimit),
                    Effect::Requeue(FollowUp::ConfirmPercent(true)),
                    Effect::Requeue(FollowUp::EnableLimit),
                ]);
            }
        } else {
            match parse_u8_str(self.vol_str.as_str()) {
                Some(v) => {
                    if self.limiter {
                        self.volume = if v <= self.percent {
                            v
                        } else {
                            self.percent
                        };
                    } else if v <= PERCENT_MAX {
                        self.volume = v;
                    } else {
                        self.error = Some(ControlError::ParseError);
                        self.error_length = 0;
                    }
                },
                None => {
                    self.error = Some(ControlError::ParseError);
                    self.error_length = 0;
                },
            }
            self.vol_str = u8_to_string(self.volume);
            eff.push(Effect::SetBackendVolume(self.volume));
            proof {
                assert(eff@ =~= seq![Effect::SetBackendVolume(self.volume)]);
            }
        }
        eff
    }

    fn do_change_device(&mut self, device: String) -> (eff: Vec<Effect>)
        ensures
            step_change_device(*old(self), device, *final(self), eff@),
    {
        if device.eq(&String::new()) {
            self.device = None;
        } else {
            self.device = Some(device);
        }
        Vec::new()
    }

    fn do_update_device_list(&mut self, shared: Vec<String>, fresh: Vec<String>) -> (eff: Vec<
        Effect,
    >)
        ensures
            step_update_device_list(*old(self), shared@, fresh, *final(self), eff@),
    {
        if shared.len() != self.devices.len() {
            merge_devices(&mut self.all_devices, &shared);
            self.devices = fresh;
        }
        Vec::new()
    }

    fn do_auto_limiter(&mut self) -> (eff: Vec<Effect>)
        ensures
            step_auto_limiter(*old(self), *final(self), eff@),
    {
        let mut eff: Vec<Effect> = Vec::new();
        if self.autolimiter && self.auto_autolimiter {
            let empty = String::new();
            let name: &String = match &self.device {
                Some(d) => d,
                None => &empty,
            };
            let in_list = vec_contains_str(&self.devices, name);
            let some_nonempty = match &self.device {
                Some(d) => !d.eq(&empty),
                None => false,
            };
            if in_list && some_nonempty && !self.limiter {
                eff.push(Effect::Requeue(FollowUp::EnableLimit));
                proof {
                    assert(eff@ =~= seq![Effect::Requeue(FollowUp::EnableLimit)]);
                }
            } else if !in_list || (self.device.is_none() && self.limiter) {
                self.device = Some(String::new());
                eff.push(Effect::Requeue(FollowUp::DisableLimit));
                proof {
                    assert(eff@ =~= seq![Effect::Requeue(FollowUp::DisableLimit)]);
                }
            }
        }
        eff
    }

    fn do_auto_check(&mut self, status: bool) -> (eff: Vec<Effect>)
        ensures
            step_auto_check(*old(self), status, *final(self), eff@),
    {
        self.autocheck = status;
        let mut eff: Vec<Effect> = Vec::new();
        if status {
            if !self.scanner_running {
                self.scanner_running = true;
                eff.push(Effect::StartScanner);
                proof {
                    assert(eff@ =~= seq![Effect::StartScanner]);
                }
            }
        } else {
            if self.scanner_running {
                self.scanner_running = false;
                eff.push(Effect::StopScanner);
                proof {
                    assert(eff@ =~= seq![Effect::StopScanner]);
                }
            }
        }
        eff
    }

    fn do_change_by_one(&mut self, increase: bool, limit: bool) -> (eff: Vec<Effect>)
        requires
            old(self).wf(),
        ensures
            final(self).wf(),
            step_change_by_one(*old(self), increase, limit, *final(self), eff@),
    {
        let mut eff: Vec<Effect> = Vec::new();
        if limit {
            let rendered = u8_to_string(self.percent);
            if self.percent_str.eq(&rendered) && !self.limiter {
                if increase && self.percent < PERCENT_MAX {
                    self.percent = self.percent + 1;
                } else if self.percent > 0 {
                    self.percent = self.percent - 1;
                }
                self.sel_lim = Some(
                    if self.percent == 20 {
                        BuiltIn::Twenty
                    } else if self.percent == 50 {
                        BuiltIn::Fifty
                    } else if self.percent == 80 {
                        BuiltIn::Eighty
                    } else {
                        BuiltIn::Custom
                    },
                );
                self.percent_str = u8_to_string(self.percent);
            } else if self.limiter {
                eff.push(Effect::Requeue(FollowUp::DisableLimit));
                eff.push(Effect::Requeue(FollowUp::ConfirmPercent(true)));
                eff.push(Effect::Requeue(FollowUp::ChangeByOne(increase, true)));
                eff.push(Effect::Requeue(FollowUp::EnableLimit));
                proof {
                    assert(eff@ =~= seq![
                        Effect::Requeue(FollowUp::DisableLimit),
                        Effect::Requeue(FollowUp::ConfirmPercent(true)),
                        Effect::Requeue(FollowUp::ChangeByOne(increase, true)),
                        Effect::Requeue(FollowUp::EnableLimit),
                    ]);
                }
            } else {
                eff.push(Effect::Requeue(FollowUp::ConfirmPercent(true)));
                eff.push(Effect::Requeue(FollowUp::ChangeByOne(increase, true)));
                proof {
                    assert(eff@ =~= seq![
                        Effect::Requeue(FollowUp::ConfirmPercent(true)),
                        Effect::Requeue(FollowUp::ChangeByOne(increase, true)),
                    ]);
                }
            }
        } else {
            let rendered = u8_to_string(self.volume);
            if self.vol_str.eq(&rendered) {
                if increase && self.volume < PERCENT_MAX {
                    if (self.volume < self.percent && self.limiter) || !self.limiter {
                        self.volume = self.volume + 1;
                    }
                } else if self.volume > 0 {
                    self.volume = self.volume - 1;
                }
                self.vol_str = u8_to_string(self.volume);
                eff.push(Effect::SetBackendVolume(self.volume));
                proof {
                    assert(eff@ =~= seq![Effect::SetBackendVolume(self.volume)]);
                }
            } else {
                eff.push(Effect::Requeue(FollowUp::ConfirmPercent(false)));
                eff.push(Effect::Requeue(FollowUp::ChangeByOne(increase, false)));
                proof {
                    assert(eff@ =~= seq![
                        Effect::Requeue(FollowUp::ConfirmPercent(false)),
                        Effect::Requeue(FollowUp::ChangeByOne(increase, false)),
                    ]);
                }
            }
        }
        eff
    }

    fn do_system_vol_change(&mut self, current: u8) -> (eff: Vec<Effect>)
        ensures
            step_system_vol_change(*old(self), current, *final(self), eff@),
    {
        if current != self.volume && current <= PERCENT_MAX {
            self.volume = current;
            self.vol_str = u8_to_string(self.volume);
        }
        Vec::new()
    }

    fn do_slider_vol_change(&mut self, value: u8, limit: bool) -> (eff: Vec<Effect>)
        ensures
            step_slider_vol_change(*old(self), value, limit, *final(self), eff@),
    {
        let mut eff: Vec<Effect> = Vec::new();
        if limit {
            if value != self.percent && value <= PERCENT_MAX {
                self.percent = value;
            }
        } else {
            if value != self.volume && value <= PERCENT_MAX {
                self.volume = value;
                self.vol_str = u8_to_string(self.volume);
                eff.push(Effect::SetBackendVolume(value));
                proof {
                    assert(eff@ =~= seq![Effect::SetBackendVolume(value)]);
                }
            }
        }
        eff
    }

    fn do_change_limit_sel(&mut self, choice: BuiltIn) -> (eff: Vec<Effect>)
        ensures
            step_change_limit_sel(*old(self), choice, *final(self), eff@),
    {
        let mut eff: Vec<Effect> = Vec::new();
        if !self.limiter {
            match choice {
                BuiltIn::Twenty => {
                    self.percent = 20;
                    self.percent_str = u8_to_string(20);
                },
                BuiltIn::Fifty => {
                    self.percent = 50;
                    self.percent_str = u8_to_string(50);
                },
                BuiltIn::Eighty => {
                    self.percent = 80;
                    self.percent_str = u8_to_string(80);
                },
                BuiltIn::Custom => {
                    eff.push(Effect::Requeue(FollowUp::ConfirmPercent(true)));
                    proof {
                        assert(eff@ =~= seq![Effect::Requeue(FollowUp::ConfirmPercent(true))]);
                    }
                },
            }
            self.sel_lim = Some(choice);
        } else {
            eff.push(Effect::Requeue(FollowUp::DisableLimit));
            eff.push(Effect::Requeue(FollowUp::ChangeLimitSel(choice)));
            eff.push(Effect::Requeue(FollowUp::EnableLimit));
            proof {
                assert(eff@ =~= seq![
                    Effect::Requeue(FollowUp::DisableLimit),
                    Effect::Requeue(FollowUp::ChangeLimitSel(choice)),
                    Effect::Requeue(FollowUp::EnableLimit),
                ]);
            }
        }
        eff
    }

    fn do_clear_error(&mut self) -> (eff: Vec<Effect>)
        requires
            old(self).wf(),
        ensures
            final(self).wf(),
            step_clear_error(*old(self), *final(self), eff@),
    {
        self.error_length = self.error_length + 1;
        if self.error_length == 3 {
            self.error = None;
        }
        if self.error_length > 200 {
            self.error_length = 4;
        }
        Vec::new()
    }

    /// React to one message: mutate the state as the transition relation
    /// says and return the effects the embedding program must perform, in
    /// order.
    pub fn update(&mut self, msg: ControlMsg) -> (eff: Vec<Effect>)
        requires
            old(self).wf(),
        ensures
            final(self).wf(),
            spec_step(*old(self), msg, *final(self), eff@),
    {
        match msg {
            ControlMsg::EnableLimit(current) => self.do_enable_limit(current),
            ControlMsg::DisableLimit => self.do_disable_limit(),
            ControlMsg::ChangePercent(input, limit) => self.do_change_percent(input, limit),
            ControlMsg::ConfirmPercent(limit) => self.do_confirm_percent(limit),
            ControlMsg::ChangeDevice(device) => self.do_change_device(device),
            ControlMsg::UpdateDeviceList(shared, fresh) => self.do_update_device_list(
                shared,
                fresh,
            ),
            ControlMsg::AutoLimiter => self.do_auto_limiter(),
            ControlMsg::AutoCheck(status) => self.do_auto_check(status),
            ControlMsg::ChangeByOne(increase, limit) => self.do_change_by_one(increase, limit),
            ControlMsg::SystemVolChange(current) => self.do_system_vol_change(current),
            ControlMsg::SliderVolChange(value, limit) => self.do_slider_vol_change(value, limit),
            ControlMsg::Idle => Vec::new(),
            ControlMsg::ChangeVolInput(choice) => {
                self.input_vol = Some(choice);
                Vec::new()
            },
            ControlMsg::ChangeLimitSel(choice) => self.do_change_limit_sel(choice),
            ControlMsg::ClearError => self.do_clear_error(),
            ControlMsg::ChangeAutoLimiter(status) => {
                self.autolimiter = status;
                Vec::new()
            },
            ControlMsg::ChangeAutoAutoLimiter(status) => {
                self.auto_autolimiter = status;
                Vec::new()
            },
            ControlMsg::OnToggle(toggle) => {
                self.auto_autolimiter = false;
                let mut eff: Vec<Effect> = Vec::new();
                if toggle {
                    eff.push(Effect::Requeue(FollowUp::EnableLimit));
                } else {
                    eff.push(Effect::Requeue(FollowUp::DisableLimit));
                }
                proof {
                    assert(eff@ =~= seq![
                        Effect::Requeue(
                            if toggle {
                                FollowUp::EnableLimit
                            } else {
                                FollowUp::DisableLimit
                            },
                        ),
                    ]);
                }
                eff
            },
            ControlMsg::OnPick(device) => {
                let mut eff: Vec<Effect> = Vec::new();
                eff.push(Effect::Requeue(FollowUp::ChangeAutoAutoLimiter(true)));
                eff.push(Effect::Requeue(FollowUp::ChangeDevice(device)));
                eff
            },
        }
    }

    /// A law of every transition: a limiter task is spawned only from a
    /// state holding no limiter handle, and the new state holds one — so at
    /// most one limiter task is ever alive, and likewise a task is stopped
    /// only while one is alive.
    pub proof fn lemma_single_limiter_task(
        pre: ControlState,
        msg: ControlMsg,
        post: ControlState,
        eff: Seq<Effect>,
    )
        requires
            spec_step(pre, msg, post, eff),
        ensures
            (exists|i: int| 0 <= i < eff.len() && #[trigger] eff[i] is StartLimiter) ==> (
            !pre.limiter_running && post.limiter_running),
            (exists|i: int| 0 <= i < eff.len() && #[trigger] eff[i] is StopLimiter) ==> (
            pre.limiter_running && !post.limiter_running),
    {
        match msg {
            ControlMsg::EnableLimit(_) => {},
            ControlMsg::DisableLimit => {},
            ControlMsg::ChangePercent(_, _) => {},
            ControlMsg::ConfirmPercent(_) => {},
            ControlMsg::ChangeDevice(_) => {},
            ControlMsg::UpdateDeviceList(_, _) => {},
            ControlMsg::AutoLimiter => {},
            ControlMsg::AutoCheck(_) => {},
            ControlMsg::ChangeByOne(_, _) => {},
            ControlMsg::SystemVolChange(_) => {},
            ControlMsg::SliderVolChange(_, _) => {},
            ControlMsg::Idle => {},
            ControlMsg::ChangeVolInput(_) => {},
            ControlMsg::ChangeLimitSel(_) => {},
            ControlMsg::ClearError => {},
            ControlMsg::ChangeAutoLimiter(_) => {},
            ControlMsg::ChangeAutoAutoLimiter(_) => {},
            ControlMsg::OnToggle(_) => {},
            ControlMsg::OnPick(_) => {},
        }
    }

    /// The same law for the scanner: spawned only with no scanner handle
    /// held, stopped only with one held — at most one scanner task alive.
    pub proof fn lemma_single_scanner_task(
        pre: ControlState,
        msg: ControlMsg,
        post: ControlState,
        eff: Seq<Effect>,
    )
        requires
            spec_step(pre, msg, post, eff),
        ensures
            (exists|i: int| 0 <= i < eff.len() && #[trigger] eff[i] is StartScanner) ==> (
            !pre.scanner_running && post.scanner_running),
            (exists|i: int| 0 <= i < eff.len() && #[trigger] eff[i] is StopScanner) ==> (
            pre.scanner_running && !post.scanner_running),
    {
        match msg {
            ControlMsg::EnableLimit(_) => {},
            ControlMsg::DisableLimit => {},
            ControlMsg::ChangePercent(_, _) => {},
            ControlMsg::ConfirmPercent(_) => {},
            ControlMsg::ChangeDevice(_) => {},
            ControlMsg::UpdateDeviceList(_, _) => {},
            ControlMsg::AutoLimiter => {},
            ControlMsg::AutoCheck(_) => {},
            ControlMsg::ChangeByOne(_, _) => {},
            ControlMsg::SystemVolChange(_) => {},
            ControlMsg::SliderVolChange(_, _) => {},
            ControlMsg::Idle => {},
            ControlMsg::ChangeVolInput(_) => {},
            ControlMsg::ChangeLimitSel(_) => {},
            ControlMsg::ClearError => {},
            ControlMsg::ChangeAutoLimiter(_) => {},
            ControlMsg::ChangeAutoAutoLimiter(_) => {},
            ControlMsg::OnToggle(_) => {},
            ControlMsg::OnPick(_) => {},
        }
    }

    /// Every value a transition from a well-formed state hands to the audio
    /// facility is a percent: each emitted volume write and each emitted
    /// limiter ceiling is at most 100.
    pub proof fn lemma_emitted_values_in_range(
        pre: ControlState,
        msg: ControlMsg,
        post: ControlState,
        eff: Seq<Effect>,
    )
        requires
            pre.wf(),
            spec_step(pre, msg, post, eff),
        ensures
            forall|i: int|
                0 <= i < eff.len() ==> (match #[trigger] eff[i] {
                    Effect::SetBackendVolume(v) => v <= PERCENT_MAX,
                    Effect::StartLimiter(c) => c <= PERCENT_MAX,
                    _ => true,
                }),
    {
        match msg {
            ControlMsg::EnableLimit(_) => {},
            ControlMsg::DisableLimit => {},
            ControlMsg::ChangePercent(_, _) => {},
            ControlMsg::ConfirmPercent(_) => {},
            ControlMsg::ChangeDevice(_) => {},
            ControlMsg::UpdateDeviceList(_, _) => {},
            ControlMsg::AutoLimiter => {},
            ControlMsg::AutoCheck(_) => {},
            ControlMsg::ChangeByOne(_, _) => {},
            ControlMsg::SystemVolChange(_) => {},
            ControlMsg::SliderVolChange(_, _) => {},
            ControlMsg::Idle => {},
            ControlMsg::ChangeVolInput(_) => {},
            ControlMsg::ChangeLimitSel(_) => {},
            ControlMsg::ClearError => {},
            ControlMsg::ChangeAutoLimiter(_) => {},
            ControlMsg::ChangeAutoAutoLimiter(_) => {},
            ControlMsg::OnToggle(_) => {},
            ControlMsg::OnPick(_) => {},
        }
    }

    /// Adopt the outcome of joining a stopped scanner task: a failed join —
    /// the task panicked — is recorded as an update error and displayed
    /// afresh; it is advisory, never fatal.
    pub fn on_scanner_stopped(&mut self, joined: bool)
        ensures
            joined ==> *final(self) == *old(self),
            !joined ==> *final(self) == (ControlState {
                error: Some(ControlError::UpdateError),
                error_length: 0,
                ..*old(self)
            }),
            old(self).wf() ==> final(self).wf(),
    {
        if !joined {
            self.error = Some(ControlError::UpdateError);
            self.error_length = 0;
        }
    }
}

} // verus!
