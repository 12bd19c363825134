//! Host-side switching of an axis between control modes: the axis is first
//! brought to standstill, then put into the requested mode, each step waiting
//! until the reported mode follows or a timeout passes.

use vstd::prelude::*;
use crate::protocol::ControlMode;

verus! {

/// Mode an axis is assumed to start in.
pub const DEFAULT_CONTROL_MODE: ControlMode = ControlMode::Velocity;

/// Failures shown to the user of the host tools.
#[derive(PartialEq, Eq, Structural, Clone, Copy, Debug)]
pub enum ErrorType {
    NoError,
    StartError,
    StopError,
    ModeSwitchTimeout,
    ParseCommandError,
    CommunicationError,
}

impl Default for ErrorType {
    fn default() -> (r: ErrorType)
        ensures
            r == ErrorType::NoError,
    {
        ErrorType::NoError
    }
}

/// Progress of one step of a mode switch.
#[derive(PartialEq, Eq, Structural, Clone, Copy, Debug)]
pub enum ModeSwitchState {
    Idle,
    Start,
    /// Waiting since this time, in milliseconds.
    Wait(u64),
    Done,
    Error,
}

/// The mode switch as contracts see it.
pub struct ModeSwitchView {
    /// Steps still to take; the last one is the current step.
    pub states: Seq<(ControlMode, ModeSwitchState)>,
    pub ignited: bool,
    pub prev_mode: ControlMode,
    pub output_mode: Result<ControlMode, ErrorType>,
}

/// Milliseconds from `start` to `now`, zero when `now` is earlier.
pub open spec fn elapsed_ms(start: u64, now: u64) -> int {
    if now >= start {
        now - start
    } else {
        0
    }
}

/// One step of the switch, given the mode the axis reports and the time now.
pub open spec fn switch_step(
    s: ModeSwitchView,
    reported: ControlMode,
    now_ms: u64,
    timeout_s: u64,
) -> ModeSwitchView {
    if s.states.len() == 0 {
        s
    } else {
        let k = s.states.len() - 1;
        let (req, st) = s.states[k];
        match st {
            ModeSwitchState::Idle => ModeSwitchView {
                states: s.states.update(
                    k,
                    (
                        req,
                        if req != reported {
                            ModeSwitchState::Start
                        } else {
                            ModeSwitchState::Done
                        },
                    ),
                ),
                ..s
            },
            ModeSwitchState::Start => ModeSwitchView {
                states: s.states.update(k, (req, ModeSwitchState::Wait(now_ms))),
                prev_mode: match s.output_mode {
                    Ok(m) => m,
                    Err(_) => s.prev_mode,
                },
                output_mode: Ok(req),
                ..s
            },
            ModeSwitchState::Wait(start) => if elapsed_ms(start, now_ms) >= timeout_s * 1000 {
                ModeSwitchView {
                    states: s.states.update(k, (req, ModeSwitchState::Error)),
                    output_mode: Err(ErrorType::ModeSwitchTimeout),
                    ..s
                }
            } else if req == reported {
                ModeSwitchView { states: s.states.update(k, (req, ModeSwitchState::Done)), ..s }
            } else {
                s
            },
            ModeSwitchState::Done => ModeSwitchView {
                states: s.states.drop_last(),
                prev_mode: reported,
                ignited: if k == 0 {
                    false
                } else {
                    s.ignited
                },
                ..s
            },
            ModeSwitchState::Error => s,
        }
    }
}

/// Switches the control mode of an axis, with a timeout of `TIMEOUTSEC` seconds
/// for each step.
pub struct ModeSwitch<const TIMEOUTSEC: u64> {
    states: Vec<(ControlMode, ModeSwitchState)>,
    ignited: bool,
    prev_mode: ControlMode,
    output_mode: Result<ControlMode, ErrorType>,
}

impl<const TIMEOUTSEC: u64> View for ModeSwitch<TIMEOUTSEC> {
    type V = ModeSwitchView;

    closed spec fn view(&self) -> ModeSwitchView {
        ModeSwitchView {
            states: self.states@,
            ignited: self.ignited,
            prev_mode: self.prev_mode,
            output_mode: self.output_mode,
        }
    }
}

impl<const TIMEOUTSEC: u64> ModeSwitch<TIMEOUTSEC> {
    pub fn new() -> (r: Self)
        ensures
            r@ == (ModeSwitchView {
                states: Seq::empty(),
                ignited: false,
                prev_mode: DEFAULT_CONTROL_MODE,
                output_mode: Ok(DEFAULT_CONTROL_MODE),
            }),
    {
        ModeSwitch {
            states: Vec::new(),
            ignited: false,
            prev_mode: DEFAULT_CONTROL_MODE,
            output_mode: Ok(DEFAULT_CONTROL_MODE),
        }
    }

    /// No step is left to take.
    pub fn is_finished(&self) -> (r: bool)
        ensures
            r <==> self@.states.len() == 0,
    {
        self.states.len() == 0
    }

    /// Abandons any switch in progress; the axis is taken to stand still.
    pub fn reset(&mut self)
        ensures
            final(self)@ == (ModeSwitchView {
                states: Seq::empty(),
                ignited: false,
                output_mode: Ok(ControlMode::StandStill),
                ..old(self)@
            }),
    {
        self.states.clear();
        self.ignited = false;
        self.output_mode = Ok(ControlMode::StandStill);
        proof {
            assert(self.states@ =~= Seq::<(ControlMode, ModeSwitchState)>::empty());
        }
    }

    /// Starts a switch to `target_mode`: first to standstill, then to the target.
    /// Ignored while a switch is in progress or when the output is already
    /// `target_mode`.
    pub fn ignite(&mut self, target_mode: ControlMode)
        ensures
            if old(self)@.ignited || old(self)@.output_mode == Ok::<ControlMode, ErrorType>(
                target_mode,
            ) {
                final(self)@ == old(self)@
            } else {
                final(self)@ == (ModeSwitchView {
                    states: seq![
                        (target_mode, ModeSwitchState::Idle),
                        (ControlMode::StandStill, ModeSwitchState::Idle),
                    ],
                    ignited: true,
                    ..old(self)@
                })
            },
    {
        if self.ignited {
            return;
        }
        let same = match self.output_mode {
            Ok(m) => m == target_mode,
            Err(_) => false,
        };
        if same {
            return;
        }
        self.ignited = true;
        self.states.clear();
        self.states.push((target_mode, ModeSwitchState::Idle));
        self.states.push((ControlMode::StandStill, ModeSwitchState::Idle));
        proof {
            assert(self.states@ =~= seq![
                (target_mode, ModeSwitchState::Idle),
                (ControlMode::StandStill, ModeSwitchState::Idle),
            ]);
        }
    }

    /// Advances the current step, given the mode the axis reports and the time
    /// now in milliseconds, and returns the mode to command (or the timeout).
    pub fn process(&mut self, reported_mode: ControlMode, now_ms: u64) -> (r: Result<
        ControlMode,
        ErrorType,
    >)
        ensures
            final(self)@ == switch_step(old(self)@, reported_mode, now_ms, TIMEOUTSEC),
            r == final(self)@.output_mode,
    {
        let n = self.states.len();
        if n > 0 {
            let k = n - 1;
            let (req, st) = self.states[k];
            match st {
                ModeSwitchState::Idle => {
                    if req != reported_mode {
                        self.states.set(k, (req, ModeSwitchState::Start));
                    } else {
                        self.states.set(k, (req, ModeSwitchState::Done));
                    }
                },
                ModeSwitchState::Start => {
                    match self.output_mode {
                        Ok(m) => self.prev_mode = m,
                        Err(_) => {},
                    }
                    self.output_mode = Ok(req);
                    self.states.set(k, (req, ModeSwitchState::Wait(now_ms)));
                },
                ModeSwitchState::Wait(start) => {
                    let elapsed: u64 = if now_ms >= start {
                        now_ms - start
                    } else {
                        0
                    };
                    if elapsed / 1000 >= TIMEOUTSEC {
                        self.output_mode = Err(ErrorType::ModeSwitchTimeout);
                        self.states.set(k, (req, ModeSwitchState::Error));
                    } else if req == reported_mode {
                        self.states.set(k, (req, ModeSwitchState::Done));
                    }
                },
                ModeSwitchState::Done => {
                    self.states.pop();
                    self.prev_mode = reported_mode;
                    if self.states.len() == 0 {
                        self.ignited = false;
                    }
                },
                ModeSwitchState::Error => {},
            }
        }
        self.output_mode
    }
}

} // verus!
