//! The system state machine that sequences a move: enable the driver,
//! start the ramp, cruise for a while, decelerate, and disable the driver
//! when the axis has stopped. Its console messages and driver-enable writes
//! are returned to the caller, which performs them.
#![allow(non_camel_case_types)]
use vstd::prelude::*;
use crate::encoder_core::EncoderOps;
use crate::motor::{Motion, MotorIo, MotorState, Stepper, sign_of, signed_target};

verus! {

/// System phases.
#[derive(Debug, Clone, Copy, PartialEq, Eq, Structural)]
pub enum System_State {
    IDLE,
    START_MOVE,
    MOVE_RAMP,
    MOVING,
    KILL,
    WAIT,
    START_SPD,
    STOPPING,
}

/// Console messages of the state machine.
#[derive(Debug, Clone, Copy, PartialEq, Eq, Structural)]
pub enum SysMessage {
    Idle,
    Moving,
    EndConstSpeed,
    Kill,
    Run,
}

impl SysMessage {
    /// The text printed for the message.
    pub fn text(&self) -> (t: &'static str)
        ensures
            t@ == (match self {
                SysMessage::Idle => "\n\r-Idle\n\r"@,
                SysMessage::Moving => "\n\r-Moving\n\r"@,
                SysMessage::EndConstSpeed => "\n\r-End Const Speed\n\r"@,
                SysMessage::Kill => "\n\r-KILL\n\r"@,
                SysMessage::Run => "\n\r-Run\n\r"@,
            }),
    {
        match self {
            SysMessage::Idle => "\n\r-Idle\n\r",
            SysMessage::Moving => "\n\r-Moving\n\r",
            SysMessage::EndConstSpeed => "\n\r-End Const Speed\n\r",
            SysMessage::Kill => "\n\r-KILL\n\r",
            SysMessage::Run => "\n\r-Run\n\r",
        }
    }
}

/// What one state-machine step asks of the outside world: a console
/// message and a level for the driver-enable pin (active low: 0 enables).
#[derive(Debug, Clone, Copy, PartialEq, Eq, Structural)]
pub struct SysOutput {
    pub message: Option<SysMessage>,
    pub enable_pin: Option<u8>,
}

/// What one state-machine step does to the axis.
#[derive(Debug, Clone, Copy, PartialEq, Eq, Structural)]
pub enum MotorAction {
    Keep,
    SetState(MotorState),
    Stop,
    LoadTargetAccel,
    StartMotion,
    ControlStop,
}

/// Ticks the axis cruises at constant speed before the machine ends a move.
pub const CRUISE_TICKS: u32 = 50000;

/// The system state machine.
pub struct System_T {
    pub new_state: bool,
    pub last_state: System_State,
    pub state: System_State,
    pub next_state: System_State,
    pub tmr: u32,
    pub step_out: u8,
    pub print_dbg: bool,
}

/// One step of the machine from `s` with the axis in ramp phase `motor`: the
/// next machine, the outside effects, and the action on the axis.
pub open spec fn sys_step(s: System_T, motor: MotorState) -> (System_T, SysOutput, MotorAction) {
    let st = s.next_state;
    let entered = s.new_state || st != s.last_state;
    let base = System_T { state: st, last_state: st, new_state: false, ..s };
    let quiet = SysOutput { message: None, enable_pin: None };
    match st {
        System_State::IDLE => (
            base,
            SysOutput { message: if entered { Some(SysMessage::Idle) } else { None }, enable_pin: None },
            MotorAction::Keep,
        ),
        System_State::MOVING => {
            let b = if entered { System_T { tmr: 0, ..base } } else { base };
            let msg = if entered { Some(SysMessage::Moving) } else { None };
            match motor {
                MotorState::CONST_SPD => {
                    let t = b.tmr + 1;
                    if t >= CRUISE_TICKS {
                        (
                            System_T { tmr: 0, ..b },
                            SysOutput { message: Some(SysMessage::EndConstSpeed), enable_pin: None },
                            MotorAction::SetState(MotorState::DECEL),
                        )
                    } else {
                        (
                            System_T { tmr: t as u32, ..b },
                            SysOutput { message: msg, enable_pin: None },
                            MotorAction::Keep,
                        )
                    }
                },
                MotorState::ACCEL | MotorState::DECEL => (
                    b,
                    SysOutput { message: msg, enable_pin: None },
                    MotorAction::Keep,
                ),
                MotorState::IDLE => (
                    System_T { next_state: System_State::KILL, ..b },
                    SysOutput { message: msg, enable_pin: None },
                    MotorAction::Keep,
                ),
                _ => (
                    System_T { next_state: System_State::IDLE, ..b },
                    SysOutput { message: msg, enable_pin: None },
                    MotorAction::Keep,
                ),
            }
        },
        System_State::KILL => {
            if entered {
                (
                    System_T { next_state: System_State::IDLE, ..base },
                    SysOutput { message: Some(SysMessage::Kill), enable_pin: Some(1) },
                    MotorAction::Stop,
                )
            } else {
                (System_T { next_state: System_State::IDLE, ..base }, quiet, MotorAction::Keep)
            }
        },
        System_State::START_MOVE => (
            System_T { next_state: System_State::MOVING, ..base },
            if entered {
                SysOutput { message: Some(SysMessage::Run), enable_pin: Some(0) }
            } else {
                quiet
            },
            MotorAction::LoadTargetAccel,
        ),
        System_State::START_SPD => (
            System_T { next_state: System_State::MOVING, ..base },
            if entered {
                SysOutput { message: Some(SysMessage::Run), enable_pin: Some(0) }
            } else {
                quiet
            },
            MotorAction::StartMotion,
        ),
        System_State::STOPPING => (
            System_T { next_state: System_State::MOVING, ..base },
            quiet,
            MotorAction::ControlStop,
        ),
        _ => (base, quiet, MotorAction::Keep),
    }
}

/// The motion quantities after an action on an axis with motion `m`.
pub open spec fn apply_action(m: Motion, a: MotorAction) -> Motion {
    match a {
        MotorAction::Keep => m,
        MotorAction::SetState(st) => Motion { state: st, ..m },
        MotorAction::Stop => Motion {
            state: MotorState::IDLE,
            curr_target: 0,
            current: 0,
            ..m
        },
        MotorAction::LoadTargetAccel => Motion {
            curr_target: signed_target(m.dir, m.target),
            state: MotorState::ACCEL,
            ..m
        },
        MotorAction::StartMotion => {
            let ct = signed_target(m.dir, m.target);
            Motion {
                curr_target: ct,
                state: if ct == 0 && m.current == 0 {
                    MotorState::IDLE
                } else {
                    MotorState::ACCEL
                },
                ..m
            }
        },
        MotorAction::ControlStop => Motion { state: MotorState::DECEL, curr_target: 0, ..m },
    }
}

/// One step does not overflow: the cruise counter has room, and a speed
/// start has a signed command that fits.
pub open spec fn sys_step_ok(s: System_T, m: Motion) -> bool {
    &&& (s.next_state == System_State::MOVING && m.state == MotorState::CONST_SPD && !(
    s.new_state || s.next_state != s.last_state)) ==> s.tmr < u32::MAX
    &&& (s.next_state == System_State::START_SPD || s.next_state == System_State::START_MOVE)
        ==> i64::MIN <= sign_of(m.dir) * m.target <= i64::MAX
}

impl System_T {
    /// The machine at power-up: idle, and to enter idle on the first step.
    pub fn new() -> (s: Self)
        ensures
            s.new_state == false,
            s.last_state == System_State::WAIT,
            s.state == System_State::IDLE,
            s.next_state == System_State::IDLE,
            s.tmr == 0 && s.step_out == 0 && s.print_dbg == false,
    {
        System_T {
            new_state: false,
            last_state: System_State::WAIT,
            state: System_State::IDLE,
            next_state: System_State::IDLE,
            tmr: 0,
            step_out: 0,
            print_dbg: false,
        }
    }

    /// One step of the machine on the axis (see [`sys_step`] and
    /// [`apply_action`]); returns the console message and enable-pin write
    /// for the caller to perform.
    pub fn sys_task<T: EncoderOps, IO: MotorIo>(&mut self, axis: &mut Stepper<T, IO>) -> (o:
        SysOutput)
        requires
            sys_step_ok(*old(self), old(axis).motion()),
        ensures
            ({
                let (s2, o2, a) = sys_step(*old(self), old(axis).motion().state);
                &&& *final(self) == s2
                &&& o == o2
                &&& final(axis).motion() == apply_action(old(axis).motion(), a)
            }),
            Stepper::same_rest(final(axis), old(axis)),
    {
        let mut out = SysOutput { message: None, enable_pin: None };
        self.state = self.next_state;
        if self.state != self.last_state {
            self.new_state = true;
        }
        self.last_state = self.state;
        match self.state {
            System_State::IDLE => {
                if self.new_state {
                    out.message = Some(SysMessage::Idle);
                    self.new_state = false;
                }
            },
            System_State::MOVING => {
                if self.new_state {
                    self.new_state = false;
                    out.message = Some(SysMessage::Moving);
                    self.tmr = 0;
                }
                match axis.state {
                    MotorState::ACCEL => {},
                    MotorState::CONST_SPD => {
                        self.tmr += 1;
                        if self.tmr >= CRUISE_TICKS {
                            axis.state = MotorState::DECEL;
                            self.tmr = 0;
                            out.message = Some(SysMessage::EndConstSpeed);
                        }
                    },
                    MotorState::DECEL => {},
                    MotorState::IDLE => {
                        self.next_state = System_State::KILL;
                    },
                    _ => self.next_state = System_State::IDLE,
                }
            },
            System_State::KILL => {
                if self.new_state {
                    self.new_state = false;
                    out.message = Some(SysMessage::Kill);
                    axis.stop();
                    out.enable_pin = Some(1);
                }
                self.next_state = System_State::IDLE;
            },
            System_State::START_MOVE => {
                if self.new_state {
                    self.new_state = false;
                    out.enable_pin = Some(0);
                    out.message = Some(SysMessage::Run);
                }
                axis.sync_run_target_from_command();
                axis.state = MotorState::ACCEL;
                self.next_state = System_State::MOVING;
            },
            System_State::START_SPD => {
                if self.new_state {
                    self.new_state = false;
                    out.enable_pin = Some(0);
                    out.message = Some(SysMessage::Run);
                }
                axis.start_motion();
                self.next_state = System_State::MOVING;
            },
            System_State::STOPPING => {
                if self.new_state {
                    self.new_state = false;
                }
                axis.control_stop();
                self.next_state = System_State::MOVING;
            },
            System_State::MOVE_RAMP => {
                if self.new_state {
                    self.new_state = false;
                }
            },
            System_State::WAIT => {
                if self.new_state {
                    self.new_state = false;
                }
            },
        }
        out
    }
}

/// Elapsed ticks of a down-counting timer with reload value `reload`, from
/// reading `last` to reading `now` (at most one wrap).
pub fn ticks_since(now: u32, last: u32, reload: u32) -> (dt: u32)
    requires
        now > last ==> now <= reload && last + (reload - now) <= u32::MAX,
    ensures
        dt == (if now <= last {
            last - now
        } else {
            last + (reload - now)
        }),
{
    if now <= last {
        last - now
    } else {
        last + (reload - now)
    }
}

/// The driver-enable pin is written only on entering a phase that
/// starts a move (driven low, enabling the driver) or the kill phase (driven
/// high, disabling it).
pub proof fn lemma_enable_pin_only_on_entry(s: System_T, m: MotorState)
    ensures
        ({
            let entered = s.new_state || s.next_state != s.last_state;
            &&& sys_step(s, m).1.enable_pin == Some(0u8) <==> entered && (s.next_state
                == System_State::START_MOVE || s.next_state == System_State::START_SPD)
            &&& sys_step(s, m).1.enable_pin == Some(1u8) <==> entered && s.next_state
                == System_State::KILL
            &&& sys_step(s, m).1.enable_pin is None <==> !(entered && (s.next_state
                == System_State::START_MOVE || s.next_state == System_State::START_SPD
                || s.next_state == System_State::KILL))
        }),
{
}

/// A finished move shuts the axis down. While moving, once the axis is
/// idle the machine goes to the kill phase; the next step stops the axis,
/// disables the driver, and returns the machine to idle.
pub proof fn lemma_finished_move_shuts_down(s: System_T)
    requires
        s.next_state == System_State::MOVING,
    ensures
        ({
            let (s1, o1, a1) = sys_step(s, MotorState::IDLE);
            let (s2, o2, a2) = sys_step(s1, MotorState::IDLE);
            &&& s1.next_state == System_State::KILL
            &&& a1 == MotorAction::Keep
            &&& o1.enable_pin is None
            &&& a2 == MotorAction::Stop
            &&& o2 == SysOutput { message: Some(SysMessage::Kill), enable_pin: Some(1u8) }
            &&& s2.next_state == System_State::IDLE
        }),
{
}

/// Every step consumes the entry flag and moves to the phase that was
/// requested.
pub proof fn lemma_step_enters_requested_phase(s: System_T, m: MotorState)
    ensures
        sys_step(s, m).0.state == s.next_state,
        sys_step(s, m).0.last_state == s.next_state,
        !sys_step(s, m).0.new_state,
{
}

/// A move runs until the axis is idle. While moving, a step on an axis
/// that is accelerating, cruising or decelerating stays in the move and
/// writes nothing to the driver-enable pin; ramping steps leave the axis
/// alone. The machine heads for the kill phase exactly when the axis is
/// idle.
pub proof fn lemma_move_runs_until_idle(s: System_T, m: MotorState)
    requires
        s.next_state == System_State::MOVING,
    ensures
        ({
            let (s1, o1, a1) = sys_step(s, m);
            &&& o1.enable_pin is None
            &&& (s1.next_state == System_State::KILL <==> m == MotorState::IDLE)
            &&& (m == MotorState::ACCEL || m == MotorState::DECEL || m == MotorState::CONST_SPD)
                ==> s1.next_state == System_State::MOVING
            &&& (m == MotorState::ACCEL || m == MotorState::DECEL) ==> a1 == MotorAction::Keep
            &&& a1 != MotorAction::Stop
        }),
{
}

} // verus!
