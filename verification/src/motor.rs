//! Stepper axis: trapezoidal speed ramp, step-pulse generation, and the
//! optional closed loop through the ADRC controller on encoder feedback.
#![allow(non_camel_case_types)]
use vstd::prelude::*;
use crate::sat::{sat64, trunc_div, sat_add, sat_sub, min_i64, max_i64, clamp_u32, abs_i64};
use crate::adrc::Adrc;
use crate::encoder_core::{Encoder, EncoderOps, SCALE};

verus! {

/// Phase of the speed ramp.
#[derive(Debug, Clone, Copy, PartialEq, Eq, Structural)]
pub enum MotorState {
    IDLE,
    _DISABLE,
    ACCEL,
    CONST_SPD,
    DECEL,
    _ERROR,
}

/// Direction of travel.
#[derive(Debug, Clone, Copy, PartialEq, Eq, Structural)]
pub enum MotorDirection {
    FWD,
    BWD,
}

/// Which closed loop, if any, drives the speed.
#[derive(Debug, Clone, Copy, PartialEq, Eq, Structural)]
pub enum AdrcMode {
    Off,
    Speed,
    Position,
}

/// The direction output of one axis.
pub trait MotorIo: Sized {
    /// `after` is `before` with the direction output driven backward (`true`)
    /// or forward (`false`). An output that keeps no readable state says
    /// nothing more than `true`.
    open spec fn dir_written(before: Self, after: Self, backward: bool) -> bool {
        true
    }

    fn write_dir(&mut self, backward: bool)
        ensures
            Self::dir_written(*old(self), *final(self), backward),
    ;
}

/// A direction output without hardware, for host-side simulation: it holds
/// the last level written.
pub struct DirLatch {
    pub backward: bool,
}

impl MotorIo for DirLatch {
    /// The latch holds the level written.
    open spec fn dir_written(before: Self, after: Self, backward: bool) -> bool {
        after.backward == backward
    }

    fn write_dir(&mut self, backward: bool)
        ensures
            final(self).backward == backward,
    {
        self.backward = backward;
    }
}

/// Sample period of the closed loop in Q16.16 seconds (200 µs).
pub const ADRC_TS: u64 = 13;

/// The motion quantities of an axis that the ramp reads and writes.
pub struct Motion {
    pub state: MotorState,
    pub dir: MotorDirection,
    pub old_dir: MotorDirection,
    pub current: i64,
    pub curr_target: i64,
    pub target: i64,
    pub accel: i64,
    pub decel: i64,
    pub step_interval: u32,
    pub timer: u32,
    pub adrc_mode: AdrcMode,
}

/// +1 forward, -1 backward.
pub open spec fn sign_of(d: MotorDirection) -> int {
    match d {
        MotorDirection::FWD => 1,
        MotorDirection::BWD => -1,
    }
}

/// The ramp phases in which the axis is moving.
pub open spec fn is_moving(s: MotorState) -> bool {
    s == MotorState::ACCEL || s == MotorState::DECEL || s == MotorState::CONST_SPD
}

/// Pulse interval in ISR ticks for a speed: `100000 / |speed|` clamped to
/// `[1, 3000]`, and `u32::MAX` (no pulses) at zero speed. `|speed|` is
/// truncated to 32 bits first.
pub open spec fn step_interval_for(speed: i64) -> u32 {
    let s = (if speed < 0 {
        -speed
    } else {
        speed as int
    }) as u32;
    if s == 0 {
        u32::MAX
    } else {
        let q = 100000u32 / s;
        if q < 1 {
            1
        } else if q > 3000 {
            3000
        } else {
            q as u32
        }
    }
}

/// The signed commanded speed for a direction.
pub open spec fn signed_target(d: MotorDirection, target: i64) -> i64 {
    (sign_of(d) * target) as i64
}

/// The running target follows the signed command, unless it is zero: a
/// zero running target is a stop or a reversal in progress, and holds.
pub open spec fn ramp_target(m: Motion) -> Motion {
    if m.curr_target != 0 {
        Motion { curr_target: signed_target(m.dir, m.target), ..m }
    } else {
        m
    }
}

/// Direction change request: if the requested direction differs from the
/// applied one, ramp to zero first; at zero speed, switch over and cruise.
pub open spec fn ramp_reversal(m: Motion) -> Motion {
    if m.old_dir != m.dir {
        if m.current != 0 {
            Motion { curr_target: 0, ..m }
        } else {
            Motion {
                state: MotorState::CONST_SPD,
                curr_target: signed_target(m.dir, m.target),
                old_dir: m.dir,
                ..m
            }
        }
    } else {
        m
    }
}

/// One tick of the ramp phases.
pub open spec fn ramp_advance(m: Motion) -> Motion {
    match m.state {
        MotorState::ACCEL => {
            let s = sat64(m.current + m.accel);
            let c = if m.curr_target < s {
                m.curr_target
            } else {
                s
            };
            Motion {
                current: c,
                state: if c == m.curr_target {
                    MotorState::CONST_SPD
                } else {
                    MotorState::ACCEL
                },
                ..m
            }
        },
        MotorState::DECEL => {
            let s = sat64(m.current - m.decel);
            let c = if m.target == 0 && m.curr_target == 0 && 0 < m.current && m.current
                < m.decel {
                m.decel
            } else if s < m.curr_target {
                m.curr_target
            } else {
                s
            };
            Motion {
                current: c,
                state: if c == m.curr_target {
                    MotorState::CONST_SPD
                } else {
                    MotorState::DECEL
                },
                ..m
            }
        },
        MotorState::CONST_SPD => Motion {
            state: if m.curr_target > m.current {
                MotorState::DECEL
            } else if m.curr_target < m.current {
                MotorState::ACCEL
            } else if m.curr_target == 0 {
                MotorState::IDLE
            } else {
                MotorState::CONST_SPD
            },
            ..m
        },
        _ => m,
    }
}

/// After the ramp tick: at zero command and zero speed the axis goes idle
/// with no pulses; otherwise the pulse interval follows the speed.
pub open spec fn ramp_finish(m: Motion) -> Motion {
    if m.curr_target == 0 && m.current == 0 {
        Motion { state: MotorState::IDLE, step_interval: u32::MAX, timer: 0, ..m }
    } else {
        Motion { step_interval: step_interval_for(m.current), ..m }
    }
}

/// One speed update: in closed-loop mode only the pulse interval follows
/// the speed; otherwise running target, reversal, ramp tick and finish.
pub open spec fn spd_step(m: Motion) -> Motion {
    if m.adrc_mode != AdrcMode::Off {
        Motion { step_interval: step_interval_for(m.current), ..m }
    } else {
        ramp_finish(ramp_advance(ramp_reversal(ramp_target(m))))
    }
}

/// A speed update completes a reversal and drives the direction output: on
/// the open-loop ramp, at zero speed, with a direction change pending.
pub open spec fn spd_writes_dir(m: Motion) -> bool {
    m.adrc_mode == AdrcMode::Off && m.old_dir != m.dir && m.current == 0
}

/// The speed update does not overflow: the signed command fits when a
/// reversal completes, and the speed whose interval is computed is not
/// `i64::MIN`.
pub open spec fn spd_step_ok(m: Motion) -> bool {
    if m.adrc_mode != AdrcMode::Off {
        m.current != i64::MIN
    } else {
        &&& (m.curr_target != 0 || (m.old_dir != m.dir && m.current == 0)) ==> i64::MIN
            <= sign_of(m.dir) * m.target <= i64::MAX
        &&& ({
            let a = ramp_advance(ramp_reversal(ramp_target(m)));
            !(a.curr_target == 0 && a.current == 0) ==> a.current != i64::MIN
        })
    }
}

/// One step-pulse tick on the output byte `out` for pin `pin`: while moving,
/// update the speed, count a tick, and raise the pin when the interval is
/// reached (restarting the count), else lower it; when not moving, lower
/// the pin.
pub open spec fn run_step(m: Motion, out: u8, pin: u8) -> (Motion, u8) {
    if is_moving(m.state) {
        let n = spd_step(m);
        let t = n.timer + 1;
        if t >= n.step_interval {
            (Motion { timer: 0, ..n }, out | (1u8 << pin))
        } else {
            (Motion { timer: t as u32, ..n }, out & !(1u8 << pin))
        }
    } else {
        (m, out & !(1u8 << pin))
    }
}

/// A pulse tick does not overflow.
pub open spec fn run_ok(m: Motion, pin: u8) -> bool {
    &&& pin < 8
    &&& is_moving(m.state) ==> spd_step_ok(m) && spd_step(m).timer < u32::MAX
}

/// Q16.16 per-sample speed for a speed in Hz: `hz * dt_us * SCALE / 1e6`.
pub open spec fn hz_to_ps(hz: i64, dt_us: i64) -> i64 {
    trunc_div(hz * dt_us * SCALE, 1_000_000) as i64
}

/// Speed in Hz for a Q16.16 per-sample speed: `v * 1e6 / (SCALE * dt_us)`.
pub open spec fn ps_to_hz(v: i64, dt_us: i64) -> i64 {
    trunc_div(v * 1_000_000, SCALE * dt_us) as i64
}

/// `hz_to_ps` does not overflow.
pub open spec fn hz_to_ps_ok(hz: i64, dt_us: i64) -> bool {
    &&& i64::MIN <= hz * dt_us <= i64::MAX
    &&& i64::MIN <= hz * dt_us * SCALE <= i64::MAX
}

/// `ps_to_hz` does not overflow and does not divide by zero.
pub open spec fn ps_to_hz_ok(v: i64, dt_us: i64) -> bool {
    &&& dt_us != 0
    &&& i64::MIN <= SCALE * dt_us <= i64::MAX
    &&& i64::MIN <= v * 1_000_000 <= i64::MAX
}

/// The direction pair after the closed loop sets the speed `speed`: a
/// negative speed while going forward switches to backward and a positive
/// speed while going backward switches to forward.
pub open spec fn auto_dir(dir: MotorDirection, old_dir: MotorDirection, speed: i64) -> (
    MotorDirection,
    MotorDirection,
) {
    if speed < 0 && dir == MotorDirection::FWD {
        (MotorDirection::BWD, MotorDirection::BWD)
    } else if speed > 0 && dir == MotorDirection::BWD {
        (MotorDirection::FWD, MotorDirection::FWD)
    } else {
        (dir, old_dir)
    }
}

/// The controller, speed and ramp phase after one closed-loop cycle with
/// sample period `dt_us`, for reference/measurement chosen by the mode:
/// speed mode tracks the running target against the smoothed encoder
/// velocity; position mode tracks the target position against the encoder
/// position and goes idle within one count of the target when slower than
/// 5 Hz.
pub open spec fn adrc_cycle_core(
    mode: AdrcMode,
    adrc: Adrc,
    state: MotorState,
    curr_target: i64,
    target_pos: i32,
    enc_pos: i64,
    enc_smooth_vel: i64,
    current: i64,
    dt_us: i64,
) -> (Adrc, i64, MotorState) {
    match mode {
        AdrcMode::Speed => {
            let a = Adrc::speed_step(adrc, hz_to_ps(curr_target, dt_us), enc_smooth_vel);
            (a, ps_to_hz(a.control, dt_us), state)
        },
        AdrcMode::Position => {
            let r = target_pos * SCALE;
            let a = Adrc::position_step(adrc, r as i64, enc_pos);
            let hz = ps_to_hz(a.control, dt_us);
            let err = if enc_pos - r < 0 {
                r - enc_pos
            } else {
                enc_pos - r
            };
            let speed = if hz < 0 {
                -hz
            } else {
                hz as int
            };
            if err < SCALE && speed < 5 {
                (a, 0, MotorState::IDLE)
            } else {
                (a, hz, state)
            }
        },
        AdrcMode::Off => (adrc, current, state),
    }
}

/// One closed-loop cycle does not overflow and does not divide by zero.
pub open spec fn adrc_cycle_core_ok(
    mode: AdrcMode,
    adrc: Adrc,
    curr_target: i64,
    target_pos: i32,
    enc_pos: i64,
    enc_smooth_vel: i64,
    dt_us: i64,
) -> bool {
    match mode {
        AdrcMode::Speed => {
            &&& hz_to_ps_ok(curr_target, dt_us)
            &&& ps_to_hz_ok(
                Adrc::speed_step(adrc, hz_to_ps(curr_target, dt_us), enc_smooth_vel).control,
                dt_us,
            )
        },
        AdrcMode::Position => {
            let r = target_pos * SCALE;
            &&& ps_to_hz_ok(Adrc::position_step(adrc, r as i64, enc_pos).control, dt_us)
            &&& i64::MIN < enc_pos - r <= i64::MAX
        },
        AdrcMode::Off => true,
    }
}

/// A stepper motor axis with its encoder and closed-loop controller.
pub struct Stepper<T: EncoderOps, IO: MotorIo> {
    pub encoder: Encoder<T>,
    pub state: MotorState,
    pub dir: MotorDirection,
    pub old_dir: MotorDirection,
    pub step_pin: u8,
    pub target_pos_steps: i32,
    pub curr_pos_steps: i32,
    pub current_speed_hz: i64,
    pub curr_target_speed_hz: i64,
    pub target_speed_hz: i64,
    pub acceleration_hz_ms: i64,
    pub deceleration_hz_ms: i64,
    pub step_interval: u32,
    pub timer: u32,
    pub adrc: Adrc,
    pub adrc_mode: AdrcMode,
    pub io: IO,
}

impl<T: EncoderOps, IO: MotorIo> Stepper<T, IO> {
    /// The motion quantities of this axis.
    pub open spec fn motion(&self) -> Motion {
        Motion {
            state: self.state,
            dir: self.dir,
            old_dir: self.old_dir,
            current: self.current_speed_hz,
            curr_target: self.curr_target_speed_hz,
            target: self.target_speed_hz,
            accel: self.acceleration_hz_ms,
            decel: self.deceleration_hz_ms,
            step_interval: self.step_interval,
            timer: self.timer,
            adrc_mode: self.adrc_mode,
        }
    }

    /// Everything but the motion quantities and the direction output is
    /// equal.
    pub open spec fn same_rest_but_io(a: &Self, b: &Self) -> bool {
        &&& a.encoder == b.encoder
        &&& a.step_pin == b.step_pin
        &&& a.target_pos_steps == b.target_pos_steps
        &&& a.curr_pos_steps == b.curr_pos_steps
        &&& a.adrc == b.adrc
    }

    /// Everything but the motion quantities is equal.
    pub open spec fn same_rest(a: &Self, b: &Self) -> bool {
        &&& Self::same_rest_but_io(a, b)
        &&& a.io == b.io
    }

    /// +1 forward, -1 backward.
    pub fn dir_sign(&self) -> (s: i64)
        ensures
            s == sign_of(self.dir),
    {
        match self.dir {
            MotorDirection::FWD => 1,
            MotorDirection::BWD => -1,
        }
    }

    /// Loads the signed running target from the commanded speed and direction.
    pub fn sync_run_target_from_command(&mut self)
        requires
            i64::MIN <= sign_of(old(self).dir) * old(self).target_speed_hz <= i64::MAX,
        ensures
            final(self).motion() == (Motion {
                curr_target: signed_target(old(self).dir, old(self).target_speed_hz),
                ..old(self).motion()
            }),
            Self::same_rest(final(self), old(self)),
    {
        self.curr_target_speed_hz = self.dir_sign() * self.target_speed_hz;
    }

    /// Starts a move toward the commanded speed: accelerate, or stay idle if
    /// both the command and the speed are zero.
    pub fn start_motion(&mut self)
        requires
            i64::MIN <= sign_of(old(self).dir) * old(self).target_speed_hz <= i64::MAX,
        ensures
            final(self).curr_target_speed_hz == signed_target(
                old(self).dir,
                old(self).target_speed_hz,
            ),
            final(self).state == (if final(self).curr_target_speed_hz == 0
                && old(self).current_speed_hz == 0 {
                MotorState::IDLE
            } else {
                MotorState::ACCEL
            }),
            final(self).motion() == (Motion {
                state: final(self).state,
                curr_target: final(self).curr_target_speed_hz,
                ..old(self).motion()
            }),
            Self::same_rest(final(self), old(self)),
    {
        self.sync_run_target_from_command();
        if self.curr_target_speed_hz == 0 && self.current_speed_hz == 0 {
            self.state = MotorState::IDLE;
            return ;
        }
        self.state = MotorState::ACCEL;
    }

    /// An idle axis on pin `ix`: command 1000 Hz forward, speed 0, ramp of
    /// 1 Hz per tick, closed loop off.
    pub fn new(ops: T, io: IO, ix: u8) -> (s: Self)
        ensures
            s.state == MotorState::IDLE,
            s.dir == MotorDirection::FWD && s.old_dir == MotorDirection::FWD,
            s.step_pin == ix,
            s.target_pos_steps == 0 && s.curr_pos_steps == 0,
            s.target_speed_hz == 1000 && s.curr_target_speed_hz == 1000,
            s.current_speed_hz == 0,
            s.acceleration_hz_ms == 1 && s.deceleration_hz_ms == 1,
            s.step_interval == 1000 && s.timer == 0,
            s.adrc_mode == AdrcMode::Off,
            s.adrc == Adrc::new_spec(),
            s.io == io,
            exists|a: T| #[trigger] T::initialised(ops, a) && T::started(a, s.encoder.ops),
            s.encoder.g_a == 21626 && s.encoder.g_b == 655 && s.encoder.g_c == 14,
            s.encoder.prev_pos == 0,
            s.encoder.counts == 0 && s.encoder.turns == 0 && s.encoder.prev_enc_counts == 0,
            s.encoder.pos == 0 && s.encoder.vel == 0 && s.encoder.accel == 0,
            s.encoder.smooth_vel == 0 && s.encoder.smooth_accel == 0,
    {
        let adrc = Adrc::new();
        Self {
            encoder: Encoder::new(ops),
            state: MotorState::IDLE,
            dir: MotorDirection::FWD,
            old_dir: MotorDirection::FWD,
            target_pos_steps: 0,
            curr_pos_steps: 0,
            step_pin: ix,
            target_speed_hz: 1000,
            curr_target_speed_hz: 1000,
            current_speed_hz: 0,
            acceleration_hz_ms: 1,
            deceleration_hz_ms: 1,
            step_interval: 1000,
            timer: 0,
            adrc,
            adrc_mode: AdrcMode::Off,
            io,
        }
    }

    /// Sets the target position (steps) for position mode.
    pub fn set_target_position(&mut self, position_steps: i32)
        ensures
            final(self).target_pos_steps == position_steps,
            final(self).motion() == old(self).motion(),
            final(self).encoder == old(self).encoder && final(self).adrc == old(self).adrc,
            final(self).curr_pos_steps == old(self).curr_pos_steps,
            final(self).io == old(self).io,
            final(self).step_pin == old(self).step_pin,
    {
        self.target_pos_steps = position_steps;
    }

    /// The current position in steps.
    pub fn get_current_position(&self) -> (p: i32)
        ensures
            p == self.curr_pos_steps,
    {
        self.curr_pos_steps
    }

    /// Sets the commanded speed to half of `speed_hz`; while moving, the
    /// running target follows at once.
    pub fn set_speed(&mut self, speed_hz: u32)
        ensures
            final(self).target_speed_hz == speed_hz / 2,
            final(self).curr_target_speed_hz == (if old(self).state != MotorState::IDLE {
                signed_target(old(self).dir, final(self).target_speed_hz)
            } else {
                old(self).curr_target_speed_hz
            }),
            final(self).motion() == (Motion {
                target: final(self).target_speed_hz,
                curr_target: final(self).curr_target_speed_hz,
                ..old(self).motion()
            }),
            Self::same_rest(final(self), old(self)),
    {
        self.target_speed_hz = (speed_hz as i64) / 2;
        if self.state != MotorState::IDLE {
            self.sync_run_target_from_command();
        }
    }

    /// Sets the direction output and the applied direction.
    pub fn set_direction(&mut self, direction: MotorDirection)
        ensures
            final(self).motion() == (Motion { dir: direction, ..old(self).motion() }),
            IO::dir_written(old(self).io, final(self).io, direction == MotorDirection::BWD),
            Self::same_rest_but_io(final(self), old(self)),
    {
        match direction {
            MotorDirection::FWD => self.io.write_dir(false),
            MotorDirection::BWD => self.io.write_dir(true),
        }
        self.dir = direction;
    }

    /// Hz to Q16.16 per-sample units (as the encoder's smoothed velocity).
    fn hz_to_ps_scaled(hz: i64, dt_us: i64) -> (v: i64)
        requires
            hz_to_ps_ok(hz, dt_us),
        ensures
            v == hz_to_ps(hz, dt_us),
    {
        hz * dt_us * SCALE / 1_000_000
    }

    /// Q16.16 per-sample units to Hz.
    fn ps_scaled_to_hz(v: i64, dt_us: i64) -> (hz: i64)
        requires
            ps_to_hz_ok(v, dt_us),
        ensures
            hz == ps_to_hz(v, dt_us),
    {
        assert(SCALE * dt_us != -1) by (nonlinear_arith)
            requires
                dt_us != 0,
                SCALE == 65536,
        ;
        v * 1_000_000 / (SCALE * dt_us)
    }

    /// Pulse interval from the current speed (see [`step_interval_for`]).
    fn compute_step_interval(&mut self)
        requires
            old(self).current_speed_hz != i64::MIN,
        ensures
            final(self).motion() == (Motion {
                step_interval: step_interval_for(old(self).current_speed_hz),
                ..old(self).motion()
            }),
            Self::same_rest(final(self), old(self)),
    {
        #[verifier::truncate]
        let speed_int: u32 = abs_i64(self.current_speed_hz) as u32;
        self.step_interval = if speed_int == 0 {
            u32::MAX
        } else {
            clamp_u32(100000u32 / speed_int, 1, 3000)
        };
    }

    /// One closed-loop cycle with encoder sample period `dt_us` (see
    /// [`adrc_cycle_core`]), after which the direction output follows the
    /// sign of the new speed (see [`auto_dir`]). Does nothing with the loop
    /// off.
    pub fn adrc_cycle(&mut self, dt_us: i64)
        requires
            adrc_cycle_core_ok(
                old(self).adrc_mode,
                old(self).adrc,
                old(self).curr_target_speed_hz,
                old(self).target_pos_steps,
                old(self).encoder.pos,
                old(self).encoder.smooth_vel,
                dt_us,
            ),
        ensures
            ({
                let (a, hz, st) = adrc_cycle_core(
                    old(self).adrc_mode,
                    old(self).adrc,
                    old(self).state,
                    old(self).curr_target_speed_hz,
                    old(self).target_pos_steps,
                    old(self).encoder.pos,
                    old(self).encoder.smooth_vel,
                    old(self).current_speed_hz,
                    dt_us,
                );
                let (d, od) = if old(self).adrc_mode == AdrcMode::Off {
                    (old(self).dir, old(self).old_dir)
                } else {
                    auto_dir(old(self).dir, old(self).old_dir, hz)
                };
                &&& final(self).adrc == a
                &&& (d != old(self).dir ==> IO::dir_written(
                    old(self).io,
                    final(self).io,
                    d == MotorDirection::BWD,
                ))
                &&& (d == old(self).dir ==> final(self).io == old(self).io)
                &&& final(self).motion() == (Motion {
                    current: hz,
                    state: st,
                    dir: d,
                    old_dir: od,
                    ..old(self).motion()
                })
            }),
            final(self).encoder == old(self).encoder,
            final(self).step_pin == old(self).step_pin,
            final(self).target_pos_steps == old(self).target_pos_steps,
            final(self).curr_pos_steps == old(self).curr_pos_steps,
    {
        if self.adrc_mode == AdrcMode::Off {
            return ;
        }
        match self.adrc_mode {
            AdrcMode::Speed => {
                let r = Self::hz_to_ps_scaled(self.curr_target_speed_hz, dt_us);
                let y = self.encoder.smooth_vel;
                let u = self.adrc.update_speed(r, y);
                self.current_speed_hz = Self::ps_scaled_to_hz(u, dt_us);
            },
            AdrcMode::Position => {
                let r = (self.target_pos_steps as i64) * SCALE;
                let y = self.encoder.pos;
                let u = self.adrc.update_position(r, y);
                self.current_speed_hz = Self::ps_scaled_to_hz(u, dt_us);
                proof {
                    crate::sat::lemma_trunc_div_halves(u * 1_000_000, SCALE * dt_us);
                    assert(SCALE * dt_us >= 2 || SCALE * dt_us <= -2) by (nonlinear_arith)
                        requires
                            dt_us != 0,
                            SCALE == 65536,
                    ;
                }
                let pos_err = abs_i64(self.encoder.pos - r);
                if pos_err < SCALE && abs_i64(self.current_speed_hz) < 5 {
                    self.state = MotorState::IDLE;
                    self.current_speed_hz = 0;
                }
            },
            AdrcMode::Off => {},
        }
        if self.current_speed_hz < 0 && self.dir == MotorDirection::FWD {
            self.set_direction(MotorDirection::BWD);
            self.old_dir = MotorDirection::BWD;
        } else if self.current_speed_hz > 0 && self.dir == MotorDirection::BWD {
            self.set_direction(MotorDirection::FWD);
            self.old_dir = MotorDirection::FWD;
        }
    }

    /// One speed update (see [`spd_step`]); a completed reversal drives the
    /// direction output (see [`spd_writes_dir`]).
    pub fn update_spd(&mut self)
        requires
            spd_step_ok(old(self).motion()),
        ensures
            final(self).motion() == spd_step(old(self).motion()),
            spd_writes_dir(old(self).motion()) ==> IO::dir_written(
                old(self).io,
                final(self).io,
                old(self).dir == MotorDirection::BWD,
            ),
            !spd_writes_dir(old(self).motion()) ==> final(self).io == old(self).io,
            Self::same_rest_but_io(final(self), old(self)),
    {
        if self.adrc_mode != AdrcMode::Off {
            self.compute_step_interval();
            return ;
        }
        if self.curr_target_speed_hz != 0 {
            self.sync_run_target_from_command();
        }
        if self.old_dir != self.dir {
            if self.current_speed_hz != 0 {
                self.curr_target_speed_hz = 0;
            } else {
                self.state = MotorState::CONST_SPD;
                self.sync_run_target_from_command();
                let d = self.dir;
                self.set_direction(d);
                self.old_dir = self.dir;
            }
        }
        match self.state {
            MotorState::ACCEL => {
                self.current_speed_hz = min_i64(
                    sat_add(self.current_speed_hz, self.acceleration_hz_ms),
                    self.curr_target_speed_hz,
                );
                if self.current_speed_hz == self.curr_target_speed_hz {
                    self.state = MotorState::CONST_SPD;
                }
            },
            MotorState::DECEL => {
                self.current_speed_hz = if self.target_speed_hz == 0 && self.curr_target_speed_hz == 0
                    && 0 < self.current_speed_hz
                    && self.current_speed_hz < self.deceleration_hz_ms {
                    self.deceleration_hz_ms
                } else {
                    max_i64(
                        sat_sub(self.current_speed_hz, self.deceleration_hz_ms),
                        self.curr_target_speed_hz,
                    )
                };
                if self.current_speed_hz == self.curr_target_speed_hz {
                    self.state = MotorState::CONST_SPD;
                }
            },
            MotorState::CONST_SPD => {
                self.state = if self.curr_target_speed_hz > self.current_speed_hz {
                    MotorState::DECEL
                } else if self.curr_target_speed_hz < self.current_speed_hz {
                    MotorState::ACCEL
                } else if self.curr_target_speed_hz == 0 {
                    MotorState::IDLE
                } else {
                    MotorState::CONST_SPD
                };
            },
            _ => {},
        }
        if self.curr_target_speed_hz == 0 && self.current_speed_hz == 0 {
            self.state = MotorState::IDLE;
            self.step_interval = u32::MAX;
            self.timer = 0;
            return ;
        }
        self.compute_step_interval();
    }

    /// Selects the closed loop and retunes the controller for it with the
    /// stored `w0`, `wc`, `b0` and the 200 µs sample period.
    pub fn adrc_set_mode(&mut self, mode: AdrcMode)
        ensures
            final(self).adrc_mode == mode,
            mode == AdrcMode::Off ==> final(self).adrc == old(self).adrc,
            mode == AdrcMode::Speed ==> Adrc::tuned_speed(
                old(self).adrc,
                final(self).adrc,
                ADRC_TS,
            ),
            mode == AdrcMode::Position ==> Adrc::tuned_position(
                old(self).adrc,
                final(self).adrc,
                ADRC_TS,
            ),
            final(self).motion() == (Motion { adrc_mode: mode, ..old(self).motion() }),
            final(self).encoder == old(self).encoder,
            final(self).step_pin == old(self).step_pin,
            final(self).target_pos_steps == old(self).target_pos_steps,
            final(self).curr_pos_steps == old(self).curr_pos_steps,
            final(self).io == old(self).io,
    {
        self.adrc_mode = mode;
        let ts = ADRC_TS;
        if ts > 0 {
            match mode {
                AdrcMode::Speed => {
                    let (w0, wc, b0) = (self.adrc.w0, self.adrc.wc, self.adrc.b0);
                    self.adrc.tune_speed(w0, wc, b0, ts);
                },
                AdrcMode::Position => {
                    let (w0, wc, b0) = (self.adrc.w0, self.adrc.wc, self.adrc.b0);
                    self.adrc.tune_position(w0, wc, b0, ts);
                },
                AdrcMode::Off => {},
            }
        }
    }

    /// Stores the observer bandwidth (applied at the next retune).
    pub fn adrc_update_w0(&mut self, wo: u64)
        ensures
            final(self).adrc == (Adrc { w0: wo, ..old(self).adrc }),
            final(self).motion() == old(self).motion(),
            final(self).encoder == old(self).encoder,
            final(self).step_pin == old(self).step_pin,
            final(self).target_pos_steps == old(self).target_pos_steps,
            final(self).curr_pos_steps == old(self).curr_pos_steps,
            final(self).io == old(self).io,
    {
        self.adrc.w0 = wo;
    }

    /// Stores the controller bandwidth (applied at the next retune).
    pub fn adrc_update_wc(&mut self, wc: u64)
        ensures
            final(self).adrc == (Adrc { wc: wc, ..old(self).adrc }),
            final(self).motion() == old(self).motion(),
            final(self).encoder == old(self).encoder,
            final(self).step_pin == old(self).step_pin,
            final(self).target_pos_steps == old(self).target_pos_steps,
            final(self).curr_pos_steps == old(self).curr_pos_steps,
            final(self).io == old(self).io,
    {
        self.adrc.wc = wc;
    }

    /// Stores the plant gain (applied at the next retune).
    pub fn adrc_update_b0(&mut self, b0: u64)
        ensures
            final(self).adrc == (Adrc { b0: b0, ..old(self).adrc }),
            final(self).motion() == old(self).motion(),
            final(self).encoder == old(self).encoder,
            final(self).step_pin == old(self).step_pin,
            final(self).target_pos_steps == old(self).target_pos_steps,
            final(self).curr_pos_steps == old(self).curr_pos_steps,
            final(self).io == old(self).io,
    {
        self.adrc.b0 = b0;
    }

    /// Ramps down to zero speed.
    pub fn control_stop(&mut self)
        ensures
            final(self).motion() == (Motion {
                state: MotorState::DECEL,
                curr_target: 0,
                ..old(self).motion()
            }),
            Self::same_rest(final(self), old(self)),
    {
        self.state = MotorState::DECEL;
        self.curr_target_speed_hz = 0;
    }

    /// Stops at once: idle, zero command, zero speed.
    pub fn stop(&mut self)
        ensures
            final(self).motion() == (Motion {
                state: MotorState::IDLE,
                curr_target: 0,
                current: 0,
                ..old(self).motion()
            }),
            Self::same_rest(final(self), old(self)),
    {
        self.state = MotorState::IDLE;
        self.curr_target_speed_hz = 0;
        self.current_speed_hz = 0;
    }

    /// One step-pulse tick on the output byte (see [`run_step`]); while
    /// moving, a completed reversal drives the direction output.
    pub fn run(&mut self, out: &mut u8)
        requires
            run_ok(old(self).motion(), old(self).step_pin),
        ensures
            (final(self).motion(), *final(out)) == run_step(
                old(self).motion(),
                *old(out),
                old(self).step_pin,
            ),
            is_moving(old(self).state) && spd_writes_dir(old(self).motion()) ==> IO::dir_written(
                old(self).io,
                final(self).io,
                old(self).dir == MotorDirection::BWD,
            ),
            !(is_moving(old(self).state) && spd_writes_dir(old(self).motion())) ==> final(self).io
                == old(self).io,
            Self::same_rest_but_io(final(self), old(self)),
    {
        match self.state {
            MotorState::ACCEL | MotorState::DECEL | MotorState::CONST_SPD => {
                self.update_spd();
                self.timer += 1;
                let mask: u8 = 1u8 << self.step_pin;
                if self.timer >= self.step_interval {
                    *out |= mask;
                    self.timer = 0;
                } else {
                    *out &= !mask;
                }
            },
            _ => {
                *out &= !(1u8 << self.step_pin);
            },
        }
    }
}

/// Bit `j` of a byte.
pub open spec fn bit(x: u8, j: u8) -> u8 {
    (x >> j) & 1u8
}

/// A pulse tick touches only the axis's own pin. Every other bit of
/// the output byte keeps its value.
pub proof fn lemma_run_touches_only_own_pin(m: Motion, out: u8, pin: u8, j: u8)
    requires
        pin < 8,
        j < 8,
        j != pin,
    ensures
        bit(run_step(m, out, pin).1, j) == bit(out, j),
{
    assert(bit(out | (1u8 << pin), j) == bit(out, j)) by (bit_vector)
        requires
            pin < 8,
            j < 8,
            j != pin,
    ;
    assert(bit(out & !(1u8 << pin), j) == bit(out, j)) by (bit_vector)
        requires
            pin < 8,
            j < 8,
            j != pin,
    ;
}

/// A stopped axis is silent. Whatever the motion quantities, after
/// `stop` (idle, zero command, zero speed) a pulse tick changes nothing and
/// leaves the step pin low.
pub proof fn lemma_stopped_axis_is_silent(m: Motion, out: u8, pin: u8)
    requires
        pin < 8,
    ensures
        ({
            let s = Motion { state: MotorState::IDLE, curr_target: 0, current: 0, ..m };
            &&& run_step(s, out, pin).0 == s
            &&& bit(run_step(s, out, pin).1, pin) == 0
        }),
{
    assert(bit(out & !(1u8 << pin), pin) == 0) by (bit_vector)
        requires
            pin < 8,
    ;
}

/// A zero command at zero speed stops the pulses. A moving axis on the
/// open-loop ramp with a non-negative ramp rate, commanded to zero and at
/// zero speed, goes idle with no
/// pulse interval on its next tick and keeps its step pin low.
pub proof fn lemma_zero_command_goes_idle(m: Motion, out: u8, pin: u8)
    requires
        pin < 8,
        is_moving(m.state),
        m.adrc_mode == AdrcMode::Off,
        m.old_dir == m.dir,
        m.curr_target == 0,
        m.current == 0,
        m.accel >= 0,
        m.decel >= 0,
    ensures
        spd_step(m).state == MotorState::IDLE,
        spd_step(m).step_interval == u32::MAX,
        run_step(m, out, pin).0.state == MotorState::IDLE,
        bit(run_step(m, out, pin).1, pin) == 0,
{
    assert(bit(out & !(1u8 << pin), pin) == 0) by (bit_vector)
        requires
            pin < 8,
    ;
}

/// The ramp never overshoots. On the open-loop ramp without a pending
/// reversal, accelerating from below the running target moves the speed up
/// by at most the acceleration and never past the target; decelerating from
/// above moves it down by at most the deceleration and never past the
/// target, unless a stop is ending from below one deceleration step.
pub proof fn lemma_ramp_never_overshoots(m: Motion)
    requires
        m.adrc_mode == AdrcMode::Off,
        m.old_dir == m.dir,
        m.accel >= 0,
        m.decel >= 0,
    ensures
        ({
            let t = ramp_target(m).curr_target;
            let n = spd_step(m).current;
            &&& m.state == MotorState::ACCEL && m.current <= t ==> m.current <= n <= t && n
                - m.current <= m.accel
            &&& m.state == MotorState::DECEL && t <= m.current && !(t == 0 && 0 < m.current
                < m.decel) ==> t <= n <= m.current && m.current - n <= m.decel
        }),
{
}

/// The motion quantities after `k` speed updates.
pub open spec fn spd_steps(m: Motion, k: nat) -> Motion
    decreases k,
{
    if k == 0 {
        m
    } else {
        spd_step(spd_steps(m, (k - 1) as nat))
    }
}

/// While a controlled stop runs, each update but the last takes one
/// deceleration step off the speed.
proof fn lemma_stop_progress(m: Motion, k: nat)
    requires
        m.adrc_mode == AdrcMode::Off,
        m.old_dir == m.dir,
        m.state == MotorState::DECEL,
        m.curr_target == 0,
        m.target != 0,
        m.decel > 0,
        m.current > 0,
        m.current - k * m.decel > 0,
    ensures
        spd_steps(m, k).state == MotorState::DECEL,
        spd_steps(m, k).current == m.current - k * m.decel,
        spd_steps(m, k).curr_target == 0,
        spd_steps(m, k).target == m.target,
        spd_steps(m, k).decel == m.decel,
        spd_steps(m, k).adrc_mode == AdrcMode::Off,
        spd_steps(m, k).old_dir == spd_steps(m, k).dir,
    decreases k,
{
    if k > 0 {
        let j = (k - 1) as nat;
        let (v, d) = (m.current as int, m.decel as int);
        assert(v - j * d > d) by (nonlinear_arith)
            requires
                d > 0,
                v - k * d > 0,
                k == j + 1,
        ;
        lemma_stop_progress(m, j);
        assert(v - j * d - d == v - k * d) by (nonlinear_arith)
            requires
                k == j + 1,
        ;
    } else {
        assert(k * m.decel == 0) by (nonlinear_arith)
            requires
                k == 0,
        ;
    }
}

/// A controlled stop from speed `v` reaches idle in exactly `ceil(v / d)`
/// updates, for deceleration `d`: after `control_stop` (decelerate toward a
/// zero running target, the speed command left as it was) on the open-loop
/// ramp, every earlier update leaves the axis decelerating at `v - k·d`, and
/// update `ceil(v / d)` brings it to zero speed and idle with no pulses.
pub proof fn lemma_controlled_stop_reaches_idle(m0: Motion, k: nat)
    requires
        m0.adrc_mode == AdrcMode::Off,
        m0.old_dir == m0.dir,
        m0.target != 0,
        m0.decel > 0,
        m0.current > 0,
    ensures
        ({
            let m = Motion { state: MotorState::DECEL, curr_target: 0, ..m0 };
            let n = ((m0.current + m0.decel - 1) / m0.decel as int) as nat;
            &&& k < n ==> spd_steps(m, k).state == MotorState::DECEL && spd_steps(m, k).current
                == m0.current - k * m0.decel
            &&& spd_steps(m, n).state == MotorState::IDLE
            &&& spd_steps(m, n).current == 0
            &&& spd_steps(m, n).step_interval == u32::MAX
        }),
{
    let m = Motion { state: MotorState::DECEL, curr_target: 0, ..m0 };
    let (v, d) = (m0.current as int, m0.decel as int);
    let ni = (v + d - 1) / d;
    assert(ni >= 1 && (ni - 1) * d < v && v <= ni * d) by (nonlinear_arith)
        requires
            d > 0,
            v > 0,
            ni == (v + d - 1) / d,
    ;
    let n = ni as nat;
    if k < n {
        assert(v - k * d > 0) by (nonlinear_arith)
            requires
                d > 0,
                k < ni,
                (ni - 1) * d < v,
        ;
        lemma_stop_progress(m, k);
    }
    assert(v - (ni - 1) * d > 0 && v - (ni - 1) * d <= d) by (nonlinear_arith)
        requires
            (ni - 1) * d < v,
            v <= ni * d,
    ;
    lemma_stop_progress(m, (n - 1) as nat);
    let last = spd_steps(m, (n - 1) as nat);
    assert(0 < last.current <= d);
    assert(spd_steps(m, n) == spd_step(last));
}

/// After a closed-loop cycle the direction agrees with the sign of the new
/// speed: a positive speed runs forward and a negative one backward, a
/// direction that changes is applied at once (the applied direction follows
/// it), and at zero speed nothing changes.
pub proof fn lemma_cycle_direction_follows_speed(
    dir: MotorDirection,
    old_dir: MotorDirection,
    speed: i64,
)
    ensures
        ({
            let (d, od) = auto_dir(dir, old_dir, speed);
            &&& speed > 0 ==> d == MotorDirection::FWD
            &&& speed < 0 ==> d == MotorDirection::BWD
            &&& speed == 0 ==> d == dir && od == old_dir
            &&& d != dir ==> od == d
            &&& d == dir ==> od == old_dir
        }),
{
}

} // verus!
