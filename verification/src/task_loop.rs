//! The decisions of the firmware's main loop. The caller performs the
//! returned action and feeds back what the hardware gives.
//!
//! Each pass reads the down-counting system tick. Once more than
//! `SAMPLE_TICKS` ticks have passed since the last sample window, the
//! encoder is sampled once, with telemetry on every fourth sample while the
//! axis moves; the following pass opens a new window. Between samples the
//! loop runs the button, system and speed-potentiometer tasks in turn.
use vstd::prelude::*;

verus! {

/// Ticks between encoder samples.
pub const SAMPLE_TICKS: u32 = 200;

/// ADC counts the potentiometer must move before the speed is reset.
pub const ADC_HYSTERESIS: i16 = 10;

/// The loop's own variables.
#[derive(Debug, Clone, Copy, PartialEq, Eq, Structural)]
pub struct LoopState {
    pub print_cnt: u32,
    pub upd_task: u32,
    pub enc_last_upd: u32,
    pub update: u8,
    pub old_count: i16,
}

/// What the caller does on one pass.
#[derive(Debug, Clone, Copy, PartialEq, Eq, Structural)]
pub enum LoopAction {
    /// Read the encoder counter and run the filter; then, if `telemetry`,
    /// send position, velocity and acceleration.
    SampleEncoder { telemetry: bool },
    /// Nothing to do: a new sample window starts now.
    ResetWindow,
    /// Sample the button.
    ButtonTask,
    /// Run one step of the system state machine.
    SysTask,
    /// Read the potentiometer and hand the reading to [`adc_task`].
    AdcTask,
    /// Nothing to do.
    Idle,
}

/// Ticks of a down-counting timer with reload value `reload` from `last` to
/// `now` (at most one wrap).
pub open spec fn elapsed(now: u32, last: u32, reload: u32) -> int {
    if now <= last {
        last - now
    } else {
        last + (reload - now)
    }
}

/// The loop state after one pass at tick `now`, and the action.
pub open spec fn loop_spec(s: LoopState, now: u32, reload: u32, axis_idle: bool) -> (
    LoopState,
    LoopAction,
) {
    if elapsed(now, s.enc_last_upd, reload) > SAMPLE_TICKS {
        if s.update == 0 {
            let due = s.print_cnt > 3;
            (
                LoopState {
                    update: 1,
                    print_cnt: if due {
                        1
                    } else {
                        (s.print_cnt + 1) as u32
                    },
                    ..s
                },
                LoopAction::SampleEncoder { telemetry: due && !axis_idle },
            )
        } else {
            (LoopState { enc_last_upd: now, update: 0, ..s }, LoopAction::ResetWindow)
        }
    } else {
        (
            LoopState { upd_task: ((s.upd_task + 1) % 3) as u32, ..s },
            if s.upd_task == 0 {
                LoopAction::ButtonTask
            } else if s.upd_task == 1 {
                LoopAction::SysTask
            } else if s.upd_task == 2 {
                LoopAction::AdcTask
            } else {
                LoopAction::Idle
            },
        )
    }
}

/// A pass does not overflow: the elapsed time fits, and the task counter
/// can be advanced.
pub open spec fn loop_ok(s: LoopState, now: u32, reload: u32) -> bool {
    &&& now > s.enc_last_upd ==> now <= reload && s.enc_last_upd + (reload - now) <= u32::MAX
    &&& s.upd_task < u32::MAX
}

/// The initial loop state: no sample taken, first task the button, no
/// potentiometer reading yet.
pub fn loop_new() -> (s: LoopState)
    ensures
        s == (LoopState { print_cnt: 0, upd_task: 0, enc_last_upd: 0, update: 0, old_count: -1i16 }),
{
    LoopState { print_cnt: 0, upd_task: 0, enc_last_upd: 0, update: 0, old_count: -1 }
}

/// One pass of the main loop at tick `now` of a timer reloading at
/// `reload`, with `axis_idle` telling whether the axis is idle.
pub fn loop_step(s: &mut LoopState, now: u32, reload: u32, axis_idle: bool) -> (a: LoopAction)
    requires
        loop_ok(*old(s), now, reload),
    ensures
        (*final(s), a) == loop_spec(*old(s), now, reload, axis_idle),
{
    let dt = crate::sys::ticks_since(now, s.enc_last_upd, reload);
    if dt > SAMPLE_TICKS {
        if s.update == 0 {
            s.update = 1;
            let mut telemetry = false;
            if s.print_cnt > 3 {
                s.print_cnt = 0;
                telemetry = !axis_idle;
            }
            s.print_cnt = s.print_cnt + 1;
            LoopAction::SampleEncoder { telemetry }
        } else {
            s.enc_last_upd = now;
            s.update = 0;
            LoopAction::ResetWindow
        }
    } else {
        let a = if s.upd_task == 0 {
            LoopAction::ButtonTask
        } else if s.upd_task == 1 {
            LoopAction::SysTask
        } else if s.upd_task == 2 {
            LoopAction::AdcTask
        } else {
            LoopAction::Idle
        };
        s.upd_task = (s.upd_task + 1) % 3;
        a
    }
}

/// A potentiometer reading, with readings of zero or below taken as 1.
pub open spec fn clamped_count(count: i16) -> i16 {
    if count <= 0 {
        1
    } else {
        count
    }
}

/// The potentiometer task on ADC reading `count`: when the (clamped)
/// reading has moved more than `ADC_HYSTERESIS` counts from the last one
/// taken, it becomes the last one taken and is returned for conversion to
/// millivolts; otherwise nothing changes.
pub fn adc_task(s: &mut LoopState, count: i16) -> (r: Option<i16>)
    requires
        i16::MIN <= clamped_count(count) - old(s).old_count <= i16::MAX,
    ensures
        ({
            let c = clamped_count(count);
            let d = c - old(s).old_count;
            let moved = (if d < 0 {
                -d
            } else {
                d
            }) > ADC_HYSTERESIS;
            &&& moved ==> r == Some(c) && *final(s) == (LoopState { old_count: c, ..*old(s) })
            &&& !moved ==> r is None && *final(s) == *old(s)
        }),
{
    let mut c = count;
    if c <= 0 {
        c = 1;
    }
    let d = c - s.old_count;
    let mag: i16 = if d < 0 {
        -d
    } else {
        d
    };
    if mag > ADC_HYSTERESIS {
        s.old_count = c;
        Some(c)
    } else {
        None
    }
}

/// The magnitude of `v`, saturated to `i32::MAX`.
pub open spec fn sat_abs32(v: i32) -> int {
    if v == i32::MIN {
        i32::MAX as int
    } else if v < 0 {
        -v
    } else {
        v as int
    }
}

/// The speed command for a potentiometer voltage in millivolts: four times
/// its magnitude, the magnitude (saturated to `i32::MAX`) truncated to 16
/// bits.
pub fn speed_from_mv(mv: i32) -> (hz: u32)
    ensures
        hz == 4 * (sat_abs32(mv) % 0x1_0000),
{
    let a: i32 = if mv == i32::MIN {
        i32::MAX
    } else if mv < 0 {
        -mv
    } else {
        mv
    };
    proof {
        assert((a as u16) as int == a % 0x1_0000) by (bit_vector)
            requires
                a >= 0,
        ;
    }
    #[verifier::truncate]
    let low = a as u16;
    low as u32 * 4
}

} // verus!
