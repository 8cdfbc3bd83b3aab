use rust_core::adrc::SCALE;
use rust_core::encoder_core::MockEncoder;
use rust_core::motor::{AdrcMode, DirLatch, MotorDirection, MotorIo, MotorState, Stepper};
/// Records every level written to the direction output.
struct DirLog(Vec<bool>);

impl MotorIo for DirLog {
    fn write_dir(&mut self, backward: bool) {
        self.0.push(backward);
    }
}

fn setup() -> Stepper<MockEncoder, DirLog> {
    let mut motor = Stepper::new(MockEncoder { counter: 0x8000 }, DirLog(vec![]), 0);
    motor.acceleration_hz_ms = 15;
    motor.deceleration_hz_ms = 15;
    motor.step_interval = 20000;
    motor
}

#[test]
fn test_accel_clamping_at_target() {
    let mut motor = setup();

    motor.target_speed_hz = 5;
    motor.current_speed_hz = 4;
    motor.state = MotorState::ACCEL;
    motor.update_spd();
    assert_eq!(motor.current_speed_hz, 5);
    assert_eq!(motor.state, MotorState::CONST_SPD);
}

#[test]
fn test_decel_to_idle() {
    let mut motor = setup();

    motor.state = MotorState::DECEL;
    motor.current_speed_hz = 3;
    motor.target_speed_hz = 0;

    motor.update_spd();
    assert_eq!(motor.current_speed_hz, 15);
    assert_eq!(motor.state, MotorState::DECEL);

    motor.update_spd();
    assert_eq!(motor.current_speed_hz, 0);
    assert_eq!(motor.state, MotorState::IDLE);
}

#[test]
fn test_mid_air_reversal() {
    let mut motor = setup();

    motor.state = MotorState::CONST_SPD;
    motor.current_speed_hz = 50;

    motor.target_speed_hz = 485;
    motor.update_spd();

    assert_eq!(motor.state, MotorState::DECEL);

    motor.update_spd();
    assert_eq!(motor.current_speed_hz, 485);
}

#[test]
fn test_step_interval_math() {
    let mut motor = setup();

    motor.current_speed_hz = 100;
    motor.update_spd();
    assert_eq!(motor.step_interval, 1000);

    motor.current_speed_hz = 0;
    motor.update_spd();
    assert_eq!(motor.step_interval, u32::MAX);
}

#[test]
fn new_stepper_is_idle() {
    let m = setup();
    assert_eq!(m.state, MotorState::IDLE);
    assert_eq!(m.dir, MotorDirection::FWD);
    assert_eq!((m.target_speed_hz, m.curr_target_speed_hz, m.current_speed_hz), (1000, 1000, 0));
    assert_eq!(m.adrc_mode, AdrcMode::Off);
    assert_eq!(m.get_current_position(), 0);
}

#[test]
fn accel_ramps_to_the_command() {
    let mut m = setup();
    m.target_speed_hz = 40;
    m.current_speed_hz = 0;
    m.state = MotorState::ACCEL;
    m.update_spd();
    assert_eq!(m.curr_target_speed_hz, 40);
    assert_eq!(m.current_speed_hz, 15);
    assert_eq!(m.state, MotorState::ACCEL);
    m.update_spd();
    m.update_spd();
    assert_eq!(m.current_speed_hz, 40);
    assert_eq!(m.state, MotorState::CONST_SPD);
    // 100000 / 40 = 2500 ticks between pulses
    assert_eq!(m.step_interval, 2500);
}

#[test]
fn decel_below_one_step_holds_one_step_then_stops() {
    let mut m = setup();
    m.state = MotorState::DECEL;
    m.current_speed_hz = 20;
    m.target_speed_hz = 0;
    m.update_spd();
    assert_eq!((m.current_speed_hz, m.state), (5, MotorState::DECEL));
    m.update_spd();
    assert_eq!((m.current_speed_hz, m.state), (15, MotorState::DECEL));
    m.update_spd();
    assert_eq!((m.current_speed_hz, m.state), (0, MotorState::IDLE));
    assert_eq!(m.step_interval, u32::MAX);
}

#[test]
fn controlled_stop_from_a_multiple_of_the_step() {
    let mut m = setup();
    m.state = MotorState::CONST_SPD;
    m.current_speed_hz = 45;
    m.target_speed_hz = 45;
    m.control_stop();
    for expected in [30, 15] {
        m.update_spd();
        assert_eq!((m.current_speed_hz, m.state), (expected, MotorState::DECEL));
    }
    m.update_spd();
    assert_eq!((m.current_speed_hz, m.state), (0, MotorState::IDLE));
}

#[test]
fn const_speed_picks_ramp_state() {
    let mut m = setup();
    m.state = MotorState::CONST_SPD;
    m.current_speed_hz = 50;
    m.target_speed_hz = 485;
    m.update_spd();
    assert_eq!(m.state, MotorState::DECEL);
    m.state = MotorState::CONST_SPD;
    m.current_speed_hz = 50;
    m.target_speed_hz = 10;
    m.update_spd();
    assert_eq!(m.state, MotorState::ACCEL);
}

#[test]
fn step_interval_formula() {
    let mut m = setup();
    m.target_speed_hz = 100;
    m.current_speed_hz = 100;
    m.update_spd();
    assert_eq!(m.step_interval, 1000);
    m.current_speed_hz = 5;
    m.update_spd();
    assert_eq!(m.step_interval, 3000);
    m.current_speed_hz = -100_000;
    m.update_spd();
    assert_eq!(m.step_interval, 1);
    m.current_speed_hz = 0;
    m.update_spd();
    assert_eq!(m.step_interval, u32::MAX);
}

#[test]
fn reversal_ramps_down_then_switches() {
    let mut m = setup();
    m.state = MotorState::CONST_SPD;
    m.current_speed_hz = 15;
    m.curr_target_speed_hz = 15;
    m.target_speed_hz = 15;
    m.dir = MotorDirection::BWD;
    m.update_spd();
    assert_eq!(m.curr_target_speed_hz, 0);
    assert_eq!(m.state, MotorState::ACCEL);
    assert!(m.io.0.is_empty());
    m.update_spd();
    assert_eq!(m.current_speed_hz, 0);
    assert_eq!(m.state, MotorState::IDLE);
    m.update_spd();
    assert_eq!(m.old_dir, MotorDirection::BWD);
    assert_eq!(m.curr_target_speed_hz, -15);
    assert_eq!(m.state, MotorState::ACCEL);
    assert_eq!(m.io.0, vec![true]);
}

#[test]
fn run_emits_pulse_every_interval() {
    let mut m = setup();
    m.step_pin = 3;
    m.target_speed_hz = 25000;
    m.curr_target_speed_hz = 25000;
    m.current_speed_hz = 25000;
    m.state = MotorState::CONST_SPD;
    let mut out: u8 = 0b1000_0001;
    // 100000 / 25000 = 4 ticks per pulse
    let mut pulses = 0;
    for _ in 0..12 {
        m.run(&mut out);
        if out & (1 << 3) != 0 {
            pulses += 1;
        }
        assert_eq!(out & !(1 << 3), 0b1000_0001);
    }
    assert_eq!(pulses, 3);
}

#[test]
fn stopped_axis_is_silent() {
    let mut m = setup();
    m.state = MotorState::CONST_SPD;
    m.current_speed_hz = 500;
    m.stop();
    assert_eq!((m.state, m.curr_target_speed_hz, m.current_speed_hz), (MotorState::IDLE, 0, 0));
    let mut out: u8 = 0xFF;
    m.run(&mut out);
    assert_eq!(out, 0xFE);
}

#[test]
fn control_stop_decelerates() {
    let mut m = setup();
    m.state = MotorState::CONST_SPD;
    m.current_speed_hz = 30;
    m.curr_target_speed_hz = 30;
    m.control_stop();
    assert_eq!((m.state, m.curr_target_speed_hz), (MotorState::DECEL, 0));
    m.update_spd();
    assert_eq!(m.current_speed_hz, 15);
}

#[test]
fn set_speed_and_start_motion() {
    let mut m = setup();
    m.set_speed(801);
    assert_eq!(m.target_speed_hz, 400);
    assert_eq!(m.curr_target_speed_hz, 1000);
    m.dir = MotorDirection::BWD;
    m.start_motion();
    assert_eq!(m.curr_target_speed_hz, -400);
    assert_eq!(m.state, MotorState::ACCEL);
    assert_eq!(m.dir_sign(), -1);
    m.set_speed(0);
    assert_eq!(m.curr_target_speed_hz, 0);
    m.state = MotorState::IDLE;
    m.start_motion();
    assert_eq!(m.state, MotorState::IDLE);
    m.set_target_position(-7);
    assert_eq!(m.target_pos_steps, -7);
}

#[test]
fn adrc_mode_retunes() {
    let mut m = setup();
    m.adrc_update_w0(500 * SCALE as u64);
    m.adrc_update_wc(250 * SCALE as u64);
    m.adrc_update_b0(SCALE as u64);
    m.adrc_set_mode(AdrcMode::Position);
    assert_eq!(m.adrc_mode, AdrcMode::Position);
    assert_eq!(m.adrc.l1, 19500);
    assert_eq!(m.adrc.kd, 6500);
    m.adrc_set_mode(AdrcMode::Speed);
    assert_eq!(m.adrc.l1, 13000);
    assert_eq!(m.adrc.kp, 3250);
}

#[test]
fn adrc_speed_cycle_sets_speed_and_direction() {
    let mut m = setup();
    m.adrc_update_w0(500 * SCALE as u64);
    m.adrc_update_wc(250 * SCALE as u64);
    m.adrc_set_mode(AdrcMode::Speed);
    m.curr_target_speed_hz = -1000;
    m.adrc_cycle(200);
    assert!(m.current_speed_hz < 0);
    assert_eq!(m.dir, MotorDirection::BWD);
    assert_eq!(m.old_dir, MotorDirection::BWD);
    assert_eq!(m.io.0, vec![true]);
    // the speed follows the controller output: u * 1e6 / (SCALE * 200)
    assert_eq!(m.current_speed_hz, m.adrc.control * 1_000_000 / (SCALE * 200));
}

#[test]
fn adrc_position_cycle_stops_at_target() {
    let mut m = setup();
    m.adrc_set_mode(AdrcMode::Position);
    m.state = MotorState::CONST_SPD;
    m.target_pos_steps = 0;
    m.adrc_cycle(200);
    assert_eq!(m.state, MotorState::IDLE);
    assert_eq!(m.current_speed_hz, 0);
}

#[test]
fn adrc_off_cycle_does_nothing() {
    let mut m = setup();
    m.current_speed_hz = 77;
    m.adrc_cycle(200);
    assert_eq!(m.current_speed_hz, 77);
    assert_eq!(m.state, MotorState::IDLE);
}

#[test]
fn direction_latch_holds_the_level_written() {
    let mut m = Stepper::new(MockEncoder { counter: 0x8000 }, DirLatch { backward: false }, 1);
    m.set_direction(MotorDirection::BWD);
    assert!(m.io.backward);
    m.set_direction(MotorDirection::FWD);
    assert!(!m.io.backward);
}

#[test]
fn controlled_stop_takes_ceil_of_speed_over_step() {
    let mut m = setup();
    m.state = MotorState::CONST_SPD;
    m.current_speed_hz = 20;
    m.target_speed_hz = 20;
    m.control_stop();
    m.update_spd();
    assert_eq!((m.current_speed_hz, m.state), (5, MotorState::DECEL));
    m.update_spd();
    assert_eq!((m.current_speed_hz, m.state), (0, MotorState::IDLE));
    assert_eq!(m.step_interval, u32::MAX);
}
