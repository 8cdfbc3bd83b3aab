use rust_core::adrc::SCALE;
use rust_core::encoder_core::MockEncoder;
use rust_core::motor::{AdrcMode, MotorDirection, MotorIo, Stepper};
use rust_core::serial::{dispatch_command, Reply};
use rust_core::serial_core::{Command, SerialParser};
use rust_core::sys::{System_State, System_T};

struct NoPin;

impl MotorIo for NoPin {
    fn write_dir(&mut self, _backward: bool) {}
}

fn setup() -> (Stepper<MockEncoder, NoPin>, System_T) {
    (Stepper::new(MockEncoder { counter: 0x8000 }, NoPin, 0), System_T::new())
}

fn send(bytes: &[u8], x: &mut Stepper<MockEncoder, NoPin>, s: &mut System_T) -> Vec<Reply> {
    let mut p = SerialParser::new();
    let mut replies = vec![];
    for &b in bytes {
        if let Some(cmd) = p.parse_byte(b) {
            if let Some(r) = dispatch_command(cmd, x, s) {
                replies.push(r);
            }
        }
    }
    replies
}

#[test]
fn gains_are_assigned() {
    let (mut x, mut s) = setup();
    let r = send(b">a100,>B200,>c300,", &mut x, &mut s);
    assert_eq!(r, vec![Reply::NewGainA(100)]);
    assert_eq!((x.encoder.g_a, x.encoder.g_b, x.encoder.g_c), (100, 200, 300));
}

#[test]
fn phase_requests() {
    let (mut x, mut s) = setup();
    send(b"r", &mut x, &mut s);
    assert_eq!(s.next_state, System_State::START_MOVE);
    send(b"s", &mut x, &mut s);
    assert_eq!(s.next_state, System_State::START_SPD);
    send(b"t", &mut x, &mut s);
    assert_eq!(s.next_state, System_State::STOPPING);
    send(b"k", &mut x, &mut s);
    assert_eq!(s.next_state, System_State::KILL);
    send(b"p", &mut x, &mut s);
    assert!(s.print_dbg);
}

#[test]
fn toggle_direction_and_unknown() {
    let (mut x, mut s) = setup();
    let r = send(b"d?d", &mut x, &mut s);
    assert_eq!(
        r,
        vec![
            Reply::DirChanged(MotorDirection::BWD),
            Reply::Unknown(b'?'),
            Reply::DirChanged(MotorDirection::FWD)
        ]
    );
    assert_eq!(x.dir, MotorDirection::FWD);
}

#[test]
fn controller_assignments() {
    let (mut x, mut s) = setup();
    let w0 = (500 * SCALE) as u64;
    let wc = (250 * SCALE) as u64;
    let cmd = format!(">w{},>v{},>m2,", w0, wc);
    send(cmd.as_bytes(), &mut x, &mut s);
    assert_eq!(x.adrc_mode, AdrcMode::Position);
    assert_eq!(x.adrc.l1, 19500);
    // with a loop active, a new bandwidth retunes at once
    send(format!(">w{},", 2 * w0).as_bytes(), &mut x, &mut s);
    assert_eq!(x.adrc.l1, 39000);
    send(b">m7,", &mut x, &mut s);
    assert_eq!(x.adrc_mode, AdrcMode::Off);
    send(b">q4294967295,", &mut x, &mut s);
    assert_eq!(x.target_pos_steps, -1);
}

#[test]
fn speed_assignment_is_signed_by_direction() {
    let (mut x, mut s) = setup();
    send(b"d>p1500,", &mut x, &mut s);
    assert_eq!(x.target_speed_hz, 1500);
    assert_eq!(x.curr_target_speed_hz, -1500);
}

#[test]
fn reset_zeroes_encoder() {
    let (mut x, mut s) = setup();
    x.encoder.apply_counter(0x8000 + 40);
    send(b"z", &mut x, &mut s);
    assert_eq!(x.encoder.counts, 0);
    assert_eq!(x.encoder.ops.counter, 0x8000);
}

#[test]
fn unknown_variable_is_ignored() {
    let (mut x, mut s) = setup();
    let r = dispatch_command(Command::Assign { var: b'x', value: 5 }, &mut x, &mut s);
    assert_eq!(r, None);
    assert_eq!(x.encoder.g_a, 21626);
}
