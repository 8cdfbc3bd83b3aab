use rust_core::encoder_core::{Encoder, EncoderOps, MockEncoder, COUNT_PER_REVI32, MAX_A, MAX_V, SCALE};

fn enc() -> Encoder<MockEncoder> {
    Encoder::new(MockEncoder { counter: 0x8000 })
}

#[test]
fn new_encoder_defaults() {
    let e = enc();
    assert_eq!((e.counts, e.turns, e.pos, e.vel, e.accel), (0, 0, 0, 0, 0));
    assert_eq!((e.g_a, e.g_b, e.g_c), (21626, 655, 14));
}

#[test]
fn read_counter_tracks_counter_around_midpoint() {
    let mut e = enc();
    e.write_enc_counter(0x8000 + 100);
    assert_eq!(e.read_counter(), 100);
    assert_eq!(e.counts, 100);
    e.write_enc_counter(0x8000 - 20);
    assert_eq!(e.read_counter(), -20);
    assert_eq!(e.counts, -20);
    assert_eq!(e.turns, 0);
}

#[test]
fn read_counter_unwraps_revolutions() {
    let mut e = enc();
    // counter runs over [0, 1250): 1200 -> 50 is a forward wrap of 100 counts
    e.write_enc_counter(0x8000 + 600);
    e.read_counter();
    e.write_enc_counter(0x8000 + 1200);
    e.read_counter();
    assert_eq!(e.counts, 1200);
    e.write_enc_counter(0x8000 + 50);
    assert_eq!(e.read_counter(), 50);
    assert_eq!(e.turns, 1);
    assert_eq!(e.counts, 50 + COUNT_PER_REVI32 as i64);
    // and back
    e.write_enc_counter(0x8000 + 1240);
    e.read_counter();
    assert_eq!(e.turns, 0);
    assert_eq!(e.counts, 1240);
}

#[test]
fn unwrap_follows_motion_over_many_steps() {
    let mut e = enc();
    let mut true_pos: i64 = 0;
    for k in 0..400 {
        let step: i64 = if k < 200 { 37 } else { -53 };
        true_pos += step;
        let raw = (0x8000 + true_pos.rem_euclid(1250)) as u32;
        e.write_enc_counter(raw);
        e.apply_counter(e.ops.get_counter());
        assert_eq!(e.counts, true_pos);
    }
}

#[test]
fn apply_counter_raw_values() {
    let mut e = enc();
    assert_eq!(e.apply_counter(0x8000 + 625), 625);
    assert_eq!(e.turns, 0);
    assert_eq!(e.apply_counter(0x8000), 0);
    assert_eq!(e.turns, 0);
    // a jump of more than half a revolution is a wrap
    assert_eq!(e.apply_counter(0x8000 + 626), 626);
    assert_eq!(e.turns, -1);
    assert_eq!(e.counts, 626 - 1250);
    // readings below the midpoint are negative counts
    assert_eq!(e.apply_counter(0), -0x8000);
}

#[test]
fn zero_clears_count() {
    let mut e = enc();
    e.apply_counter(0x8000 + 300);
    e.zero();
    assert_eq!((e.counts, e.turns, e.prev_enc_counts), (0, 0, 0));
    assert_eq!(e.ops.counter, 0x8000);
    assert_eq!(e._read_position(), 0);
}

#[test]
fn init_restarts_at_zero() {
    let mut e = enc();
    e.apply_counter(0x8000 + 300);
    e.pos = 5;
    e.vel = 6;
    e.init();
    assert_eq!((e.counts, e.turns, e.pos, e.vel, e.accel), (0, 0, 0, 0, 0));
    assert_eq!(e.ops.counter, 0);
}

#[test]
fn filter_step_exact_values() {
    let mut e = enc();
    e.counts = 10;
    e.update();
    // residual = 10 * SCALE; pos = residual * g_a / SCALE, etc.
    let r = 10 * SCALE;
    assert_eq!(e.pos, r * 21626 / SCALE);
    assert_eq!(e.vel, r * 655 / SCALE);
    assert_eq!(e.accel, r * 14 / SCALE);
    assert_eq!(e.smooth_vel, e.vel >> 3);
    assert_eq!(e.smooth_accel, e.accel >> 5);
    assert_eq!(e.get_pos(), (e.pos / SCALE) as i32);
}

#[test]
fn filter_clamps_velocity_and_acceleration() {
    let mut e = enc();
    e.g_b = 1 << 20;
    e.g_c = 1 << 20;
    e.counts = 1_000_000;
    e.update();
    assert_eq!(e.vel, MAX_V);
    assert_eq!(e.accel, MAX_A);
    e.counts = -1_000_000_000;
    for _ in 0..5 {
        e.update();
    }
    assert_eq!(e.vel, -MAX_V);
    assert_eq!(e.accel, -MAX_A);
    assert!(e.smooth_vel.abs() <= MAX_V);
    assert!(e.smooth_accel.abs() <= MAX_A);
}

#[test]
fn filter_tracks_constant_position() {
    let mut e = enc();
    e.counts = 500;
    for _ in 0..2000 {
        e.update();
    }
    assert!((e.get_pos() - 500).abs() <= 1);
}

#[test]
fn getters_round_toward_zero() {
    let mut e = enc();
    e.pos = -(3 * SCALE / 2);
    e.smooth_vel = -2999;
    e.smooth_accel = (1i64 << 32) + 7;
    assert_eq!(e.get_pos(), -1);
    assert_eq!(e.get_velocity(), -2);
    assert_eq!(e.get_acceleration(), 7);
}

#[test]
fn counter_writes_reach_the_hardware() {
    let mut e = enc();
    e.write_enc_counter(0x8123);
    assert_eq!(e.ops.counter, 0x8123);
    assert_eq!(e.ops.get_counter(), 0x8123);
    e._set_position(0x7000);
    assert_eq!(e.ops.counter, 0x7000);
    assert_eq!(e.counts, 0);
    let mut m = MockEncoder { counter: 1 };
    m.write_counter(42);
    assert_eq!(m.get_counter(), 42);
}
