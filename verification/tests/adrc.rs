use rust_core::adrc;
use rust_core::adrc::{Adrc, SCALE};

/// 200 µs sample period in SCALE seconds
const TS_200US: u64 = (SCALE as f64 * 200.0 / 1_000_000.0) as u64;

fn setup_position() -> Adrc {
    let mut adrc = Adrc::new();
    adrc.tune_position(
        (500.0 * SCALE as f64) as u64,
        (250.0 * SCALE as f64) as u64,
        SCALE as u64,
        TS_200US,
    );
    adrc
}

fn setup_speed() -> Adrc {
    let mut adrc = Adrc::new();
    adrc.tune_speed(
        (500.0 * SCALE as f64) as u64,
        (250.0 * SCALE as f64) as u64,
        SCALE as u64,
        TS_200US,
    );
    adrc
}

#[test]
fn test_tune_position_gains_positive() {
    let adrc = setup_position();
    assert!(adrc.l1 > 0);
    assert!(adrc.l2 > 0);
    assert!(adrc.l3 > 0);
    assert!(adrc.kp > 0);
    assert!(adrc.kd > 0);
}

#[test]
fn test_tune_speed_gains_positive() {
    let adrc = setup_speed();
    assert!(adrc.l1 > 0);
    assert!(adrc.l2 > 0);
    assert!(adrc.l3 == 0);
    assert!(adrc.kp > 0);
    assert!(adrc.kd == 0);
}

#[test]
fn test_position_observer_converges() {
    let mut adrc = setup_position();
    let measured_y = 500 * SCALE;

    for _ in 0..500 {
        adrc.update_position(0, measured_y);
    }

    let err = (adrc.z1 - measured_y).abs() / SCALE;
    assert!(err < 50, "z1 failed to track y: err={}", err);
}

#[test]
fn test_position_control_drives_plant() {
    let mut adrc = Adrc::new();
    adrc.tune_position(
        (500.0 * SCALE as f64) as u64,
        (250.0 * SCALE as f64) as u64,
        SCALE as u64,
        TS_200US,
    );

    let target = 500 * SCALE;
    let mut plant_pos = 0i64;
    let mut plant_vel = 0i64;

    for _ in 0..1000 {
        let u = adrc.update_position(target, plant_pos);
        plant_vel = plant_vel.saturating_add(u / SCALE);
        plant_vel = plant_vel.clamp(-100 * SCALE, 100 * SCALE);
        plant_pos = plant_pos.saturating_add(plant_vel);
    }

    assert!(plant_pos > 0, "plant should move toward target");
    let track_err = (adrc.z1 - plant_pos).abs() / SCALE;
    assert!(track_err < 100, "observer should track plant");
}

#[test]
fn test_speed_control_drives_plant() {
    let mut adrc = Adrc::new();
    adrc.tune_speed(
        (500.0 * SCALE as f64) as u64,
        (250.0 * SCALE as f64) as u64,
        SCALE as u64,
        TS_200US,
    );

    let mut plant_vel = 0i64;
    let target_vel = 1000 * SCALE;

    for _ in 0..200 {
        let u = adrc.update_speed(target_vel, plant_vel);
        plant_vel = plant_vel.saturating_add(u / SCALE);
    }

    assert!(plant_vel > 0, "plant should accelerate toward target");
    let track_err = (adrc.z1 - plant_vel).abs() / SCALE;
    assert!(track_err < 500, "observer should track plant: {}", track_err);
}

#[test]
fn test_reset_clears_state() {
    let mut adrc = setup_position();
    adrc.update_position(100 * SCALE, 0);
    adrc.reset();
    assert_eq!(adrc.z1, 0);
    assert_eq!(adrc.z2, 0);
    assert_eq!(adrc.z3, 0);
    assert_eq!(adrc.control, 0);
}

#[test]
fn test_tune_speed_gains_match_formula() {
    let ts = TS_200US;
    let wo_radps = (50.0 * SCALE as f64) as u64;
    let wc_radps = (20.0 * SCALE as f64) as u64;
    let b0 = SCALE as u64;
    let mut adrc = Adrc::new();
    adrc.tune_speed(wo_radps, wc_radps, b0, ts);

    let wo_s = adrc::mul(wo_radps as i64, ts as i64);
    let wc_s = adrc::mul(wc_radps as i64, ts as i64);

    assert_eq!(adrc.l1, 2 * wo_s);
    assert_eq!(adrc.kp, wc_s);
}

#[test]
fn test_tune_position_gains_match_formula_approx() {
    let ts = TS_200US;
    let wo_radps = (10.0 * SCALE as f64) as u64;
    let wc_radps = (5.0 * SCALE as f64) as u64;
    let b0 = SCALE as u64;
    let mut adrc = Adrc::new();
    adrc.tune_position(wo_radps, wc_radps, b0, ts);

    let wo_s = adrc::mul(wo_radps as i64, ts as i64);
    let wc_s = adrc::mul(wc_radps as i64, ts as i64);

    assert_eq!(adrc.l1, 3 * wo_s);
    assert_eq!(adrc.kd, 2 * wc_s);
    let kp_expected = adrc::mul(wc_s, wc_s);
    assert!((adrc.kp - kp_expected).abs() <= 1);
}

#[test]
fn mul_rounds_toward_zero() {
    assert_eq!(adrc::mul(3 * SCALE, 2 * SCALE), 6 * SCALE);
    assert_eq!(adrc::mul(1, 1), 0);
    assert_eq!(adrc::mul(-1, 1), 0);
    assert_eq!(adrc::mul(-3, SCALE / 2), -1);
    assert_eq!(adrc::mul(SCALE + 1, SCALE / 2), SCALE / 2);
}

#[test]
fn tune_position_exact_gains() {
    let adrc = setup_position();
    // w = 500 * 13 = 6500, c = 250 * 13 = 3250 (Q16.16 per sample)
    assert_eq!(adrc.l1, 19500);
    assert_eq!(adrc.l2, 19500 * 6500 / SCALE);
    assert_eq!(adrc.l3, (6500 * 6500 / SCALE) * 6500 / SCALE);
    assert_eq!(adrc.kp, 3250 * 3250 / SCALE);
    assert_eq!(adrc.kd, 6500);
    assert_eq!(adrc.w0, 500 * SCALE as u64);
    assert_eq!(adrc.b0, SCALE as u64);
}

#[test]
fn controller_at_rest_stays_at_rest() {
    let mut adrc = setup_position();
    assert_eq!(adrc.update_position(0, 0), 0);
    assert_eq!((adrc.z1, adrc.z2, adrc.z3, adrc.control), (0, 0, 0, 0));
    let mut adrc = setup_speed();
    assert_eq!(adrc.update_speed(0, 0), 0);
    assert_eq!((adrc.z1, adrc.z2, adrc.z3, adrc.control), (0, 0, 0, 0));
}

#[test]
fn updates_keep_tuning() {
    let mut adrc = setup_position();
    let before = adrc;
    adrc.update_position(7 * SCALE, -3 * SCALE);
    adrc.update_speed(7 * SCALE, -3 * SCALE);
    assert_eq!(
        (adrc.l1, adrc.l2, adrc.l3, adrc.kp, adrc.kd, adrc.w0, adrc.wc, adrc.b0),
        (before.l1, before.l2, before.l3, before.kp, before.kd, before.w0, before.wc, before.b0)
    );
}

#[test]
fn first_position_step_exact() {
    let mut adrc = setup_position();
    // e = 0 - 2*SCALE; z1 = 0 - mul(e, 19500); z2 = -mul(e, l2); z3 = -mul(e, l3)
    let e = -2 * SCALE;
    let u = adrc.update_position(0, 2 * SCALE);
    let z1 = -adrc::mul(e, 19500);
    let z2 = -adrc::mul(e, adrc.l2);
    let z3 = -adrc::mul(e, adrc.l3);
    assert_eq!((adrc.z1, adrc.z2, adrc.z3), (z1, z2, z3));
    let u0 = adrc::mul(0 - z1, adrc.kp) - adrc::mul(z2, adrc.kd);
    assert_eq!(u, (u0 - z3) * SCALE / SCALE);
}

#[test]
fn zero_plant_gain_divides_by_one() {
    let mut adrc = setup_speed();
    adrc.b0 = 0;
    let u = adrc.update_speed(SCALE, 0);
    let expected_u0 = adrc::mul(SCALE - adrc.z1, adrc.kp) - adrc.z2;
    assert_eq!(u, expected_u0 * SCALE);
}

#[test]
fn tune_speed_exact_gains() {
    let adrc = setup_speed();
    // l1 = 2 * 500 * 13, l2 = 500^2 * 13 (Q16.16), kp = 250 * 13
    assert_eq!(adrc.l1, 13000);
    assert_eq!(adrc.l2, 500 * 500 * 13);
    assert_eq!(adrc.l2, 3_250_000);
    assert_eq!(adrc.kp, 3250);
    assert_eq!((adrc.l3, adrc.kd), (0, 0));
}
