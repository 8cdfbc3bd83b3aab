//! Linear ADRC (Active Disturbance Rejection Control) in Q16.16 fixed point.
//!
//! Position mode runs a second-order extended state observer (LESO) with a
//! PD state-feedback law; speed mode runs a first-order LESO with a P law.
//! All arithmetic is integer: products are taken in `i128`, divided by
//! `SCALE` rounding toward zero, and every accumulation saturates at the
//! `i64` range.
use vstd::prelude::*;
use crate::sat::{sat64, trunc_div, sat_add, sat_sub, sat_mul, lemma_i64_product_fits_i128};

verus! {

/// One in Q16.16.
pub const SCALE: i64 = 65536;

/// Q16.16 product of two raw values: `a * b / SCALE` rounded toward zero,
/// then truncated to 64 bits.
pub open spec fn fx_mul(a: int, b: int) -> i64 {
    trunc_div(a * b, SCALE as int) as i64
}

/// Q16.16 multiplication of two raw `i64` values.
pub fn mul(a: i64, b: i64) -> (r: i64)
    ensures
        r == fx_mul(a as int, b as int),
{
    proof {
        lemma_i64_product_fits_i128(a, b);
    }
    let p = (a as i128) * (b as i128);
    let q = p / (SCALE as i128);
    #[verifier::truncate]
    (q as i64)
}

/// Controller output from the law's numerator: `num * SCALE / max(b0, 1)`,
/// rounded toward zero and truncated to 64 bits.
pub open spec fn control_output(num: i64, b0: u64) -> i64 {
    let d: int = if b0 >= 1 { b0 as int } else { 1 };
    trunc_div(num * SCALE, d) as i64
}

/// A per-sample gain: a rate in rad/s times the sample period, both Q16.16.
pub open spec fn sampled(w: u64, ts: u64) -> i64 {
    fx_mul((w as i64) as int, (ts as i64) as int)
}

/// A squared rate times the sample period: `w·w·Ts` (all Q16.16).
pub open spec fn sampled_sq(w: u64, ts: u64) -> i64 {
    fx_mul(fx_mul((w as i64) as int, (w as i64) as int) as int, (ts as i64) as int)
}

/// Linear ADRC state and gains.
///
/// Position mode: `z1` position, `z2` velocity, `z3` total disturbance
/// estimates. Speed mode: `z1` velocity, `z2` disturbance estimates.
/// `w0`, `wc`, `b0` are the tuning inputs (Q16.16); `l1..l3`, `kp`, `kd` are
/// the derived discrete gains; `control` is the last output.
#[derive(Clone, Copy)]
pub struct Adrc {
    pub z1: i64,
    pub z2: i64,
    pub z3: i64,
    pub w0: u64,
    pub wc: u64,
    pub b0: u64,
    pub l1: i64,
    pub l2: i64,
    pub l3: i64,
    pub kp: i64,
    pub kd: i64,
    pub control: i64,
}

impl Adrc {
    /// The tuning inputs and derived gains are equal in `a` and `b`.
    pub open spec fn same_tuning(a: Adrc, b: Adrc) -> bool {
        &&& a.w0 == b.w0
        &&& a.wc == b.wc
        &&& a.b0 == b.b0
        &&& a.l1 == b.l1
        &&& a.l2 == b.l2
        &&& a.l3 == b.l3
        &&& a.kp == b.kp
        &&& a.kd == b.kd
    }

    /// The observer state and output are equal in `a` and `b`.
    pub open spec fn same_state(a: Adrc, b: Adrc) -> bool {
        &&& a.z1 == b.z1
        &&& a.z2 == b.z2
        &&& a.z3 == b.z3
        &&& a.control == b.control
    }

    /// One step of the position-mode observer and control law.
    pub open spec fn position_step(s: Adrc, r: i64, y: i64) -> Adrc {
        let e = sat64(s.z1 - y);
        let z1 = sat64(sat64(s.z1 + s.z2) - fx_mul(e as int, s.l1 as int));
        let z2 = sat64(
            sat64(sat64(s.z2 + s.z3) - fx_mul(e as int, s.l2 as int)) + fx_mul(
                s.control as int,
                (s.b0 as i64) as int,
            ),
        );
        let z3 = sat64(s.z3 - fx_mul(e as int, s.l3 as int));
        let u0 = sat64(fx_mul(sat64(r - z1) as int, s.kp as int) - fx_mul(z2 as int, s.kd as int));
        let control = control_output(sat64(u0 - z3), s.b0);
        Adrc { z1, z2, z3, control, ..s }
    }

    /// One step of the speed-mode observer and control law.
    pub open spec fn speed_step(s: Adrc, r: i64, y: i64) -> Adrc {
        let e = sat64(s.z1 - y);
        let z1 = sat64(
            sat64(sat64(s.z1 + s.z2) - fx_mul(e as int, s.l1 as int)) + fx_mul(
                s.control as int,
                (s.b0 as i64) as int,
            ),
        );
        let z2 = sat64(s.z2 - fx_mul(e as int, s.l2 as int));
        let u0 = sat64(fx_mul(sat64(r - z1) as int, s.kp as int) - fx_mul(z2 as int, s.kd as int));
        let control = control_output(sat64(u0 - z2), s.b0);
        Adrc { z1, z2, control, ..s }
    }

    /// The controller that `new` returns.
    pub open spec fn new_spec() -> Adrc {
        Adrc {
            z1: 0,
            z2: 0,
            z3: 0,
            w0: 0,
            wc: 0,
            b0: SCALE as u64,
            l1: 0,
            l2: 0,
            l3: 0,
            kp: 0,
            kd: 0,
            control: 0,
        }
    }

    /// `b` is `a` retuned for position mode with its own `w0`, `wc`, `b0`
    /// and sample period `ts` (as `tune_position` does).
    pub open spec fn tuned_position(a: Adrc, b: Adrc, ts: u64) -> bool {
        &&& b.w0 == a.w0 && b.wc == a.wc && b.b0 == a.b0
        &&& b.l1 == sat64(3 * sampled(a.w0, ts))
        &&& b.l2 == fx_mul(sat64(3 * sampled(a.w0, ts)) as int, sampled(a.w0, ts) as int)
        &&& b.l3 == fx_mul(
            fx_mul(sampled(a.w0, ts) as int, sampled(a.w0, ts) as int) as int,
            sampled(a.w0, ts) as int,
        )
        &&& b.kp == fx_mul(sampled(a.wc, ts) as int, sampled(a.wc, ts) as int)
        &&& b.kd == sat64(2 * sampled(a.wc, ts))
        &&& Adrc::same_state(b, a)
    }

    /// `b` is `a` retuned for speed mode with its own `w0`, `wc`, `b0` and
    /// sample period `ts` (as `tune_speed` does).
    pub open spec fn tuned_speed(a: Adrc, b: Adrc, ts: u64) -> bool {
        &&& b.w0 == a.w0 && b.wc == a.wc && b.b0 == a.b0
        &&& b.l1 == sat64(2 * sampled(a.w0, ts))
        &&& b.l2 == sampled_sq(a.w0, ts)
        &&& b.l3 == 0
        &&& b.kp == sampled(a.wc, ts)
        &&& b.kd == 0
        &&& Adrc::same_state(b, a)
    }

    /// A controller with zero state, zero gains and `b0 = 1.0`.
    pub fn new() -> (a: Self)
        ensures
            a == Adrc::new_spec(),
    {
        Self {
            z1: 0,
            z2: 0,
            z3: 0,
            w0: 0,
            wc: 0,
            b0: SCALE as u64,
            l1: 0,
            l2: 0,
            l3: 0,
            kp: 0,
            kd: 0,
            control: 0,
        }
    }

    /// Tune for position mode: with `w = w0·Ts` and `c = wc·Ts` (Q16.16),
    /// `l1 = 3w`, `l2 = 3w·w`, `l3 = w·w·w`, `kp = c·c`, `kd = 2c`.
    pub fn tune_position(&mut self, wo: u64, wc: u64, b0: u64, ts: u64)
        ensures
            final(self).w0 == wo && final(self).wc == wc && final(self).b0 == b0,
            final(self).l1 == sat64(3 * sampled(wo, ts)),
            final(self).l2 == fx_mul(sat64(3 * sampled(wo, ts)) as int, sampled(wo, ts) as int),
            final(self).l3 == fx_mul(
                fx_mul(sampled(wo, ts) as int, sampled(wo, ts) as int) as int,
                sampled(wo, ts) as int,
            ),
            final(self).kp == fx_mul(sampled(wc, ts) as int, sampled(wc, ts) as int),
            final(self).kd == sat64(2 * sampled(wc, ts)),
            Adrc::same_state(*final(self), *old(self)),
    {
        self.w0 = wo;
        self.wc = wc;
        self.b0 = b0;
        let wo = self::mul(wo as i64, ts as i64);
        let wc = self::mul(wc as i64, ts as i64);
        self.l1 = sat_mul(3, wo);
        self.l2 = self::mul(sat_mul(3, wo), wo);
        self.l3 = self::mul(self::mul(wo, wo), wo);
        self.kp = self::mul(wc, wc);
        self.kd = sat_mul(2, wc);
    }

    /// Tune for speed mode (Q16.16): `l1 = 2·w0·Ts`, `l2 = w0²·Ts`, `l3 = 0`,
    /// `kp = wc·Ts`, `kd = 0`.
    pub fn tune_speed(&mut self, wo: u64, wc: u64, b0: u64, ts: u64)
        ensures
            final(self).w0 == wo && final(self).wc == wc && final(self).b0 == b0,
            final(self).l1 == sat64(2 * sampled(wo, ts)),
            final(self).l2 == sampled_sq(wo, ts),
            final(self).l3 == 0,
            final(self).kp == sampled(wc, ts),
            final(self).kd == 0,
            Adrc::same_state(*final(self), *old(self)),
    {
        self.w0 = wo;
        self.wc = wc;
        self.b0 = b0;
        let wo_sq = self::mul(wo as i64, wo as i64);
        let wo = self::mul(wo as i64, ts as i64);
        let wc = self::mul(wc as i64, ts as i64);
        self.l1 = sat_mul(2, wo);
        self.l2 = self::mul(wo_sq, ts as i64);
        self.l3 = 0;
        self.kp = wc;
        self.kd = 0;
    }

    /// `num * SCALE / max(b0, 1)`, as the control law divides by the plant gain.
    fn control_from(num: i64, b0: u64) -> (u: i64)
        ensures
            u == control_output(num, b0),
    {
        let n = num as i128;
        let d: i128 = if (b0 as i128) > 1 { b0 as i128 } else { 1 };
        assert(n * 65536 <= i128::MAX && n * 65536 >= i128::MIN) by (nonlinear_arith)
            requires
                i64::MIN <= n <= i64::MAX,
        ;
        let q = (n * (SCALE as i128)) / d;
        #[verifier::truncate]
        (q as i64)
    }

    /// Position-mode update with reference `r` and measurement `y`
    /// (counts × SCALE); returns the new control output.
    pub fn update_position(&mut self, r: i64, y: i64) -> (u: i64)
        ensures
            *final(self) == Adrc::position_step(*old(self), r, y),
            u == final(self).control,
    {
        let e = sat_sub(self.z1, y);
        self.z1 = sat_sub(sat_add(self.z1, self.z2), self::mul(e, self.l1));
        self.z2 = sat_add(
            sat_sub(sat_add(self.z2, self.z3), self::mul(e, self.l2)),
            self::mul(self.control, self.b0 as i64),
        );
        self.z3 = sat_sub(self.z3, self::mul(e, self.l3));
        let u0 = sat_sub(self::mul(sat_sub(r, self.z1), self.kp), self::mul(self.z2, self.kd));
        self.control = Self::control_from(sat_sub(u0, self.z3), self.b0);
        self.control
    }

    /// Speed-mode update with reference `r` and measurement `y`
    /// (counts/sample × SCALE); returns the new control output.
    pub fn update_speed(&mut self, r: i64, y: i64) -> (u: i64)
        ensures
            *final(self) == Adrc::speed_step(*old(self), r, y),
            u == final(self).control,
    {
        let e = sat_sub(self.z1, y);
        self.z1 = sat_add(
            sat_sub(sat_add(self.z1, self.z2), self::mul(e, self.l1)),
            self::mul(self.control, self.b0 as i64),
        );
        self.z2 = sat_sub(self.z2, self::mul(e, self.l2));
        let u0 = sat_sub(self::mul(sat_sub(r, self.z1), self.kp), self::mul(self.z2, self.kd));
        self.control = Self::control_from(sat_sub(u0, self.z2), self.b0);
        self.control
    }

    /// Clears the observer state and output; the tuning is kept.
    pub fn reset(&mut self)
        ensures
            final(self).z1 == 0 && final(self).z2 == 0 && final(self).z3 == 0,
            final(self).control == 0,
            Adrc::same_tuning(*final(self), *old(self)),
    {
        self.z1 = 0;
        self.z2 = 0;
        self.z3 = 0;
        self.control = 0;
    }
}

/// The controller at rest stays at rest. With zero estimates and zero
/// output, a zero reference and a zero measurement leave every estimate and
/// the output at zero, in position mode and in speed mode.
pub proof fn lemma_rest_is_fixed_point(s: Adrc, r: i64, y: i64)
    requires
        s.z1 == 0 && s.z2 == 0 && s.z3 == 0 && s.control == 0,
        r == 0 && y == 0,
    ensures
        Adrc::position_step(s, r, y) == s,
        Adrc::speed_step(s, r, y) == s,
{
    assert forall|x: int| fx_mul(0, x) == 0 && fx_mul(x, 0) == 0 by {
        assert(0 * x == 0 && x * 0 == 0) by (nonlinear_arith);
    }
    assert(control_output(0, s.b0) == 0) by {
        assert(0 * SCALE == 0);
    }
}

/// The observer and control updates never change the tuning, in
/// either mode, and speed mode never touches the third estimate.
pub proof fn lemma_updates_keep_tuning(s: Adrc, r: i64, y: i64)
    ensures
        Adrc::same_tuning(Adrc::position_step(s, r, y), s),
        Adrc::same_tuning(Adrc::speed_step(s, r, y), s),
        Adrc::speed_step(s, r, y).z3 == s.z3,
{
}

/// The observer's model includes the control input. When the measurement
/// matches the estimate (zero innovation) and nothing saturates, one
/// position-mode step is the extended-state prediction: the position
/// estimate advances by the velocity estimate, the velocity estimate by the
/// disturbance estimate plus `b0·u` (the last output `u` times the plant
/// gain, in Q16.16), and the disturbance estimate stays. In speed mode the
/// velocity estimate advances by the disturbance estimate plus `b0·u`, and
/// the disturbance estimate stays.
pub proof fn lemma_observer_applies_control_input(s: Adrc, r: i64)
    requires
        s.b0 <= i64::MAX,
        -0x1000_0000_0000_0000 <= s.z1 <= 0x1000_0000_0000_0000,
        -0x1000_0000_0000_0000 <= s.z2 <= 0x1000_0000_0000_0000,
        -0x1000_0000_0000_0000 <= s.z3 <= 0x1000_0000_0000_0000,
        -0x1000_0000_0000_0000 <= trunc_div(s.control * s.b0, SCALE as int)
            <= 0x1000_0000_0000_0000,
    ensures
        Adrc::position_step(s, r, s.z1).z1 == s.z1 + s.z2,
        Adrc::position_step(s, r, s.z1).z2 == s.z2 + s.z3 + trunc_div(
            s.control * s.b0,
            SCALE as int,
        ),
        Adrc::position_step(s, r, s.z1).z3 == s.z3,
        Adrc::speed_step(s, r, s.z1).z1 == s.z1 + s.z2 + trunc_div(s.control * s.b0, SCALE as int),
        Adrc::speed_step(s, r, s.z1).z2 == s.z2,
{
    assert forall|x: int| fx_mul(0, x) == 0 by {
        assert(0 * x == 0) by (nonlinear_arith);
    }
    assert((s.b0 as i64) as int == s.b0 as int);
}

/// With unit plant gain the output is the state-feedback law: in position
/// mode `kp·(r − z1) − kd·z2 − z3`, in speed mode `kp·(r − z1) − kd·z2 − z2`,
/// over the estimates just updated (products in Q16.16), when nothing
/// saturates.
pub proof fn lemma_control_law(s: Adrc, r: i64, y: i64)
    requires
        s.b0 == SCALE as u64,
        -0x1000_0000_0000_0000 <= r <= 0x1000_0000_0000_0000,
        ({
            let p = Adrc::position_step(s, r, y);
            &&& -0x1000_0000_0000_0000 <= p.z1 <= 0x1000_0000_0000_0000
            &&& -0x1000_0000_0000_0000 <= p.z3 <= 0x1000_0000_0000_0000
            &&& -0x1000_0000_0000_0000 <= fx_mul((r - p.z1) as int, s.kp as int)
                <= 0x1000_0000_0000_0000
            &&& -0x1000_0000_0000_0000 <= fx_mul(p.z2 as int, s.kd as int)
                <= 0x1000_0000_0000_0000
        }),
        ({
            let q = Adrc::speed_step(s, r, y);
            &&& -0x1000_0000_0000_0000 <= q.z1 <= 0x1000_0000_0000_0000
            &&& -0x1000_0000_0000_0000 <= q.z2 <= 0x1000_0000_0000_0000
            &&& -0x1000_0000_0000_0000 <= fx_mul((r - q.z1) as int, s.kp as int)
                <= 0x1000_0000_0000_0000
            &&& -0x1000_0000_0000_0000 <= fx_mul(q.z2 as int, s.kd as int)
                <= 0x1000_0000_0000_0000
        }),
    ensures
        ({
            let p = Adrc::position_step(s, r, y);
            p.control == fx_mul((r - p.z1) as int, s.kp as int) - fx_mul(p.z2 as int, s.kd as int)
                - p.z3
        }),
        ({
            let q = Adrc::speed_step(s, r, y);
            q.control == fx_mul((r - q.z1) as int, s.kp as int) - fx_mul(q.z2 as int, s.kd as int)
                - q.z2
        }),
{
    assert forall|n: int| #[trigger] trunc_div(n * SCALE, SCALE as int) == n by {
        if n >= 0 {
            assert((n * 65536) / 65536 == n) by (nonlinear_arith);
        } else {
            assert((-(n * 65536)) / 65536 == -n) by (nonlinear_arith);
        }
    }
}

} // verus!
