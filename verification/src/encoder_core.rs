//! Quadrature encoder: unwrapping of the hardware counter into an absolute
//! count, and an alpha-beta-gamma tracking filter that estimates position,
//! velocity and acceleration in Q16.16.
use vstd::prelude::*;
use crate::sat::{sat64, sat_add, sat_sub, sat_mul, clamp_i64};
use crate::adrc::fx_mul;

verus! {

/// Encoder counts per motor revolution.
pub const COUNT_PER_REVI32: i32 = 1250;

/// One in Q16.16.
pub const SCALE: i64 = 65536;

/// Nominal filter sample period in microseconds.
pub const DT_US: i64 = 200;

/// The sample period squared, in square microseconds.
pub const DT_US2: i64 = DT_US * DT_US;

/// The sample period in seconds, Q16.16 (`DT_US * SCALE / 1_000_000`).
pub const DT_SCALED: i64 = 13;

/// One over the sample period (1/s), Q16.16 (`1_000_000 * SCALE / DT_US`).
pub const DT_INV_SCALED: i64 = 327_680_000;

/// One over the sample period squared (1/s²), Q16.16
/// (`10^12 * SCALE / DT_US2`).
pub const DT2_INV_SCALED: i64 = 1_638_400_000_000;

/// Largest velocity estimate the filter keeps (counts/sample × SCALE).
pub const MAX_V: i64 = 100 * SCALE;

/// Largest acceleration estimate the filter keeps (counts/sample² × SCALE).
pub const MAX_A: i64 = 100 * SCALE;

/// Access to the counter hardware of one encoder.
pub trait EncoderOps: Sized {
    /// `after` is `before` with its counter set to `value`. Hardware whose
    /// counter also moves on its own says nothing more than `true`.
    open spec fn counter_set(before: Self, after: Self, value: u32) -> bool {
        true
    }

    /// `raw` is a value that the counter of `self` reads. Hardware whose
    /// counter also moves on its own says nothing more than `true`.
    open spec fn counter_reads(&self, raw: u32) -> bool {
        true
    }

    /// `after` is `before` with the counter hardware initialised.
    open spec fn initialised(before: Self, after: Self) -> bool {
        true
    }

    /// `after` is `before` with the counter hardware started.
    open spec fn started(before: Self, after: Self) -> bool {
        true
    }

    fn init_hardware(&mut self)
        ensures
            Self::initialised(*old(self), *final(self)),
    ;

    fn start_hardware(&mut self)
        ensures
            Self::started(*old(self), *final(self)),
    ;

    fn write_counter(&mut self, value: u32)
        ensures
            Self::counter_set(*old(self), *final(self), value),
    ;

    fn get_counter(&self) -> (raw: u32)
        ensures
            self.counter_reads(raw),
    ;
}

/// A counter without hardware, for host-side simulation: it reads back the
/// last value written.
pub struct MockEncoder {
    pub counter: u32,
}

impl EncoderOps for MockEncoder {
    /// The counter holds the value written.
    open spec fn counter_set(before: Self, after: Self, value: u32) -> bool {
        after.counter == value
    }

    /// The counter reads back the value it holds.
    open spec fn counter_reads(&self, raw: u32) -> bool {
        raw == self.counter
    }

    /// There is no hardware to set up: nothing changes.
    open spec fn initialised(before: Self, after: Self) -> bool {
        after == before
    }

    /// There is no hardware to start: nothing changes.
    open spec fn started(before: Self, after: Self) -> bool {
        after == before
    }

    fn init_hardware(&mut self)
        ensures
            *final(self) == *old(self),
    {
    }

    fn start_hardware(&mut self)
        ensures
            *final(self) == *old(self),
    {
    }

    fn write_counter(&mut self, value: u32)
        ensures
            final(self).counter == value,
    {
        self.counter = value;
    }

    fn get_counter(&self) -> (raw: u32)
        ensures
            raw == self.counter,
    {
        self.counter
    }
}

/// The signed count around the counter's midpoint `0x8000` that a raw
/// hardware reading stands for (two's-complement wrap-around).
pub open spec fn raw_to_count(raw: u32) -> i32 {
    (raw as i32).wrapping_sub(0x8000i32)
}

/// How the revolution counter moves for a change `dc` of the raw count: a
/// jump of more than half a revolution is taken as a wrap of the counter.
pub open spec fn turn_step(dc: i32) -> int {
    if dc > COUNT_PER_REVI32 / 2 {
        -1
    } else if dc < -(COUNT_PER_REVI32 / 2) {
        1
    } else {
        0
    }
}

/// There is room to count one more revolution either way without overflow.
pub open spec fn turns_in_range(turns: i32) -> bool {
    &&& (turns + 1) * COUNT_PER_REVI32 <= i32::MAX
    &&& (turns - 1) * COUNT_PER_REVI32 >= i32::MIN
}

/// Q16.16 correction `res * gain / SCALE` for a filter gain.
pub open spec fn gain_of(res: i64, g: u64) -> i64 {
    fx_mul(res as int, (g as i64) as int)
}

/// `x` clamped to `[-m, m]`.
pub open spec fn clamp_sym(x: i64, m: i64) -> i64 {
    if x < -m {
        (-m) as i64
    } else if x > m {
        m
    } else {
        x
    }
}

/// The filter quantities that one update step reads and writes.
pub struct FilterState {
    pub counts: i64,
    pub pos: i64,
    pub vel: i64,
    pub accel: i64,
    pub g_a: u64,
    pub g_b: u64,
    pub g_c: u64,
    pub smooth_vel: i64,
    pub smooth_accel: i64,
}

/// One step of the alpha-beta-gamma filter: predict with constant
/// acceleration, correct by the gains times the innovation, clamp velocity
/// and acceleration, then low-pass the velocity (1/8) and acceleration (1/32).
pub open spec fn filter_step(f: FilterState) -> FilterState {
    let p_pred = sat64(sat64(f.pos + f.vel) + f.accel / 2);
    let v_pred = sat64(f.vel + f.accel);
    let z_scaled = sat64(f.counts * SCALE);
    let residual = sat64(z_scaled - p_pred);
    let pos = sat64(p_pred + gain_of(residual, f.g_a));
    let vel = clamp_sym(sat64(v_pred + gain_of(residual, f.g_b)), MAX_V);
    let accel = clamp_sym(sat64(f.accel + gain_of(residual, f.g_c)), MAX_A);
    let smooth_vel = sat64(f.smooth_vel + sat64(vel - f.smooth_vel) / 8);
    let smooth_accel = sat64(f.smooth_accel + sat64(accel - f.smooth_accel) / 32);
    FilterState { pos, vel, accel, smooth_vel, smooth_accel, ..f }
}

/// Arithmetic right shifts are floor divisions by powers of two.
pub proof fn lemma_shift_is_floor_div(x: i64)
    ensures
        (x >> 1u32) == x / 2,
        (x >> 3u32) == x / 8,
        (x >> 5u32) == x / 32,
{
    assert((x >> 1u32) == x / 2) by (bit_vector);
    assert((x >> 3u32) == x / 8) by (bit_vector);
    assert((x >> 5u32) == x / 32) by (bit_vector);
}

/// Position tracking of one encoder.
///
/// `counts` is the unwrapped count, `turns` the revolutions seen by the
/// wrap detector, `prev_enc_counts` the last signed raw count. `pos`, `vel`,
/// `accel` are the filter estimates (Q16.16, per sample), `g_a`, `g_b`,
/// `g_c` its gains, `smooth_vel` and `smooth_accel` the low-passed outputs.
pub struct Encoder<T: EncoderOps> {
    pub counts: i64,
    pub prev_enc_counts: i32,
    pub turns: i32,
    pub pos: i64,
    pub vel: i64,
    pub prev_pos: i64,
    pub accel: i64,
    pub g_a: u64,
    pub g_b: u64,
    pub g_c: u64,
    pub smooth_vel: i64,
    pub smooth_accel: i64,
    pub ops: T,
}

impl<T: EncoderOps> Encoder<T> {
    /// The filter quantities of this encoder.
    pub open spec fn filter(&self) -> FilterState {
        FilterState {
            counts: self.counts,
            pos: self.pos,
            vel: self.vel,
            accel: self.accel,
            g_a: self.g_a,
            g_b: self.g_b,
            g_c: self.g_c,
            smooth_vel: self.smooth_vel,
            smooth_accel: self.smooth_accel,
        }
    }

    /// The counter bookkeeping (`counts`, `prev_enc_counts`, `turns`) is equal.
    pub open spec fn same_counter(a: &Self, b: &Self) -> bool {
        &&& a.counts == b.counts
        &&& a.prev_enc_counts == b.prev_enc_counts
        &&& a.turns == b.turns
    }

    /// The filter state, gains and `prev_pos` are equal.
    pub open spec fn same_filter(a: &Self, b: &Self) -> bool {
        &&& a.pos == b.pos
        &&& a.vel == b.vel
        &&& a.prev_pos == b.prev_pos
        &&& a.accel == b.accel
        &&& a.g_a == b.g_a
        &&& a.g_b == b.g_b
        &&& a.g_c == b.g_c
        &&& a.smooth_vel == b.smooth_vel
        &&& a.smooth_accel == b.smooth_accel
    }

    /// Initialises and then starts the hardware, and returns an encoder at
    /// zero with the default gains (`g_a` ≈ 0.33, `g_b` ≈ 0.01, `g_c` ≈ 0.0002
    /// in Q16.16).
    pub fn new(ops: T) -> (e: Self)
        ensures
            exists|a: T| #[trigger] T::initialised(ops, a) && T::started(a, e.ops),
            e.counts == 0 && e.prev_enc_counts == 0 && e.turns == 0,
            e.pos == 0 && e.vel == 0 && e.prev_pos == 0 && e.accel == 0,
            e.g_a == 21626 && e.g_b == 655 && e.g_c == 14,
            e.smooth_vel == 0 && e.smooth_accel == 0,
    {
        let mut ops = ops;
        let ghost before = ops;
        ops.init_hardware();
        let ghost mid = ops;
        ops.start_hardware();
        assert(T::initialised(before, mid) && T::started(mid, ops));
        Self {
            counts: 0,
            turns: 0,
            pos: 0,
            vel: 0,
            accel: 0,
            g_a: 21626,
            g_b: 655,
            g_c: 14,
            smooth_vel: 0,
            smooth_accel: 0,
            ops,
            prev_pos: 0,
            prev_enc_counts: 0,
        }
    }

    /// Writes the hardware counter; the tracked state is unchanged.
    pub fn write_enc_counter(&mut self, value: u32)
        ensures
            T::counter_set(old(self).ops, final(self).ops, value),
            Self::same_counter(final(self), old(self)),
            Self::same_filter(final(self), old(self)),
    {
        self.ops.write_counter(value);
    }

    /// Initialises and starts the hardware again, sets its counter to 0, and
    /// clears the count, revolutions, position, velocity and acceleration.
    pub fn init(&mut self)
        ensures
            final(self).counts == 0 && final(self).turns == 0 && final(self).prev_enc_counts == 0,
            final(self).pos == 0 && final(self).vel == 0 && final(self).accel == 0,
            final(self).prev_pos == old(self).prev_pos,
            final(self).g_a == old(self).g_a && final(self).g_b == old(self).g_b
                && final(self).g_c == old(self).g_c,
            final(self).smooth_vel == old(self).smooth_vel,
            final(self).smooth_accel == old(self).smooth_accel,
            exists|a: T, b: T|
                #![trigger T::initialised(old(self).ops, a), T::started(a, b)]
                T::initialised(old(self).ops, a) && T::started(a, b) && T::counter_set(
                    b,
                    final(self).ops,
                    0,
                ),
    {
        self.counts = 0;
        self.turns = 0;
        self.pos = 0;
        self.vel = 0;
        self.accel = 0;
        let ghost before = self.ops;
        self.ops.init_hardware();
        let ghost mid = self.ops;
        self.ops.start_hardware();
        let ghost started = self.ops;
        self.ops.write_counter(0);
        self.ops.get_counter();
        self.prev_enc_counts = 0;
        assert(T::initialised(before, mid) && T::started(mid, started) && T::counter_set(
            started,
            self.ops,
            0,
        ));
    }

    /// One filter step against the current unwrapped count (see
    /// [`filter_step`]); the counter bookkeeping is unchanged.
    pub fn update(&mut self)
        ensures
            final(self).filter() == filter_step(old(self).filter()),
            Self::same_counter(final(self), old(self)),
            final(self).prev_pos == old(self).prev_pos,
            final(self).ops == old(self).ops,
            -MAX_V <= final(self).vel <= MAX_V,
            -MAX_A <= final(self).accel <= MAX_A,
    {
        proof {
            lemma_shift_is_floor_div(self.accel);
        }
        let p_pred = sat_add(sat_add(self.pos, self.vel), self.accel >> 1u32);
        let v_pred = sat_add(self.vel, self.accel);
        let z_scaled = sat_mul(self.counts, SCALE);
        let residual = sat_sub(z_scaled, p_pred);
        self.pos = sat_add(p_pred, crate::adrc::mul(residual, self.g_a as i64));
        self.vel = sat_add(v_pred, crate::adrc::mul(residual, self.g_b as i64));
        self.accel = sat_add(self.accel, crate::adrc::mul(residual, self.g_c as i64));
        self.vel = clamp_i64(self.vel, -MAX_V, MAX_V);
        self.accel = clamp_i64(self.accel, -MAX_A, MAX_A);
        let dv = sat_sub(self.vel, self.smooth_vel);
        proof {
            lemma_shift_is_floor_div(dv);
        }
        self.smooth_vel = sat_add(self.smooth_vel, dv >> 3u32);
        let da = sat_sub(self.accel, self.smooth_accel);
        proof {
            lemma_shift_is_floor_div(da);
        }
        self.smooth_accel = sat_add(self.smooth_accel, da >> 5u32);
    }

    /// Position in whole counts: `pos / SCALE` rounded toward zero, truncated
    /// to 32 bits.
    pub fn get_pos(&self) -> (p: i32)
        ensures
            p == crate::sat::trunc_div(self.pos as int, SCALE as int) as i32,
    {
        #[verifier::truncate]
        ((self.pos / SCALE) as i32)
    }

    /// Smoothed velocity divided by 1000 (rounded toward zero), truncated to
    /// 32 bits.
    pub fn get_velocity(&self) -> (v: i32)
        ensures
            v == crate::sat::trunc_div(self.smooth_vel as int, 1000) as i32,
    {
        #[verifier::truncate]
        ((self.smooth_vel / 1000) as i32)
    }

    /// Smoothed acceleration truncated to 32 bits.
    pub fn get_acceleration(&self) -> (a: i32)
        ensures
            a == self.smooth_accel as i32,
    {
        #[verifier::truncate]
        (self.smooth_accel as i32)
    }

    /// The unwrapped count.
    pub fn _read_position(&mut self) -> (c: i64)
        ensures
            c == old(self).counts,
            Self::same_counter(final(self), old(self)),
            Self::same_filter(final(self), old(self)),
    {
        self.counts
    }

    /// Sets the hardware counter to its midpoint and clears the count and
    /// revolutions.
    pub fn zero(&mut self)
        ensures
            T::counter_set(old(self).ops, final(self).ops, 0x8000),
            final(self).counts == 0 && final(self).prev_enc_counts == 0 && final(self).turns == 0,
            Self::same_filter(final(self), old(self)),
    {
        self.ops.write_counter(0x8000);
        self.counts = 0;
        self.prev_enc_counts = 0;
        self.turns = 0;
    }

    /// Takes a raw hardware reading into the count: detects a wrap of the
    /// counter from the jump since the last reading, moves the revolution
    /// counter, and sets `counts = count + turns * COUNT_PER_REV`. Returns the
    /// signed raw count.
    pub fn apply_counter(&mut self, raw: u32) -> (count: i32)
        requires
            turns_in_range(old(self).turns),
        ensures
            count == raw_to_count(raw),
            final(self).turns == old(self).turns + turn_step(
                count.wrapping_sub(old(self).prev_enc_counts),
            ),
            final(self).counts == count + final(self).turns * COUNT_PER_REVI32,
            final(self).prev_enc_counts == count,
            Self::same_filter(final(self), old(self)),
    {
        proof {
            assert((1250i32 >> 1u32) == 625i32) by (bit_vector);
        }
        #[verifier::truncate]
        let count = (raw as i32).wrapping_sub(0x8000);
        let dc1 = count.wrapping_sub(self.prev_enc_counts);
        if dc1 > (COUNT_PER_REVI32 >> 1u32) {
            self.turns = self.turns - 1;
        } else if dc1 < -(COUNT_PER_REVI32 >> 1u32) {
            self.turns = self.turns + 1;
        }
        self.counts = count as i64 + (self.turns * COUNT_PER_REVI32) as i64;
        self.prev_enc_counts = count;
        count
    }

    /// Reads the hardware counter and takes the reading into the count, as
    /// [`Encoder::apply_counter`] states for whatever value the hardware gave.
    pub fn read_counter(&mut self) -> (count: i32)
        requires
            turns_in_range(old(self).turns),
        ensures
            exists|raw: u32|
                {
                    &&& old(self).ops.counter_reads(raw)
                    &&& count == raw_to_count(raw)
                    &&& #[trigger] turn_step(count.wrapping_sub(old(self).prev_enc_counts))
                        + old(self).turns == final(self).turns
                },
            final(self).counts == count + final(self).turns * COUNT_PER_REVI32,
            final(self).prev_enc_counts == count,
            Self::same_filter(final(self), old(self)),
    {
        let raw = self.ops.get_counter();
        self.apply_counter(raw)
    }

    /// Writes the hardware counter; the tracked state is unchanged.
    pub fn _set_position(&mut self, value: u32)
        ensures
            T::counter_set(old(self).ops, final(self).ops, value),
            Self::same_counter(final(self), old(self)),
            Self::same_filter(final(self), old(self)),
    {
        self.ops.write_counter(value);
    }
}

/// The unwrapped count follows the true motion across counter wraps.
/// If the raw count runs over one revolution `[0, COUNT_PER_REV)` and the
/// motor moved by `m`, less than half a revolution either way, between two
/// readings, then the unwrapped count moves by exactly `m`.
pub proof fn lemma_unwrap_follows_motion(prev: i32, turns: i32, next: i32, m: int)
    requires
        0 <= prev < COUNT_PER_REVI32,
        0 <= next < COUNT_PER_REVI32,
        -(COUNT_PER_REVI32 / 2) < m < COUNT_PER_REVI32 / 2,
        next == (prev + m) % (COUNT_PER_REVI32 as int),
    ensures
        next + (turns + turn_step(next.wrapping_sub(prev))) * COUNT_PER_REVI32 == prev + turns
            * COUNT_PER_REVI32 + m,
{
    assert(next.wrapping_sub(prev) == next - prev);
    if prev + m >= COUNT_PER_REVI32 {
        assert(next == prev + m - COUNT_PER_REVI32);
    } else if prev + m < 0 {
        assert(next == prev + m + COUNT_PER_REVI32);
    } else {
        assert(next == prev + m);
    }
}

/// The low-pass outputs stay within the clamp range. If the smoothed
/// velocity and acceleration start inside `[-MAX_V, MAX_V]` and
/// `[-MAX_A, MAX_A]`, a filter step keeps them there.
pub proof fn lemma_smoothing_stays_bounded(f: FilterState)
    requires
        -MAX_V <= f.smooth_vel <= MAX_V,
        -MAX_A <= f.smooth_accel <= MAX_A,
    ensures
        -MAX_V <= filter_step(f).smooth_vel <= MAX_V,
        -MAX_A <= filter_step(f).smooth_accel <= MAX_A,
{
    let g = filter_step(f);
    let dv = sat64(g.vel - f.smooth_vel);
    assert(dv == g.vel - f.smooth_vel);
    if dv >= 0 {
        assert(0 <= dv / 8 <= dv);
    } else {
        assert(dv <= dv / 8 <= 0);
    }
    let da = sat64(g.accel - f.smooth_accel);
    assert(da == g.accel - f.smooth_accel);
    if da >= 0 {
        assert(0 <= da / 32 <= da);
    } else {
        assert(da <= da / 32 <= 0);
    }
}

/// The filter predicts with constant acceleration. When the measured
/// count equals the prediction (zero innovation), one step moves the
/// position by the velocity plus half the acceleration, the velocity by the
/// acceleration, keeps the acceleration, and moves each smoothed output an
/// eighth (velocity) or a thirty-second (acceleration) of the way toward
/// the new estimate, whatever the gains.
pub proof fn lemma_filter_follows_kinematics(f: FilterState)
    requires
        -0x1000_0000_0000_0000 <= f.pos <= 0x1000_0000_0000_0000,
        -MAX_V <= f.vel <= MAX_V,
        -MAX_A <= f.accel <= MAX_A,
        -MAX_V <= f.vel + f.accel <= MAX_V,
        -0x1000_0000_0000_0000 <= f.smooth_vel <= 0x1000_0000_0000_0000,
        -0x1000_0000_0000_0000 <= f.smooth_accel <= 0x1000_0000_0000_0000,
        f.counts * SCALE == f.pos + f.vel + f.accel / 2,
    ensures
        filter_step(f).pos == f.pos + f.vel + f.accel / 2,
        filter_step(f).vel == f.vel + f.accel,
        filter_step(f).accel == f.accel,
        filter_step(f).smooth_vel == f.smooth_vel + (f.vel + f.accel - f.smooth_vel) / 8,
        filter_step(f).smooth_accel == f.smooth_accel + (f.accel - f.smooth_accel) / 32,
{
    assert forall|g: u64| gain_of(0, g) == 0 by {
        assert(0 * ((g as i64) as int) == 0) by (nonlinear_arith);
    }
}

} // verus!
