//! Signal-processing helpers in Q16.16 (`I16F16`) fixed point.
use vstd::prelude::*;
use crate::fixed_point::{i16f16_sub, i16f16_mul, i16f16_add_assign};

pub use crate::utils_core::RingBuf;

verus! {

/// An exponential moving average on `I16F16` values (raw bits):
/// `y <- y + alpha * (x - y)`.
#[derive(Copy, Clone)]
pub struct IirFilter {
    pub y: i32,
    pub alpha: i32,
}

/// The `I16F16` product of raw values `a` and `b`, rounded toward −∞.
pub open spec fn q16_mul(a: int, b: int) -> int {
    (a * b) / 0x1_0000
}

/// The filter update does not overflow.
pub open spec fn iir_update_ok(f: IirFilter, x: i32) -> bool {
    &&& i32::MIN <= x - f.y <= i32::MAX
    &&& i64::MIN <= f.alpha * (x - f.y) * 0x1_0000 <= i64::MAX
    &&& i32::MIN <= f.y + q16_mul(f.alpha as int, x - f.y) <= i32::MAX
}

impl IirFilter {
    /// A filter with output 0 and weight `alpha` (raw `I16F16` bits).
    pub fn new(alpha: i32) -> (f: Self)
        ensures
            f.y == 0 && f.alpha == alpha,
    {
        Self { y: 0, alpha }
    }

    /// Moves the output toward `x` by `alpha` times the difference (in
    /// `I16F16`) and returns it.
    pub fn update(&mut self, x: i32) -> (y: i32)
        requires
            iir_update_ok(*old(self), x),
        ensures
            final(self).y == old(self).y + q16_mul(old(self).alpha as int, x - old(self).y),
            final(self).alpha == old(self).alpha,
            y == final(self).y,
    {
        let d = i16f16_sub(x, self.y);
        let p = i16f16_mul(self.alpha, d);
        i16f16_add_assign(&mut self.y, p);
        self.y
    }
}

} // verus!
