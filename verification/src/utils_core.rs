//! Small signal-processing containers: a ring buffer of the most recent
//! samples and an integer exponential moving average.
use vstd::prelude::*;
use vstd::arithmetic::power2::pow2;

verus! {

/// `n` is a power of two that fits in `usize`.
pub open spec fn is_pow2(n: usize) -> bool {
    exists|k: nat| k < usize::BITS && pow2(k) == n
}

/// For a power of two `n`, masking with `n - 1` is reduction modulo `n`, and
/// `2n - 1` does not overflow.
proof fn lemma_pow2_mask(x: usize, n: usize)
    requires
        is_pow2(n),
    ensures
        n > 0,
        2 * n - 1 <= usize::MAX,
        x & ((n - 1) as usize) == x % n,
{
    let k = choose|k: nat| k < usize::BITS && pow2(k) == n;
    vstd::bits::lemma_usize_pow2_no_overflow(k);
    vstd::bits::lemma_usize_low_bits_mask_is_mod(x, k);
    let b = (usize::BITS - 1) as nat;
    if k < b {
        vstd::arithmetic::power2::lemma_pow2_strictly_increases(k, b);
    }
    vstd::arithmetic::power2::lemma_pow2_adds(b, 1);
    vstd::arithmetic::power2::lemma2_to64();
    assert(usize::BITS == 32 || usize::BITS == 64);
}

/// A ring buffer that keeps the last `N` samples (`N` a power of two).
///
/// Its view is the sequence of kept samples, oldest first.
#[derive(Clone, Copy)]
pub struct RingBuf<T, const N: usize> {
    buf: [T; N],
    idx: usize,
    len: usize,
}

impl<T: Copy, const N: usize> RingBuf<T, N> {
    /// The capacity is a power of two and the cursor and fill level are in
    /// range.
    pub closed spec fn wf(&self) -> bool {
        &&& is_pow2(N)
        &&& self.idx < N
        &&& self.len <= N
    }

    /// The sample at position `i` of the view (oldest first).
    spec fn slot(&self, i: int) -> int {
        (self.idx + N - self.len + i) % (N as int)
    }

    /// The kept samples, oldest first.
    pub closed spec fn samples(&self) -> Seq<T> {
        Seq::new(self.len as nat, |i: int| self.buf@[self.slot(i)])
    }

    /// The `k`-th most recent sample, if there are more than `k`.
    pub open spec fn recent(s: Seq<T>, k: int) -> Option<T> {
        if k < s.len() {
            Some(s[s.len() - 1 - k])
        } else {
            None
        }
    }

    /// The samples kept after pushing `v` onto `s` with capacity `n`.
    pub open spec fn pushed(s: Seq<T>, v: T, n: nat) -> Seq<T> {
        if s.len() < n {
            s.push(v)
        } else {
            s.drop_first().push(v)
        }
    }

    /// The capacity must be a power of two (the cursor wraps by masking).
    pub fn check()
        requires
            is_pow2(N),
    {
    }

    /// An empty buffer whose slots all hold `zero`.
    pub fn new(zero: T) -> (r: Self)
        requires
            is_pow2(N),
        ensures
            r.wf(),
            r.samples() == Seq::<T>::empty(),
    {
        proof {
            lemma_pow2_mask(0, N);
        }
        let r = Self { buf: [zero; N], idx: 0, len: 0 };
        assert(r.samples() =~= Seq::<T>::empty());
        r
    }

    /// Appends a sample, dropping the oldest one when the buffer is full.
    pub fn push(&mut self, v: T)
        requires
            old(self).wf(),
        ensures
            final(self).wf(),
            final(self).samples() == Self::pushed(old(self).samples(), v, N as nat),
            old(self).samples().len() <= N,
    {
        proof {
            lemma_pow2_mask((self.idx + 1) as usize, N);
        }
        let ghost old_self = *self;
        self.buf[self.idx] = v;
        self.idx = (self.idx + 1) & (N - 1);
        if self.len < N {
            self.len += 1;
        }
        proof {
            let s = old_self.samples();
            let t = self.samples();
            let e = Self::pushed(s, v, N as nat);
            let n = N as int;
            let i0 = old_self.idx as int;
            let l0 = old_self.len as int;
            assert(t.len() == e.len());
            assert(self.buf@ == old_self.buf@.update(i0, v));
            assert forall|i: int| 0 <= i < t.len() implies t[i] == e[i] by {
                assert(t[i] == self.buf@[self.slot(i)]);
                lemma_mod_step(i0, n - self.len + i, n);
                if l0 < n {
                    if i < l0 {
                        lemma_mod_ne(i0, n - l0 + i, n);
                        assert(self.slot(i) == old_self.slot(i));
                    } else {
                        lemma_mod_self(i0, n);
                        assert(self.slot(i) == i0);
                    }
                } else {
                    if i < l0 - 1 {
                        lemma_mod_ne(i0, i + 1, n);
                        assert(self.slot(i) == old_self.slot(i + 1));
                    } else {
                        lemma_mod_self(i0, n);
                        assert(self.slot(i) == i0);
                    }
                }
            }
            assert(t =~= e);
        }
    }

    /// Reads the slot that holds the `k`-th most recent sample.
    fn nth_recent(&self, k: usize) -> (v: T)
        requires
            self.wf(),
            k < self.samples().len(),
        ensures
            Self::recent(self.samples(), k as int) == Some(v),
    {
        proof {
            lemma_pow2_mask((self.idx + N - 1 - k) as usize, N);
        }
        let i = (self.idx + N - 1 - k) & (N - 1);
        self.buf[i]
    }

    /// The most recent sample.
    pub fn curr(&self) -> (r: Option<T>)
        requires
            self.wf(),
        ensures
            r == Self::recent(self.samples(), 0),
    {
        if self.len >= 1 {
            Some(self.nth_recent(0))
        } else {
            None
        }
    }

    /// The sample before the most recent one.
    pub fn prev(&self) -> (r: Option<T>)
        requires
            self.wf(),
        ensures
            r == Self::recent(self.samples(), 1),
    {
        if self.len >= 2 {
            Some(self.nth_recent(1))
        } else {
            None
        }
    }

    /// The third most recent sample.
    pub fn prev2(&self) -> (r: Option<T>)
        requires
            self.wf(),
        ensures
            r == Self::recent(self.samples(), 2),
    {
        if self.len >= 3 {
            Some(self.nth_recent(2))
        } else {
            None
        }
    }

    /// The two most recent samples, newest first.
    pub fn get_last_two(&self) -> (r: Option<(T, T)>)
        requires
            self.wf(),
        ensures
            match r {
                Some((a, b)) => Self::recent(self.samples(), 0) == Some(a) && Self::recent(
                    self.samples(),
                    1,
                ) == Some(b),
                None => self.samples().len() < 2,
            },
    {
        if self.len >= 2 {
            let first = self.nth_recent(0);
            let second = self.nth_recent(1);
            Some((first, second))
        } else {
            None
        }
    }
}

/// Reducing a cursor modulo `n` before adding an offset does not change the
/// slot it lands on.
proof fn lemma_mod_step(i0: int, j: int, n: int)
    requires
        n > 0,
        0 <= i0 < n,
    ensures
        ((i0 + 1) % n + j) % n == (i0 + 1 + j) % n,
{
    vstd::arithmetic::div_mod::lemma_add_mod_noop(i0 + 1, j, n);
    vstd::arithmetic::div_mod::lemma_add_mod_noop((i0 + 1) % n, j, n);
    vstd::arithmetic::div_mod::lemma_mod_twice(i0 + 1, n);
}

/// Moving a cursor by a distance strictly between 0 and `n` changes the slot.
proof fn lemma_mod_ne(i0: int, j: int, n: int)
    requires
        n > 0,
        0 <= i0 < n,
        0 < j < n,
    ensures
        (i0 + j) % n != i0,
{
    if i0 + j < n {
        vstd::arithmetic::div_mod::lemma_small_mod((i0 + j) as nat, n as nat);
    } else {
        vstd::arithmetic::div_mod::lemma_mod_sub_multiples_vanish(i0 + j, n);
        vstd::arithmetic::div_mod::lemma_small_mod((i0 + j - n) as nat, n as nat);
    }
}

/// Moving a cursor by exactly `n` returns to the same slot.
proof fn lemma_mod_self(i0: int, n: int)
    requires
        n > 0,
        0 <= i0 < n,
    ensures
        (i0 + n) % n == i0,
{
    vstd::arithmetic::div_mod::lemma_mod_sub_multiples_vanish(i0 + n, n);
    vstd::arithmetic::div_mod::lemma_small_mod(i0 as nat, n as nat);
}

/// What a read gives back of a write. After pushing `v` onto the kept
/// samples `s` of a buffer of capacity `n`, the most recent sample is `v`,
/// and for `1 <= k < n` the `k`-th most recent sample is the one that was
/// `(k - 1)`-th most recent before.
pub proof fn lemma_push_then_read<T: Copy, const N: usize>(s: Seq<T>, v: T, k: int)
    requires
        s.len() <= N,
        1 <= k < N,
    ensures
        RingBuf::<T, N>::recent(RingBuf::<T, N>::pushed(s, v, N as nat), 0) == Some(v),
        RingBuf::<T, N>::recent(RingBuf::<T, N>::pushed(s, v, N as nat), k) == RingBuf::<
            T,
            N,
        >::recent(s, k - 1),
{
}

/// An exponential moving average on unsigned integers:
/// `y <- y + alpha * (x - y)`.
#[derive(Copy, Clone)]
pub struct IirFilter {
    pub y: u64,
    pub alpha: u64,
}

impl IirFilter {
    /// A filter with output 0 and the given weight.
    pub fn new(alpha: u64) -> (f: Self)
        ensures
            f.y == 0 && f.alpha == alpha,
    {
        Self { y: 0, alpha }
    }

    /// Moves the output toward `x` by `alpha` times the difference and
    /// returns it. The input must not be below the output, and the new output
    /// must fit in `u64`.
    pub fn update(&mut self, x: u64) -> (y: u64)
        requires
            x >= old(self).y,
            old(self).y + old(self).alpha * (x - old(self).y) <= u64::MAX,
        ensures
            final(self).y == old(self).y + old(self).alpha * (x - old(self).y),
            final(self).alpha == old(self).alpha,
            y == final(self).y,
    {
        assert(0 <= self.alpha * (x - self.y) <= u64::MAX) by (nonlinear_arith)
            requires
                self.y + self.alpha * (x - self.y) <= u64::MAX,
                x >= self.y,
        ;
        self.y = self.y + self.alpha * (x - self.y);
        self.y
    }
}

} // verus!
