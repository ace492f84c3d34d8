//! Frame rates as exact ratios, and the pacing arithmetic of the capture loop.

use vstd::prelude::*;

verus! {

/// Nanoseconds in one second.
pub const NANOS_PER_SECOND: u64 = 1_000_000_000;

/// How long the capture loop waits before retrying after a dropped frame.
pub const RETRY_PAUSE_NANOS: u64 = 50_000_000;

/// How long freshly opened cameras are left to settle before the first read.
pub const SETTLE_NANOS: u64 = 1_000_000_000;

/// A frame rate held exactly: `frames` frames every `nanos` nanoseconds.
#[derive(Clone, Copy, Debug, PartialEq, Eq, Structural)]
pub struct FrameRate {
    pub frames: u64,
    pub nanos: u64,
}

/// The integer nearest to `n / d`, halves rounded up.
pub open spec fn nearest_quotient(n: int, d: int) -> int {
    (2 * n + d) / (2 * d)
}

/// The rate measured over a capture: `frames` frames in `elapsed_nanos`
/// nanoseconds when both are positive (and fit in 64 bits, as every count
/// of a running recorder does), the requested rate otherwise.
pub open spec fn observed_rate_spec(frames: nat, elapsed_nanos: nat, requested: FrameRate) -> FrameRate {
    if frames > 0 && elapsed_nanos > 0 && frames <= u64::MAX && elapsed_nanos <= u64::MAX {
        FrameRate { frames: frames as u64, nanos: elapsed_nanos as u64 }
    } else {
        requested
    }
}

/// What is left of `interval` once `elapsed` has been spent, if anything.
pub open spec fn remaining_pause_spec(interval: u64, elapsed: u64) -> Option<u64> {
    if elapsed < interval {
        Some((interval - elapsed) as u64)
    } else {
        None
    }
}

/// Time from `earlier` to `later` on a clock that is not trusted to be
/// monotonic: zero when `later` lies before `earlier`.
pub open spec fn elapsed_between_spec(earlier: u64, later: u64) -> u64 {
    if later >= earlier {
        (later - earlier) as u64
    } else {
        0
    }
}

impl FrameRate {
    /// A rate can pace a loop only if it moves at all.
    pub open spec fn is_positive(self) -> bool {
        self.frames > 0
    }

    /// The target time between two frames, in nanoseconds.
    pub open spec fn interval_spec(self) -> int {
        nearest_quotient(self.nanos as int, self.frames as int)
    }

    /// `fps` whole frames per second.
    pub fn per_second(fps: u32) -> (rate: FrameRate)
        ensures
            rate.frames == fps,
            rate.nanos == NANOS_PER_SECOND,
    {
        FrameRate { frames: fps as u64, nanos: NANOS_PER_SECOND }
    }

    /// The target time between two frames, rounded to the nearest nanosecond.
    pub fn interval_nanos(&self) -> (interval: u64)
        requires
            self.is_positive(),
        ensures
            interval == self.interval_spec(),
            2 * self.nanos - self.frames < 2 * interval * self.frames <= 2 * self.nanos + self.frames,
    {
        let q: u64 = self.nanos / self.frames;
        let r: u64 = self.nanos % self.frames;
        proof {
            lemma_nearest_quotient(self.nanos as int, self.frames as int);
        }
        if r >= self.frames - r {
            q + 1
        } else {
            q
        }
    }
}

/// The nearest quotient is the floor when the remainder is below half of the
/// divisor, and one more otherwise; either way it is the one integer within
/// half a step of `n / d`, and it never exceeds `n` when it rounds up.
pub proof fn lemma_nearest_quotient(n: int, d: int)
    requires
        n >= 0,
        d > 0,
    ensures
        nearest_quotient(n, d) == if 2 * (n % d) >= d { n / d + 1 } else { n / d },
        2 * n - d < 2 * nearest_quotient(n, d) * d <= 2 * n + d,
        2 * (n % d) >= d ==> n / d + 1 <= n,
{
    let q: int = n / d;
    let r: int = n % d;
    vstd::arithmetic::div_mod::lemma_fundamental_div_mod(n, d);
    vstd::arithmetic::div_mod::lemma_mod_bound(n, d);
    assert(n == q * d + r) by (nonlinear_arith)
        requires
            n == d * q + r,
    ;
    let k: int = if 2 * r >= d { q + 1 } else { q };
    let rest: int = 2 * n + d - k * (2 * d);
    assert(2 * n + d == k * (2 * d) + rest && 0 <= rest < 2 * d) by (nonlinear_arith)
        requires
            n == q * d + r,
            0 <= r < d,
            k == (if 2 * r >= d { q + 1 } else { q }),
            rest == 2 * n + d - k * (2 * d),
    ;
    vstd::arithmetic::div_mod::lemma_fundamental_div_mod_converse(2 * n + d, 2 * d, k, rest);
    assert(2 * k * d == k * (2 * d)) by (nonlinear_arith);
    if 2 * r >= d {
        vstd::arithmetic::div_mod::lemma_div_pos_is_pos(n, d);
        assert(q + 1 <= n) by (nonlinear_arith)
            requires
                n == q * d + r,
                q >= 0,
                d >= 2,
                r >= 1,
        ;
    }
}

/// The rate to stamp on the finished recording.
pub fn observed_rate(frames: u64, elapsed_nanos: u64, requested: FrameRate) -> (rate: FrameRate)
    ensures
        rate == observed_rate_spec(frames as nat, elapsed_nanos as nat, requested),
        frames > 0 && elapsed_nanos > 0 ==> rate.frames == frames && rate.nanos == elapsed_nanos,
        frames == 0 || elapsed_nanos == 0 ==> rate == requested,
{
    if frames > 0 && elapsed_nanos > 0 {
        FrameRate { frames, nanos: elapsed_nanos }
    } else {
        requested
    }
}

/// How long to sleep so that an iteration that took `elapsed` fills `interval`.
/// `None` when the iteration has already used the whole interval.
pub fn remaining_pause(interval: u64, elapsed: u64) -> (pause: Option<u64>)
    ensures
        pause == remaining_pause_spec(interval, elapsed),
        pause is Some <==> elapsed < interval,
        pause matches Some(p) ==> p + elapsed == interval && p > 0,
{
    if elapsed < interval {
        Some(interval - elapsed)
    } else {
        None
    }
}

/// Time from `earlier` to `later`, zero if the clock stepped backwards.
pub fn elapsed_between(earlier: u64, later: u64) -> (elapsed: u64)
    ensures
        elapsed == elapsed_between_spec(earlier, later),
{
    if later >= earlier {
        later - earlier
    } else {
        0
    }
}

} // verus!
