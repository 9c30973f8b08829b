use vstd::prelude::*;

verus! {

/// Milliseconds between two frame-rate reports.
pub const FPS_COUNTER_INTERVAL_MS: u32 = 5000;

/// One more than the largest count a `FrameCounter` holds.
pub const COUNTER_MODULUS: u64 = 0x1_0000_0000;

/// The count after one increment; the counter wraps around like a `u32`.
pub open spec fn incremented(c: nat) -> nat {
    (c + 1) % (COUNTER_MODULUS as nat)
}

/// The count after `n` increments from `c`.
pub open spec fn after_increments(c: nat, n: nat) -> nat
    decreases n,
{
    if n == 0 {
        c
    } else {
        incremented(after_increments(c, (n - 1) as nat))
    }
}

/// The rate, in hundredths of a frame per second, of `frames` frames over
/// `interval_ms` milliseconds, rounded to the nearest hundredth (halves up).
pub open spec fn rate_hundredths(frames: nat, interval_ms: nat) -> nat
    recommends
        interval_ms > 0,
{
    (frames * 200_000 + interval_ms) / (2 * interval_ms)
}

/// Counting `n` frames from `c` leaves `c + n` on the counter, wrapped
/// around like a `u32`.
pub proof fn lemma_increments_count(c: nat, n: nat)
    requires
        c < COUNTER_MODULUS,
    ensures
        after_increments(c, n) == (c + n) % (COUNTER_MODULUS as nat),
    decreases n,
{
    if n > 0 {
        lemma_increments_count(c, (n - 1) as nat);
        let m = COUNTER_MODULUS as int;
        assert(((c + n - 1) % m + 1) % m == (c as int + n as int) % m) by {
            vstd::arithmetic::div_mod::lemma_add_mod_noop(c + n - 1, 1, m);
            vstd::arithmetic::div_mod::lemma_mod_twice(c + n - 1, m);
            vstd::arithmetic::div_mod::lemma_small_mod(1, m as nat);
        }
    }
}

/// Counting `n` frames on a fresh counter and then sampling over the default
/// interval reports `n / 5` frames per second, exactly; the sample leaves the
/// counter at zero, so a second sample with no frame in between reports a
/// rate of zero.
pub proof fn lemma_sample_after_increments(n: nat)
    requires
        n <= u32::MAX,
    ensures
        after_increments(0, n) == n,
        rate_hundredths(after_increments(0, n), FPS_COUNTER_INTERVAL_MS as nat) == 20 * n,
        rate_hundredths(0, FPS_COUNTER_INTERVAL_MS as nat) == 0,
{
    lemma_increments_count(0, n);
    vstd::arithmetic::div_mod::lemma_small_mod(n, COUNTER_MODULUS as nat);
    assert((n * 200_000 + 5000) / 10000 == 20 * n) by (nonlinear_arith);
    assert((0nat * 200_000 + 5000) / 10000 == 0) by (nonlinear_arith);
}

/// Counts the frames drawn since it was last sampled.
///
/// Every operation takes the counter by `&mut`, so an increment and a sample
/// never interleave; a counter shared between threads is held behind a lock.
pub struct FrameCounter {
    count: u32,
}

/// The frames counted over one sampling interval.
#[derive(Clone, Copy, Debug, PartialEq, Eq, Structural)]
pub struct Sample {
    pub frames: u32,
    pub interval_ms: u32,
}

impl FrameCounter {
    /// The number of frames counted since the last sample.
    pub closed spec fn value(&self) -> nat {
        self.count as nat
    }

    /// A counter at zero.
    pub fn new() -> (r: FrameCounter)
        ensures
            r.value() == 0,
    {
        FrameCounter { count: 0 }
    }

    /// The current count.
    pub fn frames(&self) -> (r: u32)
        ensures
            r == self.value(),
    {
        self.count
    }

    /// Counts one frame.
    pub fn increment(&mut self)
        ensures
            final(self).value() == incremented(old(self).value()),
    {
        self.count = self.count.wrapping_add(1);
    }

    /// Takes the count, as the frames of an interval of `interval_ms`
    /// milliseconds, and resets the counter to zero in the same step.
    pub fn sample_and_reset(&mut self, interval_ms: u32) -> (r: Sample)
        ensures
            r.frames == old(self).value(),
            r.interval_ms == interval_ms,
            final(self).value() == 0,
    {
        let frames = self.count;
        self.count = 0;
        Sample { frames, interval_ms }
    }
}

impl Sample {
    /// The frame rate in hundredths of a frame per second, rounded to the
    /// nearest hundredth; `None` for an empty interval.
    pub fn hundredths_per_second(&self) -> (r: Option<u64>)
        ensures
            self.interval_ms == 0 <==> r is None,
            r matches Some(h) ==> h == rate_hundredths(
                self.frames as nat,
                self.interval_ms as nat,
            ),
    {
        if self.interval_ms == 0 {
            None
        } else {
            let num: u64 = self.frames as u64 * 200_000 + self.interval_ms as u64;
            Some(num / (2 * self.interval_ms as u64))
        }
    }
}

} // verus!
