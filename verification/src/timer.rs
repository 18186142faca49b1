//! A rolling frame timer: a fixed ring of the most recent frame durations
//! in whole milliseconds, a running sum kept exactly equal to the ring's
//! contents, a write cursor, and the instant the current frame started.
//!
//! The average divides the running sum by the full capacity, not by the
//! number of frames recorded so far, so it is diluted by the zero-filled
//! slots until the ring has wrapped once.

use vstd::prelude::*;
use std::time::Instant;

verus! {

/// Number of frame durations the ring retains.
pub const TIMING_SLOTS: usize = 30;

#[verifier::external_type_specification]
#[verifier::external_body]
pub struct ExInstant(Instant);

/// Relies on `std::time::Instant::now`: a reading of the monotonic clock.
/// The clock decides the value, so nothing is assumed of the result.
pub assume_specification[ Instant::now ]() -> Instant;

/// Relies on `std::time::Instant::elapsed`: the time since `self` as a
/// `Duration`. The clock decides the value, so nothing is assumed of it.
pub assume_specification[ Instant::elapsed ](start: &Instant) -> core::time::Duration;

/// Relies on `core::time::Duration::as_millis`: the duration in whole
/// milliseconds. `Duration` is opaque here, so nothing is assumed of it.
pub assume_specification[ core::time::Duration::as_millis ](d: &core::time::Duration) -> u128;

/// The exact sum of a sequence of recorded durations.
pub open spec fn sum_of(s: Seq<u32>) -> int
    decreases s.len(),
{
    if s.len() == 0 {
        0
    } else {
        sum_of(s.drop_last()) + s.last()
    }
}

/// Replacing one slot moves the sum by exactly the difference between the
/// new duration and the one evicted.
pub proof fn lemma_sum_of_update(s: Seq<u32>, i: int, v: u32)
    requires
        0 <= i < s.len(),
    ensures
        sum_of(s.update(i, v)) == sum_of(s) - s[i] + v,
    decreases s.len(),
{
    if i == s.len() - 1 {
        assert(s.update(i, v).drop_last() =~= s.drop_last());
    } else {
        lemma_sum_of_update(s.drop_last(), i, v);
        assert(s.update(i, v).drop_last() =~= s.drop_last().update(i, v));
    }
}

/// The sum of recorded durations is nonnegative and at most the capacity
/// times the largest duration a slot can hold.
pub proof fn lemma_sum_of_bounds(s: Seq<u32>)
    ensures
        0 <= sum_of(s) <= s.len() * 0xffff_ffff,
    decreases s.len(),
{
    if s.len() > 0 {
        lemma_sum_of_bounds(s.drop_last());
    }
}

/// A ring whose slots are all zero sums to zero.
pub proof fn lemma_sum_of_zeroes(s: Seq<u32>)
    requires
        forall|i: int| 0 <= i < s.len() ==> s[i] == 0,
    ensures
        sum_of(s) == 0,
    decreases s.len(),
{
    if s.len() > 0 {
        lemma_sum_of_zeroes(s.drop_last());
    }
}

/// Rolling frame timer over a fixed ring of frame durations.
#[derive(Debug)]
pub struct FastTimer {
    /// Running sum of every duration currently stored in `timings`.
    pub sum: u64,
    /// The ring of the most recent frame durations, in milliseconds.
    pub timings: [u32; 30],
    /// Slot that the next recorded duration overwrites.
    pub index: usize,
    /// Start of the frame currently being timed.
    pub instant: Instant,
}

impl FastTimer {
    /// The timer's invariant: the cursor stays inside the ring and the
    /// running sum equals the exact sum of the ring's current contents.
    pub open spec fn wf(&self) -> bool {
        &&& self.index < TIMING_SLOTS
        &&& self.sum == sum_of(self.timings@)
    }

    /// A fresh timer: every slot zero, sum zero, cursor at the first slot,
    /// with the construction instant as the initial frame start.
    pub fn new() -> (t: Self)
        ensures
            t.wf(),
            t.sum == 0,
            t.index == 0,
            forall|i: int| 0 <= i < TIMING_SLOTS ==> t.timings@[i] == 0,
    {
        let t = FastTimer {
            sum: 0,
            timings: [0u32; 30],
            index: 0,
            instant: Instant::now(),
        };
        proof {
            lemma_sum_of_zeroes(t.timings@);
        }
        t
    }

    /// Mark the current instant as the start of a frame; the ring, the sum
    /// and the cursor are untouched.
    pub fn start_frame(&mut self)
        requires
            old(self).wf(),
        ensures
            final(self).wf(),
            final(self).sum == old(self).sum,
            final(self).timings == old(self).timings,
            final(self).index == old(self).index,
    {
        self.instant = Instant::now();
    }

    /// Store one frame duration: the duration previously held at the cursor
    /// leaves the sum, the new one replaces it and enters the sum, and the
    /// cursor advances one slot, wrapping at the ring's capacity.
    pub fn record(&mut self, elapsed: u32)
        requires
            old(self).wf(),
        ensures
            final(self).wf(),
            final(self).timings@ == old(self).timings@.update(old(self).index as int, elapsed),
            final(self).sum == old(self).sum - old(self).timings@[old(self).index as int] + elapsed,
            final(self).index == (old(self).index + 1) % (TIMING_SLOTS as int),
            final(self).instant == old(self).instant,
    {
        proof {
            lemma_sum_of_bounds(self.timings@);
            lemma_sum_of_update(self.timings@, self.index as int, 0u32);
            lemma_sum_of_bounds(self.timings@.update(self.index as int, 0u32));
            lemma_sum_of_update(self.timings@, self.index as int, elapsed);
        }
        let last_val: u32 = self.timings[self.index];
        self.timings[self.index] = elapsed;

        self.sum = self.sum - last_val as u64;
        self.sum = self.sum + elapsed as u64;
        self.index = (self.index + 1) % TIMING_SLOTS;
    }

    /// Measure the frame that began at the last recorded start instant,
    /// truncated to whole milliseconds, and store it in the ring. The clock
    /// decides the measured value; whatever it is, the ring gains exactly
    /// that duration at the old cursor and the sum moves with it.
    pub fn end_frame(&mut self)
        requires
            old(self).wf(),
        ensures
            final(self).wf(),
            final(self).index == (old(self).index + 1) % (TIMING_SLOTS as int),
            final(self).instant == old(self).instant,
            exists|e: u32|
                final(self).timings@ == old(self).timings@.update(old(self).index as int, e)
                    && final(self).sum == old(self).sum - old(self).timings@[old(self).index as int] + e,
    {
        let elapsed: u128 = self.instant.elapsed().as_millis();
        let ghost pre = *self;
        let millis: u32 = #[verifier::truncate] (elapsed as u32);
        self.record(millis);
        proof {
            assert(self.timings@ == pre.timings@.update(pre.index as int, millis));
        }
    }

    /// The moving average: the running sum divided by the full capacity of
    /// the ring (integer division), regardless of how many frames have been
    /// recorded so far.
    pub fn average(&self) -> (avg: u32)
        requires
            self.wf(),
        ensures
            avg == self.sum as int / (TIMING_SLOTS as int),
    {
        proof {
            lemma_sum_of_bounds(self.timings@);
        }
        (self.sum / 30) as u32
    }
}

/// The running sum can always be recomputed from the slots: in every
/// well-formed timer state, `sum` equals the exact sum of the ring.
pub proof fn lemma_sum_matches_slots(t: FastTimer)
    requires
        t.wf(),
    ensures
        t.sum == sum_of(t.timings@),
{
}

/// The frames-per-second figure for an average frame duration in
/// milliseconds: `1000 / avg`, by integer division. An average that
/// rounded down to zero milliseconds has no finite figure and yields
/// `None` rather than dividing by zero.
pub fn fps(avg: u32) -> (r: Option<u32>)
    ensures
        avg > 0 ==> r == Some(1000u32 / avg),
        avg == 0 ==> r is None,
{
    if avg > 0 {
        Some(1000 / avg)
    } else {
        None
    }
}

} // verus!
