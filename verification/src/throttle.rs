use crate::clock::{elapsed, elapsed_between};
use vstd::prelude::*;

verus! {

/// The least time between two presented frames, in nanoseconds: a little
/// under one seventy-fifth of a second, so that presenting never lags behind
/// the display's refresh.
pub const FRAME_INTERVAL_NANOS: u64 = 13_000_000;

/// Decides on each pass of the loop whether a frame is to be presented.
///
/// It remembers when the last frame was presented and lets the next one
/// through once more than the interval has gone by. Frames are never queued:
/// a late check presents one frame.
#[derive(Clone, Copy, Debug, PartialEq, Eq, Structural)]
pub struct FrameThrottle {
    /// The time that must be exceeded between two frames, in nanoseconds.
    pub interval: u64,
    /// The clock mark of the last presented frame.
    pub last_render: u64,
}

/// Whether the clock marks come in the order in which a monotonic clock
/// gives them.
pub open spec fn nondecreasing(times: Seq<u64>) -> bool {
    forall|i: int, j: int| 0 <= i <= j < times.len() ==> times[i] <= times[j]
}

impl FrameThrottle {
    /// Whether a frame is due at `now`: more than the interval has gone by
    /// since the last presentation.
    pub open spec fn due(&self, now: u64) -> bool {
        elapsed_between(self.last_render, now) > self.interval
    }

    /// The throttle after a check at `now`: a due frame starts the interval
    /// anew, a check that presents nothing changes nothing.
    pub open spec fn after_poll(self, now: u64) -> FrameThrottle {
        if self.due(now) {
            FrameThrottle { interval: self.interval, last_render: now }
        } else {
            self
        }
    }

    /// The throttle after one check at each of `times`, in turn.
    pub open spec fn after_polls(self, times: Seq<u64>) -> FrameThrottle
        decreases times.len(),
    {
        if times.len() == 0 {
            self
        } else {
            self.after_polls(times.drop_last()).after_poll(times.last())
        }
    }

    /// Whether, of the checks at `times`, the one numbered `i` presents a
    /// frame.
    pub open spec fn presents_at(self, times: Seq<u64>, i: int) -> bool
        recommends
            0 <= i < times.len(),
    {
        self.after_polls(times.take(i)).due(times[i])
    }

    /// A throttle that counts its first interval from `now`.
    pub fn new(interval: u64, now: u64) -> (throttle: FrameThrottle)
        ensures
            throttle == (FrameThrottle { interval, last_render: now }),
    {
        FrameThrottle { interval, last_render: now }
    }

    /// Checks the throttle at `now`. Where a frame is due the answer is
    /// `true` and the interval starts anew at `now`; where none is due the
    /// answer is `false` and nothing changes.
    pub fn poll(&mut self, now: u64) -> (present: bool)
        ensures
            present == old(self).due(now),
            *final(self) == old(self).after_poll(now),
    {
        if elapsed(self.last_render, now) > self.interval {
            self.last_render = now;
            true
        } else {
            false
        }
    }

    /// Once the check numbered `i` has presented a frame, the throttle's mark
    /// is no earlier than that check for as long as the clock does not run
    /// backwards.
    proof fn lemma_mark_after_frame(self, times: Seq<u64>, i: int, n: int)
        requires
            nondecreasing(times),
            0 <= i < n <= times.len(),
            self.presents_at(times, i),
        ensures
            self.after_polls(times.take(n)).last_render >= times[i],
            self.after_polls(times.take(n)).interval == self.interval,
        decreases n,
    {
        assert(times.take(n).drop_last() == times.take(n - 1));
        if n - 1 > i {
            self.lemma_mark_after_frame(times, i, n - 1);
        } else {
            self.lemma_interval_kept(times.take(i));
        }
    }

    /// Checks never change the interval.
    proof fn lemma_interval_kept(self, times: Seq<u64>)
        ensures
            self.after_polls(times).interval == self.interval,
        decreases times.len(),
    {
        if times.len() > 0 {
            self.lemma_interval_kept(times.drop_last());
        }
    }

    /// The first frame is presented by the first check that finds more than
    /// the interval gone by: while no check has, the throttle stays as it
    /// was.
    pub proof fn lemma_first_frame(self, times: Seq<u64>, i: int)
        requires
            0 <= i < times.len(),
            forall|k: int|
                0 <= k < i ==> elapsed_between(self.last_render, #[trigger] times[k])
                    <= self.interval,
        ensures
            forall|k: int| 0 <= k < i ==> !self.presents_at(times, k),
            self.after_polls(times.take(i)) == self,
            self.presents_at(times, i) <==> elapsed_between(self.last_render, times[i])
                > self.interval,
        decreases i,
    {
        if i > 0 {
            self.lemma_first_frame(times, i - 1);
            assert(times.take(i).drop_last() == times.take(i - 1));
        }
    }

    /// Frames are never presented closer together than the interval: of the
    /// checks made at `times` by a clock that does not run backwards, any two
    /// that present a frame lie more than the interval apart.
    pub proof fn lemma_frames_spaced(self, times: Seq<u64>, i: int, j: int)
        requires
            nondecreasing(times),
            0 <= i < j < times.len(),
            self.presents_at(times, i),
            self.presents_at(times, j),
        ensures
            times[j] - times[i] > self.interval,
    {
        self.lemma_mark_after_frame(times, i, j);
    }
}

} // verus!
