use vstd::prelude::*;

verus! {

/// A fixed-interval timer driven by an external clock. Elapsed real time,
/// in any fixed unit such as milliseconds, is accumulated each frame; once
/// the accumulated time reaches the interval the timer fires, at most once
/// per frame, and keeps the remainder. The movement tick and the food
/// spawn cadence each run off one of these, independent of the frame rate.
#[derive(Clone, Copy, PartialEq, Eq, Structural, Debug)]
pub struct TickTimer {
    pub interval: u64,
    pub accumulated: u64,
}

impl TickTimer {
    /// A timer is meaningful only with a positive interval.
    pub open spec fn wf(self) -> bool {
        self.interval > 0
    }

    /// The accumulated time after `elapsed` more units, saturating at the
    /// largest representable value rather than wrapping.
    pub open spec fn accumulated_after(self, elapsed: u64) -> int {
        if self.accumulated + elapsed <= u64::MAX {
            self.accumulated + elapsed
        } else {
            u64::MAX as int
        }
    }

    /// Whether adding `elapsed` more units reaches the interval.
    pub open spec fn fires_spec(self, elapsed: u64) -> bool {
        self.accumulated_after(elapsed) >= self.interval
    }

    /// Creates a timer that has just fired: no time accumulated yet.
    pub fn new(interval: u64) -> (t: TickTimer)
        requires
            interval > 0,
        ensures
            t.wf(),
            t.interval == interval,
            t.accumulated == 0,
    {
        TickTimer { interval, accumulated: 0 }
    }

    /// Feeds `elapsed` units of real time to the timer. Returns whether the
    /// timer fires this frame; on a fire the interval is deducted and any
    /// remainder is kept, so a backlog drains one fire per frame.
    pub fn advance(&mut self, elapsed: u64) -> (fired: bool)
        requires
            old(self).wf(),
        ensures
            final(self).wf(),
            final(self).interval == old(self).interval,
            fired == old(self).fires_spec(elapsed),
            final(self).accumulated == if fired {
                old(self).accumulated_after(elapsed) - old(self).interval
            } else {
                old(self).accumulated_after(elapsed)
            },
    {
        let acc = if elapsed > u64::MAX - self.accumulated {
            u64::MAX
        } else {
            self.accumulated + elapsed
        };
        if acc >= self.interval {
            self.accumulated = acc - self.interval;
            true
        } else {
            self.accumulated = acc;
            false
        }
    }
}

} // verus!
