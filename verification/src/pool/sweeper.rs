//! The sweeper: the task that wakes at a fixed interval and clears the pool
//! of connections that are closed or have expired.

use vstd::prelude::*;
use crate::pool::inner::IdleTask;
use crate::pool::{Poll, Pool};
use crate::time::{Duration, Instant, NANOS_PER_MILLI};

verus! {

/// The lateness, in nanoseconds, beyond which a missed deadline is given up
/// and the next one counted from the present.
pub const MISSED_DEADLINE_SLACK: u64 = 5 * NANOS_PER_MILLI;

impl IdleTask {
    /// The deadline that follows `self.deadline` when the task wakes at
    /// `now`: one interval later, or one interval from `now` where that
    /// would lie more than the slack in the past.
    pub open spec fn next_deadline(self, now: Instant) -> Instant {
        let next = self.deadline.after(self.duration);
        if next.nanos < now.before(Duration { nanos: MISSED_DEADLINE_SLACK }).nanos {
            now.after(self.duration)
        } else {
            next
        }
    }

    /// One wake of the task at `now`.
    ///
    /// Before its deadline the task sleeps on. At or after it, the task sets
    /// its next deadline and sweeps the pool; a pool that is switched off
    /// ends it. The owner ends the task without a wake once the pool is gone.
    pub fn poll(&mut self, pool: &mut Pool, now: Instant) -> (r: Poll<()>)
        requires
            old(pool).wf(),
        ensures
            final(pool).wf(),
            final(self).duration == old(self).duration,
            if now.nanos < old(self).deadline.nanos {
                r is Pending && *final(self) == *old(self) && final(pool)@ == old(pool)@
            } else {
                &&& final(self).deadline == old(self).next_deadline(now)
                &&& match old(pool)@ {
                    Some(view) => r is Pending && final(pool)@ == Some(view.clear_expired(now)),
                    None => r is Ready && final(pool)@ is None,
                }
            },
    {
        if now.as_nanos() < self.deadline.as_nanos() {
            return Poll::Pending;
        }
        // The next wake is one interval after the deadline. If the wake came
        // much too late, count the interval from the current time instead.
        self.deadline = self.deadline.saturating_add(self.duration);
        let slack = Duration::from_nanos(MISSED_DEADLINE_SLACK);
        if self.deadline.as_nanos() < now.saturating_sub(slack).as_nanos() {
            self.deadline = now.saturating_add(self.duration);
        }
        if pool.sweep(now) {
            Poll::Pending
        } else {
            Poll::Ready(())
        }
    }
}

} // verus!
