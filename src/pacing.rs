//! The pacing clock: a fixed cadence between the starts of successive iterations.
//!
//! Instants are nanoseconds on a monotonic clock, counted from any fixed origin.
use vstd::prelude::*;

verus! {

/// `a + b`, or the largest `u64` when the sum does not fit.
pub open spec fn sat_add(a: u64, b: u64) -> u64 {
    if a + b > u64::MAX {
        u64::MAX
    } else {
        (a + b) as u64
    }
}

/// What the loop does between two iterations.
#[derive(Clone, Copy, Debug, PartialEq, Eq, Structural)]
pub enum Pause {
    /// Sleep this many nanoseconds: the next iteration starts at the deadline.
    Sleep(u64),
    /// The iteration ran past its deadline: start the next one at once.
    Overrun,
}

/// The pacing state of one client loop.
#[derive(Clone, Copy, Debug, PartialEq, Eq, Structural)]
pub struct Pacer {
    /// The target period between iteration starts.
    pub interval: u64,
    /// The instant at which the next iteration is due.
    pub next: u64,
    /// The instant at which the current measurement began.
    pub started: u64,
}

/// The state after an iteration that ends at `now`, and the pause before the next one.
/// In time, the deadline advances by one interval; past it, the cadence resynchronizes
/// one interval after `now`.
pub open spec fn pace(p: Pacer, now: u64) -> (Pacer, Pause) {
    if now > p.next {
        (Pacer { next: sat_add(now, p.interval), ..p }, Pause::Overrun)
    } else {
        (Pacer { next: sat_add(p.next, p.interval), ..p }, Pause::Sleep((p.next - now) as u64))
    }
}

/// The state after iterations that end at the instants of `ends`, in order.
pub open spec fn pace_all(p: Pacer, ends: Seq<u64>) -> Pacer
    decreases ends.len(),
{
    if ends.len() == 0 {
        p
    } else {
        pace(pace_all(p, ends.drop_last()), ends.last()).0
    }
}

impl Pacer {
    /// A pacer whose first iteration begins at `now`.
    pub fn new(interval: u64, now: u64) -> (r: Pacer)
        ensures
            r == (Pacer { interval, next: sat_add(now, interval), started: now }),
    {
        Pacer { interval, next: now.saturating_add(interval), started: now }
    }

    /// Restarts the cadence at `now`, as a new session does.
    pub fn reset(&mut self, now: u64)
        ensures
            *final(self) == (Pacer {
                interval: old(self).interval,
                next: sat_add(now, old(self).interval),
                started: now,
            }),
    {
        self.started = now;
        self.next = now.saturating_add(self.interval);
    }

    /// The time since the current measurement began.
    pub fn elapsed(&self, now: u64) -> (r: u64)
        ensures
            r == if now >= self.started {
                (now - self.started) as u64
            } else {
                0u64
            },
    {
        if now >= self.started {
            now - self.started
        } else {
            0
        }
    }

    /// Ends the iteration at `now`: advances the deadline and says how long to wait.
    pub fn finish(&mut self, now: u64) -> (r: Pause)
        ensures
            (*final(self), r) == pace(*old(self), now),
    {
        if now > self.next {
            self.next = now.saturating_add(self.interval);
            Pause::Overrun
        } else {
            let wait = self.next - now;
            self.next = self.next.saturating_add(self.interval);
            Pause::Sleep(wait)
        }
    }

    /// Begins the next measurement at `now`.
    pub fn start(&mut self, now: u64)
        ensures
            *final(self) == (Pacer { started: now, ..*old(self) }),
    {
        self.started = now;
    }
}

/// No drift: when every iteration ends by its deadline, the k-th deadline is the first
/// one plus k intervals, whatever the iterations cost, and the k-th pause ends exactly
/// on it; after n iterations the next deadline is the first one plus n intervals.
pub proof fn lemma_cadence_without_drift(p: Pacer, ends: Seq<u64>)
    requires
        p.next + ends.len() * p.interval <= u64::MAX,
        forall|k: int| 0 <= k < ends.len() ==> #[trigger] ends[k] <= p.next + k * p.interval,
    ensures
        pace_all(p, ends).next == p.next + ends.len() * p.interval,
        pace_all(p, ends).interval == p.interval,
        forall|k: int|
            0 <= k < ends.len() ==> #[trigger] pace(pace_all(p, ends.take(k)), ends[k]).1
                == Pause::Sleep((p.next + k * p.interval - ends[k]) as u64),
    decreases ends.len(),
{
    if ends.len() > 0 {
        let n = ends.len() - 1;
        let init = ends.drop_last();
        assert forall|k: int| 0 <= k < init.len() implies #[trigger] init[k] <= p.next + k
            * p.interval by {
            assert(init[k] == ends[k]);
        }
        assert(p.next + init.len() * p.interval <= u64::MAX) by (nonlinear_arith)
            requires
                p.next + ends.len() * p.interval <= u64::MAX,
                init.len() == ends.len() - 1,
        ;
        lemma_cadence_without_drift(p, init);
        assert(p.next + n * p.interval + p.interval == p.next + ends.len() * p.interval)
            by (nonlinear_arith)
            requires
                n == ends.len() - 1,
        ;
        assert forall|k: int| 0 <= k < ends.len() implies #[trigger] pace(
            pace_all(p, ends.take(k)),
            ends[k],
        ).1 == Pause::Sleep((p.next + k * p.interval - ends[k]) as u64) by {
            if k < n {
                assert(ends.take(k) =~= init.take(k));
                assert(init[k] == ends[k]);
            } else {
                assert(ends.take(k) =~= init);
            }
        }
    }
}

} // verus!
