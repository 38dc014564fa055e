//! Frame-clock timers, counted in whole milliseconds.
//!
//! `OnceTimer` runs to its duration and stays finished (a pig's lifetime);
//! `RepeatingTimer` wraps around its interval and reports how many cycles a
//! tick completed (wander re-rolls, animation frames).

use vstd::prelude::*;
use vstd::arithmetic::div_mod::lemma_fundamental_div_mod;
use vstd::arithmetic::div_mod::lemma_fundamental_div_mod_converse;

verus! {

/// A one-shot countdown: elapsed time accumulates up to `duration_ms` and
/// clamps there; the timer is finished exactly when it has reached it.
#[derive(Clone, Copy, Debug, PartialEq, Eq, Structural)]
pub struct OnceTimer {
    pub elapsed_ms: u64,
    pub duration_ms: u64,
}

/// The value of a one-shot timer after a tick of `dt` milliseconds.
pub open spec fn once_after(t: OnceTimer, dt: u64) -> OnceTimer {
    OnceTimer {
        elapsed_ms: if t.elapsed_ms + dt >= t.duration_ms {
            t.duration_ms
        } else {
            (t.elapsed_ms + dt) as u64
        },
        duration_ms: t.duration_ms,
    }
}

/// Whether a one-shot timer has run out.
pub open spec fn once_is_finished(t: OnceTimer) -> bool {
    t.elapsed_ms >= t.duration_ms
}

impl OnceTimer {
    /// Elapsed time never exceeds the duration.
    pub open spec fn wf(self) -> bool {
        self.elapsed_ms <= self.duration_ms
    }

    /// A fresh one-shot timer with the full duration ahead of it.
    pub fn new(duration_ms: u64) -> (t: OnceTimer)
        ensures
            t == (OnceTimer { elapsed_ms: 0, duration_ms: duration_ms }),
            t.wf(),
    {
        OnceTimer { elapsed_ms: 0, duration_ms: duration_ms }
    }

    /// Advances the timer by `dt` milliseconds, clamping at the duration.
    pub fn tick(&mut self, dt: u64)
        requires
            old(self).wf(),
        ensures
            final(self).wf(),
            *final(self) == once_after(*old(self), dt),
    {
        let remaining = self.duration_ms - self.elapsed_ms;
        if dt >= remaining {
            self.elapsed_ms = self.duration_ms;
        } else {
            self.elapsed_ms = self.elapsed_ms + dt;
        }
    }

    /// Whether the timer has run out.
    pub fn is_finished(&self) -> (r: bool)
        ensures
            r == once_is_finished(*self),
    {
        self.elapsed_ms >= self.duration_ms
    }
}

/// Ticking a one-shot timer twice covers exactly the summed elapsed time:
/// a lifetime runs out after its duration has accumulated, no matter how
/// that time is split across frames.
pub proof fn lemma_once_timer_accumulates(t: OnceTimer, a: u64, b: u64)
    requires
        t.wf(),
        a + b <= u64::MAX,
    ensures
        once_after(once_after(t, a), b) == once_after(t, (a + b) as u64),
{
}

/// A repeating interval timer: elapsed time wraps modulo the interval, and
/// each tick reports how many whole cycles it completed.
#[derive(Clone, Copy, Debug, PartialEq, Eq, Structural)]
pub struct RepeatingTimer {
    pub elapsed_ms: u64,
    pub interval_ms: u64,
}

/// The value of a repeating timer after a tick of `dt` milliseconds.
pub open spec fn repeat_after(t: RepeatingTimer, dt: u64) -> RepeatingTimer {
    RepeatingTimer {
        elapsed_ms: ((t.elapsed_ms + dt) % (t.interval_ms as int)) as u64,
        interval_ms: t.interval_ms,
    }
}

/// How many whole cycles a tick of `dt` milliseconds completes.
pub open spec fn repeat_completions(t: RepeatingTimer, dt: u64) -> int {
    (t.elapsed_ms + dt) / (t.interval_ms as int)
}

impl RepeatingTimer {
    /// The interval is positive and the elapsed time stays inside it.
    pub open spec fn wf(self) -> bool {
        0 < self.interval_ms && self.elapsed_ms < self.interval_ms
    }

    /// A fresh repeating timer at the start of its first cycle.
    pub fn new(interval_ms: u64) -> (t: RepeatingTimer)
        requires
            interval_ms > 0,
        ensures
            t == (RepeatingTimer { elapsed_ms: 0, interval_ms: interval_ms }),
            t.wf(),
    {
        RepeatingTimer { elapsed_ms: 0, interval_ms: interval_ms }
    }

    /// Advances the timer by `dt` milliseconds and returns how many whole
    /// cycles completed during this tick; the remainder keeps running.
    pub fn tick(&mut self, dt: u64) -> (completions: u64)
        requires
            old(self).wf(),
        ensures
            final(self).wf(),
            *final(self) == repeat_after(*old(self), dt),
            completions == repeat_completions(*old(self), dt),
            completions <= dt,
    {
        let interval = self.interval_ms;
        let q = dt / interval;
        let r = dt % interval;
        proof {
            assert(q * interval + r == dt) by {
                lemma_fundamental_div_mod(dt as int, interval as int);
                assert(interval * q == q * interval) by (nonlinear_arith);
            };
        }
        let gap = interval - self.elapsed_ms;
        if r >= gap {
            // The leftover `r` pushes the elapsed time past one more cycle
            // boundary than `q` accounts for.
            proof {
                assert(interval >= 2) by {
                    if interval == 1 {
                        assert(r == 0 && gap == 1);
                    }
                };
                assert(2 * q <= q * interval) by (nonlinear_arith)
                    requires
                        q >= 0,
                        interval >= 2,
                ;
                assert(q * interval <= dt);
                assert(dt >= 1);
                assert(q + 1 <= dt);
                assert((q + 1) * interval == q * interval + interval) by (nonlinear_arith);
                assert(old(self).elapsed_ms + dt == (q + 1) * interval + (r - gap));
                lemma_fundamental_div_mod_converse(
                    old(self).elapsed_ms + dt,
                    interval as int,
                    q + 1,
                    r - gap,
                );
            }
            self.elapsed_ms = r - gap;
            q + 1
        } else {
            proof {
                assert(q <= q * interval) by (nonlinear_arith)
                    requires
                        q >= 0,
                        interval >= 1,
                ;
                assert(q * interval <= dt);
                assert(old(self).elapsed_ms + dt == q * interval + (old(self).elapsed_ms + r));
                lemma_fundamental_div_mod_converse(
                    old(self).elapsed_ms + dt,
                    interval as int,
                    q as int,
                    old(self).elapsed_ms + r,
                );
            }
            self.elapsed_ms = self.elapsed_ms + r;
            q
        }
    }
}

} // verus!
