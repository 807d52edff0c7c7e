//! A fixed-rate ticker for the drawing loop, on a millisecond clock: each
//! call says how long to wait for the next tick of the grid that the first
//! call laid down.

use vstd::prelude::*;

verus! {

/// Ticks every `interval_ms` milliseconds, from the first tick on.
#[derive(Debug, Clone, Copy, PartialEq, Eq, Structural)]
pub struct Interval {
    pub interval_ms: u64,
    /// The first tick, once one was asked for.
    pub deadline_ms: Option<u64>,
}

/// The wait from `now` to the next tick of the grid of `interval` that
/// starts at `deadline`: the grid point after `now`, or the deadline itself
/// while it is ahead.
pub open spec fn wait_for_tick(now: nat, deadline: nat, interval: nat) -> nat {
    if now <= deadline {
        (deadline - now) as nat
    } else {
        (interval - (now - deadline) % (interval as int)) as nat
    }
}

/// The deadline the ticker keeps after a call at `now`.
pub open spec fn kept_deadline(t: Interval, now: u64) -> u64 {
    match t.deadline_ms {
        Some(d) => d,
        None => (now + t.interval_ms) as u64,
    }
}

/// Whether a call at `now` returns: a first call must not overflow the clock,
/// and a later call past the deadline needs a grid of positive step.
pub open spec fn tick_defined(t: Interval, now: u64) -> bool {
    match t.deadline_ms {
        Some(d) => now > d ==> t.interval_ms > 0,
        None => now + t.interval_ms <= u64::MAX,
    }
}

impl Interval {
    pub fn every(interval_ms: u64) -> (r: Interval)
        ensures
            r.interval_ms == interval_ms,
            r.deadline_ms is None,
    {
        Interval { interval_ms, deadline_ms: None }
    }

    /// How long to wait at `now_ms` for the next tick.
    pub fn next_tick(&mut self, now_ms: u64) -> (r: u64)
        requires
            tick_defined(*old(self), now_ms),
        ensures
            final(self).interval_ms == old(self).interval_ms,
            final(self).deadline_ms == Some(kept_deadline(*old(self), now_ms)),
            r == wait_for_tick(
                now_ms as nat,
                kept_deadline(*old(self), now_ms) as nat,
                old(self).interval_ms as nat,
            ),
    {
        if self.deadline_ms.is_none() {
            self.deadline_ms = Some(now_ms + self.interval_ms);
        }
        let deadline = match self.deadline_ms {
            Some(d) => d,
            None => now_ms,
        };
        if now_ms > deadline {
            let late = (now_ms - deadline) % self.interval_ms;
            self.interval_ms - late
        } else {
            deadline - now_ms
        }
    }
}

/// The wait lands on the grid: `now` plus the wait is the deadline or a
/// later grid point, it is never longer than one step past the deadline,
/// and once past the deadline the wait is positive.
pub proof fn tick_lands_on_grid(now: nat, deadline: nat, interval: nat)
    requires
        now > deadline ==> interval > 0,
    ensures
        now > deadline ==> 0 < wait_for_tick(now, deadline, interval) <= interval,
        now > deadline ==> (now + wait_for_tick(now, deadline, interval) - deadline) % (
        interval as int) == 0,
        now <= deadline ==> now + wait_for_tick(now, deadline, interval) == deadline,
{
    if now > deadline {
        let late = (now - deadline) as int;
        let i = interval as int;
        vstd::arithmetic::div_mod::lemma_fundamental_div_mod(late, i);
        let q = late / i;
        let r = late % i;
        assert(late + (i - r) == (q + 1) * i) by (nonlinear_arith)
            requires
                late == i * q + r,
        ;
        vstd::arithmetic::div_mod::lemma_mod_multiples_basic(q + 1, i);
    }
}

} // verus!
