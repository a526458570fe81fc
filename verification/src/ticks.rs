//! Deadline scheduling for time-triggered flushes.
//!
//! Time is handled as plain integers: callers pass the current clock reading
//! (`now`) in whatever unit they use consistently (the host typically uses
//! nanoseconds of a monotonic clock). The optional jitter bias is a fraction
//! of the period expressed in parts per million.

use vstd::prelude::*;
use vstd::arithmetic::div_mod::lemma_div_is_ordered;
use vstd::arithmetic::div_mod::lemma_div_multiples_vanish;

verus! {

/// Denominator of the parts-per-million jitter fraction.
pub const PPM_SCALE: u64 = 1_000_000;

/// The mathematical state of a scheduler: an optional period, a jitter bias
/// as a fraction of the period in parts per million, and an optional
/// absolute deadline.
pub struct TicksView {
    pub period: Option<u64>,
    pub bias_ppm: u64,
    pub deadline: Option<u64>,
}

/// `period` scaled by `factor` parts per million, rounded down.
pub open spec fn scaled_period(period: u64, factor: int) -> int {
    period * factor / (PPM_SCALE as int)
}

impl TicksView {
    /// Well-formedness: the bias is a fraction of at most one, and a deadline
    /// is armed only when a period is configured.
    pub open spec fn wf(self) -> bool {
        &&& self.bias_ppm <= PPM_SCALE
        &&& self.period is None ==> self.deadline is None
    }

    /// The shortest effective period a reschedule may pick.
    pub open spec fn min_effective_period(self) -> int {
        scaled_period(self.period->0, PPM_SCALE - self.bias_ppm)
    }

    /// The longest effective period a reschedule may pick.
    pub open spec fn max_effective_period(self) -> int {
        scaled_period(self.period->0, PPM_SCALE + self.bias_ppm)
    }

    /// A deadline computed at `now` fits in the clock's integer type.
    pub open spec fn can_schedule(self, now: u64) -> bool {
        self.period is Some ==> now + self.max_effective_period() <= u64::MAX
    }

    /// The armed deadline has elapsed at time `now`; always false when idle.
    pub open spec fn reached_at(self, now: u64) -> bool {
        match self.deadline {
            Some(d) => now >= d,
            None => false,
        }
    }

    /// Time remaining until the deadline, floored at zero; `None` when idle.
    pub open spec fn time_left_at(self, now: u64) -> Option<u64> {
        match self.deadline {
            Some(d) => Some(if now >= d { 0u64 } else { (d - now) as u64 }),
            None => None,
        }
    }
}

/// The relation `reschedule` establishes at time `now` between the scheduler
/// state before and after the call: configuration unchanged; without a
/// period nothing happens; with a period the new deadline lies one jittered
/// period past `now`, within the bias bounds, and is exact when no bias is
/// configured.
pub open spec fn rescheduled(pre: TicksView, post: TicksView, now: u64) -> bool {
    &&& post.period == pre.period
    &&& post.bias_ppm == pre.bias_ppm
    &&& (pre.period is None ==> post == pre)
    &&& (pre.period is Some ==> ({
        &&& post.deadline matches Some(d)
        &&& now + pre.min_effective_period() <= d <= now + pre.max_effective_period()
        &&& (pre.bias_ppm == 0 ==> d == now + pre.period->0)
    }))
}

/// Relies on `rand::random_range`: returns a value sampled uniformly from the
/// given range (the range `-bias_ppm ..= bias_ppm` is never empty, so the
/// call does not panic).
#[verifier::external_body]
fn sample_ppm_offset(bias_ppm: u64) -> (r: i64)
    requires
        bias_ppm <= PPM_SCALE,
    ensures
        -(bias_ppm as int) <= r as int <= bias_ppm as int,
{
    rand::random_range(-(bias_ppm as i64)..=(bias_ppm as i64))
}

/// A time-based scheduler: decides whether an armed deadline has elapsed and
/// how much time is left, given clock readings supplied by the caller.
#[derive(Debug, Clone, Copy)]
pub struct Ticks {
    period: Option<u64>,
    bias_ppm: u64,
    next_at: Option<u64>,
}

impl View for Ticks {
    type V = TicksView;

    closed spec fn view(&self) -> TicksView {
        TicksView { period: self.period, bias_ppm: self.bias_ppm, deadline: self.next_at }
    }
}

impl Ticks {
    /// A scheduler with no period: never reached.
    pub fn new() -> (r: Ticks)
        ensures
            r@ == (TicksView { period: None::<u64>, bias_ppm: 0u64, deadline: None::<u64> }),
    {
        Ticks { period: None, bias_ppm: 0, next_at: None }
    }

    /// Sets the period, keeping bias and any armed deadline.
    pub fn with_period(self, period: u64) -> (r: Ticks)
        ensures
            r@.period == Some(period),
            r@.bias_ppm == self@.bias_ppm,
            r@.deadline == self@.deadline,
    {
        Ticks { period: Some(period), ..self }
    }

    /// Sets the jitter bias, a fraction of the period in parts per million.
    pub fn with_bias(self, bias_ppm: u64) -> (r: Ticks)
        requires
            bias_ppm <= PPM_SCALE,
        ensures
            r@.period == self@.period,
            r@.bias_ppm == bias_ppm,
            r@.deadline == self@.deadline,
    {
        Ticks { bias_ppm, ..self }
    }

    /// Unconditionally (re)computes the deadline as `now` plus the jittered
    /// period; a no-op when no period is configured.
    pub fn reschedule(&mut self, now: u64)
        requires
            old(self)@.wf(),
            old(self)@.can_schedule(now),
        ensures
            final(self)@.wf(),
            rescheduled(old(self)@, final(self)@, now),
    {
        match self.period {
            None => {}
            Some(p) => {
                let off = sample_ppm_offset(self.bias_ppm);
                let factor = (PPM_SCALE as i64 + off) as u64;
                proof {
                    let bi = self.bias_ppm as int;
                    let pi = p as int;
                    let fi = factor as int;
                    assert(PPM_SCALE - bi <= fi <= PPM_SCALE + bi);
                    assert(pi * fi <= u64::MAX * 2_000_000) by (nonlinear_arith)
                        requires
                            0 <= pi <= u64::MAX,
                            0 <= fi <= 2_000_000,
                    ;
                    assert(pi * (PPM_SCALE - bi) <= pi * fi <= pi * (PPM_SCALE + bi))
                        by (nonlinear_arith)
                        requires
                            0 <= pi,
                            PPM_SCALE - bi <= fi <= PPM_SCALE + bi,
                    ;
                    lemma_div_is_ordered(
                        pi * (PPM_SCALE - bi),
                        pi * fi,
                        PPM_SCALE as int,
                    );
                    lemma_div_is_ordered(
                        pi * fi,
                        pi * (PPM_SCALE + bi),
                        PPM_SCALE as int,
                    );
                    if bi == 0 {
                        lemma_div_multiples_vanish(pi, PPM_SCALE as int);
                        assert(pi * fi == (PPM_SCALE as int) * pi) by (nonlinear_arith)
                            requires
                                fi == PPM_SCALE as int,
                        ;
                    }
                }
                let prod = (p as u128) * (factor as u128);
                let eff = (prod / (PPM_SCALE as u128)) as u64;
                self.next_at = Some(now + eff);
            }
        }
    }

    /// Arms the deadline if a period is configured and none is armed yet;
    /// idempotent otherwise, keeping the original deadline.
    pub fn start(&mut self, now: u64)
        requires
            old(self)@.wf(),
            old(self)@.deadline is None ==> old(self)@.can_schedule(now),
        ensures
            final(self)@.wf(),
            (old(self)@.period is None || old(self)@.deadline is Some) ==> final(self)@ == old(
                self,
            )@,
            (old(self)@.period is Some && old(self)@.deadline is None) ==> rescheduled(
                old(self)@,
                final(self)@,
                now,
            ),
    {
        if self.period.is_some() && self.next_at.is_none() {
            self.reschedule(now);
        }
    }

    /// True iff a deadline is armed and `now` is at or past it.
    pub fn reached(&self, now: u64) -> (r: bool)
        ensures
            r == self@.reached_at(now),
    {
        match self.next_at {
            Some(next_at) => now >= next_at,
            None => false,
        }
    }

    /// Time remaining until the armed deadline, floored at zero; `None` when
    /// no deadline is armed.
    pub fn time_left(&self, now: u64) -> (r: Option<u64>)
        ensures
            r == self@.time_left_at(now),
    {
        match self.next_at {
            Some(next_at) => if now >= next_at {
                Some(0)
            } else {
                Some(next_at - now)
            },
            None => None,
        }
    }
}

impl Default for Ticks {
    /// The default scheduler has no period, no bias and no armed deadline.
    fn default() -> (r: Self)
        ensures
            r@ == (TicksView { period: None::<u64>, bias_ppm: 0u64, deadline: None::<u64> }),
    {
        Ticks::new()
    }
}

/// Law: a deadline armed at `armed_at` for one exact period `p` is not
/// reached at `armed_at` itself, and is reached at every instant at or past
/// `armed_at + p`.
pub proof fn lemma_time_trigger(t: TicksView, armed_at: u64, p: u64)
    requires
        p > 0,
        armed_at + p <= u64::MAX,
        t.deadline == Some((armed_at + p) as u64),
    ensures
        !t.reached_at(armed_at),
        forall|m: u64| armed_at + p <= m ==> t.reached_at(m),
{
}

} // verus!
