use vstd::arithmetic::div_mod::{lemma_fundamental_div_mod, lemma_fundamental_div_mod_converse};
use vstd::prelude::*;

verus! {

/// How many period boundaries a repeating timer with `period`, having run
/// `elapsed` into its current period, crosses when `delta` more passes.
pub open spec fn fired(period: nat, elapsed: nat, delta: nat) -> nat
    recommends
        period > 0,
{
    (elapsed + delta) / period
}

/// How far into its period a repeating timer is after `delta` more passes.
pub open spec fn carried(period: nat, elapsed: nat, delta: nat) -> nat
    recommends
        period > 0,
{
    (elapsed + delta) % period
}

/// The total time of a run of ticks.
pub open spec fn total(deltas: Seq<nat>) -> nat
    decreases deltas.len(),
{
    if deltas.len() == 0 {
        0
    } else {
        deltas[0] + total(deltas.drop_first())
    }
}

/// How many times a repeating timer fires over a run of ticks, each tick
/// firing as `GlobalTimer::tick` says and carrying its rest to the next.
pub open spec fn fired_over(period: nat, elapsed: nat, deltas: Seq<nat>) -> nat
    decreases deltas.len(),
{
    if deltas.len() == 0 {
        0
    } else {
        fired(period, elapsed, deltas[0]) + fired_over(
            period,
            carried(period, elapsed, deltas[0]),
            deltas.drop_first(),
        )
    }
}

/// Over any run of ticks, the timer fires once for each period boundary that
/// the run's total time crosses: however the time is cut into ticks, no
/// boundary fires twice and none is skipped. In particular a run whose total
/// crosses exactly one boundary fires exactly once.
pub proof fn lemma_fires_once_per_boundary(period: nat, elapsed: nat, deltas: Seq<nat>)
    requires
        period > 0,
        elapsed < period,
    ensures
        fired_over(period, elapsed, deltas) == (elapsed + total(deltas)) / period,
    decreases deltas.len(),
{
    if deltas.len() == 0 {
        lemma_fundamental_div_mod_converse(elapsed as int, period as int, 0, elapsed as int);
    } else {
        let d = deltas[0];
        let rest = deltas.drop_first();
        let f = fired(period, elapsed, d);
        let c = carried(period, elapsed, d);
        lemma_fundamental_div_mod((elapsed + d) as int, period as int);
        assert(c < period) by {
            vstd::arithmetic::div_mod::lemma_mod_pos_bound((elapsed + d) as int, period as int);
        }
        lemma_fires_once_per_boundary(period, c, rest);
        let t = total(rest);
        let g = (c + t) / period;
        let h = (c + t) % period;
        lemma_fundamental_div_mod((c + t) as int, period as int);
        vstd::arithmetic::div_mod::lemma_mod_pos_bound((c + t) as int, period as int);
        assert(elapsed + d + t == (f + g) * period + h) by (nonlinear_arith)
            requires
                elapsed + d == period * f + c,
                c + t == period * g + h,
        ;
        lemma_fundamental_div_mod_converse(
            (elapsed + total(deltas)) as int,
            period as int,
            (f + g) as int,
            h as int,
        );
    }
}

/// The repeating timer that schedules new questions: it fires once for each
/// period boundary that time crosses. All times are in milliseconds.
#[derive(Debug, Clone, Copy, PartialEq, Eq, Structural)]
pub struct GlobalTimer {
    period_ms: u64,
    elapsed_ms: u64,
}

impl GlobalTimer {
    /// The length of one period.
    pub closed spec fn period(self) -> nat {
        self.period_ms as nat
    }

    /// How far the timer is into its current period.
    pub closed spec fn elapsed(self) -> nat {
        self.elapsed_ms as nat
    }

    pub open spec fn wf(self) -> bool {
        0 < self.period() && self.elapsed() < self.period()
    }

    /// A timer at the start of its first period.
    pub fn new(period_ms: u64) -> (r: GlobalTimer)
        requires
            period_ms > 0,
        ensures
            r.wf(),
            r.period() == period_ms,
            r.elapsed() == 0,
    {
        GlobalTimer { period_ms, elapsed_ms: 0 }
    }

    pub fn period_ms(&self) -> (r: u64)
        ensures
            r == self.period(),
    {
        self.period_ms
    }

    pub fn elapsed_ms(&self) -> (r: u64)
        ensures
            r == self.elapsed(),
    {
        self.elapsed_ms
    }

    /// How many times the timer would fire if `delta_ms` passed now.
    pub fn due(&self, delta_ms: u64) -> (r: u64)
        requires
            self.wf(),
        ensures
            r == fired(self.period(), self.elapsed(), delta_ms as nat),
    {
        let (count, _) = self.step(delta_ms);
        count
    }

    /// Lets `delta_ms` pass; returns how many period boundaries were crossed.
    pub fn tick(&mut self, delta_ms: u64) -> (r: u64)
        requires
            old(self).wf(),
        ensures
            final(self).wf(),
            final(self).period() == old(self).period(),
            final(self).elapsed() == carried(old(self).period(), old(self).elapsed(), delta_ms as nat),
            r == fired(old(self).period(), old(self).elapsed(), delta_ms as nat),
    {
        let (count, rest) = self.step(delta_ms);
        self.elapsed_ms = rest;
        count
    }

    /// The number of boundaries crossed and the new position in the period,
    /// computed without overflow.
    fn step(&self, delta_ms: u64) -> (r: (u64, u64))
        requires
            self.wf(),
        ensures
            r.0 == fired(self.period(), self.elapsed(), delta_ms as nat),
            r.1 == carried(self.period(), self.elapsed(), delta_ms as nat),
            r.1 < self.period(),
    {
        let p = self.period_ms;
        let e = self.elapsed_ms;
        let q = delta_ms / p;
        let r = delta_ms % p;
        proof {
            lemma_fundamental_div_mod(delta_ms as int, p as int);
            assert(delta_ms == q * p + r) by (nonlinear_arith)
                requires
                    delta_ms == p * (delta_ms / p) + delta_ms % p,
                    q == delta_ms / p,
                    r == delta_ms % p,
            ;
        }
        let room = p - e;
        if r >= room {
            proof {
                if p >= 2 {
                    assert(q * p >= 2 * q) by (nonlinear_arith)
                        requires
                            p >= 2,
                            q >= 0,
                    ;
                }
                assert((q + 1) * p == q * p + p) by (nonlinear_arith);
                lemma_fundamental_div_mod_converse(
                    (e + delta_ms) as int,
                    p as int,
                    q + 1,
                    (r - room) as int,
                );
            }
            (q + 1, r - room)
        } else {
            proof {
                lemma_fundamental_div_mod_converse(
                    (e + delta_ms) as int,
                    p as int,
                    q as int,
                    (e + r) as int,
                );
            }
            (q, e + r)
        }
    }
}

/// The countdown of one question on screen, in milliseconds left.
#[derive(Debug, Clone, Copy, PartialEq, Eq, Structural)]
pub struct QuestionTimer(pub u64);

/// What is left of a countdown of `remaining` after `delta` passes: it stops
/// at zero.
pub open spec fn aged(remaining: nat, delta: nat) -> nat {
    if remaining > delta {
        (remaining - delta) as nat
    } else {
        0
    }
}

impl QuestionTimer {
    /// A countdown of `ttl_ms`.
    pub fn new(ttl_ms: u64) -> (r: QuestionTimer)
        ensures
            r.0 == ttl_ms,
    {
        QuestionTimer(ttl_ms)
    }

    /// Lets `delta_ms` pass.
    pub fn tick(&mut self, delta_ms: u64)
        ensures
            final(self).0 == aged(old(self).0 as nat, delta_ms as nat),
    {
        if self.0 > delta_ms {
            self.0 = self.0 - delta_ms;
        } else {
            self.0 = 0;
        }
    }

    /// Whether the countdown has run out.
    pub fn finished(&self) -> (r: bool)
        ensures
            r == (self.0 == 0),
    {
        self.0 == 0
    }
}

} // verus!
