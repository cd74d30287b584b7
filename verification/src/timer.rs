//! Periodic soft timers: a deadline compared against a tick count, polled
//! rather than interrupt-driven.

use vstd::arithmetic::div_mod::{
    lemma_div_is_ordered,
    lemma_div_plus_one,
    lemma_fundamental_div_mod,
    lemma_fundamental_div_mod_converse,
    lemma_mod_bound,
};
use vstd::prelude::*;

verus! {

/// Why a timer could not be started.
#[derive(Clone, Copy, Debug, PartialEq, Eq, Structural)]
pub enum TimerError {
    /// The period was zero ticks.
    ZeroPeriod,
}

/// Mathematical model of a periodic timer. Its boundaries lie at
/// `origin + k * period` for `k = 1, 2, ...`; `seen` counts the boundaries
/// that polls have already reported or skipped.
pub struct TimerModel {
    pub period: nat,
    pub origin: nat,
    pub seen: nat,
}

impl TimerModel {
    /// A timer has a period of at least one tick.
    pub open spec fn wf(self) -> bool {
        self.period > 0
    }

    /// A timer started at tick `origin` that has not been polled yet.
    pub open spec fn started(period: nat, origin: nat) -> TimerModel {
        TimerModel { period, origin, seen: 0 }
    }

    /// The first boundary that no poll has reported yet.
    pub open spec fn deadline(self) -> nat {
        self.origin + (self.seen + 1) * self.period
    }

    /// Whether a poll at tick `now` finds the timer due.
    pub open spec fn is_due(self, now: nat) -> bool {
        now >= self.deadline()
    }

    /// The number of boundaries that lie at or before tick `now`.
    pub open spec fn periods_elapsed(self, now: nat) -> nat {
        if now >= self.origin {
            (now - self.origin) as nat / self.period
        } else {
            0
        }
    }

    /// The timer after a poll at tick `now`. A due timer re-arms itself for
    /// the first boundary after `now`: boundaries that passed between two
    /// polls are reported once, together.
    pub open spec fn polled(self, now: nat) -> TimerModel {
        if self.is_due(now) {
            TimerModel { seen: self.periods_elapsed(now), ..self }
        } else {
            self
        }
    }

    /// The timer after one poll at each of `times`, in order.
    pub open spec fn after_polls(self, times: Seq<nat>) -> TimerModel
        decreases times.len(),
    {
        if times.len() == 0 {
            self
        } else {
            self.after_polls(times.drop_last()).polled(times.last())
        }
    }

    /// How many of the polls at `times`, taken in order, find the timer due.
    pub open spec fn due_count(self, times: Seq<nat>) -> nat
        decreases times.len(),
    {
        if times.len() == 0 {
            0
        } else {
            let earlier = self.due_count(times.drop_last());
            if self.after_polls(times.drop_last()).is_due(times.last()) {
                earlier + 1
            } else {
                earlier
            }
        }
    }
}

/// The ticks `origin + 1, origin + 2, ..., origin + n`.
pub open spec fn consecutive_ticks(origin: nat, n: nat) -> Seq<nat> {
    Seq::new(n, |k: int| (origin + k + 1) as nat)
}

/// A periodic timer that is polled against a tick count supplied by the
/// caller. It never reads a clock itself, so the same sequence of tick
/// counts always gives the same sequence of answers.
pub struct SoftTimer {
    period: u64,
    origin: u64,
    seen: u64,
}

impl View for SoftTimer {
    type V = TimerModel;

    closed spec fn view(&self) -> TimerModel {
        TimerModel { period: self.period as nat, origin: self.origin as nat, seen: self.seen as nat }
    }
}

impl SoftTimer {
    #[verifier::type_invariant]
    spec fn positive_period(&self) -> bool {
        self.period > 0
    }

    /// Starts a timer at tick `now` that comes due every `period` ticks.
    /// A period of zero is refused.
    pub fn start(period: u64, now: u64) -> (outcome: Result<SoftTimer, TimerError>)
        ensures
            period == 0 ==> outcome == Err::<SoftTimer, TimerError>(TimerError::ZeroPeriod),
            period > 0 ==> outcome is Ok && outcome->Ok_0@ == TimerModel::started(
                period as nat,
                now as nat,
            ),
    {
        if period == 0 {
            Err(TimerError::ZeroPeriod)
        } else {
            Ok(SoftTimer { period, origin: now, seen: 0 })
        }
    }

    /// The period in ticks.
    pub fn period(&self) -> (p: u64)
        ensures
            p == self@.period,
            p > 0,
    {
        proof {
            use_type_invariant(self);
        }
        self.period
    }

    /// Polls the timer at tick `now`. Returns whether it is due, and if so
    /// re-arms it for the first boundary after `now`.
    pub fn poll(&mut self, now: u64) -> (due: bool)
        ensures
            due == old(self)@.is_due(now as nat),
            final(self)@ == old(self)@.polled(now as nat),
            final(self)@.wf(),
        no_unwind
    {
        proof {
            use_type_invariant(&*self);
            lemma_due_iff_boundary_passed(self@, now as nat);
        }
        if now < self.origin {
            return false;
        }
        let elapsed: u64 = (now - self.origin) / self.period;
        if elapsed > self.seen {
            self.seen = elapsed;
            true
        } else {
            false
        }
    }
}

/// For a positive divisor, the quotient exceeds `s` exactly when the
/// dividend reaches `(s + 1) * p`.
proof fn lemma_quotient_exceeds(d: nat, p: nat, s: nat)
    requires
        p > 0,
    ensures
        (d / p > s) <==> d >= (s + 1) * p,
{
    lemma_fundamental_div_mod(d as int, p as int);
    lemma_mod_bound(d as int, p as int);
    let q = d as int / p as int;
    let r = d as int % p as int;
    assert((q > s) <==> d >= (s + 1) * p) by (nonlinear_arith)
        requires
            d == p * q + r,
            0 <= r < p,
            0 < p,
            0 <= s,
    ;
}

/// A timer is due at `now` exactly when more boundaries have passed than
/// polls have seen.
pub proof fn lemma_due_iff_boundary_passed(timer: TimerModel, now: nat)
    requires
        timer.wf(),
    ensures
        timer.is_due(now) <==> timer.periods_elapsed(now) > timer.seen,
{
    if now >= timer.origin {
        lemma_quotient_exceeds((now - timer.origin) as nat, timer.period, timer.seen);
    } else {
        assert((timer.seen + 1) * timer.period >= 1) by (nonlinear_arith)
            requires
                timer.period > 0,
                timer.seen >= 0,
        ;
    }
}

/// A poll leaves period and origin alone and never lowers `seen`. It raises
/// `seen` to the number of boundaries that have passed, which is at least
/// one more than before exactly when the timer is due.
pub proof fn lemma_poll_advances(timer: TimerModel, now: nat)
    requires
        timer.wf(),
    ensures
        timer.polled(now).period == timer.period,
        timer.polled(now).origin == timer.origin,
        timer.polled(now).wf(),
        timer.is_due(now) ==> timer.polled(now).seen == timer.periods_elapsed(now)
            && timer.polled(now).seen > timer.seen,
        !timer.is_due(now) ==> timer.polled(now).seen == timer.seen && timer.periods_elapsed(now)
            <= timer.seen,
{
    lemma_due_iff_boundary_passed(timer, now);
}

/// Polls leave period and origin alone.
pub proof fn lemma_polls_keep_period(timer: TimerModel, times: Seq<nat>)
    requires
        timer.wf(),
    ensures
        timer.after_polls(times).period == timer.period,
        timer.after_polls(times).origin == timer.origin,
        timer.after_polls(times).wf(),
        timer.after_polls(times).seen >= timer.seen,
    decreases times.len(),
{
    if times.len() > 0 {
        lemma_polls_keep_period(timer, times.drop_last());
        lemma_poll_advances(timer.after_polls(times.drop_last()), times.last());
    }
}

/// Later ticks have no fewer boundaries behind them, and a tick at most one
/// period later has at most one boundary more.
proof fn lemma_periods_elapsed_grows_slowly(timer: TimerModel, a: nat, b: nat)
    requires
        timer.wf(),
        a <= b,
    ensures
        timer.periods_elapsed(a) <= timer.periods_elapsed(b),
        b <= a + timer.period ==> timer.periods_elapsed(b) <= timer.periods_elapsed(a) + 1,
{
    let p = timer.period as int;
    let o = timer.origin as int;
    if b >= o {
        if a >= o {
            lemma_div_is_ordered(a - o, b - o, p);
            if b <= a + p {
                lemma_div_is_ordered(b - o, a - o + p, p);
                lemma_div_plus_one(a - o, p);
            }
        } else {
            lemma_div_is_ordered(0, b - o, p);
            if b <= a + p {
                lemma_div_is_ordered(b - o, p, p);
                vstd::arithmetic::div_mod::lemma_div_by_self(p);
            }
        }
    }
}

/// Moving one tick forward adds a boundary exactly at multiples of the
/// period.
proof fn lemma_quotient_step(i: nat, p: nat)
    requires
        i >= 1,
        p > 0,
    ensures
        i % p == 0 ==> i / p == (i - 1) as nat / p + 1,
        i % p != 0 ==> i / p == (i - 1) as nat / p,
{
    let q = i as int / p as int;
    let r = i as int % p as int;
    lemma_fundamental_div_mod(i as int, p as int);
    lemma_mod_bound(i as int, p as int);
    if r == 0 {
        assert(i - 1 == (q - 1) * p + (p - 1)) by (nonlinear_arith)
            requires
                i == p * q + r,
                r == 0,
        ;
        lemma_fundamental_div_mod_converse(i - 1, p as int, q - 1, p - 1);
    } else {
        assert(i - 1 == q * p + (r - 1)) by (nonlinear_arith)
            requires
                i == p * q + r,
        ;
        lemma_fundamental_div_mod_converse(i - 1, p as int, q, r - 1);
    }
}

/// A timer that is polled at every tick since it was started has seen
/// exactly the boundaries that have passed.
proof fn lemma_seen_after_consecutive_ticks(period: nat, origin: nat, n: nat)
    requires
        period > 0,
    ensures
        TimerModel::started(period, origin).after_polls(consecutive_ticks(origin, n))
            == (TimerModel { period, origin, seen: n / period }),
    decreases n,
{
    let fresh = TimerModel::started(period, origin);
    if n == 0 {
        vstd::arithmetic::div_mod::lemma_div_of0(period as int);
    } else {
        let earlier = consecutive_ticks(origin, (n - 1) as nat);
        assert(consecutive_ticks(origin, n).drop_last() =~= earlier);
        assert(consecutive_ticks(origin, n).last() == origin + n);
        lemma_seen_after_consecutive_ticks(period, origin, (n - 1) as nat);
        let before = fresh.after_polls(earlier);
        lemma_due_iff_boundary_passed(before, origin + n);
        lemma_quotient_step(n, period);
        assert(before.periods_elapsed(origin + n) == n / period);
    }
}

/// Periodicity: a timer started at `origin` and polled at every tick comes
/// due at the `i`-th tick after `origin` exactly when `i` is a multiple of
/// its period.
pub proof fn lemma_due_once_per_period(period: nat, origin: nat, i: nat)
    requires
        period > 0,
        i >= 1,
    ensures
        TimerModel::started(period, origin).after_polls(
            consecutive_ticks(origin, (i - 1) as nat),
        ).is_due(origin + i) <==> i % period == 0,
{
    lemma_seen_after_consecutive_ticks(period, origin, (i - 1) as nat);
    let before = TimerModel::started(period, origin).after_polls(
        consecutive_ticks(origin, (i - 1) as nat),
    );
    lemma_due_iff_boundary_passed(before, origin + i);
    lemma_quotient_step(i, period);
    assert(before.periods_elapsed(origin + i) == i / period);
}

/// Upper bound on the cadence: however the polls are spaced, a timer comes
/// due at most once for each boundary that has passed. If no poll is later
/// than `horizon`, the due polls number at most the boundaries up to
/// `horizon` that were not seen before.
pub proof fn lemma_due_at_most_once_per_period(timer: TimerModel, times: Seq<nat>, horizon: nat)
    requires
        timer.wf(),
        forall|k: int| 0 <= k < times.len() ==> times[k] <= horizon,
    ensures
        timer.seen + timer.due_count(times) <= timer.after_polls(times).seen,
        timer.after_polls(times).seen <= timer.seen || timer.after_polls(times).seen
            <= timer.periods_elapsed(horizon),
    decreases times.len(),
{
    if times.len() > 0 {
        let earlier = times.drop_last();
        lemma_due_at_most_once_per_period(timer, earlier, horizon);
        lemma_polls_keep_period(timer, earlier);
        let before = timer.after_polls(earlier);
        lemma_poll_advances(before, times.last());
        lemma_periods_elapsed_grows_slowly(timer, times.last(), horizon);
        assert(before.periods_elapsed(times.last()) == timer.periods_elapsed(times.last()));
    }
}

/// Cadence under jitter: if the first poll comes before a second boundary
/// has passed unseen, and no poll comes more than one period after the poll
/// before it, then no boundary is missed. The due polls number exactly the
/// boundaries that have passed by the last poll and were not seen before,
/// whatever the spacing of the polls within these limits.
pub proof fn lemma_no_period_missed(timer: TimerModel, times: Seq<nat>)
    requires
        timer.wf(),
        times.len() > 0,
        timer.periods_elapsed(times[0]) <= timer.seen + 1,
        forall|k: int|
            0 < k < times.len() ==> times[k - 1] <= #[trigger] times[k] <= times[k - 1]
                + timer.period,
    ensures
        timer.periods_elapsed(times.last()) >= timer.seen ==> timer.seen + timer.due_count(times)
            == timer.periods_elapsed(times.last()),
        timer.periods_elapsed(times.last()) < timer.seen ==> timer.due_count(times) == 0,
        timer.after_polls(times).seen == timer.seen + timer.due_count(times),
    decreases times.len(),
{
    let earlier = times.drop_last();
    let now = times.last();
    lemma_polls_keep_period(timer, earlier);
    let before = timer.after_polls(earlier);
    lemma_poll_advances(before, now);
    assert(before.periods_elapsed(now) == timer.periods_elapsed(now));
    if times.len() == 1 {
        assert(earlier.len() == 0);
        assert(before == timer);
        assert(timer.due_count(earlier) == 0);
    } else {
        assert(earlier[0] == times[0]);
        assert forall|k: int| 0 < k < earlier.len() implies earlier[k - 1] <= #[trigger] earlier[k]
            <= earlier[k - 1] + timer.period by {
            assert(earlier[k] == times[k]);
            assert(earlier[k - 1] == times[k - 1]);
        }
        lemma_no_period_missed(timer, earlier);
        let last_index = times.len() - 1;
        assert(earlier.last() == times[last_index - 1]);
        assert(times[last_index - 1] <= times[last_index]);
        lemma_periods_elapsed_grows_slowly(timer, earlier.last(), now);
    }
}

} // verus!
