//! What holds of every run of the simulated system: the heartbeat and the
//! foreground loop do not reach into each other's state, the foreground
//! loop keeps the cadence of its timers whatever the host does, and a busy
//! HID session never stalls it.

use crate::config::{KEY_EMIT_PERIOD_MS, SCAN_PERIOD_MS};
use crate::report::KeyEvent;
use crate::scheduler::{saturating_next, Action, SchedulerState};
use crate::sim::{
    count_where,
    heartbeats,
    keys_emitted,
    scan_advances,
    SessionScript,
    SimModel,
    TickReport,
    Turn,
};
use crate::timer::{
    consecutive_ticks,
    lemma_due_at_most_once_per_period,
    lemma_due_once_per_period,
    lemma_no_period_missed,
    TimerModel,
};
use vstd::prelude::*;

verus! {

/// State isolation, interrupt side: every firing of the heartbeat
/// interrupt inverts the LED exactly once, so that after `n` firings the
/// LED has its first level if `n` is even and the other level if `n` is
/// odd. A firing leaves the soft timers and the scheduler as they were.
pub proof fn lemma_led_inverts_once_per_firing(system: SimModel, n: nat)
    requires
        system.wf(),
    ensures
        system.after_firings(n).wf(),
        system.after_firings(n).board.led_high == if n % 2 == 0 {
            system.board.led_high
        } else {
            !system.board.led_high
        },
        n > 0 ==> system.after_firings(n).handler is Armed && !system.after_firings(
            n,
        ).board.timer_expired,
        system.after_firings(n).scheduler == system.scheduler,
        system.after_firings(n).key_clock == system.key_clock,
        system.after_firings(n).scan_clock == system.scan_clock,
        system.after_firings(n).heartbeat_clock == system.heartbeat_clock,
    decreases n,
{
    if n > 0 {
        lemma_led_inverts_once_per_firing(system, (n - 1) as nat);
    }
}

/// State isolation, foreground side: an iteration of the foreground loop
/// changes neither the LED nor the expiry flag, and never touches the
/// handoff cells, the interrupt handler or the heartbeat timer, whatever
/// the tick and whatever the HID session answers. The heartbeat timer
/// itself raises its flag without changing the LED.
pub proof fn lemma_foreground_cannot_reach_heartbeat(
    system: SimModel,
    now: nat,
    script: SessionScript,
)
    ensures
        system.iterate(now, script).0.board == system.board,
        system.iterate(now, script).0.led_cell == system.led_cell,
        system.iterate(now, script).0.timer_cell == system.timer_cell,
        system.iterate(now, script).0.handler == system.handler,
        system.iterate(now, script).0.heartbeat_clock == system.heartbeat_clock,
        system.clocked(now).board.led_high == system.board.led_high,
{
}

/// Preemption is harmless: because the interrupt and the foreground loop
/// work on disjoint state, a firing just before an iteration and a firing
/// just after it lead to the same system, and the iteration reports the
/// same either way.
pub proof fn lemma_interrupt_and_iteration_commute(
    system: SimModel,
    now: nat,
    script: SessionScript,
)
    ensures
        system.fired().iterate(now, script).0 == system.iterate(now, script).0.fired(),
        system.fired().iterate(now, script).1 == system.iterate(now, script).1,
{
}

/// A tick keeps the system well-formed.
pub proof fn lemma_tick_keeps_wf(system: SimModel, now: nat, script: SessionScript)
    requires
        system.wf(),
    ensures
        system.tick(now, script).0.wf(),
{
}

/// One more report adds one to a count exactly if it is of the wanted
/// kind.
proof fn lemma_count_one_more(
    trace: Seq<TickReport>,
    report: TickReport,
    wanted: spec_fn(TickReport) -> bool,
)
    ensures
        count_where(trace.push(report), wanted) == count_where(trace, wanted) + if wanted(report) {
            1nat
        } else {
            0nat
        },
{
    assert(trace.push(report).drop_last() =~= trace);
}

/// The heartbeat under any foreground load: over any run that starts with
/// the expiry flag cleared, the interrupt fires at exactly the ticks at
/// which the heartbeat timer is due, and the LED changes level once per
/// firing and at no other time. Neither the answers of the HID session nor
/// a halted scheduler make a difference.
pub proof fn lemma_heartbeat_follows_its_timer(
    system: SimModel,
    times: Seq<nat>,
    scripts: Seq<SessionScript>,
)
    requires
        system.wf(),
        !system.board.timer_expired,
    ensures
        system.replay(times, scripts).0.wf(),
        !system.replay(times, scripts).0.board.timer_expired,
        system.replay(times, scripts).0.heartbeat_clock == system.heartbeat_clock.after_polls(
            times,
        ),
        system.replay(times, scripts).1.len() == times.len(),
        heartbeats(system.replay(times, scripts).1) == system.heartbeat_clock.due_count(times),
        system.replay(times, scripts).0.board.led_high == if heartbeats(
            system.replay(times, scripts).1,
        ) % 2 == 0 {
            system.board.led_high
        } else {
            !system.board.led_high
        },
    decreases times.len(),
{
    if times.len() > 0 {
        lemma_heartbeat_follows_its_timer(system, times.drop_last(), scripts);
        let (prior, trace) = system.replay(times.drop_last(), scripts);
        let (after, report) = prior.tick(times.last(), scripts[times.len() - 1]);
        lemma_count_one_more(trace, report, |report: TickReport| report.heartbeat);
        assert(report.heartbeat == prior.heartbeat_clock.is_due(times.last()));
    }
}

/// The foreground loop follows its timers: over any run during which the
/// scan tick does not fail, every iteration completes, the test key is
/// submitted at exactly the ticks at which the key-emission timer is due,
/// and the scan tick is advanced at exactly the ticks at which the scan
/// timer is due. Whether the HID session takes the reports, whether the
/// bus has activity and what the host sends make no difference.
pub proof fn lemma_foreground_follows_its_timers(
    system: SimModel,
    times: Seq<nat>,
    scripts: Seq<SessionScript>,
)
    requires
        system.wf(),
        system.scheduler.pending == Action::PollKeyTimer,
        scripts.len() >= times.len(),
        forall|i: int| 0 <= i < times.len() ==> (#[trigger] scripts[i]).scan_tick_ok,
    ensures
        system.replay(times, scripts).0.wf(),
        system.replay(times, scripts).0.scheduler.pending == Action::PollKeyTimer,
        system.replay(times, scripts).0.key_clock == system.key_clock.after_polls(times),
        system.replay(times, scripts).0.scan_clock == system.scan_clock.after_polls(times),
        system.replay(times, scripts).1.len() == times.len(),
        forall|i: int|
            0 <= i < times.len() ==> (#[trigger] system.replay(times, scripts).1[i]).turn is Ok,
        keys_emitted(system.replay(times, scripts).1) == system.key_clock.due_count(times),
        scan_advances(system.replay(times, scripts).1) == system.scan_clock.due_count(times),
    decreases times.len(),
{
    if times.len() > 0 {
        lemma_foreground_follows_its_timers(system, times.drop_last(), scripts);
        let (prior, trace) = system.replay(times.drop_last(), scripts);
        let script = scripts[times.len() - 1];
        let (after, report) = prior.tick(times.last(), script);
        assert(script.scan_tick_ok);
        lemma_count_one_more(trace, report, |report: TickReport| report.emitted_key());
        lemma_count_one_more(trace, report, |report: TickReport| report.advanced_scan());
        assert(report.turn is Ok);
        assert(report.emitted_key() == prior.key_clock.is_due(times.last()));
        assert(report.advanced_scan() == prior.scan_clock.is_due(times.last()));
        let full = system.replay(times, scripts).1;
        assert(full == trace.push(report));
        assert forall|i: int| 0 <= i < times.len() implies (#[trigger] full[i]).turn is Ok by {
            if i < times.len() - 1 {
                assert(full[i] == trace[i]);
            }
        }
    }
}

/// The report of the tick with index `k` of a run is the report of one
/// tick from the state that the first `k` ticks of the run lead to.
pub proof fn lemma_report_of_tick(
    system: SimModel,
    times: Seq<nat>,
    scripts: Seq<SessionScript>,
    k: int,
)
    requires
        0 <= k < times.len(),
    ensures
        system.replay(times, scripts).1.len() == times.len(),
        system.replay(times, scripts).1[k] == system.replay(times.take(k), scripts).0.tick(
            times[k],
            scripts[k],
        ).1,
    decreases times.len(),
{
    lemma_replay_length(system, times.drop_last(), scripts);
    if k == times.len() - 1 {
        assert(times.take(k) =~= times.drop_last());
    } else {
        lemma_report_of_tick(system, times.drop_last(), scripts, k);
        assert(times.drop_last().take(k) =~= times.take(k));
    }
}

/// A run reports once per tick.
proof fn lemma_replay_length(system: SimModel, times: Seq<nat>, scripts: Seq<SessionScript>)
    ensures
        system.replay(times, scripts).1.len() == times.len(),
    decreases times.len(),
{
    if times.len() > 0 {
        lemma_replay_length(system, times.drop_last(), scripts);
    }
}

/// Periodicity of the key emission: when the system runs one iteration
/// per millisecond from the tick at which its key-emission timer was
/// started, the iteration with number `i`, counted from one, submits the
/// test key if `i` is a multiple of a thousand and no event otherwise.
pub proof fn lemma_key_every_thousandth_iteration(
    system: SimModel,
    start: nat,
    n: nat,
    scripts: Seq<SessionScript>,
    i: nat,
)
    requires
        system.wf(),
        system.scheduler.pending == Action::PollKeyTimer,
        system.key_clock == TimerModel::started(KEY_EMIT_PERIOD_MS as nat, start),
        scripts.len() >= n,
        forall|k: int| 0 <= k < n ==> (#[trigger] scripts[k]).scan_tick_ok,
        1 <= i <= n,
    ensures
        system.replay(consecutive_ticks(start, n), scripts).1[i - 1].turn is Ok,
        system.replay(consecutive_ticks(start, n), scripts).1[i - 1].turn->Ok_0.key == if i % 1000
            == 0 {
            KeyEvent::TestSymbol
        } else {
            KeyEvent::NoEvent
        },
{
    let times = consecutive_ticks(start, n);
    let earlier = consecutive_ticks(start, (i - 1) as nat);
    lemma_report_of_tick(system, times, scripts, i - 1);
    assert(times.take(i - 1) =~= earlier);
    assert(times[i - 1] == start + i);
    lemma_foreground_follows_its_timers(system, earlier, scripts);
    lemma_due_once_per_period(KEY_EMIT_PERIOD_MS as nat, start, i);
    assert(scripts[i - 1].scan_tick_ok);
}

/// Cadence of the scan tick under jitter: if the first iteration comes no
/// later than one millisecond after the scan timer was started, and no
/// iteration comes more than one millisecond after the one before it, the
/// scan tick is advanced exactly once for each millisecond that has
/// passed, however the iterations are spaced within these limits and
/// whatever the bus does.
pub proof fn lemma_scan_once_per_millisecond(
    system: SimModel,
    start: nat,
    times: Seq<nat>,
    scripts: Seq<SessionScript>,
)
    requires
        system.wf(),
        system.scheduler.pending == Action::PollKeyTimer,
        system.scan_clock == TimerModel::started(SCAN_PERIOD_MS as nat, start),
        scripts.len() >= times.len(),
        forall|k: int| 0 <= k < times.len() ==> (#[trigger] scripts[k]).scan_tick_ok,
        times.len() > 0,
        start <= times[0] <= start + 1,
        forall|k: int| 0 < k < times.len() ==> times[k - 1] <= #[trigger] times[k] <= times[k - 1] + 1,
    ensures
        times.last() >= start,
        scan_advances(system.replay(times, scripts).1) == times.last() - start,
{
    lemma_foreground_follows_its_timers(system, times, scripts);
    lemma_no_period_missed(system.scan_clock, times);
    lemma_rising(times, times.len() - 1);
}

/// The entries of a sequence in which no entry is below the one before it
/// are all at least the first one.
proof fn lemma_rising(times: Seq<nat>, k: int)
    requires
        0 <= k < times.len(),
        forall|j: int| 0 < j < times.len() ==> times[j - 1] <= #[trigger] times[j],
    ensures
        times[0] <= times[k],
    decreases k,
{
    if k > 0 {
        lemma_rising(times, k - 1);
    }
}

/// Upper bound on the cadence of the scan tick: however late or early the
/// iterations come, the scan tick is never advanced more often than once
/// for each millisecond that has passed since the scan timer was started.
pub proof fn lemma_scan_at_most_once_per_millisecond(
    system: SimModel,
    start: nat,
    times: Seq<nat>,
    scripts: Seq<SessionScript>,
    horizon: nat,
)
    requires
        system.wf(),
        system.scheduler.pending == Action::PollKeyTimer,
        system.scan_clock == TimerModel::started(SCAN_PERIOD_MS as nat, start),
        scripts.len() >= times.len(),
        forall|k: int| 0 <= k < times.len() ==> (#[trigger] scripts[k]).scan_tick_ok,
        forall|k: int| 0 <= k < times.len() ==> times[k] <= horizon,
        start <= horizon,
    ensures
        scan_advances(system.replay(times, scripts).1) <= horizon - start,
{
    lemma_foreground_follows_its_timers(system, times, scripts);
    lemma_due_at_most_once_per_period(system.scan_clock, times, horizon);
}

/// A busy HID session never stalls the loop: an iteration whose report the
/// session does not take completes exactly as one whose report it takes.
/// It polls the same timers, advances the scan tick and services the bus in
/// the same way, and leaves the scheduler at the start of the next
/// iteration, which submits again. Only the counter of rejected reports
/// and the iteration's own record of the refusal tell the two apart.
pub proof fn lemma_busy_session_never_stalls(system: SimModel, now: nat, script: SessionScript)
    requires
        system.wf(),
        system.scheduler.pending == Action::PollKeyTimer,
    ensures
        ({
            let busy = system.iterate(now, SessionScript { accepts_report: false, ..script });
            let free = system.iterate(now, SessionScript { accepts_report: true, ..script });
            &&& busy.1 is Ok <==> free.1 is Ok
            &&& busy.1 is Ok <==> !(system.scan_clock.is_due(now) && !script.scan_tick_ok)
            &&& busy.1 is Ok ==> busy.0.scheduler.pending == Action::PollKeyTimer
            &&& busy.1 is Ok ==> busy.1->Ok_0 == (Turn { report_accepted: false, ..free.1->Ok_0 })
            &&& busy.1 is Err ==> busy.1 == free.1
            &&& busy.0 == (SimModel {
                scheduler: SchedulerState {
                    rejected_reports: saturating_next(system.scheduler.rejected_reports),
                    ..free.0.scheduler
                },
                ..free.0
            })
        }),
{
}

} // verus!
