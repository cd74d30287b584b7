//! Deterministic simulation of the firmware on a board whose time is a
//! tick count supplied by the caller, one tick per millisecond.
//!
//! The simulation owns the same handoff cells, interrupt handler and
//! scheduler that the firmware uses. Soft timers stand in for the hardware
//! timers, two registers for the LED pin and the heartbeat timer's expiry
//! flag, and a script for the answers of the HID session.

use crate::config::{HEARTBEAT_PERIOD_MS, KEY_EMIT_PERIOD_MS, SCAN_PERIOD_MS};
use crate::handoff::{CellState, SharedCell};
use crate::heartbeat::{Heartbeat, HeartbeatState};
use crate::report::{KeyEvent, LedReportState};
use crate::scheduler::{
    saturating_next,
    Action,
    Outcome,
    Scheduler,
    SchedulerError,
    SchedulerState,
};
use crate::timer::{consecutive_ticks, SoftTimer, TimerModel};
use vstd::prelude::*;

verus! {

/// The two registers of the simulated board that the heartbeat works on.
#[derive(Clone, Copy, Debug, PartialEq, Eq, Structural)]
pub struct Board {
    /// Logical output level of the LED pin.
    pub led_high: bool,
    /// Expiry flag of the heartbeat timer: raised by the timer, cleared by
    /// whoever acknowledges it.
    pub timer_expired: bool,
}

/// Handle of the simulated LED pin. Whoever holds it may change the pin.
pub struct SimLed {
    pin: u8,
}

/// Handle of the simulated heartbeat timer. Whoever holds it may clear the
/// expiry flag.
pub struct SimTimer {
    unit: u8,
}

impl SimLed {
    /// The one handle of the board's LED pin.
    pub closed spec fn handle() -> SimLed {
        SimLed { pin: 15 }
    }

    /// Inverts the output level of the pin.
    pub fn toggle(&mut self, board: &mut Board)
        ensures
            *final(self) == *old(self),
            *final(board) == (Board { led_high: !old(board).led_high, ..*old(board) }),
        no_unwind
    {
        board.led_high = !board.led_high;
    }
}

impl SimTimer {
    /// The one handle of the board's heartbeat timer.
    pub closed spec fn handle() -> SimTimer {
        SimTimer { unit: 2 }
    }

    /// Clears the expiry flag, so that the timer can raise it again at its
    /// next boundary.
    pub fn acknowledge(&mut self, board: &mut Board)
        ensures
            *final(self) == *old(self),
            *final(board) == (Board { timer_expired: false, ..*old(board) }),
        no_unwind
    {
        board.timer_expired = false;
    }
}

/// How the HID session answers during one iteration of the foreground
/// loop.
#[derive(Clone, Copy, Debug)]
pub struct SessionScript {
    /// Whether the session takes the submitted report.
    pub accepts_report: bool,
    /// Whether a scan tick succeeds.
    pub scan_tick_ok: bool,
    /// Whether a poll of the bus finds activity.
    pub bus_active: bool,
    /// The indicator report that a read finds, if any.
    pub indicators: Option<LedReportState>,
}

/// What one iteration of the foreground loop did.
#[derive(Clone, Copy, Debug, PartialEq, Eq, Structural)]
pub struct Turn {
    /// The event that was submitted as the outgoing report.
    pub key: KeyEvent,
    /// Whether the session took the report.
    pub report_accepted: bool,
    /// Whether the scan tick was advanced.
    pub scan_advanced: bool,
    /// Whether the bus had activity, so that the indicator report was read.
    pub bus_serviced: bool,
}

/// What one tick of simulated time did.
#[derive(Clone, Copy, Debug)]
pub struct TickReport {
    /// Whether the heartbeat interrupt fired.
    pub heartbeat: bool,
    /// What the foreground iteration did, or why it did nothing.
    pub turn: Result<Turn, SchedulerError>,
}

impl TickReport {
    /// Whether the iteration of this tick submitted the test key.
    pub open spec fn emitted_key(self) -> bool {
        self.turn matches Ok(turn) && turn.key == KeyEvent::TestSymbol
    }

    /// Whether the iteration of this tick advanced the scan tick.
    pub open spec fn advanced_scan(self) -> bool {
        self.turn matches Ok(turn) && turn.scan_advanced
    }
}

/// How many reports of `trace` satisfy `wanted`.
pub open spec fn count_where(trace: Seq<TickReport>, wanted: spec_fn(TickReport) -> bool) -> nat
    decreases trace.len(),
{
    if trace.len() == 0 {
        0
    } else {
        let earlier = count_where(trace.drop_last(), wanted);
        if wanted(trace.last()) {
            earlier + 1
        } else {
            earlier
        }
    }
}

/// How many ticks of `trace` submitted the test key.
pub open spec fn keys_emitted(trace: Seq<TickReport>) -> nat {
    count_where(trace, |report: TickReport| report.emitted_key())
}

/// How many ticks of `trace` advanced the scan tick.
pub open spec fn scan_advances(trace: Seq<TickReport>) -> nat {
    count_where(trace, |report: TickReport| report.advanced_scan())
}

/// How many ticks of `trace` fired the heartbeat interrupt.
pub open spec fn heartbeats(trace: Seq<TickReport>) -> nat {
    count_where(trace, |report: TickReport| report.heartbeat)
}

/// Counts over a run of the simulation.
#[derive(Clone, Copy, Debug, PartialEq, Eq, Structural)]
pub struct Totals {
    /// Ticks that submitted the test key.
    pub keys_emitted: usize,
    /// Ticks that advanced the scan tick.
    pub scan_advances: usize,
    /// Ticks that fired the heartbeat interrupt.
    pub heartbeats: usize,
}

/// The whole simulated system as a mathematical value.
pub struct SimModel {
    pub board: Board,
    pub heartbeat_clock: TimerModel,
    pub key_clock: TimerModel,
    pub scan_clock: TimerModel,
    pub led_cell: CellState<SimLed>,
    pub timer_cell: CellState<SimTimer>,
    pub handler: HeartbeatState<SimLed, SimTimer>,
    pub scheduler: SchedulerState,
}

impl SimModel {
    /// What holds of the system between any two steps: the timers run at
    /// their configured periods, the two handles are either both waiting in
    /// their cells or both owned by the interrupt handler, and the
    /// scheduler stands at the start of an iteration or has halted.
    pub open spec fn wf(self) -> bool {
        &&& self.heartbeat_clock.period == HEARTBEAT_PERIOD_MS
        &&& self.key_clock.period == KEY_EMIT_PERIOD_MS
        &&& self.scan_clock.period == SCAN_PERIOD_MS
        &&& self.handler is Armed || (self.led_cell is Populated && self.timer_cell is Populated)
        &&& self.scheduler.pending == Action::PollKeyTimer || self.scheduler.pending
            == Action::Halt
    }

    /// The system as initialization leaves it at tick `now`: all timers
    /// started, the LED lit, both handles published, the interrupt handler
    /// not yet fired, the scheduler before its first iteration.
    pub open spec fn powered_on(now: nat) -> SimModel {
        SimModel {
            board: Board { led_high: true, timer_expired: false },
            heartbeat_clock: TimerModel::started(HEARTBEAT_PERIOD_MS as nat, now),
            key_clock: TimerModel::started(KEY_EMIT_PERIOD_MS as nat, now),
            scan_clock: TimerModel::started(SCAN_PERIOD_MS as nat, now),
            led_cell: CellState::Populated(SimLed::handle()),
            timer_cell: CellState::Populated(SimTimer::handle()),
            handler: HeartbeatState::Uninitialized,
            scheduler: SchedulerState::initial(),
        }
    }

    /// The system after the heartbeat timer has looked at tick `now`: at a
    /// boundary it raises its expiry flag, which stays raised until it is
    /// acknowledged.
    pub open spec fn clocked(self, now: nat) -> SimModel {
        SimModel {
            board: Board {
                timer_expired: self.board.timer_expired || self.heartbeat_clock.is_due(now),
                ..self.board
            },
            heartbeat_clock: self.heartbeat_clock.polled(now),
            ..self
        }
    }

    /// The system after one firing of the heartbeat interrupt. The handler
    /// arms itself if it has not yet, inverts the LED and clears the expiry
    /// flag. Nothing else changes.
    pub open spec fn fired(self) -> SimModel {
        let (handler, led_cell, timer_cell, armed) = self.handler.arm(
            self.led_cell,
            self.timer_cell,
        );
        if armed is Ok {
            SimModel {
                board: Board { led_high: !self.board.led_high, timer_expired: false },
                handler,
                led_cell,
                timer_cell,
                ..self
            }
        } else {
            self
        }
    }

    /// The system after `n` firings of the heartbeat interrupt.
    pub open spec fn after_firings(self, n: nat) -> SimModel
        decreases n,
    {
        if n == 0 {
            self
        } else {
            self.after_firings((n - 1) as nat).fired()
        }
    }

    /// The system after one iteration of the foreground loop at tick `now`,
    /// and what the iteration reports.
    ///
    /// A halted scheduler does nothing. Otherwise the key-emission timer
    /// decides the event that is submitted, the scan timer decides whether
    /// the scan tick is advanced, and bus activity decides whether the
    /// indicator report is read. A failed scan tick halts the scheduler
    /// before the bus is polled. The board, the cells and the interrupt
    /// handler are out of the loop's reach.
    pub open spec fn iterate(self, now: nat, script: SessionScript) -> (
        SimModel,
        Result<Turn, SchedulerError>,
    ) {
        if self.scheduler.pending == Action::Halt {
            (self, Err(SchedulerError::Halted))
        } else {
            let scan_due = self.scan_clock.is_due(now);
            let faulted = scan_due && !script.scan_tick_ok;
            let submitted = SchedulerState {
                rejected_reports: if script.accepts_report {
                    self.scheduler.rejected_reports
                } else {
                    saturating_next(self.scheduler.rejected_reports)
                },
                ..self.scheduler
            };
            let scheduler = if faulted {
                SchedulerState { pending: Action::Halt, ..submitted }
            } else if !script.bus_active {
                submitted
            } else {
                match script.indicators {
                    Some(state) => SchedulerState { indicators: Some(state), ..submitted },
                    None => SchedulerState {
                        empty_reads: saturating_next(submitted.empty_reads),
                        ..submitted
                    },
                }
            };
            let turn = Turn {
                key: KeyEvent::emitted(self.key_clock.is_due(now)),
                report_accepted: script.accepts_report,
                scan_advanced: scan_due,
                bus_serviced: script.bus_active,
            };
            (
                SimModel {
                    key_clock: self.key_clock.polled(now),
                    scan_clock: self.scan_clock.polled(now),
                    scheduler,
                    ..self
                },
                if faulted {
                    Err(SchedulerError::ScanFault)
                } else {
                    Ok(turn)
                },
            )
        }
    }

    /// The system after one tick of simulated time, and what the tick
    /// reports: the heartbeat timer looks at the clock, the interrupt fires
    /// if the expiry flag is raised, and the foreground loop runs one
    /// iteration.
    pub open spec fn tick(self, now: nat, script: SessionScript) -> (SimModel, TickReport) {
        let clocked = self.clocked(now);
        let heartbeat = clocked.board.timer_expired;
        let serviced = if heartbeat {
            clocked.fired()
        } else {
            clocked
        };
        let (after, turn) = serviced.iterate(now, script);
        (after, TickReport { heartbeat, turn })
    }

    /// The system after one tick at each of `times`, in order, and the
    /// reports of these ticks. The tick with index `i` is answered as
    /// `scripts[i]` says.
    pub open spec fn replay(self, times: Seq<nat>, scripts: Seq<SessionScript>) -> (
        SimModel,
        Seq<TickReport>,
    )
        decreases times.len(),
    {
        if times.len() == 0 {
            (self, Seq::empty())
        } else {
            let (prior, trace) = self.replay(times.drop_last(), scripts);
            let (after, report) = prior.tick(times.last(), scripts[times.len() - 1]);
            (after, trace.push(report))
        }
    }
}

/// The simulated system.
pub struct Simulation {
    board: Board,
    heartbeat_clock: SoftTimer,
    key_clock: SoftTimer,
    scan_clock: SoftTimer,
    led_cell: SharedCell<SimLed>,
    timer_cell: SharedCell<SimTimer>,
    handler: Heartbeat<SimLed, SimTimer>,
    scheduler: Scheduler,
}

impl View for Simulation {
    type V = SimModel;

    closed spec fn view(&self) -> SimModel {
        SimModel {
            board: self.board,
            heartbeat_clock: self.heartbeat_clock@,
            key_clock: self.key_clock@,
            scan_clock: self.scan_clock@,
            led_cell: self.led_cell@,
            timer_cell: self.timer_cell@,
            handler: self.handler@,
            scheduler: self.scheduler@,
        }
    }
}

impl Simulation {
    #[verifier::type_invariant]
    spec fn well_formed(&self) -> bool {
        self@.wf()
    }

    /// The system as initialization leaves it at tick `now`.
    pub fn power_on(now: u64) -> (sim: Simulation)
        ensures
            sim@ == SimModel::powered_on(now as nat),
            sim@.wf(),
    {
        let heartbeat_clock = start_clock(HEARTBEAT_PERIOD_MS, now);
        let key_clock = start_clock(KEY_EMIT_PERIOD_MS, now);
        let scan_clock = start_clock(SCAN_PERIOD_MS, now);
        let mut led_cell = SharedCell::new();
        let mut timer_cell = SharedCell::new();
        let _ = led_cell.publish(SimLed { pin: 15 });
        let _ = timer_cell.publish(SimTimer { unit: 2 });
        Simulation {
            board: Board { led_high: true, timer_expired: false },
            heartbeat_clock,
            key_clock,
            scan_clock,
            led_cell,
            timer_cell,
            handler: Heartbeat::new(),
            scheduler: Scheduler::new(),
        }
    }

    /// The registers of the board.
    pub fn board(&self) -> (board: Board)
        ensures
            board == self@.board,
    {
        self.board
    }

    /// Whether the interrupt handler owns the LED and the timer.
    pub fn heartbeat_is_armed(&self) -> (armed: bool)
        ensures
            armed == (self@.handler is Armed),
    {
        self.handler.is_armed()
    }

    /// The scheduler of the foreground loop.
    pub fn scheduler(&self) -> (scheduler: &Scheduler)
        ensures
            scheduler@ == self@.scheduler,
    {
        &self.scheduler
    }

    /// Lets the heartbeat timer look at tick `now`. Returns whether the
    /// expiry flag is raised afterwards.
    pub fn clock_heartbeat(&mut self, now: u64) -> (expired: bool)
        ensures
            final(self)@ == old(self)@.clocked(now as nat),
            expired == final(self)@.board.timer_expired,
            final(self)@.wf(),
    {
        proof {
            use_type_invariant(&*self);
        }
        if self.heartbeat_clock.poll(now) {
            self.board.timer_expired = true;
        }
        self.board.timer_expired
    }

    /// Fires the heartbeat interrupt once.
    pub fn interrupt(&mut self)
        ensures
            final(self)@ == old(self)@.fired(),
            final(self)@.wf(),
    {
        proof {
            use_type_invariant(&*self);
        }
        // Either the handler is armed or both handles wait in their cells,
        // so arming cannot fail here.
        let _ = self.handler.arm(&mut self.led_cell, &mut self.timer_cell);
        match self.handler.handles_mut() {
            Some((led, timer)) => {
                led.toggle(&mut self.board);
                timer.acknowledge(&mut self.board);
            },
            None => {},
        }
    }

    /// Runs one iteration of the foreground loop at tick `now`: performs
    /// whatever the scheduler asks for, in the order in which it asks,
    /// until the scheduler starts over or refuses to go on.
    pub fn iterate(&mut self, now: u64, script: &SessionScript) -> (outcome: Result<
        Turn,
        SchedulerError,
    >)
        ensures
            (final(self)@, outcome) == old(self)@.iterate(now as nat, *script),
            final(self)@.wf(),
    {
        proof {
            use_type_invariant(&*self);
        }
        let ghost before = self@;
        if self.scheduler.is_halted() {
            return Err(SchedulerError::Halted);
        }
        let mut scheduler = Scheduler::new();
        core::mem::swap(&mut self.scheduler, &mut scheduler);
        let mut turn = Turn {
            key: KeyEvent::NoEvent,
            report_accepted: false,
            scan_advanced: false,
            bus_serviced: false,
        };
        let mut outcome: Result<Turn, SchedulerError> = Err(SchedulerError::Halted);
        let mut running = true;
        while running
            invariant
                before.wf(),
                before.scheduler.pending == Action::PollKeyTimer,
                self.board == before.board,
                self.heartbeat_clock@ == before.heartbeat_clock,
                self.led_cell@ == before.led_cell,
                self.timer_cell@ == before.timer_cell,
                self.handler@ == before.handler,
                self.scheduler@ == SchedulerState::initial(),
                running ==> in_progress(
                    before,
                    now as nat,
                    *script,
                    self.key_clock@,
                    self.scan_clock@,
                    scheduler@,
                    turn,
                ),
                !running ==> (
                    SimModel {
                        key_clock: self.key_clock@,
                        scan_clock: self.scan_clock@,
                        scheduler: scheduler@,
                        ..before
                    },
                    outcome,
                ) == before.iterate(now as nat, *script),
            decreases
                if running { 7 - scheduler@.pending.position() } else { 0 },
        {
            let report = match scheduler.pending() {
                Action::PollKeyTimer => Outcome::TimerPolled(self.key_clock.poll(now)),
                Action::SubmitReport(key) => {
                    turn.key = key;
                    turn.report_accepted = script.accepts_report;
                    Outcome::ReportSubmitted(script.accepts_report)
                },
                Action::PollScanTimer => Outcome::TimerPolled(self.scan_clock.poll(now)),
                Action::AdvanceScan => {
                    turn.scan_advanced = true;
                    Outcome::ScanAdvanced(script.scan_tick_ok)
                },
                Action::PollBus => {
                    turn.bus_serviced = script.bus_active;
                    Outcome::BusPolled(script.bus_active)
                },
                Action::ReadIndicators => Outcome::IndicatorsRead(script.indicators),
                Action::Halt => Outcome::BusPolled(false),
            };
            match scheduler.handle(report) {
                Err(fault) => {
                    outcome = Err(fault);
                    running = false;
                },
                Ok(Action::PollKeyTimer) => {
                    outcome = Ok(turn);
                    running = false;
                },
                Ok(_) => {},
            }
        }
        self.scheduler = scheduler;
        outcome
    }

    /// Advances the simulation by one tick of time: the heartbeat timer
    /// looks at the clock, the interrupt fires if the timer has expired,
    /// and the foreground loop runs one iteration.
    pub fn tick(&mut self, now: u64, script: &SessionScript) -> (report: TickReport)
        ensures
            (final(self)@, report) == old(self)@.tick(now as nat, *script),
            final(self)@.wf(),
    {
        let heartbeat = self.clock_heartbeat(now);
        if heartbeat {
            self.interrupt();
        }
        let turn = self.iterate(now, script);
        TickReport { heartbeat, turn }
    }

    /// Advances the simulation tick by tick from `from` to `to`: one tick
    /// at each of `from + 1, ..., to`, all answered as `script` says.
    /// Returns the reports of these ticks, in order. Does nothing if `to`
    /// is not after `from`.
    pub fn run(&mut self, from: u64, to: u64, script: &SessionScript) -> (trace: Vec<TickReport>)
        ensures
            (final(self)@, trace@) == old(self)@.replay(
                consecutive_ticks(from as nat, span(from as nat, to as nat)),
                Seq::new(span(from as nat, to as nat), |i: int| *script),
            ),
            final(self)@.wf(),
    {
        proof {
            use_type_invariant(&*self);
        }
        let ghost before = self@;
        let ghost scripts = Seq::new(span(from as nat, to as nat), |i: int| *script);
        let mut trace: Vec<TickReport> = Vec::new();
        let mut now: u64 = from;
        assert(consecutive_ticks(from as nat, 0) =~= Seq::<nat>::empty());
        while now < to
            invariant
                from <= now,
                now <= to || now == from,
                scripts == Seq::new(span(from as nat, to as nat), |i: int| *script),
                self@.wf(),
                (self@, trace@) == before.replay(
                    consecutive_ticks(from as nat, (now - from) as nat),
                    scripts,
                ),
            decreases to - now,
        {
            let ghost done = (now - from) as nat;
            now = now + 1;
            let report = self.tick(now, script);
            trace.push(report);
            proof {
                let times = consecutive_ticks(from as nat, done + 1);
                assert(times.drop_last() =~= consecutive_ticks(from as nat, done));
                assert(times.last() == now);
                assert(scripts[times.len() - 1] == *script);
            }
        }
        assert(scripts =~= Seq::new(span(from as nat, to as nat), |i: int| *script));
        assert((now - from) as nat == span(from as nat, to as nat));
        trace
    }
}

/// A soft timer of the simulated board, started at tick `now`.
fn start_clock(period: u64, now: u64) -> (clock: SoftTimer)
    requires
        period > 0,
    ensures
        clock@ == TimerModel::started(period as nat, now as nat),
{
    match SoftTimer::start(period, now) {
        Ok(clock) => clock,
        Err(_) => vstd::pervasive::unreached(),
    }
}

/// The number of ticks after `from` up to and including `to`.
pub open spec fn span(from: nat, to: nat) -> nat {
    if to >= from {
        (to - from) as nat
    } else {
        0
    }
}

/// Counts the ticks of `trace` that submitted the test key, that advanced
/// the scan tick, and that fired the heartbeat interrupt.
pub fn tally(trace: &Vec<TickReport>) -> (totals: Totals)
    ensures
        totals.keys_emitted == keys_emitted(trace@),
        totals.scan_advances == scan_advances(trace@),
        totals.heartbeats == heartbeats(trace@),
{
    let mut totals = Totals { keys_emitted: 0, scan_advances: 0, heartbeats: 0 };
    let mut i: usize = 0;
    assert(trace@.take(0) =~= Seq::<TickReport>::empty());
    while i < trace.len()
        invariant
            i <= trace.len(),
            totals.keys_emitted == keys_emitted(trace@.take(i as int)),
            totals.scan_advances == scan_advances(trace@.take(i as int)),
            totals.heartbeats == heartbeats(trace@.take(i as int)),
            totals.keys_emitted <= i,
            totals.scan_advances <= i,
            totals.heartbeats <= i,
        decreases trace.len() - i,
    {
        let report = trace[i];
        proof {
            let longer = trace@.take(i + 1);
            assert(longer.drop_last() =~= trace@.take(i as int));
            assert(longer.last() == report);
        }
        if report.heartbeat {
            totals.heartbeats = totals.heartbeats + 1;
        }
        match report.turn {
            Ok(turn) => {
                if turn.key.is_key() {
                    totals.keys_emitted = totals.keys_emitted + 1;
                }
                if turn.scan_advanced {
                    totals.scan_advances = totals.scan_advances + 1;
                }
            },
            Err(_) => {},
        }
        i = i + 1;
    }
    assert(trace@.take(trace.len() as int) =~= trace@);
    totals
}

/// How far an iteration that started in `before` has come when `scheduler`
/// is waiting for its pending action: what the two timers, the scheduler
/// and the record of the iteration hold at that point.
spec fn in_progress(
    before: SimModel,
    now: nat,
    script: SessionScript,
    key_clock: TimerModel,
    scan_clock: TimerModel,
    scheduler: SchedulerState,
    turn: Turn,
) -> bool {
    let place = scheduler.pending.position();
    let key = KeyEvent::emitted(before.key_clock.is_due(now));
    let scan_due = before.scan_clock.is_due(now);
    &&& scheduler.indicators == before.scheduler.indicators
    &&& scheduler.empty_reads == before.scheduler.empty_reads
    &&& key_clock == if place >= 1 {
        before.key_clock.polled(now)
    } else {
        before.key_clock
    }
    &&& scan_clock == if place >= 3 {
        before.scan_clock.polled(now)
    } else {
        before.scan_clock
    }
    &&& scheduler.rejected_reports == if place >= 2 && !script.accepts_report {
        saturating_next(before.scheduler.rejected_reports)
    } else {
        before.scheduler.rejected_reports
    }
    &&& turn.key == if place >= 2 {
        key
    } else {
        KeyEvent::NoEvent
    }
    &&& turn.report_accepted == (place >= 2 && script.accepts_report)
    &&& turn.scan_advanced == (place >= 4 && scan_due)
    &&& turn.bus_serviced == (place >= 5 && script.bus_active)
    &&& place < 6
    &&& place == 1 ==> scheduler.pending == Action::SubmitReport(key)
    &&& place == 3 ==> scan_due
    &&& place == 4 ==> (scan_due ==> script.scan_tick_ok)
    &&& place == 5 ==> (scan_due ==> script.scan_tick_ok) && script.bus_active
}

} // verus!
