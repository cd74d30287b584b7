//! The cooperative scheduler: which action the foreground loop performs
//! next, decided from what the previous action reported.
//!
//! The scheduler never blocks and never touches hardware. The loop around
//! it performs the pending [`Action`], which is always a non-blocking poll
//! or call, and hands the [`Outcome`] to [`Scheduler::handle`].

use crate::report::{KeyEvent, LedReportState};
use vstd::prelude::*;

verus! {

/// One non-blocking action of the foreground loop.
#[derive(Clone, Copy, Debug, PartialEq, Eq, Structural)]
pub enum Action {
    /// Poll the key-emission timer.
    PollKeyTimer,
    /// Hand the event to the HID session as the outgoing report.
    SubmitReport(KeyEvent),
    /// Poll the scan timer.
    PollScanTimer,
    /// Advance the HID session by one scan tick.
    AdvanceScan,
    /// Poll the USB bus.
    PollBus,
    /// Read the indicator report that the host has sent.
    ReadIndicators,
    /// Stop: the scan driver failed and the loop cannot go on.
    Halt,
}

/// What the loop reports after it has performed an action.
#[derive(Clone, Copy, Debug)]
pub enum Outcome {
    /// A timer was polled; the flag says whether it was due.
    TimerPolled(bool),
    /// A report was submitted; the flag says whether the session took it.
    ReportSubmitted(bool),
    /// The scan tick was advanced; the flag says whether that succeeded.
    ScanAdvanced(bool),
    /// The bus was polled; the flag says whether there was activity.
    BusPolled(bool),
    /// The indicator report was read; `None` if there was nothing to read.
    IndicatorsRead(Option<LedReportState>),
}

/// Why the scheduler refused an outcome.
#[derive(Clone, Copy, Debug, PartialEq, Eq, Structural)]
pub enum SchedulerError {
    /// The outcome does not answer the pending action.
    UnexpectedOutcome,
    /// The scan tick failed. The scheduler has halted.
    ScanFault,
    /// The scheduler had halted before.
    Halted,
}

/// The count after one more occurrence, held at the largest value once it
/// is reached.
pub open spec fn saturating_next(count: u64) -> u64 {
    if count < u64::MAX {
        (count + 1) as u64
    } else {
        count
    }
}

impl Action {
    /// Whether `outcome` is a report on this action.
    pub open spec fn answered_by(self, outcome: Outcome) -> bool {
        match (self, outcome) {
            (Action::PollKeyTimer, Outcome::TimerPolled(_)) => true,
            (Action::SubmitReport(_), Outcome::ReportSubmitted(_)) => true,
            (Action::PollScanTimer, Outcome::TimerPolled(_)) => true,
            (Action::AdvanceScan, Outcome::ScanAdvanced(_)) => true,
            (Action::PollBus, Outcome::BusPolled(_)) => true,
            (Action::ReadIndicators, Outcome::IndicatorsRead(_)) => true,
            _ => false,
        }
    }

    /// The place of the action within an iteration. Every iteration starts
    /// at place zero and visits places in rising order.
    pub open spec fn position(self) -> nat {
        match self {
            Action::PollKeyTimer => 0,
            Action::SubmitReport(_) => 1,
            Action::PollScanTimer => 2,
            Action::AdvanceScan => 3,
            Action::PollBus => 4,
            Action::ReadIndicators => 5,
            Action::Halt => 6,
        }
    }
}

/// Everything the scheduler remembers.
pub struct SchedulerState {
    /// The action that the loop has to perform next.
    pub pending: Action,
    /// The latest indicator report received from the host, if any.
    pub indicators: Option<LedReportState>,
    /// How many submitted reports the HID session did not take.
    pub rejected_reports: u64,
    /// How many indicator reads found nothing to read.
    pub empty_reads: u64,
}

impl SchedulerState {
    /// The scheduler at power-on, about to start its first iteration.
    pub open spec fn initial() -> SchedulerState {
        SchedulerState {
            pending: Action::PollKeyTimer,
            indicators: None,
            rejected_reports: 0,
            empty_reads: 0,
        }
    }

    /// The scheduler with `next` as its pending action, and `next` as the
    /// answer to the loop.
    pub open spec fn proceed(self, next: Action) -> (SchedulerState, Result<Action, SchedulerError>) {
        (SchedulerState { pending: next, ..self }, Ok(next))
    }

    /// The scheduler after `outcome`, and its answer: the next action, or
    /// the reason why the outcome was refused.
    ///
    /// Within an iteration the key-emission timer decides which event is
    /// submitted; whether the session takes the report changes nothing but
    /// a counter; the scan timer decides whether the scan tick is advanced;
    /// bus activity decides whether the indicator report is read, and a
    /// read that finds nothing changes nothing but a counter. A failed scan
    /// tick halts the scheduler. An outcome that does not answer the pending
    /// action is refused and changes nothing.
    pub open spec fn handle(self, outcome: Outcome) -> (
        SchedulerState,
        Result<Action, SchedulerError>,
    ) {
        match (self.pending, outcome) {
            (Action::Halt, _) => (self, Err(SchedulerError::Halted)),
            (Action::PollKeyTimer, Outcome::TimerPolled(due)) => self.proceed(
                Action::SubmitReport(KeyEvent::emitted(due)),
            ),
            (Action::SubmitReport(_), Outcome::ReportSubmitted(accepted)) => (SchedulerState {
                rejected_reports: if accepted {
                    self.rejected_reports
                } else {
                    saturating_next(self.rejected_reports)
                },
                ..self
            }).proceed(Action::PollScanTimer),
            (Action::PollScanTimer, Outcome::TimerPolled(due)) => self.proceed(
                if due {
                    Action::AdvanceScan
                } else {
                    Action::PollBus
                },
            ),
            (Action::AdvanceScan, Outcome::ScanAdvanced(succeeded)) => if succeeded {
                self.proceed(Action::PollBus)
            } else {
                (SchedulerState { pending: Action::Halt, ..self }, Err(SchedulerError::ScanFault))
            },
            (Action::PollBus, Outcome::BusPolled(active)) => self.proceed(
                if active {
                    Action::ReadIndicators
                } else {
                    Action::PollKeyTimer
                },
            ),
            (Action::ReadIndicators, Outcome::IndicatorsRead(report)) => (match report {
                Some(state) => SchedulerState { indicators: Some(state), ..self },
                None => SchedulerState { empty_reads: saturating_next(self.empty_reads), ..self },
            }).proceed(Action::PollKeyTimer),
            _ => (self, Err(SchedulerError::UnexpectedOutcome)),
        }
    }
}

/// The scheduler of the foreground loop.
pub struct Scheduler {
    state: SchedulerState,
}

impl View for Scheduler {
    type V = SchedulerState;

    closed spec fn view(&self) -> SchedulerState {
        self.state
    }
}

/// One more occurrence on a counter that stops at its largest value.
fn count_one_more(count: u64) -> (next: u64)
    ensures
        next == saturating_next(count),
    no_unwind
{
    if count < u64::MAX {
        count + 1
    } else {
        count
    }
}

impl Scheduler {
    /// A scheduler about to start its first iteration.
    pub fn new() -> (scheduler: Self)
        ensures
            scheduler@ == SchedulerState::initial(),
    {
        Scheduler {
            state: SchedulerState {
                pending: Action::PollKeyTimer,
                indicators: None,
                rejected_reports: 0,
                empty_reads: 0,
            },
        }
    }

    /// The action that the loop has to perform next.
    pub fn pending(&self) -> (action: Action)
        ensures
            action == self@.pending,
    {
        self.state.pending
    }

    /// Whether the scheduler has halted.
    pub fn is_halted(&self) -> (halted: bool)
        ensures
            halted == (self@.pending == Action::Halt),
    {
        match self.state.pending {
            Action::Halt => true,
            _ => false,
        }
    }

    /// The latest indicator report received from the host, if any.
    pub fn indicators(&self) -> (latest: Option<LedReportState>)
        ensures
            latest == self@.indicators,
    {
        self.state.indicators
    }

    /// How many submitted reports the HID session did not take.
    pub fn rejected_reports(&self) -> (count: u64)
        ensures
            count == self@.rejected_reports,
    {
        self.state.rejected_reports
    }

    /// How many indicator reads found nothing to read.
    pub fn empty_reads(&self) -> (count: u64)
        ensures
            count == self@.empty_reads,
    {
        self.state.empty_reads
    }

    /// Takes the report on the pending action and answers with the next
    /// action, or with the reason why the report was refused.
    pub fn handle(&mut self, outcome: Outcome) -> (answer: Result<Action, SchedulerError>)
        ensures
            (final(self)@, answer) == old(self)@.handle(outcome),
        no_unwind
    {
        let next = match (self.state.pending, outcome) {
            (Action::Halt, _) => { return Err(SchedulerError::Halted); },
            (Action::PollKeyTimer, Outcome::TimerPolled(due)) => Action::SubmitReport(
                KeyEvent::from_due(due),
            ),
            (Action::SubmitReport(_), Outcome::ReportSubmitted(accepted)) => {
                if !accepted {
                    self.state.rejected_reports = count_one_more(self.state.rejected_reports);
                }
                Action::PollScanTimer
            },
            (Action::PollScanTimer, Outcome::TimerPolled(due)) => {
                if due {
                    Action::AdvanceScan
                } else {
                    Action::PollBus
                }
            },
            (Action::AdvanceScan, Outcome::ScanAdvanced(succeeded)) => {
                if !succeeded {
                    self.state.pending = Action::Halt;
                    return Err(SchedulerError::ScanFault);
                }
                Action::PollBus
            },
            (Action::PollBus, Outcome::BusPolled(active)) => {
                if active {
                    Action::ReadIndicators
                } else {
                    Action::PollKeyTimer
                }
            },
            (Action::ReadIndicators, Outcome::IndicatorsRead(report)) => {
                match report {
                    Some(state) => {
                        self.state.indicators = Some(state);
                    },
                    None => {
                        self.state.empty_reads = count_one_more(self.state.empty_reads);
                    },
                }
                Action::PollKeyTimer
            },
            _ => { return Err(SchedulerError::UnexpectedOutcome); },
        };
        self.state.pending = next;
        Ok(next)
    }
}

/// No step blocks an iteration: whatever an action reports, the scheduler
/// either halts on a failed scan tick, or moves to a later place of the
/// same iteration, or ends the iteration. An iteration therefore ends
/// after six actions at most.
pub proof fn lemma_every_outcome_advances(state: SchedulerState, outcome: Outcome)
    requires
        state.pending != Action::Halt,
        state.pending.answered_by(outcome),
    ensures
        state.handle(outcome).1 is Ok ==> {
            let next = state.handle(outcome).1->Ok_0;
            &&& state.handle(outcome).0.pending == next
            &&& next != Action::Halt
            &&& next == Action::PollKeyTimer || next.position() > state.pending.position()
        },
        state.handle(outcome).1 is Err <==> state.pending == Action::AdvanceScan && outcome
            matches Outcome::ScanAdvanced(false),
        state.handle(outcome).1 is Err ==> state.handle(outcome).1 == Err::<
            Action,
            SchedulerError,
        >(SchedulerError::ScanFault) && state.handle(outcome).0.pending == Action::Halt,
{
}

/// A report that the HID session does not take is no failure: the
/// scheduler goes on to the scan timer exactly as after a report that was
/// taken, and only the counter of rejected reports tells the two apart.
pub proof fn lemma_rejected_report_only_counts(state: SchedulerState, event: KeyEvent)
    requires
        state.pending == Action::SubmitReport(event),
    ensures
        state.handle(Outcome::ReportSubmitted(false)).1 == Ok::<Action, SchedulerError>(
            Action::PollScanTimer,
        ),
        state.handle(Outcome::ReportSubmitted(false)).1 == state.handle(
            Outcome::ReportSubmitted(true),
        ).1,
        state.handle(Outcome::ReportSubmitted(false)).0 == (SchedulerState {
            rejected_reports: saturating_next(state.rejected_reports),
            ..state.handle(Outcome::ReportSubmitted(true)).0
        }),
{
}

} // verus!
