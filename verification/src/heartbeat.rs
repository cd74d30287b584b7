//! The heartbeat interrupt handler's state: uninitialized until its first
//! firing, armed with the LED and timer handles from then on.

use crate::handoff::{CellState, HandoffError, SharedCell};
use vstd::prelude::*;

verus! {

/// What the interrupt handler holds. Once armed it owns both handles for
/// good, and no other code can reach them.
pub enum HeartbeatState<L, T> {
    Uninitialized,
    Armed { led: L, timer: T },
}

impl<L, T> HeartbeatState<L, T> {
    /// The handler, the two cells and the report after an attempt to arm.
    ///
    /// An armed handler stays as it is and leaves the cells alone. An
    /// uninitialized one drains both cells if both are populated. If either
    /// is not, nothing moves and the attempt reports what a drain of the
    /// first such cell would report, the LED cell coming first.
    pub open spec fn arm(self, led_cell: CellState<L>, timer_cell: CellState<T>) -> (
        HeartbeatState<L, T>,
        CellState<L>,
        CellState<T>,
        Result<(), HandoffError>,
    ) {
        match (self, led_cell, timer_cell) {
            (HeartbeatState::Armed { .. }, _, _) => (self, led_cell, timer_cell, Ok(())),
            (_, CellState::Populated(led), CellState::Populated(timer)) => (
                HeartbeatState::Armed { led, timer },
                CellState::Drained,
                CellState::Drained,
                Ok(()),
            ),
            (_, CellState::Populated(_), _) => (
                self,
                led_cell,
                timer_cell,
                Err(timer_cell.take().1->Err_0),
            ),
            _ => (self, led_cell, timer_cell, Err(led_cell.take().1->Err_0)),
        }
    }
}

/// The interrupt handler's own storage for the two handles it works with.
pub struct Heartbeat<L, T> {
    handles: Option<(L, T)>,
}

impl<L, T> View for Heartbeat<L, T> {
    type V = HeartbeatState<L, T>;

    closed spec fn view(&self) -> HeartbeatState<L, T> {
        match self.handles {
            Some((led, timer)) => HeartbeatState::Armed { led, timer },
            None => HeartbeatState::Uninitialized,
        }
    }
}

impl<L, T> Heartbeat<L, T> {
    /// A handler that has not fired yet.
    pub fn new() -> (handler: Self)
        ensures
            handler@ == HeartbeatState::<L, T>::Uninitialized,
    {
        Heartbeat { handles: None }
    }

    /// Whether the handler owns its handles.
    pub fn is_armed(&self) -> (b: bool)
        ensures
            b == (self@ is Armed),
    {
        self.handles.is_some()
    }

    /// Arms the handler on its first firing by draining both cells; does
    /// nothing on later firings. The caller holds the critical section that
    /// protects the cells.
    pub fn arm(&mut self, led_cell: &mut SharedCell<L>, timer_cell: &mut SharedCell<T>) -> (outcome:
        Result<(), HandoffError>)
        ensures
            (final(self)@, final(led_cell)@, final(timer_cell)@, outcome) == old(self)@.arm(
                old(led_cell)@,
                old(timer_cell)@,
            ),
        no_unwind
    {
        match &self.handles {
            Some(_) => { return Ok(()); },
            None => {},
        }
        match led_cell.ready() {
            Err(refusal) => { return Err(refusal); },
            Ok(()) => {},
        }
        match timer_cell.ready() {
            Err(refusal) => { return Err(refusal); },
            Ok(()) => {},
        }
        match led_cell.take() {
            Err(refusal) => Err(refusal),
            Ok(led) => match timer_cell.take() {
                Err(refusal) => Err(refusal),
                Ok(timer) => {
                    self.handles = Some((led, timer));
                    Ok(())
                },
            },
        }
    }

    /// The two handles, for the handler to toggle the LED and acknowledge
    /// the timer; `None` while the handler is not armed.
    pub fn handles_mut(&mut self) -> (handles: Option<(&mut L, &mut T)>)
        ensures
            old(self)@ is Uninitialized ==> handles is None && final(self)@ == old(self)@,
            old(self)@ matches HeartbeatState::Armed { led, timer } ==> {
                &&& handles matches Some((l, t))
                &&& *l == led
                &&& *t == timer
                &&& final(self)@ == (HeartbeatState::Armed { led: *final(l), timer: *final(t) })
            },
        no_unwind
    {
        match &mut self.handles {
            Some((led, timer)) => Some((led, timer)),
            None => None,
        }
    }
}

} // verus!
