//! One-time handoff of a resource from the initialization context into the
//! interrupt context.

use vstd::prelude::*;

verus! {

/// Why a handoff through a [`SharedCell`] was refused. Each of these is an
/// ordering mistake of the firmware, which treats it as fatal.
#[derive(Clone, Copy, Debug, PartialEq, Eq, Structural)]
pub enum HandoffError {
    /// A resource was published into a cell that had been populated before.
    AlreadyPublished,
    /// A drain found the cell empty: nothing has been published yet.
    NotPublished,
    /// A drain found the cell drained: the resource was taken before.
    AlreadyTaken,
}

/// Lifecycle of a cell: empty, populated by a single write, drained by a
/// single take. No step leads back.
pub enum CellState<T> {
    Empty,
    Populated(T),
    Drained,
}

impl<T> CellState<T> {
    /// The cell after an attempt to publish `resource`, and what the attempt
    /// reports. Only an empty cell accepts a resource.
    pub open spec fn publish(self, resource: T) -> (CellState<T>, Result<(), HandoffError>) {
        match self {
            CellState::Empty => (CellState::Populated(resource), Ok(())),
            _ => (self, Err(HandoffError::AlreadyPublished)),
        }
    }

    /// The cell after an attempt to drain it, and what the attempt yields.
    /// Only a populated cell yields its resource, and it does so once.
    pub open spec fn take(self) -> (CellState<T>, Result<T, HandoffError>) {
        match self {
            CellState::Populated(resource) => (CellState::Drained, Ok(resource)),
            CellState::Empty => (CellState::Empty, Err(HandoffError::NotPublished)),
            CellState::Drained => (CellState::Drained, Err(HandoffError::AlreadyTaken)),
        }
    }

    /// The cell after `n` drain attempts in a row.
    pub open spec fn after_takes(self, n: nat) -> CellState<T>
        decreases n,
    {
        if n == 0 {
            self
        } else {
            self.after_takes((n - 1) as nat).take().0
        }
    }

    /// What the drain attempt with index `k` yields, counting from zero, when
    /// the cell is drained again and again.
    pub open spec fn nth_take(self, k: nat) -> Result<T, HandoffError> {
        self.after_takes(k).take().1
    }
}

/// Slot through which exactly one resource travels from the code that
/// configured it to the interrupt handler that will own it.
///
/// The cell does no locking of its own. The caller keeps it behind a lock
/// and touches it only inside a critical section.
pub struct SharedCell<T> {
    state: CellState<T>,
}

impl<T> View for SharedCell<T> {
    type V = CellState<T>;

    closed spec fn view(&self) -> CellState<T> {
        self.state
    }
}

impl<T> SharedCell<T> {
    /// An empty cell.
    pub fn new() -> (cell: Self)
        ensures
            cell@ == CellState::<T>::Empty,
    {
        SharedCell { state: CellState::Empty }
    }

    /// Whether the cell holds a resource that has not been taken yet.
    pub fn is_populated(&self) -> (b: bool)
        ensures
            b == (self@ is Populated),
    {
        match &self.state {
            CellState::Populated(_) => true,
            _ => false,
        }
    }

    /// Whether the resource has been taken out of the cell.
    pub fn is_drained(&self) -> (b: bool)
        ensures
            b == (self@ is Drained),
    {
        match &self.state {
            CellState::Drained => true,
            _ => false,
        }
    }

    /// Whether a drain would succeed now, without draining: `Ok` for a
    /// populated cell, otherwise the error that [`SharedCell::take`] would
    /// report.
    pub fn ready(&self) -> (outcome: Result<(), HandoffError>)
        ensures
            outcome is Ok <==> self@ is Populated,
            outcome is Err ==> self@.take().1 == Err::<T, HandoffError>(outcome->Err_0),
        no_unwind
    {
        match &self.state {
            CellState::Populated(_) => Ok(()),
            CellState::Empty => Err(HandoffError::NotPublished),
            CellState::Drained => Err(HandoffError::AlreadyTaken),
        }
    }

    /// Moves `resource` into the cell. An empty cell accepts it; a cell that
    /// was populated before, drained or not, refuses it and stays as it was.
    pub fn publish(&mut self, resource: T) -> (outcome: Result<(), HandoffError>)
        ensures
            (final(self)@, outcome) == old(self)@.publish(resource),
    {
        match &self.state {
            CellState::Empty => {
                self.state = CellState::Populated(resource);
                Ok(())
            },
            _ => Err(HandoffError::AlreadyPublished),
        }
    }

    /// Moves the resource out of the cell. A populated cell yields it and is
    /// drained from then on; an empty or drained cell yields an error that
    /// tells the two apart, and stays as it was.
    pub fn take(&mut self) -> (outcome: Result<T, HandoffError>)
        ensures
            (final(self)@, outcome) == old(self)@.take(),
        no_unwind
    {
        let mut held = CellState::Drained;
        core::mem::swap(&mut self.state, &mut held);
        match held {
            CellState::Populated(resource) => Ok(resource),
            CellState::Empty => {
                self.state = CellState::Empty;
                Err(HandoffError::NotPublished)
            },
            CellState::Drained => Err(HandoffError::AlreadyTaken),
        }
    }
}

/// After a resource is published into an empty cell, the first drain yields
/// that resource and every later drain fails.
pub proof fn lemma_exactly_one_drain_succeeds<T>(resource: T, k: nat)
    ensures
        CellState::<T>::Empty.publish(resource).1 is Ok,
        CellState::<T>::Empty.publish(resource).0.nth_take(0) == Ok::<T, HandoffError>(resource),
        k > 0 ==> CellState::<T>::Empty.publish(resource).0.nth_take(k) == Err::<
            T,
            HandoffError,
        >(HandoffError::AlreadyTaken),
{
    let cell = CellState::<T>::Empty.publish(resource).0;
    assert(cell.after_takes(0) == cell);
    if k > 0 {
        lemma_drained_after_first_take(cell, k);
    }
}

/// A populated cell is drained after any positive number of drain attempts.
proof fn lemma_drained_after_first_take<T>(cell: CellState<T>, k: nat)
    requires
        cell is Populated,
        k > 0,
    ensures
        cell.after_takes(k) == CellState::<T>::Drained,
    decreases k,
{
    if k == 1 {
        assert(cell.after_takes(0) == cell);
    } else {
        lemma_drained_after_first_take(cell, (k - 1) as nat);
    }
}

} // verus!
