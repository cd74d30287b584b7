//! The values that travel between the scheduler and the HID session.

use vstd::prelude::*;

verus! {

/// What one scheduler iteration asks the keyboard to report.
#[derive(Clone, Copy, Debug, PartialEq, Eq, Structural)]
pub enum KeyEvent {
    /// No key is active.
    NoEvent,
    /// The fixed test key is active.
    TestSymbol,
}

impl KeyEvent {
    /// The event of an iteration: the test key when the key-emission timer
    /// was due, no event otherwise.
    pub open spec fn emitted(due: bool) -> KeyEvent {
        if due {
            KeyEvent::TestSymbol
        } else {
            KeyEvent::NoEvent
        }
    }

    /// The event of an iteration in which the key-emission timer was `due`.
    pub fn from_due(due: bool) -> (event: KeyEvent)
        ensures
            event == KeyEvent::emitted(due),
        no_unwind
    {
        if due {
            KeyEvent::TestSymbol
        } else {
            KeyEvent::NoEvent
        }
    }

    /// Whether the event names a key.
    pub fn is_key(&self) -> (b: bool)
        ensures
            b == (*self == KeyEvent::TestSymbol),
    {
        match self {
            KeyEvent::TestSymbol => true,
            KeyEvent::NoEvent => false,
        }
    }
}

/// Indicator state that the host sends to the keyboard. The scheduler keeps
/// the latest one and makes no other use of it.
#[derive(Clone, Copy, Debug, PartialEq, Eq, Structural)]
pub struct LedReportState {
    pub num_lock: bool,
    pub caps_lock: bool,
    pub scroll_lock: bool,
    pub compose: bool,
    pub kana: bool,
}

} // verus!
