//! The periods of the firmware's three timing domains, in milliseconds.

use vstd::prelude::*;

verus! {

/// Period of the key-emission timer: one synthetic key event per second.
pub const KEY_EMIT_PERIOD_MS: u64 = 1000;

/// Period of the scan timer: the HID session is advanced once per
/// millisecond.
pub const SCAN_PERIOD_MS: u64 = 1;

/// Period of the heartbeat timer: the LED changes level once per second.
pub const HEARTBEAT_PERIOD_MS: u64 = 1000;

} // verus!
