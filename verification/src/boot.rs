//! Boot trigger: the device only leaves deep sleep for good if the user
//! holds the button through the boot-hold window.
//!
//! The caller polls the button at a fixed period and feeds each sample to
//! `boot_hold_step`; any release restarts the accumulated hold, and a
//! watchdog deadline bounds the whole wait.

use vstd::prelude::*;

use crate::config::{BOOT_HOLD_MS, BOOT_HOLD_POLL_MS, BOOT_HOLD_TIMEOUT_MS};

verus! {

/// Outcome of one boot-hold poll.
#[derive(Debug, Clone, Copy, PartialEq, Eq, Structural)]
pub enum BootHoldOutcome {
    /// The button has been held through the whole window: boot.
    Confirmed,
    /// The overall deadline passed without a completed hold: back to sleep.
    TimedOut,
    /// Keep polling, with this much hold accumulated.
    Pending(u64),
}

/// One poll of the boot trigger: `held_ms` is the hold accumulated so far,
/// `pressed` this poll's button level, `elapsed_ms` the time since the wait
/// began. A poll counts one poll period of hold; a release restarts the
/// count.
pub fn boot_hold_step(held_ms: u64, pressed: bool, elapsed_ms: u64) -> (r: BootHoldOutcome)
    requires
        held_ms <= BOOT_HOLD_MS,
    ensures
        elapsed_ms > BOOT_HOLD_TIMEOUT_MS ==> r == BootHoldOutcome::TimedOut,
        elapsed_ms <= BOOT_HOLD_TIMEOUT_MS && pressed && held_ms + BOOT_HOLD_POLL_MS
            >= BOOT_HOLD_MS ==> r == BootHoldOutcome::Confirmed,
        elapsed_ms <= BOOT_HOLD_TIMEOUT_MS && pressed && held_ms + BOOT_HOLD_POLL_MS
            < BOOT_HOLD_MS ==> r == BootHoldOutcome::Pending((held_ms + BOOT_HOLD_POLL_MS) as u64),
        elapsed_ms <= BOOT_HOLD_TIMEOUT_MS && !pressed ==> r == BootHoldOutcome::Pending(0u64),
        r matches BootHoldOutcome::Pending(h) ==> h < BOOT_HOLD_MS,
{
    if elapsed_ms > BOOT_HOLD_TIMEOUT_MS {
        return BootHoldOutcome::TimedOut;
    }
    if pressed {
        let held = held_ms + BOOT_HOLD_POLL_MS;
        if held >= BOOT_HOLD_MS {
            BootHoldOutcome::Confirmed
        } else {
            BootHoldOutcome::Pending(held)
        }
    } else {
        BootHoldOutcome::Pending(0)
    }
}

} // verus!
