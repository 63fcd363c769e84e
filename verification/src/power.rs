//! Power / sleep policy.
//!
//! Once per coarse period the policy decides one of three things, in this
//! order: suspend because sleep was requested (long press); suspend because
//! the device has been inactive past the timeout; otherwise report the
//! battery level read this cycle — or nothing, when the reading failed, so
//! the next period retries. Suspension is terminal: the caller reconfigures
//! wake sources and transfers control to platform sleep.

use vstd::prelude::*;

use crate::config::{
    ADC_FULL_SCALE_MV, ADC_MAX_COUNT, BATTERY_EMPTY_MV, BATTERY_FULL_MV, INACTIVITY_TIMEOUT_MS,
};

verus! {

/// Battery percentage for a cell voltage in millivolts: 0 at or below the
/// empty reference, 100 at or above the full reference, linear in between.
pub open spec fn spec_battery_percent(mv: int) -> int {
    if mv <= BATTERY_EMPTY_MV {
        0
    } else if mv >= BATTERY_FULL_MV {
        100
    } else {
        (mv - BATTERY_EMPTY_MV) * 100 / ((BATTERY_FULL_MV - BATTERY_EMPTY_MV) as int)
    }
}

/// Cell voltage in millivolts for a raw ADC count: full scale spread over
/// the converter's range (the divider is already folded into full scale).
pub open spec fn spec_adc_to_mv(raw: int) -> int {
    raw * ADC_FULL_SCALE_MV / (ADC_MAX_COUNT as int)
}

/// Convert a raw ADC count to millivolts at the battery terminals.
pub fn adc_raw_to_mv(raw: u16) -> (mv: u32)
    ensures
        mv == spec_adc_to_mv(raw as int),
{
    (raw as u32) * ADC_FULL_SCALE_MV / ADC_MAX_COUNT
}

/// Map a battery voltage to a whole percentage, clamped to 0..=100.
pub fn battery_percent_from_mv(mv: u32) -> (pct: u32)
    ensures
        pct == spec_battery_percent(mv as int),
        pct <= 100,
        mv <= BATTERY_EMPTY_MV ==> pct == 0,
        mv >= BATTERY_FULL_MV ==> pct == 100,
{
    if mv <= BATTERY_EMPTY_MV {
        0
    } else if mv >= BATTERY_FULL_MV {
        100
    } else {
        (mv - BATTERY_EMPTY_MV) * 100 / (BATTERY_FULL_MV - BATTERY_EMPTY_MV)
    }
}

/// The battery mapping is monotone — more voltage never reads as less
/// charge — and clamped to 0..=100.
pub proof fn lemma_battery_percent_monotone(a: int, b: int)
    requires
        a <= b,
    ensures
        spec_battery_percent(a) <= spec_battery_percent(b),
        0 <= spec_battery_percent(a) <= 100,
{
    if BATTERY_EMPTY_MV < a < BATTERY_FULL_MV {
        vstd::arithmetic::div_mod::lemma_div_is_ordered(
            (a - BATTERY_EMPTY_MV) * 100,
            (BATTERY_FULL_MV - BATTERY_EMPTY_MV) as int * 100,
            (BATTERY_FULL_MV - BATTERY_EMPTY_MV) as int,
        );
        if b < BATTERY_FULL_MV {
            vstd::arithmetic::div_mod::lemma_div_is_ordered(
                (a - BATTERY_EMPTY_MV) * 100,
                (b - BATTERY_EMPTY_MV) * 100,
                (BATTERY_FULL_MV - BATTERY_EMPTY_MV) as int,
            );
        }
    }
    if BATTERY_EMPTY_MV < b < BATTERY_FULL_MV {
        vstd::arithmetic::div_mod::lemma_div_is_ordered(
            0,
            (b - BATTERY_EMPTY_MV) * 100,
            (BATTERY_FULL_MV - BATTERY_EMPTY_MV) as int,
        );
        vstd::arithmetic::div_mod::lemma_div_is_ordered(
            (b - BATTERY_EMPTY_MV) * 100,
            (BATTERY_FULL_MV - BATTERY_EMPTY_MV) as int * 100,
            (BATTERY_FULL_MV - BATTERY_EMPTY_MV) as int,
        );
    }
}

/// What one policy cycle decides.
#[derive(Debug, Clone, Copy, PartialEq, Eq, Structural)]
pub enum PowerAction {
    /// Reconfigure wake sources and enter platform sleep; terminal.
    Suspend,
    /// Enqueue a battery-changed UI event with this percentage.
    ReportBattery(u32),
    /// Nothing this cycle (the battery reading failed); the next period
    /// retries.
    Skip,
}

/// The decision of one policy cycle: the sleep request wins, then the
/// inactivity timeout, then battery reporting.
pub open spec fn spec_power_step(
    sleep_requested: bool,
    last_activity_ms: u64,
    now_ms: u64,
    battery_raw: Option<u16>,
) -> PowerAction {
    if sleep_requested {
        PowerAction::Suspend
    } else if now_ms - last_activity_ms > INACTIVITY_TIMEOUT_MS {
        PowerAction::Suspend
    } else {
        match battery_raw {
            Some(raw) => PowerAction::ReportBattery(
                spec_battery_percent(spec_adc_to_mv(raw as int)) as u32,
            ),
            None => PowerAction::Skip,
        }
    }
}

/// One cycle of the power policy. `battery_raw` is this cycle's ADC count,
/// or nothing when the reading failed.
pub fn power_step(
    sleep_requested: bool,
    last_activity_ms: u64,
    now_ms: u64,
    battery_raw: Option<u16>,
) -> (a: PowerAction)
    requires
        last_activity_ms <= now_ms,
    ensures
        a == spec_power_step(sleep_requested, last_activity_ms, now_ms, battery_raw),
        sleep_requested ==> a == PowerAction::Suspend,
        !sleep_requested && now_ms - last_activity_ms > INACTIVITY_TIMEOUT_MS ==> a
            == PowerAction::Suspend,
        !sleep_requested && now_ms - last_activity_ms <= INACTIVITY_TIMEOUT_MS && battery_raw
            is None ==> a == PowerAction::Skip,
        a matches PowerAction::ReportBattery(pct) ==> pct <= 100,
{
    if sleep_requested {
        return PowerAction::Suspend;
    }
    if now_ms - last_activity_ms > INACTIVITY_TIMEOUT_MS {
        return PowerAction::Suspend;
    }
    match battery_raw {
        Some(raw) => {
            let mv = adc_raw_to_mv(raw);
            PowerAction::ReportBattery(battery_percent_from_mv(mv))
        },
        None => PowerAction::Skip,
    }
}

} // verus!
