//! Compiled-in configuration: timing, window sizing, and battery references.
//!
//! All times are milliseconds. Acceleration is carried in milli-g and angular
//! rate in milli-degrees-per-second, so that every threshold is an exact
//! integer. Classifier confidences are per-mille (0..=1000).

use vstd::prelude::*;

verus! {

// ---------------------------------------------------------------------------
// Timing (milliseconds)
// ---------------------------------------------------------------------------
pub const SENSOR_SAMPLE_INTERVAL_MS: u64 = 16;
pub const UI_POLL_INTERVAL_MS: u64 = 10;
pub const BATTERY_CHECK_INTERVAL_MS: u64 = 10_000;
pub const DEBOUNCE_MS: u64 = 50;
pub const LONG_PRESS_MS: u64 = 3000;
pub const DOUBLE_CLICK_WINDOW_MS: u64 = 400;
pub const BOOT_HOLD_MS: u64 = 3000;
pub const BOOT_HOLD_TIMEOUT_MS: u64 = 10_000;
pub const BOOT_HOLD_POLL_MS: u64 = 10;
pub const INACTIVITY_TIMEOUT_MS: u64 = 180_000;
pub const SLEEP_IDLE_WAIT_MS: u64 = 1000;

// ---------------------------------------------------------------------------
// Task stack sizes (bytes)
// ---------------------------------------------------------------------------
pub const STACK_SENSOR: usize = 4096;
pub const STACK_AI: usize = 8192;
pub const STACK_UI: usize = 8192;
pub const STACK_POWER: usize = 4096;

// ---------------------------------------------------------------------------
// Haptic feedback durations (milliseconds)
// ---------------------------------------------------------------------------
pub const HAPTIC_CLICK_MS: u64 = 50;
pub const HAPTIC_LONG_PRESS_MS: u64 = 500;

// ---------------------------------------------------------------------------
// Feature window / classifier
// ---------------------------------------------------------------------------
pub const EI_RAW_SAMPLES_PER_FRAME: usize = 3;
pub const EI_RAW_SAMPLE_COUNT: usize = 125;
pub const EI_DSP_INPUT_FRAME_SIZE: usize = 375;
pub const EI_LABEL_COUNT: usize = 4;
/// Minimum winning confidence, per-mille.
pub const EI_CONFIDENCE_THRESHOLD_PM: u16 = 700;

// ---------------------------------------------------------------------------
// Reference heuristic thresholds on mean absolute acceleration (milli-g)
// ---------------------------------------------------------------------------
pub const STUB_IDLE_MAX_MILLI_G: u64 = 300;
pub const STUB_WALK_MAX_MILLI_G: u64 = 800;
pub const STUB_RUN_MAX_MILLI_G: u64 = 1500;

// ---------------------------------------------------------------------------
// Battery (millivolts); the ADC sees the cell through a 1:2 divider.
// ---------------------------------------------------------------------------
pub const BATTERY_EMPTY_MV: u32 = 3300;
pub const BATTERY_FULL_MV: u32 = 4200;
pub const ADC_MAX_COUNT: u32 = 4095;
pub const ADC_FULL_SCALE_MV: u32 = 6600;

// ---------------------------------------------------------------------------
// Sensor scale: raw counts per g at +/-8 g, and half-counts per deg/s at
// +/-500 deg/s (65.5 counts per deg/s is 131 half-counts).
// ---------------------------------------------------------------------------
pub const ACCEL_COUNTS_PER_G: i32 = 4096;
pub const GYRO_HALF_COUNTS_PER_DPS: i32 = 131;

} // verus!
