//! Tests for sensor frame decoding, the sampling cadence, the boot
//! trigger, and the shared event types.

use plastiwatch::boot::{boot_hold_step, BootHoldOutcome};
use plastiwatch::events::ActivityClass;
use plastiwatch::sensor::{decode_frame, remaining_sleep_ms};

#[test]
fn decode_frame_scales_to_milli_units() {
    // 4096 counts are 1 g; 131 counts are 2 deg/s (65.5 counts per deg/s).
    let raw: [u8; 14] = [
        0x10, 0x00, // ax: +4096 counts
        0xF0, 0x00, // ay: -4096 counts
        0x00, 0x00, // az: 0
        0x12, 0x34, // temperature: ignored
        0x00, 0x83, // gx: +131 counts
        0xFF, 0x7D, // gy: -131 counts
        0x01, 0x06, // gz: +262 counts
    ];
    let d = decode_frame(&raw);
    assert_eq!(d.ax, 1000);
    assert_eq!(d.ay, -1000);
    assert_eq!(d.az, 0);
    assert_eq!(d.gx, 2000);
    assert_eq!(d.gy, -2000);
    assert_eq!(d.gz, 4000);
}

#[test]
fn decode_frame_rounds_toward_zero() {
    // 100 counts = 24.41 milli-g -> 24; -100 counts -> -24.
    let raw: [u8; 14] = [
        0x00, 0x64, // ax: +100
        0xFF, 0x9C, // ay: -100
        0x00, 0x00, 0x00, 0x00, 0x00, 0x00, 0x00, 0x00, 0x00, 0x00,
    ];
    let d = decode_frame(&raw);
    assert_eq!(d.ax, 24);
    assert_eq!(d.ay, -24);
}

#[test]
fn sampling_loop_sleeps_only_the_remainder() {
    assert_eq!(remaining_sleep_ms(5, 16), 11);
    assert_eq!(remaining_sleep_ms(0, 16), 16);
    assert_eq!(remaining_sleep_ms(16, 16), 0);
    assert_eq!(remaining_sleep_ms(100, 16), 0, "an overrun tick skips the sleep");
}

#[test]
fn boot_hold_confirms_after_three_seconds() {
    let mut held: u64 = 0;
    let mut outcome = BootHoldOutcome::Pending(0);
    for tick in 0..400u64 {
        outcome = boot_hold_step(held, true, tick * 10);
        match outcome {
            BootHoldOutcome::Pending(h) => held = h,
            _ => break,
        }
    }
    assert_eq!(outcome, BootHoldOutcome::Confirmed);
}

#[test]
fn boot_hold_release_restarts_the_count() {
    assert_eq!(boot_hold_step(2500, false, 2600), BootHoldOutcome::Pending(0));
    assert_eq!(boot_hold_step(2980, true, 3000), BootHoldOutcome::Pending(2990));
    assert_eq!(boot_hold_step(2990, true, 3010), BootHoldOutcome::Confirmed);
}

#[test]
fn boot_hold_times_out() {
    assert_eq!(boot_hold_step(0, false, 10_001), BootHoldOutcome::TimedOut);
    assert_eq!(boot_hold_step(2990, true, 10_001), BootHoldOutcome::TimedOut);
}

#[test]
fn labels_round_trip_to_classes() {
    assert_eq!(ActivityClass::from_label("idle"), ActivityClass::Idle);
    assert_eq!(ActivityClass::from_label("snake"), ActivityClass::Snake);
    assert_eq!(ActivityClass::from_label("updown"), ActivityClass::UpDown);
    assert_eq!(ActivityClass::from_label("wave"), ActivityClass::Wave);
    assert_eq!(ActivityClass::from_label("unknown"), ActivityClass::Idle);
    assert_eq!(ActivityClass::from_label(""), ActivityClass::Idle);
}

#[test]
fn display_names_match_the_screens() {
    assert_eq!(ActivityClass::Idle.display_name(), "normal");
    assert_eq!(ActivityClass::Snake.display_name(), "fall!");
    assert_eq!(ActivityClass::UpDown.display_name(), "walking");
    assert_eq!(ActivityClass::Wave.display_name(), "running");
    assert_eq!(ActivityClass::default(), ActivityClass::Idle);
}
