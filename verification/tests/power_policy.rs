//! Tests for battery mapping and the power/sleep policy.

use plastiwatch::power::{
    adc_raw_to_mv, battery_percent_from_mv, power_step, PowerAction,
};

#[test]
fn battery_mapping_is_clamped() {
    assert_eq!(battery_percent_from_mv(0), 0);
    assert_eq!(battery_percent_from_mv(3000), 0);
    assert_eq!(battery_percent_from_mv(3300), 0);
    assert_eq!(battery_percent_from_mv(4200), 100);
    assert_eq!(battery_percent_from_mv(5000), 100);
}

#[test]
fn battery_mapping_is_linear_between_references() {
    assert_eq!(battery_percent_from_mv(3750), 50);
    assert_eq!(battery_percent_from_mv(3525), 25);
    assert_eq!(battery_percent_from_mv(3975), 75);
    assert_eq!(battery_percent_from_mv(3309), 1);
    assert_eq!(battery_percent_from_mv(4191), 99);
}

#[test]
fn battery_mapping_is_monotone() {
    let mut last = 0;
    for mv in (3000..4400).step_by(10) {
        let pct = battery_percent_from_mv(mv);
        assert!(pct >= last, "{mv} mV mapped below a lower voltage");
        assert!(pct <= 100);
        last = pct;
    }
}

#[test]
fn adc_counts_convert_to_millivolts() {
    assert_eq!(adc_raw_to_mv(0), 0);
    assert_eq!(adc_raw_to_mv(4095), 6600);
    assert_eq!(adc_raw_to_mv(2048), 3300);
}

#[test]
fn sleep_request_wins_immediately() {
    assert_eq!(power_step(true, 0, 0, Some(2000)), PowerAction::Suspend);
    assert_eq!(power_step(true, 0, 1_000_000, None), PowerAction::Suspend);
}

#[test]
fn inactivity_past_timeout_suspends() {
    // No activity for more than 180000 ms: suspend.
    assert_eq!(power_step(false, 0, 180_001, Some(2000)), PowerAction::Suspend);
    assert_eq!(power_step(false, 5_000, 200_000, None), PowerAction::Suspend);
}

#[test]
fn active_device_reports_battery() {
    // 2048 counts -> 3300 mV -> 0 % (exactly the empty reference).
    assert_eq!(power_step(false, 0, 180_000, Some(2048)), PowerAction::ReportBattery(0));
    // 4095 counts -> 6600 mV -> clamped to 100 %.
    assert_eq!(power_step(false, 100, 5_000, Some(4095)), PowerAction::ReportBattery(100));
}

#[test]
fn failed_battery_reading_skips_the_cycle() {
    assert_eq!(power_step(false, 0, 10_000, None), PowerAction::Skip);
}
