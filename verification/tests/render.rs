//! Tests for the render loop's event fan-out.

use plastiwatch::events::{ActivityClass, UiEvent};
use plastiwatch::ui::{ui_tick_wait_ms, Redraw, RenderState};

#[test]
fn activity_update_redraws_only_on_activity_screen() {
    let mut s = RenderState::new();
    assert!(s.showing_logo);

    let a = s.apply_event(&UiEvent::UpdateActivity(ActivityClass::Wave));
    assert_eq!(s.current_activity, ActivityClass::Wave);
    assert_eq!(a.redraw, Redraw::Keep);
    assert_eq!(a.haptic_ms, 0);
    assert!(!a.refresh_liveness && !a.request_sleep);

    s.showing_logo = false;
    let a = s.apply_event(&UiEvent::UpdateActivity(ActivityClass::Snake));
    assert_eq!(s.current_activity, ActivityClass::Snake);
    assert_eq!(a.redraw, Redraw::ActivityScreen);
}

#[test]
fn battery_update_redraws_only_on_activity_screen() {
    let mut s = RenderState::new();
    let a = s.apply_event(&UiEvent::UpdateBattery(42));
    assert_eq!(s.current_battery, 42);
    assert_eq!(a.redraw, Redraw::Keep);

    s.showing_logo = false;
    let a = s.apply_event(&UiEvent::UpdateBattery(41));
    assert_eq!(s.current_battery, 41);
    assert_eq!(a.redraw, Redraw::ActivityScreen);
}

#[test]
fn single_click_toggles_screens_and_refreshes_liveness() {
    let mut s = RenderState::new();
    let a = s.apply_event(&UiEvent::ButtonSingleClick);
    assert!(!s.showing_logo);
    assert_eq!(a.redraw, Redraw::ActivityScreen);
    assert_eq!(a.haptic_ms, 50);
    assert!(a.refresh_liveness);
    assert!(!a.request_sleep);

    let a = s.apply_event(&UiEvent::ButtonSingleClick);
    assert!(s.showing_logo);
    assert_eq!(a.redraw, Redraw::DefaultScreen);
}

#[test]
fn double_click_forces_activity_screen() {
    let mut s = RenderState::new();
    let a = s.apply_event(&UiEvent::ButtonDoubleClick);
    assert!(!s.showing_logo);
    assert_eq!(a.redraw, Redraw::ActivityScreen);
    assert!(a.refresh_liveness);

    let a = s.apply_event(&UiEvent::ButtonDoubleClick);
    assert!(!s.showing_logo, "a second double click stays on the activity screen");
    assert_eq!(a.redraw, Redraw::ActivityScreen);
}

#[test]
fn long_press_blanks_display_and_requests_sleep() {
    let mut s = RenderState::new();
    let a = s.apply_event(&UiEvent::ButtonLongPress);
    assert_eq!(a.redraw, Redraw::DisplayOff);
    assert_eq!(a.haptic_ms, 500);
    assert!(a.request_sleep);
    assert!(!a.refresh_liveness, "going to sleep must not count as activity");
}

#[test]
fn tick_wait_idles_once_sleep_is_requested() {
    assert_eq!(ui_tick_wait_ms(false), 10);
    assert_eq!(ui_tick_wait_ms(true), 1000);
}
