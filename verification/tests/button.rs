//! Scenario tests for the button input state machine, polled at the
//! nominal 10 ms rate as the render loop does.

use plastiwatch::events::UiEvent;
use plastiwatch::input::InputManager;

/// Poll the machine every 10 ms over `levels`, where `levels[i]` is the raw
/// line level (true = high = released) during [i*10, (i+1)*10) ms.
fn poll_run(levels: &[bool]) -> Vec<UiEvent> {
    let mut fsm = InputManager::new(0);
    let mut events = Vec::new();
    for (i, &raw_high) in levels.iter().enumerate() {
        let now = (i as u64) * 10;
        if let Some(ev) = fsm.update(raw_high, now) {
            events.push(ev);
        }
    }
    events
}

/// A raw level sequence: pairs of (level, duration in ms).
fn levels_of(spans: &[(bool, u64)]) -> Vec<bool> {
    let mut levels = Vec::new();
    for &(level, ms) in spans {
        for _ in 0..(ms / 10) {
            levels.push(level);
        }
    }
    levels
}

#[test]
fn held_low_past_threshold_emits_long_press() {
    // Held low 3050 ms, then high: exactly one long press.
    let levels = levels_of(&[(true, 100), (false, 3050), (true, 500)]);
    let events = poll_run(&levels);
    assert_eq!(events, vec![UiEvent::ButtonLongPress]);
}

#[test]
fn long_press_never_yields_a_click() {
    for hold_ms in [3000u64, 3050, 4000, 8000] {
        let levels = levels_of(&[(true, 100), (false, hold_ms), (true, 1000)]);
        let events = poll_run(&levels);
        assert_eq!(events, vec![UiEvent::ButtonLongPress], "hold {hold_ms}");
    }
}

#[test]
fn two_close_releases_emit_one_double_click() {
    // Two 100 ms presses, 200 ms apart: releases land within the window.
    let levels = levels_of(&[
        (true, 100),
        (false, 100),
        (true, 200),
        (false, 100),
        (true, 1000),
    ]);
    let events = poll_run(&levels);
    assert_eq!(events, vec![UiEvent::ButtonDoubleClick]);
}

#[test]
fn single_short_press_emits_single_click_after_timeout() {
    // One 100 ms press, then 500 ms idle: the single click fires once the
    // double-click window has passed, and only then.
    let levels = levels_of(&[(true, 100), (false, 100), (true, 400)]);
    let early = poll_run(&levels);
    assert_eq!(early, vec![]);

    let levels = levels_of(&[(true, 100), (false, 100), (true, 700)]);
    let events = poll_run(&levels);
    assert_eq!(events, vec![UiEvent::ButtonSingleClick]);
}

#[test]
fn two_separated_releases_emit_two_single_clicks() {
    // Two 100 ms presses 600 ms apart: each resolves independently.
    let levels = levels_of(&[
        (true, 100),
        (false, 100),
        (true, 600),
        (false, 100),
        (true, 700),
    ]);
    let events = poll_run(&levels);
    assert_eq!(events, vec![UiEvent::ButtonSingleClick, UiEvent::ButtonSingleClick]);
}

#[test]
fn short_glitch_is_debounced_away() {
    // A 30 ms low glitch never becomes a press: no events at all.
    let levels = levels_of(&[(true, 100), (false, 30), (true, 1000)]);
    let events = poll_run(&levels);
    assert_eq!(events, vec![]);
}

#[test]
fn bouncing_line_is_debounced_away() {
    // Alternating every poll: the level never holds, so nothing happens.
    let mut levels = levels_of(&[(true, 100)]);
    for i in 0..40 {
        levels.push(i % 2 == 0);
    }
    levels.extend(levels_of(&[(true, 1000)]));
    let events = poll_run(&levels);
    assert_eq!(events, vec![]);
}
