//! Event fan-out for the render loop.
//!
//! The render loop is the single owner of display state. Each tick it
//! advances the button machine, drains the queued UI events, and applies
//! each to local state; `apply_event` is that application, returning what
//! the hardware should do — haptic pulse, redraw, liveness refresh, sleep
//! request — as plain data.

use vstd::prelude::*;

use crate::config::{HAPTIC_CLICK_MS, HAPTIC_LONG_PRESS_MS, SLEEP_IDLE_WAIT_MS, UI_POLL_INTERVAL_MS};
use crate::events::{ActivityClass, UiEvent};

verus! {

/// What the display should show after an event, if anything.
#[derive(Debug, Clone, Copy, PartialEq, Eq, Structural)]
pub enum Redraw {
    /// Leave the screen as it is.
    Keep,
    /// Draw the default screen (logo and label).
    DefaultScreen,
    /// Draw the activity screen with the current activity and battery.
    ActivityScreen,
    /// Blank the display.
    DisplayOff,
}

/// Side effects one event application asks of the hardware. A zero haptic
/// duration means no pulse.
#[derive(Debug, Clone, Copy, PartialEq, Eq, Structural)]
pub struct RenderAction {
    pub haptic_ms: u64,
    pub redraw: Redraw,
    pub refresh_liveness: bool,
    pub request_sleep: bool,
}

/// Local render state: which screen is up, and what it shows.
#[derive(Debug, Clone, Copy, PartialEq, Eq, Structural)]
pub struct RenderState {
    /// The default screen is up (as opposed to the activity screen).
    pub showing_logo: bool,
    pub current_activity: ActivityClass,
    /// Whole percent, 0..=100.
    pub current_battery: u32,
}

/// How one UI event changes the render state and what it asks of the
/// hardware:
/// - activity or battery changed: update the value; redraw only if the
///   activity screen is up;
/// - single click: haptic pulse, liveness refresh, toggle the screens;
/// - double click: haptic pulse, liveness refresh, force the activity
///   screen;
/// - long press: extended haptic pulse, blank the display, request sleep —
///   without refreshing liveness.
pub open spec fn spec_apply_event(s: RenderState, event: UiEvent) -> (RenderState, RenderAction) {
    match event {
        UiEvent::UpdateActivity(activity) => {
            let s1 = RenderState { current_activity: activity, ..s };
            let redraw = if !s.showing_logo {
                Redraw::ActivityScreen
            } else {
                Redraw::Keep
            };
            (
                s1,
                RenderAction {
                    haptic_ms: 0,
                    redraw,
                    refresh_liveness: false,
                    request_sleep: false,
                },
            )
        },
        UiEvent::UpdateBattery(pct) => {
            let s1 = RenderState { current_battery: pct, ..s };
            let redraw = if !s.showing_logo {
                Redraw::ActivityScreen
            } else {
                Redraw::Keep
            };
            (
                s1,
                RenderAction {
                    haptic_ms: 0,
                    redraw,
                    refresh_liveness: false,
                    request_sleep: false,
                },
            )
        },
        UiEvent::ButtonSingleClick => {
            let s1 = RenderState { showing_logo: !s.showing_logo, ..s };
            let redraw = if s1.showing_logo {
                Redraw::DefaultScreen
            } else {
                Redraw::ActivityScreen
            };
            (
                s1,
                RenderAction {
                    haptic_ms: HAPTIC_CLICK_MS,
                    redraw,
                    refresh_liveness: true,
                    request_sleep: false,
                },
            )
        },
        UiEvent::ButtonDoubleClick => {
            let s1 = RenderState { showing_logo: false, ..s };
            (
                s1,
                RenderAction {
                    haptic_ms: HAPTIC_CLICK_MS,
                    redraw: Redraw::ActivityScreen,
                    refresh_liveness: true,
                    request_sleep: false,
                },
            )
        },
        UiEvent::ButtonLongPress => {
            (
                s,
                RenderAction {
                    haptic_ms: HAPTIC_LONG_PRESS_MS,
                    redraw: Redraw::DisplayOff,
                    refresh_liveness: false,
                    request_sleep: true,
                },
            )
        },
    }
}

impl RenderState {
    /// The state at boot: default screen, idle activity, full battery.
    pub fn new() -> (s: Self)
        ensures
            s == (RenderState {
                showing_logo: true,
                current_activity: ActivityClass::Idle,
                current_battery: 100u32,
            }),
    {
        RenderState {
            showing_logo: true,
            current_activity: ActivityClass::Idle,
            current_battery: 100,
        }
    }

    /// Apply one drained UI event to the render state; only the long press
    /// requests sleep, and only clicks refresh the liveness clock.
    pub fn apply_event(&mut self, event: &UiEvent) -> (a: RenderAction)
        ensures
            *final(self) == spec_apply_event(*old(self), *event).0,
            a == spec_apply_event(*old(self), *event).1,
            a.request_sleep <==> *event == UiEvent::ButtonLongPress,
            a.refresh_liveness <==> (*event == UiEvent::ButtonSingleClick || *event
                == UiEvent::ButtonDoubleClick),
    {
        match event {
            UiEvent::UpdateActivity(activity) => {
                self.current_activity = *activity;
                RenderAction {
                    haptic_ms: 0,
                    redraw: if !self.showing_logo {
                        Redraw::ActivityScreen
                    } else {
                        Redraw::Keep
                    },
                    refresh_liveness: false,
                    request_sleep: false,
                }
            },
            UiEvent::UpdateBattery(pct) => {
                self.current_battery = *pct;
                RenderAction {
                    haptic_ms: 0,
                    redraw: if !self.showing_logo {
                        Redraw::ActivityScreen
                    } else {
                        Redraw::Keep
                    },
                    refresh_liveness: false,
                    request_sleep: false,
                }
            },
            UiEvent::ButtonSingleClick => {
                self.showing_logo = !self.showing_logo;
                RenderAction {
                    haptic_ms: HAPTIC_CLICK_MS,
                    redraw: if self.showing_logo {
                        Redraw::DefaultScreen
                    } else {
                        Redraw::ActivityScreen
                    },
                    refresh_liveness: true,
                    request_sleep: false,
                }
            },
            UiEvent::ButtonDoubleClick => {
                self.showing_logo = false;
                RenderAction {
                    haptic_ms: HAPTIC_CLICK_MS,
                    redraw: Redraw::ActivityScreen,
                    refresh_liveness: true,
                    request_sleep: false,
                }
            },
            UiEvent::ButtonLongPress => {
                RenderAction {
                    haptic_ms: HAPTIC_LONG_PRESS_MS,
                    redraw: Redraw::DisplayOff,
                    refresh_liveness: false,
                    request_sleep: true,
                }
            },
        }
    }
}

/// How long the render loop sleeps at the end of a tick: the normal poll
/// period, or a long idle wait once sleep has been requested, so the loop
/// stops redrawing without busy-polling while the power policy suspends the
/// device.
pub fn ui_tick_wait_ms(sleep_requested: bool) -> (r: u64)
    ensures
        r == if sleep_requested {
            SLEEP_IDLE_WAIT_MS
        } else {
            UI_POLL_INTERVAL_MS
        },
{
    if sleep_requested {
        SLEEP_IDLE_WAIT_MS
    } else {
        UI_POLL_INTERVAL_MS
    }
}

} // verus!
