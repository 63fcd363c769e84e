//! Button input state machine.
//!
//! Converts a noisy digital line into three discrete user intents: single
//! click, double click, and long press. The machine is a pure function of
//! the raw pin level and the current time, polled at a fixed rate from the
//! render loop; `spec_update` is its transition function.
//!
//! - Debounce: any raw-level change restarts a stability clock; a level is
//!   accepted only once it has held for at least [`DEBOUNCE_MS`].
//! - A stable press edge records the press start; a stable release edge
//!   classifies the hold: at least [`LONG_PRESS_MS`] emits a long press,
//!   a short release while a second click was awaited emits a double click,
//!   and a first short release just arms the double-click wait.
//! - On every poll, a double-click wait older than [`DOUBLE_CLICK_WINDOW_MS`]
//!   resolves to a single click — also while the line is still bouncing.

use vstd::prelude::*;

use crate::config::{DEBOUNCE_MS, DOUBLE_CLICK_WINDOW_MS, LONG_PRESS_MS};
use crate::events::UiEvent;

verus! {

/// Working memory of the button machine. The raw line is pulled up, so a
/// high level (`true`) means the button is released.
#[derive(Debug, Clone, Copy, PartialEq, Eq)]
pub struct InputManager {
    /// Raw level seen on the previous poll.
    pub last_raw: bool,
    /// Time of the most recent raw-level change.
    pub last_debounce_ms: u64,
    /// When the current press began, while one is tracked.
    pub press_start_ms: Option<u64>,
    /// Debounced logical level: the button is held down.
    pub button_down: bool,
    /// A first short click happened and a second one is awaited.
    pub waiting_for_second_click: bool,
    /// When the first short click was released.
    pub first_click_ms: u64,
}

impl InputManager {
    /// Every remembered instant lies at or before `t`. Polling with a
    /// monotone clock preserves this.
    pub open spec fn times_le(self, t: u64) -> bool {
        &&& self.last_debounce_ms <= t
        &&& self.first_click_ms <= t
        &&& (self.press_start_ms matches Some(p) ==> p <= t)
    }
}

/// Debounce filter: record the raw level and restart the stability clock on
/// any change.
pub open spec fn spec_debounce(s: InputManager, raw_high: bool, now: u64) -> InputManager {
    InputManager {
        last_raw: raw_high,
        last_debounce_ms: if raw_high != s.last_raw {
            now
        } else {
            s.last_debounce_ms
        },
        ..s
    }
}

/// The raw level of `s` (already debounce-filtered) has held long enough to
/// be accepted.
pub open spec fn spec_stable(s: InputManager, now: u64) -> bool {
    now - s.last_debounce_ms >= DEBOUNCE_MS
}

/// Hold duration of a press released at `now`; a press with no recorded
/// start counts as held for nothing.
pub open spec fn spec_hold_ms(s: InputManager, now: u64) -> int {
    match s.press_start_ms {
        Some(t) => now - t,
        None => 0,
    }
}

/// The double-click wait has outlived its window, so a pending single click
/// is due.
pub open spec fn spec_single_click_due(s: InputManager, now: u64) -> bool {
    s.waiting_for_second_click && now - s.first_click_ms > DOUBLE_CLICK_WINDOW_MS
}

/// Timeout check, run on every poll: an expired double-click wait resolves
/// to a single click.
pub open spec fn spec_timeout(s: InputManager, now: u64) -> (InputManager, Option<UiEvent>) {
    if spec_single_click_due(s, now) {
        (
            InputManager { waiting_for_second_click: false, ..s },
            Some(UiEvent::ButtonSingleClick),
        )
    } else {
        (s, None)
    }
}

/// Edge handling once the level is stable: a press edge starts hold
/// tracking; a release edge completes a gesture.
pub open spec fn spec_edges(s: InputManager, pressed: bool, now: u64) -> (
    InputManager,
    Option<UiEvent>,
) {
    let s1 = if pressed && !s.button_down {
        InputManager { button_down: true, press_start_ms: Some(now), ..s }
    } else {
        s
    };
    if !pressed && s1.button_down {
        let s2 = InputManager { button_down: false, ..s1 };
        if spec_hold_ms(s2, now) >= LONG_PRESS_MS {
            (
                InputManager { waiting_for_second_click: false, ..s2 },
                Some(UiEvent::ButtonLongPress),
            )
        } else if s2.waiting_for_second_click {
            (
                InputManager { waiting_for_second_click: false, ..s2 },
                Some(UiEvent::ButtonDoubleClick),
            )
        } else {
            (
                InputManager { waiting_for_second_click: true, first_click_ms: now, ..s2 },
                None,
            )
        }
    } else {
        (s1, None)
    }
}

/// One poll of the machine: debounce filter, then — only on a stable level —
/// edge handling, and in every case the single-click timeout check.
pub open spec fn spec_update(s: InputManager, raw_high: bool, now: u64) -> (
    InputManager,
    Option<UiEvent>,
) {
    let s1 = spec_debounce(s, raw_high, now);
    if !spec_stable(s1, now) {
        spec_timeout(s1, now)
    } else {
        let (s2, edge_ev) = spec_edges(s1, !raw_high, now);
        let (s3, timeout_ev) = spec_timeout(s2, now);
        (
            s3,
            if edge_ev is Some {
                edge_ev
            } else {
                timeout_ev
            },
        )
    }
}

impl InputManager {
    /// A fresh machine: line high (pull-up, released), no press tracked, no
    /// double-click wait.
    pub fn new(now_ms: u64) -> (s: Self)
        ensures
            s == (InputManager {
                last_raw: true,
                last_debounce_ms: now_ms,
                press_start_ms: None::<u64>,
                button_down: false,
                waiting_for_second_click: false,
                first_click_ms: now_ms,
            }),
            s.times_le(now_ms),
    {
        InputManager {
            last_raw: true,
            last_debounce_ms: now_ms,
            press_start_ms: None,
            button_down: false,
            waiting_for_second_click: false,
            first_click_ms: now_ms,
        }
    }

    /// One poll with the raw line level and the current time. At most one
    /// gesture event is reported per poll.
    pub fn update(&mut self, raw_high: bool, now_ms: u64) -> (ev: Option<UiEvent>)
        requires
            old(self).times_le(now_ms),
        ensures
            *final(self) == spec_update(*old(self), raw_high, now_ms).0,
            ev == spec_update(*old(self), raw_high, now_ms).1,
            final(self).times_le(now_ms),
            ev matches Some(e) ==> (e == UiEvent::ButtonSingleClick || e
                == UiEvent::ButtonDoubleClick || e == UiEvent::ButtonLongPress),
    {
        // ---- debounce filter ----
        if raw_high != self.last_raw {
            self.last_debounce_ms = now_ms;
        }
        self.last_raw = raw_high;

        let stable_ms = now_ms - self.last_debounce_ms;
        if stable_ms < DEBOUNCE_MS {
            // Signal still bouncing — only the timeout check runs.
            return self.check_double_click_timeout(now_ms);
        }

        let pressed = !raw_high;

        // ---- button pressed edge ----
        if pressed && !self.button_down {
            self.button_down = true;
            self.press_start_ms = Some(now_ms);
        }

        // ---- button released edge ----
        let mut edge_event: Option<UiEvent> = None;
        if !pressed && self.button_down {
            self.button_down = false;
            let hold_ms = match self.press_start_ms {
                Some(t) => now_ms - t,
                None => 0,
            };

            if hold_ms >= LONG_PRESS_MS {
                edge_event = Some(UiEvent::ButtonLongPress);
                self.waiting_for_second_click = false;
            } else if self.waiting_for_second_click {
                // Second click within the window.
                edge_event = Some(UiEvent::ButtonDoubleClick);
                self.waiting_for_second_click = false;
            } else {
                // First short click — start the double-click window.
                self.waiting_for_second_click = true;
                self.first_click_ms = now_ms;
            }
        }

        let timeout_event = self.check_double_click_timeout(now_ms);
        if edge_event.is_some() {
            edge_event
        } else {
            timeout_event
        }
    }

    /// Resolve an expired double-click wait to a single click (kept separate
    /// because it also runs while the line is still bouncing).
    fn check_double_click_timeout(&mut self, now_ms: u64) -> (ev: Option<UiEvent>)
        requires
            old(self).first_click_ms <= now_ms,
        ensures
            *final(self) == spec_timeout(*old(self), now_ms).0,
            ev == spec_timeout(*old(self), now_ms).1,
    {
        if self.waiting_for_second_click {
            let elapsed = now_ms - self.first_click_ms;
            if elapsed > DOUBLE_CLICK_WINDOW_MS {
                self.waiting_for_second_click = false;
                return Some(UiEvent::ButtonSingleClick);
            }
        }
        None
    }
}

// ---------------------------------------------------------------------------
// Runs: feeding a whole sequence of polls, each a (raw level, time) pair.
// ---------------------------------------------------------------------------

/// The state after feeding the polls of `inputs` in order.
pub open spec fn run_state(s: InputManager, inputs: Seq<(bool, u64)>) -> InputManager
    decreases inputs.len(),
{
    if inputs.len() == 0 {
        s
    } else {
        run_state(spec_update(s, inputs[0].0, inputs[0].1).0, inputs.drop_first())
    }
}

/// The event reported at each poll of `inputs`, in order.
pub open spec fn run_events(s: InputManager, inputs: Seq<(bool, u64)>) -> Seq<Option<UiEvent>>
    decreases inputs.len(),
{
    if inputs.len() == 0 {
        Seq::empty()
    } else {
        seq![spec_update(s, inputs[0].0, inputs[0].1).1] + run_events(
            spec_update(s, inputs[0].0, inputs[0].1).0,
            inputs.drop_first(),
        )
    }
}

/// A poll made before the raw level has held for the debounce window: either
/// the level just changed, or its last change is younger than the window.
pub open spec fn unstable_at(s: InputManager, raw_high: bool, now: u64) -> bool {
    raw_high != s.last_raw || now < s.last_debounce_ms + DEBOUNCE_MS
}

/// A poll that processes a stable release edge: the line has been high for
/// the debounce window while the button was tracked as held down.
pub open spec fn stable_release_at(s: InputManager, raw_high: bool, now: u64) -> bool {
    &&& raw_high
    &&& s.last_raw
    &&& now - s.last_debounce_ms >= DEBOUNCE_MS
    &&& s.button_down
}

/// Runs split at a concatenation: the tail continues from the head's state.
pub proof fn lemma_run_concat(s: InputManager, a: Seq<(bool, u64)>, b: Seq<(bool, u64)>)
    ensures
        run_state(s, a + b) == run_state(run_state(s, a), b),
        run_events(s, a + b) == run_events(s, a) + run_events(run_state(s, a), b),
    decreases a.len(),
{
    if a.len() == 0 {
        assert(a + b =~= b);
        assert(run_events(s, a) + run_events(run_state(s, a), b) =~= run_events(s, b));
    } else {
        let s1 = spec_update(s, a[0].0, a[0].1).0;
        assert((a + b)[0] == a[0]);
        assert((a + b).drop_first() =~= a.drop_first() + b);
        lemma_run_concat(s1, a.drop_first(), b);
        assert(run_events(s, a + b) =~= run_events(s, a) + run_events(run_state(s, a), b));
    }
}

// ---------------------------------------------------------------------------
// Laws of a single poll.
// ---------------------------------------------------------------------------

/// A poll made while the raw level has not yet held for the debounce window
/// leaves the debounced press state untouched; the only event it can report
/// is a single click whose double-click wait expired.
pub proof fn lemma_unstable_poll(s: InputManager, raw_high: bool, now: u64)
    requires
        unstable_at(s, raw_high, now),
    ensures
        spec_update(s, raw_high, now).0.button_down == s.button_down,
        spec_update(s, raw_high, now).0.press_start_ms == s.press_start_ms,
        spec_update(s, raw_high, now).1 matches Some(e) ==> e == UiEvent::ButtonSingleClick,
{
}

/// A press released after a hold of at least the long-press threshold yields
/// a long press — never a click — and cancels any double-click wait, so no
/// click can later be reported for the same gesture.
pub proof fn lemma_long_press_release(s: InputManager, now: u64)
    requires
        stable_release_at(s, true, now),
        spec_hold_ms(s, now) >= LONG_PRESS_MS,
    ensures
        spec_update(s, true, now).1 == Some(UiEvent::ButtonLongPress),
        !spec_update(s, true, now).0.waiting_for_second_click,
        !spec_update(s, true, now).0.button_down,
{
}

/// A first short release reports nothing yet: it arms the double-click wait
/// and records its own time as the wait's start.
pub proof fn lemma_short_release_arms_wait(s: InputManager, now: u64)
    requires
        stable_release_at(s, true, now),
        spec_hold_ms(s, now) < LONG_PRESS_MS,
        !s.waiting_for_second_click,
    ensures
        spec_update(s, true, now).1 is None,
        spec_update(s, true, now).0.waiting_for_second_click,
        spec_update(s, true, now).0.first_click_ms == now,
        !spec_update(s, true, now).0.button_down,
{
}

/// A second short release while the wait is armed reports a double click and
/// clears the wait, so no single click follows for either press.
pub proof fn lemma_short_release_double_click(s: InputManager, now: u64)
    requires
        stable_release_at(s, true, now),
        spec_hold_ms(s, now) < LONG_PRESS_MS,
        s.waiting_for_second_click,
    ensures
        spec_update(s, true, now).1 == Some(UiEvent::ButtonDoubleClick),
        !spec_update(s, true, now).0.waiting_for_second_click,
        !spec_update(s, true, now).0.button_down,
{
}

/// A poll past the double-click deadline that processes no stable release
/// edge resolves the armed wait to a single click.
pub proof fn lemma_single_click_timeout(s: InputManager, raw_high: bool, now: u64)
    requires
        s.waiting_for_second_click,
        now > s.first_click_ms + DOUBLE_CLICK_WINDOW_MS,
        !stable_release_at(s, raw_high, now),
    ensures
        spec_update(s, raw_high, now).1 == Some(UiEvent::ButtonSingleClick),
        !spec_update(s, raw_high, now).0.waiting_for_second_click,
{
}

/// A run reports one event slot per poll.
pub proof fn lemma_run_events_len(s: InputManager, inputs: Seq<(bool, u64)>)
    ensures
        run_events(s, inputs).len() == inputs.len(),
    decreases inputs.len(),
{
    if inputs.len() > 0 {
        lemma_run_events_len(spec_update(s, inputs[0].0, inputs[0].1).0, inputs.drop_first());
    }
}

// ---------------------------------------------------------------------------
// Laws of whole runs.
// ---------------------------------------------------------------------------

/// Debounce, over a whole run: while every poll happens before the raw level
/// has held for the debounce window — a level change sustained for less than
/// the window, however the line bounces meanwhile — the debounced press
/// state never changes, and the only event the run can report is a single
/// click left over from an earlier gesture.
pub proof fn lemma_unstable_run(s: InputManager, inputs: Seq<(bool, u64)>)
    requires
        forall|k: int|
            0 <= k < inputs.len() ==> unstable_at(
                run_state(s, inputs.take(k)),
                inputs[k].0,
                inputs[k].1,
            ),
    ensures
        run_state(s, inputs).button_down == s.button_down,
        run_state(s, inputs).press_start_ms == s.press_start_ms,
        forall|k: int|
            0 <= k < inputs.len() ==> (#[trigger] run_events(s, inputs)[k] matches Some(e) ==> e
                == UiEvent::ButtonSingleClick),
    decreases inputs.len(),
{
    if inputs.len() > 0 {
        assert(inputs.take(0) =~= Seq::<(bool, u64)>::empty());
        assert(unstable_at(s, inputs[0].0, inputs[0].1));
        lemma_unstable_poll(s, inputs[0].0, inputs[0].1);
        let s1 = spec_update(s, inputs[0].0, inputs[0].1).0;
        let tail = inputs.drop_first();
        assert forall|k: int| 0 <= k < tail.len() implies unstable_at(
            run_state(s1, tail.take(k)),
            tail[k].0,
            tail[k].1,
        ) by {
            assert(inputs.take(k + 1)[0] == inputs[0]);
            assert(inputs.take(k + 1).drop_first() =~= tail.take(k));
            assert(run_state(s, inputs.take(k + 1)) == run_state(s1, tail.take(k)));
            assert(tail[k] == inputs[k + 1]);
        }
        lemma_unstable_run(s1, tail);
        lemma_run_events_len(s1, tail);
        assert forall|k: int|
            0 <= k < inputs.len() implies (#[trigger] run_events(s, inputs)[k] matches Some(e) ==> e
            == UiEvent::ButtonSingleClick) by {
            if k >= 1 {
                assert(run_events(s, inputs)[k] == run_events(s1, tail)[k - 1]);
            }
        }
    }
}

/// A poll up to the double-click deadline that processes no stable release
/// edge keeps the armed wait armed, keeps its start time, and reports
/// nothing.
pub proof fn lemma_armed_wait_quiet_poll(s: InputManager, raw_high: bool, now: u64)
    requires
        s.waiting_for_second_click,
        now <= s.first_click_ms + DOUBLE_CLICK_WINDOW_MS,
        !stable_release_at(s, raw_high, now),
    ensures
        spec_update(s, raw_high, now).1 is None,
        spec_update(s, raw_high, now).0.waiting_for_second_click,
        spec_update(s, raw_high, now).0.first_click_ms == s.first_click_ms,
{
}

/// While the wait is armed: a span of polls up to the deadline with no
/// stable release edge keeps the wait armed and reports nothing at all.
pub proof fn lemma_armed_wait_quiet_span(s: InputManager, inputs: Seq<(bool, u64)>)
    requires
        s.waiting_for_second_click,
        forall|k: int|
            0 <= k < inputs.len() ==> inputs[k].1 <= s.first_click_ms + DOUBLE_CLICK_WINDOW_MS,
        forall|k: int|
            0 <= k < inputs.len() ==> !stable_release_at(
                run_state(s, inputs.take(k)),
                inputs[k].0,
                inputs[k].1,
            ),
    ensures
        run_state(s, inputs).waiting_for_second_click,
        run_state(s, inputs).first_click_ms == s.first_click_ms,
        forall|k: int| 0 <= k < inputs.len() ==> run_events(s, inputs)[k] is None,
    decreases inputs.len(),
{
    if inputs.len() > 0 {
        assert(inputs.take(0) =~= Seq::<(bool, u64)>::empty());
        lemma_armed_wait_quiet_poll(s, inputs[0].0, inputs[0].1);
        let s1 = spec_update(s, inputs[0].0, inputs[0].1).0;
        let tail = inputs.drop_first();
        assert forall|k: int| 0 <= k < tail.len() implies !stable_release_at(
            run_state(s1, tail.take(k)),
            tail[k].0,
            tail[k].1,
        ) by {
            assert(inputs.take(k + 1)[0] == inputs[0]);
            assert(inputs.take(k + 1).drop_first() =~= tail.take(k));
            assert(run_state(s, inputs.take(k + 1)) == run_state(s1, tail.take(k)));
            assert(tail[k] == inputs[k + 1]);
        }
        lemma_armed_wait_quiet_span(s1, tail);
        lemma_run_events_len(s1, tail);
        assert forall|k: int| 0 <= k < inputs.len() implies run_events(s, inputs)[k] is None by {
            if k >= 1 {
                assert(run_events(s, inputs)[k] == run_events(s1, tail)[k - 1]);
            }
        }
    }
}

/// With no wait armed, a span of polls with no stable release edge reports
/// nothing and arms no wait; presses may begin, but no gesture completes.
pub proof fn lemma_no_wait_quiet_span(s: InputManager, inputs: Seq<(bool, u64)>)
    requires
        !s.waiting_for_second_click,
        forall|k: int|
            0 <= k < inputs.len() ==> !stable_release_at(
                run_state(s, inputs.take(k)),
                inputs[k].0,
                inputs[k].1,
            ),
    ensures
        !run_state(s, inputs).waiting_for_second_click,
        forall|k: int| 0 <= k < inputs.len() ==> run_events(s, inputs)[k] is None,
    decreases inputs.len(),
{
    if inputs.len() > 0 {
        assert(inputs.take(0) =~= Seq::<(bool, u64)>::empty());
        let s1 = spec_update(s, inputs[0].0, inputs[0].1).0;
        let tail = inputs.drop_first();
        assert forall|k: int| 0 <= k < tail.len() implies !stable_release_at(
            run_state(s1, tail.take(k)),
            tail[k].0,
            tail[k].1,
        ) by {
            assert(inputs.take(k + 1)[0] == inputs[0]);
            assert(inputs.take(k + 1).drop_first() =~= tail.take(k));
            assert(run_state(s, inputs.take(k + 1)) == run_state(s1, tail.take(k)));
            assert(tail[k] == inputs[k + 1]);
        }
        lemma_no_wait_quiet_span(s1, tail);
        lemma_run_events_len(s1, tail);
        assert forall|k: int| 0 <= k < inputs.len() implies run_events(s, inputs)[k] is None by {
            if k >= 1 {
                assert(run_events(s, inputs)[k] == run_events(s1, tail)[k - 1]);
            }
        }
    }
}

/// The polls of one complete release gesture: the stable release poll at
/// `t1`, the polls of `mid`, and a final poll at `t_last`.
pub open spec fn gesture_inputs(
    t1: u64,
    mid: Seq<(bool, u64)>,
    raw_last: bool,
    t_last: u64,
) -> Seq<(bool, u64)> {
    seq![(true, t1)] + mid + seq![(raw_last, t_last)]
}

/// Double click: from a state with no armed wait, a first stable short
/// release, then — within less than the double-click window, with no other
/// stable release edge meanwhile — a second stable short release, report
/// exactly one double click and no other event at all.
pub proof fn lemma_double_click_run(
    s: InputManager,
    t1: u64,
    mid: Seq<(bool, u64)>,
    t2: u64,
)
    requires
        !s.waiting_for_second_click,
        stable_release_at(s, true, t1),
        spec_hold_ms(s, t1) < LONG_PRESS_MS,
        t2 < t1 + DOUBLE_CLICK_WINDOW_MS,
        forall|k: int| 0 <= k < mid.len() ==> #[trigger] mid[k].1 <= t2,
        forall|k: int|
            0 <= k < mid.len() ==> !stable_release_at(
                run_state(spec_update(s, true, t1).0, mid.take(k)),
                mid[k].0,
                mid[k].1,
            ),
        stable_release_at(run_state(spec_update(s, true, t1).0, mid), true, t2),
        spec_hold_ms(run_state(spec_update(s, true, t1).0, mid), t2) < LONG_PRESS_MS,
    ensures
        ({
            let inputs = gesture_inputs(t1, mid, true, t2);
            let events = run_events(s, inputs);
            &&& events.len() == inputs.len()
            &&& events[inputs.len() - 1] == Some(UiEvent::ButtonDoubleClick)
            &&& forall|k: int| 0 <= k < inputs.len() - 1 ==> events[k] is None
            &&& !run_state(s, inputs).waiting_for_second_click
        }),
{
    let first = seq![(true, t1)];
    let last = seq![(true, t2)];
    let inputs = first + mid + last;
    let s1 = spec_update(s, true, t1).0;
    let s_mid = run_state(s1, mid);

    lemma_short_release_arms_wait(s, t1);
    assert(first[0] == (true, t1));
    assert(first.drop_first() =~= Seq::<(bool, u64)>::empty());
    assert(run_state(s1, Seq::<(bool, u64)>::empty()) == s1);
    assert(run_events(s1, Seq::<(bool, u64)>::empty()) =~= Seq::<Option<UiEvent>>::empty());
    assert(run_state(s, first) == s1);
    assert(run_events(s, first) =~= seq![Option::<UiEvent>::None]);

    // The polls between the releases keep the wait armed and stay silent.
    assert forall|k: int| 0 <= k < mid.len() implies #[trigger] mid[k].1 <= s1.first_click_ms
        + DOUBLE_CLICK_WINDOW_MS by {
        assert(mid[k].1 <= t2);
    }
    lemma_armed_wait_quiet_span(s1, mid);

    // The second release, still inside the window, completes the gesture.
    lemma_short_release_double_click(s_mid, t2);
    assert(last[0] == (true, t2));
    assert(last.drop_first() =~= Seq::<(bool, u64)>::empty());
    assert(run_events(spec_update(s_mid, true, t2).0, Seq::<(bool, u64)>::empty())
        =~= Seq::<Option<UiEvent>>::empty());
    assert(run_state(spec_update(s_mid, true, t2).0, Seq::<(bool, u64)>::empty())
        == spec_update(s_mid, true, t2).0);
    assert(run_events(s_mid, last) =~= seq![Some(UiEvent::ButtonDoubleClick)]);

    lemma_run_concat(s, first, mid);
    lemma_run_concat(s, first + mid, last);
    assert(first + mid + last =~= (first + mid) + last);
    assert(run_state(s, first + mid) == s_mid);
    lemma_run_events_len(s1, mid);
    lemma_run_events_len(s, inputs);

    let events = run_events(s, inputs);
    assert(events =~= run_events(s, first) + run_events(s1, mid) + run_events(s_mid, last));
    assert(events[inputs.len() - 1] == Some(UiEvent::ButtonDoubleClick));
    assert forall|k: int| 0 <= k < inputs.len() - 1 implies events[k] is None by {
        if k >= 1 {
            assert(events[k] == run_events(s1, mid)[k - 1]);
        }
    }
}

/// Single click by timeout: a stable short release with no second stable
/// release up to the double-click deadline reports exactly one single click,
/// at the first poll past the deadline, and leaves the wait clear — so two
/// such gestures more than the window apart each resolve independently to
/// one single click.
pub proof fn lemma_single_click_run(
    s: InputManager,
    t1: u64,
    mid: Seq<(bool, u64)>,
    raw_last: bool,
    t_last: u64,
)
    requires
        !s.waiting_for_second_click,
        stable_release_at(s, true, t1),
        spec_hold_ms(s, t1) < LONG_PRESS_MS,
        forall|k: int|
            0 <= k < mid.len() ==> #[trigger] mid[k].1 <= t1 + DOUBLE_CLICK_WINDOW_MS,
        forall|k: int|
            0 <= k < mid.len() ==> !stable_release_at(
                run_state(spec_update(s, true, t1).0, mid.take(k)),
                mid[k].0,
                mid[k].1,
            ),
        t_last > t1 + DOUBLE_CLICK_WINDOW_MS,
        !stable_release_at(run_state(spec_update(s, true, t1).0, mid), raw_last, t_last),
    ensures
        ({
            let inputs = gesture_inputs(t1, mid, raw_last, t_last);
            let events = run_events(s, inputs);
            &&& events.len() == inputs.len()
            &&& events[inputs.len() - 1] == Some(UiEvent::ButtonSingleClick)
            &&& forall|k: int| 0 <= k < inputs.len() - 1 ==> events[k] is None
            &&& !run_state(s, inputs).waiting_for_second_click
        }),
{
    let first = seq![(true, t1)];
    let last = seq![(raw_last, t_last)];
    let inputs = first + mid + last;
    let s1 = spec_update(s, true, t1).0;
    let s_mid = run_state(s1, mid);

    lemma_short_release_arms_wait(s, t1);
    assert(first[0] == (true, t1));
    assert(first.drop_first() =~= Seq::<(bool, u64)>::empty());
    assert(run_state(s1, Seq::<(bool, u64)>::empty()) == s1);
    assert(run_events(s1, Seq::<(bool, u64)>::empty()) =~= Seq::<Option<UiEvent>>::empty());
    assert(run_state(s, first) == s1);
    assert(run_events(s, first) =~= seq![Option::<UiEvent>::None]);

    // The polls up to the deadline keep the wait armed and stay silent.
    lemma_armed_wait_quiet_span(s1, mid);

    // The first poll past the deadline resolves the wait to a single click.
    lemma_single_click_timeout(s_mid, raw_last, t_last);
    assert(last[0] == (raw_last, t_last));
    assert(last.drop_first() =~= Seq::<(bool, u64)>::empty());
    assert(run_events(spec_update(s_mid, raw_last, t_last).0, Seq::<(bool, u64)>::empty())
        =~= Seq::<Option<UiEvent>>::empty());
    assert(run_state(spec_update(s_mid, raw_last, t_last).0, Seq::<(bool, u64)>::empty())
        == spec_update(s_mid, raw_last, t_last).0);
    assert(run_events(s_mid, last) =~= seq![Some(UiEvent::ButtonSingleClick)]);

    lemma_run_concat(s, first, mid);
    lemma_run_concat(s, first + mid, last);
    assert(first + mid + last =~= (first + mid) + last);
    assert(run_state(s, first + mid) == s_mid);
    lemma_run_events_len(s1, mid);
    lemma_run_events_len(s, inputs);

    let events = run_events(s, inputs);
    assert(events =~= run_events(s, first) + run_events(s1, mid) + run_events(s_mid, last));
    assert(events[inputs.len() - 1] == Some(UiEvent::ButtonSingleClick));
    assert forall|k: int| 0 <= k < inputs.len() - 1 implies events[k] is None by {
        if k >= 1 {
            assert(events[k] == run_events(s1, mid)[k - 1]);
        }
    }
}

/// Long press, over the whole gesture: a stable release after a hold of at
/// least the long-press threshold reports the long press at once, and —
/// however long the line then stays quiet of completed releases — nothing
/// further: in particular no click for the same gesture.
pub proof fn lemma_long_press_run(s: InputManager, t1: u64, rest: Seq<(bool, u64)>)
    requires
        stable_release_at(s, true, t1),
        spec_hold_ms(s, t1) >= LONG_PRESS_MS,
        forall|k: int|
            0 <= k < rest.len() ==> !stable_release_at(
                run_state(spec_update(s, true, t1).0, rest.take(k)),
                rest[k].0,
                rest[k].1,
            ),
    ensures
        ({
            let inputs = seq![(true, t1)] + rest;
            let events = run_events(s, inputs);
            &&& events.len() == inputs.len()
            &&& events[0] == Some(UiEvent::ButtonLongPress)
            &&& forall|k: int| 1 <= k < inputs.len() ==> events[k] is None
            &&& !run_state(s, inputs).waiting_for_second_click
        }),
{
    let first = seq![(true, t1)];
    let inputs = first + rest;
    let s1 = spec_update(s, true, t1).0;

    lemma_long_press_release(s, t1);
    assert(first[0] == (true, t1));
    assert(first.drop_first() =~= Seq::<(bool, u64)>::empty());
    assert(run_state(s1, Seq::<(bool, u64)>::empty()) == s1);
    assert(run_events(s1, Seq::<(bool, u64)>::empty()) =~= Seq::<Option<UiEvent>>::empty());
    assert(run_state(s, first) == s1);
    assert(run_events(s, first) =~= seq![Some(UiEvent::ButtonLongPress)]);

    lemma_no_wait_quiet_span(s1, rest);

    lemma_run_concat(s, first, rest);
    lemma_run_events_len(s1, rest);
    lemma_run_events_len(s, inputs);

    let events = run_events(s, inputs);
    assert(events =~= run_events(s, first) + run_events(s1, rest));
    assert forall|k: int| 1 <= k < inputs.len() implies events[k] is None by {
        assert(events[k] == run_events(s1, rest)[k - 1]);
    }
}

/// Separated releases: two stable short releases, each resolved by a poll
/// past its own double-click deadline and with no other stable release edge
/// anywhere between, report exactly two single clicks — one per gesture —
/// and nothing else.
pub proof fn lemma_two_separated_single_clicks(
    s: InputManager,
    t1: u64,
    mid1: Seq<(bool, u64)>,
    raw_k: bool,
    tk: u64,
    quiet: Seq<(bool, u64)>,
    t2: u64,
    mid2: Seq<(bool, u64)>,
    raw_m: bool,
    tm: u64,
)
    requires
        // The first gesture, from a state with no armed wait.
        !s.waiting_for_second_click,
        stable_release_at(s, true, t1),
        spec_hold_ms(s, t1) < LONG_PRESS_MS,
        forall|k: int|
            0 <= k < mid1.len() ==> #[trigger] mid1[k].1 <= t1 + DOUBLE_CLICK_WINDOW_MS,
        forall|k: int|
            0 <= k < mid1.len() ==> !stable_release_at(
                run_state(spec_update(s, true, t1).0, mid1.take(k)),
                mid1[k].0,
                mid1[k].1,
            ),
        tk > t1 + DOUBLE_CLICK_WINDOW_MS,
        !stable_release_at(run_state(spec_update(s, true, t1).0, mid1), raw_k, tk),
        // The stretch between the gestures completes no release.
        forall|k: int|
            0 <= k < quiet.len() ==> !stable_release_at(
                run_state(run_state(s, gesture_inputs(t1, mid1, raw_k, tk)), quiet.take(k)),
                quiet[k].0,
                quiet[k].1,
            ),
        // The second gesture.
        stable_release_at(
            run_state(run_state(s, gesture_inputs(t1, mid1, raw_k, tk)), quiet),
            true,
            t2,
        ),
        spec_hold_ms(
            run_state(run_state(s, gesture_inputs(t1, mid1, raw_k, tk)), quiet),
            t2,
        ) < LONG_PRESS_MS,
        forall|k: int|
            0 <= k < mid2.len() ==> #[trigger] mid2[k].1 <= t2 + DOUBLE_CLICK_WINDOW_MS,
        forall|k: int|
            0 <= k < mid2.len() ==> !stable_release_at(
                run_state(
                    spec_update(
                        run_state(run_state(s, gesture_inputs(t1, mid1, raw_k, tk)), quiet),
                        true,
                        t2,
                    ).0,
                    mid2.take(k),
                ),
                mid2[k].0,
                mid2[k].1,
            ),
        tm > t2 + DOUBLE_CLICK_WINDOW_MS,
        !stable_release_at(
            run_state(
                spec_update(
                    run_state(run_state(s, gesture_inputs(t1, mid1, raw_k, tk)), quiet),
                    true,
                    t2,
                ).0,
                mid2,
            ),
            raw_m,
            tm,
        ),
    ensures
        ({
            let first = gesture_inputs(t1, mid1, raw_k, tk);
            let second = gesture_inputs(t2, mid2, raw_m, tm);
            let inputs = first + quiet + second;
            let events = run_events(s, inputs);
            &&& events.len() == inputs.len()
            &&& events[first.len() - 1] == Some(UiEvent::ButtonSingleClick)
            &&& events[inputs.len() - 1] == Some(UiEvent::ButtonSingleClick)
            &&& forall|k: int|
                0 <= k < inputs.len() && k != first.len() - 1 && k != inputs.len() - 1
                    ==> events[k] is None
            &&& !run_state(s, inputs).waiting_for_second_click
        }),
{
    let first = gesture_inputs(t1, mid1, raw_k, tk);
    let second = gesture_inputs(t2, mid2, raw_m, tm);
    let inputs = first + quiet + second;
    let sa = run_state(s, first);
    let sb = run_state(sa, quiet);

    lemma_single_click_run(s, t1, mid1, raw_k, tk);
    lemma_no_wait_quiet_span(sa, quiet);
    lemma_single_click_run(sb, t2, mid2, raw_m, tm);

    lemma_run_concat(s, first, quiet);
    lemma_run_concat(s, first + quiet, second);
    assert(first + quiet + second =~= (first + quiet) + second);
    assert(run_state(s, first + quiet) == sb);

    lemma_run_events_len(s, first);
    lemma_run_events_len(sa, quiet);
    lemma_run_events_len(sb, second);
    lemma_run_events_len(s, inputs);

    let events = run_events(s, inputs);
    assert(events =~= run_events(s, first) + run_events(sa, quiet) + run_events(sb, second));
    assert(events[first.len() - 1] == run_events(s, first)[first.len() - 1]);
    assert(events[inputs.len() - 1] == run_events(sb, second)[second.len() - 1]);
    assert forall|k: int|
        0 <= k < inputs.len() && k != first.len() - 1 && k != inputs.len() - 1 implies events[k]
        is None by {
        if k < first.len() {
            assert(events[k] == run_events(s, first)[k]);
        } else if k < first.len() + quiet.len() {
            assert(events[k] == run_events(sa, quiet)[k - first.len()]);
        } else {
            assert(events[k] == run_events(sb, second)[k - first.len() - quiet.len()]);
        }
    }
}

} // verus!
