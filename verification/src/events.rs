//! System events and shared data types: one IMU reading, the activity
//! classes the model can report, and the events the render loop consumes.

use vstd::prelude::*;
use vstd::string::StrSliceExecFns;

verus! {

// ---------------------------------------------------------------------------
// Sensor data (6-axis IMU reading)
// ---------------------------------------------------------------------------

/// One instant of motion data: acceleration in milli-g, angular rate in
/// milli-degrees-per-second.
#[derive(Debug, Clone, Copy, PartialEq, Eq, Structural)]
pub struct SensorData {
    pub ax: i32,
    pub ay: i32,
    pub az: i32,
    pub gx: i32,
    pub gy: i32,
    pub gz: i32,
}

impl Default for SensorData {
    fn default() -> (r: Self)
        ensures
            r.ax == 0 && r.ay == 0 && r.az == 0,
            r.gx == 0 && r.gy == 0 && r.gz == 0,
    {
        SensorData { ax: 0, ay: 0, az: 0, gx: 0, gy: 0, gz: 0 }
    }
}

// ---------------------------------------------------------------------------
// Activity classification
// ---------------------------------------------------------------------------

#[derive(Debug, Clone, Copy, PartialEq, Eq, Structural)]
pub enum ActivityClass {
    Idle,
    Snake,
    UpDown,
    Wave,
}

/// The class a model label string denotes; unknown labels fall back to Idle.
pub open spec fn spec_from_label(label: Seq<char>) -> ActivityClass {
    if label == "idle"@ {
        ActivityClass::Idle
    } else if label == "snake"@ {
        ActivityClass::Snake
    } else if label == "updown"@ {
        ActivityClass::UpDown
    } else if label == "wave"@ {
        ActivityClass::Wave
    } else {
        ActivityClass::Idle
    }
}

/// The text shown for a class on the activity screen.
pub open spec fn spec_display_name(c: ActivityClass) -> Seq<char> {
    match c {
        ActivityClass::Idle => "normal"@,
        ActivityClass::Snake => "fall!"@,
        ActivityClass::UpDown => "walking"@,
        ActivityClass::Wave => "running"@,
    }
}

impl ActivityClass {
    /// Human-readable label for the display and for diagnostics.
    pub fn display_name(&self) -> (r: &'static str)
        ensures
            r@ == spec_display_name(*self),
    {
        match self {
            ActivityClass::Idle => "normal",
            ActivityClass::Snake => "fall!",
            ActivityClass::UpDown => "walking",
            ActivityClass::Wave => "running",
        }
    }

    /// Map a model label string to an `ActivityClass`.
    pub fn from_label(label: &str) -> (r: Self)
        ensures
            r == spec_from_label(label@),
    {
        if str_eq(label, "idle") {
            ActivityClass::Idle
        } else if str_eq(label, "snake") {
            ActivityClass::Snake
        } else if str_eq(label, "updown") {
            ActivityClass::UpDown
        } else if str_eq(label, "wave") {
            ActivityClass::Wave
        } else {
            ActivityClass::Idle
        }
    }
}

impl Default for ActivityClass {
    fn default() -> (r: Self)
        ensures
            r == ActivityClass::Idle,
    {
        ActivityClass::Idle
    }
}

/// Character-by-character string equality.
fn str_eq(a: &str, b: &str) -> (r: bool)
    ensures
        r == (a@ == b@),
{
    let a_len = a.unicode_len();
    let b_len = b.unicode_len();
    if a_len != b_len {
        assert(a@ != b@) by {
            assert(a@.len() != b@.len());
        }
        return false;
    }
    let mut i: usize = 0;
    while i < a_len
        invariant
            0 <= i <= a_len,
            a_len == a@.len(),
            b_len == b@.len(),
            a_len == b_len,
            forall|j: int| 0 <= j < i ==> a@[j] == b@[j],
        decreases a_len - i,
    {
        if a.get_char(i) != b.get_char(i) {
            assert(a@ != b@) by {
                assert(a@[i as int] != b@[i as int]);
            }
            return false;
        }
        i += 1;
    }
    proof {
        assert(a@ =~= b@);
    }
    true
}

// ---------------------------------------------------------------------------
// UI events — produced by the classifier, the button machine, and the power
// policy; consumed in order by the render loop.
// ---------------------------------------------------------------------------

#[derive(Debug, Clone, Copy, PartialEq, Eq, Structural)]
pub enum UiEvent {
    /// The classifier reported a new activity.
    UpdateActivity(ActivityClass),
    /// Battery level changed (whole percent, 0..=100).
    UpdateBattery(u32),
    /// Single button click detected.
    ButtonSingleClick,
    /// Double button click detected.
    ButtonDoubleClick,
    /// Long button press detected.
    ButtonLongPress,
}

} // verus!
