//! Windowing and classification consumer.
//!
//! Frames arrive one at a time; each frame's three acceleration axes are
//! appended to a fixed-size feature window. A window is classified only
//! when completely full, and the buffer is reset unconditionally after
//! every classification attempt, so partial data never leaks into the next
//! window. A qualifying result refreshes the liveness clock and raises an
//! activity-changed UI event; a sub-threshold or failed classification does
//! neither.

use vstd::prelude::*;

use crate::config::{
    EI_CONFIDENCE_THRESHOLD_PM, EI_DSP_INPUT_FRAME_SIZE, EI_LABEL_COUNT, EI_RAW_SAMPLES_PER_FRAME,
};
use crate::ei::{
    classify, lemma_first_max_in_range, spec_classify_scores, spec_stub_scores, ClassifierResult,
};
use crate::events::{SensorData, UiEvent};

verus! {

/// The feature window: acceleration axes of consecutive frames, flattened,
/// owned exclusively by the classification consumer.
#[derive(Debug)]
pub struct FeatureWindow {
    buf: Vec<i32>,
}

impl View for FeatureWindow {
    type V = Seq<i32>;

    closed spec fn view(&self) -> Seq<i32> {
        self.buf@
    }
}

/// The window contents after the overrun guard: a window that three more
/// values would overfill restarts empty first (this can only arise from a
/// caller assembling a window by hand — frame-by-frame filling always
/// classifies and resets at exactly the full size).
pub open spec fn spec_after_guard(w: Seq<i32>) -> Seq<i32> {
    if w.len() + 3 > EI_DSP_INPUT_FRAME_SIZE {
        Seq::empty()
    } else {
        w
    }
}

/// A frame's contribution to the window, in axis order.
pub open spec fn spec_frame_axes(d: SensorData) -> Seq<i32> {
    seq![d.ax, d.ay, d.az]
}

impl FeatureWindow {
    /// A fresh, empty window.
    pub fn new() -> (w: Self)
        ensures
            w@ == Seq::<i32>::empty(),
    {
        FeatureWindow { buf: Vec::new() }
    }

    /// How many values the window currently holds.
    pub fn stored(&self) -> (n: usize)
        ensures
            n == self@.len(),
    {
        self.buf.len()
    }

    /// Append one frame's acceleration axes. Exactly at the full size — and
    /// never below it — the whole window is handed out for classification
    /// and the buffer restarts empty.
    pub fn push_frame(&mut self, d: &SensorData) -> (full: Option<Vec<i32>>)
        ensures
            ({
                let appended = spec_after_guard(old(self)@) + spec_frame_axes(*d);
                let after = final(self)@;
                &&& (appended.len() == EI_DSP_INPUT_FRAME_SIZE ==> (full matches Some(w)
                    && w@ == appended && after == Seq::<i32>::empty()))
                &&& (appended.len() != EI_DSP_INPUT_FRAME_SIZE ==> (full is None
                    && after == appended))
            }),
            full matches Some(w) ==> w@.len() == EI_DSP_INPUT_FRAME_SIZE,
            full is Some ==> final(self)@.len() == 0,
    {
        if self.buf.len() > EI_DSP_INPUT_FRAME_SIZE - EI_RAW_SAMPLES_PER_FRAME {
            // Overrun guard — reset gracefully rather than overfill.
            self.buf.clear();
        }
        self.buf.push(d.ax);
        self.buf.push(d.ay);
        self.buf.push(d.az);
        proof {
            assert(self.buf@ =~= spec_after_guard(old(self)@) + spec_frame_axes(*d));
        }
        if self.buf.len() == EI_DSP_INPUT_FRAME_SIZE {
            let w = self.buf.split_off(0);
            proof {
                assert(self.buf@ =~= Seq::<i32>::empty());
                assert(w@ =~= spec_after_guard(old(self)@) + spec_frame_axes(*d));
            }
            Some(w)
        } else {
            None
        }
    }
}

/// What the consumer does after a classification attempt: whether to
/// refresh the shared liveness clock, and the UI event to enqueue.
#[derive(Debug, Clone, Copy, PartialEq, Eq, Structural)]
pub struct AiAction {
    pub refresh_liveness: bool,
    pub event: Option<UiEvent>,
}

/// The action a classification attempt's outcome calls for: a qualifying
/// result refreshes the liveness clock and raises an activity-changed
/// event; no result does neither.
pub open spec fn spec_apply_classification(r: Option<ClassifierResult>) -> AiAction {
    match r {
        Some(c) => AiAction {
            refresh_liveness: true,
            event: Some(UiEvent::UpdateActivity(c.activity)),
        },
        None => AiAction { refresh_liveness: false, event: None },
    }
}

/// Turn a classification attempt's outcome into the consumer's action.
pub fn apply_classification(result: &Option<ClassifierResult>) -> (a: AiAction)
    ensures
        a == spec_apply_classification(*result),
{
    match result {
        Some(c) => AiAction {
            refresh_liveness: true,
            event: Some(UiEvent::UpdateActivity(c.activity)),
        },
        None => AiAction { refresh_liveness: false, event: None },
    }
}

/// One step of the classification consumer: absorb a frame, classify when —
/// and only when — the window is full, and reset it afterwards.
pub fn ai_step(window: &mut FeatureWindow, d: &SensorData) -> (a: AiAction)
    ensures
        ({
            let appended = spec_after_guard(old(window)@) + spec_frame_axes(*d);
            let after = final(window)@;
            &&& (appended.len() == EI_DSP_INPUT_FRAME_SIZE ==> (after == Seq::<i32>::empty()
                && a == spec_apply_classification(
                spec_classify_scores(spec_stub_scores(appended)),
            )))
            &&& (appended.len() != EI_DSP_INPUT_FRAME_SIZE ==> (after == appended && a
                == (AiAction { refresh_liveness: false, event: None::<UiEvent> })))
        }),
{
    match window.push_frame(d) {
        Some(features) => {
            let result = classify(&features);
            apply_classification(&result)
        },
        None => AiAction { refresh_liveness: false, event: None },
    }
}

/// Sub-threshold classification is silent: scores that all miss the
/// confidence threshold produce no UI event and leave the liveness clock
/// untouched.
pub proof fn lemma_subthreshold_silent(preds: Seq<u16>)
    requires
        preds.len() == EI_LABEL_COUNT,
        forall|j: int| 0 <= j < preds.len() ==> preds[j] < EI_CONFIDENCE_THRESHOLD_PM,
    ensures
        spec_classify_scores(preds) is None,
        spec_apply_classification(spec_classify_scores(preds)) == (AiAction {
            refresh_liveness: false,
            event: None::<UiEvent>,
        }),
{
    lemma_first_max_in_range(preds, preds.len() as int);
}

} // verus!
