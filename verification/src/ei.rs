//! Activity classification over a filled feature window.
//!
//! `classify` runs the reference inference heuristic on a full window and
//! gates its scores; `classify_scores` is that gate alone, shared with any
//! other inference backend: it picks the winning label — the first maximum
//! under a strict-greater comparison, so ties resolve to the lowest label
//! index — and reports it only when its confidence clears the threshold.
//! Below the threshold there is no result at all, which is not an error.

use vstd::prelude::*;

use crate::config::{
    EI_CONFIDENCE_THRESHOLD_PM, EI_DSP_INPUT_FRAME_SIZE, EI_LABEL_COUNT, STUB_IDLE_MAX_MILLI_G,
    STUB_RUN_MAX_MILLI_G, STUB_WALK_MAX_MILLI_G,
};
use crate::events::{spec_from_label, ActivityClass};

verus! {

/// Result of a single inference pass: the winning label and its confidence
/// in per-mille (0..=1000).
#[derive(Debug, Clone, Copy, PartialEq, Eq, Structural)]
pub struct ClassifierResult {
    pub activity: ActivityClass,
    pub confidence: u16,
}

/// The model's label strings, in model output order.
pub open spec fn spec_label_of(index: int) -> Seq<char> {
    if index == 0 {
        "idle"@
    } else if index == 1 {
        "snake"@
    } else if index == 2 {
        "updown"@
    } else {
        "wave"@
    }
}

/// The class behind a label index.
pub open spec fn spec_class_of(index: int) -> ActivityClass {
    spec_from_label(spec_label_of(index))
}

/// The label string at a model output index.
pub fn label_of(index: usize) -> (r: &'static str)
    requires
        index < EI_LABEL_COUNT,
    ensures
        r@ == spec_label_of(index as int),
{
    if index == 0 {
        "idle"
    } else if index == 1 {
        "snake"
    } else if index == 2 {
        "updown"
    } else {
        "wave"
    }
}

/// Index of the leftmost maximal score among the first `n`: a later score
/// only wins by being strictly greater.
pub open spec fn spec_first_max_idx(preds: Seq<u16>, n: int) -> int
    decreases n,
{
    if n <= 1 {
        0
    } else {
        let b = spec_first_max_idx(preds, n - 1);
        if preds[n - 1] > preds[b] {
            n - 1
        } else {
            b
        }
    }
}

/// The leftmost maximal index lies among the first `n` scores.
pub proof fn lemma_first_max_in_range(preds: Seq<u16>, n: int)
    requires
        1 <= n,
    ensures
        0 <= spec_first_max_idx(preds, n) < n,
    decreases n,
{
    if n > 1 {
        lemma_first_max_in_range(preds, n - 1);
    }
}

/// What the score gate reports: the winning label and confidence when the
/// winner clears the threshold, nothing otherwise.
pub open spec fn spec_classify_scores(preds: Seq<u16>) -> Option<ClassifierResult> {
    let i = spec_first_max_idx(preds, preds.len() as int);
    if preds[i] >= EI_CONFIDENCE_THRESHOLD_PM {
        Some(ClassifierResult { activity: spec_class_of(i), confidence: preds[i] })
    } else {
        None
    }
}

/// Find the winning score: the first maximum under strict-greater
/// comparison, so equal scores resolve to the lowest label index.
pub fn select_best(preds: &[u16; EI_LABEL_COUNT]) -> (best: (usize, u16))
    ensures
        best.0 < EI_LABEL_COUNT,
        best.0 == spec_first_max_idx(preds@, EI_LABEL_COUNT as int),
        preds@[best.0 as int] == best.1,
        forall|j: int| 0 <= j < EI_LABEL_COUNT ==> preds@[j] <= best.1,
        forall|j: int| 0 <= j < best.0 ==> preds@[j] < best.1,
{
    let mut best_idx: usize = 0;
    let mut best_val: u16 = preds[0];
    let mut i: usize = 1;
    while i < EI_LABEL_COUNT
        invariant
            1 <= i <= EI_LABEL_COUNT,
            best_idx < i,
            best_idx == spec_first_max_idx(preds@, i as int),
            preds@[best_idx as int] == best_val,
            forall|j: int| 0 <= j < i ==> preds@[j] <= best_val,
            forall|j: int| 0 <= j < best_idx ==> preds@[j] < best_val,
        decreases EI_LABEL_COUNT - i,
    {
        if preds[i] > best_val {
            best_idx = i;
            best_val = preds[i];
        }
        i += 1;
    }
    (best_idx, best_val)
}

/// Gate a score vector: report the winning label only when its confidence
/// clears the threshold. No score clearing it means no result — and that is
/// the case exactly when every score is below the threshold.
pub fn classify_scores(preds: &[u16; EI_LABEL_COUNT]) -> (r: Option<ClassifierResult>)
    ensures
        r == spec_classify_scores(preds@),
        r is None <==> (forall|j: int|
            0 <= j < EI_LABEL_COUNT ==> preds@[j] < EI_CONFIDENCE_THRESHOLD_PM),
        r matches Some(c) ==> c.confidence >= EI_CONFIDENCE_THRESHOLD_PM,
{
    let (best_idx, best_val) = select_best(preds);
    if best_val >= EI_CONFIDENCE_THRESHOLD_PM {
        let activity = ActivityClass::from_label(label_of(best_idx));
        Some(ClassifierResult { activity, confidence: best_val })
    } else {
        None
    }
}

/// Magnitude of one reading.
pub open spec fn spec_abs(v: int) -> int {
    if v < 0 {
        -v
    } else {
        v
    }
}

/// Sum of the magnitudes of a window's readings.
pub open spec fn spec_sum_abs(s: Seq<i32>) -> int
    decreases s.len(),
{
    if s.len() == 0 {
        0
    } else {
        spec_sum_abs(s.drop_last()) + spec_abs(s.last() as int)
    }
}

/// Mean absolute acceleration of a window, in milli-g.
pub open spec fn spec_mean_abs_milli_g(s: Seq<i32>) -> int {
    spec_sum_abs(s) / (s.len() as int)
}

/// The reference heuristic's per-class scores (idle, snake, updown, wave)
/// for a window, chosen by its mean absolute acceleration.
pub open spec fn spec_stub_scores(s: Seq<i32>) -> Seq<u16> {
    let mean = spec_mean_abs_milli_g(s);
    if mean < STUB_IDLE_MAX_MILLI_G {
        seq![900u16, 30u16, 40u16, 30u16]
    } else if mean < STUB_WALK_MAX_MILLI_G {
        seq![50u16, 50u16, 850u16, 50u16]
    } else if mean < STUB_RUN_MAX_MILLI_G {
        seq![30u16, 40u16, 50u16, 880u16]
    } else {
        seq![20u16, 920u16, 30u16, 30u16]
    }
}

/// Reference inference heuristic: score the window by its mean absolute
/// acceleration — still idle, moderate motion walking, stronger motion
/// running, extreme motion a fall. It stands in for the trained model so
/// the rest of the pipeline exercises the same score gate.
pub fn stub_inference(features: &Vec<i32>) -> (preds: [u16; EI_LABEL_COUNT])
    requires
        features@.len() == EI_DSP_INPUT_FRAME_SIZE,
    ensures
        preds@ == spec_stub_scores(features@),
{
    let mut sum: i64 = 0;
    let mut i: usize = 0;
    while i < features.len()
        invariant
            features@.len() == EI_DSP_INPUT_FRAME_SIZE,
            0 <= i <= EI_DSP_INPUT_FRAME_SIZE,
            sum == spec_sum_abs(features@.take(i as int)),
            0 <= sum <= i * 0x8000_0000,
        decreases features@.len() - i,
    {
        let v = features[i];
        let a: i64 = if v < 0 {
            -(v as i64)
        } else {
            v as i64
        };
        proof {
            assert(features@.take(i + 1).drop_last() =~= features@.take(i as int));
            assert(features@.take(i + 1).last() == features@[i as int]);
        }
        sum = sum + a;
        i += 1;
    }
    proof {
        assert(features@.take(EI_DSP_INPUT_FRAME_SIZE as int) =~= features@);
    }
    let mean: u64 = (sum as u64) / (EI_DSP_INPUT_FRAME_SIZE as u64);
    if mean < STUB_IDLE_MAX_MILLI_G {
        [900, 30, 40, 30]
    } else if mean < STUB_WALK_MAX_MILLI_G {
        [50, 50, 850, 50]
    } else if mean < STUB_RUN_MAX_MILLI_G {
        [30, 40, 50, 880]
    } else {
        [20, 920, 30, 30]
    }
}

/// Run activity classification on a filled feature window, using the
/// reference heuristic as the inference backend and the shared score gate.
/// Every heuristic score vector clears the threshold, so each mean-range
/// maps to its class with the heuristic's confidence.
pub fn classify(features: &Vec<i32>) -> (r: Option<ClassifierResult>)
    requires
        features@.len() == EI_DSP_INPUT_FRAME_SIZE,
    ensures
        r == spec_classify_scores(spec_stub_scores(features@)),
        spec_mean_abs_milli_g(features@) < STUB_IDLE_MAX_MILLI_G ==> r == Some(
            ClassifierResult { activity: ActivityClass::Idle, confidence: 900u16 },
        ),
        STUB_IDLE_MAX_MILLI_G <= spec_mean_abs_milli_g(features@) < STUB_WALK_MAX_MILLI_G ==> r
            == Some(ClassifierResult { activity: ActivityClass::UpDown, confidence: 850u16 }),
        STUB_WALK_MAX_MILLI_G <= spec_mean_abs_milli_g(features@) < STUB_RUN_MAX_MILLI_G ==> r
            == Some(ClassifierResult { activity: ActivityClass::Wave, confidence: 880u16 }),
        spec_mean_abs_milli_g(features@) >= STUB_RUN_MAX_MILLI_G ==> r == Some(
            ClassifierResult { activity: ActivityClass::Snake, confidence: 920u16 },
        ),
{
    let preds = stub_inference(features);
    let r = classify_scores(&preds);
    proof {
        lemma_stub_scores_classify(features@);
    }
    r
}

/// Each heuristic score vector wins at its own label and clears the
/// threshold.
proof fn lemma_stub_scores_classify(s: Seq<i32>)
    ensures
        spec_mean_abs_milli_g(s) < STUB_IDLE_MAX_MILLI_G ==> spec_classify_scores(
            spec_stub_scores(s),
        ) == Some(ClassifierResult { activity: ActivityClass::Idle, confidence: 900u16 }),
        STUB_IDLE_MAX_MILLI_G <= spec_mean_abs_milli_g(s) < STUB_WALK_MAX_MILLI_G
            ==> spec_classify_scores(spec_stub_scores(s)) == Some(
            ClassifierResult { activity: ActivityClass::UpDown, confidence: 850u16 },
        ),
        STUB_WALK_MAX_MILLI_G <= spec_mean_abs_milli_g(s) < STUB_RUN_MAX_MILLI_G
            ==> spec_classify_scores(spec_stub_scores(s)) == Some(
            ClassifierResult { activity: ActivityClass::Wave, confidence: 880u16 },
        ),
        spec_mean_abs_milli_g(s) >= STUB_RUN_MAX_MILLI_G ==> spec_classify_scores(
            spec_stub_scores(s),
        ) == Some(ClassifierResult { activity: ActivityClass::Snake, confidence: 920u16 }),
{
    reveal_with_fuel(spec_first_max_idx, 5);
    proof_strlit_distinct();
}

/// The four label strings are pairwise distinct.
proof fn proof_strlit_distinct()
    ensures
        "idle"@ != "snake"@,
        "idle"@ != "updown"@,
        "idle"@ != "wave"@,
        "snake"@ != "updown"@,
        "snake"@ != "wave"@,
        "updown"@ != "wave"@,
{
    reveal_strlit("idle");
    reveal_strlit("snake");
    reveal_strlit("updown");
    reveal_strlit("wave");
    assert("idle"@.len() == 4);
    assert("snake"@.len() == 5);
    assert("updown"@.len() == 6);
    assert("wave"@.len() == 4);
    assert("idle"@[0] == 'i' && "wave"@[0] == 'w');
}

} // verus!
