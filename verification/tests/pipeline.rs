//! Tests for the feature window, the classifier gate, and the consumer
//! step.

use plastiwatch::ai::{ai_step, apply_classification, FeatureWindow};
use plastiwatch::config::{EI_DSP_INPUT_FRAME_SIZE, EI_RAW_SAMPLE_COUNT};
use plastiwatch::ei::{classify, classify_scores, select_best, ClassifierResult};
use plastiwatch::events::{ActivityClass, SensorData, UiEvent};

fn frame(milli_g: i32) -> SensorData {
    SensorData { ax: milli_g, ay: milli_g, az: milli_g, gx: 0, gy: 0, gz: 0 }
}

#[test]
fn window_fills_after_exactly_125_frames() {
    let mut w = FeatureWindow::new();
    for i in 0..(EI_RAW_SAMPLE_COUNT - 1) {
        let full = w.push_frame(&frame(100));
        assert!(full.is_none(), "frame {i} must not fill the window");
        assert_eq!(w.stored(), (i + 1) * 3);
    }
    let full = w.push_frame(&frame(100));
    let values = full.expect("the 125th frame completes the window");
    assert_eq!(values.len(), EI_DSP_INPUT_FRAME_SIZE);
    assert_eq!(w.stored(), 0, "the window resets after handing itself out");
}

#[test]
fn window_resets_after_every_attempt() {
    let mut w = FeatureWindow::new();
    for round in 0..3 {
        for _ in 0..(EI_RAW_SAMPLE_COUNT - 1) {
            assert!(w.push_frame(&frame(2000)).is_none());
        }
        assert!(w.push_frame(&frame(2000)).is_some(), "round {round}");
        assert_eq!(w.stored(), 0);
    }
}

#[test]
fn still_window_classifies_idle_with_high_confidence() {
    // Mean absolute value 0.1 g: the reference heuristic reports idle with
    // confidence at least 0.8.
    let features = vec![100i32; EI_DSP_INPUT_FRAME_SIZE];
    let r = classify(&features).expect("idle scores clear the threshold");
    assert_eq!(r.activity, ActivityClass::Idle);
    assert!(r.confidence >= 800);
}

#[test]
fn heuristic_ranges_map_to_their_classes() {
    let cases = [
        (100, ActivityClass::Idle, 900),
        (500, ActivityClass::UpDown, 850),
        (1000, ActivityClass::Wave, 880),
        (2000, ActivityClass::Snake, 920),
    ];
    for (milli_g, activity, confidence) in cases {
        let features = vec![milli_g; EI_DSP_INPUT_FRAME_SIZE];
        let r = classify(&features).unwrap();
        assert_eq!(r, ClassifierResult { activity, confidence });
    }
}

#[test]
fn subthreshold_scores_yield_no_result() {
    assert_eq!(classify_scores(&[699, 699, 699, 699]), None);
    assert_eq!(classify_scores(&[0, 0, 0, 0]), None);
    let r = classify_scores(&[700, 0, 0, 0]).unwrap();
    assert_eq!(r.activity, ActivityClass::Idle);
    assert_eq!(r.confidence, 700);
}

#[test]
fn ties_resolve_to_the_lowest_label_index() {
    assert_eq!(select_best(&[800, 800, 800, 800]), (0, 800));
    assert_eq!(select_best(&[10, 20, 20, 5]), (1, 20));
    let r = classify_scores(&[800, 800, 800, 800]).unwrap();
    assert_eq!(r.activity, ActivityClass::Idle);
}

#[test]
fn winner_below_threshold_is_discarded_even_with_runners_up() {
    assert_eq!(classify_scores(&[100, 650, 600, 0]), None);
}

#[test]
fn subthreshold_result_is_silent() {
    // No result: no UI event and no liveness refresh.
    let a = apply_classification(&None);
    assert!(!a.refresh_liveness);
    assert_eq!(a.event, None);

    let a = apply_classification(&Some(ClassifierResult {
        activity: ActivityClass::Wave,
        confidence: 880,
    }));
    assert!(a.refresh_liveness);
    assert_eq!(a.event, Some(UiEvent::UpdateActivity(ActivityClass::Wave)));
}

#[test]
fn consumer_step_only_acts_on_a_full_window() {
    let mut w = FeatureWindow::new();
    for _ in 0..(EI_RAW_SAMPLE_COUNT - 1) {
        let a = ai_step(&mut w, &frame(100));
        assert!(!a.refresh_liveness);
        assert_eq!(a.event, None);
    }
    let a = ai_step(&mut w, &frame(100));
    assert!(a.refresh_liveness);
    assert_eq!(a.event, Some(UiEvent::UpdateActivity(ActivityClass::Idle)));
    assert_eq!(w.stored(), 0);
}
