use touch_sense::configurator::SamplingMode;
use touch_sense::detector::{ThresholdDetector, TouchState, MARGIN_DEFENSIVE, MARGIN_STEADY};
use touch_sense::reading::Reading;

#[test]
fn classify_against_baseline_100_and_margin_200() {
    let mut detector = ThresholdDetector::new(200);
    assert_eq!(detector.classify(Reading::new(100)), TouchState::Untouched);
    assert_eq!(detector.baseline(), Some(Reading::new(100)));
    assert_eq!(detector.threshold(), Some(300));
    assert_eq!(detector.classify(Reading::new(350)), TouchState::Touched);
    assert_eq!(detector.classify(Reading::new(300)), TouchState::Untouched);
    assert_eq!(detector.classify(Reading::new(250)), TouchState::Untouched);
    assert_eq!(detector.classify(Reading::new(301)), TouchState::Touched);
}

#[test]
fn first_reading_is_untouched_whatever_it_is() {
    for value in [0u16, 1, 100, 16383, 0xAAAA, 65535] {
        let mut detector = ThresholdDetector::new(0);
        assert_eq!(detector.baseline(), None);
        assert_eq!(detector.threshold(), None);
        assert_eq!(detector.classify(Reading::new(value)), TouchState::Untouched);
        assert_eq!(detector.baseline(), Some(Reading::new(value)));
    }
}

#[test]
fn threshold_does_not_move_after_the_first_reading() {
    let mut detector = ThresholdDetector::new(100);
    detector.classify(Reading::new(500));
    for value in [0u16, 10_000, 600, 601, 599, 65535] {
        detector.classify(Reading::new(value));
        assert_eq!(detector.baseline(), Some(Reading::new(500)));
        assert_eq!(detector.threshold(), Some(600));
        assert_eq!(detector.margin(), 100);
    }
    assert_eq!(detector.classify(Reading::new(600)), TouchState::Untouched);
    assert_eq!(detector.classify(Reading::new(601)), TouchState::Touched);
}

#[test]
fn threshold_above_the_reading_range_is_never_exceeded() {
    let mut detector = ThresholdDetector::new(200);
    detector.classify(Reading::new(65500));
    assert_eq!(detector.threshold(), Some(65700));
    assert_eq!(detector.classify(Reading::new(65535)), TouchState::Untouched);
    let mut failed_first = ThresholdDetector::new(100);
    failed_first.classify(Reading::invalid());
    assert_eq!(failed_first.threshold(), Some(0xAAAA + 100));
    assert_eq!(failed_first.classify(Reading::from_raw(65535)), TouchState::Untouched);
}

#[test]
fn reference_margins() {
    assert_eq!(MARGIN_STEADY, 100);
    assert_eq!(MARGIN_DEFENSIVE, 200);
    assert_eq!(ThresholdDetector::reference(SamplingMode::SteadyState).margin(), 100);
    assert_eq!(ThresholdDetector::reference(SamplingMode::Defensive).margin(), 200);
    assert_eq!(ThresholdDetector::reference(SamplingMode::Defensive).baseline(), None);
}
