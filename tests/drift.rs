use watcher::drift::{drift_verdict, has_enough_history, can_divide_by, DriftVerdict, MIN_HISTORY};
use watcher::reading::Reading;

fn r(x: f32) -> Reading {
    Reading::from_bits(x.to_bits())
}

/// Population mean and standard deviation, then the verdict.
fn verdict(history: &[f32], current: f32, threshold: f32) -> DriftVerdict {
    let n = history.len() as f32;
    let (std_dev, z) = if history.is_empty() {
        (0.0, 0.0)
    } else {
        let mean = history.iter().sum::<f32>() / n;
        let var = history.iter().map(|x| (x - mean).powi(2)).sum::<f32>() / n;
        let std_dev = var.sqrt();
        (std_dev, (current - mean) / std_dev)
    };
    drift_verdict(history.len(), r(std_dev), r(z), r(threshold))
}

#[test]
fn test_drift_detection_normal() {
    let data = vec![0.1, 0.12, 0.11, 0.13, 0.12];
    let result = verdict(&data, 0.115, 2.5);
    assert!(!result.detected());
}

#[test]
fn test_drift_detection_anomaly() {
    let data = vec![0.1, 0.12, 0.11, 0.13, 0.12];
    let result = verdict(&data, 0.5, 2.5);
    assert!(result.detected());
}

#[test]
fn test_insufficient_history() {
    let data = vec![0.1, 0.2, 0.3];
    let result = verdict(&data, 0.25, 2.5);
    assert!(!result.detected());
    assert_eq!(result, DriftVerdict::InsufficientHistory);
}

#[test]
fn short_history_ignores_value_and_threshold() {
    for len in 0..MIN_HISTORY {
        let v = drift_verdict(len, r(1.0), r(1.0e9), r(0.0));
        assert_eq!(v, DriftVerdict::InsufficientHistory);
    }
    assert!(!has_enough_history(4));
    assert!(has_enough_history(5));
}

#[test]
fn flat_history_has_no_variation() {
    let data = vec![2.0, 2.0, 2.0, 2.0, 2.0];
    assert_eq!(verdict(&data, 100.0, 2.5), DriftVerdict::NoVariation);
    assert!(!can_divide_by(r(-0.0)));
    assert!(can_divide_by(r(0.25)));
}

#[test]
fn threshold_is_exclusive_and_symmetric() {
    assert_eq!(drift_verdict(5, r(1.0), r(2.5), r(2.5)), DriftVerdict::WithinRange);
    assert_eq!(drift_verdict(5, r(1.0), r(-2.6), r(2.5)), DriftVerdict::Detected);
    assert_eq!(drift_verdict(5, r(1.0), r(2.6), r(2.5)), DriftVerdict::Detected);
    assert_eq!(drift_verdict(5, r(1.0), r(f32::NAN), r(2.5)), DriftVerdict::WithinRange);
}

#[test]
fn verdict_texts() {
    assert_eq!(
        DriftVerdict::InsufficientHistory.fixed_explanation().unwrap(),
        "Insufficient history for drift detection"
    );
    assert_eq!(
        DriftVerdict::NoVariation.fixed_explanation().unwrap(),
        "No variation in historical data"
    );
    assert!(DriftVerdict::Detected.fixed_explanation().is_none());
    assert!(DriftVerdict::NoVariation.reports_zero_z());
    assert!(!DriftVerdict::WithinRange.reports_zero_z());
}

#[test]
fn detection_twice_gives_one_answer() {
    let data = vec![0.1, 0.12, 0.11, 0.13, 0.12];
    assert_eq!(verdict(&data, 0.5, 2.5), verdict(&data, 0.5, 2.5));
}

#[test]
fn default_threshold_is_two_and_a_half() {
    assert_eq!(f32::from_bits(watcher::drift::DEFAULT_THRESHOLD_BITS), 2.5);
}
