use video_stream::detector::{DetectionMethod, FrameRateDetector, FrameRateInfo};

const NOW_US: u64 = 1_700_000_000_000_000;

#[test]
fn test_frame_rate_info_creation() {
    let info = FrameRateInfo::new(30_000, DetectionMethod::FromTimestamp, 900);
    assert_eq!(info.fps_milli, 30_000);
    assert_eq!(info.frame_duration_us, 33_333);
    assert_eq!(info.detection_method, DetectionMethod::FromTimestamp);
    assert_eq!(info.confidence_milli, 900);
}

#[test]
fn test_default_frame_rate() {
    let info = FrameRateInfo::default_fps();
    assert_eq!(info.fps_milli, 30_000);
    assert_eq!(info.detection_method, DetectionMethod::Default);
}

#[test]
fn test_detector_creation() {
    let detector = FrameRateDetector::new();
    assert!(detector.get_fps().is_none());
    assert_eq!(detector.get_confidence(), 0);
}

#[test]
fn test_detector_with_max_samples() {
    let detector = FrameRateDetector::with_max_samples(10);
    assert_eq!(detector.max_samples, 10);
}

#[test]
fn test_add_timestamp_sample() {
    let mut detector = FrameRateDetector::new();

    detector.add_timestamp_sample(0, NOW_US);
    assert_eq!(detector.timestamp_history.len(), 1);

    detector.add_timestamp_sample(33_333, NOW_US + 33_333);
    assert_eq!(detector.timestamp_history.len(), 2);
}

#[test]
fn test_detect_from_timestamps_30fps() {
    let mut detector = FrameRateDetector::new();
    let frame_interval_us: u64 = 33_333;

    for i in 0..15u64 {
        let pts = i * frame_interval_us;
        detector.add_timestamp_sample(pts, NOW_US + pts);
    }

    let result = detector.detect_from_timestamps();
    assert!(result.is_ok());

    let info = result.unwrap();
    assert!((info.fps_milli as i64 - 30_000).abs() < 1_500, "FPS: {}", info.fps_milli);
    assert_eq!(info.detection_method, DetectionMethod::FromTimestamp);
    assert!(info.confidence_milli > 500);
}

#[test]
fn test_detect_from_timestamps_60fps() {
    let mut detector = FrameRateDetector::new();
    let frame_interval_us: u64 = 16_667;

    for i in 0..15u64 {
        let pts = i * frame_interval_us;
        detector.add_timestamp_sample(pts, NOW_US + pts);
    }

    let result = detector.detect_from_timestamps();
    assert!(result.is_ok());

    let info = result.unwrap();
    assert!((info.fps_milli as i64 - 60_000).abs() < 3_000, "FPS: {}", info.fps_milli);
    assert!(info.confidence_milli > 500);
}

#[test]
fn test_detect_from_timestamps_insufficient_samples() {
    let mut detector = FrameRateDetector::new();

    for i in 0..5u64 {
        let pts = i * 33_333;
        detector.add_timestamp_sample(pts, NOW_US + pts);
    }

    let result = detector.detect_from_timestamps();
    assert!(result.is_err());
}

#[test]
fn test_detect_from_timestamps_with_jitter() {
    let mut detector = FrameRateDetector::new();
    let base_interval_us: i64 = 33_333;

    for i in 0..15i64 {
        let jitter = if i % 2 == 0 { 500 } else { -500 };
        let pts = i * base_interval_us + jitter;
        detector.add_timestamp_sample(pts as u64, NOW_US + pts as u64);
    }

    let result = detector.detect_from_timestamps();
    assert!(result.is_ok());

    let info = result.unwrap();
    assert!((info.fps_milli as i64 - 30_000).abs() < 1_500, "FPS: {}", info.fps_milli);
    assert!(info.confidence_milli > 300);
}

#[test]
fn test_max_samples_limit() {
    let mut detector = FrameRateDetector::with_max_samples(10);

    for i in 0..20u64 {
        let pts = i * 33_333;
        detector.add_timestamp_sample(pts, NOW_US + pts);
    }

    assert_eq!(detector.timestamp_history.len(), 10);
}

#[test]
fn test_frame_rate_change_detection() {
    let mut detector = FrameRateDetector::new();

    detector.detected_fps_milli = Some(30_000);
    detector.previous_fps_milli = Some(30_000);

    detector.detected_fps_milli = Some(32_000);
    assert!(!detector.has_frame_rate_changed());

    detector.detected_fps_milli = Some(40_000);
    assert!(detector.has_frame_rate_changed());
}

#[test]
fn detector_test_reset() {
    let mut detector = FrameRateDetector::new();

    for i in 0..15u64 {
        let pts = i * 33_333;
        detector.add_timestamp_sample(pts, NOW_US + pts);
    }

    assert!(!detector.timestamp_history.is_empty());
    assert!(detector.detected_fps_milli.is_some());

    detector.reset();

    assert!(detector.timestamp_history.is_empty());
    assert!(detector.detected_fps_milli.is_none());
    assert_eq!(detector.confidence_milli, 0);
}

// Own tests.

#[test]
fn steady_stream_gives_exact_rate_and_top_confidence() {
    let mut detector = FrameRateDetector::new();
    for i in 0..12u64 {
        detector.add_timestamp_sample(i * 40_000, NOW_US + i * 40_000);
    }
    let info = detector.detect_from_timestamps().unwrap();
    assert_eq!(info.fps_milli, 25_000);
    assert_eq!(info.frame_duration_us, 40_000);
    assert_eq!(info.confidence_milli, 950);
    assert_eq!(detector.get_fps(), Some(25_000));
}

#[test]
fn no_rate_falls_back_to_default() {
    let detector = FrameRateDetector::new();
    let info = detector.get_frame_rate_or_default();
    assert_eq!(info.fps_milli, 30_000);
    assert_eq!(info.detection_method, DetectionMethod::Default);
    assert!(detector.get_frame_rate().is_none());
}

#[test]
fn sps_detection_is_refused() {
    let detector = FrameRateDetector::new();
    assert!(detector.detect_from_sps(&[0x67, 0x42]).is_err());
}

#[test]
fn too_few_samples_are_counted_in_the_message() {
    let detector = FrameRateDetector::new();
    assert_eq!(detector.detect_from_timestamps().unwrap_err(), "Insufficient samples: 0 (need at least 10)");
}

#[test]
fn each_detection_keeps_the_rate_before_it() {
    let mut detector = FrameRateDetector::new();
    for i in 0..12u64 {
        detector.add_timestamp_sample(i * 33_333, 1_000 + i * 33_333);
    }
    let first = detector.get_fps();
    assert!(first.is_some());
    detector.add_timestamp_sample(12 * 33_333, 1_000 + 12 * 33_333);
    assert_eq!(detector.previous_fps_milli, first);
}
