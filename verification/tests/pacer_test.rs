use video_stream::pacer::FrameRatePacer;

fn close_to(actual_us: u64, expected_ms: f64) -> bool {
    (actual_us as f64 / 1000.0 - expected_ms).abs() < 1.0
}

#[test]
fn test_pacer_creation() {
    let pacer = FrameRatePacer::new(30_000);
    assert_eq!(pacer.target_fps(), 30_000);
    assert_eq!(pacer.playback_rate(), 1_000);
    assert_eq!(pacer.base_frame_interval_us(), 33_333);
    assert!(pacer.last_send_time_us.is_none());
}

#[test]
fn test_pacer_creation_60fps() {
    let pacer = FrameRatePacer::new(60_000);
    assert_eq!(pacer.target_fps(), 60_000);
    assert_eq!(pacer.base_frame_interval_us(), 16_666);
}

#[test]
fn test_calculate_send_delay_1x() {
    let pacer = FrameRatePacer::new(30_000);
    let delay = pacer.calculate_send_delay(1);
    let expected_ms = 1000.0 / 30.0;
    assert!(close_to(delay, expected_ms), "Expected ~{:.2}ms, got {}us", expected_ms, delay);
}

#[test]
fn test_calculate_send_delay_multiple_frames() {
    let pacer = FrameRatePacer::new(30_000);
    let delay = pacer.calculate_send_delay(3);
    let expected_ms = 3000.0 / 30.0;
    assert!(close_to(delay, expected_ms), "Expected ~{:.2}ms, got {}us", expected_ms, delay);
}

#[test]
fn test_calculate_send_delay_2x_speed() {
    let mut pacer = FrameRatePacer::new(30_000);
    pacer.set_playback_rate(2_000).unwrap();
    let delay = pacer.calculate_send_delay(1);
    let expected_ms = 1000.0 / 30.0 / 2.0;
    assert!(close_to(delay, expected_ms), "Expected ~{:.2}ms, got {}us", expected_ms, delay);
}

#[test]
fn test_calculate_send_delay_half_speed() {
    let mut pacer = FrameRatePacer::new(30_000);
    pacer.set_playback_rate(500).unwrap();
    let delay = pacer.calculate_send_delay(1);
    let expected_ms = 1000.0 / 30.0 / 0.5;
    assert!(close_to(delay, expected_ms), "Expected ~{:.2}ms, got {}us", expected_ms, delay);
}

#[test]
fn test_set_playback_rate_valid() {
    let mut pacer = FrameRatePacer::new(30_000);

    assert!(pacer.set_playback_rate(250).is_ok());
    assert_eq!(pacer.playback_rate(), 250);

    assert!(pacer.set_playback_rate(1_000).is_ok());
    assert_eq!(pacer.playback_rate(), 1_000);

    assert!(pacer.set_playback_rate(2_000).is_ok());
    assert_eq!(pacer.playback_rate(), 2_000);

    assert!(pacer.set_playback_rate(4_000).is_ok());
    assert_eq!(pacer.playback_rate(), 4_000);
}

#[test]
fn test_set_playback_rate_invalid() {
    let mut pacer = FrameRatePacer::new(30_000);

    assert!(pacer.set_playback_rate(100).is_err());
    assert!(pacer.set_playback_rate(5_000).is_err());
    assert!(pacer.set_playback_rate(-1_000).is_err());

    assert_eq!(pacer.playback_rate(), 1_000);
}

#[test]
fn test_update_target_fps() {
    let mut pacer = FrameRatePacer::new(30_000);
    assert_eq!(pacer.target_fps(), 30_000);
    assert_eq!(pacer.base_frame_interval_us(), 33_333);

    pacer.update_target_fps(60_000);
    assert_eq!(pacer.target_fps(), 60_000);
    assert_eq!(pacer.base_frame_interval_us(), 16_666);

    pacer.update_target_fps(24_000);
    assert_eq!(pacer.target_fps(), 24_000);
    assert_eq!(pacer.base_frame_interval_us(), 41_666);
}

#[test]
fn pacer_test_reset() {
    let mut pacer = FrameRatePacer::new(30_000);

    pacer.last_send_time_us = Some(123_456);
    pacer.set_playback_rate(2_000).unwrap();

    pacer.reset();

    assert!(pacer.last_send_time_us.is_none());
    assert_eq!(pacer.target_fps(), 30_000);
    assert_eq!(pacer.playback_rate(), 2_000);
}

#[test]
fn test_delay_calculation_precision() {
    let test_cases: Vec<(u32, i64, f64)> =
        vec![(1, 1_000, 33.33), (2, 1_000, 66.67), (1, 2_000, 16.67), (1, 500, 66.67), (3, 2_000, 50.0)];

    for (frames, rate, expected_ms) in test_cases {
        let mut pacer = FrameRatePacer::new(30_000);
        pacer.set_playback_rate(rate).unwrap();

        let delay = pacer.calculate_send_delay(frames);
        assert!(
            close_to(delay, expected_ms),
            "frames={}, rate={}: expected {:.2}ms, got {}us",
            frames,
            rate,
            expected_ms,
            delay
        );
    }
}

#[test]
fn test_wait_for_next_frame_first_call() {
    let mut pacer = FrameRatePacer::new(30_000);
    assert_eq!(pacer.next_frame_wait(1, 1_000_000), 0);
    pacer.record_send(1_000_000);
    assert!(pacer.last_send_time_us.is_some());
}

#[test]
fn test_wait_for_next_frame_timing() {
    let mut pacer = FrameRatePacer::new(30_000);
    pacer.record_send(1_000_000);
    let wait = pacer.next_frame_wait(1, 1_000_000);
    assert!(close_to(wait, 1000.0 / 30.0), "got {}us", wait);
}

#[test]
fn test_wait_for_next_frame_no_wait_if_late() {
    let mut pacer = FrameRatePacer::new(30_000);
    pacer.record_send(1_000_000);
    assert_eq!(pacer.next_frame_wait(1, 1_050_000), 0);
}

// Own tests.

#[test]
fn exact_delays_in_microseconds() {
    let mut pacer = FrameRatePacer::new(30_000);
    assert_eq!(pacer.calculate_send_delay(1), 33_333);
    assert_eq!(pacer.calculate_send_delay(3), 100_000);
    pacer.set_playback_rate(4_000).unwrap();
    assert_eq!(pacer.calculate_send_delay(1), 8_333);
    pacer.record_send(0);
    assert_eq!(pacer.next_frame_wait(1, 3_000), 5_333);
}

#[test]
fn faster_playback_never_waits_longer() {
    let mut last = u64::MAX;
    for rate in [250i64, 500, 1_000, 2_000, 4_000] {
        let mut pacer = FrameRatePacer::new(25_000);
        pacer.set_playback_rate(rate).unwrap();
        let d = pacer.calculate_send_delay(2);
        assert!(d <= last);
        last = d;
    }
}

#[test]
fn refused_rates_are_named_in_the_message() {
    let mut pacer = FrameRatePacer::new(30_000);
    assert_eq!(
        pacer.set_playback_rate(5_000).unwrap_err(),
        "Invalid playback rate: 5000 thousandths (must be between 250 and 4000)"
    );
    assert_eq!(
        pacer.set_playback_rate(-7).unwrap_err(),
        "Invalid playback rate: -7 thousandths (must be between 250 and 4000)"
    );
    assert_eq!(
        pacer.set_playback_rate(i64::MIN).unwrap_err(),
        "Invalid playback rate: -9223372036854775808 thousandths (must be between 250 and 4000)"
    );
}
