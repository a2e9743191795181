use video_stream::timestamp::TimestampManager;

#[test]
fn test_timestamp_manager_creation() {
    let manager = TimestampManager::new(30_000);
    assert_eq!(manager.frame_duration_us(), 33_333);
    assert_eq!(manager.clock_rate(), 90_000);
    assert_eq!(manager.frame_count(), 0);
    assert_eq!(manager.last_timestamp(), 0);
}

#[test]
fn test_timestamp_manager_with_base() {
    let manager = TimestampManager::with_base_timestamp(30_000, 1_000_000);
    assert_eq!(manager.base_timestamp, 1_000_000);
    assert_eq!(manager.last_timestamp(), 1_000_000);
}

#[test]
fn test_generate_next_timestamp() {
    let mut manager = TimestampManager::new(30_000);

    let ts1 = manager.generate_next_timestamp();
    assert_eq!(ts1, 0);
    assert_eq!(manager.frame_count(), 1);

    let ts2 = manager.generate_next_timestamp();
    assert_eq!(ts2, 33_333);
    assert_eq!(manager.frame_count(), 2);

    let ts3 = manager.generate_next_timestamp();
    assert_eq!(ts3, 66_666);
    assert_eq!(manager.frame_count(), 3);
}

#[test]
fn test_generate_timestamp_60fps() {
    let mut manager = TimestampManager::new(60_000);

    let ts1 = manager.generate_next_timestamp();
    assert_eq!(ts1, 0);

    let ts2 = manager.generate_next_timestamp();
    assert_eq!(ts2, 16_666);
}

#[test]
fn test_validate_timestamp_monotonic() {
    let mut manager = TimestampManager::new(30_000);

    assert!(manager.validate_timestamp(0).is_ok());
    manager.last_timestamp = 0;

    assert!(manager.validate_timestamp(33_333).is_ok());
    manager.last_timestamp = 33_333;

    assert!(manager.validate_timestamp(66_666).is_ok());
    manager.last_timestamp = 66_666;

    let result = manager.validate_timestamp(50_000);
    assert!(result.is_err());
}

#[test]
fn test_convert_to_microseconds() {
    let manager = TimestampManager::new(30_000);
    assert_eq!(manager.convert_to_microseconds(90_000), 1_000_000);
    assert_eq!(manager.convert_to_microseconds(45_000), 500_000);
    assert_eq!(manager.convert_to_microseconds(0), 0);
}

#[test]
fn test_convert_to_90khz() {
    let manager = TimestampManager::new(30_000);
    assert_eq!(manager.convert_to_90khz(1_000_000), 90_000);
    assert_eq!(manager.convert_to_90khz(500_000), 45_000);
    assert_eq!(manager.convert_to_90khz(0), 0);
}

#[test]
fn test_timestamp_conversion_round_trip() {
    let manager = TimestampManager::new(30_000);

    let original_us: u64 = 1_234_567;
    let khz = manager.convert_to_90khz(original_us);
    let back_to_us = manager.convert_to_microseconds(khz);

    let diff = if back_to_us > original_us {
        back_to_us - original_us
    } else {
        original_us - back_to_us
    };
    assert!(diff < 2, "Precision loss: {} us", diff);
}

#[test]
fn test_update_frame_rate() {
    let mut manager = TimestampManager::new(30_000);
    assert_eq!(manager.frame_duration_us(), 33_333);

    manager.update_frame_rate(60_000);
    assert_eq!(manager.frame_duration_us(), 16_666);

    manager.update_frame_rate(24_000);
    assert_eq!(manager.frame_duration_us(), 41_666);
}

#[test]
fn timestamp_test_reset() {
    let mut manager = TimestampManager::new(30_000);

    manager.generate_next_timestamp();
    manager.generate_next_timestamp();

    assert_eq!(manager.frame_count(), 2);
    assert_eq!(manager.last_timestamp(), 33_333);

    manager.reset();

    assert_eq!(manager.frame_count(), 0);
    assert_eq!(manager.last_timestamp(), 0);
    assert_eq!(manager.base_timestamp, 0);
    assert_eq!(manager.frame_duration_us(), 33_333);
}

#[test]
fn test_reset_to_base() {
    let mut manager = TimestampManager::new(30_000);

    manager.generate_next_timestamp();
    manager.generate_next_timestamp();

    manager.reset_to_base(1_000_000);

    assert_eq!(manager.base_timestamp, 1_000_000);
    assert_eq!(manager.last_timestamp(), 1_000_000);
    assert_eq!(manager.frame_count(), 0);

    let ts = manager.generate_next_timestamp();
    assert_eq!(ts, 1_000_000);
}

#[test]
fn test_timestamp_precision() {
    let manager = TimestampManager::new(30_000);

    let us: u64 = 123_456_789;
    let khz = manager.convert_to_90khz(us);
    let back = manager.convert_to_microseconds(khz);

    let error = if back > us { back - us } else { us - back };
    assert!(error < 2, "Precision error: {} us", error);
}

#[test]
fn test_handle_discontinuity_large_gap() {
    let mut manager = TimestampManager::new(30_000);

    manager.generate_next_timestamp();
    manager.generate_next_timestamp();
    assert_eq!(manager.last_timestamp(), 33_333);

    let discontinuous = manager.handle_discontinuity(10_000_000);
    assert!(discontinuous);

    assert_eq!(manager.base_timestamp, 10_000_000);
    assert_eq!(manager.last_timestamp(), 10_000_000);
    assert_eq!(manager.frame_count(), 0);
}

#[test]
fn test_handle_discontinuity_backwards() {
    let mut manager = TimestampManager::new(30_000);

    manager.generate_next_timestamp();
    manager.generate_next_timestamp();
    let _last_ts = manager.last_timestamp();

    let discontinuous = manager.handle_discontinuity(10_000);
    assert!(discontinuous);

    assert_eq!(manager.base_timestamp, 10_000);
    assert_eq!(manager.last_timestamp(), 10_000);
}

#[test]
fn test_handle_discontinuity_normal_interval() {
    let mut manager = TimestampManager::new(30_000);

    manager.generate_next_timestamp();

    let discontinuous = manager.handle_discontinuity(33_333);
    assert!(!discontinuous);

    assert_eq!(manager.last_timestamp(), 33_333);
}

#[test]
fn test_handle_discontinuity_first_timestamp() {
    let mut manager = TimestampManager::new(30_000);

    let discontinuous = manager.handle_discontinuity(1_000_000);
    assert!(!discontinuous);

    assert_eq!(manager.base_timestamp, 1_000_000);
    assert_eq!(manager.last_timestamp(), 1_000_000);
}

#[test]
fn test_handle_discontinuity_small_interval() {
    let mut manager = TimestampManager::new(30_000);

    manager.generate_next_timestamp();

    let discontinuous = manager.handle_discontinuity(1_000);
    assert!(!discontinuous);

    assert_eq!(manager.last_timestamp(), 1_000);
}

#[test]
fn test_resync_within_3_frames() {
    let mut manager = TimestampManager::new(30_000);

    manager.generate_next_timestamp();
    manager.generate_next_timestamp();

    manager.handle_discontinuity(10_000_000);

    assert_eq!(manager.frame_count(), 0);

    let ts1 = manager.generate_next_timestamp();
    let ts2 = manager.generate_next_timestamp();
    let ts3 = manager.generate_next_timestamp();

    assert_eq!(ts1, 10_000_000);
    assert_eq!(ts2, 10_033_333);
    assert_eq!(ts3, 10_066_666);
}

// Laws on concrete values.

#[test]
fn generated_timestamps_advance_by_one_frame() {
    let mut manager = TimestampManager::with_base_timestamp(25_000, 500);
    let a = manager.generate_next_timestamp();
    let b = manager.generate_next_timestamp();
    assert_eq!(a, 500);
    assert_eq!(b - a, 40_000);
}

#[test]
fn microseconds_survive_a_trip_through_ticks_within_one_tick() {
    let manager = TimestampManager::new(30_000);
    for us in [0u64, 1, 11, 12, 999_999, 1_000_001, 7_777_777] {
        let back = manager.convert_to_microseconds(manager.convert_to_90khz(us));
        assert!(back <= us && us - back < 12);
    }
}

#[test]
fn zero_frame_rate_keeps_default_duration() {
    let manager = TimestampManager::new(0);
    assert_eq!(manager.frame_duration_us(), 33_333);
}

#[test]
fn non_monotonic_message_names_both_timestamps() {
    let mut manager = TimestampManager::new(30_000);
    manager.last_timestamp = 66_666;
    assert_eq!(
        manager.validate_timestamp(50_000).unwrap_err(),
        "Timestamp not monotonic: 50000 <= 66666 (previous)"
    );
}

#[test]
fn abnormal_intervals_are_refused() {
    let mut manager = TimestampManager::new(30_000);
    manager.last_timestamp = 33_333;
    let d = manager.frame_duration_us();
    assert_eq!(
        manager.validate_timestamp(33_334).unwrap_err(),
        format!("Timestamp interval too small: 1 us (expected ~{} us)", d)
    );
    assert_eq!(
        manager.validate_timestamp(33_333 + 3 * d + 1).unwrap_err(),
        format!("Timestamp interval too large: {} us (expected ~{} us)", 3 * d + 1, d)
    );
    assert!(manager.validate_timestamp(33_333 + d / 2).is_ok());
    assert!(manager.validate_timestamp(33_333 + 3 * d).is_ok());
}
