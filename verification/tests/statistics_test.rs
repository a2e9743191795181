use video_stream::statistics::{LatencyStatisticsManager, SessionStats, STATS_WINDOW_SIZE};

#[test]
fn test_session_stats_creation() {
    let session_id: u128 = 0xabc;
    let stats = SessionStats::new(session_id, 1_000);

    assert_eq!(stats.session_id, session_id);
    assert_eq!(stats.total_segments, 0);
    assert_eq!(stats.total_bytes, 0);
    assert!(stats.latency_history.is_empty());
}

#[test]
fn test_add_latency() {
    let mut stats = SessionStats::new(1, 0);

    stats.add_latency(50_000, 1);
    stats.add_latency(60_000, 2);
    stats.add_latency(70_000, 3);

    assert_eq!(stats.latency_history.len(), 3);
    assert!(stats.average_latency() > 0);
}

#[test]
fn test_latency_calculations() {
    let mut stats = SessionStats::new(1, 0);

    for i in 1..=100u64 {
        stats.add_latency(i * 1_000, i);
    }

    assert!(stats.average_latency() > 0);
    assert_eq!(stats.min_latency(), 1);
    assert_eq!(stats.max_latency(), 100);
    assert!(stats.percentile_latency(500) > 0);
    assert!(stats.percentile_latency(950) > 0);
    assert!(stats.percentile_latency(990) > 0);
}

#[test]
fn test_percentile_calculation() {
    let mut stats = SessionStats::new(1, 0);

    for i in 1..=100u64 {
        stats.add_latency(i * 1_000, i);
    }

    let p50 = stats.percentile_latency(500);
    let p95 = stats.percentile_latency(950);
    let p99 = stats.percentile_latency(990);

    assert!(p50 >= 45 && p50 <= 55);
    assert!(p95 >= 90 && p95 <= 100);
    assert!(p99 >= 95 && p99 <= 100);
}

#[test]
fn test_throughput_calculation() {
    let mut stats = SessionStats::new(1, 10_000_000);

    stats.total_bytes = 1_000_000;
    stats.last_update_us = 10_100_000;

    let throughput = stats.throughput_mbps();
    assert!(throughput > 0);
}

#[test]
fn test_packet_loss_rate() {
    let mut stats = SessionStats::new(1, 0);

    stats.expected_segments = 100;
    stats.lost_segments = 5;

    let loss_rate = stats.packet_loss_rate();
    assert_eq!(loss_rate, 50_000);
}

#[test]
fn test_window_size_limit() {
    let mut stats = SessionStats::new(1, 0);

    for i in 0..(STATS_WINDOW_SIZE + 100) {
        stats.add_latency(i as u64 * 1_000, i as u64);
    }

    assert_eq!(stats.latency_history.len(), STATS_WINDOW_SIZE);
}

#[test]
fn test_statistics_manager() {
    let mut manager = LatencyStatisticsManager::new();
    let session_id: u128 = 0x5150;

    manager.start_session(session_id, 0);

    manager.record_segment_latency(session_id, 50_000, 1024, 1);
    manager.record_segment_latency(session_id, 60_000, 1024, 2);
    manager.record_segment_latency(session_id, 70_000, 1024, 3);

    let stats = manager.get_statistics(session_id);
    assert!(stats.is_some());

    let s = stats.unwrap();
    assert_eq!(s.session_id, session_id);
    assert_eq!(s.total_segments, 3);
    assert_eq!(s.total_bytes, 3072);
    assert!(s.average_latency_us > 0);

    manager.stop_session(session_id);
    assert!(manager.get_statistics(session_id).is_none());
}

#[test]
fn test_lost_segment_tracking() {
    let mut manager = LatencyStatisticsManager::new();
    let session_id: u128 = 77;

    manager.start_session(session_id, 0);

    manager.record_segment_latency(session_id, 50_000, 1024, 1);
    manager.record_lost_segment(session_id);
    manager.record_segment_latency(session_id, 60_000, 1024, 2);

    let stats = manager.get_statistics(session_id).unwrap();
    assert_eq!(stats.total_segments, 2);
    assert!(stats.packet_loss_ppm > 0);
}

#[test]
fn statistics_test_get_all_statistics() {
    let mut manager = LatencyStatisticsManager::new();

    let session1: u128 = 1;
    let session2: u128 = 2;
    let session3: u128 = 3;

    manager.start_session(session1, 0);
    manager.start_session(session2, 0);
    manager.start_session(session3, 0);

    manager.record_segment_latency(session1, 50_000, 1024, 1);
    manager.record_segment_latency(session2, 60_000, 1024, 1);
    manager.record_segment_latency(session3, 70_000, 1024, 1);

    let all_stats = manager.get_all_statistics();
    assert_eq!(all_stats.len(), 3);
}

#[test]
fn unknown_session_is_ignored_and_restart_clears() {
    let mut manager = LatencyStatisticsManager::default();
    manager.record_segment_latency(9, 1_000, 10, 1);
    manager.record_lost_segment(9);
    assert!(manager.get_statistics(9).is_none());
    manager.start_session(9, 100);
    manager.record_segment_latency(9, 1_000, 10, 200);
    manager.start_session(9, 300);
    let s = manager.get_statistics(9).unwrap();
    assert_eq!(s.total_segments, 0);
    assert_eq!(s.start_time_us, 300);
    assert_eq!(manager.get_all_statistics().len(), 1);
    manager.clear_all();
    assert!(manager.get_all_statistics().is_empty());
}

// Own tests.

#[test]
fn exact_figures_of_a_small_window() {
    let mut stats = SessionStats::new(7, 0);
    stats.record_segment_latency(40_500, 100, 500_000);
    stats.record_segment_latency(20_000, 200, 1_000_000);
    stats.record_segment_latency(30_100, 300, 2_000_000);
    assert_eq!(stats.average_latency(), 30_200);
    assert_eq!(stats.current_latency(), 30_100);
    assert_eq!(stats.min_latency(), 20);
    assert_eq!(stats.max_latency(), 40);
    assert_eq!(stats.percentile_latency(500), 30);
    assert_eq!(stats.percentile_latency(1000), 40);
    assert_eq!(stats.percentile_latency(0), 20);
    // 600 bytes over 2 s: 2400 bits/s = 0.0024 Mbps = 2.4 thousandths.
    assert_eq!(stats.throughput_mbps(), 2);
    let s = stats.to_statistics();
    assert_eq!(s.session_id, 7);
    assert_eq!(s.total_bytes, 600);
    assert_eq!(s.average_latency_us, 30_200);
    assert_eq!(s.packet_loss_ppm, 0);
}

#[test]
fn empty_window_reports_zeroes() {
    let stats = SessionStats::new(1, 5);
    assert_eq!(stats.average_latency(), 0);
    assert_eq!(stats.current_latency(), 0);
    assert_eq!(stats.min_latency(), 0);
    assert_eq!(stats.max_latency(), 0);
    assert_eq!(stats.percentile_latency(500), 0);
    assert_eq!(stats.throughput_mbps(), 0);
    assert_eq!(stats.packet_loss_rate(), 0);
}

#[test]
fn oldest_latency_leaves_a_full_window() {
    let mut stats = SessionStats::new(1, 0);
    for i in 0..STATS_WINDOW_SIZE as u64 {
        stats.add_latency(1_000_000 + i, 0);
    }
    stats.add_latency(5, 0);
    assert_eq!(stats.latency_history.len(), STATS_WINDOW_SIZE);
    assert_eq!(stats.latency_history[0], 1_000_001);
    assert_eq!(*stats.latency_history.last().unwrap(), 5);
    assert_eq!(stats.min_latency(), 0);
}

#[test]
fn counters_with_room_accept_records() {
    let mut manager = LatencyStatisticsManager::new();
    manager.start_session(5, 0);
    assert!(manager.can_record_segment(5, 1_000));
    assert!(manager.can_record_loss(5));
    assert!(manager.can_record_segment(6, u64::MAX));
    assert!(manager.can_record_segment(5, u64::MAX));
    manager.record_segment_latency(5, 10_000, 1_000, 1);
    assert!(!manager.can_record_segment(5, u64::MAX));
    manager.record_lost_segment(5);
    let s = manager.get_statistics(5).unwrap();
    assert_eq!(s.total_segments, 1);
    assert_eq!(s.total_bytes, 1_000);
}
