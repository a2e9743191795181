use video_stream::latency::{
    AlertFilter, AlertMessage, LatencyAlertType, LatencyThresholds, SegmentLatencyRecord, SessionLatency,
};

#[test]
fn test_latency_thresholds_default() {
    let thresholds = LatencyThresholds::default();
    assert_eq!(thresholds.transmission_ms, 100);
    assert_eq!(thresholds.processing_ms, 50);
    assert_eq!(thresholds.distribution_ms, 50);
    assert_eq!(thresholds.end_to_end_ms, 200);
}

#[test]
fn test_end_to_end_monitor_creation() {
    let thresholds = LatencyThresholds::default();
    let mut record = SegmentLatencyRecord::new(7);

    let t1: u64 = 1_700_000_000_000_000;
    record.record_device_send(t1);
    let t2 = t1 + 10_000;
    record.record_platform_receive(t2, &thresholds);

    let measurement = record.get_measurement();
    assert!(measurement.is_some());
    let m = measurement.unwrap();
    assert!(m.transmission_latency_ms.is_some());
    assert!(m.transmission_latency_ms.unwrap() >= 10);
}

#[test]
fn test_latency_alert_manager() {
    let thresholds = LatencyThresholds { transmission_ms: 50, processing_ms: 10, distribution_ms: 10, end_to_end_ms: 100 };
    let mut record = SegmentLatencyRecord::new(42);

    record.record_device_send(1_000_000);
    record.record_platform_receive(1_100_000, &thresholds);

    let alerts = record.get_alerts();
    assert!(alerts.is_some());
    assert_eq!(alerts.unwrap().len(), 1);

    record.clear_alerts();
    assert!(record.get_alerts().is_none());
}

#[test]
fn test_complete_latency_chain() {
    let thresholds = LatencyThresholds::default();
    let mut record = SegmentLatencyRecord::new(1);

    let t1: u64 = 5_000_000;
    record.record_device_send(t1);
    let t2 = t1 + 20_000;
    record.record_platform_receive(t2, &thresholds);
    let t3 = t2 + 5_000;
    record.record_platform_forward(t3, &thresholds);
    let t4 = t3 + 10_000;
    record.record_client_play(t4, &thresholds);

    let measurement = record.get_measurement();
    assert!(measurement.is_some());
    let m = measurement.unwrap();
    assert!(m.transmission_latency_ms.is_some());
    assert!(m.processing_latency_ms.is_some());
    assert!(m.distribution_latency_ms.is_some());
    assert!(m.end_to_end_latency_ms.is_some());

    assert!(m.transmission_latency_ms.unwrap() >= 20);
    assert!(m.processing_latency_ms.unwrap() >= 5);
    assert!(m.distribution_latency_ms.unwrap() >= 10);
    assert!(m.end_to_end_latency_ms.unwrap() >= 35);
}

#[test]
fn test_alert_filter() {
    let session_id: u128 = 0x1111;
    let other_session_id: u128 = 0x2222;

    let filter = AlertFilter::new().with_session(session_id);

    let message1 = AlertMessage::SessionStarted { session_id, timestamp: 0 };
    let message2 = AlertMessage::SessionStarted { session_id: other_session_id, timestamp: 0 };

    assert!(filter.matches(&message1));
    assert!(!filter.matches(&message2));
}

#[test]
fn test_alert_filter_no_session() {
    let filter = AlertFilter::new();
    let message = AlertMessage::SessionStarted { session_id: 0x3333, timestamp: 0 };
    assert!(filter.matches(&message));
}

// Own tests.

#[test]
fn exact_chain_values_and_alerts_over_thresholds() {
    let thresholds = LatencyThresholds { transmission_ms: 10, processing_ms: 100, distribution_ms: 1, end_to_end_ms: 1_000 };
    let mut record = SegmentLatencyRecord::new(9);
    record.record_device_send(0);
    record.record_platform_receive(25_999, &thresholds);
    record.record_platform_forward(30_000, &thresholds);
    record.record_client_play(32_500, &thresholds);
    let m = record.get_measurement().unwrap();
    assert_eq!(m.transmission_latency_ms, Some(25));
    assert_eq!(m.processing_latency_ms, Some(4));
    assert_eq!(m.distribution_latency_ms, Some(2));
    assert_eq!(m.end_to_end_latency_ms, Some(32));
    let alerts = record.get_alerts().unwrap();
    assert_eq!(
        alerts,
        vec![
            LatencyAlertType::TransmissionLatency { segment_id: 9, latency_ms: 25, threshold_ms: 10 },
            LatencyAlertType::DistributionLatency { segment_id: 9, latency_ms: 2, threshold_ms: 1 },
        ]
    );
}

#[test]
fn receive_before_send_measures_nothing() {
    let thresholds = LatencyThresholds::default();
    let mut record = SegmentLatencyRecord::new(3);
    record.record_device_send(10_000);
    record.record_platform_receive(5_000, &thresholds);
    assert!(record.get_measurement().is_none());
    assert!(record.get_alerts().is_none());
}

#[test]
fn session_latency_figures() {
    let mut s = SessionLatency::start(5, 100);
    assert_eq!(s.average_latency(), 0);
    s.record_latency(30_500);
    s.record_latency(10_000);
    s.record_latency(50_999);
    assert_eq!(s.segment_count, 3);
    assert_eq!(s.total_latency_ms, 90);
    assert_eq!(s.min_latency_ms, 10);
    assert_eq!(s.max_latency_ms, 50);
    assert_eq!(s.average_latency(), 30);
}
