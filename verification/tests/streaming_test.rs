use video_stream::forwarding::{error_action, forward_decision, forward_segment, DummySource, ErrorAction, StreamStats};
use video_stream::keyframe_index::{FrameType, IndexOptimizationStrategy, KeyframeEntry, KeyframeIndex};
use video_stream::playback::{DefaultPlaybackController, PlaybackError, VideoSegment as QueuedSegment};
use video_stream::protocol::VideoSegment as DeviceSegment;
use video_stream::sources::{LiveStep, LiveStreamSource, PaceAction, PlaybackSource, SourceState};
use video_stream::stream_types::{SegmentFormat, SegmentSourceType, StreamError, StreamMode, StreamState, VideoSegment as StreamSegment};

#[test]
fn live_source_lifecycle() {
    let mut s = LiveStreamSource::new("cam".to_string());
    assert!(s.begin_next());
    assert_eq!(s.state, SourceState::Running);
    let seg = DeviceSegment::new(vec![1, 2, 3], 40_000, true);
    match s.on_segment(seg, 99) {
        LiveStep::Deliver(v) => {
            assert!(v.is_keyframe);
            assert_eq!(v.timestamp_us, 40_000);
            assert_eq!(v.format, SegmentFormat::H264Raw);
            assert_eq!(v.source_type, SegmentSourceType::Live);
            assert_eq!(v.receive_time_us, Some(99));
        }
        LiveStep::Drop => panic!("expected delivery"),
    }
    assert_eq!(s.current_position_us, 40_000);
    assert!(s.pause().is_ok());
    assert!(s.pause().is_err());
    assert!(matches!(s.on_segment(DeviceSegment::new(vec![], 80_000, false), 1), LiveStep::Drop));
    assert_eq!(s.current_position_us, 40_000);
    assert!(s.resume().is_ok());
    assert!(matches!(s.seek(5), Err(StreamError::OperationNotSupported)));
    assert!(matches!(s.set_rate(2_000), Err(StreamError::OperationNotSupported)));
    let info = s.get_info();
    assert!(matches!(info.mode, StreamMode::Live { ref device_id } if device_id == "cam"));
    assert_eq!(info.state, StreamState::Streaming);
    assert_eq!(info.playback_rate_milli, 1000);
    s.on_closed();
    assert!(!s.begin_next());
}

#[test]
fn playback_source_reads_paces_and_seeks() {
    let mut p = PlaybackSource::new("dev_f.mp4".to_string(), 16_384);
    assert!(p.begin_next());
    assert_eq!(p.next_read_len(), Some(8192));
    let (seg, action) = p.on_read(vec![7u8; 8192], 1_000).unwrap();
    assert_eq!(seg.timestamp_us, 50_000_000);
    assert_eq!(action, PaceAction::NoWait);
    assert!(p.pacer_wait(1_000).is_none());
    assert!(p.set_rate(2_000).is_ok());
    assert!(matches!(p.set_rate(5_000), Err(StreamError::InvalidPlaybackRate(5_000))));
    assert_eq!(p.playback_rate(), 2_000);
    let (_, action2) = p.on_read(vec![7u8; 8192], 2_000).unwrap();
    assert_eq!(action2, PaceAction::Sleep(16));
    assert_eq!(p.next_read_len(), None);
    assert!(matches!(p.seek_target(-1), Err(StreamError::InvalidSeekPosition(-1))));
    assert!(matches!(p.seek_target(100_000_001), Err(StreamError::InvalidSeekPosition(_))));
    let o = p.seek_target(25_000_000).unwrap();
    assert_eq!(o, 4_096);
    p.seek_done(o);
    assert_eq!(p.reader().current_offset, 4_096);
    assert!(p.pause().is_ok());
    assert!(p.is_paused());
    assert!(p.resume().is_ok());
    assert!(p.on_read(Vec::new(), 3_000).is_none());
    assert_eq!(p.get_info().state, StreamState::Stopped);
}

fn q(ts: u64, key: bool) -> QueuedSegment {
    QueuedSegment { id: ts as u128, data: vec![], timestamp_us: ts, duration_us: 33_000, frame_count: 1, is_key_frame: key }
}

#[test]
fn controller_drops_frames_by_speed() {
    let c = DefaultPlaybackController::new();
    let segs: Vec<QueuedSegment> = (0..8).map(|i| q(i * 10, i % 4 == 0)).collect();
    let one = c.adjust_transmission_queue(segs.clone(), 1_000);
    assert_eq!(one.len(), 8);
    let eight = c.adjust_transmission_queue(segs.clone(), 8_000);
    let ts: Vec<u64> = eight.iter().map(|s| s.timestamp_us).collect();
    assert_eq!(ts, vec![0, 40]);
    let policy = c.get_drop_frame_strategy(2_000);
    assert!(policy.drop_b_frames && !policy.drop_p_frames && policy.adaptive_dropping);
    let two = c.apply_intelligent_frame_dropping(segs.clone(), &policy);
    // After the keyframe at 0 the frame at distance 2 goes; after the one
    // at 40 (kept at position 3) distances are 2, 3, 4.
    let ts2: Vec<u64> = two.iter().map(|s| s.timestamp_us).collect();
    assert_eq!(ts2, vec![0, 10, 30, 40, 60, 70]);
    let sorted = c.adjust_transmission_queue(vec![q(30, true), q(10, true), q(20, true)], 500);
    let ts3: Vec<u64> = sorted.iter().map(|s| s.timestamp_us).collect();
    assert_eq!(ts3, vec![10, 20, 30]);
}

#[test]
fn controller_seeks_and_rates() {
    let mut c = DefaultPlaybackController::new();
    assert!(matches!(c.seek(-5), Err(PlaybackError::InvalidSeekPosition { position_us: -5 })));
    c.seek(2_000_000).unwrap();
    assert_eq!(c.get_current_position(), 2_000_000);
    assert_eq!(c.get_last_seek_position(), Some(2_000_000));
    assert!(matches!(c.set_playback_rate(0), Err(PlaybackError::InvalidPlaybackRate { rate_milli: 0 })));
    assert!(c.set_playback_rate(4_000).is_ok());
    assert!(matches!(c.set_playback_rate(8_000), Err(PlaybackError::InvalidPlaybackRate { rate_milli: 8_000 })));
    assert!(matches!(c.set_playback_rate(100), Err(PlaybackError::InvalidPlaybackRate { rate_milli: 100 })));
    assert_eq!(c.get_playback_rate(), 4_000);
    assert!(c.set_playback_rate(250).is_ok());
    assert!(c.set_playback_rate(4_000).is_ok());
    assert!(c.clear_buffers().is_ok());
    let idx = KeyframeIndex {
        entries: vec![
            KeyframeEntry { timestamp_us: 0, file_offset: 0, frame_size: 1, gop_size: 30, frame_type: FrameType::I },
            KeyframeEntry { timestamp_us: 1_000_000, file_offset: 100, frame_size: 1, gop_size: 30, frame_type: FrameType::I },
        ],
        total_duration_us: 2_000_000,
        index_precision_us: 1_000_000,
        memory_optimized: false,
        optimization_strategy: IndexOptimizationStrategy::Full,
        memory_usage: 0,
    };
    assert_eq!(c.find_nearest_keyframe(5_000_000, &idx).unwrap().file_offset, 100);
    assert_eq!(c.find_nearest_keyframe(0, &idx).unwrap().file_offset, 0);
    assert_eq!(c.find_nearest_keyframe(999_999, &idx).unwrap().file_offset, 0);
    let r = c.seek_to_keyframe(1_500_000, &idx, 3_000).unwrap();
    assert_eq!(r.actual_time_us, 1_000_000);
    assert_eq!(r.keyframe_offset, 100);
    assert_eq!(c.get_current_position(), 1_000_000);
}

#[test]
fn forwarding_decisions() {
    let o = forward_decision(1, Some(1_000), 251_000, 200);
    assert_eq!(o.processing_latency_us, 250_000);
    let a = o.alert.unwrap();
    assert_eq!(a.current_latency_us, 250_000);
    assert_eq!(a.threshold_ms, 200);
    let p = forward_decision(1, None, 5_000, 200);
    assert_eq!(p.receive_time_us, 5_000);
    assert_eq!(p.processing_latency_us, 0);
    assert!(p.alert.is_none());
    let q = forward_decision(1, Some(10), 5, 0);
    assert_eq!(q.processing_latency_us, 0);
    assert!(q.alert.is_none());
    assert_eq!(error_action(&StreamError::SegmentCorrupted), ErrorAction::Skip);
    assert_eq!(error_action(&StreamError::FileReadError("x".to_string())), ErrorAction::RetryAfterPause);
    assert_eq!(error_action(&StreamError::ConnectionLost), ErrorAction::Stop);
}

#[test]
fn stream_stats_moving_average_and_throughput() {
    let mut s = StreamStats::new(0);
    s.update_latency(100);
    assert_eq!(s.average_latency_us, 100);
    s.update_latency(200);
    assert_eq!(s.average_latency_us, 110);
    assert_eq!(s.min_latency_us, 100);
    assert_eq!(s.max_latency_us, 200);
    assert_eq!(s.current_latency_us, 200);
    s.update_throughput(1_000_000, 2_000_000);
    assert_eq!(s.total_bytes, 1_000_000);
}

#[test]
fn dummy_source_only_pauses() {
    let mut d = DummySource::new();
    assert!(matches!(d.next_segment(), Ok(None)));
    assert!(d.seek(1).is_err());
    assert!(d.set_rate(1_000).is_err());
    assert!(d.pause().is_ok());
    assert!(d.resume().is_ok());
}

#[test]
fn test_stream_mode() {
    let live_mode = StreamMode::Live { device_id: "device_001".to_string() };
    let playback_mode = StreamMode::Playback { file_id: "rec_001".to_string(), playback_rate_milli: 1000 };

    match live_mode {
        StreamMode::Live { device_id } => {
            assert_eq!(device_id, "device_001");
        }
        _ => panic!("Expected Live mode"),
    }

    match playback_mode {
        StreamMode::Playback { file_id, playback_rate_milli } => {
            assert_eq!(file_id, "rec_001");
            assert_eq!(playback_rate_milli, 1000);
        }
        _ => panic!("Expected Playback mode"),
    }
}

fn device_segment_at(timestamp_us: u64) -> DeviceSegment {
    DeviceSegment::new(vec![0u8; 1024], timestamp_us, false)
}

fn delivered_timestamp(step: LiveStep) -> Option<u64> {
    match step {
        LiveStep::Deliver(v) => Some(v.timestamp_us),
        LiveStep::Drop => None,
    }
}

#[test]
fn test_live_source_creation() {
    let source = LiveStreamSource::new("device_001".to_string());
    assert_eq!(source.device_id(), "device_001");
    assert_eq!(source.state, SourceState::Initializing);
}

#[test]
fn test_live_source_receive_segment() {
    let mut source = LiveStreamSource::new("device_001".to_string());
    assert!(source.begin_next());
    let received = source.on_segment(device_segment_at(1_000_000), 10);
    assert_eq!(delivered_timestamp(received), Some(1_000_000));
    assert_eq!(source.state, SourceState::Running);
}

#[test]
fn test_live_source_pause_resume() {
    let mut source = LiveStreamSource::new("device_001".to_string());
    assert!(source.begin_next());
    let _ = source.on_segment(device_segment_at(1_000_000), 10);
    assert!(source.pause().is_ok());
    assert_eq!(source.state, SourceState::Paused);
    assert!(source.resume().is_ok());
    assert_eq!(source.state, SourceState::Running);
}

#[test]
fn test_live_source_unsupported_operations() {
    let mut source = LiveStreamSource::new("device_001".to_string());
    assert!(matches!(source.seek(10_000_000), Err(StreamError::OperationNotSupported)));
    assert!(matches!(source.set_rate(2_000), Err(StreamError::OperationNotSupported)));
}

#[test]
fn test_live_source_get_info() {
    let mut source = LiveStreamSource::new("device_001".to_string());
    source.set_stream_info(Some((1920, 1080)), Some(30_000), Some(5_000_000));
    let info = source.get_info();
    match info.mode {
        StreamMode::Live { device_id } => assert_eq!(device_id, "device_001"),
        _ => panic!("Expected Live mode"),
    }
    assert_eq!(info.resolution, Some((1920, 1080)));
    assert_eq!(info.frame_rate_milli, Some(30_000));
    assert_eq!(info.bitrate, Some(5_000_000));
    assert_eq!(info.playback_rate_milli, 1000);
    assert!(info.duration_us.is_none());
}

#[test]
fn test_live_source_paused_drops_segments() {
    let mut source = LiveStreamSource::new("device_001".to_string());
    assert!(source.begin_next());
    let _ = source.on_segment(device_segment_at(1_000_000), 10);
    source.pause().unwrap();
    for t in [2_000_000u64, 3_000_000, 4_000_000] {
        assert_eq!(delivered_timestamp(source.on_segment(device_segment_at(t), 20)), None);
    }
    source.resume().unwrap();
    assert_eq!(delivered_timestamp(source.on_segment(device_segment_at(5_000_000), 30)), Some(5_000_000));
}

#[test]
fn test_playback_source_creation() {
    let source = PlaybackSource::new("rec_001".to_string(), 100_000);
    assert_eq!(source.file_id(), "rec_001");
    assert_eq!(source.playback_rate(), 1000);
}

#[test]
fn test_playback_source_read_segment() {
    let mut source = PlaybackSource::new("rec_001".to_string(), 100_000);
    assert!(source.begin_next());
    let len = source.next_read_len().unwrap();
    assert!(source.on_read(vec![0u8; len], 1).is_some());
}

#[test]
fn test_playback_source_pause_resume() {
    let mut source = PlaybackSource::new("rec_001".to_string(), 100_000);
    assert!(source.begin_next());
    let len = source.next_read_len().unwrap();
    let _ = source.on_read(vec![0u8; len], 1);
    assert!(source.pause().is_ok());
    assert_eq!(source.get_info().state, StreamState::Paused);
    assert!(source.resume().is_ok());
    assert_eq!(source.get_info().state, StreamState::Streaming);
}

#[test]
fn test_playback_source_set_rate() {
    let mut source = PlaybackSource::new("rec_001".to_string(), 100_000);
    assert!(source.set_rate(2_000).is_ok());
    assert_eq!(source.playback_rate(), 2_000);
    assert!(source.set_rate(500).is_ok());
    assert_eq!(source.playback_rate(), 500);
    assert!(matches!(source.set_rate(5_000), Err(StreamError::InvalidPlaybackRate(_))));
    assert!(matches!(source.set_rate(100), Err(StreamError::InvalidPlaybackRate(_))));
}

#[test]
fn test_playback_source_seek() {
    let mut source = PlaybackSource::new("rec_001".to_string(), 100_000);
    let offset = source.seek_target(50_000_000).unwrap();
    source.seek_done(offset);
    assert!(matches!(source.seek_target(-10_000_000), Err(StreamError::InvalidSeekPosition(_))));
    assert!(matches!(source.seek_target(200_000_000), Err(StreamError::InvalidSeekPosition(_))));
}

#[test]
fn test_playback_source_get_info() {
    let mut source = PlaybackSource::new("rec_001".to_string(), 100_000);
    source.set_stream_info(Some((1920, 1080)), Some(30_000), Some(5_000_000), Some(100_000_000));
    let info = source.get_info();
    match info.mode {
        StreamMode::Playback { file_id, playback_rate_milli } => {
            assert_eq!(file_id, "rec_001");
            assert_eq!(playback_rate_milli, 1000);
        }
        _ => panic!("Expected Playback mode"),
    }
    assert_eq!(info.resolution, Some((1920, 1080)));
    assert_eq!(info.frame_rate_milli, Some(30_000));
    assert_eq!(info.bitrate, Some(5_000_000));
    assert_eq!(info.duration_us, Some(100_000_000));
}

#[test]
fn refused_pause_and_resume_name_the_state() {
    let mut source = LiveStreamSource::new("device_001".to_string());
    match source.pause() {
        Err(StreamError::Internal(m)) => assert_eq!(m, "Cannot pause in state: Initializing"),
        other => panic!("unexpected {:?}", other),
    }
    assert!(source.begin_next());
    match source.resume() {
        Err(StreamError::Internal(m)) => assert_eq!(m, "Cannot resume in state: Running"),
        other => panic!("unexpected {:?}", other),
    }
}

#[test]
fn segments_of_equal_time_keep_their_order() {
    let c = DefaultPlaybackController::new();
    let mut first = q(20, true);
    first.id = 1;
    let mut second = q(20, true);
    second.id = 2;
    let mut third = q(20, true);
    third.id = 3;
    let sorted = c.adjust_transmission_queue(vec![first, q(30, true), second, q(10, true), third], 1_000);
    let ids: Vec<u128> = sorted.iter().map(|s| s.id).collect();
    assert_eq!(ids, vec![10, 1, 2, 3, 30]);
}

#[test]
fn record_send_restarts_the_pacer_wait() {
    // 8192 bytes of this recording span 33 333 us of its nominal 100 s.
    let mut p = PlaybackSource::new("rec".to_string(), 24_576_000);
    assert!(p.begin_next());
    let mut now: u64 = 1_000_000;
    for _ in 0..12 {
        let len = p.next_read_len().unwrap();
        let _ = p.on_read(vec![0u8; len], now);
        now += 33_333;
    }
    assert!(p.pacer_wait(now).is_some());
    p.record_send(now);
    assert!(p.pacer_wait(now).unwrap() > 0);
    assert_eq!(p.pacer_wait(now + 10_000_000), Some(0));
}

#[test]
fn every_keyframe_survives_any_speed() {
    let c = DefaultPlaybackController::new();
    let segs: Vec<QueuedSegment> = (0..12).map(|i| q(i * 10, i % 5 == 0)).collect();
    for rate in [500, 1_000, 1_500, 3_000, 4_000, 8_000] {
        let out = c.adjust_transmission_queue(segs.clone(), rate);
        for k in segs.iter().filter(|s| s.is_key_frame) {
            assert!(out.iter().any(|s| s.id == k.id), "rate {} lost keyframe {}", rate, k.id);
        }
        assert!(out.len() <= segs.len());
    }
}

fn stream_segment(id: u128, len: usize, receive: Option<u64>) -> StreamSegment {
    StreamSegment {
        segment_id: id,
        timestamp_us: id as u64 * 40_000,
        duration_us: 40_000,
        data: vec![id as u8; len],
        is_keyframe: id == 0,
        format: SegmentFormat::H264Raw,
        source_type: SegmentSourceType::Live,
        receive_time_us: receive,
        forward_time_us: None,
    }
}

#[test]
fn forwarding_a_run_delivers_it_in_order_and_counts_it() {
    let mut stats = StreamStats::new(0);
    let run = vec![stream_segment(0, 100, None), stream_segment(1, 250, Some(900)), stream_segment(2, 7, None)];
    let mut delivered = Vec::new();
    for (k, seg) in run.iter().enumerate() {
        let start = 1_000 + k as u64 * 10;
        let (d, o) = forward_segment(&mut stats, 7, seg.clone(), start, 200, start + 1);
        assert!(o.alert.is_none());
        delivered.push(d);
    }
    let ids: Vec<u128> = delivered.iter().map(|d| d.segment_id).collect();
    assert_eq!(ids, vec![0, 1, 2]);
    for (d, s) in delivered.iter().zip(run.iter()) {
        assert_eq!(d.data, s.data);
    }
    assert_eq!(delivered[0].receive_time_us, Some(1_000));
    assert_eq!(delivered[1].receive_time_us, Some(900));
    assert_eq!(delivered[2].receive_time_us, Some(1_020));
    assert_eq!(stats.total_segments, 3);
    assert_eq!(stats.total_bytes, 357);
    assert_eq!(stats.current_latency_us, 0);
    assert_eq!(stats.max_latency_us, 110);
}
