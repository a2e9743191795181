use std::path::PathBuf;
use video_stream::forwarding::StreamConfig;
use video_stream::http::{
    content_type_for_extension, control_url, get_content_type, parse_range, parse_stream_command, parse_stream_mode,
    plan_stream_start, playback_url, session_id_text, split_file_id, stream_config_for, stream_url,
    unified_start_response, ApiResponse, HttpStatus, StartPlan, StreamCommand, StreamConfigRequest, StreamKind,
};
use video_stream::protocol::{live_stream_request, MessageType, StatusCode, VideoSegment};

#[test]
fn message_codes_round_trip() {
    for c in 0u8..=0x20 {
        match MessageType::from_code(c) {
            Some(t) => assert_eq!(t.code(), c),
            None => assert!(c == 0 || c == 0x0F || c > 0x16),
        }
    }
    assert_eq!(MessageType::Heartbeat.code(), 0x0A);
    assert_eq!(MessageType::from_code(0x12), Some(MessageType::SeekToKeyframe));
}

#[test]
fn status_values() {
    assert_eq!(StatusCode::Success.value(), 200);
    assert_eq!(StatusCode::ServiceUnavailable.value(), 503);
    assert_eq!(HttpStatus::PartialContent.code(), 206);
    assert_eq!(HttpStatus::Success.code(), 200);
}

#[test]
fn protocol_segment_flags() {
    let s = VideoSegment::new(vec![1, 2, 3], 42, true);
    assert!(s.is_keyframe());
    assert_eq!(s.data_length, 3);
    assert_eq!(s.timestamp_us, 42);
    assert_eq!(s.frame_count, 1);
    let t = VideoSegment::new(vec![], 0, false);
    assert!(!t.is_keyframe());
    assert_ne!(s.segment_id, t.segment_id);
}

#[test]
fn live_request_defaults() {
    let r = live_stream_request(80);
    assert_eq!(r.quality_preference, "low_latency");
    assert_eq!(r.target_latency_ms, 80);
    assert_eq!(r.target_fps, 30);
    assert_eq!(r.target_bitrate, 2_000_000);
}

#[test]
fn ranges() {
    assert_eq!(parse_range("bytes=0-99", 1000), Some((0, 99)));
    assert_eq!(parse_range("bytes=500-", 1000), Some((500, 999)));
    assert_eq!(parse_range("bytes=100-50", 1000), None);
    assert_eq!(parse_range("bytes=0-1000", 1000), None);
    assert_eq!(parse_range("bits=0-1", 1000), None);
    assert_eq!(parse_range("bytes=1-2-3", 1000), None);
    assert_eq!(parse_range("bytes=a-2", 1000), None);
    assert_eq!(parse_range("bytes=-5", 1000), None);
}

#[test]
fn content_types() {
    assert_eq!(content_type_for_extension(Some("mp4")), "video/mp4");
    assert_eq!(content_type_for_extension(Some("264")), "video/h264");
    assert_eq!(content_type_for_extension(None), "application/octet-stream");
    assert_eq!(get_content_type(&PathBuf::from("a/b.h264")), "video/h264");
    assert_eq!(get_content_type(&PathBuf::from("a/b.MP4")), "application/octet-stream");
}

#[test]
fn file_ids() {
    assert_eq!(split_file_id("device_001_clip.mp4"), Some(("device_001".to_string(), "clip.mp4".to_string())));
    assert_eq!(split_file_id("device_001_a_b.mp4"), Some(("device_001".to_string(), "a_b.mp4".to_string())));
    assert_eq!(split_file_id("nounderscore"), None);
    assert_eq!(split_file_id("one_only"), None);
}

#[test]
fn modes_and_commands() {
    assert_eq!(parse_stream_mode("LIVE"), Some(StreamKind::Live));
    assert_eq!(parse_stream_mode("Playback"), Some(StreamKind::Playback));
    assert_eq!(parse_stream_mode("vod"), None);
    assert_eq!(parse_stream_command("Pause", None, None), Ok(StreamCommand::Pause));
    assert_eq!(parse_stream_command("seek", Some(5), None), Ok(StreamCommand::Seek(5)));
    assert_eq!(parse_stream_command("seek", None, None), Err(HttpStatus::BadRequest));
    assert_eq!(parse_stream_command("set_rate", None, Some(2_000)), Ok(StreamCommand::SetRate(2_000)));
    assert_eq!(parse_stream_command("set_rate", None, None), Err(HttpStatus::BadRequest));
    assert_eq!(parse_stream_command("STOP", None, None), Ok(StreamCommand::Stop));
    assert_eq!(parse_stream_command("jump", None, None), Err(HttpStatus::BadRequest));
}

#[test]
fn start_plans() {
    assert!(matches!(
        plan_stream_start("live", Some("dev".to_string()), None),
        Ok(StartPlan::Live { ref device_id }) if device_id == "dev"
    ));
    assert!(matches!(plan_stream_start("live", None, Some("f".to_string())), Err(HttpStatus::BadRequest)));
    assert!(matches!(
        plan_stream_start("PLAYBACK", None, Some("f".to_string())),
        Ok(StartPlan::Playback { ref file_id }) if file_id == "f"
    ));
    assert!(matches!(plan_stream_start("other", Some("d".to_string()), None), Err(HttpStatus::BadRequest)));
}

#[test]
fn stream_configs() {
    let d = stream_config_for(&None);
    assert!(d.low_latency);
    assert_eq!(d.target_latency_ms, 100);
    let c = stream_config_for(&Some(StreamConfigRequest {
        client_id: "c".to_string(),
        low_latency_mode: Some(false),
        target_latency_ms: None,
    }));
    assert!(!c.low_latency);
    assert_eq!(c.target_latency_ms, 100);
    assert_eq!(c.latency_alert_threshold_ms, 200);
}

#[test]
fn urls_use_hyphenated_uuid() {
    let id: u128 = 0x67e5_5044_10b1_426f_9247_bb68_0e5f_e0c8;
    assert_eq!(session_id_text(id), "67e55044-10b1-426f-9247-bb680e5fe0c8");
    assert_eq!(stream_url(id), "/api/v1/stream/67e55044-10b1-426f-9247-bb680e5fe0c8/segments");
    assert_eq!(control_url(id), "/api/v1/stream/67e55044-10b1-426f-9247-bb680e5fe0c8/control");
    assert_eq!(playback_url(id), "/api/v1/playback/67e55044-10b1-426f-9247-bb680e5fe0c8/segments");
    let mut config = StreamConfig::default();
    config.target_latency_ms = 75;
    let r = unified_start_response(id, &config);
    assert_eq!(r.estimated_latency_ms, 75);
    assert_eq!(r.session_id, "67e55044-10b1-426f-9247-bb680e5fe0c8");
}

#[test]
fn api_responses() {
    let ok = ApiResponse::success(5u32);
    assert_eq!(ok.status, "success");
    assert_eq!(ok.data, Some(5));
    assert!(ok.error.is_none());
    let err = ApiResponse::<()>::error("bad".to_string());
    assert_eq!(err.status, "error");
    assert_eq!(err.error.as_deref(), Some("bad"));
}
