use std::path::PathBuf;
use video_stream::device_control::{
    answer_keyframe_index, answer_seek_to_keyframe, answer_set_playback_speed, build_index_from_ffmpeg, control_action,
    default_live_request, parse_index_strategy, playback_file_name, reconnect_delay_secs, recording_info_for,
    response_type, validate_config, ChunkPlayback, ConfigError, ConnectionSupervisor, ControlAction, TickAction,
};
use video_stream::device_manager::{session_start_device, uni_stream_action, DeviceManager, UniStreamAction};
use video_stream::errors::VideoStreamError;
use video_stream::keyframe_index::{FrameType, IndexOptimizationStrategy};
use video_stream::media_files::{VideoFile, VideoFormat};
use video_stream::pixels::bgra_to_rgb;
use video_stream::protocol::{
    ConnectionStatus, DeviceCapabilities, DeviceInfo, DeviceType, MessageType, SeekToKeyframeRequest,
    SetPlaybackSpeedRequest,
};
use video_stream::recordings::{recording_info_from, sort_newest_first, RecordingScanner};
use video_stream::registry::DeviceRegistry;

#[test]
fn control_actions() {
    assert_eq!(control_action(MessageType::FileListQuery), ControlAction::SendFileList);
    assert_eq!(control_action(MessageType::FileRequest), ControlAction::StartPlayback);
    assert_eq!(control_action(MessageType::GetKeyframeIndex), ControlAction::AnswerKeyframeIndex);
    assert_eq!(control_action(MessageType::Heartbeat), ControlAction::Ignore);
    assert_eq!(response_type(ControlAction::SendFileList), Some(MessageType::FileListResponse));
    assert_eq!(response_type(ControlAction::Ignore), None);
}

#[test]
fn reconnect_waits_double_up_to_ten_seconds() {
    let waits: Vec<u64> = (1..=7).map(reconnect_delay_secs).collect();
    assert_eq!(waits, vec![1, 2, 4, 8, 10, 10, 10]);
    assert_eq!(reconnect_delay_secs(0), 1);
    assert_eq!(reconnect_delay_secs(u32::MAX), 10);
}

#[test]
fn supervisor_steps() {
    let mut s = ConnectionSupervisor::new();
    assert_eq!(s.on_tick(true), TickAction::Heartbeat);
    assert_eq!(s.on_tick(false), TickAction::Reconnect(1));
    assert_eq!(s.on_tick(false), TickAction::Reconnect(2));
    assert!(s.on_heartbeat_ok());
    assert_eq!(s.reconnect_attempts, 0);
    assert!(!s.on_heartbeat_ok());
    s.on_tick(false);
    s.on_reconnected();
    assert_eq!(s.reconnect_attempts, 0);
}

#[test]
fn default_live_request_values() {
    let r = default_live_request();
    assert_eq!(r.quality_preference, "low_latency");
    assert_eq!(r.target_latency_ms, 100);
    assert_eq!(r.target_fps, 30);
    assert_eq!(r.target_bitrate, 2_000_000);
}

#[test]
fn playback_file_names() {
    assert_eq!(playback_file_name("device_001_video.h264"), "video.h264");
    assert_eq!(playback_file_name("video.h264"), "video.h264");
}

#[test]
fn chunk_playback_paces_and_marks_keyframes() {
    let mut p = ChunkPlayback::new(5, Some(1_000), 2_000);
    let (s0, d0) = p.next(vec![1, 2]);
    assert_eq!(s0.timestamp_us, 1_000);
    assert!(s0.is_keyframe());
    assert_eq!(s0.session_id, 5);
    assert_eq!(d0, 16);
    let (s1, _) = p.next(vec![3]);
    assert_eq!(s1.timestamp_us, 34_000);
    assert!(!s1.is_keyframe());
    assert_eq!(p.segment_count, 2);
}

#[test]
fn index_from_ffmpeg_keyframes() {
    let idx = build_index_from_ffmpeg(&vec![0, 1_000_000, 3_000_000], 4_000_000, 30_000);
    assert_eq!(idx.entries.len(), 3);
    assert_eq!(idx.entries[0].gop_size, 30);
    assert_eq!(idx.entries[1].gop_size, 60);
    assert_eq!(idx.entries[2].gop_size, 30);
    assert_eq!(idx.entries[1].frame_type, FrameType::I);
    assert_eq!(idx.total_duration_us, 4_000_000);
    assert_eq!(idx.index_precision_us, 33_333);
    assert_eq!(idx.optimization_strategy, IndexOptimizationStrategy::Adaptive);
    let none = build_index_from_ffmpeg(&vec![], 0, 0);
    assert_eq!(none.index_precision_us, u64::MAX);
}

#[test]
fn answers() {
    let r = answer_seek_to_keyframe(&SeekToKeyframeRequest { target_time_us: 7, session_id: 1 }, 12);
    assert!(r.success);
    assert_eq!(r.actual_time_us, 7);
    assert_eq!(r.execution_time_ms, 12);
    let ok = answer_set_playback_speed(&SetPlaybackSpeedRequest { speed_milli: 4_000, session_id: 1 });
    assert!(ok.success && ok.error_message.is_none());
    let bad = answer_set_playback_speed(&SetPlaybackSpeedRequest { speed_milli: 249, session_id: 1 });
    assert!(!bad.success && bad.error_message.is_some());
    let idx = build_index_from_ffmpeg(&vec![0, 2_000_000], 5_000_000, 25_000);
    let k = answer_keyframe_index("f.mp4".to_string(), Some(idx));
    assert!(k.success);
    assert_eq!(k.keyframes.len(), 2);
    assert_eq!(k.keyframes[1].timestamp_us, 2_000_000);
    let f = answer_keyframe_index("f.mp4".to_string(), None);
    assert!(!f.success && f.error_message.is_some() && f.keyframes.is_empty());
}

#[test]
fn device_recording_entries() {
    let vf = VideoFile { path: PathBuf::from("/v/clip.mp4"), name: "clip.mp4".to_string(), format: VideoFormat::MP4, size: 10 };
    let r = recording_info_for(&vf, "device_001", 10, 99);
    assert_eq!(r.file_id, "device_001_clip.mp4");
    assert_eq!(r.format, "mp4");
    assert_eq!(r.file_path, "/v/clip.mp4");
    assert_eq!(r.created_time_us, 99);
}

#[test]
fn config_checks_in_order() {
    assert_eq!(validate_config(250, 4_000, 50, 30, true), Ok(()));
    assert_eq!(validate_config(0, 4_000, 50, 30, true), Err(ConfigError::SpeedMinNotPositive));
    assert_eq!(validate_config(500, 500, 0, 0, false), Err(ConfigError::SpeedMaxNotAboveMin));
    assert_eq!(validate_config(250, 4_000, 0, 0, false), Err(ConfigError::ZeroIndexMemory));
    assert_eq!(validate_config(250, 4_000, 1, 0, false), Err(ConfigError::ZeroFfmpegTimeout));
    assert_eq!(validate_config(250, 4_000, 1, 1, false), Err(ConfigError::VideoDirMissing));
    assert_eq!(parse_index_strategy("SPARSE"), IndexOptimizationStrategy::Sparse);
    assert_eq!(parse_index_strategy("whatever"), IndexOptimizationStrategy::Adaptive);
}

fn device(id: &str, status: ConnectionStatus) -> DeviceInfo {
    DeviceInfo {
        device_id: id.to_string(),
        device_name: format!("camera {}", id),
        device_type: DeviceType::Simulator,
        connection_status: status,
        connection_time_us: 1,
        last_heartbeat_us: 1,
        capabilities: DeviceCapabilities {
            max_resolution: "1920x1080".to_string(),
            supported_formats: vec!["h264".to_string()],
            max_bitrate: 5_000_000,
            supports_playback_control: true,
            supports_recording: true,
        },
    }
}

#[test]
fn registry_add_get_remove() {
    let mut r = DeviceRegistry::new();
    r.add(device("a", ConnectionStatus::Online));
    r.add(device("b", ConnectionStatus::Offline));
    r.add(device("a", ConnectionStatus::Reconnecting));
    assert_eq!(r.list().len(), 2);
    assert_eq!(r.get("a").unwrap().connection_status, ConnectionStatus::Reconnecting);
    assert_eq!(r.remove("a").unwrap().device_id, "a");
    assert!(r.get("a").is_none());
    assert!(r.remove("a").is_none());
}

#[test]
fn device_manager_heartbeats_and_status() {
    let mut m = DeviceManager::new();
    m.register_device(device("cam1", ConnectionStatus::Offline)).unwrap();
    m.register_device(device("cam2", ConnectionStatus::Online)).unwrap();
    assert!(!m.is_device_online("cam1"));
    m.update_heartbeat("cam1", 500).unwrap();
    assert!(m.is_device_online("cam1"));
    assert_eq!(m.get_device("cam1").unwrap().last_heartbeat_us, 500);
    assert_eq!(m.get_online_devices().len(), 2);
    m.set_device_offline("cam2").unwrap();
    let online: Vec<&str> = m.get_online_devices().iter().map(|d| d.device_id.as_str()).collect();
    assert_eq!(online, vec!["cam1"]);
    assert!(matches!(m.update_heartbeat("cam9", 1), Err(VideoStreamError::DeviceNotFound(ref id)) if id == "cam9"));
    assert!(matches!(m.set_device_offline("cam9"), Err(VideoStreamError::DeviceNotFound(_))));
    assert!(matches!(m.get_device("cam9"), Err(VideoStreamError::DeviceNotFound(_))));
    m.unregister_device("cam1").unwrap();
    assert_eq!(m.get_all_devices().len(), 1);
    assert!(!m.is_device_online("cam1"));
}

#[test]
fn platform_recording_entries_and_order() {
    let r = recording_info_from("dev", Some("a.h264".to_string()), Some("h264".to_string()), "/s/dev/a.h264".to_string(), 10, 5, 6);
    assert_eq!(r.file_id, "dev_a.h264");
    assert_eq!(r.format, "h264");
    assert_eq!(r.resolution, "1920x1080");
    assert_eq!(r.duration_us, 0);
    let u = recording_info_from("dev", None, None, "x".to_string(), 0, 1, 1);
    assert_eq!(u.file_name, "unknown");
    assert_eq!(u.file_id, "dev_unknown");
    assert_eq!(u.format, "unknown");

    let mk = |name: &str, created: u64| recording_info_from("d", Some(name.to_string()), None, String::new(), 0, created, 0);
    let sorted = sort_newest_first(vec![mk("old", 1), mk("new", 9), mk("mid1", 5), mk("mid2", 5)]);
    let names: Vec<&str> = sorted.iter().map(|r| r.file_name.as_str()).collect();
    assert_eq!(names, vec!["new", "mid1", "mid2", "old"]);
}

#[test]
fn bgra_pixels_become_rgb() {
    assert_eq!(bgra_to_rgb(&[1, 2, 3, 4, 5, 6, 7, 8]), vec![3, 2, 1, 7, 6, 5]);
    assert_eq!(bgra_to_rgb(&[1, 2, 3]), vec![3, 2, 1]);
    assert!(bgra_to_rgb(&[]).is_empty());
}

#[test]
fn session_start_registers_decoded_or_fallback_device() {
    let d = session_start_device(Some(device("cam7", ConnectionStatus::Offline)), 1, 777);
    assert_eq!(d.device_id, "cam7");
    assert_eq!(d.connection_status, ConnectionStatus::Online);
    assert_eq!(d.connection_time_us, 777);
    assert_eq!(d.last_heartbeat_us, 777);
    assert_eq!(d.capabilities.max_bitrate, 5_000_000);
    let f = session_start_device(None, 0x67e5_5044_10b1_426f_9247_bb68_0e5f_e0c8, 5);
    assert_eq!(f.device_id, "device_67e55044-10b1-426f-9247-bb680e5fe0c8");
    assert_eq!(f.device_name, "Unknown Device");
    assert_eq!(f.device_type, DeviceType::Simulator);
    assert_eq!(f.capabilities.supported_formats, vec!["h264".to_string(), "mp4".to_string()]);
    assert_eq!(f.capabilities.max_bitrate, 10_000_000);
}

#[test]
fn uni_stream_decisions() {
    assert_eq!(uni_stream_action(Some(MessageType::Heartbeat), Some(3)), UniStreamAction::Heartbeat);
    assert_eq!(uni_stream_action(Some(MessageType::SessionStart), Some(3)), UniStreamAction::Distribute(3));
    assert_eq!(uni_stream_action(None, Some(4)), UniStreamAction::Distribute(4));
    assert_eq!(uni_stream_action(None, None), UniStreamAction::Ignore);
}

#[test]
fn scanner_keeps_its_storage_root() {
    let scanner = RecordingScanner::new(PathBuf::from("/data/recordings"));
    assert_eq!(scanner.storage_root, PathBuf::from("/data/recordings"));
}

#[test]
fn refused_speed_is_named_in_the_message() {
    let bad = answer_set_playback_speed(&SetPlaybackSpeedRequest { speed_milli: 249, session_id: 1 });
    assert_eq!(bad.error_message.unwrap(), "Invalid playback speed: 249 thousandths. Must be between 250 and 4000");
}

#[test]
fn chunk_playback_at_rate_zero_waits_without_end() {
    let mut p = ChunkPlayback::new(5, None, 0);
    let (s0, d0) = p.next(vec![1]);
    assert_eq!(s0.timestamp_us, 0);
    assert_eq!(d0, u64::MAX);
}

#[test]
fn resolution_tokens_of_ffmpeg_output() {
    assert_eq!(video_stream::device_control::parse_resolution_token("1920x1080,"), Some((1920, 1080)));
    assert_eq!(video_stream::device_control::parse_resolution_token("1280x720"), Some((1280, 720)));
    assert_eq!(video_stream::device_control::parse_resolution_token("1x2x3"), None);
    assert_eq!(video_stream::device_control::parse_resolution_token("0x1f"), None);
    assert_eq!(video_stream::device_control::parse_resolution_token("4294967296x1"), None);
}
