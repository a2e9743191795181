use std::path::PathBuf;
use video_stream::keyframe_index::{FrameType, IndexOptimizationStrategy, KeyframeEntry, KeyframeIndex};
use video_stream::media_files::{
    detect_format, file_hash, is_video_extension, DefaultTimelineManager, TimelineError, TimelineFileBuilder,
    VideoFormat,
};
use video_stream::playback::Resolution;

#[test]
fn test_get_timeline_path() {
    let manager = DefaultTimelineManager::new();
    let video_path = PathBuf::from("test_video.mp4");
    let timeline_path = manager.get_timeline_path(&video_path);

    assert_eq!(timeline_path, PathBuf::from("test_video.timeline"));
}

#[test]
fn test_get_timeline_path_with_directory() {
    let manager = DefaultTimelineManager::new();
    let video_path = PathBuf::from("videos/test_video.h264");
    let timeline_path = manager.get_timeline_path(&video_path);

    assert_eq!(timeline_path, PathBuf::from("videos/test_video.timeline"));
}

#[test]
fn test_timeline_manager_creation() {
    let manager = DefaultTimelineManager::new();
    assert_eq!(manager.version, 1);
}

fn sample_index(times: &[u64]) -> KeyframeIndex {
    KeyframeIndex {
        entries: times
            .iter()
            .map(|&t| KeyframeEntry { timestamp_us: t, file_offset: 0, frame_size: 0, gop_size: 30, frame_type: FrameType::I })
            .collect(),
        total_duration_us: 60_000_000,
        index_precision_us: 33_000,
        memory_optimized: true,
        optimization_strategy: IndexOptimizationStrategy::Adaptive,
        memory_usage: 1024,
    }
}

#[test]
fn built_timeline_matches_its_recording_and_version() {
    let manager = DefaultTimelineManager::new();
    let t = TimelineFileBuilder::new(PathBuf::from("/v/a.mp4"), sample_index(&[0, 1_000_000, 2_000_000]))
        .with_ffmpeg_version("4.4.2".to_string())
        .build(&manager, 1_024_000, 500, "abc123".to_string(), 900);
    assert_eq!(t.version, 1);
    assert_eq!(t.duration_us, 60_000_000);
    assert_eq!(t.resolution, Resolution { width: 1920, height: 1080 });
    // Three entries over two seconds: 1.5 fps, raised to the 15 fps floor.
    assert_eq!(t.frame_rate_milli, 15_000);
    assert_eq!(t.created_at_us, 900);
    assert_eq!(t.ffmpeg_version.as_deref(), Some("4.4.2"));
    assert!(manager.check_version(&t).is_ok());
    assert!(manager.validate_timeline(&t, 1_024_000, 500, "abc123"));
    assert!(!manager.validate_timeline(&t, 1_024_001, 500, "abc123"));
    assert!(!manager.validate_timeline(&t, 1_024_000, 501, "abc123"));
    assert!(!manager.validate_timeline(&t, 1_024_000, 500, "abc124"));
}

#[test]
fn empty_index_gives_default_rate_and_no_resolution() {
    let manager = DefaultTimelineManager::new();
    let t = TimelineFileBuilder::new(PathBuf::from("x.h264"), sample_index(&[])).build(&manager, 1, 2, String::new(), 3);
    assert_eq!(t.frame_rate_milli, 30_000);
    assert_eq!(t.resolution, Resolution { width: 0, height: 0 });
    assert!(t.ffmpeg_version.is_none());
}

#[test]
fn other_version_is_refused() {
    let manager = DefaultTimelineManager { version: 2 };
    let t = TimelineFileBuilder::new(PathBuf::from("x.h264"), sample_index(&[0])).build(
        &DefaultTimelineManager::new(),
        1,
        2,
        String::new(),
        3,
    );
    assert!(matches!(manager.check_version(&t), Err(TimelineError::IncompatibleVersion { version: 1 })));
}

#[test]
fn timeline_validity_by_time() {
    let manager = DefaultTimelineManager::default();
    assert!(manager.is_timeline_valid_by_time(100, 100));
    assert!(manager.is_timeline_valid_by_time(100, 101));
    assert!(!manager.is_timeline_valid_by_time(101, 100));
}

#[test]
fn formats_from_extensions() {
    assert_eq!(detect_format(&PathBuf::from("a/b.MP4")), VideoFormat::MP4);
    assert_eq!(detect_format(&PathBuf::from("a/b.h264")), VideoFormat::H264);
    assert_eq!(detect_format(&PathBuf::from("noext")), VideoFormat::H264);
    assert!(is_video_extension("264"));
    assert!(!is_video_extension("avi"));
}

#[test]
fn sha256_hash_in_lower_hex() {
    assert_eq!(file_hash(b"abc"), "ba7816bf8f01cfea414140de5dae2223b00361a396177a9cb410ff61f20015ad");
    assert_eq!(file_hash(b""), "e3b0c44298fc1c149afbf4c8996fb92427ae41e4649b934ca495991b7852b855");
}
