use std::path::PathBuf;
use video_stream::file_stream::{FileReaderConfig, FileStreamReader, SeekTarget, DEFAULT_SEGMENT_SIZE};
use video_stream::stream_types::{SegmentFormat, StreamError};

fn reader(size: u64) -> FileStreamReader {
    FileStreamReader::new(PathBuf::from("video.mp4"), size, FileReaderConfig::default())
}

/// Reads the next segment the way the streaming service does: as many
/// bytes as asked for.
fn read(r: &mut FileStreamReader) -> Option<usize> {
    let n = r.next_read_size()?;
    r.on_read(vec![0u8; n]).map(|s| s.data.len())
}

fn seek(r: &mut FileStreamReader, t: SeekTarget) -> Result<(), StreamError> {
    let o = r.seek_target(t)?;
    r.seek_done(o);
    Ok(())
}

#[test]
fn test_file_reader_creation() {
    let r = reader(100_000);
    assert_eq!(r.get_file_size(), 100_000);
    assert_eq!(r.get_offset(), 0);
    assert_eq!(r.get_progress(), 0);
}

#[test]
fn test_file_reader_read_segment() {
    let mut r = reader(20_000);
    let n = read(&mut r);
    assert_eq!(n, Some(DEFAULT_SEGMENT_SIZE));
    assert_eq!(r.get_offset(), DEFAULT_SEGMENT_SIZE as u64);
    assert_eq!(r.get_segments_read(), 1);
}

#[test]
fn test_file_reader_read_all() {
    let file_size: u64 = 25_000;
    let mut r = reader(file_size);
    let mut total = 0;
    let mut count = 0;
    while let Some(n) = read(&mut r) {
        total += n;
        count += 1;
    }
    assert_eq!(total as u64, file_size);
    assert_eq!(count, r.get_segments_read());
    assert_eq!(r.get_progress(), 1_000_000);
}

#[test]
fn test_file_reader_seek_position() {
    let mut r = reader(100_000);
    seek(&mut r, SeekTarget::Position(500_000)).unwrap();
    assert_eq!(r.get_offset(), 50_000);
    assert_eq!(r.get_progress(), 500_000);
    seek(&mut r, SeekTarget::Position(0)).unwrap();
    assert_eq!(r.get_offset(), 0);
    seek(&mut r, SeekTarget::Position(1_000_000)).unwrap();
    assert_eq!(r.get_offset(), 100_000);
}

#[test]
fn test_file_reader_seek_offset() {
    let mut r = reader(100_000);
    seek(&mut r, SeekTarget::Offset(12_345)).unwrap();
    assert_eq!(r.get_offset(), 12_345);
    seek(&mut r, SeekTarget::Offset(200_000)).unwrap();
    assert_eq!(r.get_offset(), 100_000);
}

#[test]
fn test_file_reader_seek_time() {
    let mut r = reader(100_000);
    seek(&mut r, SeekTarget::Time { time_us: 30_000_000, duration_us: 100_000_000 }).unwrap();
    assert_eq!(r.get_progress(), 300_000);
    assert!(seek(&mut r, SeekTarget::Time { time_us: -10_000_000, duration_us: 100_000_000 }).is_err());
    assert!(seek(&mut r, SeekTarget::Time { time_us: 150_000_000, duration_us: 100_000_000 }).is_err());
}

#[test]
fn test_file_reader_playback_rate() {
    let mut r = reader(100_000);
    assert!(r.set_playback_rate(2_000).is_ok());
    assert_eq!(r.get_playback_rate(), 2_000);
    assert!(r.set_playback_rate(500).is_ok());
    assert_eq!(r.get_playback_rate(), 500);
    assert!(r.set_playback_rate(5_000).is_err());
    assert!(r.set_playback_rate(100).is_err());
}

#[test]
fn test_file_reader_segment_size() {
    let mut r = reader(100_000);
    assert!(r.set_segment_size(16_384).is_ok());
    assert_eq!(r.get_segment_size(), 16_384);
    assert_eq!(read(&mut r), Some(16_384));
    assert!(r.set_segment_size(1_024).is_err());
    assert!(r.set_segment_size(65_536).is_err());
}

#[test]
fn test_file_reader_reset() {
    let mut r = reader(100_000);
    read(&mut r);
    read(&mut r);
    assert!(r.get_offset() > 0);
    assert!(r.get_segments_read() > 0);
    r.reset();
    assert_eq!(r.get_offset(), 0);
    assert_eq!(r.get_segments_read(), 0);
    assert_eq!(r.get_progress(), 0);
}

#[test]
fn test_file_reader_small_file() {
    let mut r = reader(4_000);
    assert_eq!(read(&mut r), Some(4_000));
    assert_eq!(read(&mut r), None);
}

#[test]
fn test_rate_controlled_delay() {
    let mut r = reader(100_000);
    r.set_playback_rate(1_000).unwrap();
    assert_eq!(r.calculate_rate_controlled_delay(33_000), 33_000);
    r.set_playback_rate(2_000).unwrap();
    assert_eq!(r.calculate_rate_controlled_delay(33_000), 16_500);
    r.set_playback_rate(500).unwrap();
    assert_eq!(r.calculate_rate_controlled_delay(33_000), 66_000);
}

#[test]
fn test_calculate_target_interval() {
    let mut r = reader(100_000);
    r.set_playback_rate(1_000).unwrap();
    assert_eq!(r.calculate_target_interval(33_000), 33_000);
    r.set_playback_rate(2_000).unwrap();
    assert_eq!(r.calculate_target_interval(33_000), 16_500);
    r.set_playback_rate(250).unwrap();
    assert_eq!(r.calculate_target_interval(33_000), 132_000);
}

#[test]
fn test_validate_interval() {
    let r = reader(100_000);
    assert!(r.validate_interval(100_000, 100_000));
    assert!(r.validate_interval(105_000, 100_000));
    assert!(r.validate_interval(95_000, 100_000));
    assert!(r.validate_interval(109_000, 100_000));
    assert!(!r.validate_interval(111_000, 100_000));
    assert!(!r.validate_interval(89_000, 100_000));
    assert!(!r.validate_interval(120_000, 100_000));
    assert!(r.validate_interval(5, 0));
}

#[test]
fn test_rate_control_calculation_accuracy() {
    let mut r = reader(100_000);
    let cases: Vec<(i64, u64, u64)> =
        vec![(1_000, 33_000, 33_000), (2_000, 33_000, 16_500), (500, 33_000, 66_000), (4_000, 40_000, 10_000), (250, 20_000, 80_000)];
    for (rate, duration, expected) in cases {
        r.set_playback_rate(rate).unwrap();
        assert_eq!(r.calculate_target_interval(duration), expected);
    }
}

#[test]
fn test_seek_to_position() {
    let mut r = reader(100_000);
    seek(&mut r, SeekTarget::Position(250_000)).unwrap();
    assert_eq!(r.get_offset(), 25_000);
    assert_eq!(r.get_progress(), 250_000);
    seek(&mut r, SeekTarget::Position(750_000)).unwrap();
    assert_eq!(r.get_offset(), 75_000);
    assert!(seek(&mut r, SeekTarget::Position(-1)).is_err());
    assert!(seek(&mut r, SeekTarget::Position(1_000_001)).is_err());
}

#[test]
fn test_seek_to_time() {
    let mut r = reader(100_000);
    seek(&mut r, SeekTarget::Time { time_us: 25_000_000, duration_us: 100_000_000 }).unwrap();
    assert_eq!(r.get_progress(), 250_000);
    seek(&mut r, SeekTarget::Time { time_us: 60_000_000, duration_us: 100_000_000 }).unwrap();
    assert_eq!(r.get_progress(), 600_000);
    seek(&mut r, SeekTarget::Time { time_us: 0, duration_us: 100_000_000 }).unwrap();
    assert_eq!(r.get_offset(), 0);
    seek(&mut r, SeekTarget::Time { time_us: 100_000_000, duration_us: 100_000_000 }).unwrap();
    assert_eq!(r.get_offset(), 100_000);
}

// Own tests.

#[test]
fn segment_fields_follow_the_reader() {
    let mut r = FileStreamReader::new(
        PathBuf::from("a.h264"),
        2 * 1_048_576,
        FileReaderConfig { segment_size: 1_048_576, playback_rate_milli: 1_000, format: SegmentFormat::H264Raw, assumed_fps_milli: 25_000 },
    );
    let s1 = r.on_read(vec![1u8; 1_048_576]).unwrap();
    assert_eq!(s1.timestamp_us, 10_000_000);
    assert_eq!(s1.duration_us, 40_000);
    assert!(s1.is_keyframe);
    assert_eq!(s1.format, SegmentFormat::H264Raw);
    let s2 = r.on_read(vec![1u8; 10]).unwrap();
    assert!(!s2.is_keyframe);
    assert!(r.on_read(Vec::new()).is_none());
    assert_eq!(r.get_segments_read(), 2);
    assert_eq!(r.get_file_path(), &PathBuf::from("a.h264"));
}

#[test]
fn every_thirtieth_segment_is_a_keyframe() {
    let mut r = reader(1_000_000);
    let marks: Vec<bool> = (0..61).map(|_| r.on_read(vec![0u8; 10]).unwrap().is_keyframe).collect();
    assert!(marks[0] && marks[30] && marks[60]);
    assert_eq!(marks.iter().filter(|k| **k).count(), 3);
}

#[test]
fn invalid_seek_position_carries_the_value() {
    let r = reader(10);
    assert!(matches!(r.seek_target(SeekTarget::Position(2_000_000)), Err(StreamError::InvalidSeekPosition(2_000_000))));
    let mut r = reader(10);
    assert!(matches!(r.set_playback_rate(4_001), Err(StreamError::InvalidPlaybackRate(4_001))));
    assert!(matches!(r.set_segment_size(4_095), Err(StreamError::Internal(_))));
}

#[test]
fn test_seek_to_offset() {
    let mut r = reader(100_000);
    seek(&mut r, SeekTarget::Offset(10_000)).unwrap();
    assert_eq!(r.get_offset(), 10_000);
    seek(&mut r, SeekTarget::Offset(50_000)).unwrap();
    assert_eq!(r.get_offset(), 50_000);
    seek(&mut r, SeekTarget::Offset(99_999)).unwrap();
    assert_eq!(r.get_offset(), 99_999);
    seek(&mut r, SeekTarget::Offset(200_000)).unwrap();
    assert_eq!(r.get_offset(), 100_000);
}

#[test]
fn test_seek_to_boundary_cases() {
    let mut r = reader(100_000);
    seek(&mut r, SeekTarget::Position(0)).unwrap();
    assert_eq!(r.get_offset(), 0);
    assert!(read(&mut r).is_some());
    seek(&mut r, SeekTarget::Position(1_000_000)).unwrap();
    assert_eq!(r.get_offset(), 100_000);
    assert!(read(&mut r).is_none());
    seek(&mut r, SeekTarget::Offset(100_000 - 100)).unwrap();
    assert_eq!(read(&mut r), Some(100));
}

#[test]
fn test_seek_to_invalid_position() {
    let mut r = reader(100_000);
    assert!(matches!(seek(&mut r, SeekTarget::Position(-500_000)), Err(StreamError::InvalidSeekPosition(_))));
    assert!(matches!(seek(&mut r, SeekTarget::Position(1_500_000)), Err(StreamError::InvalidSeekPosition(_))));
}

#[test]
fn test_seek_to_invalid_time() {
    let mut r = reader(100_000);
    assert!(matches!(
        seek(&mut r, SeekTarget::Time { time_us: -10_000_000, duration_us: 100_000_000 }),
        Err(StreamError::InvalidSeekPosition(_))
    ));
    assert!(matches!(
        seek(&mut r, SeekTarget::Time { time_us: 150_000_000, duration_us: 100_000_000 }),
        Err(StreamError::InvalidSeekPosition(_))
    ));
}

#[test]
fn test_seek_to_then_read() {
    let mut r = reader(100_000);
    seek(&mut r, SeekTarget::Position(500_000)).unwrap();
    assert_eq!(r.get_offset(), 50_000);
    assert_eq!(read(&mut r), Some(DEFAULT_SEGMENT_SIZE));
    assert_eq!(r.get_offset(), 50_000 + DEFAULT_SEGMENT_SIZE as u64);
    seek(&mut r, SeekTarget::Offset(10_000)).unwrap();
    assert_eq!(r.get_offset(), 10_000);
    assert!(read(&mut r).is_some());
    assert_eq!(r.get_offset(), 10_000 + DEFAULT_SEGMENT_SIZE as u64);
}

#[test]
fn test_seek_to_multiple_times() {
    let mut r = reader(100_000);
    let positions: Vec<i64> = vec![100_000, 300_000, 500_000, 700_000, 900_000, 200_000, 800_000, 0, 1_000_000];
    for pos in positions {
        seek(&mut r, SeekTarget::Position(pos)).unwrap();
        assert_eq!(r.get_offset(), (pos as u64) * 100_000 / 1_000_000);
        assert_eq!(r.get_progress() as i64, pos);
    }
}

#[test]
fn test_seek_to_with_different_target_types() {
    let mut r = reader(100_000);
    seek(&mut r, SeekTarget::Position(250_000)).unwrap();
    let pos1 = r.get_offset();
    seek(&mut r, SeekTarget::Offset(25_000)).unwrap();
    let pos2 = r.get_offset();
    seek(&mut r, SeekTarget::Time { time_us: 25_000_000, duration_us: 100_000_000 }).unwrap();
    let pos3 = r.get_offset();
    assert_eq!(pos1, 25_000);
    assert_eq!(pos2, 25_000);
    assert_eq!(pos3, 25_000);
}

#[test]
fn test_seek_to_zero_duration() {
    let mut r = reader(100_000);
    seek(&mut r, SeekTarget::Time { time_us: 0, duration_us: 0 }).unwrap();
    assert_eq!(r.get_offset(), 0);
}

#[test]
fn refused_segment_size_is_named_in_the_message() {
    let mut r = reader(100);
    match r.set_segment_size(4_095) {
        Err(StreamError::Internal(m)) => assert_eq!(m, "Invalid segment size: 4095 (must be between 4096 and 32768)"),
        other => panic!("unexpected {:?}", other),
    }
}

#[test]
fn reading_to_the_end_gives_the_file_back_in_order() {
    let file: Vec<u8> = (0..25_000u32).map(|i| (i % 251) as u8).collect();
    let mut r = reader(file.len() as u64);
    let mut lengths = Vec::new();
    let mut joined = Vec::new();
    while let Some(n) = r.next_read_size() {
        let at = r.get_offset() as usize;
        let seg = r.on_read(file[at..at + n].to_vec()).unwrap();
        lengths.push(seg.data.len());
        joined.extend_from_slice(&seg.data);
    }
    assert_eq!(lengths, vec![8192, 8192, 8192, 424]);
    assert_eq!(joined, file);
    assert_eq!(r.get_segments_read(), 4);
    assert_eq!(r.get_offset(), 25_000);
    assert_eq!(r.get_progress(), 1_000_000);
}
