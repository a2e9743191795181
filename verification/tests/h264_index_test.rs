use video_stream::h264::{find_nal_units, get_nal_type, is_keyframe_nal, nal_type, DefaultFileStreamReader};
use video_stream::keyframe_index::{
    first_index_step, next_index_step, IndexSourceStep, IndexStepDecision,
    check_seek_position, find_nearest_keyframe, seek_plan, strategy_for_memory_limit, FrameType, IndexBuilder,
    IndexOptimizationStrategy, KeyframeEntry, KeyframeIndex,
};
use video_stream::errors::FileError;
use video_stream::live_stream::{
    MockStream,
    assemble_live_segment, live_frame_segment, mock_bytes_per_frame, mock_frame_data, mock_is_keyframe, mock_segment,
    nal_units_found,
};

const SPS: [u8; 6] = [0, 0, 0, 1, 0x67, 0xAA];
const PPS: [u8; 6] = [0, 0, 0, 1, 0x68, 0xBB];
const IDR: [u8; 6] = [0, 0, 0, 1, 0x65, 0xCC];
const P: [u8; 5] = [0, 0, 1, 0x41, 0xDD];

fn stream(parts: &[&[u8]]) -> Vec<u8> {
    parts.iter().flat_map(|p| p.iter().copied()).collect()
}

#[test]
fn nal_types() {
    assert_eq!(nal_type(0x65), 5);
    assert_eq!(nal_type(0x67), 7);
    assert_eq!(get_nal_type(&SPS), 7);
    assert_eq!(get_nal_type(&P), 1);
    assert_eq!(get_nal_type(&[0x68]), 8);
    assert_eq!(get_nal_type(&[0, 0, 1]), 0);
    assert!(is_keyframe_nal(&IDR));
    assert!(is_keyframe_nal(&PPS));
    assert!(!is_keyframe_nal(&P));
}

#[test]
fn nal_units_are_regrouped_parameter_sets_first() {
    let data = stream(&[&P, &IDR, &PPS, &SPS]);
    let units = find_nal_units(&data);
    assert_eq!(units, vec![SPS.to_vec(), PPS.to_vec(), IDR.to_vec(), P.to_vec()]);
    assert!(find_nal_units(&[1, 2, 3, 4, 5]).is_empty());
}

#[test]
fn h264_detection_and_frames() {
    let reader = DefaultFileStreamReader::new();
    assert_eq!(reader.is_h264_format(&stream(&[&[9, 9], &IDR])).unwrap(), true);
    assert_eq!(reader.is_h264_format(&[0, 0, 0, 1, 0x6A, 0, 0]).unwrap(), false);
    assert_eq!(reader.is_h264_format(&[0, 0, 1]).unwrap(), false);
    let a = reader.analyze_h264_frames_in_buffer(&stream(&[&SPS, &IDR, &P, &P]));
    assert_eq!(a.keyframes, 1);
    // The scan stops five bytes before the end, so the last slice is not seen.
    assert_eq!(a.total_frames, 2);
}

#[test]
fn live_segment_starting_with_sps_takes_parameter_sets_and_one_idr() {
    let units = vec![SPS.to_vec(), PPS.to_vec(), IDR.to_vec(), P.to_vec(), P.to_vec()];
    let seg = assemble_live_segment(&units, 0, 1);
    assert_eq!(seg.data, stream(&[&SPS, &PPS, &IDR]));
    assert!(seg.has_keyframe);
    assert_eq!(seg.next_index, 3);
    let seg2 = assemble_live_segment(&units, 3, 2);
    assert_eq!(seg2.data, stream(&[&P, &P]));
    assert!(!seg2.has_keyframe);
    // The units ran out: start over.
    assert_eq!(seg2.next_index, 0);
    // Every thirtieth frame the parameter sets are sent again.
    let seg3 = assemble_live_segment(&units, 3, 30);
    assert_eq!(seg3.next_index, 0);
}

#[test]
fn mock_frames() {
    assert_eq!(mock_bytes_per_frame(2_000_000, 30), 8_333);
    assert!(mock_is_keyframe(0, 30));
    assert!(mock_is_keyframe(30, 30));
    assert!(!mock_is_keyframe(31, 30));
    let d = mock_frame_data(3, 30, 5);
    assert_eq!(d.len(), 5);
}

#[test]
fn memory_limits_choose_strategies() {
    assert_eq!(strategy_for_memory_limit(64), IndexOptimizationStrategy::Full);
    assert_eq!(strategy_for_memory_limit(50), IndexOptimizationStrategy::Full);
    assert_eq!(strategy_for_memory_limit(20), IndexOptimizationStrategy::Adaptive);
    assert_eq!(strategy_for_memory_limit(10), IndexOptimizationStrategy::Sparse);
    assert_eq!(strategy_for_memory_limit(0), IndexOptimizationStrategy::Hierarchical);
}

fn entry(t: u64, off: u64) -> KeyframeEntry {
    KeyframeEntry { timestamp_us: t, file_offset: off, frame_size: 100, gop_size: 30, frame_type: FrameType::I }
}

fn index(entries: Vec<KeyframeEntry>, duration_us: u64) -> KeyframeIndex {
    KeyframeIndex {
        entries,
        total_duration_us: duration_us,
        index_precision_us: 1_000_000,
        memory_optimized: false,
        optimization_strategy: IndexOptimizationStrategy::Full,
        memory_usage: 0,
    }
}

#[test]
fn nearest_keyframe_is_at_or_before() {
    let idx = index(vec![entry(0, 0), entry(1_000_000, 500), entry(2_000_000, 900)], 3_000_000);
    assert_eq!(find_nearest_keyframe(1_500_000, &idx).unwrap().file_offset, 500);
    assert_eq!(find_nearest_keyframe(2_000_000, &idx).unwrap().file_offset, 900);
    assert_eq!(find_nearest_keyframe(0, &idx).unwrap().file_offset, 0);
    assert!(find_nearest_keyframe(5, &index(vec![], 10)).is_none());
}

#[test]
fn seek_plans() {
    let idx = index(vec![entry(1_000_000, 500), entry(2_000_000, 900)], 3_000_000);
    let p = seek_plan(2_500_000, &idx).unwrap();
    assert_eq!(p.offset, 900);
    assert_eq!(p.precision_us, 500_000);
    let q = seek_plan(500_000, &idx).unwrap();
    assert_eq!(q.offset, 500);
    assert_eq!(q.precision_us, 500_000);
    assert!(matches!(seek_plan(-1, &idx), Err(FileError::InvalidSeekPosition)));
    assert!(matches!(seek_plan(3_000_001, &idx), Err(FileError::SeekBeyondEnd)));
    let e = seek_plan(7, &index(vec![], 10)).unwrap();
    assert_eq!(e.offset, 0);
    assert_eq!(e.precision_us, 7);
    assert!(check_seek_position(5, 5).is_ok());
    assert!(matches!(check_seek_position(5, 6), Err(FileError::SeekFailed)));
}

#[test]
fn index_built_from_a_buffer() {
    let data = stream(&[&SPS, &IDR, &P, &IDR, &P]);
    let mut b = IndexBuilder::new(IndexOptimizationStrategy::Full, data.len() as u64);
    assert_eq!(b.buffer_size(), 65_536);
    assert!(b.wants_more());
    b.feed(&data);
    assert!(!b.wants_more());
    let idx = b.finish();
    // Each four-byte start code also holds a three-byte one a byte later,
    // so each IDR slice is found twice.
    assert_eq!(idx.entries.len(), 4);
    let offsets: Vec<u64> = idx.entries.iter().map(|e| e.file_offset).collect();
    assert_eq!(offsets, vec![6, 7, 17, 18]);
    assert!(idx.entries[0].timestamp_us <= idx.entries[1].timestamp_us);
    assert!(!idx.memory_optimized);
    assert_eq!(idx.optimization_strategy, IndexOptimizationStrategy::Full);
}

#[test]
fn mock_segments_carry_the_mock_frames() {
    let b = mock_bytes_per_frame(2_000_000, 30);
    let key = mock_segment(7, 0, 30, b);
    assert_eq!(key.session_id, 7);
    assert_eq!(key.stream_type, 1);
    assert_eq!(key.frame_count, 1);
    assert_eq!(key.flags, 1);
    assert_eq!(key.timestamp_us, 0);
    assert_eq!(key.duration_us, 33_333);
    assert_eq!(key.data.len(), b);
    assert_eq!(key.data_length as usize, b);
    assert_eq!(&key.data[..5], &[0, 0, 0, 1, 0x67]);
    let other = mock_segment(7, 31, 30, 10);
    assert_eq!(other.flags, 0);
    assert_eq!(other.timestamp_us, 1_033_333);
    assert_eq!(other.data.len(), 10);
    assert_eq!(&other.data[..5], &[0, 0, 0, 1, 0x41]);
    assert_eq!(mock_segment(7, 30, 30, 10).data.len(), 52);
}

#[test]
fn a_file_without_nal_units_is_refused() {
    assert_eq!(nal_units_found(&Vec::new()).unwrap_err(), "No NAL units found in file");
    assert!(nal_units_found(&vec![vec![0, 0, 0, 1, 0x65]]).is_ok());
    let s = live_frame_segment(3, 2, 25, vec![1, 2, 3], true);
    assert_eq!(s.timestamp_us, 80_000);
    assert_eq!(s.duration_us, 40_000);
    assert_eq!(s.flags, 1);
    assert_eq!(s.data_length, 3);
}

#[test]
fn nal_units_mixed_start_codes_regrouped() {
    let data = vec![0, 0, 0, 1, 0x41, 0xAA, 0, 0, 1, 0x67, 0xBB, 0, 0, 0, 1, 0x65, 0xCC];
    let units = video_stream::h264::find_nal_units(&data);
    assert_eq!(units, vec![vec![0, 0, 1, 0x67, 0xBB], vec![0, 0, 0, 1, 0x65, 0xCC], vec![0, 0, 0, 1, 0x41, 0xAA]]);
    assert!(video_stream::h264::find_nal_units(&[1, 2, 3, 4, 5]).is_empty());
}

#[test]
fn mock_stream_sends_frame_k_as_its_kth_segment() {
    let mut m = MockStream::new(42, 30, 2_000_000);
    assert_eq!(m.bytes_per_frame, 8_333);
    let segs: Vec<_> = (0..61).map(|_| m.next_segment()).collect();
    assert_eq!(m.frame_count, 61);
    for (k, s) in segs.iter().enumerate() {
        assert_eq!(s.session_id, 42);
        assert_eq!(s.stream_type, 1);
        assert_eq!(s.frame_count, 1);
        assert_eq!(s.data.len(), 8_333);
        assert_eq!(s.data_length, 8_333);
        if k % 30 == 0 {
            assert_eq!(s.flags, 1);
            assert_eq!(&s.data[..5], &[0, 0, 0, 1, 0x67]);
            assert_eq!(&s.data[39..44], &[0, 0, 0, 1, 0x68]);
            assert_eq!(&s.data[47..52], &[0, 0, 0, 1, 0x65]);
        } else {
            assert_eq!(s.flags, 0);
            assert_eq!(&s.data[..5], &[0, 0, 0, 1, 0x41]);
        }
    }
}

#[test]
fn a_build_over_several_buffers_keeps_entries_ordered() {
    let data = stream(&[&SPS, &IDR, &P, &IDR, &P, &IDR, &P]);
    let mut b = IndexBuilder::new(IndexOptimizationStrategy::Full, data.len() as u64);
    for chunk in data.chunks(11) {
        b.feed(chunk);
    }
    let idx = b.finish();
    for w in idx.entries.windows(2) {
        assert!(w[0].timestamp_us < w[1].timestamp_us);
        assert!(w[0].file_offset < w[1].file_offset);
    }
    assert!(idx.entries.iter().all(|e| e.frame_type == FrameType::I));
    assert_eq!(idx.memory_usage, idx.entries.len() * 32);
    assert!(idx.total_duration_us >= 1_000_000);
}

#[test]
fn index_sources_are_tried_cache_then_ffmpeg_then_scan() {
    assert_eq!(first_index_step(true, true), IndexSourceStep::Cache);
    assert_eq!(first_index_step(false, true), IndexSourceStep::Ffmpeg);
    assert_eq!(first_index_step(false, false), IndexSourceStep::Scan);
    assert_eq!(next_index_step(IndexSourceStep::Cache, false, true, true), IndexStepDecision::Try(IndexSourceStep::Ffmpeg));
    assert_eq!(next_index_step(IndexSourceStep::Cache, false, true, false), IndexStepDecision::Try(IndexSourceStep::Scan));
    assert_eq!(next_index_step(IndexSourceStep::Ffmpeg, false, true, true), IndexStepDecision::Try(IndexSourceStep::Scan));
    assert_eq!(next_index_step(IndexSourceStep::Scan, false, true, true), IndexStepDecision::GiveUp);
    assert_eq!(next_index_step(IndexSourceStep::Cache, true, true, true), IndexStepDecision::Use { save: false });
    assert_eq!(next_index_step(IndexSourceStep::Ffmpeg, true, true, true), IndexStepDecision::Use { save: true });
    assert_eq!(next_index_step(IndexSourceStep::Scan, true, false, true), IndexStepDecision::Use { save: false });
}
