use video_stream::fmp4::{write_box, BoxType, FMP4Converter, FMP4ConverterConfig};
use video_stream::stream_types::{SegmentFormat, SegmentSourceType, VideoSegment};

fn h264_segment(data: Vec<u8>, format: SegmentFormat) -> VideoSegment {
    VideoSegment {
        segment_id: 0x1234_5678_9abc_def0,
        timestamp_us: 1_000_000,
        duration_us: 33_000,
        data,
        is_keyframe: true,
        format,
        source_type: SegmentSourceType::Live,
        receive_time_us: None,
        forward_time_us: None,
    }
}

#[test]
fn test_converter_creation() {
    let converter = FMP4Converter::new(FMP4ConverterConfig::default());
    assert_eq!(converter.sequence_number, 0);
}

#[test]
fn test_generate_init_segment() {
    let converter = FMP4Converter::new(FMP4ConverterConfig::default());
    let init_segment = converter.generate_init_segment().unwrap();

    assert!(!init_segment.is_empty());
    assert!(init_segment.len() > 100);
    assert_eq!(&init_segment[4..8], b"ftyp");
}

#[test]
fn test_convert_segment() {
    let mut converter = FMP4Converter::new(FMP4ConverterConfig::default());
    let h264 = h264_segment(vec![0, 0, 0, 1, 0x67, 0x42, 0x00, 0x1f], SegmentFormat::H264Raw);
    let id = h264.segment_id;

    let fmp4_segment = converter.convert_segment(h264).unwrap();

    assert_eq!(fmp4_segment.segment_id, id);
    assert_eq!(fmp4_segment.timestamp_us, 1_000_000);
    assert_eq!(fmp4_segment.duration_us, 33_000);
    assert_eq!(fmp4_segment.is_keyframe, true);
    assert_eq!(fmp4_segment.format, SegmentFormat::FMP4);
    assert!(!fmp4_segment.data.is_empty());
}

#[test]
fn test_sequence_number_increment() {
    let mut converter = FMP4Converter::new(FMP4ConverterConfig::default());

    converter.convert_segment(h264_segment(vec![0, 0, 0, 1, 0x67], SegmentFormat::H264Raw)).unwrap();
    assert_eq!(converter.sequence_number, 1);

    converter.convert_segment(h264_segment(vec![0, 0, 0, 1, 0x67], SegmentFormat::H264Raw)).unwrap();
    assert_eq!(converter.sequence_number, 2);
}

#[test]
fn test_invalid_format_conversion() {
    let mut converter = FMP4Converter::new(FMP4ConverterConfig::default());
    let result = converter.convert_segment(h264_segment(vec![1, 2, 3], SegmentFormat::MP4));
    assert!(result.is_err());
}

#[test]
fn test_video_segment_creation() {
    let segment = VideoSegment {
        segment_id: 1,
        timestamp_us: 1_500_000,
        duration_us: 33_000,
        data: vec![0u8; 1024],
        is_keyframe: true,
        format: SegmentFormat::FMP4,
        source_type: SegmentSourceType::Live,
        receive_time_us: Some(1_700_000_000_000_000),
        forward_time_us: None,
    };

    assert_eq!(segment.timestamp_us, 1_500_000);
    assert_eq!(segment.duration_us, 33_000);
    assert_eq!(segment.is_keyframe, true);
    assert_eq!(segment.format, SegmentFormat::FMP4);
    assert!(segment.receive_time_us.is_some());
}

// Own tests.

#[test]
fn box_header_holds_size_and_type() {
    let mut buf = vec![9u8];
    write_box(&mut buf, BoxType::Mdat, &[1, 2, 3]);
    assert_eq!(buf, vec![9, 0, 0, 0, 11, b'm', b'd', b'a', b't', 1, 2, 3]);
}

#[test]
fn media_segment_layout() {
    let mut converter = FMP4Converter::new(FMP4ConverterConfig::default());
    let data = vec![0xAA, 0xBB, 0xCC];
    let out = converter.convert_segment(h264_segment(data.clone(), SegmentFormat::H264Raw)).unwrap().data;
    // moof first, then an mdat closing with the sample data.
    assert_eq!(&out[4..8], b"moof");
    let n = out.len();
    assert_eq!(&out[n - 3..], &data[..]);
    assert_eq!(&out[n - 11..n - 3], &[0, 0, 0, 11, b'm', b'd', b'a', b't']);
    let moof_size = u32::from_be_bytes([out[0], out[1], out[2], out[3]]) as usize;
    assert_eq!(moof_size, n - 11);
    // mfhd carries sequence number 0 for the first segment.
    assert_eq!(&out[12..16], b"mfhd");
    assert_eq!(&out[20..24], &[0, 0, 0, 0]);
    // tfdt holds the decode time: 1 s at 90 kHz.
    let tfdt = out.windows(4).position(|w| w == b"tfdt").unwrap();
    let t = &out[tfdt + 8..tfdt + 16];
    assert_eq!(u64::from_be_bytes(t.try_into().unwrap()), 90_000);
}

#[test]
fn init_segment_boxes_chain_to_its_end() {
    let converter = FMP4Converter::default();
    let init = converter.generate_init_segment().unwrap();
    let ftyp = u32::from_be_bytes([init[0], init[1], init[2], init[3]]) as usize;
    assert_eq!(ftyp, 28);
    assert_eq!(&init[ftyp + 4..ftyp + 8], b"moov");
    let moov = u32::from_be_bytes([init[ftyp], init[ftyp + 1], init[ftyp + 2], init[ftyp + 3]]) as usize;
    assert_eq!(ftyp + moov, init.len());
}

#[test]
fn trun_data_offset_points_at_the_first_sample_byte() {
    let mut converter = FMP4Converter::new(FMP4ConverterConfig::default());
    let data = vec![0, 0, 0, 1, 0x67];
    let out = converter.convert_segment(h264_segment(data.clone(), SegmentFormat::H264Raw)).unwrap();
    assert_eq!(out.data.len(), 105);
    assert_eq!(&out.data[0..4], &[0, 0, 0, 92]);
    assert_eq!(&out.data[4..8], b"moof");
    assert_eq!(&out.data[84..88], &[0, 0, 0, 100]);
    assert_eq!(&out.data[92..100], &[0, 0, 0, 13, b'm', b'd', b'a', b't']);
    assert_eq!(&out.data[100..], &data[..]);
}
