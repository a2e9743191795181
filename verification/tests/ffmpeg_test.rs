use video_stream::device_control::DefaultFFmpegParser;
use video_stream::errors::FFmpegError;

#[test]
fn test_version_extraction() {
    let parser = DefaultFFmpegParser::new();
    let version_output = "ffmpeg version 4.4.0 Copyright (c) 2000-2021 the FFmpeg developers";

    let version = parser.extract_version_string(version_output).unwrap();
    assert!(version.contains("ffmpeg version 4.4.0"));
}

#[test]
fn test_audio_detection() {
    let parser = DefaultFFmpegParser::new();
    let output_with_audio = "Stream #0:0: Video: h264\nStream #0:1: Audio: aac";
    let output_without_audio = "Stream #0:0: Video: h264";

    assert!(parser.has_audio_stream(output_with_audio));
    assert!(!parser.has_audio_stream(output_without_audio));
}

// Own tests.

#[test]
fn version_is_the_whole_first_line() {
    let parser = DefaultFFmpegParser::new();
    let out = "ffmpeg version 6.1 built with gcc\nconfiguration: --enable-gpl";
    assert_eq!(parser.extract_version_string(out).unwrap(), "ffmpeg version 6.1 built with gcc");
}

#[test]
fn version_refused_when_first_line_differs() {
    let parser = DefaultFFmpegParser::new();
    let r = parser.extract_version_string("libavutil 58\nffmpeg version 6.1");
    assert!(matches!(r, Err(FFmpegError::ParseError { .. })));
    let r = parser.extract_version_string("");
    assert!(matches!(r, Err(FFmpegError::ParseError { .. })));
}

#[test]
fn audio_marker_on_a_later_line_counts() {
    let parser = DefaultFFmpegParser::new();
    assert!(parser.has_audio_stream("a\nb\n  Stream #0:2: Audio: opus"));
    assert!(!parser.has_audio_stream("Stream: audio"));
}

#[test]
fn default_parser_configuration() {
    let parser = DefaultFFmpegParser::new();
    assert_eq!(parser.config.timeout_ms, 30_000);
    assert_eq!(parser.config.min_version, "4.0");
}
