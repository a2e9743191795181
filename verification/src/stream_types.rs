//! Types shared by the platform-side streaming components.
//!
//! Times are in microseconds, frame rates in thousandths of a frame per
//! second and playback rates in thousandths (`1000` is normal speed).

use vstd::prelude::*;

verus! {

/// Container format of a video segment.
#[derive(Debug, Clone, Copy, PartialEq, Eq, Structural)]
pub enum SegmentFormat {
    /// Raw H.264 Annex B stream.
    H264Raw,
    /// Fragmented MP4.
    FMP4,
    /// Standard MP4.
    MP4,
}

/// Where a segment comes from.
#[derive(Debug, Clone, Copy, PartialEq, Eq, Structural)]
pub enum SegmentSourceType {
    /// Live from a device.
    Live,
    /// Played back from a recording.
    Playback,
}

/// A video segment flowing through the platform.
#[derive(Debug, Clone)]
pub struct VideoSegment {
    /// Unique segment id (the 128-bit value of a UUID).
    pub segment_id: u128,
    /// Presentation time relative to the stream start (microseconds).
    pub timestamp_us: u64,
    /// Duration (microseconds).
    pub duration_us: u64,
    /// Payload.
    pub data: Vec<u8>,
    /// Whether the segment starts with a keyframe.
    pub is_keyframe: bool,
    /// Container format of the payload.
    pub format: SegmentFormat,
    /// Live or playback.
    pub source_type: SegmentSourceType,
    /// When the platform received it (microseconds since the epoch).
    pub receive_time_us: Option<u64>,
    /// When the platform forwarded it (microseconds since the epoch).
    pub forward_time_us: Option<u64>,
}

/// Errors of stream processing.
#[derive(Debug, Clone)]
pub enum StreamError {
    DeviceNotConnected,
    DeviceOffline,
    ConnectionLost,
    FileNotFound(String),
    FileNotAccessible(String),
    FileReadError(String),
    TransmissionTimeout,
    SegmentCorrupted,
    NetworkError(String),
    OperationNotSupported,
    /// A rejected seek position (microseconds).
    InvalidSeekPosition(i64),
    /// A rejected playback rate (thousandths).
    InvalidPlaybackRate(i64),
    SessionNotFound,
    TooManySessions,
    OutOfMemory,
    Internal(String),
    Io(String),
}

/// State of a stream.
#[derive(Debug, Clone, PartialEq, Eq)]
pub enum StreamState {
    Initializing,
    Streaming,
    Paused,
    Seeking,
    Stopped,
    Error(String),
}

/// Mode of a stream.
#[derive(Debug, Clone)]
pub enum StreamMode {
    Live { device_id: String },
    Playback { file_id: String, playback_rate_milli: u64 },
}

/// Description of a stream.
#[derive(Debug, Clone)]
pub struct StreamInfo {
    pub mode: StreamMode,
    pub state: StreamState,
    pub resolution: Option<(u32, u32)>,
    /// Frame rate (thousandths of a frame per second).
    pub frame_rate_milli: Option<u64>,
    /// Bitrate (bits per second).
    pub bitrate: Option<u64>,
    /// Total duration (microseconds; playback only).
    pub duration_us: Option<u64>,
    /// Current position (microseconds).
    pub current_position_us: u64,
    /// Playback rate (thousandths).
    pub playback_rate_milli: u64,
}

/// The kinds of I/O failure that stream errors tell apart.
#[derive(Debug, Clone, Copy, PartialEq, Eq, Structural)]
pub enum IoFailure {
    NotFound,
    PermissionDenied,
    TimedOut,
    ConnectionReset,
    ConnectionAborted,
    BrokenPipe,
    Other,
}

/// The stream error for an I/O failure of a kind, with its message.
pub open spec fn stream_error_for(kind: IoFailure, text: String) -> StreamError {
    match kind {
        IoFailure::NotFound => StreamError::FileNotFound(text),
        IoFailure::PermissionDenied => StreamError::FileNotAccessible(text),
        IoFailure::TimedOut => StreamError::TransmissionTimeout,
        IoFailure::ConnectionReset | IoFailure::ConnectionAborted | IoFailure::BrokenPipe =>
            StreamError::ConnectionLost,
        IoFailure::Other => StreamError::Io(text),
    }
}

/// The kind of an I/O error, as `std::io::Error::kind` reports it, for the
/// kinds that stream errors tell apart (all others are `Other`). Which
/// kind comes back is left unsaid: for an operating-system error it
/// depends on the platform's error codes.
#[verifier::external_body]
fn io_failure_of(error: &std::io::Error) -> IoFailure {
    match error.kind() {
        std::io::ErrorKind::NotFound => IoFailure::NotFound,
        std::io::ErrorKind::PermissionDenied => IoFailure::PermissionDenied,
        std::io::ErrorKind::TimedOut => IoFailure::TimedOut,
        std::io::ErrorKind::ConnectionReset => IoFailure::ConnectionReset,
        std::io::ErrorKind::ConnectionAborted => IoFailure::ConnectionAborted,
        std::io::ErrorKind::BrokenPipe => IoFailure::BrokenPipe,
        _ => IoFailure::Other,
    }
}

/// The message of an I/O error, as its `to_string` gives it. Its text is
/// left unsaid: for an operating-system error it comes from the system.
#[verifier::external_body]
fn io_error_text(error: &std::io::Error) -> String {
    error.to_string()
}

impl StreamError {
    /// The stream error for an I/O failure of `kind` with message `text`:
    /// a missing file, an inaccessible file, a timeout, a lost connection,
    /// or any other I/O error.
    pub fn for_io_failure(kind: IoFailure, text: String) -> (e: StreamError)
        ensures
            e == stream_error_for(kind, text),
    {
        match kind {
            IoFailure::NotFound => StreamError::FileNotFound(text),
            IoFailure::PermissionDenied => StreamError::FileNotAccessible(text),
            IoFailure::TimedOut => StreamError::TransmissionTimeout,
            IoFailure::ConnectionReset | IoFailure::ConnectionAborted | IoFailure::BrokenPipe =>
                StreamError::ConnectionLost,
            IoFailure::Other => StreamError::Io(text),
        }
    }

    /// The stream error for an I/O error, by its kind and message.
    pub fn from_io_error(error: std::io::Error) -> (e: StreamError)
        ensures
            exists|kind: IoFailure, text: String| e == stream_error_for(kind, text),
    {
        let kind = io_failure_of(&error);
        let text = io_error_text(&error);
        Self::for_io_failure(kind, text)
    }
}

} // verus!
