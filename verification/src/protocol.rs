//! Messages and records exchanged between devices and the platform.
//!
//! Times are in microseconds since the epoch, stream times in
//! microseconds, rates in thousandths and identifiers are the 128-bit
//! values of UUIDs.

use vstd::prelude::*;

verus! {

/// Flag bits of a transmitted segment.
pub const FLAG_IS_KEYFRAME: u8 = 0x01;
pub const FLAG_HAS_AUDIO: u8 = 0x02;
pub const FLAG_IS_LAST_SEGMENT: u8 = 0x04;
pub const FLAG_REQUIRES_ACK: u8 = 0x08;
pub const FLAG_HIGH_PRIORITY: u8 = 0x10;

/// Default duration of a transmitted segment (33 ms, about 30 fps).
pub const DEFAULT_SEGMENT_DURATION_US: u64 = 33_000;

/// A video segment as transmitted from a device.
#[derive(Debug, Clone)]
pub struct VideoSegment {
    /// 1 for video.
    pub stream_type: u8,
    pub segment_id: u128,
    /// Playback session the segment belongs to (0 until assigned).
    pub session_id: u128,
    /// Presentation time (microseconds).
    pub timestamp_us: u64,
    /// Duration (microseconds).
    pub duration_us: u64,
    pub frame_count: u32,
    pub flags: u8,
    /// Length of the data (low 32 bits).
    pub data_length: u32,
    pub data: Vec<u8>,
}

/// A fresh random segment identifier (`Uuid::new_v4`); nothing is said of
/// its value, which is random.
#[verifier::external_body]
pub(crate) fn new_segment_id() -> u128 {
    uuid::Uuid::new_v4().as_u128()
}

/// Whether the keyframe bit is set.
pub open spec fn has_keyframe_flag(flags: u8) -> bool {
    flags % 2 == 1
}

impl VideoSegment {
    /// A one-frame video segment with a fresh identifier and no session.
    pub fn new(data: Vec<u8>, timestamp_us: u64, is_keyframe: bool) -> (s: Self)
        ensures
            s.stream_type == 1,
            s.session_id == 0,
            s.timestamp_us == timestamp_us,
            s.duration_us == DEFAULT_SEGMENT_DURATION_US,
            s.frame_count == 1,
            s.flags == if is_keyframe {
                FLAG_IS_KEYFRAME
            } else {
                0u8
            },
            s.data_length == data@.len() % 0x1_0000_0000,
            s.data@ == data@,
    {
        let len = data.len();
        let data_length: u32 = ((len as u64) % 0x1_0000_0000) as u32;
        VideoSegment {
            stream_type: 0x01,
            segment_id: new_segment_id(),
            session_id: 0,
            timestamp_us,
            duration_us: DEFAULT_SEGMENT_DURATION_US,
            frame_count: 1,
            flags: if is_keyframe {
                FLAG_IS_KEYFRAME
            } else {
                0
            },
            data_length,
            data,
        }
    }

    /// Whether the keyframe flag is set.
    pub fn is_keyframe(&self) -> (r: bool)
        ensures
            r == has_keyframe_flag(self.flags),
    {
        let f = self.flags;
        let b = f & FLAG_IS_KEYFRAME;
        assert(b == f % 2) by (bit_vector)
            requires
                b == f & 1u8,
        ;
        b != 0
    }
}

/// Kinds of control messages.
#[derive(Debug, Clone, Copy, PartialEq, Eq, Structural)]
pub enum MessageType {
    SessionStart,
    SessionEnd,
    SeekRequest,
    RateChange,
    PauseRequest,
    ResumeRequest,
    ErrorReport,
    StatsRequest,
    StatusResponse,
    Heartbeat,
    FileRequest,
    PlaybackControl,
    FileListQuery,
    FileListResponse,
    StartLiveStream,
    StopLiveStream,
    SeekToKeyframe,
    SetPlaybackSpeed,
    GetKeyframeIndex,
    SeekResponse,
    KeyframeIndexResponse,
}

/// The wire code of a message type.
pub open spec fn message_code(t: MessageType) -> u8 {
    match t {
        MessageType::SessionStart => 0x01,
        MessageType::SessionEnd => 0x02,
        MessageType::SeekRequest => 0x03,
        MessageType::RateChange => 0x04,
        MessageType::PauseRequest => 0x05,
        MessageType::ResumeRequest => 0x06,
        MessageType::ErrorReport => 0x07,
        MessageType::StatsRequest => 0x08,
        MessageType::StatusResponse => 0x09,
        MessageType::Heartbeat => 0x0A,
        MessageType::FileRequest => 0x0B,
        MessageType::PlaybackControl => 0x0C,
        MessageType::FileListQuery => 0x0D,
        MessageType::FileListResponse => 0x0E,
        MessageType::StartLiveStream => 0x10,
        MessageType::StopLiveStream => 0x11,
        MessageType::SeekToKeyframe => 0x12,
        MessageType::SetPlaybackSpeed => 0x13,
        MessageType::GetKeyframeIndex => 0x14,
        MessageType::SeekResponse => 0x15,
        MessageType::KeyframeIndexResponse => 0x16,
    }
}

impl MessageType {
    /// The wire code.
    pub fn code(&self) -> (c: u8)
        ensures
            c == message_code(*self),
    {
        match self {
            MessageType::SessionStart => 0x01,
            MessageType::SessionEnd => 0x02,
            MessageType::SeekRequest => 0x03,
            MessageType::RateChange => 0x04,
            MessageType::PauseRequest => 0x05,
            MessageType::ResumeRequest => 0x06,
            MessageType::ErrorReport => 0x07,
            MessageType::StatsRequest => 0x08,
            MessageType::StatusResponse => 0x09,
            MessageType::Heartbeat => 0x0A,
            MessageType::FileRequest => 0x0B,
            MessageType::PlaybackControl => 0x0C,
            MessageType::FileListQuery => 0x0D,
            MessageType::FileListResponse => 0x0E,
            MessageType::StartLiveStream => 0x10,
            MessageType::StopLiveStream => 0x11,
            MessageType::SeekToKeyframe => 0x12,
            MessageType::SetPlaybackSpeed => 0x13,
            MessageType::GetKeyframeIndex => 0x14,
            MessageType::SeekResponse => 0x15,
            MessageType::KeyframeIndexResponse => 0x16,
        }
    }

    /// The message type with wire code `c`, if any.
    pub fn from_code(c: u8) -> (r: Option<MessageType>)
        ensures
            match r {
                Some(t) => message_code(t) == c,
                None => forall|t: MessageType| message_code(t) != c,
            },
    {
        match c {
            0x01 => Some(MessageType::SessionStart),
            0x02 => Some(MessageType::SessionEnd),
            0x03 => Some(MessageType::SeekRequest),
            0x04 => Some(MessageType::RateChange),
            0x05 => Some(MessageType::PauseRequest),
            0x06 => Some(MessageType::ResumeRequest),
            0x07 => Some(MessageType::ErrorReport),
            0x08 => Some(MessageType::StatsRequest),
            0x09 => Some(MessageType::StatusResponse),
            0x0A => Some(MessageType::Heartbeat),
            0x0B => Some(MessageType::FileRequest),
            0x0C => Some(MessageType::PlaybackControl),
            0x0D => Some(MessageType::FileListQuery),
            0x0E => Some(MessageType::FileListResponse),
            0x10 => Some(MessageType::StartLiveStream),
            0x11 => Some(MessageType::StopLiveStream),
            0x12 => Some(MessageType::SeekToKeyframe),
            0x13 => Some(MessageType::SetPlaybackSpeed),
            0x14 => Some(MessageType::GetKeyframeIndex),
            0x15 => Some(MessageType::SeekResponse),
            0x16 => Some(MessageType::KeyframeIndexResponse),
            _ => None,
        }
    }
}

/// Law: decoding the code of a message type gives the type back, and
/// distinct types have distinct codes.
pub proof fn lemma_message_code_injective(a: MessageType, b: MessageType)
    ensures
        message_code(a) == message_code(b) ==> a == b,
{
}

/// Result codes of a status response.
#[derive(Debug, Clone, Copy, PartialEq, Eq, Structural)]
pub enum StatusCode {
    Success,
    BadRequest,
    Unauthorized,
    NotFound,
    InternalError,
    ServiceUnavailable,
}

/// The numeric value of a status code.
pub open spec fn status_value(s: StatusCode) -> u16 {
    match s {
        StatusCode::Success => 200,
        StatusCode::BadRequest => 400,
        StatusCode::Unauthorized => 401,
        StatusCode::NotFound => 404,
        StatusCode::InternalError => 500,
        StatusCode::ServiceUnavailable => 503,
    }
}

impl StatusCode {
    /// The numeric value.
    pub fn value(&self) -> (v: u16)
        ensures
            v == status_value(*self),
    {
        match self {
            StatusCode::Success => 200,
            StatusCode::BadRequest => 400,
            StatusCode::Unauthorized => 401,
            StatusCode::NotFound => 404,
            StatusCode::InternalError => 500,
            StatusCode::ServiceUnavailable => 503,
        }
    }
}

/// Kinds of devices.
#[derive(Debug, Clone, Copy, PartialEq, Eq, Structural)]
pub enum DeviceType {
    Camera,
    Recorder,
    Simulator,
    Gateway,
}

/// Connection state of a device.
#[derive(Debug, Clone, Copy, PartialEq, Eq, Structural)]
pub enum ConnectionStatus {
    Online,
    Offline,
    Reconnecting,
}

/// What a device can do.
#[derive(Debug, Clone)]
pub struct DeviceCapabilities {
    pub max_resolution: String,
    pub supported_formats: Vec<String>,
    pub max_bitrate: u64,
    pub supports_playback_control: bool,
    pub supports_recording: bool,
}

/// A registered device.
#[derive(Debug, Clone)]
pub struct DeviceInfo {
    pub device_id: String,
    pub device_name: String,
    pub device_type: DeviceType,
    pub connection_status: ConnectionStatus,
    /// When the device connected (microseconds since the epoch).
    pub connection_time_us: u64,
    /// Last heartbeat (microseconds since the epoch).
    pub last_heartbeat_us: u64,
    pub capabilities: DeviceCapabilities,
}

/// Converts segments and control commands between the device side and
/// the client side.
#[derive(Debug, Clone, Copy)]
pub struct ProtocolConverter;

impl ProtocolConverter {
    pub fn new() -> (c: Self) {
        ProtocolConverter
    }
}

/// Playback commands.
#[derive(Debug, Clone, Copy, PartialEq, Eq, Structural)]
pub enum PlaybackCommand {
    Play,
    Pause,
    Resume,
    Seek,
    SetRate,
    Stop,
}

/// Opens a device session.
#[derive(Debug, Clone)]
pub struct SessionStartRequest {
    pub device_id: String,
    pub device_name: String,
    pub device_type: DeviceType,
    pub capabilities: DeviceCapabilities,
}

/// Asks for the recordings of a device.
#[derive(Debug, Clone)]
pub struct FileListRequest {
    pub filter: Option<String>,
}

/// Answer to a control message.
#[derive(Debug, Clone)]
pub struct StatusResponse {
    pub code: StatusCode,
    pub message: String,
    pub data: Option<Vec<u8>>,
}

/// Asks a device to start a live stream.
#[derive(Debug, Clone)]
pub struct StartLiveStreamRequest {
    /// `low_latency` or `high_quality`.
    pub quality_preference: String,
    pub target_latency_ms: u32,
    pub target_fps: u32,
    pub target_bitrate: usize,
}

/// Asks a device to stop its live stream.
#[derive(Debug, Clone)]
pub struct StopLiveStreamRequest {
    pub reason: Option<String>,
}

/// Asks a device for the keyframe index of a file.
#[derive(Debug, Clone)]
pub struct GetKeyframeIndexRequest {
    pub file_path: String,
}

/// A recording offered by a device.
#[derive(Debug, Clone)]
pub struct RecordingInfo {
    pub file_id: String,
    pub device_id: String,
    pub file_name: String,
    pub file_path: String,
    pub file_size: u64,
    /// Length (microseconds).
    pub duration_us: u64,
    pub format: String,
    pub resolution: String,
    pub bitrate: u64,
    /// Frame rate (thousandths of fps).
    pub frame_rate_milli: u64,
    /// Microseconds since the epoch.
    pub created_time_us: u64,
    /// Microseconds since the epoch.
    pub modified_time_us: u64,
}

/// The recordings of a device.
#[derive(Debug, Clone)]
pub struct FileListResponse {
    pub files: Vec<RecordingInfo>,
}

/// Asks a device to play a recording back.
#[derive(Debug, Clone)]
pub struct FileRequest {
    pub file_path: String,
    pub priority: u8,
    /// Start position (microseconds).
    pub seek_position_us: Option<u64>,
    /// Playback rate (thousandths).
    pub playback_rate_milli: u64,
}

/// Asks a device to seek to the keyframe at a time.
#[derive(Debug, Clone, Copy)]
pub struct SeekToKeyframeRequest {
    pub target_time_us: u64,
    pub session_id: u128,
}

/// Outcome of a keyframe seek.
#[derive(Debug, Clone)]
pub struct SeekToKeyframeResponse {
    pub requested_time_us: u64,
    pub actual_time_us: u64,
    pub keyframe_offset: u64,
    /// Parts per million.
    pub precision_achieved_ppm: u64,
    pub execution_time_ms: u64,
    pub success: bool,
    pub error_message: Option<String>,
}

/// Asks a device to change the playback speed.
#[derive(Debug, Clone, Copy)]
pub struct SetPlaybackSpeedRequest {
    /// Thousandths.
    pub speed_milli: i64,
    pub session_id: u128,
}

/// Outcome of a speed change.
#[derive(Debug, Clone)]
pub struct SetPlaybackSpeedResponse {
    pub speed_milli: i64,
    pub success: bool,
    pub error_message: Option<String>,
}

/// An entry of a transmitted keyframe index.
#[derive(Debug, Clone, Copy)]
pub struct KeyframeEntry {
    pub timestamp_us: u64,
    pub file_offset: u64,
    pub frame_size: u32,
}

/// A transmitted keyframe index.
#[derive(Debug, Clone)]
pub struct GetKeyframeIndexResponse {
    pub file_path: String,
    pub keyframes: Vec<KeyframeEntry>,
    pub total_duration_us: u64,
    pub success: bool,
    pub error_message: Option<String>,
}

/// Target frame rate requested for live streams.
pub const LIVE_TARGET_FPS: u32 = 30;

/// Target bitrate requested for live streams (2 Mbps).
pub const LIVE_TARGET_BITRATE: usize = 2_000_000;

/// The live-stream request the platform sends to a device: low latency at
/// 30 fps and 2 Mbps, with the given latency target.
pub fn live_stream_request(target_latency_ms: u32) -> (r: StartLiveStreamRequest)
    ensures
        r.quality_preference@ == "low_latency"@,
        r.target_latency_ms == target_latency_ms,
        r.target_fps == LIVE_TARGET_FPS,
        r.target_bitrate == LIVE_TARGET_BITRATE,
{
    StartLiveStreamRequest {
        quality_preference: "low_latency".to_owned(),
        target_latency_ms,
        target_fps: LIVE_TARGET_FPS,
        target_bitrate: LIVE_TARGET_BITRATE,
    }
}

} // verus!
