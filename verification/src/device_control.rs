//! The device's service logic: what it does with each control message,
//! how it keeps its platform connection, how it answers requests, and how
//! it reads FFmpeg's output.
//!
//! Times are in microseconds, rates and speeds in thousandths.

use vstd::prelude::*;
use vstd::string::StrSliceExecFns;
use crate::errors::FFmpegError;
use crate::http::{lemma_find_within, split_file_id, split_file_id_of, lowercase_of};
use crate::keyframe_index::{FrameType, IndexOptimizationStrategy, KeyframeEntry, KeyframeIndex, ENTRY_BYTES};
use crate::media_files::{VideoFile, VideoFormat};
use crate::protocol::{
    GetKeyframeIndexResponse, MessageType, RecordingInfo, SeekToKeyframeRequest,
    SeekToKeyframeResponse, SetPlaybackSpeedRequest, SetPlaybackSpeedResponse, StartLiveStreamRequest,
    VideoSegment, live_stream_request,
};
use crate::text::{
    chars_of, find_char_from, find_from, join_underscore, parse_u64_of, parse_u64_range, push_signed_decimal,
    signed_decimal_of, str_equals,
};
use vstd::string::StringExecFns;

verus! {

/// What the device does with a control message.
#[derive(Debug, Clone, Copy, PartialEq, Eq, Structural)]
pub enum ControlAction {
    /// Answer with the file list.
    SendFileList,
    /// Acknowledge and start playing a recording back.
    StartPlayback,
    /// Acknowledge and start a live stream.
    StartLiveStream,
    /// Acknowledge a stop.
    AcknowledgeStop,
    /// Answer a keyframe seek.
    AnswerSeek,
    /// Answer a speed change.
    AnswerSpeed,
    /// Answer with a keyframe index.
    AnswerKeyframeIndex,
    /// Ignore the message.
    Ignore,
}

/// The action for each message type.
pub open spec fn control_action_of(t: MessageType) -> ControlAction {
    match t {
        MessageType::FileListQuery => ControlAction::SendFileList,
        MessageType::FileRequest => ControlAction::StartPlayback,
        MessageType::StartLiveStream => ControlAction::StartLiveStream,
        MessageType::StopLiveStream => ControlAction::AcknowledgeStop,
        MessageType::SeekToKeyframe => ControlAction::AnswerSeek,
        MessageType::SetPlaybackSpeed => ControlAction::AnswerSpeed,
        MessageType::GetKeyframeIndex => ControlAction::AnswerKeyframeIndex,
        _ => ControlAction::Ignore,
    }
}

/// Decides what to do with a control message.
pub fn control_action(t: MessageType) -> (a: ControlAction)
    ensures
        a == control_action_of(t),
{
    match t {
        MessageType::FileListQuery => ControlAction::SendFileList,
        MessageType::FileRequest => ControlAction::StartPlayback,
        MessageType::StartLiveStream => ControlAction::StartLiveStream,
        MessageType::StopLiveStream => ControlAction::AcknowledgeStop,
        MessageType::SeekToKeyframe => ControlAction::AnswerSeek,
        MessageType::SetPlaybackSpeed => ControlAction::AnswerSpeed,
        MessageType::GetKeyframeIndex => ControlAction::AnswerKeyframeIndex,
        _ => ControlAction::Ignore,
    }
}

/// The message type of the answer to an action, for those answered with a
/// message.
pub fn response_type(a: ControlAction) -> (t: Option<MessageType>)
    ensures
        t == match a {
            ControlAction::SendFileList => Some(MessageType::FileListResponse),
            ControlAction::AnswerSeek => Some(MessageType::SeekResponse),
            ControlAction::AnswerSpeed => Some(MessageType::StatusResponse),
            ControlAction::AnswerKeyframeIndex => Some(MessageType::KeyframeIndexResponse),
            _ => None::<MessageType>,
        },
{
    match a {
        ControlAction::SendFileList => Some(MessageType::FileListResponse),
        ControlAction::AnswerSeek => Some(MessageType::SeekResponse),
        ControlAction::AnswerSpeed => Some(MessageType::StatusResponse),
        ControlAction::AnswerKeyframeIndex => Some(MessageType::KeyframeIndexResponse),
        _ => None,
    }
}

/// The live-stream request used when a request cannot be decoded: low
/// latency, 100 ms, 30 fps, 2 Mbps.
pub fn default_live_request() -> (r: StartLiveStreamRequest)
    ensures
        r.quality_preference@ == "low_latency"@,
        r.target_latency_ms == 100,
        r.target_fps == 30,
        r.target_bitrate == 2_000_000,
{
    live_stream_request(100)
}

/// Longest wait between reconnection attempts (seconds).
pub const MAX_RECONNECT_DELAY_SECS: u64 = 10;

/// `2^n`, saturating at `u64::MAX`.
pub open spec fn pow2_sat(n: nat) -> int
    decreases n,
{
    if n == 0 {
        1
    } else {
        let p = 2 * pow2_sat((n - 1) as nat);
        if p > u64::MAX {
            u64::MAX as int
        } else {
            p
        }
    }
}

/// The wait before reconnection attempt `attempt` (from 1): 1, 2, 4 and 8
/// seconds, then 10.
pub open spec fn reconnect_delay_of(attempt: u32) -> u64 {
    let e = if attempt >= 1 {
        (attempt - 1) as nat
    } else {
        0
    };
    let p = pow2_sat(e);
    if p < MAX_RECONNECT_DELAY_SECS {
        p as u64
    } else {
        MAX_RECONNECT_DELAY_SECS
    }
}

proof fn lemma_pow2_sat_ge(n: nat)
    ensures
        pow2_sat(n) >= 1,
        n >= 4 ==> pow2_sat(n) >= 16,
    decreases n,
{
    if n > 0 {
        lemma_pow2_sat_ge((n - 1) as nat);
        if n >= 4 {
            if n == 4 {
                assert(pow2_sat(4) == 16) by {
                    reveal_with_fuel(pow2_sat, 5);
                }
            }
        }
    }
}

/// The wait before reconnection attempt `attempt` (seconds).
pub fn reconnect_delay_secs(attempt: u32) -> (d: u64)
    ensures
        d == reconnect_delay_of(attempt),
        1 <= d <= MAX_RECONNECT_DELAY_SECS,
{
    let e: u32 = if attempt >= 1 {
        attempt - 1
    } else {
        0
    };
    proof {
        lemma_pow2_sat_ge(e as nat);
    }
    if e >= 4 {
        return MAX_RECONNECT_DELAY_SECS;
    }
    let mut p: u64 = 1;
    let mut i: u32 = 0;
    while i < e
        invariant
            i <= e < 4,
            p == pow2_sat(i as nat),
            p <= 8,
        decreases e - i,
    {
        proof {
            assert(pow2_sat((i + 1) as nat) == 2 * pow2_sat(i as nat));
        }
        p = p * 2;
        i = i + 1;
        proof {
            assert(p <= 8) by {
                reveal_with_fuel(pow2_sat, 5);
            }
        }
    }
    if p < MAX_RECONNECT_DELAY_SECS {
        p
    } else {
        MAX_RECONNECT_DELAY_SECS
    }
}

/// What the service does on a heartbeat tick.
#[derive(Debug, Clone, Copy, PartialEq, Eq, Structural)]
pub enum TickAction {
    /// Wait this many seconds, then reconnect.
    Reconnect(u64),
    /// Send a heartbeat.
    Heartbeat,
}

/// Keeps the device connected: counts reconnection attempts and decides
/// each step of the service loop.
#[derive(Debug, Clone, Copy)]
pub struct ConnectionSupervisor {
    pub reconnect_attempts: u32,
}

impl ConnectionSupervisor {
    pub fn new() -> (s: Self)
        ensures
            s.reconnect_attempts == 0,
    {
        ConnectionSupervisor { reconnect_attempts: 0 }
    }

    /// A tick: a lost connection counts an attempt and waits before
    /// reconnecting; otherwise a heartbeat is sent.
    pub fn on_tick(&mut self, connected: bool) -> (a: TickAction)
        requires
            old(self).reconnect_attempts < u32::MAX,
        ensures
            connected ==> a == TickAction::Heartbeat && final(self).reconnect_attempts == old(
                self,
            ).reconnect_attempts,
            !connected ==> final(self).reconnect_attempts == old(self).reconnect_attempts + 1
                && a == TickAction::Reconnect(reconnect_delay_of(final(self).reconnect_attempts)),
    {
        if connected {
            TickAction::Heartbeat
        } else {
            self.reconnect_attempts = self.reconnect_attempts + 1;
            TickAction::Reconnect(reconnect_delay_secs(self.reconnect_attempts))
        }
    }

    /// A reconnection succeeded: the count starts over.
    pub fn on_reconnected(&mut self)
        ensures
            final(self).reconnect_attempts == 0,
    {
        self.reconnect_attempts = 0;
    }

    /// A heartbeat went through: the count starts over. Returns whether
    /// there had been attempts.
    pub fn on_heartbeat_ok(&mut self) -> (was_reconnecting: bool)
        ensures
            final(self).reconnect_attempts == 0,
            was_reconnecting == (old(self).reconnect_attempts > 0),
    {
        let was = self.reconnect_attempts > 0;
        self.reconnect_attempts = 0;
        was
    }
}

/// The file name that a playback request names: the part after the
/// device id, or the whole request when it has no device id.
pub open spec fn playback_file_name_of(file_path: Seq<char>) -> Seq<char> {
    match split_file_id_of(file_path) {
        Some((d, f)) => f,
        None => file_path,
    }
}

/// The file name of a playback request.
pub fn playback_file_name(file_path: &str) -> (r: String)
    ensures
        r@ == playback_file_name_of(file_path@),
{
    match split_file_id(file_path) {
        Some((_d, f)) => f,
        None => file_path.to_owned(),
    }
}

/// Frame spacing of chunked playback (33 ms).
pub const CHUNK_INTERVAL_US: u64 = 33_000;

/// Sends a recording chunk by chunk at about 30 chunks a second.
#[derive(Debug, Clone, Copy)]
pub struct ChunkPlayback {
    pub session_id: u128,
    pub timestamp_us: u64,
    pub segment_count: u64,
    /// Playback rate (thousandths).
    pub playback_rate_milli: u64,
}

impl ChunkPlayback {
    /// Playback from `start_us` (0 when not given).
    pub fn new(session_id: u128, start_us: Option<u64>, playback_rate_milli: u64) -> (p: Self)
        ensures
            p.session_id == session_id,
            p.timestamp_us == match start_us {
                Some(s) => s,
                None => 0,
            },
            p.segment_count == 0,
            p.playback_rate_milli == playback_rate_milli,
    {
        ChunkPlayback {
            session_id,
            timestamp_us: match start_us {
                Some(s) => s,
                None => 0,
            },
            segment_count: 0,
            playback_rate_milli,
        }
    }

    /// The segment for the next chunk (a keyframe every thirty chunks),
    /// and the pause after sending it in milliseconds: 33 ms over the
    /// playback rate, rounded down; at rate 0 the pause never ends (the
    /// largest value).
    pub fn next(&mut self, chunk: Vec<u8>) -> (r: (VideoSegment, u64))
        requires
            old(self).segment_count < u64::MAX,
            old(self).timestamp_us + CHUNK_INTERVAL_US <= u64::MAX,
        ensures
            r.0.session_id == old(self).session_id,
            r.0.timestamp_us == old(self).timestamp_us,
            r.0.data@ == chunk@,
            r.0.flags == if old(self).segment_count % 30 == 0 {
                crate::protocol::FLAG_IS_KEYFRAME
            } else {
                0u8
            },
            r.1 == if old(self).playback_rate_milli == 0 {
                u64::MAX
            } else {
                33_000u64 / old(self).playback_rate_milli
            },
            final(self).segment_count == old(self).segment_count + 1,
            final(self).timestamp_us == old(self).timestamp_us + CHUNK_INTERVAL_US,
            final(self).session_id == old(self).session_id,
            final(self).playback_rate_milli == old(self).playback_rate_milli,
    {
        let mut seg = VideoSegment::new(chunk, self.timestamp_us, self.segment_count % 30 == 0);
        seg.session_id = self.session_id;
        self.segment_count = self.segment_count + 1;
        self.timestamp_us = self.timestamp_us + CHUNK_INTERVAL_US;
        let delay_ms = if self.playback_rate_milli == 0 {
            u64::MAX
        } else {
            33_000 / self.playback_rate_milli
        };
        (seg, delay_ms)
    }
}

/// The GOP size between two keyframe times at a frame rate, as a float
/// to integer conversion gives it (0 when negative, saturated at the top).
pub open spec fn gop_between(t: u64, next: u64, frame_rate_milli: u64) -> u32 {
    if next <= t {
        0
    } else {
        let g = (next - t) * frame_rate_milli / 1_000_000_000;
        if g > u32::MAX {
            u32::MAX
        } else {
            g as u32
        }
    }
}

/// The index built from keyframe times that FFmpeg reported: no offsets or
/// sizes, GOP sizes from the spacing (30 for the last).
pub fn build_index_from_ffmpeg(keyframe_timestamps_us: &Vec<u64>, duration_us: u64, frame_rate_milli: u64) -> (index:
    KeyframeIndex)
    requires
        keyframe_timestamps_us@.len() * ENTRY_BYTES <= usize::MAX,
    ensures
        index.entries@.len() == keyframe_timestamps_us@.len(),
        forall|i: int|
            0 <= i < keyframe_timestamps_us@.len() ==> {
                let e = #[trigger] index.entries@[i];
                &&& e.timestamp_us == keyframe_timestamps_us@[i]
                &&& e.file_offset == 0
                &&& e.frame_size == 0
                &&& e.frame_type == FrameType::I
                &&& e.gop_size == if i + 1 < keyframe_timestamps_us@.len() {
                    gop_between(
                        keyframe_timestamps_us@[i],
                        keyframe_timestamps_us@[i + 1],
                        frame_rate_milli,
                    )
                } else {
                    30u32
                }
            },
        index.total_duration_us == duration_us,
        index.index_precision_us == if frame_rate_milli > 0 {
            (1_000_000_000u64 / frame_rate_milli) as u64
        } else {
            u64::MAX
        },
        index.memory_optimized,
        index.optimization_strategy == IndexOptimizationStrategy::Adaptive,
        index.memory_usage == keyframe_timestamps_us@.len() * ENTRY_BYTES,
{
    let n = keyframe_timestamps_us.len();
    let mut entries: Vec<KeyframeEntry> = Vec::new();
    let mut i: usize = 0;
    while i < n
        invariant
            n == keyframe_timestamps_us@.len(),
            i <= n,
            entries@.len() == i,
            forall|j: int|
                0 <= j < i ==> {
                    let e = #[trigger] entries@[j];
                    &&& e.timestamp_us == keyframe_timestamps_us@[j]
                    &&& e.file_offset == 0
                    &&& e.frame_size == 0
                    &&& e.frame_type == FrameType::I
                    &&& e.gop_size == if j + 1 < n {
                        gop_between(
                            keyframe_timestamps_us@[j],
                            keyframe_timestamps_us@[j + 1],
                            frame_rate_milli,
                        )
                    } else {
                        30u32
                    }
                },
        decreases n - i,
    {
        let t = keyframe_timestamps_us[i];
        let gop: u32 = if i + 1 < n {
            let next = keyframe_timestamps_us[i + 1];
            if next <= t {
                0
            } else {
                let a: u128 = (next - t) as u128;
                let b: u128 = frame_rate_milli as u128;
                assert(a * b <= u64::MAX * u64::MAX) by (nonlinear_arith)
                    requires
                        a <= u64::MAX,
                        b <= u64::MAX,
                ;
                let g: u128 = a * b / 1_000_000_000;
                if g > u32::MAX as u128 {
                    u32::MAX
                } else {
                    g as u32
                }
            }
        } else {
            30
        };
        entries.push(
            KeyframeEntry {
                timestamp_us: t,
                file_offset: 0,
                frame_size: 0,
                gop_size: gop,
                frame_type: FrameType::I,
            },
        );
        i = i + 1;
    }
    KeyframeIndex {
        entries,
        total_duration_us: duration_us,
        index_precision_us: if frame_rate_milli > 0 {
            1_000_000_000 / frame_rate_milli
        } else {
            u64::MAX
        },
        memory_optimized: true,
        optimization_strategy: IndexOptimizationStrategy::Adaptive,
        memory_usage: n * ENTRY_BYTES,
    }
}

/// Answers a keyframe seek: the requested time is reported as reached.
pub fn answer_seek_to_keyframe(request: &SeekToKeyframeRequest, execution_time_ms: u64) -> (r: SeekToKeyframeResponse)
    ensures
        r.requested_time_us == request.target_time_us,
        r.actual_time_us == request.target_time_us,
        r.keyframe_offset == 0,
        r.precision_achieved_ppm == 0,
        r.execution_time_ms == execution_time_ms,
        r.success,
        r.error_message.is_none(),
{
    SeekToKeyframeResponse {
        requested_time_us: request.target_time_us,
        actual_time_us: request.target_time_us,
        keyframe_offset: 0,
        precision_achieved_ppm: 0,
        execution_time_ms,
        success: true,
        error_message: None,
    }
}

/// Answers a speed change: speeds from 0.25x to 4x are accepted.
pub fn answer_set_playback_speed(request: &SetPlaybackSpeedRequest) -> (r: SetPlaybackSpeedResponse)
    ensures
        r.speed_milli == request.speed_milli,
        r.success == (250 <= request.speed_milli <= 4000),
        r.success <==> r.error_message.is_none(),
        !r.success ==> (r.error_message matches Some(m) && m@ == invalid_speed_text(
            request.speed_milli as int,
        )),
{
    if request.speed_milli < 250 || request.speed_milli > 4000 {
        return SetPlaybackSpeedResponse {
            speed_milli: request.speed_milli,
            success: false,
            error_message: Some(invalid_speed_message(request.speed_milli)),
        };
    }
    SetPlaybackSpeedResponse { speed_milli: request.speed_milli, success: true, error_message: None }
}

/// `Invalid playback speed: S thousandths. Must be between 250 and 4000`.
pub open spec fn invalid_speed_text(speed_milli: int) -> Seq<char> {
    "Invalid playback speed: "@ + signed_decimal_of(speed_milli)
        + " thousandths. Must be between 250 and 4000"@
}

fn invalid_speed_message(speed_milli: i64) -> (s: String)
    ensures
        s@ == invalid_speed_text(speed_milli as int),
{
    let mut s = "Invalid playback speed: ".to_owned();
    push_signed_decimal(&mut s, speed_milli);
    s.append(" thousandths. Must be between 250 and 4000");
    s
}

/// Answers a keyframe-index request with the index found for the file,
/// or a failure.
pub fn answer_keyframe_index(file_path: String, index: Option<KeyframeIndex>) -> (r: GetKeyframeIndexResponse)
    ensures
        r.file_path == file_path,
        match index {
            Some(ix) => {
                &&& r.success
                &&& r.error_message.is_none()
                &&& r.total_duration_us == ix.total_duration_us
                &&& r.keyframes@.len() == ix.entries@.len()
                &&& forall|i: int|
                    0 <= i < ix.entries@.len() ==> (#[trigger] r.keyframes@[i]).timestamp_us
                        == ix.entries@[i].timestamp_us && r.keyframes@[i].file_offset
                        == ix.entries@[i].file_offset && r.keyframes@[i].frame_size
                        == ix.entries@[i].frame_size
            },
            None => {
                &&& !r.success
                &&& r.error_message.is_some()
                &&& r.keyframes@.len() == 0
                &&& r.total_duration_us == 0
            },
        },
{
    match index {
        Some(ix) => {
            let mut keyframes: Vec<crate::protocol::KeyframeEntry> = Vec::new();
            let mut i: usize = 0;
            while i < ix.entries.len()
                invariant
                    i <= ix.entries@.len(),
                    keyframes@.len() == i,
                    forall|j: int|
                        0 <= j < i ==> (#[trigger] keyframes@[j]).timestamp_us
                            == ix.entries@[j].timestamp_us && keyframes@[j].file_offset
                            == ix.entries@[j].file_offset && keyframes@[j].frame_size
                            == ix.entries@[j].frame_size,
                decreases ix.entries@.len() - i,
            {
                let e = ix.entries[i];
                keyframes.push(
                    crate::protocol::KeyframeEntry {
                        timestamp_us: e.timestamp_us,
                        file_offset: e.file_offset,
                        frame_size: e.frame_size,
                    },
                );
                i = i + 1;
            }
            GetKeyframeIndexResponse {
                file_path,
                keyframes,
                total_duration_us: ix.total_duration_us,
                success: true,
                error_message: None,
            }
        },
        None => GetKeyframeIndexResponse {
            file_path,
            keyframes: Vec::new(),
            total_duration_us: 0,
            success: false,
            error_message: Some(index_failure_message()),
        },
    }
}

fn index_failure_message() -> (s: String)
    ensures
        s@ == "Failed to load or build keyframe index"@,
{
    "Failed to load or build keyframe index".to_owned()
}

/// The text of a path as `Path::to_string_lossy` decodes it.
pub uninterp spec fn lossy_text_of(p: std::path::PathBuf) -> Seq<char>;

/// The text of a path, from `Path::to_string_lossy`.
#[verifier::external_body]
fn path_text(p: &std::path::PathBuf) -> (r: String)
    ensures
        r@ == lossy_text_of(*p),
{
    p.to_string_lossy().to_string()
}

/// The file list entry of a recording of `file_size` bytes last modified
/// at `modified_us`.
pub fn recording_info_for(vf: &VideoFile, device_id: &str, file_size: u64, modified_us: u64) -> (r: RecordingInfo)
    ensures
        r.file_id@ == device_id@ + seq!['_'] + vf.name@,
        r.device_id@ == device_id@,
        r.file_name@ == vf.name@,
        r.file_path@ == lossy_text_of(vf.path),
        r.file_size == file_size,
        r.duration_us == 10_000_000,
        r.format@ == match vf.format {
            VideoFormat::H264 => "h264"@,
            VideoFormat::MP4 => "mp4"@,
        },
        r.resolution@ == "1280x720"@,
        r.bitrate == 5_000_000,
        r.frame_rate_milli == 60_000,
        r.created_time_us == modified_us,
        r.modified_time_us == modified_us,
{
    RecordingInfo {
        file_id: join_underscore(device_id, vf.name.as_str()),
        device_id: device_id.to_owned(),
        file_name: vf.name.as_str().to_owned(),
        file_path: path_text(&vf.path),
        file_size,
        duration_us: 10_000_000,
        format: match vf.format {
            VideoFormat::H264 => "h264".to_owned(),
            VideoFormat::MP4 => "mp4".to_owned(),
        },
        resolution: "1280x720".to_owned(),
        bitrate: 5_000_000,
        frame_rate_milli: 60_000,
        created_time_us: modified_us,
        modified_time_us: modified_us,
    }
}

/// Configuration of the FFmpeg integration.
#[derive(Debug, Clone)]
pub struct FFmpegConfig {
    pub ffmpeg_path: std::path::PathBuf,
    pub ffprobe_path: std::path::PathBuf,
    /// Command timeout (milliseconds).
    pub timeout_ms: u64,
    pub min_version: String,
}

/// The path that `PathBuf::from` makes of a text.
pub uninterp spec fn path_from_text(s: Seq<char>) -> std::path::PathBuf;

/// `PathBuf::from` on a text.
#[verifier::external_body]
fn path_of(s: &str) -> (r: std::path::PathBuf)
    ensures
        r == path_from_text(s@),
{
    std::path::PathBuf::from(s)
}

/// Reads FFmpeg's output.
#[derive(Debug, Clone)]
pub struct DefaultFFmpegParser {
    pub config: FFmpegConfig,
}

/// The first line of a text, as `str::lines` gives it: up to the first
/// newline, without a carriage return before it; none for an empty text.
pub open spec fn first_line_of(s: Seq<char>) -> Option<Seq<char>> {
    if s.len() == 0 {
        None
    } else {
        let end = match crate::text::find_from(s, '\n', 0) {
            Some(i) => i,
            None => s.len() as int,
        };
        let l = s.take(end);
        if end < s.len() && l.len() > 0 && l.last() == '\r' {
            Some(l.drop_last())
        } else {
            Some(l)
        }
    }
}

/// `ffmpeg version` as characters.
pub open spec fn version_prefix() -> Seq<char> {
    seq!['f', 'f', 'm', 'p', 'e', 'g', ' ', 'v', 'e', 'r', 's', 'i', 'o', 'n']
}

/// `Audio:` as characters.
pub open spec fn audio_marker() -> Seq<char> {
    seq!['A', 'u', 'd', 'i', 'o', ':']
}

/// Whether `pat` occurs in `s` at `i`.
pub open spec fn occurs_at(s: Seq<char>, pat: Seq<char>, i: int) -> bool {
    0 <= i && i + pat.len() <= s.len() && s.subrange(i, i + pat.len() as int) == pat
}

fn matches_at(s: &Vec<char>, i: usize, pat: &Vec<char>) -> (r: bool)
    ensures
        r == occurs_at(s@, pat@, i as int),
{
    if i > s.len() || pat.len() > s.len() - i {
        return false;
    }
    let mut k: usize = 0;
    while k < pat.len()
        invariant
            i + pat.len() <= s.len(),
            k <= pat@.len(),
            forall|j: int| 0 <= j < k ==> s@[i + j] == pat@[j],
        decreases pat@.len() - k,
    {
        if s[i + k] != pat[k] {
            proof {
                assert(s@.subrange(i as int, i + pat@.len() as int)[k as int] != pat@[k as int]);
            }
            return false;
        }
        k = k + 1;
    }
    proof {
        assert(s@.subrange(i as int, i + pat@.len() as int) =~= pat@);
    }
    true
}

impl DefaultFFmpegParser {
    /// `ffmpeg` and `ffprobe` from the search path, 30 s timeout, at least
    /// version 4.0.
    pub fn new() -> (p: Self)
        ensures
            p.config.ffmpeg_path == path_from_text("ffmpeg"@),
            p.config.ffprobe_path == path_from_text("ffprobe"@),
            p.config.timeout_ms == 30_000,
            p.config.min_version@ == "4.0"@,
    {
        DefaultFFmpegParser {
            config: FFmpegConfig {
                ffmpeg_path: path_of("ffmpeg"),
                ffprobe_path: path_of("ffprobe"),
                timeout_ms: 30_000,
                min_version: "4.0".to_owned(),
            },
        }
    }

    pub fn with_config(config: FFmpegConfig) -> (p: Self)
        ensures
            p.config.ffmpeg_path == config.ffmpeg_path,
            p.config.ffprobe_path == config.ffprobe_path,
            p.config.timeout_ms == config.timeout_ms,
            p.config.min_version == config.min_version,
    {
        DefaultFFmpegParser { config }
    }

    /// The version line of `ffmpeg -version`: its first line when that
    /// starts with `ffmpeg version`.
    pub fn extract_version_string(&self, output: &str) -> (r: Result<String, FFmpegError>)
        ensures
            match first_line_of(output@) {
                Some(l) => if l.len() >= 14 && l.take(14) == version_prefix() {
                    r matches Ok(v) && v@ == l
                } else {
                    r matches Err(FFmpegError::ParseError { reason }) && reason@
                        == "Could not parse FFmpeg version"@
                },
                None => r matches Err(FFmpegError::ParseError { reason }) && reason@
                    == "Could not parse FFmpeg version"@,
            },
    {
        let s = chars_of(output);
        let n = s.len();
        if n == 0 {
            return Err(FFmpegError::ParseError { reason: version_parse_message() });
        }
        let end = match crate::text::find_char_from(&s, '\n', 0) {
            Some(i) => i,
            None => n,
        };
        proof {
            crate::http::lemma_find_within(s@, '\n', 0);
        }
        let mut stop = end;
        if end < n && end > 0 && s[end - 1] == '\r' {
            stop = end - 1;
        }
        let ghost line = if end < n && end > 0 && s@[end - 1] == '\r' {
            s@.take(end as int).drop_last()
        } else {
            s@.take(end as int)
        };
        assert(line =~= s@.subrange(0, stop as int));
        let prefix: Vec<char> = vec!['f', 'f', 'm', 'p', 'e', 'g', ' ', 'v', 'e', 'r', 's', 'i', 'o', 'n'];
        assert(prefix@ =~= version_prefix());
        if stop >= 14 && matches_at(&s, 0, &prefix) {
            proof {
                assert(line.take(14) =~= s@.subrange(0, 14));
            }
            let l = output.substring_char(0, stop).to_owned();
            return Ok(l);
        }
        proof {
            if line.len() >= 14 {
                assert(line.take(14) =~= s@.subrange(0, 14));
            }
        }
        Err(FFmpegError::ParseError { reason: version_parse_message() })
    }

    /// Whether FFmpeg's output mentions an audio stream.
    pub fn has_audio_stream(&self, output: &str) -> (r: bool)
        ensures
            r == exists|i: int| occurs_at(output@, audio_marker(), i),
    {
        let s = chars_of(output);
        let pat: Vec<char> = vec!['A', 'u', 'd', 'i', 'o', ':'];
        assert(pat@ =~= audio_marker());
        let mut i: usize = 0;
        while i < s.len()
            invariant
                s@ == output@,
                pat@ == audio_marker(),
                i <= s@.len(),
                forall|j: int| 0 <= j < i ==> !occurs_at(s@, pat@, j),
            decreases s@.len() - i,
        {
            if matches_at(&s, i, &pat) {
                return true;
            }
            i = i + 1;
        }
        proof {
            assert forall|j: int| !occurs_at(s@, pat@, j) by {
                if j >= s@.len() {
                    assert(!(j + 6 <= s@.len()));
                }
            }
        }
        false
    }
}

impl Default for DefaultFFmpegParser {
    fn default() -> (p: Self)
        ensures
            p.config.ffmpeg_path == path_from_text("ffmpeg"@),
            p.config.ffprobe_path == path_from_text("ffprobe"@),
            p.config.timeout_ms == 30_000,
            p.config.min_version@ == "4.0"@,
    {
        Self::new()
    }
}

fn version_parse_message() -> (s: String)
    ensures
        s@ == "Could not parse FFmpeg version"@,
{
    "Could not parse FFmpeg version".to_owned()
}

/// The indexing strategy a setting names, ignoring case; adaptive for
/// anything else.
pub open spec fn strategy_named(s: Seq<char>) -> IndexOptimizationStrategy {
    let l = lowercase_of(s);
    if l == "full"@ {
        IndexOptimizationStrategy::Full
    } else if l == "sparse"@ {
        IndexOptimizationStrategy::Sparse
    } else if l == "adaptive"@ {
        IndexOptimizationStrategy::Adaptive
    } else if l == "hierarchical"@ {
        IndexOptimizationStrategy::Hierarchical
    } else {
        IndexOptimizationStrategy::Adaptive
    }
}

/// Parses an indexing strategy setting.
pub fn parse_index_strategy(s: &str) -> (r: IndexOptimizationStrategy)
    ensures
        r == strategy_named(s@),
{
    let l = crate::http::to_lowercase(s);
    let t = l.as_str();
    if str_equals(t, "full") {
        IndexOptimizationStrategy::Full
    } else if str_equals(t, "sparse") {
        IndexOptimizationStrategy::Sparse
    } else if str_equals(t, "adaptive") {
        IndexOptimizationStrategy::Adaptive
    } else if str_equals(t, "hierarchical") {
        IndexOptimizationStrategy::Hierarchical
    } else {
        IndexOptimizationStrategy::Adaptive
    }
}

/// Why a device configuration is refused.
#[derive(Debug, Clone, Copy, PartialEq, Eq, Structural)]
pub enum ConfigError {
    /// The slowest speed is not positive.
    SpeedMinNotPositive,
    /// The fastest speed is not above the slowest.
    SpeedMaxNotAboveMin,
    /// No memory for the keyframe index.
    ZeroIndexMemory,
    /// No time for FFmpeg.
    ZeroFfmpegTimeout,
    /// The recordings directory is missing.
    VideoDirMissing,
}

/// Checks a device configuration, in this order: speeds, index memory,
/// FFmpeg timeout, recordings directory.
pub fn validate_config(
    speed_min_milli: i64,
    speed_max_milli: i64,
    index_memory_limit_mb: usize,
    ffmpeg_timeout_seconds: u64,
    video_dir_exists: bool,
) -> (r: Result<(), ConfigError>)
    ensures
        r == if speed_min_milli <= 0 {
            Err::<(), ConfigError>(ConfigError::SpeedMinNotPositive)
        } else if speed_max_milli <= speed_min_milli {
            Err(ConfigError::SpeedMaxNotAboveMin)
        } else if index_memory_limit_mb == 0 {
            Err(ConfigError::ZeroIndexMemory)
        } else if ffmpeg_timeout_seconds == 0 {
            Err(ConfigError::ZeroFfmpegTimeout)
        } else if !video_dir_exists {
            Err(ConfigError::VideoDirMissing)
        } else {
            Ok(())
        },
{
    if speed_min_milli <= 0 {
        return Err(ConfigError::SpeedMinNotPositive);
    }
    if speed_max_milli <= speed_min_milli {
        return Err(ConfigError::SpeedMaxNotAboveMin);
    }
    if index_memory_limit_mb == 0 {
        return Err(ConfigError::ZeroIndexMemory);
    }
    if ffmpeg_timeout_seconds == 0 {
        return Err(ConfigError::ZeroFfmpegTimeout);
    }
    if !video_dir_exists {
        return Err(ConfigError::VideoDirMissing);
    }
    Ok(())
}

/// Law: the reconnection waits double from one second and never exceed
/// ten seconds.
pub proof fn lemma_reconnect_backoff(attempt: u32)
    requires
        1 <= attempt,
    ensures
        1 <= reconnect_delay_of(attempt) <= MAX_RECONNECT_DELAY_SECS,
        attempt < u32::MAX ==> reconnect_delay_of(attempt) <= reconnect_delay_of((attempt + 1) as u32),
{
    lemma_pow2_sat_ge((attempt - 1) as nat);
    lemma_pow2_sat_ge(attempt as nat);
    assert(pow2_sat(attempt as nat) >= pow2_sat((attempt - 1) as nat) || pow2_sat(attempt as nat) == u64::MAX);
}

/// The text without its trailing commas.
pub open spec fn without_trailing_commas(s: Seq<char>) -> Seq<char>
    decreases s.len(),
{
    if s.len() > 0 && s.last() == ',' {
        without_trailing_commas(s.drop_last())
    } else {
        s
    }
}

/// What `str::parse::<u32>` gives.
pub open spec fn parse_u32_of(s: Seq<char>) -> Option<u32> {
    match parse_u64_of(s) {
        Some(v) => if v <= u32::MAX {
            Some(v as u32)
        } else {
            None
        },
        None => None,
    }
}

/// The width and height that a resolution token of FFmpeg's output such
/// as `1920x1080,` gives: without its trailing commas, two numbers on
/// either side of its only `x`.
pub open spec fn resolution_of(token: Seq<char>) -> Option<(u32, u32)> {
    let t = without_trailing_commas(token);
    match find_from(t, 'x', 0) {
        None => None,
        Some(i) => if find_from(t, 'x', i + 1).is_some() {
            None
        } else {
            match (parse_u32_of(t.take(i)), parse_u32_of(t.skip(i + 1))) {
                (Some(w), Some(h)) => Some((w, h)),
                _ => None,
            }
        },
    }
}

proof fn lemma_find_in_prefix(s: Seq<char>, c: char, k: int, j: int)
    requires
        0 <= k,
        0 <= j <= s.len(),
    ensures
        find_from(s.take(j), c, k) == match find_from(s, c, k) {
            Some(p) => if p < j {
                Some(p)
            } else {
                None::<int>
            },
            None => None,
        },
    decreases s.len() - k,
{
    if k < s.len() {
        if s[k] != c {
            lemma_find_in_prefix(s, c, k + 1, j);
        }
        if k < j {
            assert(s.take(j)[k] == s[k]);
        } else {
            lemma_find_within(s, c, k);
        }
    }
}

fn parse_u32_range(s: &Vec<char>, from: usize, to: usize) -> (r: Option<u32>)
    requires
        from <= to <= s@.len(),
    ensures
        r == parse_u32_of(s@.subrange(from as int, to as int)),
{
    match parse_u64_range(s, from, to) {
        Some(v) => if v <= 0xffff_ffff {
            Some(v as u32)
        } else {
            None
        },
        None => None,
    }
}

/// Reads a resolution token of FFmpeg's output, such as `1920x1080,`.
pub fn parse_resolution_token(token: &str) -> (r: Option<(u32, u32)>)
    ensures
        r == resolution_of(token@),
{
    let s = chars_of(token);
    let mut j = s.len();
    proof {
        assert(s@.take(j as int) =~= s@);
    }
    while j > 0 && s[j - 1] == ','
        invariant
            j <= s@.len(),
            without_trailing_commas(s@) == without_trailing_commas(s@.take(j as int)),
        decreases j,
    {
        proof {
            assert(s@.take(j as int).drop_last() =~= s@.take(j - 1));
        }
        j = j - 1;
    }
    let ghost t = s@.take(j as int);
    proof {
        assert(without_trailing_commas(t) == t);
    }
    let i = match find_char_from(&s, 'x', 0) {
        Some(i) => i,
        None => {
            proof {
                lemma_find_in_prefix(s@, 'x', 0, j as int);
            }
            return None;
        },
    };
    proof {
        lemma_find_in_prefix(s@, 'x', 0, j as int);
        lemma_find_within(s@, 'x', 0);
    }
    if i >= j {
        return None;
    }
    let second = find_char_from(&s, 'x', i + 1);
    proof {
        lemma_find_in_prefix(s@, 'x', i + 1, j as int);
        lemma_find_within(s@, 'x', i + 1);
    }
    match second {
        Some(k) => if k < j {
            return None;
        },
        None => {},
    }
    let w = parse_u32_range(&s, 0, i);
    let h = parse_u32_range(&s, i + 1, j);
    proof {
        assert(t.take(i as int) =~= s@.subrange(0, i as int));
        assert(t.skip(i + 1) =~= s@.subrange(i + 1, j as int));
    }
    match (w, h) {
        (Some(w), Some(h)) => Some((w, h)),
        _ => None,
    }
}

} // verus!
