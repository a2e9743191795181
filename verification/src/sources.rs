//! The stream sources as state machines: a live source fed by the segments
//! a device sends, and a playback source reading a recording. The caller
//! does the receiving, reading, seeking and waiting, and hands each event
//! to the source, which decides what happens.
//!
//! Positions and times are in microseconds, rates in thousandths.

use vstd::prelude::*;
use crate::detector::{FrameRateDetector, DEFAULT_MAX_SAMPLES, detection, keep_last, TimestampSample};
use crate::pacer::{FrameRatePacer, elapsed_since, remaining_wait, send_delay_us, valid_rate};
use crate::protocol::{new_segment_id, has_keyframe_flag};
use crate::stream_types::{
    SegmentFormat, SegmentSourceType, StreamError, StreamInfo, StreamMode, StreamState, VideoSegment,
};
use crate::timestamp::frame_duration_for;

verus! {

/// Lifecycle of a source.
#[derive(Debug, Clone, Copy, PartialEq, Eq, Structural)]
pub enum SourceState {
    Initializing,
    Running,
    Paused,
    Seeking,
    Stopped,
}

/// The reported state of a source state.
pub open spec fn reported_state(s: SourceState) -> StreamState {
    match s {
        SourceState::Initializing => StreamState::Initializing,
        SourceState::Running => StreamState::Streaming,
        SourceState::Paused => StreamState::Paused,
        SourceState::Seeking => StreamState::Seeking,
        SourceState::Stopped => StreamState::Stopped,
    }
}

fn report_state(s: SourceState) -> (r: StreamState)
    ensures
        r == reported_state(s),
{
    match s {
        SourceState::Initializing => StreamState::Initializing,
        SourceState::Running => StreamState::Streaming,
        SourceState::Paused => StreamState::Paused,
        SourceState::Seeking => StreamState::Seeking,
        SourceState::Stopped => StreamState::Stopped,
    }
}

/// The state after a pause request: only a running source pauses.
pub open spec fn after_pause(s: SourceState) -> Option<SourceState> {
    if s == SourceState::Running {
        Some(SourceState::Paused)
    } else {
        None
    }
}

/// The state after a resume request: only a paused source resumes.
pub open spec fn after_resume(s: SourceState) -> Option<SourceState> {
    if s == SourceState::Paused {
        Some(SourceState::Running)
    } else {
        None
    }
}

/// A live source: segments arrive from the device and are forwarded as
/// they come; nothing is buffered.
#[derive(Debug, Clone)]
pub struct LiveStreamSource {
    pub device_id: String,
    pub state: SourceState,
    /// Timestamp of the last forwarded segment.
    pub current_position_us: u64,
    pub resolution: Option<(u32, u32)>,
    pub frame_rate_milli: Option<u64>,
    pub bitrate: Option<u64>,
}

/// What the live source does with an arriving segment.
#[derive(Debug)]
pub enum LiveStep {
    /// Forward this segment.
    Deliver(VideoSegment),
    /// Drop it (paused) and wait for the next.
    Drop,
}

impl LiveStreamSource {
    pub fn new(device_id: String) -> (s: Self)
        ensures
            s.device_id == device_id,
            s.state == SourceState::Initializing,
            s.current_position_us == 0,
            s.resolution.is_none(),
            s.frame_rate_milli.is_none(),
            s.bitrate.is_none(),
    {
        LiveStreamSource {
            device_id,
            state: SourceState::Initializing,
            current_position_us: 0,
            resolution: None,
            frame_rate_milli: None,
            bitrate: None,
        }
    }

    pub fn set_stream_info(
        &mut self,
        resolution: Option<(u32, u32)>,
        frame_rate_milli: Option<u64>,
        bitrate: Option<u64>,
    )
        ensures
            final(self).resolution == resolution,
            final(self).frame_rate_milli == frame_rate_milli,
            final(self).bitrate == bitrate,
            final(self).device_id == old(self).device_id,
            final(self).state == old(self).state,
            final(self).current_position_us == old(self).current_position_us,
    {
        self.resolution = resolution;
        self.frame_rate_milli = frame_rate_milli;
        self.bitrate = bitrate;
    }

    pub fn device_id(&self) -> (r: &str)
        ensures
            r@ == self.device_id@,
    {
        self.device_id.as_str()
    }

    /// Called before waiting for a segment: a fresh source starts running.
    /// Returns whether to wait for one; a stopped source has ended.
    pub fn begin_next(&mut self) -> (wait: bool)
        ensures
            final(self).state == if old(self).state == SourceState::Initializing {
                SourceState::Running
            } else {
                old(self).state
            },
            wait == (final(self).state != SourceState::Stopped),
            final(self).device_id == old(self).device_id,
            final(self).current_position_us == old(self).current_position_us,
    {
        if self.state == SourceState::Initializing {
            self.state = SourceState::Running;
        }
        self.state != SourceState::Stopped
    }

    /// Takes a segment from the device received at `now_us`: while paused
    /// it is dropped; else it becomes a live raw H.264 segment stamped with
    /// its receive time, and its timestamp the current position.
    pub fn on_segment(&mut self, segment: crate::protocol::VideoSegment, now_us: u64) -> (step: LiveStep)
        ensures
            old(self).state == SourceState::Paused ==> step is Drop && final(self).current_position_us
                == old(self).current_position_us,
            old(self).state != SourceState::Paused ==> (step matches LiveStep::Deliver(v)
                && v.segment_id == segment.segment_id && v.timestamp_us == segment.timestamp_us
                && v.duration_us == segment.duration_us && v.data@ == segment.data@
                && v.is_keyframe == has_keyframe_flag(segment.flags) && v.format
                == SegmentFormat::H264Raw && v.source_type == SegmentSourceType::Live
                && v.receive_time_us == Some(now_us) && v.forward_time_us.is_none()
                && final(self).current_position_us == segment.timestamp_us),
            final(self).state == old(self).state,
            final(self).device_id == old(self).device_id,
    {
        if self.state == SourceState::Paused {
            return LiveStep::Drop;
        }
        self.current_position_us = segment.timestamp_us;
        let is_keyframe = segment.is_keyframe();
        LiveStep::Deliver(
            VideoSegment {
                segment_id: segment.segment_id,
                timestamp_us: segment.timestamp_us,
                duration_us: segment.duration_us,
                data: segment.data,
                is_keyframe,
                format: SegmentFormat::H264Raw,
                source_type: SegmentSourceType::Live,
                receive_time_us: Some(now_us),
                forward_time_us: None,
            },
        )
    }

    /// The device closed the stream: the source stops.
    pub fn on_closed(&mut self)
        ensures
            final(self).state == SourceState::Stopped,
            final(self).device_id == old(self).device_id,
            final(self).current_position_us == old(self).current_position_us,
    {
        self.state = SourceState::Stopped;
    }

    /// A live stream cannot seek.
    pub fn seek(&mut self, position_us: i64) -> (r: Result<(), StreamError>)
        ensures
            r matches Err(StreamError::OperationNotSupported),
            final(self).state == old(self).state,
    {
        Err(StreamError::OperationNotSupported)
    }

    /// A live stream cannot change speed.
    pub fn set_rate(&mut self, rate_milli: i64) -> (r: Result<(), StreamError>)
        ensures
            r matches Err(StreamError::OperationNotSupported),
            final(self).state == old(self).state,
    {
        Err(StreamError::OperationNotSupported)
    }

    /// Pauses a running source; other states refuse.
    pub fn pause(&mut self) -> (r: Result<(), StreamError>)
        ensures
            match after_pause(old(self).state) {
                Some(s) => r.is_ok() && final(self).state == s,
                None => r matches Err(StreamError::Internal(m)) && m@ == cannot_pause_text(old(self).state)
                    && final(self).state == old(self).state,
            },
            final(self).device_id == old(self).device_id,
    {
        if self.state == SourceState::Running {
            self.state = SourceState::Paused;
            Ok(())
        } else {
            Err(StreamError::Internal(cannot_pause_message(self.state)))
        }
    }

    /// Resumes a paused source; other states refuse.
    pub fn resume(&mut self) -> (r: Result<(), StreamError>)
        ensures
            match after_resume(old(self).state) {
                Some(s) => r.is_ok() && final(self).state == s,
                None => r matches Err(StreamError::Internal(m)) && m@ == cannot_resume_text(old(self).state)
                    && final(self).state == old(self).state,
            },
            final(self).device_id == old(self).device_id,
    {
        if self.state == SourceState::Paused {
            self.state = SourceState::Running;
            Ok(())
        } else {
            Err(StreamError::Internal(cannot_resume_message(self.state)))
        }
    }

    /// The description of the live stream: normal speed, no duration.
    pub fn get_info(&self) -> (i: StreamInfo)
        ensures
            i.mode matches StreamMode::Live { device_id } && device_id == self.device_id,
            i.state == reported_state(self.state),
            i.resolution == self.resolution,
            i.frame_rate_milli == self.frame_rate_milli,
            i.bitrate == self.bitrate,
            i.duration_us.is_none(),
            i.current_position_us == self.current_position_us,
            i.playback_rate_milli == 1000,
    {
        StreamInfo {
            mode: StreamMode::Live { device_id: self.device_id.clone() },
            state: report_state(self.state),
            resolution: self.resolution,
            frame_rate_milli: self.frame_rate_milli,
            bitrate: self.bitrate,
            duration_us: None,
            current_position_us: self.current_position_us,
            playback_rate_milli: 1000,
        }
    }
}

/// The name of a state, as its derived `Debug` writes it.
pub open spec fn state_name(s: SourceState) -> Seq<char> {
    match s {
        SourceState::Initializing => "Initializing"@,
        SourceState::Running => "Running"@,
        SourceState::Paused => "Paused"@,
        SourceState::Seeking => "Seeking"@,
        SourceState::Stopped => "Stopped"@,
    }
}

fn state_name_str(s: SourceState) -> (r: &'static str)
    ensures
        r@ == state_name(s),
{
    match s {
        SourceState::Initializing => "Initializing",
        SourceState::Running => "Running",
        SourceState::Paused => "Paused",
        SourceState::Seeking => "Seeking",
        SourceState::Stopped => "Stopped",
    }
}

/// `Cannot pause in state: STATE`.
pub open spec fn cannot_pause_text(s: SourceState) -> Seq<char> {
    "Cannot pause in state: "@ + state_name(s)
}

/// `Cannot resume in state: STATE`.
pub open spec fn cannot_resume_text(s: SourceState) -> Seq<char> {
    "Cannot resume in state: "@ + state_name(s)
}

fn cannot_pause_message(s: SourceState) -> (m: String)
    ensures
        m@ == cannot_pause_text(s),
{
    let mut m = "Cannot pause in state: ".to_owned();
    m.append(state_name_str(s));
    m
}

fn cannot_resume_message(s: SourceState) -> (m: String)
    ensures
        m@ == cannot_resume_text(s),
{
    let mut m = "Cannot resume in state: ".to_owned();
    m.append(state_name_str(s));
    m
}

/// Default read size of the playback reader (8 KiB).
pub const PLAYBACK_SEGMENT_SIZE: usize = 8192;

/// Nominal length of a recording (100 seconds); positions are mapped
/// onto the file proportionally.
pub const NOMINAL_DURATION_US: u64 = 100_000_000;

/// Duration of one playback segment (33 ms).
pub const PLAYBACK_SEGMENT_DURATION_US: u64 = 33_000;

/// The position of `offset` in a file of `size` bytes on the nominal time
/// line (at most `u64::MAX`).
pub open spec fn progress_of(offset: u64, size: u64) -> int {
    if size == 0 {
        0
    } else {
        let p = (offset as int) * (NOMINAL_DURATION_US as int) / (size as int);
        if p > u64::MAX {
            u64::MAX as int
        } else {
            p
        }
    }
}

/// The file offset of a position on the nominal time line, within the
/// file.
pub open spec fn offset_for(position_us: u64, size: u64) -> int {
    let o = position_us * size / (NOMINAL_DURATION_US as int);
    if o < size {
        o
    } else {
        size as int
    }
}

/// Reading state of a recording.
#[derive(Debug, Clone, Copy)]
pub struct SimpleFileReader {
    pub file_size: u64,
    pub current_offset: u64,
    pub segment_size: usize,
    pub playback_rate_milli: u64,
}

impl SimpleFileReader {
    /// A reader at the start of a file of `file_size` bytes.
    pub fn new(file_size: u64) -> (r: Self)
        ensures
            r.file_size == file_size,
            r.current_offset == 0,
            r.segment_size == PLAYBACK_SEGMENT_SIZE,
            r.playback_rate_milli == 1000,
    {
        SimpleFileReader {
            file_size,
            current_offset: 0,
            segment_size: PLAYBACK_SEGMENT_SIZE,
            playback_rate_milli: 1000,
        }
    }

    /// How many bytes to read next; none at the end of the file.
    pub fn next_read_len(&self) -> (r: Option<usize>)
        ensures
            r == if self.current_offset >= self.file_size {
                None
            } else {
                Some(self.segment_size)
            },
    {
        if self.current_offset >= self.file_size {
            None
        } else {
            Some(self.segment_size)
        }
    }

    /// Turns the bytes read at `now_us` into a playback segment and
    /// advances; no bytes means the end of the file.
    pub fn on_read(&mut self, data: Vec<u8>, now_us: u64) -> (r: Option<VideoSegment>)
        requires
            old(self).current_offset < old(self).file_size,
            old(self).current_offset + data@.len() <= u64::MAX,
        ensures
            data@.len() == 0 ==> r.is_none() && *final(self) == *old(self),
            data@.len() > 0 ==> {
                &&& final(self).current_offset == old(self).current_offset + data@.len()
                &&& final(self).file_size == old(self).file_size
                &&& final(self).segment_size == old(self).segment_size
                &&& final(self).playback_rate_milli == old(self).playback_rate_milli
                &&& r matches Some(v)
                &&& v.timestamp_us == progress_of(final(self).current_offset, old(self).file_size)
                &&& v.duration_us == PLAYBACK_SEGMENT_DURATION_US
                &&& v.data@ == data@
                &&& !v.is_keyframe
                &&& v.format == SegmentFormat::MP4
                &&& v.source_type == SegmentSourceType::Playback
                &&& v.receive_time_us == Some(now_us)
                &&& v.forward_time_us.is_none()
            },
    {
        let n = data.len();
        if n == 0 {
            return None;
        }
        self.current_offset = self.current_offset + n as u64;
        let ts = self.progress_us();
        Some(
            VideoSegment {
                segment_id: new_segment_id(),
                timestamp_us: ts,
                duration_us: PLAYBACK_SEGMENT_DURATION_US,
                data,
                is_keyframe: false,
                format: SegmentFormat::MP4,
                source_type: SegmentSourceType::Playback,
                receive_time_us: Some(now_us),
                forward_time_us: None,
            },
        )
    }

    /// The offset to seek to for `position_us`.
    pub fn seek_offset(&self, position_us: u64) -> (o: u64)
        ensures
            o == offset_for(position_us, self.file_size),
    {
        assert((position_us as u128) * (self.file_size as u128) <= u64::MAX * u64::MAX) by (nonlinear_arith);
        let o: u128 = (position_us as u128) * (self.file_size as u128) / (NOMINAL_DURATION_US as u128);
        if o < self.file_size as u128 {
            o as u64
        } else {
            self.file_size
        }
    }

    /// Records a completed seek to `offset`.
    pub fn seek_done(&mut self, offset: u64)
        ensures
            final(self).current_offset == offset,
            final(self).file_size == old(self).file_size,
            final(self).segment_size == old(self).segment_size,
            final(self).playback_rate_milli == old(self).playback_rate_milli,
    {
        self.current_offset = offset;
    }

    pub fn set_rate(&mut self, rate_milli: u64)
        ensures
            final(self).playback_rate_milli == rate_milli,
            final(self).current_offset == old(self).current_offset,
            final(self).file_size == old(self).file_size,
            final(self).segment_size == old(self).segment_size,
    {
        self.playback_rate_milli = rate_milli;
    }

    /// The position reached on the nominal time line.
    pub fn progress_us(&self) -> (p: u64)
        ensures
            p == progress_of(self.current_offset, self.file_size),
    {
        if self.file_size == 0 {
            0
        } else {
            let p: u128 = (self.current_offset as u128) * 100_000_000 / (self.file_size as u128);
            if p > u64::MAX as u128 {
                u64::MAX
            } else {
                p as u64
            }
        }
    }
}

/// What to do before handing out a playback segment.
#[derive(Debug, Clone, Copy, PartialEq, Eq, Structural)]
pub enum PaceAction {
    /// Ask the pacer how long to wait for one frame.
    Pacer,
    /// Sleep this many milliseconds.
    Sleep(u64),
    /// Hand the segment out at once.
    NoWait,
}

/// A playback source reading a recording at a chosen speed, pacing
/// segments at the detected frame rate.
pub struct PlaybackSource {
    file_id: String,
    reader: SimpleFileReader,
    playback_rate_milli: u64,
    state: SourceState,
    resolution: Option<(u32, u32)>,
    frame_rate_milli: Option<u64>,
    bitrate: Option<u64>,
    duration_us: Option<u64>,
    detector: FrameRateDetector,
    pacer: Option<FrameRatePacer>,
}

/// Whether a detected rate differs from the source's rate by more than
/// one frame per second (always, when the source has none yet).
pub open spec fn rate_moved(old_rate: Option<u64>, detected: u64) -> bool {
    match old_rate {
        None => true,
        Some(f) => (if f >= detected {
            f - detected
        } else {
            detected - f
        }) > 1000,
    }
}

/// The pacer once a detected rate replaces the source's rate: the old
/// pacer aimed at the new rate, or a fresh one at the playback rate.
pub open spec fn retargeted_pacer(p: Option<FrameRatePacer>, detected: u64, rate_milli: u64) -> FrameRatePacer {
    match p {
        Some(p0) => FrameRatePacer {
            target_fps_milli: detected,
            base_frame_interval_us: frame_duration_for(detected),
            ..p0
        },
        None => FrameRatePacer {
            target_fps_milli: detected,
            playback_rate_milli: rate_milli,
            last_send_time_us: None,
            base_frame_interval_us: frame_duration_for(detected),
        },
    }
}

impl PlaybackSource {
    /// The detector keeps its default window, and the rates of the
    /// playback and the pacer are valid.
    pub closed spec fn wf(&self) -> bool {
        &&& self.detector.max_samples == DEFAULT_MAX_SAMPLES
        &&& self.detector.timestamp_history@.len() <= DEFAULT_MAX_SAMPLES
        &&& (self.detector.detected_fps_milli matches Some(f) ==> f > 0)
        &&& valid_rate(self.playback_rate_milli as int)
        &&& self.pacer matches Some(p) ==> p.target_fps_milli > 0 && valid_rate(
            p.playback_rate_milli as int,
        )
    }

    pub closed spec fn view_state(&self) -> SourceState {
        self.state
    }

    pub closed spec fn view_rate(&self) -> u64 {
        self.playback_rate_milli
    }

    pub closed spec fn view_duration(&self) -> Option<u64> {
        self.duration_us
    }

    pub closed spec fn view_reader(&self) -> SimpleFileReader {
        self.reader
    }

    pub closed spec fn view_file_id(&self) -> Seq<char> {
        self.file_id@
    }

    pub closed spec fn view_frame_rate(&self) -> Option<u64> {
        self.frame_rate_milli
    }

    /// The timestamp samples held by the frame-rate detector.
    pub closed spec fn view_history(&self) -> Seq<TimestampSample> {
        self.detector.timestamp_history@
    }

    /// The rate the detector last found (thousandths of fps).
    pub closed spec fn view_detected(&self) -> Option<u64> {
        self.detector.detected_fps_milli
    }

    pub closed spec fn has_pacer(&self) -> bool {
        self.pacer.is_some()
    }

    pub closed spec fn view_pacer(&self) -> Option<FrameRatePacer> {
        self.pacer
    }

    /// A playback of a file of `file_size` bytes at normal speed, with the
    /// nominal 100-second duration.
    pub fn new(file_id: String, file_size: u64) -> (s: Self)
        ensures
            s.view_file_id() == file_id@,
            s.view_state() == SourceState::Initializing,
            s.view_rate() == 1000,
            s.view_duration() == Some(NOMINAL_DURATION_US),
            s.view_reader() == (SimpleFileReader {
                file_size,
                current_offset: 0,
                segment_size: PLAYBACK_SEGMENT_SIZE,
                playback_rate_milli: 1000,
            }),
            s.view_frame_rate().is_none(),
            !s.has_pacer(),
            s.wf(),
    {
        PlaybackSource {
            file_id,
            reader: SimpleFileReader::new(file_size),
            playback_rate_milli: 1000,
            state: SourceState::Initializing,
            resolution: None,
            frame_rate_milli: None,
            bitrate: None,
            duration_us: Some(NOMINAL_DURATION_US),
            detector: FrameRateDetector::new(),
            pacer: None,
        }
    }

    pub fn set_stream_info(
        &mut self,
        resolution: Option<(u32, u32)>,
        frame_rate_milli: Option<u64>,
        bitrate: Option<u64>,
        duration_us: Option<u64>,
    )
        requires
            old(self).wf(),
        ensures
            final(self).wf(),
            final(self).view_frame_rate() == frame_rate_milli,
            final(self).view_duration() == duration_us,
            final(self).view_state() == old(self).view_state(),
            final(self).view_rate() == old(self).view_rate(),
    {
        self.resolution = resolution;
        self.frame_rate_milli = frame_rate_milli;
        self.bitrate = bitrate;
        self.duration_us = duration_us;
    }

    pub fn file_id(&self) -> (r: &str)
        ensures
            r@ == self.view_file_id(),
    {
        self.file_id.as_str()
    }

    pub fn playback_rate(&self) -> (r: u64)
        ensures
            r == self.view_rate(),
    {
        self.playback_rate_milli
    }

    /// The reading state.
    pub fn reader(&self) -> (r: SimpleFileReader)
        ensures
            r == self.view_reader(),
    {
        self.reader
    }

    /// Rates outside 0.25x to 4x are refused.
    pub fn validate_rate(rate_milli: i64) -> (r: Result<(), StreamError>)
        ensures
            valid_rate(rate_milli as int) ==> r.is_ok(),
            !valid_rate(rate_milli as int) ==> r == Err::<(), StreamError>(
                StreamError::InvalidPlaybackRate(rate_milli),
            ),
    {
        if rate_milli < 250 || rate_milli > 4000 {
            return Err(StreamError::InvalidPlaybackRate(rate_milli));
        }
        Ok(())
    }

    /// Negative positions, and positions past the duration when it is
    /// known, are refused.
    pub fn validate_position(&self, position_us: i64) -> (r: Result<(), StreamError>)
        ensures
            (position_us >= 0 && match self.view_duration() {
                Some(d) => position_us <= d,
                None => true,
            }) ==> r.is_ok(),
            !(position_us >= 0 && match self.view_duration() {
                Some(d) => position_us <= d,
                None => true,
            }) ==> r == Err::<(), StreamError>(StreamError::InvalidSeekPosition(position_us)),
    {
        if position_us < 0 {
            return Err(StreamError::InvalidSeekPosition(position_us));
        }
        if let Some(duration) = self.duration_us {
            if position_us as u64 > duration {
                return Err(StreamError::InvalidSeekPosition(position_us));
            }
        }
        Ok(())
    }

    /// Called before reading: a fresh source starts running. Returns
    /// whether to read; a stopped playback has ended.
    pub fn begin_next(&mut self) -> (read: bool)
        requires
            old(self).wf(),
        ensures
            final(self).wf(),
            final(self).view_state() == if old(self).view_state() == SourceState::Initializing {
                SourceState::Running
            } else {
                old(self).view_state()
            },
            read == (final(self).view_state() != SourceState::Stopped),
            final(self).view_reader() == old(self).view_reader(),
            final(self).view_rate() == old(self).view_rate(),
    {
        if self.state == SourceState::Initializing {
            self.state = SourceState::Running;
        }
        self.state != SourceState::Stopped
    }

    /// Whether the playback is paused (the caller waits while it is).
    pub fn is_paused(&self) -> (r: bool)
        ensures
            r == (self.view_state() == SourceState::Paused),
    {
        self.state == SourceState::Paused
    }

    /// How many bytes to read next; none at the end of the file.
    pub fn next_read_len(&self) -> (r: Option<usize>)
        ensures
            r == if self.view_reader().current_offset >= self.view_reader().file_size {
                None
            } else {
                Some(self.view_reader().segment_size)
            },
    {
        self.reader.next_read_len()
    }

    /// The end of the recording: the playback stops.
    pub fn on_end(&mut self)
        requires
            old(self).wf(),
        ensures
            final(self).wf(),
            final(self).view_state() == SourceState::Stopped,
            final(self).view_reader() == old(self).view_reader(),
            final(self).view_rate() == old(self).view_rate(),
    {
        self.state = SourceState::Stopped;
    }

    /// Takes the bytes read at `now_us`: none ends the playback; otherwise
    /// the segment's timestamp feeds the frame-rate detector, a rate that
    /// moved by more than 1 fps is adopted (creating or retuning the
    /// pacer), and the segment is returned with how to wait before handing
    /// it out.
    pub fn on_read(&mut self, data: Vec<u8>, now_us: u64) -> (r: Option<(VideoSegment, PaceAction)>)
        requires
            old(self).wf(),
            old(self).view_reader().current_offset < old(self).view_reader().file_size,
            old(self).view_reader().current_offset + data@.len() <= u64::MAX,
        ensures
            final(self).wf(),
            data@.len() == 0 ==> r.is_none() && final(self).view_state() == SourceState::Stopped
                && final(self).view_reader() == old(self).view_reader(),
            data@.len() > 0 ==> {
                &&& r matches Some((v, action))
                &&& v.data@ == data@
                &&& v.timestamp_us == progress_of(
                    final(self).view_reader().current_offset,
                    final(self).view_reader().file_size,
                )
                &&& final(self).view_reader().current_offset == old(self).view_reader().current_offset
                    + data@.len()
                &&& final(self).view_state() == old(self).view_state()
                &&& final(self).view_rate() == old(self).view_rate()
                &&& final(self).view_history() == keep_last(
                    old(self).view_history().push(
                        TimestampSample { pts: v.timestamp_us, receive_time_us: now_us },
                    ),
                    DEFAULT_MAX_SAMPLES as int,
                )
                &&& final(self).view_detected() == match detection(final(self).view_history()) {
                    Some((f, _)) => Some(f),
                    None => old(self).view_detected(),
                }
                &&& match final(self).view_detected() {
                    Some(d) => if rate_moved(old(self).view_frame_rate(), d) {
                        &&& final(self).view_frame_rate() == Some(d)
                        &&& final(self).view_pacer() == Some(
                            retargeted_pacer(old(self).view_pacer(), d, old(self).view_rate()),
                        )
                    } else {
                        &&& final(self).view_frame_rate() == old(self).view_frame_rate()
                        &&& final(self).view_pacer() == old(self).view_pacer()
                    },
                    None => {
                        &&& final(self).view_frame_rate() == old(self).view_frame_rate()
                        &&& final(self).view_pacer() == old(self).view_pacer()
                    },
                }
                &&& (final(self).has_pacer() ==> action == PaceAction::Pacer)
                &&& (!final(self).has_pacer() && old(self).view_rate() != 1000 ==> action
                    == PaceAction::Sleep((PLAYBACK_SEGMENT_DURATION_US / old(self).view_rate()) as u64))
                &&& (!final(self).has_pacer() && old(self).view_rate() == 1000 ==> action
                    == PaceAction::NoWait)
            },
    {
        let segment = match self.reader.on_read(data, now_us) {
            Some(s) => s,
            None => {
                self.state = SourceState::Stopped;
                return None;
            },
        };
        self.detector.add_timestamp_sample(segment.timestamp_us, now_us);
        proof {
            if detection(self.detector.timestamp_history@).is_some() {
                crate::detector::lemma_detection_in_range(self.detector.timestamp_history@);
            }
        }
        if let Some(detected) = self.detector.get_fps() {
            let moved = match self.frame_rate_milli {
                None => true,
                Some(f) => {
                    let diff = if f >= detected {
                        f - detected
                    } else {
                        detected - f
                    };
                    diff > 1000
                },
            };
            if moved {
                self.frame_rate_milli = Some(detected);
                let p = match self.pacer {
                    Some(p0) => {
                        let mut p = p0;
                        p.update_target_fps(detected);
                        p
                    },
                    None => {
                        let mut p = FrameRatePacer::new(detected);
                        let _ = p.set_playback_rate(self.playback_rate_milli as i64);
                        p
                    },
                };
                self.pacer = Some(p);
            }
        }
        let action = if self.pacer.is_some() {
            PaceAction::Pacer
        } else if self.playback_rate_milli != 1000 {
            PaceAction::Sleep(PLAYBACK_SEGMENT_DURATION_US / self.playback_rate_milli)
        } else {
            PaceAction::NoWait
        };
        Some((segment, action))
    }

    /// How long to wait before handing out the next segment at `now_us`,
    /// when the pacer paces the playback.
    pub fn pacer_wait(&self, now_us: u64) -> (w: Option<u64>)
        requires
            self.wf(),
        ensures
            self.has_pacer() <==> w.is_some(),
            match self.view_pacer() {
                Some(p) => w == Some(
                    remaining_wait(
                        send_delay_us(1, p.target_fps_milli as int, p.playback_rate_milli as int),
                        elapsed_since(p.last_send_time_us, now_us),
                    ) as u64,
                ),
                None => w.is_none(),
            },
    {
        match &self.pacer {
            Some(p) => Some(p.next_frame_wait(1, now_us)),
            None => None,
        }
    }

    /// Records that a segment was handed out at `now_us`.
    pub fn record_send(&mut self, now_us: u64)
        requires
            old(self).wf(),
        ensures
            final(self).wf(),
            final(self).view_state() == old(self).view_state(),
            final(self).view_reader() == old(self).view_reader(),
            final(self).view_rate() == old(self).view_rate(),
            final(self).has_pacer() == old(self).has_pacer(),
            final(self).view_pacer() == match old(self).view_pacer() {
                Some(p) => Some(FrameRatePacer { last_send_time_us: Some(now_us), ..p }),
                None => None,
            },
            final(self).view_frame_rate() == old(self).view_frame_rate(),
            final(self).view_duration() == old(self).view_duration(),
            final(self).view_file_id() == old(self).view_file_id(),
            final(self).view_history() == old(self).view_history(),
            final(self).view_detected() == old(self).view_detected(),
    {
        if let Some(p0) = self.pacer {
            let mut p = p0;
            p.record_send(now_us);
            self.pacer = Some(p);
        }
    }

    /// Validates a seek and gives the file offset to seek to; the state is
    /// unchanged.
    pub fn seek_target(&self, position_us: i64) -> (r: Result<u64, StreamError>)
        ensures
            (position_us >= 0 && match self.view_duration() {
                Some(d) => position_us <= d,
                None => true,
            }) ==> r == Ok::<u64, StreamError>(
                offset_for(position_us as u64, self.view_reader().file_size) as u64,
            ),
            !(position_us >= 0 && match self.view_duration() {
                Some(d) => position_us <= d,
                None => true,
            }) ==> r == Err::<u64, StreamError>(StreamError::InvalidSeekPosition(position_us)),
    {
        match self.validate_position(position_us) {
            Err(e) => Err(e),
            Ok(()) => Ok(self.reader.seek_offset(position_us as u64)),
        }
    }

    /// Records a completed seek to `offset`.
    pub fn seek_done(&mut self, offset: u64)
        requires
            old(self).wf(),
        ensures
            final(self).wf(),
            final(self).view_reader().current_offset == offset,
            final(self).view_reader().file_size == old(self).view_reader().file_size,
            final(self).view_state() == old(self).view_state(),
            final(self).view_rate() == old(self).view_rate(),
    {
        self.reader.seek_done(offset);
    }

    /// Sets the playback speed of the playback, its reader and its pacer;
    /// rates outside 0.25x to 4x are refused.
    pub fn set_rate(&mut self, rate_milli: i64) -> (r: Result<(), StreamError>)
        requires
            old(self).wf(),
        ensures
            final(self).wf(),
            valid_rate(rate_milli as int) ==> r.is_ok() && final(self).view_rate() == rate_milli
                && final(self).view_reader().playback_rate_milli == rate_milli,
            !valid_rate(rate_milli as int) ==> r == Err::<(), StreamError>(
                StreamError::InvalidPlaybackRate(rate_milli),
            ) && final(self).view_rate() == old(self).view_rate(),
            final(self).view_state() == old(self).view_state(),
    {
        match Self::validate_rate(rate_milli) {
            Err(e) => {
                return Err(e);
            },
            Ok(()) => {},
        }
        self.playback_rate_milli = rate_milli as u64;
        self.reader.set_rate(rate_milli as u64);
        if let Some(p0) = self.pacer {
            let mut p = p0;
            let _ = p.set_playback_rate(rate_milli);
            self.pacer = Some(p);
        }
        Ok(())
    }

    /// Pauses a running playback; other states refuse.
    pub fn pause(&mut self) -> (r: Result<(), StreamError>)
        requires
            old(self).wf(),
        ensures
            final(self).wf(),
            match after_pause(old(self).view_state()) {
                Some(s) => r.is_ok() && final(self).view_state() == s,
                None => r matches Err(StreamError::Internal(m)) && m@ == cannot_pause_text(
                    old(self).view_state(),
                ) && final(self).view_state() == old(self).view_state(),
            },
            final(self).view_rate() == old(self).view_rate(),
    {
        if self.state == SourceState::Running {
            self.state = SourceState::Paused;
            Ok(())
        } else {
            Err(StreamError::Internal(cannot_pause_message(self.state)))
        }
    }

    /// Resumes a paused playback; other states refuse.
    pub fn resume(&mut self) -> (r: Result<(), StreamError>)
        requires
            old(self).wf(),
        ensures
            final(self).wf(),
            match after_resume(old(self).view_state()) {
                Some(s) => r.is_ok() && final(self).view_state() == s,
                None => r matches Err(StreamError::Internal(m)) && m@ == cannot_resume_text(
                    old(self).view_state(),
                ) && final(self).view_state() == old(self).view_state(),
            },
            final(self).view_rate() == old(self).view_rate(),
    {
        if self.state == SourceState::Paused {
            self.state = SourceState::Running;
            Ok(())
        } else {
            Err(StreamError::Internal(cannot_resume_message(self.state)))
        }
    }

    /// The description of the playback.
    pub fn get_info(&self) -> (i: StreamInfo)
        ensures
            i.mode matches StreamMode::Playback { file_id, playback_rate_milli } && file_id@
                == self.view_file_id() && playback_rate_milli == self.view_rate(),
            i.state == reported_state(self.view_state()),
            i.frame_rate_milli == self.view_frame_rate(),
            i.duration_us == self.view_duration(),
            i.current_position_us == progress_of(
                self.view_reader().current_offset,
                self.view_reader().file_size,
            ),
            i.playback_rate_milli == self.view_rate(),
    {
        StreamInfo {
            mode: StreamMode::Playback {
                file_id: self.file_id.clone(),
                playback_rate_milli: self.playback_rate_milli,
            },
            state: report_state(self.state),
            resolution: self.resolution,
            frame_rate_milli: self.frame_rate_milli,
            bitrate: self.bitrate,
            duration_us: self.duration_us,
            current_position_us: self.reader.progress_us(),
            playback_rate_milli: self.playback_rate_milli,
        }
    }
}

/// Law: pausing then resuming a running source brings it back to running,
/// and neither is possible twice in a row.
pub proof fn lemma_pause_resume_round_trip(s: SourceState)
    requires
        s == SourceState::Running,
    ensures
        after_pause(s) == Some(SourceState::Paused),
        after_resume(after_pause(s).unwrap()) == Some(SourceState::Running),
        after_pause(after_pause(s).unwrap()).is_none(),
        after_resume(s).is_none(),
{
}

} // verus!
