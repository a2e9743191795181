//! Streaming reader of a recording in small segments: which bytes to read
//! next, how the bytes read become a segment, where a seek lands, and how
//! long to wait between segments at a playback rate. Opening, reading and
//! seeking the file itself is left to the caller, which reports back here.

use vstd::prelude::*;
use crate::protocol::new_segment_id;
use crate::text::{decimal_of, push_decimal};
use vstd::string::StringExecFns;
use crate::stream_types::{SegmentFormat, SegmentSourceType, StreamError, VideoSegment};

verus! {

/// Default segment size (8 KiB).
pub const DEFAULT_SEGMENT_SIZE: usize = 8192;

/// Smallest segment size (4 KiB).
pub const MIN_SEGMENT_SIZE: usize = 4096;

/// Largest segment size (32 KiB).
pub const MAX_SEGMENT_SIZE: usize = 32768;

/// One million: positions and progress are in parts per million.
pub const PPM: u64 = 1_000_000;

/// Where to seek.
#[derive(Debug, Clone, Copy)]
pub enum SeekTarget {
    /// A relative position in parts per million (0 = start, 1 000 000 = end).
    Position(i64),
    /// A byte offset.
    Offset(u64),
    /// A time (microseconds) within a video of the given duration
    /// (microseconds).
    Time { time_us: i64, duration_us: i64 },
}

/// Configuration of a reader.
#[derive(Debug, Clone, Copy)]
pub struct FileReaderConfig {
    /// Segment size in bytes.
    pub segment_size: usize,
    /// Playback rate in thousandths.
    pub playback_rate_milli: u64,
    /// Format of the segments.
    pub format: SegmentFormat,
    /// Assumed frame rate in thousandths of a frame per second.
    pub assumed_fps_milli: u64,
}

impl Default for FileReaderConfig {
    /// 8 KiB segments, normal speed, MP4, 30 fps.
    fn default() -> (c: Self)
        ensures
            c.segment_size == DEFAULT_SEGMENT_SIZE,
            c.playback_rate_milli == 1000,
            c.format == SegmentFormat::MP4,
            c.assumed_fps_milli == 30_000,
    {
        FileReaderConfig {
            segment_size: DEFAULT_SEGMENT_SIZE,
            playback_rate_milli: 1000,
            format: SegmentFormat::MP4,
            assumed_fps_milli: 30_000,
        }
    }
}

/// The presentation time of the end of the bytes read so far: the file is
/// taken to hold ten seconds per MiB, so the time is proportional to the
/// offset.
pub open spec fn timestamp_for_offset(offset: u64) -> int {
    let t = offset * 10_000_000 / 1_048_576;
    if t > u64::MAX {
        u64::MAX as int
    } else {
        t
    }
}

/// The duration of one segment: one frame at the assumed frame rate
/// (saturated when the rate is zero).
pub open spec fn segment_duration_for(fps_milli: u64) -> u64 {
    if fps_milli == 0 {
        u64::MAX
    } else {
        (1_000_000_000int / (fps_milli as int)) as u64
    }
}

/// The wait before the next segment of `duration_us` at `rate_milli`:
/// the duration divided by the rate (saturated at `u64::MAX`), none at
/// rate zero.
pub open spec fn rate_delay(duration_us: u64, rate_milli: u64) -> int {
    if rate_milli == 0 {
        0
    } else {
        let d = duration_us * 1000 / (rate_milli as int);
        if d > u64::MAX {
            u64::MAX as int
        } else {
            d
        }
    }
}

/// The fraction of the file read, in parts per million.
pub open spec fn progress_ppm(offset: u64, file_size: u64) -> int {
    if file_size == 0 {
        0
    } else {
        let p = offset * (PPM as int) / (file_size as int);
        if p > u64::MAX {
            u64::MAX as int
        } else {
            p
        }
    }
}

/// The offset of a relative position in a file.
pub open spec fn offset_at_position(position_ppm: i64, file_size: u64) -> int {
    position_ppm * file_size / (PPM as int)
}

/// The offset of a time within a duration in a file.
pub open spec fn offset_at_time(time_us: i64, duration_us: i64, file_size: u64) -> int {
    if duration_us > 0 {
        time_us * file_size / (duration_us as int)
    } else {
        0
    }
}

/// Whether an interval is within a tenth of its target (always, for a
/// target that is not positive).
pub open spec fn interval_ok(actual_us: i64, target_us: i64) -> bool {
    target_us <= 0 || {
        let d = actual_us - target_us;
        let a = if d < 0 {
            -d
        } else {
            d
        };
        a * 10 < target_us
    }
}

/// The offset that a seek target selects, or why it is refused.
pub open spec fn seek_target_offset(target: SeekTarget, file_size: u64) -> Result<u64, StreamError> {
    match target {
        SeekTarget::Position(p) => if p < 0 || p > PPM {
            Err(StreamError::InvalidSeekPosition(p))
        } else {
            Ok(offset_at_position(p, file_size) as u64)
        },
        SeekTarget::Offset(o) => Ok(if o < file_size {
            o
        } else {
            file_size
        }),
        SeekTarget::Time { time_us, duration_us } => if time_us < 0 || time_us > duration_us {
            Err(StreamError::InvalidSeekPosition(time_us))
        } else {
            Ok(offset_at_time(time_us, duration_us, file_size) as u64)
        },
    }
}

/// Reading state of one recording.
#[derive(Debug)]
pub struct FileStreamReader {
    file_path: std::path::PathBuf,
    file_size: u64,
    current_offset: u64,
    config: FileReaderConfig,
    segments_read: u64,
}

impl FileStreamReader {
    pub closed spec fn spec_file_path(&self) -> std::path::PathBuf {
        self.file_path
    }

    pub closed spec fn spec_file_size(&self) -> u64 {
        self.file_size
    }

    pub closed spec fn spec_offset(&self) -> u64 {
        self.current_offset
    }

    pub closed spec fn spec_config(&self) -> FileReaderConfig {
        self.config
    }

    pub closed spec fn spec_segments_read(&self) -> u64 {
        self.segments_read
    }

    /// A reader at the start of the opened file `file_path` of `file_size`
    /// bytes. A segment size out of range is kept as given.
    pub fn new(file_path: std::path::PathBuf, file_size: u64, config: FileReaderConfig) -> (r: Self)
        ensures
            r.spec_file_path() == file_path,
            r.spec_file_size() == file_size,
            r.spec_offset() == 0,
            r.spec_config() == config,
            r.spec_segments_read() == 0,
    {
        FileStreamReader { file_path, file_size, current_offset: 0, config, segments_read: 0 }
    }

    /// How many bytes to read next: the segment size, or what is left of
    /// the file; none at its end.
    pub fn next_read_size(&self) -> (r: Option<usize>)
        ensures
            self.spec_offset() >= self.spec_file_size() ==> r.is_none(),
            self.spec_offset() < self.spec_file_size() ==> r == Some(
                read_len_at(
                    self.spec_file_size() as int,
                    self.spec_offset() as int,
                    self.spec_config().segment_size as int,
                ) as usize,
            ),
            r matches Some(n) ==> self.spec_offset() + n <= self.spec_file_size(),
    {
        if self.current_offset >= self.file_size {
            return None;
        }
        let remaining = self.file_size - self.current_offset;
        if remaining < self.config.segment_size as u64 {
            Some(remaining as usize)
        } else {
            Some(self.config.segment_size)
        }
    }

    /// Turns the bytes just read into the next segment and advances; no
    /// bytes means the end of the file. Every thirtieth segment, starting
    /// with the first, is marked as a keyframe.
    pub fn on_read(&mut self, data: Vec<u8>) -> (r: Option<VideoSegment>)
        requires
            old(self).spec_offset() + data@.len() <= u64::MAX,
            old(self).spec_segments_read() < u64::MAX,
        ensures
            data@.len() == 0 ==> r.is_none() && *final(self) == *old(self),
            data@.len() > 0 ==> {
                &&& final(self).spec_offset() == old(self).spec_offset() + data@.len()
                &&& final(self).spec_segments_read() == old(self).spec_segments_read() + 1
                &&& final(self).spec_file_size() == old(self).spec_file_size()
                &&& final(self).spec_config() == old(self).spec_config()
                &&& final(self).spec_file_path() == old(self).spec_file_path()
                &&& r matches Some(v)
                &&& v.data@ == data@
                &&& v.timestamp_us == timestamp_for_offset(final(self).spec_offset())
                &&& v.duration_us == segment_duration_for(old(self).spec_config().assumed_fps_milli)
                &&& v.is_keyframe == (final(self).spec_segments_read() % 30 == 1)
                &&& v.format == old(self).spec_config().format
                &&& v.source_type == SegmentSourceType::Playback
                &&& v.receive_time_us.is_none()
                &&& v.forward_time_us.is_none()
            },
    {
        let n = data.len();
        if n == 0 {
            return None;
        }
        self.current_offset = self.current_offset + n as u64;
        self.segments_read = self.segments_read + 1;
        let t: u128 = (self.current_offset as u128) * 10_000_000 / 1_048_576;
        let timestamp_us: u64 = if t > u64::MAX as u128 {
            u64::MAX
        } else {
            t as u64
        };
        let duration_us: u64 = if self.config.assumed_fps_milli == 0 {
            u64::MAX
        } else {
            1_000_000_000 / self.config.assumed_fps_milli
        };
        Some(
            VideoSegment {
                segment_id: new_segment_id(),
                timestamp_us,
                duration_us,
                data,
                is_keyframe: self.segments_read % 30 == 1,
                format: self.config.format,
                source_type: SegmentSourceType::Playback,
                receive_time_us: None,
                forward_time_us: None,
            },
        )
    }

    /// The wait (microseconds) before handing on a segment of
    /// `segment_duration_us` at the current playback rate.
    pub fn calculate_rate_controlled_delay(&self, segment_duration_us: u64) -> (d: u64)
        ensures
            d == rate_delay(segment_duration_us, self.spec_config().playback_rate_milli),
    {
        if self.config.playback_rate_milli == 0 {
            return 0;
        }
        let d: u128 = (segment_duration_us as u128) * 1000 / (self.config.playback_rate_milli as u128);
        if d > u64::MAX as u128 {
            u64::MAX
        } else {
            d as u64
        }
    }

    /// The target interval (microseconds) between segments of
    /// `segment_duration_us` at the current playback rate.
    pub fn calculate_target_interval(&self, segment_duration_us: u64) -> (d: u64)
        ensures
            d == rate_delay(segment_duration_us, self.spec_config().playback_rate_milli),
    {
        self.calculate_rate_controlled_delay(segment_duration_us)
    }

    /// Whether an actual interval is within a tenth of its target.
    pub fn validate_interval(&self, actual_us: i64, target_us: i64) -> (ok: bool)
        ensures
            ok == interval_ok(actual_us, target_us),
    {
        if target_us <= 0 {
            return true;
        }
        let d: i128 = actual_us as i128 - target_us as i128;
        let a: i128 = if d < 0 {
            -d
        } else {
            d
        };
        a * 10 < target_us as i128
    }

    /// The offset that `target` selects in this file, or why it is refused.
    /// The caller seeks the file there and reports with `seek_done`.
    pub fn seek_target(&self, target: SeekTarget) -> (r: Result<u64, StreamError>)
        ensures
            r == seek_target_offset(target, self.spec_file_size()),
            r matches Ok(o) ==> o <= self.spec_file_size(),
    {
        match target {
            SeekTarget::Position(p) => {
                if p < 0 || p > PPM as i64 {
                    return Err(StreamError::InvalidSeekPosition(p));
                }
                assert((p as int) * (self.file_size as int) <= 1_000_000int * u64::MAX) by (nonlinear_arith)
                    requires
                        0 <= p <= 1_000_000,
                ;
                let num: u128 = (p as u128) * (self.file_size as u128);
                let den: u128 = PPM as u128;
                assert(num <= den * (self.file_size as u128)) by (nonlinear_arith)
                    requires
                        0 <= p <= PPM,
                        num == (p as u128) * (self.file_size as u128),
                        den == PPM,
                ;
                assert(num / den <= self.file_size) by (nonlinear_arith)
                    requires
                        num <= den * (self.file_size as u128),
                        den > 0,
                ;
                Ok((num / den) as u64)
            },
            SeekTarget::Offset(o) => Ok(
                if o < self.file_size {
                    o
                } else {
                    self.file_size
                },
            ),
            SeekTarget::Time { time_us, duration_us } => {
                if time_us < 0 || time_us > duration_us {
                    return Err(StreamError::InvalidSeekPosition(time_us));
                }
                if duration_us > 0 {
                    assert((time_us as int) * (self.file_size as int) <= i64::MAX * u64::MAX) by (nonlinear_arith)
                        requires
                            0 <= time_us <= i64::MAX,
                    ;
                    let num: u128 = (time_us as u128) * (self.file_size as u128);
                    let den: u128 = duration_us as u128;
                    assert(num <= den * (self.file_size as u128)) by (nonlinear_arith)
                        requires
                            0 <= time_us <= duration_us,
                            num == (time_us as u128) * (self.file_size as u128),
                            den == duration_us,
                    ;
                    assert(num / den <= self.file_size) by (nonlinear_arith)
                        requires
                            num <= den * (self.file_size as u128),
                            den > 0,
                    ;
                    Ok((num / den) as u64)
                } else {
                    Ok(0)
                }
            },
        }
    }

    /// Records that the file now stands at `offset`.
    pub fn seek_done(&mut self, offset: u64)
        ensures
            final(self).spec_offset() == offset,
            final(self).spec_file_size() == old(self).spec_file_size(),
            final(self).spec_config() == old(self).spec_config(),
            final(self).spec_segments_read() == old(self).spec_segments_read(),
            final(self).spec_file_path() == old(self).spec_file_path(),
    {
        self.current_offset = offset;
    }

    /// Sets the playback rate (thousandths); only 0.25x to 4x is accepted.
    pub fn set_playback_rate(&mut self, rate_milli: i64) -> (r: Result<(), StreamError>)
        ensures
            (rate_milli < 250 || rate_milli > 4000) ==> r == Err::<(), StreamError>(
                StreamError::InvalidPlaybackRate(rate_milli),
            ) && *final(self) == *old(self),
            (250 <= rate_milli <= 4000) ==> r is Ok && final(self).spec_config()
                == (FileReaderConfig { playback_rate_milli: rate_milli as u64, ..old(self).spec_config() })
                && final(self).spec_offset() == old(self).spec_offset() && final(self).spec_file_size()
                == old(self).spec_file_size() && final(self).spec_segments_read()
                == old(self).spec_segments_read() && final(self).spec_file_path()
                == old(self).spec_file_path(),
    {
        if rate_milli < 250 || rate_milli > 4000 {
            return Err(StreamError::InvalidPlaybackRate(rate_milli));
        }
        self.config.playback_rate_milli = rate_milli as u64;
        Ok(())
    }

    /// Sets the segment size; only 4 KiB to 32 KiB is accepted.
    pub fn set_segment_size(&mut self, size: usize) -> (r: Result<(), StreamError>)
        ensures
            (size < MIN_SEGMENT_SIZE || size > MAX_SEGMENT_SIZE) ==> (r matches Err(
                StreamError::Internal(m),
            ) && m@ == segment_size_text(size as nat)) && *final(self) == *old(self),
            (MIN_SEGMENT_SIZE <= size <= MAX_SEGMENT_SIZE) ==> r is Ok && final(self).spec_config()
                == (FileReaderConfig { segment_size: size, ..old(self).spec_config() })
                && final(self).spec_offset() == old(self).spec_offset() && final(self).spec_file_size()
                == old(self).spec_file_size() && final(self).spec_segments_read()
                == old(self).spec_segments_read() && final(self).spec_file_path()
                == old(self).spec_file_path(),
    {
        if size < MIN_SEGMENT_SIZE || size > MAX_SEGMENT_SIZE {
            return Err(StreamError::Internal(segment_size_message(size)));
        }
        self.config.segment_size = size;
        Ok(())
    }

    /// The fraction of the file read, in parts per million.
    pub fn get_progress(&self) -> (p: u64)
        ensures
            p == progress_ppm(self.spec_offset(), self.spec_file_size()),
    {
        if self.file_size == 0 {
            0
        } else {
            assert((self.current_offset as u128) * 1_000_000 <= u64::MAX * 1_000_000u128) by (nonlinear_arith);
            let p: u128 = (self.current_offset as u128) * 1_000_000 / (self.file_size as u128);
            if p > u64::MAX as u128 {
                u64::MAX
            } else {
                p as u64
            }
        }
    }

    pub fn get_offset(&self) -> (o: u64)
        ensures
            o == self.spec_offset(),
    {
        self.current_offset
    }

    pub fn get_file_size(&self) -> (s: u64)
        ensures
            s == self.spec_file_size(),
    {
        self.file_size
    }

    pub fn get_segments_read(&self) -> (n: u64)
        ensures
            n == self.spec_segments_read(),
    {
        self.segments_read
    }

    /// The playback rate in thousandths.
    pub fn get_playback_rate(&self) -> (r: u64)
        ensures
            r == self.spec_config().playback_rate_milli,
    {
        self.config.playback_rate_milli
    }

    pub fn get_segment_size(&self) -> (s: usize)
        ensures
            s == self.spec_config().segment_size,
    {
        self.config.segment_size
    }

    pub fn get_file_path(&self) -> (p: &std::path::PathBuf)
        ensures
            *p == self.spec_file_path(),
    {
        &self.file_path
    }

    /// Back to the start of the file with no segment read; the caller seeks
    /// the file to offset 0 first.
    pub fn reset(&mut self)
        ensures
            final(self).spec_offset() == 0,
            final(self).spec_segments_read() == 0,
            final(self).spec_file_size() == old(self).spec_file_size(),
            final(self).spec_config() == old(self).spec_config(),
            final(self).spec_file_path() == old(self).spec_file_path(),
    {
        self.current_offset = 0;
        self.segments_read = 0;
    }
}

/// Law: the wait between segments shrinks as the playback rate grows.
pub proof fn lemma_rate_delay_antimonotone(duration_us: u64, slow_milli: u64, fast_milli: u64)
    requires
        0 < slow_milli <= fast_milli,
    ensures
        rate_delay(duration_us, fast_milli) <= rate_delay(duration_us, slow_milli),
{
    let n = duration_us * 1000;
    assert(n / (fast_milli as int) <= n / (slow_milli as int)) by (nonlinear_arith)
        requires
            0 < slow_milli <= fast_milli,
            n >= 0,
    ;
}

/// Law: once every byte of a non-empty file has been read, the progress
/// is complete.
pub proof fn lemma_progress_complete_at_end(file_size: u64)
    requires
        file_size > 0,
    ensures
        progress_ppm(file_size, file_size) == PPM,
{
    assert((file_size as int) * (PPM as int) / (file_size as int) == PPM) by (nonlinear_arith)
        requires
            file_size > 0,
    ;
}

/// Law: seeking to a relative position never reports more progress than
/// that position.
pub proof fn lemma_position_seek_progress(position_ppm: i64, file_size: u64)
    requires
        0 <= position_ppm <= PPM,
        file_size > 0,
    ensures
        seek_target_offset(SeekTarget::Position(position_ppm), file_size) matches Ok(o) && progress_ppm(
            o,
            file_size,
        ) <= position_ppm,
{
    let o = position_ppm * (file_size as int) / (PPM as int);
    assert(0 <= o <= file_size) by (nonlinear_arith)
        requires
            0 <= position_ppm <= PPM,
            o == position_ppm * (file_size as int) / (PPM as int),
    ;
    assert(o * (PPM as int) <= position_ppm * (file_size as int)) by (nonlinear_arith)
        requires
            o == position_ppm * (file_size as int) / (PPM as int),
            position_ppm >= 0,
    ;
    assert(o * (PPM as int) / (file_size as int) <= position_ppm) by (nonlinear_arith)
        requires
            o * (PPM as int) <= position_ppm * (file_size as int),
            file_size > 0,
            o >= 0,
    ;
}

/// `Invalid segment size: S (must be between 4096 and 32768)`.
pub open spec fn segment_size_text(size: nat) -> Seq<char> {
    "Invalid segment size: "@ + decimal_of(size) + " (must be between "@ + decimal_of(
        MIN_SEGMENT_SIZE as nat,
    ) + " and "@ + decimal_of(MAX_SEGMENT_SIZE as nat) + ")"@
}

/// Message of the error for a segment size out of range.
fn segment_size_message(size: usize) -> (s: String)
    ensures
        s@ == segment_size_text(size as nat),
{
    let mut s = "Invalid segment size: ".to_owned();
    push_decimal(&mut s, size as u64);
    s.append(" (must be between ");
    push_decimal(&mut s, MIN_SEGMENT_SIZE as u64);
    s.append(" and ");
    push_decimal(&mut s, MAX_SEGMENT_SIZE as u64);
    s.append(")");
    s
}

/// How many bytes a reader at `offset` of a file of `file_size` bytes
/// reads next with segments of `segment_size` bytes.
pub open spec fn read_len_at(file_size: int, offset: int, segment_size: int) -> int {
    if file_size - offset < segment_size {
        file_size - offset
    } else {
        segment_size
    }
}

/// The segments a reader gets from `file` when it reads from `offset` to
/// the end with segments of `segment_size` bytes.
pub open spec fn segments_from(file: Seq<u8>, offset: int, segment_size: int) -> Seq<Seq<u8>>
    decreases file.len() - offset,
{
    if offset >= file.len() || segment_size <= 0 || offset < 0 {
        seq![]
    } else {
        let n = read_len_at(file.len() as int, offset, segment_size);
        seq![file.subrange(offset, offset + n)] + segments_from(file, offset + n, segment_size)
    }
}

proof fn lemma_segments_from(file: Seq<u8>, offset: int, segment_size: int)
    requires
        0 <= offset <= file.len(),
        segment_size > 0,
    ensures
        segments_from(file, offset, segment_size).flatten() == file.skip(offset),
        segments_from(file, offset, segment_size).len() == (file.len() - offset + segment_size - 1)
            / segment_size,
    decreases file.len() - offset,
{
    let r = file.len() - offset;
    let segs = segments_from(file, offset, segment_size);
    if offset >= file.len() {
        assert(file.skip(offset) =~= Seq::<u8>::empty());
        assert((segment_size - 1) / segment_size == 0) by (nonlinear_arith)
            requires
                segment_size > 0,
        ;
    } else {
        let n = read_len_at(file.len() as int, offset, segment_size);
        lemma_segments_from(file, offset + n, segment_size);
        let rest = segments_from(file, offset + n, segment_size);
        assert(segs.drop_first() =~= rest);
        assert(segs[0] == file.subrange(offset, offset + n));
        assert(file.skip(offset) =~= file.subrange(offset, offset + n) + file.skip(offset + n));
        if r < segment_size {
            assert((r + segment_size - 1) / segment_size == 1) by (nonlinear_arith)
                requires
                    0 < r < segment_size,
            ;
            assert((segment_size - 1) / segment_size == 0) by (nonlinear_arith)
                requires
                    segment_size > 0,
            ;
        } else {
            assert((r + segment_size - 1) / segment_size == (r - segment_size + segment_size - 1)
                / segment_size + 1) by (nonlinear_arith)
                requires
                    r >= segment_size,
                    segment_size > 0,
            ;
        }
    }
}

/// The bytes a reader at `at` gets from `file` with segments of
/// `segment_size` bytes.
pub open spec fn read_at_offset(file: Seq<u8>, at: int, segment_size: int) -> Seq<u8> {
    file.subrange(at, at + read_len_at(file.len() as int, at, segment_size))
}

proof fn lemma_segments_from_index(file: Seq<u8>, offset: int, segment_size: int)
    requires
        0 <= offset <= file.len(),
        segment_size > 0,
    ensures
        forall|i: int|
            0 <= i < segments_from(file, offset, segment_size).len() ==> #[trigger] segments_from(
                file,
                offset,
                segment_size,
            )[i] == read_at_offset(file, offset + i * segment_size, segment_size),
        forall|i: int|
            0 <= i < segments_from(file, offset, segment_size).len() ==> offset + #[trigger] (i
                * segment_size) < file.len(),
    decreases file.len() - offset,
{
    if offset < file.len() {
        let n = read_len_at(file.len() as int, offset, segment_size);
        lemma_segments_from_index(file, offset + n, segment_size);
        let segs = segments_from(file, offset, segment_size);
        let rest = segments_from(file, offset + n, segment_size);
        assert(segs.drop_first() =~= rest);
        assert forall|i: int| 0 <= i < segs.len() implies offset + i * segment_size < file.len()
            && #[trigger] segs[i] =~= read_at_offset(file, offset + i * segment_size, segment_size) by {
            if i > 0 {
                assert(segs[i] == rest[i - 1]);
                if n < segment_size {
                    assert(rest.len() == 0);
                } else {
                    assert(offset + n + (i - 1) * segment_size == offset + i * segment_size)
                        by (nonlinear_arith)
                        requires
                            n == segment_size,
                    ;
                }
            }
        }
        assert forall|i: int| 0 <= i < segs.len() implies #[trigger] segs[i] == read_at_offset(
            file,
            offset + i * segment_size,
            segment_size,
        ) by {
            assert(segs[i] =~= read_at_offset(file, offset + i * segment_size, segment_size));
        }
        assert forall|i: int| 0 <= i < segs.len() implies offset + #[trigger] (i * segment_size)
            < file.len() by {
            if i > 0 && n == segment_size {
                assert(offset + n + (i - 1) * segment_size == offset + i * segment_size)
                    by (nonlinear_arith)
                    requires
                        n == segment_size,
                ;
            }
            if i > 0 && n < segment_size {
                assert(rest.len() == 0);
            }
        }
    } else {
        assert(segments_from(file, offset, segment_size) =~= Seq::<Seq<u8>>::empty());
    }
}

/// The bytes of the `i`-th read (from 0) of `file` with segments of
/// `segment_size` bytes: those from offset i * S, as many as
/// `next_read_size` asks for there.
pub open spec fn nth_read(file: Seq<u8>, segment_size: int, i: int) -> Seq<u8> {
    read_at_offset(file, i * segment_size, segment_size)
}

proof fn lemma_segment_at(file: Seq<u8>, segment_size: int, i: int)
    requires
        segment_size > 0,
        0 <= i < segments_from(file, 0, segment_size).len(),
    ensures
        i * segment_size < file.len(),
        segments_from(file, 0, segment_size)[i] == nth_read(file, segment_size, i),
{
    lemma_segments_from_index(file, 0, segment_size);
    let x = segments_from(file, 0, segment_size)[i];
    assert(0 + i * segment_size == i * segment_size);
}

/// Law: reading a file of N bytes to its end with segments of S bytes
/// gives ceil(N / S) segments, whose bytes, one after the other, are the
/// file. The i-th read starts at offset i * S and takes what
/// `next_read_size` asks for there (S bytes, or the rest of the file), so
/// after the last read the reader stands at N, having read as many
/// segments as there are, with its progress complete.
pub proof fn lemma_reading_to_end(file: Seq<u8>, segment_size: int)
    requires
        segment_size > 0,
    ensures
        segments_from(file, 0, segment_size).flatten() == file,
        segments_from(file, 0, segment_size).len() == (file.len() + segment_size - 1) / segment_size,
        forall|i: int|
            0 <= i < segments_from(file, 0, segment_size).len() ==> #[trigger] segments_from(
                file,
                0,
                segment_size,
            )[i] == nth_read(file, segment_size, i),
        forall|i: int|
            0 <= i < segments_from(file, 0, segment_size).len() ==> #[trigger] (i * segment_size)
                < file.len(),
        forall|i: int|
            0 <= i < segments_from(file, 0, segment_size).len() - 1 ==> i * segment_size
                + read_len_at(file.len() as int, i * segment_size, segment_size) == #[trigger] ((i
                + 1) * segment_size),
        segments_from(file, 0, segment_size).len() > 0 ==> {
            let last = segments_from(file, 0, segment_size).len() - 1;
            last * segment_size + read_len_at(file.len() as int, last * segment_size, segment_size)
                == file.len()
        },
        0 < file.len() <= u64::MAX ==> progress_ppm(file.len() as u64, file.len() as u64) == PPM,
{
    lemma_segments_from(file, 0, segment_size);
    assert(file.skip(0) =~= file);
    let segs = segments_from(file, 0, segment_size);
    let count = segs.len() as int;
    assert forall|i: int|
        0 <= i < segments_from(file, 0, segment_size).len() implies #[trigger] segments_from(
            file,
            0,
            segment_size,
        )[i] == nth_read(file, segment_size, i) by {
        lemma_segment_at(file, segment_size, i);
    }
    assert forall|i: int|
        0 <= i < segments_from(file, 0, segment_size).len() implies #[trigger] (i * segment_size)
            < file.len() by {
        lemma_segment_at(file, segment_size, i);
    }
    assert forall|i: int| 0 <= i < count - 1 implies i * segment_size + read_len_at(
        file.len() as int,
        i * segment_size,
        segment_size,
    ) == #[trigger] ((i + 1) * segment_size) by {
        assert(segs[i].len() == read_len_at(file.len() as int, i * segment_size, segment_size));
        assert(segs[i + 1].len() >= 0);
        assert((i + 1) * segment_size == i * segment_size + segment_size) by (nonlinear_arith);
        assert((i + 1) * segment_size < file.len());
    }
    if count > 0 {
        let last = count - 1;
        let at = last * segment_size;
        assert(segs[last] == file.subrange(at, at + read_len_at(file.len() as int, at, segment_size)));
        // the last read takes the rest of the file
        assert(count == (file.len() + segment_size - 1) / segment_size);
        assert(at + segment_size >= file.len()) by (nonlinear_arith)
            requires
                count == (file.len() + segment_size - 1) / segment_size,
                at == (count - 1) * segment_size,
                segment_size > 0,
        ;
    }
    if 0 < file.len() <= u64::MAX {
        lemma_progress_complete_at_end(file.len() as u64);
    }
}

} // verus!
