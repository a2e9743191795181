//! Playback control on the device: seeking (to keyframes), speed changes
//! with frame dropping, buffers, and audio/video synchronisation.
//!
//! Times are in microseconds and rates in thousandths.

use vstd::prelude::*;
use crate::errors::FileError;
use crate::keyframe_index::{KeyframeEntry, KeyframeIndex, SeekResult, entry_at_or_before, find_nearest_keyframe};
use crate::sorting::is_sorted;
use std::collections::HashMap;

verus! {

broadcast use vstd::seq_lib::group_to_multiset_ensures;

/// Errors of playback control.
#[derive(Debug)]
pub enum PlaybackError {
    InvalidSeekPosition { position_us: i64 },
    InvalidPlaybackRate { rate_milli: i64 },
    SeekFailed { reason: String },
    BufferError { reason: String },
    SyncLost,
    KeyframeNotFound { timestamp_us: i64 },
    InvalidKeyframeIndex { reason: String },
    NotInitialized,
    FileError(FileError),
}

/// A frame-dropping choice.
#[derive(Debug, Clone, Copy, PartialEq, Eq, Structural)]
pub enum DropFrameStrategy {
    /// Keep every frame.
    DropNone,
    /// Keep keyframes only.
    DropNonKeyframes,
    /// Keep a share of the frames (thousandths).
    DropByRate(u32),
    /// Decide from conditions.
    Adaptive,
}

/// Which frames are dropped at a playback speed.
#[derive(Debug, Clone, Copy, PartialEq, Eq, Structural)]
pub struct FrameDropPolicy {
    pub drop_b_frames: bool,
    pub drop_p_frames: bool,
    pub keep_key_frames_only: bool,
    pub adaptive_dropping: bool,
}

/// Network congestion levels.
#[derive(Debug, Clone, Copy, PartialEq, Eq, Structural)]
pub enum CongestionLevel {
    Low,
    Medium,
    High,
    Critical,
}

/// Width and height of a video.
#[derive(Debug, Clone, Copy, PartialEq, Eq, Structural)]
pub struct Resolution {
    pub width: u32,
    pub height: u32,
}

/// A video segment queued for transmission.
#[derive(Debug, Clone)]
pub struct VideoSegment {
    pub id: u128,
    pub data: Vec<u8>,
    pub timestamp_us: u64,
    pub duration_us: u64,
    pub frame_count: usize,
    pub is_key_frame: bool,
}

/// An audio segment.
#[derive(Debug, Clone)]
pub struct AudioSegment {
    pub id: u128,
    pub data: Vec<u8>,
    pub timestamp_us: u64,
    pub duration_us: u64,
    pub sample_rate: u32,
    pub channels: u16,
}

/// Audio/video synchronisation state.
#[derive(Debug, Clone, Copy)]
pub struct SyncInfo {
    pub video_timestamp_us: u64,
    pub audio_timestamp_us: u64,
    pub offset_us: u64,
}

/// Health of the buffers.
#[derive(Debug, Clone, Copy)]
pub struct BufferHealth {
    /// Fill level of the video buffer (thousandths).
    pub video_buffer_level_milli: u64,
    /// Fill level of the audio buffer (thousandths).
    pub audio_buffer_level_milli: u64,
    pub underrun_count: u32,
    pub overrun_count: u32,
    pub last_underrun_us: Option<u64>,
}

/// Buffers of a playback.
#[derive(Debug)]
pub struct BufferManager {
    pub video_buffers: HashMap<u128, Vec<u8>>,
    pub audio_buffers: HashMap<u128, Vec<u8>>,
    pub max_buffer_size: usize,
    pub current_buffer_size: usize,
    pub buffer_health: BufferHealth,
}

/// Buffer capacity of a controller (10 MiB).
pub const MAX_BUFFER_SIZE: usize = 10 * 1024 * 1024;

/// The frame-dropping policy at a speed: nothing dropped up to 1x, B
/// frames up to 2x, B and P frames up to 4x, and keyframes only beyond.
pub open spec fn drop_policy_for(rate_milli: i64) -> FrameDropPolicy {
    if rate_milli <= 1000 {
        FrameDropPolicy {
            drop_b_frames: false,
            drop_p_frames: false,
            keep_key_frames_only: false,
            adaptive_dropping: false,
        }
    } else if rate_milli <= 2000 {
        FrameDropPolicy {
            drop_b_frames: true,
            drop_p_frames: false,
            keep_key_frames_only: false,
            adaptive_dropping: true,
        }
    } else if rate_milli <= 4000 {
        FrameDropPolicy {
            drop_b_frames: true,
            drop_p_frames: true,
            keep_key_frames_only: false,
            adaptive_dropping: true,
        }
    } else {
        FrameDropPolicy {
            drop_b_frames: true,
            drop_p_frames: true,
            keep_key_frames_only: true,
            adaptive_dropping: true,
        }
    }
}

/// Whether a non-key frame `distance` frames after the last kept keyframe
/// is kept.
pub open spec fn keeps_frame(p: FrameDropPolicy, distance: int) -> bool {
    match (p.drop_b_frames, p.drop_p_frames) {
        (false, false) => true,
        (true, false) => distance % 3 != 2,
        (true, true) => distance % 4 == 1,
        (false, true) => distance % 2 == 1,
    }
}

/// The segments kept among the first `n`, and the position in the result
/// of the last keyframe kept. The distance of a frame is its position in
/// the input minus that result position.
pub open spec fn dropping(s: Seq<VideoSegment>, p: FrameDropPolicy, n: int) -> (Seq<VideoSegment>, Option<int>)
    decreases n,
{
    if n <= 0 {
        (seq![], None)
    } else {
        let (r, last) = dropping(s, p, n - 1);
        let i = n - 1;
        if s[i].is_key_frame {
            (r.push(s[i]), Some(r.len() as int))
        } else if keeps_frame(
            p,
            i - match last {
                Some(l) => l,
                None => 0,
            },
        ) {
            (r.push(s[i]), last)
        } else {
            (r, last)
        }
    }
}

/// The keyframes of `s`, in order.
pub open spec fn keyframes_only(s: Seq<VideoSegment>) -> Seq<VideoSegment> {
    s.filter(|v: VideoSegment| v.is_key_frame)
}

/// Whether segments are in time order.
pub open spec fn time_ordered(s: Seq<VideoSegment>) -> bool {
    forall|i: int, j: int| 0 <= i <= j < s.len() ==> s[i].timestamp_us <= s[j].timestamp_us
}

/// Whether a segment has timestamp `t`.
pub open spec fn has_time(t: u64) -> spec_fn(VideoSegment) -> bool {
    |v: VideoSegment| v.timestamp_us == t
}

/// The segments of `s` with timestamp `t`, in their order.
pub open spec fn at_time(s: Seq<VideoSegment>, t: u64) -> Seq<VideoSegment> {
    s.filter(has_time(t))
}

proof fn lemma_at_time_none(s: Seq<VideoSegment>, t: u64)
    requires
        forall|k: int| 0 <= k < s.len() ==> s[k].timestamp_us != t,
    ensures
        at_time(s, t) == Seq::<VideoSegment>::empty(),
    decreases s.len(),
{
    reveal(Seq::filter);
    if s.len() > 0 {
        lemma_at_time_none(s.drop_last(), t);
    }
}

/// The segments kept for transmission at a speed, before ordering.
pub open spec fn kept_segments(s: Seq<VideoSegment>, rate_milli: i64) -> Seq<VideoSegment> {
    let p = drop_policy_for(rate_milli);
    if p.keep_key_frames_only {
        keyframes_only(s)
    } else if p.drop_b_frames || p.drop_p_frames {
        if p.adaptive_dropping {
            dropping(s, p, s.len() as int).0
        } else {
            s
        }
    } else {
        s
    }
}

/// The audio offset after a speed change: kept up to 1x, 80% up to 2x,
/// 60% up to 4x, none beyond.
pub open spec fn scaled_offset(offset: u64, rate_milli: i64) -> u64 {
    if rate_milli <= 1000 {
        offset
    } else if rate_milli <= 2000 {
        (offset * 8 / 10) as u64
    } else if rate_milli <= 4000 {
        (offset * 6 / 10) as u64
    } else {
        0
    }
}

/// Precision of a keyframe seek in parts per million: one million when
/// exact, else one million minus the relative distance (relative to the
/// requested time, at least one second), never below zero.
pub open spec fn seek_precision_ppm(requested: u64, actual: u64) -> u64 {
    let d = if requested >= actual {
        requested - actual
    } else {
        actual - requested
    };
    let base = if requested > 1_000_000 {
        requested as int
    } else {
        1_000_000
    };
    let rel = d * 1_000_000 / base;
    if rel > 1_000_000 {
        0
    } else {
        (1_000_000 - rel) as u64
    }
}

/// The keyframe a controller seeks to: the first at or before the start,
/// the last at or past the end, else the one at or before the time.
pub open spec fn controller_keyframe(index_entries: Seq<KeyframeEntry>, total: u64, t: u64) -> KeyframeEntry {
    if t == 0 {
        index_entries[0]
    } else if t >= total {
        index_entries.last()
    } else {
        entry_at_or_before(index_entries, t)
    }
}

/// Controls playback on the device.
#[derive(Debug)]
pub struct DefaultPlaybackController {
    pub current_position_us: u64,
    pub playback_rate_milli: i64,
    pub transmission_queue: Vec<VideoSegment>,
    pub audio_queue: Vec<AudioSegment>,
    pub buffer_manager: BufferManager,
    pub sync_offset_us: u64,
    pub last_seek_position_us: Option<u64>,
}

impl DefaultPlaybackController {
    /// A controller at the start, at normal speed, with empty 10 MiB
    /// buffers.
    pub fn new() -> (c: Self)
        ensures
            c.current_position_us == 0,
            c.playback_rate_milli == 1000,
            c.transmission_queue@.len() == 0,
            c.audio_queue@.len() == 0,
            c.buffer_manager.max_buffer_size == MAX_BUFFER_SIZE,
            c.buffer_manager.current_buffer_size == 0,
            c.sync_offset_us == 0,
            c.last_seek_position_us.is_none(),
    {
        DefaultPlaybackController {
            current_position_us: 0,
            playback_rate_milli: 1000,
            transmission_queue: Vec::new(),
            audio_queue: Vec::new(),
            buffer_manager: BufferManager {
                video_buffers: HashMap::new(),
                audio_buffers: HashMap::new(),
                max_buffer_size: MAX_BUFFER_SIZE,
                current_buffer_size: 0,
                buffer_health: BufferHealth {
                    video_buffer_level_milli: 0,
                    audio_buffer_level_milli: 0,
                    underrun_count: 0,
                    overrun_count: 0,
                    last_underrun_us: None,
                },
            },
            sync_offset_us: 0,
            last_seek_position_us: None,
        }
    }

    pub fn get_current_position(&self) -> (r: u64)
        ensures
            r == self.current_position_us,
    {
        self.current_position_us
    }

    pub fn get_playback_rate(&self) -> (r: i64)
        ensures
            r == self.playback_rate_milli,
    {
        self.playback_rate_milli
    }

    pub fn get_buffer_health(&self) -> (r: &BufferHealth)
        ensures
            *r == self.buffer_manager.buffer_health,
    {
        &self.buffer_manager.buffer_health
    }

    pub fn get_last_seek_position(&self) -> (r: Option<u64>)
        ensures
            r == self.last_seek_position_us,
    {
        self.last_seek_position_us
    }

    /// Drops frames by the policy, counting distances from the last kept
    /// keyframe; without adaptive dropping every segment is kept.
    pub fn apply_intelligent_frame_dropping(&self, segments: Vec<VideoSegment>, strategy: &FrameDropPolicy) -> (r: Vec<
        VideoSegment,
    >)
        ensures
            !strategy.adaptive_dropping ==> r@ == segments@,
            strategy.adaptive_dropping ==> r@ == dropping(segments@, *strategy, segments@.len() as int).0,
    {
        if !strategy.adaptive_dropping {
            return segments;
        }
        let ghost s = segments@;
        let mut result: Vec<VideoSegment> = Vec::new();
        let mut last: Option<usize> = None;
        let mut input = segments;
        let mut index: usize = 0;
        let n = input.len();
        while index < n
            invariant
                n == s.len(),
                index <= n,
                input@ == s.skip(index as int),
                result@ == dropping(s, *strategy, index as int).0,
                match dropping(s, *strategy, index as int).1 {
                    Some(l) => last == Some(l as usize) && 0 <= l < result@.len(),
                    None => last.is_none(),
                },
                result@.len() <= index,
            decreases n - index,
        {
            let seg = input.remove(0);
            let ghost prev = dropping(s, *strategy, index as int);
            proof {
                assert(seg == s[index as int]);
                assert(input@ =~= s.skip(index + 1));
                assert(dropping(s, *strategy, index + 1) == if s[index as int].is_key_frame {
                    (prev.0.push(s[index as int]), Some(prev.0.len() as int))
                } else if keeps_frame(
                    *strategy,
                    index - match prev.1 {
                        Some(l) => l,
                        None => 0,
                    },
                ) {
                    (prev.0.push(s[index as int]), prev.1)
                } else {
                    (prev.0, prev.1)
                });
            }
            if seg.is_key_frame {
                result.push(seg);
                last = Some(result.len() - 1);
            } else {
                let base = match last {
                    Some(l) => l,
                    None => 0,
                };
                let distance = index - base;
                let keep = match (strategy.drop_b_frames, strategy.drop_p_frames) {
                    (false, false) => true,
                    (true, false) => distance % 3 != 2,
                    (true, true) => distance % 4 == 1,
                    (false, true) => distance % 2 == 1,
                };
                if keep {
                    result.push(seg);
                }
            }
            index = index + 1;
        }
        result
    }

    /// Moves to `position_us`, clearing the buffers; negative positions
    /// are refused.
    pub fn seek(&mut self, position_us: i64) -> (r: Result<(), PlaybackError>)
        ensures
            position_us < 0 ==> (r matches Err(PlaybackError::InvalidSeekPosition { position_us: p })
                && p == position_us),
            position_us >= 0 ==> {
                &&& r.is_ok()
                &&& final(self).current_position_us == position_us
                &&& final(self).last_seek_position_us == Some(position_us as u64)
                &&& final(self).sync_offset_us == 0
                &&& final(self).transmission_queue@.len() == 0
                &&& final(self).audio_queue@.len() == 0
                &&& final(self).buffer_manager.current_buffer_size == 0
            },
            final(self).playback_rate_milli == old(self).playback_rate_milli,
    {
        if position_us < 0 {
            return Err(PlaybackError::InvalidSeekPosition { position_us });
        }
        self.clear_buffers();
        self.current_position_us = position_us as u64;
        self.last_seek_position_us = Some(position_us as u64);
        self.sync_offset_us = 0;
        Ok(())
    }

    /// Seeks to the keyframe for `position_us`: positions outside the
    /// recording are refused, an empty index has no keyframe; the buffers
    /// are cleared and the position becomes the keyframe's time.
    pub fn seek_to_keyframe(&mut self, position_us: i64, index: &KeyframeIndex, elapsed_us: u64) -> (r:
        Result<SeekResult, PlaybackError>)
        ensures
            (position_us < 0 || position_us > index.total_duration_us) ==> (r matches Err(
                PlaybackError::InvalidSeekPosition { position_us: p },
            ) && p == position_us),
            (0 <= position_us <= index.total_duration_us && index.entries@.len() == 0) ==> (r matches Err(
                PlaybackError::KeyframeNotFound { timestamp_us: p },
            ) && p == position_us),
            (0 <= position_us <= index.total_duration_us && index.entries@.len() > 0) ==> ({
                let k = controller_keyframe(
                    index.entries@,
                    index.total_duration_us,
                    position_us as u64,
                );
                &&& r matches Ok(res)
                &&& res.requested_time_us == position_us
                &&& res.actual_time_us == k.timestamp_us
                &&& res.keyframe_offset == k.file_offset
                &&& res.keyframe_used == k
                &&& res.precision_achieved == seek_precision_ppm(position_us as u64, k.timestamp_us)
                &&& res.execution_time_us == elapsed_us
                &&& final(self).current_position_us == k.timestamp_us
                &&& final(self).last_seek_position_us == Some(k.timestamp_us)
                &&& final(self).sync_offset_us == 0
            }),
    {
        if position_us < 0 || position_us as u64 > index.total_duration_us {
            return Err(PlaybackError::InvalidSeekPosition { position_us });
        }
        let t = position_us as u64;
        let keyframe = match self.find_nearest_keyframe(t, index) {
            Some(k) => k,
            None => {
                return Err(PlaybackError::KeyframeNotFound { timestamp_us: position_us });
            },
        };
        self.clear_buffers();
        let actual = keyframe.timestamp_us;
        self.current_position_us = actual;
        self.last_seek_position_us = Some(actual);
        self.sync_offset_us = 0;
        let precision = precision_ppm(t, actual);
        Ok(
            SeekResult {
                requested_time_us: t,
                actual_time_us: actual,
                keyframe_offset: keyframe.file_offset,
                precision_achieved: precision,
                keyframe_used: keyframe,
                execution_time_us: elapsed_us,
            },
        )
    }

    /// Sets the speed; only 0.25x to 4x is accepted. A change of speed
    /// rescales the audio offset.
    pub fn set_playback_rate(&mut self, rate_milli: i64) -> (r: Result<(), PlaybackError>)
        ensures
            (rate_milli < 250 || rate_milli > 4_000) ==> (r matches Err(
                PlaybackError::InvalidPlaybackRate { rate_milli: x },
            ) && x == rate_milli && final(self).playback_rate_milli == old(
                self,
            ).playback_rate_milli),
            (250 <= rate_milli <= 4_000) ==> {
                &&& r.is_ok()
                &&& final(self).playback_rate_milli == rate_milli
                &&& final(self).sync_offset_us == if old(self).playback_rate_milli != rate_milli {
                    scaled_offset(old(self).sync_offset_us, rate_milli)
                } else {
                    old(self).sync_offset_us
                }
            },
            final(self).current_position_us == old(self).current_position_us,
    {
        if rate_milli < 250 || rate_milli > 4_000 {
            return Err(PlaybackError::InvalidPlaybackRate { rate_milli });
        }
        let old_rate = self.playback_rate_milli;
        self.playback_rate_milli = rate_milli;
        if old_rate != rate_milli {
            self.adjust_audio_video_sync(rate_milli);
        }
        Ok(())
    }

    /// The frame-dropping policy at a speed.
    pub fn get_drop_frame_strategy(&self, rate_milli: i64) -> (p: FrameDropPolicy)
        ensures
            p == drop_policy_for(rate_milli),
    {
        if rate_milli <= 1000 {
            FrameDropPolicy {
                drop_b_frames: false,
                drop_p_frames: false,
                keep_key_frames_only: false,
                adaptive_dropping: false,
            }
        } else if rate_milli <= 2000 {
            FrameDropPolicy {
                drop_b_frames: true,
                drop_p_frames: false,
                keep_key_frames_only: false,
                adaptive_dropping: true,
            }
        } else if rate_milli <= 4000 {
            FrameDropPolicy {
                drop_b_frames: true,
                drop_p_frames: true,
                keep_key_frames_only: false,
                adaptive_dropping: true,
            }
        } else {
            FrameDropPolicy {
                drop_b_frames: true,
                drop_p_frames: true,
                keep_key_frames_only: true,
                adaptive_dropping: true,
            }
        }
    }

    /// The segments to transmit at a speed: dropped by the speed's policy
    /// and put in time order.
    pub fn adjust_transmission_queue(&self, segments: Vec<VideoSegment>, playback_rate_milli: i64) -> (r: Vec<
        VideoSegment,
    >)
        ensures
            time_ordered(r@),
            r@.to_multiset() == kept_segments(segments@, playback_rate_milli).to_multiset(),
            forall|t: u64| #[trigger] at_time(r@, t) == at_time(kept_segments(segments@, playback_rate_milli), t),
    {
        let strategy = self.get_drop_frame_strategy(playback_rate_milli);
        let kept = if strategy.keep_key_frames_only {
            keep_keyframes(segments)
        } else if strategy.drop_b_frames || strategy.drop_p_frames {
            self.apply_intelligent_frame_dropping(segments, &strategy)
        } else {
            segments
        };
        sort_by_time(kept)
    }

    /// Empties the queues and buffers.
    pub fn clear_buffers(&mut self) -> (r: Result<(), PlaybackError>)
        ensures
            r.is_ok(),
            final(self).transmission_queue@.len() == 0,
            final(self).audio_queue@.len() == 0,
            final(self).buffer_manager.video_buffers@.len() == 0,
            final(self).buffer_manager.audio_buffers@.len() == 0,
            final(self).buffer_manager.current_buffer_size == 0,
            final(self).buffer_manager.buffer_health.video_buffer_level_milli == 0,
            final(self).buffer_manager.buffer_health.audio_buffer_level_milli == 0,
            final(self).current_position_us == old(self).current_position_us,
            final(self).playback_rate_milli == old(self).playback_rate_milli,
            final(self).sync_offset_us == old(self).sync_offset_us,
            final(self).last_seek_position_us == old(self).last_seek_position_us,
    {
        self.transmission_queue.clear();
        self.audio_queue.clear();
        self.buffer_manager.video_buffers.clear();
        self.buffer_manager.audio_buffers.clear();
        self.buffer_manager.current_buffer_size = 0;
        self.buffer_manager.buffer_health.video_buffer_level_milli = 0;
        self.buffer_manager.buffer_health.audio_buffer_level_milli = 0;
        Ok(())
    }

    /// The keyframe for `timestamp_us`: the first at the start, the last
    /// at or past the end, else the one at or before the time.
    pub fn find_nearest_keyframe(&self, timestamp_us: u64, index: &KeyframeIndex) -> (r: Option<KeyframeEntry>)
        ensures
            index.entries@.len() == 0 ==> r.is_none(),
            index.entries@.len() > 0 ==> r == Some(
                controller_keyframe(index.entries@, index.total_duration_us, timestamp_us),
            ),
    {
        let n = index.entries.len();
        if n == 0 {
            return None;
        }
        if timestamp_us == 0 {
            return Some(index.entries[0]);
        }
        if timestamp_us >= index.total_duration_us {
            return Some(index.entries[n - 1]);
        }
        find_nearest_keyframe(timestamp_us, index)
    }

    /// Rescales the audio offset for a speed and reports the positions.
    pub fn adjust_audio_video_sync(&mut self, playback_rate_milli: i64) -> (s: SyncInfo)
        ensures
            final(self).sync_offset_us == scaled_offset(old(self).sync_offset_us, playback_rate_milli),
            s.offset_us == final(self).sync_offset_us,
            s.video_timestamp_us == old(self).current_position_us,
            s.audio_timestamp_us == if old(self).current_position_us + final(self).sync_offset_us
                <= u64::MAX {
                old(self).current_position_us + final(self).sync_offset_us
            } else {
                u64::MAX as int
            },
            final(self).current_position_us == old(self).current_position_us,
            final(self).playback_rate_milli == old(self).playback_rate_milli,
    {
        let base = self.sync_offset_us as u128;
        let adjusted: u64 = if playback_rate_milli <= 1000 {
            base as u64
        } else if playback_rate_milli <= 2000 {
            (base * 8 / 10) as u64
        } else if playback_rate_milli <= 4000 {
            (base * 6 / 10) as u64
        } else {
            0
        };
        self.sync_offset_us = adjusted;
        let audio = if (self.current_position_us as u128) + (adjusted as u128) <= u64::MAX as u128 {
            self.current_position_us + adjusted
        } else {
            u64::MAX
        };
        SyncInfo {
            video_timestamp_us: self.current_position_us,
            audio_timestamp_us: audio,
            offset_us: adjusted,
        }
    }
}

impl Default for DefaultPlaybackController {
    fn default() -> (c: Self)
        ensures
            c.current_position_us == 0,
            c.playback_rate_milli == 1000,
            c.sync_offset_us == 0,
            c.last_seek_position_us.is_none(),
    {
        Self::new()
    }
}

fn precision_ppm(requested: u64, actual: u64) -> (p: u64)
    ensures
        p == seek_precision_ppm(requested, actual),
{
    let d: u128 = if requested >= actual {
        (requested - actual) as u128
    } else {
        (actual - requested) as u128
    };
    let base: u128 = if requested > 1_000_000 {
        requested as u128
    } else {
        1_000_000
    };
    let rel = d * 1_000_000 / base;
    if rel > 1_000_000 {
        0
    } else {
        (1_000_000 - rel) as u64
    }
}

/// The keyframes of the segments, in order.
fn keep_keyframes(segments: Vec<VideoSegment>) -> (r: Vec<VideoSegment>)
    ensures
        r@ == keyframes_only(segments@),
{
    let ghost s = segments@;
    let mut input = segments;
    let n = input.len();
    let mut out: Vec<VideoSegment> = Vec::new();
    let mut i: usize = 0;
    while i < n
        invariant
            n == s.len(),
            i <= n,
            input@ == s.skip(i as int),
            out@ == keyframes_only(s.take(i as int)),
        decreases n - i,
    {
        let seg = input.remove(0);
        proof {
            assert(seg == s[i as int]);
            assert(input@ =~= s.skip(i + 1));
            assert(s.take(i + 1) =~= s.take(i as int).push(seg));
            s.take(i as int).lemma_filter_push(seg, |v: VideoSegment| v.is_key_frame);
        }
        if seg.is_key_frame {
            out.push(seg);
        }
        i = i + 1;
    }
    proof {
        assert(s.take(n as int) =~= s);
    }
    out
}

/// The segments in time order (equal times keep their order).
fn sort_by_time(segments: Vec<VideoSegment>) -> (r: Vec<VideoSegment>)
    ensures
        time_ordered(r@),
        r@.to_multiset() == segments@.to_multiset(),
        forall|t: u64| #[trigger] at_time(r@, t) == at_time(segments@, t),
{
    let ghost s = segments@;
    let mut input = segments;
    let n = input.len();
    let mut out: Vec<VideoSegment> = Vec::new();
    let mut i: usize = 0;
    while i < n
        invariant
            n == s.len(),
            i <= n,
            input@ == s.skip(i as int),
            time_ordered(out@),
            out@.to_multiset() == s.take(i as int).to_multiset(),
            forall|t: u64| #[trigger] at_time(out@, t) == at_time(s.take(i as int), t),
        decreases n - i,
    {
        let seg = input.remove(0);
        proof {
            assert(seg == s[i as int]);
            assert(input@ =~= s.skip(i + 1));
            assert(s.take(i + 1) =~= s.take(i as int).push(seg));
        }
        let mut p: usize = 0;
        while p < out.len() && out[p].timestamp_us <= seg.timestamp_us
            invariant
                p <= out@.len(),
                forall|k: int| 0 <= k < p ==> out@[k].timestamp_us <= seg.timestamp_us,
            decreases out@.len() - p,
        {
            p = p + 1;
        }
        let ghost before = out@;
        out.insert(p, seg);
        proof {
            assert(out@ == before.insert(p as int, seg));
            assert(time_ordered(out@)) by {
                assert forall|a: int, b: int| 0 <= a <= b < out@.len() implies out@[a].timestamp_us
                    <= out@[b].timestamp_us by {
                    if a < p && b < p {
                        assert(out@[a] == before[a] && out@[b] == before[b]);
                    } else if a < p && b == p {
                        assert(out@[a] == before[a]);
                    } else if a < p {
                        assert(out@[a] == before[a] && out@[b] == before[b - 1]);
                    } else if a == p && b == p {
                    } else if a == p {
                        assert(out@[b] == before[b - 1]);
                        assert(p < before.len() && before[p as int].timestamp_us > seg.timestamp_us);
                    } else {
                        assert(out@[a] == before[a - 1] && out@[b] == before[b - 1]);
                    }
                }
            }
            assert(out@.remove(p as int) =~= before);
            assert(out@.remove(p as int).to_multiset() =~= out@.to_multiset().remove(seg));
            assert(out@.to_multiset() =~= before.to_multiset().insert(seg)) by {
                assert(out@.contains(seg)) by {
                    assert(out@[p as int] == seg);
                }
                assert(out@.to_multiset().count(seg) > 0);
            }
            let a = before.take(p as int);
            let b = before.skip(p as int);
            assert(before =~= a + b);
            assert(out@ =~= a + seq![seg] + b);
            assert forall|t: u64| #[trigger] at_time(out@, t) == at_time(s.take(i + 1), t) by {
                let pred = has_time(t);
                Seq::filter_distributes_over_add(a + seq![seg], b, pred);
                Seq::filter_distributes_over_add(a, seq![seg], pred);
                Seq::filter_distributes_over_add(a, b, pred);
                Seq::<VideoSegment>::empty().lemma_filter_push(seg, pred);
                assert(Seq::<VideoSegment>::empty().push(seg) =~= seq![seg]);
                assert(Seq::<VideoSegment>::empty().filter(pred) =~= Seq::<VideoSegment>::empty()) by {
                    reveal(Seq::filter);
                }
                s.take(i as int).lemma_filter_push(seg, pred);
                assert(at_time(before, t) == at_time(s.take(i as int), t));
                assert(at_time(s.take(i + 1), t) == at_time(s.take(i as int).push(seg), t));
                if t == seg.timestamp_us {
                    assert forall|k: int| 0 <= k < b.len() implies b[k].timestamp_us != t by {
                        assert(b[k] == before[p + k]);
                        assert(before[p as int].timestamp_us > seg.timestamp_us);
                    }
                    lemma_at_time_none(b, t);
                    assert(at_time(out@, t) =~= at_time(a, t).push(seg));
                    assert(at_time(before, t) =~= at_time(a, t));
                    assert(at_time(s.take(i as int).push(seg), t) == at_time(s.take(i as int), t).push(seg));
                } else {
                    assert(at_time(out@, t) =~= at_time(a, t) + at_time(b, t));
                    assert(at_time(s.take(i as int).push(seg), t) == at_time(s.take(i as int), t));
                }
            }
        }
        i = i + 1;
    }
    proof {
        assert(s.take(n as int) =~= s);
    }
    out
}

/// Law: at any speed, every keyframe among the segments is transmitted.
pub proof fn lemma_keyframes_survive_dropping(s: Seq<VideoSegment>, rate_milli: i64, i: int)
    requires
        0 <= i < s.len(),
        s[i].is_key_frame,
    ensures
        kept_segments(s, rate_milli).contains(s[i]),
{
    let p = drop_policy_for(rate_milli);
    if p.keep_key_frames_only {
        s.lemma_filter_contains_rev(|v: VideoSegment| v.is_key_frame, s[i]);
        assert(s.contains(s[i]));
    } else if p.drop_b_frames || p.drop_p_frames {
        lemma_dropping_keeps_keyframe(s, p, s.len() as int, i);
    } else {
        assert(s.contains(s[i]));
    }
}

proof fn lemma_dropping_keeps_keyframe(s: Seq<VideoSegment>, p: FrameDropPolicy, n: int, i: int)
    requires
        0 <= i < n <= s.len(),
        s[i].is_key_frame,
    ensures
        dropping(s, p, n).0.contains(s[i]),
    decreases n,
{
    if n - 1 == i {
        let r = dropping(s, p, n - 1).0;
        assert(dropping(s, p, n).0 == r.push(s[i]));
        assert(r.push(s[i])[r.len() as int] == s[i]);
    } else {
        lemma_dropping_keeps_keyframe(s, p, n - 1, i);
        let r = dropping(s, p, n - 1).0;
        let k = choose|k: int| 0 <= k < r.len() && r[k] == s[i];
        let r2 = dropping(s, p, n).0;
        assert(r2 == r || r2 == r.push(s[n - 1]));
        assert(r2[k] == s[i]);
    }
}

proof fn lemma_keyframes_only_from_input(s: Seq<VideoSegment>, n: int)
    requires
        0 <= n <= s.len(),
    ensures
        keyframes_only(s.take(n)).to_multiset().subset_of(s.take(n).to_multiset()),
    decreases n,
{
    broadcast use vstd::seq_lib::group_to_multiset_ensures;
    broadcast use vstd::multiset::group_multiset_axioms;

    if n == 0 {
        assert(keyframes_only(s.take(0)) =~= Seq::<VideoSegment>::empty()) by {
            reveal(Seq::filter);
        }
    } else {
        lemma_keyframes_only_from_input(s, n - 1);
        assert(s.take(n) =~= s.take(n - 1).push(s[n - 1]));
        s.take(n - 1).lemma_filter_push(s[n - 1], |v: VideoSegment| v.is_key_frame);
    }
}

proof fn lemma_dropping_from_input(s: Seq<VideoSegment>, p: FrameDropPolicy, n: int)
    requires
        0 <= n <= s.len(),
    ensures
        dropping(s, p, n).0.to_multiset().subset_of(s.take(n).to_multiset()),
    decreases n,
{
    broadcast use vstd::seq_lib::group_to_multiset_ensures;
    broadcast use vstd::multiset::group_multiset_axioms;

    if n == 0 {
        assert(s.take(0) =~= Seq::<VideoSegment>::empty());
    } else {
        lemma_dropping_from_input(s, p, n - 1);
        assert(s.take(n) =~= s.take(n - 1).push(s[n - 1]));
    }
}

/// Law: the transmission queue holds only segments of its input, each at
/// most as often as the input does.
pub proof fn lemma_queue_takes_from_input(s: Seq<VideoSegment>, rate_milli: i64)
    ensures
        kept_segments(s, rate_milli).to_multiset().subset_of(s.to_multiset()),
{
    broadcast use vstd::multiset::group_multiset_axioms;

    assert(s.take(s.len() as int) =~= s);
    lemma_keyframes_only_from_input(s, s.len() as int);
    lemma_dropping_from_input(s, drop_policy_for(rate_milli), s.len() as int);
}

/// Law: what `adjust_transmission_queue` returns (any `r` with the
/// multiset of the kept segments) takes each segment at most as often as
/// the input holds it, keeps every keyframe, is a permutation of the input
/// up to normal speed, and holds exactly the keyframes beyond 4x.
pub proof fn lemma_transmission_queue(s: Seq<VideoSegment>, rate_milli: i64, r: Seq<VideoSegment>)
    requires
        r.to_multiset() == kept_segments(s, rate_milli).to_multiset(),
    ensures
        r.to_multiset().subset_of(s.to_multiset()),
        forall|i: int| 0 <= i < s.len() && s[i].is_key_frame ==> r.contains(#[trigger] s[i]),
        rate_milli <= 1000 ==> r.to_multiset() == s.to_multiset(),
        rate_milli > 4000 ==> r.to_multiset() == keyframes_only(s).to_multiset(),
{
    broadcast use vstd::multiset::group_multiset_axioms;

    lemma_queue_takes_from_input(s, rate_milli);
    assert forall|i: int| 0 <= i < s.len() && s[i].is_key_frame implies r.contains(
        #[trigger] s[i],
    ) by {
        lemma_keyframes_survive_dropping(s, rate_milli, i);
        assert(kept_segments(s, rate_milli).to_multiset().count(s[i]) > 0);
        assert(r.to_multiset().count(s[i]) > 0);
    }
}

proof fn lemma_dropping_prefix(s: Seq<VideoSegment>, p: FrameDropPolicy, m: int, n: int)
    requires
        0 <= n <= m <= s.len(),
    ensures
        dropping(s.take(m), p, n) == dropping(s, p, n),
    decreases n,
{
    if n > 0 {
        lemma_dropping_prefix(s, p, m, n - 1);
        assert(s.take(m)[n - 1] == s[n - 1]);
    }
}

/// The segments kept among the first `m` equal what dropping keeps of
/// them; helper for the laws below.
proof fn lemma_kept_prefix(s: Seq<VideoSegment>, rate_milli: i64, m: int)
    requires
        0 <= m <= s.len(),
        1000 < rate_milli <= 4000,
    ensures
        kept_segments(s.take(m), rate_milli) == dropping(s, drop_policy_for(rate_milli), m).0,
{
    lemma_dropping_prefix(s, drop_policy_for(rate_milli), m, m);
}

proof fn lemma_keyframes_only_non_key_step(s: Seq<VideoSegment>, j: int)
    requires
        0 <= j < s.len(),
        !s[j].is_key_frame,
    ensures
        keyframes_only(s.take(j + 1)) == keyframes_only(s.take(j)),
{
    assert(s.take(j + 1) =~= s.take(j).push(s[j]));
    s.take(j).lemma_filter_push(s[j], |v: VideoSegment| v.is_key_frame);
}

proof fn lemma_dropping_step(s: Seq<VideoSegment>, p: FrameDropPolicy, j: int)
    requires
        0 <= j < s.len(),
        !s[j].is_key_frame,
    ensures
        dropping(s, p, j + 1).1 == dropping(s, p, j).1,
        dropping(s, p, j + 1).0.len() == dropping(s, p, j).0.len() + keep_count(
            p,
            j - match dropping(s, p, j).1 {
                Some(l) => l,
                None => 0,
            },
        ),
{
}

/// One when a non-key frame at `distance` is kept, else zero.
spec fn keep_count(p: FrameDropPolicy, distance: int) -> int {
    if keeps_frame(p, distance) {
        1
    } else {
        0
    }
}

proof fn lemma_keep_counts(p: FrameDropPolicy, d: int)
    ensures
        p.drop_b_frames && p.drop_p_frames ==> keep_count(p, d) + keep_count(p, d + 1) + keep_count(
            p,
            d + 2,
        ) + keep_count(p, d + 3) == 1,
        p.drop_b_frames && !p.drop_p_frames ==> keep_count(p, d) + keep_count(p, d + 1) + keep_count(
            p,
            d + 2,
        ) == 2,
{
}

#[verifier::spinoff_prover]
proof fn lemma_dropping_four_steps(s: Seq<VideoSegment>, p: FrameDropPolicy, i: int)
    requires
        0 <= i,
        i + 4 <= s.len(),
        forall|k: int| i <= k < i + 4 ==> !(#[trigger] s[k]).is_key_frame,
    ensures
        ({
            let l = match dropping(s, p, i).1 {
                Some(l) => l,
                None => 0,
            };
            let n = dropping(s, p, i).0.len();
            &&& dropping(s, p, i + 3).0.len() == n + keep_count(p, i - l) + keep_count(p, i + 1 - l)
                + keep_count(p, i + 2 - l)
            &&& dropping(s, p, i + 4).0.len() == n + keep_count(p, i - l) + keep_count(p, i + 1 - l)
                + keep_count(p, i + 2 - l) + keep_count(p, i + 3 - l)
        }),
{
    assert(!s[i].is_key_frame && !s[i + 1].is_key_frame);
    assert(!s[i + 2].is_key_frame && !s[i + 3].is_key_frame);
    lemma_dropping_step(s, p, i);
    lemma_dropping_step(s, p, i + 1);
    lemma_dropping_step(s, p, i + 2);
    lemma_dropping_step(s, p, i + 3);
}

/// Law: in a run of four frames without a keyframe, nothing is dropped up
/// to normal speed; between 1x and 2x (B frames dropped) exactly two of
/// any three consecutive frames are transmitted; between 2x and 4x (B and
/// P frames dropped) exactly one of the four; beyond 4x none.
#[verifier::spinoff_prover]
pub proof fn lemma_dropping_rhythm(s: Seq<VideoSegment>, rate_milli: i64, i: int)
    requires
        0 <= i,
        i + 4 <= s.len(),
        forall|k: int| i <= k < i + 4 ==> !(#[trigger] s[k]).is_key_frame,
    ensures
        rate_milli <= 1000 ==> kept_segments(s.take(i + 4), rate_milli).len() == kept_segments(
            s.take(i),
            rate_milli,
        ).len() + 4,
        1000 < rate_milli <= 2000 ==> kept_segments(s.take(i + 3), rate_milli).len()
            == kept_segments(s.take(i), rate_milli).len() + 2,
        2000 < rate_milli <= 4000 ==> kept_segments(s.take(i + 4), rate_milli).len()
            == kept_segments(s.take(i), rate_milli).len() + 1,
        rate_milli > 4000 ==> kept_segments(s.take(i + 4), rate_milli) == kept_segments(
            s.take(i),
            rate_milli,
        ),
{
    if 1000 < rate_milli <= 4000 {
        let p = drop_policy_for(rate_milli);
        lemma_kept_prefix(s, rate_milli, i);
        lemma_kept_prefix(s, rate_milli, i + 3);
        lemma_kept_prefix(s, rate_milli, i + 4);
        lemma_dropping_four_steps(s, p, i);
        let l = match dropping(s, p, i).1 {
            Some(l) => l,
            None => 0,
        };
        lemma_keep_counts(p, i - l);
    } else if rate_milli > 4000 {
        lemma_keyframes_only_non_key_step(s, i);
        lemma_keyframes_only_non_key_step(s, i + 1);
        lemma_keyframes_only_non_key_step(s, i + 2);
        lemma_keyframes_only_non_key_step(s, i + 3);
    }
}

proof fn lemma_dropping_after_first_keyframe(s: Seq<VideoSegment>, p: FrameDropPolicy, j: int)
    requires
        1 <= j <= s.len(),
        s[0].is_key_frame,
        forall|k: int| 1 <= k < j ==> !(#[trigger] s[k]).is_key_frame,
    ensures
        dropping(s, p, j).1 == Some(0int),
    decreases j,
{
    if j > 1 {
        lemma_dropping_after_first_keyframe(s, p, j - 1);
        assert(!s[j - 1].is_key_frame);
    } else {
        assert(dropping(s, p, 0).0.len() == 0);
    }
}

/// Law: after a keyframe at the start, the non-key frame j frames later is
/// transmitted up to normal speed always; between 1x and 2x unless j % 3
/// is 2; between 2x and 4x exactly when j % 4 is 1; beyond 4x never. A
/// transmitted frame comes last among those kept so far.
pub proof fn lemma_dropping_after_keyframe(s: Seq<VideoSegment>, rate_milli: i64, j: int)
    requires
        1 <= j < s.len(),
        s[0].is_key_frame,
        forall|k: int| 1 <= k <= j ==> !(#[trigger] s[k]).is_key_frame,
    ensures
        ({
            let before = kept_segments(s.take(j), rate_milli);
            let after = kept_segments(s.take(j + 1), rate_milli);
            let kept = if rate_milli <= 1000 {
                true
            } else if rate_milli <= 2000 {
                j % 3 != 2
            } else if rate_milli <= 4000 {
                j % 4 == 1
            } else {
                false
            };
            &&& kept ==> after == before.push(s[j])
            &&& !kept ==> after == before
        }),
{
    if 1000 < rate_milli <= 4000 {
        let p = drop_policy_for(rate_milli);
        lemma_kept_prefix(s, rate_milli, j);
        lemma_kept_prefix(s, rate_milli, j + 1);
        lemma_dropping_after_first_keyframe(s, p, j);
    } else if rate_milli > 4000 {
        lemma_keyframes_only_non_key_step(s, j);
    } else {
        assert(s.take(j + 1) =~= s.take(j).push(s[j]));
    }
}

} // verus!
