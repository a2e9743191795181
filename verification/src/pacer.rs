//! Pacing of segment sends: how long to wait before the next segment so
//! that playback runs at the target frame rate times the playback rate.
//!
//! Frame rates and playback rates are in thousandths (`30_000` is 30 fps,
//! `1000` is normal speed); times are in microseconds on a monotonic clock
//! that the caller reads.

use vstd::prelude::*;
use vstd::string::StringExecFns;
use crate::text::{push_signed_decimal, signed_decimal_of};
use crate::timestamp::{frame_duration_for, frame_duration_from_fps_milli};

verus! {

/// Slowest playback rate (0.25x).
pub const MIN_PLAYBACK_RATE_MILLI: i64 = 250;

/// Fastest playback rate (4x).
pub const MAX_PLAYBACK_RATE_MILLI: i64 = 4_000;

/// Normal speed.
pub const NORMAL_RATE_MILLI: u64 = 1_000;

/// Controls the send rate of video segments.
#[derive(Debug, Clone, Copy)]
pub struct FrameRatePacer {
    /// Target frame rate (thousandths of fps).
    pub target_fps_milli: u64,
    /// Playback rate (thousandths).
    pub playback_rate_milli: u64,
    /// When the last segment was sent (microseconds), if one was.
    pub last_send_time_us: Option<u64>,
    /// Duration of one frame at the target rate (microseconds).
    pub base_frame_interval_us: u64,
}

/// Whether `rate` is an accepted playback rate.
pub open spec fn valid_rate(rate: int) -> bool {
    MIN_PLAYBACK_RATE_MILLI <= rate <= MAX_PLAYBACK_RATE_MILLI
}

/// The delay (microseconds, rounded down) for `frames` frames at
/// `fps_milli` and playback rate `rate_milli`:
/// `frames / fps / rate` seconds.
pub open spec fn send_delay_us(frames: int, fps_milli: int, rate_milli: int) -> int {
    frames * 1_000_000_000_000 / (fps_milli * rate_milli)
}

/// How long to wait after `elapsed` microseconds for a delay of `target`:
/// the rest of the delay, or nothing when it has passed.
pub open spec fn remaining_wait(target: int, elapsed: Option<int>) -> int {
    match elapsed {
        Some(e) => if e < target {
            target - e
        } else {
            0
        },
        None => 0,
    }
}

/// Microseconds since `last` at `now` (zero if the clock reads earlier).
pub open spec fn elapsed_since(last: Option<u64>, now: u64) -> Option<int> {
    match last {
        Some(t) => Some(if now >= t {
            now - t
        } else {
            0
        }),
        None => None,
    }
}

impl FrameRatePacer {
    /// A pacer at normal speed that has sent nothing yet.
    pub fn new(target_fps_milli: u64) -> (p: Self)
        ensures
            p.target_fps_milli == target_fps_milli,
            p.playback_rate_milli == NORMAL_RATE_MILLI,
            p.last_send_time_us.is_none(),
            p.base_frame_interval_us == frame_duration_for(target_fps_milli),
    {
        FrameRatePacer {
            target_fps_milli,
            playback_rate_milli: NORMAL_RATE_MILLI,
            last_send_time_us: None,
            base_frame_interval_us: frame_duration_from_fps_milli(target_fps_milli),
        }
    }

    pub fn target_fps(&self) -> (r: u64)
        ensures
            r == self.target_fps_milli,
    {
        self.target_fps_milli
    }

    pub fn playback_rate(&self) -> (r: u64)
        ensures
            r == self.playback_rate_milli,
    {
        self.playback_rate_milli
    }

    pub fn base_frame_interval_us(&self) -> (r: u64)
        ensures
            r == self.base_frame_interval_us,
    {
        self.base_frame_interval_us
    }

    /// The delay before sending a segment of `frames_in_segment` frames.
    pub fn calculate_send_delay(&self, frames_in_segment: u32) -> (d: u64)
        requires
            self.target_fps_milli > 0,
            valid_rate(self.playback_rate_milli as int),
        ensures
            d == send_delay_us(
                frames_in_segment as int,
                self.target_fps_milli as int,
                self.playback_rate_milli as int,
            ),
    {
        let fps = self.target_fps_milli as u128;
        let rate = self.playback_rate_milli as u128;
        let num: u128 = (frames_in_segment as u128) * 1_000_000_000_000;
        assert(fps * rate >= 250) by (nonlinear_arith)
            requires
                fps >= 1,
                rate >= 250,
        ;
        assert(fps * rate <= u64::MAX * 4_000) by (nonlinear_arith)
            requires
                fps <= u64::MAX,
                rate <= 4_000,
        ;
        let den: u128 = fps * rate;
        proof {
            vstd::arithmetic::div_mod::lemma_div_is_ordered_by_denominator(num as int, 250, den as int);
        }
        let q = num / den;
        q as u64
    }

    /// Sets the playback rate; rates outside 0.25x to 4x are refused and
    /// leave the pacer unchanged.
    pub fn set_playback_rate(&mut self, rate_milli: i64) -> (r: Result<(), String>)
        ensures
            r.is_ok() == valid_rate(rate_milli as int),
            r.is_ok() ==> final(self).playback_rate_milli == rate_milli,
            r.is_err() ==> final(self).playback_rate_milli == old(self).playback_rate_milli,
            r.is_err() ==> (r matches Err(m) && m@ == invalid_rate_text(rate_milli as int)),
            final(self).target_fps_milli == old(self).target_fps_milli,
            final(self).last_send_time_us == old(self).last_send_time_us,
            final(self).base_frame_interval_us == old(self).base_frame_interval_us,
    {
        if rate_milli < MIN_PLAYBACK_RATE_MILLI || rate_milli > MAX_PLAYBACK_RATE_MILLI {
            return Err(invalid_rate_message(rate_milli));
        }
        self.playback_rate_milli = rate_milli as u64;
        Ok(())
    }

    /// How long to wait at `now_us` before sending a segment of
    /// `frames_in_segment` frames: the part of the send delay that has not
    /// passed since the last send, nothing before the first send.
    pub fn next_frame_wait(&self, frames_in_segment: u32, now_us: u64) -> (w: u64)
        requires
            self.target_fps_milli > 0,
            valid_rate(self.playback_rate_milli as int),
        ensures
            w == remaining_wait(
                send_delay_us(
                    frames_in_segment as int,
                    self.target_fps_milli as int,
                    self.playback_rate_milli as int,
                ),
                elapsed_since(self.last_send_time_us, now_us),
            ),
    {
        let target = self.calculate_send_delay(frames_in_segment);
        match self.last_send_time_us {
            Some(last) => {
                let elapsed = if now_us >= last {
                    now_us - last
                } else {
                    0
                };
                if elapsed < target {
                    target - elapsed
                } else {
                    0
                }
            },
            None => 0,
        }
    }

    /// Records that a segment was sent at `now_us`.
    pub fn record_send(&mut self, now_us: u64)
        ensures
            final(self).last_send_time_us == Some(now_us),
            final(self).target_fps_milli == old(self).target_fps_milli,
            final(self).playback_rate_milli == old(self).playback_rate_milli,
            final(self).base_frame_interval_us == old(self).base_frame_interval_us,
    {
        self.last_send_time_us = Some(now_us);
    }

    /// Adjustment to network conditions: the pacer keeps its settings.
    pub fn adjust_for_network(&mut self, bandwidth_kbps: u64, buffer_ms: u64)
        ensures
            *final(self) == *old(self),
    {
    }

    /// Sets a new target rate and the matching frame interval.
    pub fn update_target_fps(&mut self, new_fps_milli: u64)
        ensures
            final(self).target_fps_milli == new_fps_milli,
            final(self).base_frame_interval_us == frame_duration_for(new_fps_milli),
            final(self).playback_rate_milli == old(self).playback_rate_milli,
            final(self).last_send_time_us == old(self).last_send_time_us,
    {
        self.target_fps_milli = new_fps_milli;
        self.base_frame_interval_us = frame_duration_from_fps_milli(new_fps_milli);
    }

    /// Forgets the last send time; rates are kept.
    pub fn reset(&mut self)
        ensures
            final(self).last_send_time_us.is_none(),
            final(self).target_fps_milli == old(self).target_fps_milli,
            final(self).playback_rate_milli == old(self).playback_rate_milli,
            final(self).base_frame_interval_us == old(self).base_frame_interval_us,
    {
        self.last_send_time_us = None;
    }
}

/// Law: a faster playback rate never lengthens the delay, and more frames
/// never shorten it.
pub proof fn lemma_send_delay_monotone(frames1: nat, frames2: nat, fps: int, rate1: int, rate2: int)
    requires
        fps > 0,
        0 < rate1 <= rate2,
        frames1 <= frames2,
    ensures
        send_delay_us(frames1 as int, fps, rate2) <= send_delay_us(frames2 as int, fps, rate1),
{
    let n1: int = (frames1 as int) * 1_000_000_000_000;
    let n2: int = (frames2 as int) * 1_000_000_000_000;
    assert(fps * rate1 <= fps * rate2 && 0 < fps * rate1) by (nonlinear_arith)
        requires
            fps > 0,
            0 < rate1 <= rate2,
    ;
    vstd::arithmetic::div_mod::lemma_div_is_ordered_by_denominator(n1, fps * rate1, fps * rate2);
    vstd::arithmetic::div_mod::lemma_div_is_ordered(n1, n2, fps * rate1);
}

/// Law: the wait never exceeds the send delay.
pub proof fn lemma_wait_at_most_delay(target: int, elapsed: Option<int>)
    requires
        target >= 0,
        elapsed matches Some(e) ==> e >= 0,
    ensures
        0 <= remaining_wait(target, elapsed) <= target,
{
}

/// `Invalid playback rate: R thousandths (must be between 250 and 4000)`.
pub open spec fn invalid_rate_text(rate_milli: int) -> Seq<char> {
    "Invalid playback rate: "@ + signed_decimal_of(rate_milli)
        + " thousandths (must be between 250 and 4000)"@
}

fn invalid_rate_message(rate_milli: i64) -> (s: String)
    ensures
        s@ == invalid_rate_text(rate_milli as int),
{
    let mut s = "Invalid playback rate: ".to_owned();
    push_signed_decimal(&mut s, rate_milli);
    s.append(" thousandths (must be between 250 and 4000)");
    s
}

} // verus!
