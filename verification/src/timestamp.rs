//! Timestamp management for video frames.
//!
//! Frame rates are given in thousandths of a frame per second
//! (`30_000` is 30 fps), timestamps in microseconds, and the media clock runs
//! at 90 kHz as H.264 requires.

use vstd::prelude::*;
use vstd::string::StringExecFns;
use crate::text::{decimal_of, push_decimal};

verus! {

/// Frame duration used when no usable frame rate is known (30 fps).
pub const DEFAULT_FRAME_DURATION_US: u64 = 33_333;

/// The H.264 media clock rate.
pub const CLOCK_RATE_90KHZ: u32 = 90_000;

/// A timestamp gap above this many microseconds is a discontinuity.
pub const MAX_GAP_US: u64 = 5_000_000;

/// Duration of one frame in microseconds at `fps_milli` thousandths of a
/// frame per second; a non-positive rate falls back to 30 fps.
pub open spec fn frame_duration_for(fps_milli: u64) -> u64 {
    if fps_milli > 0 {
        (1_000_000_000int / (fps_milli as int)) as u64
    } else {
        DEFAULT_FRAME_DURATION_US
    }
}

/// Computes `frame_duration_for(fps_milli)`.
pub fn frame_duration_from_fps_milli(fps_milli: u64) -> (d: u64)
    ensures
        d == frame_duration_for(fps_milli),
{
    if fps_milli > 0 {
        1_000_000_000 / fps_milli
    } else {
        DEFAULT_FRAME_DURATION_US
    }
}

/// Keeps video frame timestamps monotonic with microsecond precision.
pub struct TimestampManager {
    /// Base timestamp (microseconds).
    pub base_timestamp: u64,
    /// Last timestamp handed out or observed (microseconds).
    pub last_timestamp: u64,
    /// Duration of one frame (microseconds).
    pub frame_duration_us: u64,
    /// Media clock rate (90 kHz).
    pub clock_rate: u32,
    /// Frames generated since the base was set.
    pub frame_count: u64,
}

/// The timestamp that the next call of `generate_next_timestamp` returns.
pub open spec fn next_timestamp(m: TimestampManager) -> int {
    m.base_timestamp + m.frame_count * m.frame_duration_us
}

/// Whether `generate_next_timestamp` can be called without overflow.
pub open spec fn can_generate(m: TimestampManager) -> bool {
    &&& m.frame_count < u64::MAX
    &&& next_timestamp(m) <= u64::MAX
}

/// The state after `generate_next_timestamp`.
pub open spec fn after_generate(m: TimestampManager) -> TimestampManager {
    TimestampManager {
        last_timestamp: next_timestamp(m) as u64,
        frame_count: (m.frame_count + 1) as u64,
        ..m
    }
}

/// The state after `reset_to_base(new_base)`.
pub open spec fn rebased(m: TimestampManager, new_base: u64) -> TimestampManager {
    TimestampManager {
        base_timestamp: new_base,
        last_timestamp: new_base,
        frame_count: 0,
        ..m
    }
}

/// Whether `pts` is not after the last timestamp, once a last timestamp
/// exists.
pub open spec fn not_monotonic(m: TimestampManager, pts: u64) -> bool {
    pts <= m.last_timestamp && m.last_timestamp > 0
}

/// What is wrong with `pts` after the last timestamp, if anything: it does
/// not advance, or it advances by less than half a frame, or by more than
/// three frames. Nothing is checked before a last timestamp exists.
pub open spec fn timestamp_problem(m: TimestampManager, pts: u64) -> Option<Seq<char>> {
    if m.last_timestamp == 0 {
        None
    } else if pts <= m.last_timestamp {
        Some(non_monotonic_text(pts as nat, m.last_timestamp as nat))
    } else if pts - m.last_timestamp < m.frame_duration_us / 2 {
        Some(interval_small_text((pts - m.last_timestamp) as nat, m.frame_duration_us as nat))
    } else if pts - m.last_timestamp > 3 * m.frame_duration_us {
        Some(interval_large_text((pts - m.last_timestamp) as nat, m.frame_duration_us as nat))
    } else {
        None
    }
}

/// Outcome of `handle_discontinuity`: the new state and whether a
/// discontinuity was detected.
pub open spec fn discontinuity_outcome(m: TimestampManager, new_timestamp: u64) -> (
    TimestampManager,
    bool,
) {
    if m.last_timestamp == 0 {
        (TimestampManager { base_timestamp: new_timestamp, last_timestamp: new_timestamp, ..m }, false)
    } else if new_timestamp <= m.last_timestamp {
        (rebased(m, new_timestamp), true)
    } else if new_timestamp - m.last_timestamp > MAX_GAP_US {
        (rebased(m, new_timestamp), true)
    } else {
        (TimestampManager { last_timestamp: new_timestamp, ..m }, false)
    }
}

impl TimestampManager {
    /// Creates a manager for `fps_milli` thousandths of a frame per second.
    pub fn new(fps_milli: u64) -> (m: Self)
        ensures
            m.base_timestamp == 0,
            m.last_timestamp == 0,
            m.frame_duration_us == frame_duration_for(fps_milli),
            m.clock_rate == CLOCK_RATE_90KHZ,
            m.frame_count == 0,
    {
        TimestampManager {
            base_timestamp: 0,
            last_timestamp: 0,
            frame_duration_us: frame_duration_from_fps_milli(fps_milli),
            clock_rate: CLOCK_RATE_90KHZ,
            frame_count: 0,
        }
    }

    /// Creates a manager whose timestamps start at `base_timestamp`.
    pub fn with_base_timestamp(fps_milli: u64, base_timestamp: u64) -> (m: Self)
        ensures
            m.base_timestamp == base_timestamp,
            m.last_timestamp == base_timestamp,
            m.frame_duration_us == frame_duration_for(fps_milli),
            m.clock_rate == CLOCK_RATE_90KHZ,
            m.frame_count == 0,
    {
        let mut manager = Self::new(fps_milli);
        manager.base_timestamp = base_timestamp;
        manager.last_timestamp = base_timestamp;
        manager
    }

    /// Frame duration in microseconds.
    pub fn frame_duration_us(&self) -> (d: u64)
        ensures
            d == self.frame_duration_us,
    {
        self.frame_duration_us
    }

    /// Media clock rate.
    pub fn clock_rate(&self) -> (r: u32)
        ensures
            r == self.clock_rate,
    {
        self.clock_rate
    }

    /// Number of frames generated since the base.
    pub fn frame_count(&self) -> (c: u64)
        ensures
            c == self.frame_count,
    {
        self.frame_count
    }

    /// Last timestamp in microseconds.
    pub fn last_timestamp(&self) -> (t: u64)
        ensures
            t == self.last_timestamp,
    {
        self.last_timestamp
    }

    /// Generates the next timestamp: base plus frame count times frame
    /// duration, then advances the frame count.
    pub fn generate_next_timestamp(&mut self) -> (ts: u64)
        requires
            can_generate(*old(self)),
        ensures
            ts == next_timestamp(*old(self)),
            *final(self) == after_generate(*old(self)),
    {
        let new_timestamp = self.base_timestamp + self.frame_count * self.frame_duration_us;
        self.last_timestamp = new_timestamp;
        self.frame_count = self.frame_count + 1;
        new_timestamp
    }

    /// Checks that `pts` continues the timestamp sequence: it must come
    /// after the last timestamp, by at least half a frame and at most three
    /// frames.
    pub fn validate_timestamp(&self, pts: u64) -> (r: Result<(), String>)
        ensures
            match timestamp_problem(*self, pts) {
                None => r.is_ok(),
                Some(t) => r matches Err(m) && m@ == t,
            },
    {
        if self.last_timestamp == 0 {
            return Ok(());
        }
        if pts <= self.last_timestamp {
            return Err(non_monotonic_message(pts, self.last_timestamp));
        }
        let interval = pts - self.last_timestamp;
        let expected = self.frame_duration_us;
        if interval < expected / 2 {
            return Err(interval_message("Timestamp interval too small: ", interval, expected));
        }
        if (interval as u128) > 3 * (expected as u128) {
            return Err(interval_message("Timestamp interval too large: ", interval, expected));
        }
        Ok(())
    }

    /// Converts a 90 kHz clock value to microseconds.
    pub fn convert_to_microseconds(&self, timestamp_90khz: u64) -> (us: u64)
        requires
            self.clock_rate > 0,
            timestamp_90khz * 1_000_000 <= u64::MAX,
        ensures
            us == us_of_ticks(timestamp_90khz, self.clock_rate),
    {
        (timestamp_90khz * 1_000_000) / (self.clock_rate as u64)
    }

    /// Converts microseconds to the 90 kHz clock.
    pub fn convert_to_90khz(&self, timestamp_us: u64) -> (t: u64)
        requires
            timestamp_us * self.clock_rate <= u64::MAX,
        ensures
            t == ticks_of_us(timestamp_us, self.clock_rate),
    {
        (timestamp_us * (self.clock_rate as u64)) / 1_000_000
    }

    /// Sets the frame duration for a new frame rate.
    pub fn update_frame_rate(&mut self, new_fps_milli: u64)
        ensures
            *final(self) == (TimestampManager {
                frame_duration_us: frame_duration_for(new_fps_milli),
                ..*old(self)
            }),
    {
        self.frame_duration_us = frame_duration_from_fps_milli(new_fps_milli);
    }

    /// Resets base, last timestamp and frame count; keeps the frame rate.
    pub fn reset(&mut self)
        ensures
            *final(self) == rebased(*old(self), 0),
    {
        self.base_timestamp = 0;
        self.last_timestamp = 0;
        self.frame_count = 0;
    }

    /// Restarts the sequence at `new_base`.
    pub fn reset_to_base(&mut self, new_base: u64)
        ensures
            *final(self) == rebased(*old(self), new_base),
    {
        self.base_timestamp = new_base;
        self.last_timestamp = new_base;
        self.frame_count = 0;
    }

    /// Detects a jump in the observed timestamps (backwards, or a gap of more
    /// than five seconds) and resynchronizes on it. The first timestamp seen
    /// sets the base and is no discontinuity.
    pub fn handle_discontinuity(&mut self, new_timestamp: u64) -> (discontinuous: bool)
        ensures
            (*final(self), discontinuous) == discontinuity_outcome(*old(self), new_timestamp),
    {
        if self.last_timestamp == 0 {
            self.base_timestamp = new_timestamp;
            self.last_timestamp = new_timestamp;
            return false;
        }
        if new_timestamp <= self.last_timestamp {
            self.reset_to_base(new_timestamp);
            return true;
        }
        let interval = new_timestamp - self.last_timestamp;
        if interval > MAX_GAP_US {
            self.reset_to_base(new_timestamp);
            return true;
        }
        self.last_timestamp = new_timestamp;
        false
    }
}

/// Microseconds to clock ticks at `clock_rate` Hz, rounding down.
pub open spec fn ticks_of_us(us: u64, clock_rate: u32) -> int {
    (us * clock_rate) / 1_000_000
}

/// Clock ticks at `clock_rate` Hz to microseconds, rounding down.
pub open spec fn us_of_ticks(ticks: u64, clock_rate: u32) -> int {
    (ticks * 1_000_000) / (clock_rate as int)
}

/// Law: consecutive generated timestamps advance by exactly one frame
/// duration, so they strictly increase whenever the duration is positive.
pub proof fn lemma_generated_timestamps_advance(m: TimestampManager)
    requires
        can_generate(m),
    ensures
        next_timestamp(after_generate(m)) == next_timestamp(m) + m.frame_duration_us,
        m.frame_duration_us > 0 ==> next_timestamp(m) < next_timestamp(after_generate(m)),
        after_generate(m).last_timestamp == next_timestamp(m),
{
    let c = m.frame_count as int;
    let d = m.frame_duration_us as int;
    assert((c + 1) * d == c * d + d) by (nonlinear_arith);
}

/// Law: once a discontinuity is detected the manager is resynchronized on
/// the new timestamp, so the next three generated timestamps are the new
/// timestamp followed by one and two frame durations after it.
pub proof fn lemma_resync_after_discontinuity(m: TimestampManager, new_timestamp: u64)
    requires
        discontinuity_outcome(m, new_timestamp).1,
    ensures
        ({
            let s0 = discontinuity_outcome(m, new_timestamp).0;
            let s1 = after_generate(s0);
            let s2 = after_generate(s1);
            &&& s0.frame_count == 0
            &&& s0.base_timestamp == new_timestamp
            &&& s0.last_timestamp == new_timestamp
            &&& next_timestamp(s0) == new_timestamp
            &&& next_timestamp(s1) == new_timestamp + m.frame_duration_us
            &&& next_timestamp(s2) == new_timestamp + 2 * m.frame_duration_us
        }),
{
    let d = m.frame_duration_us as int;
    assert(0 * d == 0 && 1 * d == d && 2 * d == d + d) by (nonlinear_arith);
}

/// Law: microseconds converted to the 90 kHz clock and back come out at
/// most 11 microseconds early and never late, and exactly when they are a
/// multiple of 100.
pub proof fn lemma_us_round_trip(us: u64)
    requires
        us * 90_000 <= u64::MAX,
    ensures
        ({
            let t = ticks_of_us(us, 90_000);
            &&& 0 <= t
            &&& t * 1_000_000 <= u64::MAX
            &&& us - 11 <= us_of_ticks(t as u64, 90_000) <= us
            &&& (us_of_ticks(t as u64, 90_000) == us <==> us % 100 == 0)
        }),
{
    let u = us as int;
    let t = (u * 90_000) / 1_000_000;
    assert(t * 1_000_000 <= u * 90_000 < t * 1_000_000 + 1_000_000) by (nonlinear_arith)
        requires t == (u * 90_000) / 1_000_000, u >= 0;
    let b = (t * 1_000_000) / 90_000;
    assert(b * 90_000 <= t * 1_000_000 < b * 90_000 + 90_000) by (nonlinear_arith)
        requires b == (t * 1_000_000) / 90_000, t >= 0;
    assert(u - 11 <= b <= u) by (nonlinear_arith)
        requires
            t * 1_000_000 <= u * 90_000 < t * 1_000_000 + 1_000_000,
            b * 90_000 <= t * 1_000_000 < b * 90_000 + 90_000;
    let q = u / 100;
    let j = u % 100;
    assert(u == 100 * q + j && 0 <= j < 100);
    assert(100 * t <= 9 * u < 100 * t + 100);
    assert(9 * b <= 100 * t < 9 * b + 9);
    if j == 0 {
        assert(t == 9 * q);
        assert(b == u);
    } else {
        assert(b != u);
    }
}

/// Law: 90 kHz ticks converted to microseconds and back lose at most one
/// tick and never gain one.
pub proof fn lemma_ticks_round_trip(ticks: u64)
    requires
        ticks * 1_000_000 <= u64::MAX,
    ensures
        ({
            let u = us_of_ticks(ticks, 90_000);
            &&& 0 <= u
            &&& u * 90_000 <= u64::MAX
            &&& ticks - 1 <= ticks_of_us(u as u64, 90_000) <= ticks
        }),
{
    let t = ticks as int;
    let u = (t * 1_000_000) / 90_000;
    assert(u * 90_000 <= t * 1_000_000 < u * 90_000 + 90_000) by (nonlinear_arith)
        requires u == (t * 1_000_000) / 90_000, t >= 0;
    let b = (u * 90_000) / 1_000_000;
    assert(b * 1_000_000 <= u * 90_000 < b * 1_000_000 + 1_000_000) by (nonlinear_arith)
        requires b == (u * 90_000) / 1_000_000, u >= 0;
    assert(t - 1 <= b <= t) by (nonlinear_arith)
        requires
            u * 90_000 <= t * 1_000_000 < u * 90_000 + 90_000,
            b * 1_000_000 <= u * 90_000 < b * 1_000_000 + 1_000_000;
}

/// `Timestamp not monotonic: PTS <= PREVIOUS (previous)`.
pub open spec fn non_monotonic_text(pts: nat, previous: nat) -> Seq<char> {
    "Timestamp not monotonic: "@ + decimal_of(pts) + " <= "@ + decimal_of(previous) + " (previous)"@
}

/// `Timestamp interval too small: I us (expected ~D us)`.
pub open spec fn interval_small_text(interval: nat, expected: nat) -> Seq<char> {
    "Timestamp interval too small: "@ + decimal_of(interval) + " us (expected ~"@ + decimal_of(expected)
        + " us)"@
}

/// `Timestamp interval too large: I us (expected ~D us)`.
pub open spec fn interval_large_text(interval: nat, expected: nat) -> Seq<char> {
    "Timestamp interval too large: "@ + decimal_of(interval) + " us (expected ~"@ + decimal_of(expected)
        + " us)"@
}

/// `prefix`, the interval, and the expected interval.
fn interval_message(prefix: &str, interval: u64, expected: u64) -> (s: String)
    ensures
        s@ == prefix@ + decimal_of(interval as nat) + " us (expected ~"@ + decimal_of(expected as nat)
            + " us)"@,
{
    let mut s = prefix.to_owned();
    push_decimal(&mut s, interval);
    s.append(" us (expected ~");
    push_decimal(&mut s, expected);
    s.append(" us)");
    s
}

/// Describes a timestamp that does not advance past the previous one.
fn non_monotonic_message(pts: u64, previous: u64) -> (s: String)
    ensures
        s@ == non_monotonic_text(pts as nat, previous as nat),
{
    let mut s = "Timestamp not monotonic: ".to_owned();
    push_decimal(&mut s, pts);
    s.append(" <= ");
    push_decimal(&mut s, previous);
    s.append(" (previous)");
    s
}

} // verus!
