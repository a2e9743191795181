//! Frame-rate detection from presentation timestamps.
//!
//! Frame rates are in thousandths of a frame per second and confidences in
//! thousandths (`950` is 0.95). The detector keeps the most recent samples,
//! takes the forward intervals between consecutive timestamps that lie
//! strictly between 8 ms and 200 ms (5 to 125 fps), and derives the rate
//! from their mean and a confidence from their coefficient of variation.

use vstd::prelude::*;
use crate::text::{decimal_of, push_decimal};
use vstd::string::StringExecFns;
use crate::timestamp::{frame_duration_for, frame_duration_from_fps_milli};

verus! {

/// How a frame rate was obtained.
#[derive(Debug, Clone, Copy, PartialEq, Eq, Structural)]
pub enum DetectionMethod {
    /// From the H.264 sequence parameter set.
    FromSPS,
    /// From timestamp analysis.
    FromTimestamp,
    /// The default rate.
    Default,
}

/// A detected frame rate.
#[derive(Debug, Clone, Copy)]
pub struct FrameRateInfo {
    /// Frames per second, in thousandths.
    pub fps_milli: u64,
    /// Duration of one frame (microseconds).
    pub frame_duration_us: u64,
    /// Whether the rate is variable.
    pub is_variable: bool,
    pub detection_method: DetectionMethod,
    /// Confidence in thousandths (0 to 1000).
    pub confidence_milli: u32,
}

/// Default frame rate: 30 fps.
pub const DEFAULT_FPS_MILLI: u64 = 30_000;

/// Confidence of the default frame rate.
pub const DEFAULT_CONFIDENCE_MILLI: u32 = 500;

/// Samples needed before a detection is attempted.
pub const MIN_SAMPLES: usize = 10;

/// Samples kept by a detector made with `new`.
pub const DEFAULT_MAX_SAMPLES: usize = 20;

impl FrameRateInfo {
    /// Frame-rate information; the frame duration follows from the rate
    /// (30 fps when the rate is zero).
    pub fn new(fps_milli: u64, detection_method: DetectionMethod, confidence_milli: u32) -> (r: Self)
        ensures
            r.fps_milli == fps_milli,
            r.frame_duration_us == frame_duration_for(fps_milli),
            !r.is_variable,
            r.detection_method == detection_method,
            r.confidence_milli == confidence_milli,
    {
        FrameRateInfo {
            fps_milli,
            frame_duration_us: frame_duration_from_fps_milli(fps_milli),
            is_variable: false,
            detection_method,
            confidence_milli,
        }
    }

    /// 30 fps by default, with confidence 0.5.
    pub fn default_fps() -> (r: Self)
        ensures
            r.fps_milli == DEFAULT_FPS_MILLI,
            r.frame_duration_us == 33_333,
            !r.is_variable,
            r.detection_method == DetectionMethod::Default,
            r.confidence_milli == DEFAULT_CONFIDENCE_MILLI,
    {
        Self::new(DEFAULT_FPS_MILLI, DetectionMethod::Default, DEFAULT_CONFIDENCE_MILLI)
    }
}

/// A timestamp sample.
#[derive(Debug, Clone, Copy)]
pub struct TimestampSample {
    /// Presentation timestamp (microseconds).
    pub pts: u64,
    /// When the sample arrived (microseconds since the epoch).
    pub receive_time_us: u64,
}

/// An interval that belongs to a plausible frame rate (5 to 125 fps).
pub open spec fn is_valid_interval(iv: int) -> bool {
    8_000 < iv < 200_000
}

/// The usable intervals among the first `k` samples: each forward step
/// between consecutive timestamps that is a valid interval, in order.
pub open spec fn intervals_upto(s: Seq<TimestampSample>, k: int) -> Seq<int>
    decreases k,
{
    if k <= 1 {
        seq![]
    } else {
        let prev = intervals_upto(s, k - 1);
        let iv = s[k - 1].pts - s[k - 2].pts;
        if s[k - 1].pts > s[k - 2].pts && is_valid_interval(iv) {
            prev.push(iv)
        } else {
            prev
        }
    }
}

/// The usable intervals of a sample history.
pub open spec fn intervals(s: Seq<TimestampSample>) -> Seq<int> {
    intervals_upto(s, s.len() as int)
}

pub open spec fn seq_sum(v: Seq<int>) -> int
    decreases v.len(),
{
    if v.len() == 0 {
        0
    } else {
        seq_sum(v.drop_last()) + v.last()
    }
}

pub open spec fn seq_sum_sq(v: Seq<int>) -> int
    decreases v.len(),
{
    if v.len() == 0 {
        0
    } else {
        seq_sum_sq(v.drop_last()) + v.last() * v.last()
    }
}

/// The rate (thousandths of fps) whose frame duration is the mean interval.
pub open spec fn fps_milli_of(ivs: Seq<int>) -> int {
    (ivs.len() as int) * 1_000_000_000 / seq_sum(ivs)
}

/// Confidence from the coefficient of variation `cv` of the intervals:
/// 0.95 when cv < 0.05, 0.80 when cv < 0.10, 0.60 when cv < 0.20, else
/// 0.40. With `n` intervals of sum `s` and sum of squares `q`, the squared
/// coefficient is `(n q - s^2) / s^2`, so `cv < 1/k` is `k^2 n q < (k^2 + 1) s^2`.
pub open spec fn confidence_of(ivs: Seq<int>) -> u32 {
    let n = ivs.len() as int;
    let s = seq_sum(ivs);
    let q = seq_sum_sq(ivs);
    if 400 * n * q < 401 * s * s {
        950
    } else if 100 * n * q < 101 * s * s {
        800
    } else if 25 * n * q < 26 * s * s {
        600
    } else {
        400
    }
}

/// What a detection over the history `s` yields: `None` with fewer than
/// ten samples or no usable interval, else the rate and the confidence.
pub open spec fn detection(s: Seq<TimestampSample>) -> Option<(u64, u32)> {
    if s.len() < MIN_SAMPLES || intervals(s).len() == 0 {
        None
    } else {
        Some((fps_milli_of(intervals(s)) as u64, confidence_of(intervals(s))))
    }
}

/// Whether the rate moved by more than 10% from `prev` to `cur`.
pub open spec fn fps_changed(prev: Option<u64>, cur: Option<u64>) -> bool {
    match (prev, cur) {
        (Some(p), Some(c)) => {
            let diff = if c >= p { c - p } else { p - c };
            10 * diff > p
        },
        _ => false,
    }
}

/// The last `max` entries of `v` (all of it when it is not longer).
pub open spec fn keep_last<T>(v: Seq<T>, max: int) -> Seq<T> {
    if v.len() > max {
        v.subrange(v.len() - max, v.len() as int)
    } else {
        v
    }
}

/// Detects the frame rate of a stream from its timestamps.
pub struct FrameRateDetector {
    /// The detected rate (thousandths of fps).
    pub detected_fps_milli: Option<u64>,
    /// The most recent samples, oldest first.
    pub timestamp_history: Vec<TimestampSample>,
    /// Confidence of the detected rate (thousandths).
    pub confidence_milli: u32,
    /// Samples kept.
    pub max_samples: usize,
    /// The rate detected before the current one, for change detection.
    pub previous_fps_milli: Option<u64>,
}

proof fn lemma_intervals_bounds(s: Seq<TimestampSample>, k: int)
    requires
        0 <= k <= s.len(),
    ensures
        intervals_upto(s, k).len() <= k,
        seq_sum(intervals_upto(s, k)) <= 200_000 * intervals_upto(s, k).len(),
        seq_sum(intervals_upto(s, k)) >= 8_000 * intervals_upto(s, k).len(),
        seq_sum_sq(intervals_upto(s, k)) <= 40_000_000_000 * intervals_upto(s, k).len(),
    decreases k,
{
    if k > 1 {
        lemma_intervals_bounds(s, k - 1);
        let prev = intervals_upto(s, k - 1);
        let iv = s[k - 1].pts - s[k - 2].pts;
        if s[k - 1].pts > s[k - 2].pts && is_valid_interval(iv) {
            let cur = prev.push(iv);
            assert(cur.drop_last() =~= prev);
            assert(iv * iv <= 40_000_000_000) by (nonlinear_arith)
                requires
                    0 < iv < 200_000,
            ;
        }
    }
}

impl FrameRateDetector {
    /// A detector that keeps the last 20 samples.
    pub fn new() -> (d: Self)
        ensures
            d.detected_fps_milli.is_none(),
            d.timestamp_history@.len() == 0,
            d.confidence_milli == 0,
            d.max_samples == DEFAULT_MAX_SAMPLES,
            d.previous_fps_milli.is_none(),
    {
        Self::with_max_samples(DEFAULT_MAX_SAMPLES)
    }

    /// A detector that keeps the last `max_samples` samples.
    pub fn with_max_samples(max_samples: usize) -> (d: Self)
        ensures
            d.detected_fps_milli.is_none(),
            d.timestamp_history@.len() == 0,
            d.confidence_milli == 0,
            d.max_samples == max_samples,
            d.previous_fps_milli.is_none(),
    {
        FrameRateDetector {
            detected_fps_milli: None,
            timestamp_history: Vec::new(),
            confidence_milli: 0,
            max_samples,
            previous_fps_milli: None,
        }
    }

    /// The detected rate, if any: from timestamps when samples are held,
    /// else reported as the default method.
    pub fn get_frame_rate(&self) -> (r: Option<FrameRateInfo>)
        ensures
            match self.detected_fps_milli {
                None => r.is_none(),
                Some(fps) => r matches Some(info) && info.fps_milli == fps
                    && info.frame_duration_us == frame_duration_for(fps) && !info.is_variable
                    && info.confidence_milli == self.confidence_milli && info.detection_method == (
                if self.timestamp_history@.len() == 0 {
                    DetectionMethod::Default
                } else {
                    DetectionMethod::FromTimestamp
                }),
            },
    {
        match self.detected_fps_milli {
            None => None,
            Some(fps) => {
                let method = if self.timestamp_history.len() == 0 {
                    DetectionMethod::Default
                } else {
                    DetectionMethod::FromTimestamp
                };
                Some(FrameRateInfo::new(fps, method, self.confidence_milli))
            },
        }
    }

    /// The detected rate (thousandths of fps).
    pub fn get_fps(&self) -> (r: Option<u64>)
        ensures
            r == self.detected_fps_milli,
    {
        self.detected_fps_milli
    }

    /// Confidence of the detected rate (thousandths).
    pub fn get_confidence(&self) -> (r: u32)
        ensures
            r == self.confidence_milli,
    {
        self.confidence_milli
    }

    /// Whether the detected rate differs by more than 10% from the
    /// previous one; false when either is unknown.
    pub fn has_frame_rate_changed(&self) -> (r: bool)
        ensures
            r == fps_changed(self.previous_fps_milli, self.detected_fps_milli),
    {
        match (self.previous_fps_milli, self.detected_fps_milli) {
            (Some(prev), Some(current)) => {
                let diff = if current >= prev {
                    current - prev
                } else {
                    prev - current
                };
                (diff as u128) * 10 > prev as u128
            },
            _ => false,
        }
    }

    /// Clears the samples and the detected rate and its confidence.
    pub fn reset(&mut self)
        ensures
            final(self).timestamp_history@.len() == 0,
            final(self).detected_fps_milli.is_none(),
            final(self).confidence_milli == 0,
            final(self).max_samples == old(self).max_samples,
            final(self).previous_fps_milli == old(self).previous_fps_milli,
    {
        self.timestamp_history.clear();
        self.detected_fps_milli = None;
        self.confidence_milli = 0;
    }

    /// Records a sample, keeps the last `max_samples` ones, and with at
    /// least ten of them updates the detected rate when a detection
    /// succeeds.
    pub fn add_timestamp_sample(&mut self, pts: u64, receive_time_us: u64)
        requires
            old(self).timestamp_history@.len() < u32::MAX,
        ensures
            final(self).timestamp_history@ == keep_last(
                old(self).timestamp_history@.push(TimestampSample { pts, receive_time_us }),
                old(self).max_samples as int,
            ),
            final(self).max_samples == old(self).max_samples,
            final(self).timestamp_history@.len() <= final(self).max_samples,
            match detection(final(self).timestamp_history@) {
                Some((fps, conf)) => {
                    &&& final(self).detected_fps_milli == Some(fps)
                    &&& final(self).confidence_milli == conf
                    &&& final(self).previous_fps_milli == old(self).detected_fps_milli
                },
                None => {
                    &&& final(self).detected_fps_milli == old(self).detected_fps_milli
                    &&& final(self).confidence_milli == old(self).confidence_milli
                    &&& final(self).previous_fps_milli == old(self).previous_fps_milli
                },
            },
    {
        self.timestamp_history.push(TimestampSample { pts, receive_time_us });
        let ghost full = self.timestamp_history@;
        let ghost removed: int = 0;
        while self.timestamp_history.len() > self.max_samples
            invariant
                self.max_samples == old(self).max_samples,
                full == old(self).timestamp_history@.push(TimestampSample { pts, receive_time_us }),
                0 <= removed <= full.len(),
                full.len() > self.max_samples ==> removed <= full.len() - self.max_samples,
                full.len() <= self.max_samples ==> removed == 0,
                self.timestamp_history@ == full.subrange(removed, full.len() as int),
                self.detected_fps_milli == old(self).detected_fps_milli,
                self.confidence_milli == old(self).confidence_milli,
                self.previous_fps_milli == old(self).previous_fps_milli,
            decreases self.timestamp_history@.len(),
        {
            self.timestamp_history.remove(0);
            proof {
                assert(self.timestamp_history@ =~= full.subrange(removed + 1, full.len() as int));
                removed = removed + 1;
            }
        }
        assert(self.timestamp_history@ =~= keep_last(full, self.max_samples as int));
        if self.timestamp_history.len() >= MIN_SAMPLES {
            match self.detect_from_timestamps() {
                Ok(info) => {
                    self.update_detected_fps(info.fps_milli, info.confidence_milli);
                },
                Err(_) => {},
            }
        }
    }

    /// Detects the rate from the held samples. Fails with fewer than ten
    /// samples or when no interval between them is usable.
    pub fn detect_from_timestamps(&self) -> (r: Result<FrameRateInfo, String>)
        requires
            self.timestamp_history@.len() <= u32::MAX,
        ensures
            self.timestamp_history@.len() < MIN_SAMPLES ==> (r matches Err(m) && m@
                == insufficient_samples_text(self.timestamp_history@.len())),
            self.timestamp_history@.len() >= MIN_SAMPLES && intervals(self.timestamp_history@).len()
                == 0 ==> (r matches Err(m) && m@ == "No valid intervals found"@),
            match detection(self.timestamp_history@) {
                None => r.is_err(),
                Some((fps, conf)) => r matches Ok(info) && info.fps_milli == fps
                    && info.confidence_milli == conf && info.detection_method
                    == DetectionMethod::FromTimestamp && info.frame_duration_us
                    == frame_duration_for(fps) && !info.is_variable,
            },
    {
        let n = self.timestamp_history.len();
        if n < MIN_SAMPLES {
            return Err(insufficient_samples_message(n));
        }
        let ghost s = self.timestamp_history@;
        let mut count: u128 = 0;
        let mut sum: u128 = 0;
        let mut sum_sq: u128 = 0;
        let mut i: usize = 1;
        proof {
            lemma_intervals_bounds(s, 1);
        }
        while i < n
            invariant
                s == self.timestamp_history@,
                n == s.len(),
                n <= u32::MAX,
                1 <= i <= n,
                count == intervals_upto(s, i as int).len(),
                sum == seq_sum(intervals_upto(s, i as int)),
                sum_sq == seq_sum_sq(intervals_upto(s, i as int)),
                count <= i,
                sum <= 200_000 * count,
                sum >= 8_000 * count,
                sum_sq <= 40_000_000_000 * count,
            decreases n - i,
        {
            let prev_pts = self.timestamp_history[i - 1].pts;
            let curr_pts = self.timestamp_history[i].pts;
            proof {
                lemma_intervals_bounds(s, i + 1);
                let iv = curr_pts - prev_pts;
                if curr_pts > prev_pts && is_valid_interval(iv) {
                    assert(intervals_upto(s, i + 1).drop_last() =~= intervals_upto(s, i as int));
                }
            }
            if curr_pts > prev_pts {
                let interval = curr_pts - prev_pts;
                if interval > 8_000 && interval < 200_000 {
                    count = count + 1;
                    sum = sum + interval as u128;
                    sum_sq = sum_sq + (interval as u128) * (interval as u128);
                }
            }
            i = i + 1;
        }
        if count == 0 {
            return Err(no_valid_intervals_message());
        }
        let ghost ivs = intervals(s);
        assert(count * sum_sq <= 0x1_0000_0000 * 0x1_0000_0000 * 40_000_000_000) by (nonlinear_arith)
            requires
                count <= 0x1_0000_0000,
                sum_sq <= 40_000_000_000 * count,
        ;
        assert(sum * sum <= 0x1_0000_0000 * 0x1_0000_0000 * 40_000_000_000) by (nonlinear_arith)
            requires
                count <= 0x1_0000_0000,
                sum <= 200_000 * count,
        ;
        assert((count as int) * 1_000_000_000 / (sum as int) <= 125_000) by (nonlinear_arith)
            requires
                count > 0,
                sum >= 8_000 * count,
        {
            assert(count * 1_000_000_000 <= 125_000 * sum);
        }
        let fps_milli = (count * 1_000_000_000 / sum) as u64;
        let nq = count * sum_sq;
        let ss = sum * sum;
        let confidence: u32 = if 400 * nq < 401 * ss {
            950
        } else if 100 * nq < 101 * ss {
            800
        } else if 25 * nq < 26 * ss {
            600
        } else {
            400
        };
        assert(400 * count * sum_sq == 400 * nq && 100 * count * sum_sq == 100 * nq && 25 * count
            * sum_sq == 25 * nq) by (nonlinear_arith)
            requires
                nq == count * sum_sq,
        ;
        assert(401 * sum * sum == 401 * ss && 101 * sum * sum == 101 * ss && 26 * sum * sum == 26
            * ss) by (nonlinear_arith)
            requires
                ss == sum * sum,
        ;
        Ok(FrameRateInfo::new(fps_milli, DetectionMethod::FromTimestamp, confidence))
    }

    /// Detection from the sequence parameter set is not available: always
    /// fails.
    pub fn detect_from_sps(&self, sps_data: &[u8]) -> (r: Result<FrameRateInfo, String>)
        ensures
            r matches Err(m) && m@ == "SPS parsing not implemented yet"@,
    {
        Err(sps_unsupported_message())
    }

    /// The detected rate, or 30 fps by default.
    pub fn get_frame_rate_or_default(&self) -> (r: FrameRateInfo)
        ensures
            match self.detected_fps_milli {
                None => r.fps_milli == DEFAULT_FPS_MILLI && r.detection_method
                    == DetectionMethod::Default && r.confidence_milli == DEFAULT_CONFIDENCE_MILLI,
                Some(fps) => r.fps_milli == fps && r.confidence_milli == self.confidence_milli,
            },
            r.frame_duration_us == frame_duration_for(r.fps_milli),
    {
        match self.get_frame_rate() {
            Some(info) => info,
            None => FrameRateInfo::default_fps(),
        }
    }

    /// Stores a new rate; the rate detected so far becomes the previous
    /// rate.
    fn update_detected_fps(&mut self, new_fps_milli: u64, confidence_milli: u32)
        ensures
            final(self).detected_fps_milli == Some(new_fps_milli),
            final(self).confidence_milli == confidence_milli,
            final(self).previous_fps_milli == old(self).detected_fps_milli,
            final(self).timestamp_history == old(self).timestamp_history,
            final(self).max_samples == old(self).max_samples,
    {
        self.previous_fps_milli = self.detected_fps_milli;
        self.detected_fps_milli = Some(new_fps_milli);
        self.confidence_milli = confidence_milli;
    }
}

impl Default for FrameRateDetector {
    fn default() -> (d: Self)
        ensures
            d.detected_fps_milli.is_none(),
            d.timestamp_history@.len() == 0,
            d.confidence_milli == 0,
            d.max_samples == DEFAULT_MAX_SAMPLES,
            d.previous_fps_milli.is_none(),
    {
        Self::new()
    }
}

/// Law: a detected rate lies between 5 and 125 fps, and its confidence is
/// one of 0.95, 0.80, 0.60 and 0.40.
pub proof fn lemma_detection_in_range(s: Seq<TimestampSample>)
    requires
        detection(s).is_some(),
    ensures
        5_000 <= detection(s).unwrap().0 <= 125_000,
        detection(s).unwrap().1 == 950 || detection(s).unwrap().1 == 800
            || detection(s).unwrap().1 == 600 || detection(s).unwrap().1 == 400,
{
    let ivs = intervals(s);
    lemma_intervals_bounds(s, s.len() as int);
    let n = ivs.len() as int;
    let sum = seq_sum(ivs);
    assert(5_000 <= n * 1_000_000_000 / sum <= 125_000) by (nonlinear_arith)
        requires
            n > 0,
            8_000 * n <= sum <= 200_000 * n,
    {
        assert(n * 1_000_000_000 <= 125_000 * sum);
        assert(5_000 * sum <= n * 1_000_000_000);
        assert(sum > 0);
    }
}

/// The history whose timestamps advance by exactly `d` from one sample to
/// the next.
pub open spec fn steady(s: Seq<TimestampSample>, d: int) -> bool {
    forall|i: int| 1 <= i < s.len() ==> #[trigger] s[i].pts == s[i - 1].pts + d
}

proof fn lemma_steady_intervals(s: Seq<TimestampSample>, d: int, k: int)
    requires
        steady(s, d),
        is_valid_interval(d),
        1 <= k <= s.len(),
    ensures
        intervals_upto(s, k) == Seq::new((k - 1) as nat, |i: int| d),
        seq_sum(intervals_upto(s, k)) == (k - 1) * d,
        seq_sum_sq(intervals_upto(s, k)) == (k - 1) * (d * d),
    decreases k,
{
    if k > 1 {
        lemma_steady_intervals(s, d, k - 1);
        assert(s[k - 1].pts == s[k - 2].pts + d);
        let prev = intervals_upto(s, k - 1);
        assert(prev.push(d) =~= Seq::new((k - 1) as nat, |i: int| d));
        assert(prev.push(d).drop_last() =~= prev);
        assert((k - 2) * (d * d) + d * d == (k - 1) * (d * d)) by (nonlinear_arith);
        assert((k - 2) * d + d == (k - 1) * d) by (nonlinear_arith);
    }
}

/// Law: at least ten samples that advance by a steady valid interval `d`
/// give the rate whose frame lasts `d`, with the highest confidence.
pub proof fn lemma_steady_stream_detection(s: Seq<TimestampSample>, d: int)
    requires
        s.len() >= MIN_SAMPLES,
        steady(s, d),
        is_valid_interval(d),
    ensures
        detection(s) == Some(((1_000_000_000int / d) as u64, 950u32)),
{
    lemma_steady_intervals(s, d, s.len() as int);
    let m = s.len() - 1;
    let ivs = intervals(s);
    assert(ivs.len() == m);
    assert(m * 1_000_000_000 / (m * d) == 1_000_000_000int / d) by {
        vstd::arithmetic::div_mod::lemma_div_multiples_vanish_quotient(m, 1_000_000_000, d);
    }
    assert(400 * m * (m * (d * d)) < 401 * (m * d) * (m * d)) by (nonlinear_arith)
        requires
            m > 0,
            d > 0,
    {
        assert((m * d) * (m * d) == m * (m * (d * d)));
    }
}

/// `Insufficient samples: N (need at least 10)`.
pub open spec fn insufficient_samples_text(n: nat) -> Seq<char> {
    "Insufficient samples: "@ + decimal_of(n) + " (need at least 10)"@
}

fn insufficient_samples_message(n: usize) -> (s: String)
    ensures
        s@ == insufficient_samples_text(n as nat),
{
    let mut s = "Insufficient samples: ".to_owned();
    push_decimal(&mut s, n as u64);
    s.append(" (need at least 10)");
    s
}

fn no_valid_intervals_message() -> (s: String)
    ensures
        s@ == "No valid intervals found"@,
{
    "No valid intervals found".to_owned()
}

fn sps_unsupported_message() -> (s: String)
    ensures
        s@ == "SPS parsing not implemented yet"@,
{
    "SPS parsing not implemented yet".to_owned()
}

} // verus!
