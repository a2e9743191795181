//! Zero-buffer forwarding of stream sessions: configuration, running
//! statistics, and the decisions the forwarding loop takes for each
//! segment and each source error.
//!
//! Latencies are in microseconds, times in microseconds since the epoch,
//! throughput in thousandths of Mbps.

use vstd::prelude::*;
use crate::sorting::{sort_ascending, sorted_values};
use crate::stream_types::{StreamError, StreamInfo, StreamMode, StreamState, VideoSegment};

verus! {

/// Buffer sizes (milliseconds).
#[derive(Debug, Clone, Copy)]
pub struct BufferConfig {
    pub min_buffer_ms: u32,
    pub target_buffer_ms: u32,
    pub max_buffer_ms: u32,
}

impl Default for BufferConfig {
    /// 100 ms, 500 ms and 2 s.
    fn default() -> (c: Self)
        ensures
            c.min_buffer_ms == 100,
            c.target_buffer_ms == 500,
            c.max_buffer_ms == 2000,
    {
        BufferConfig { min_buffer_ms: 100, target_buffer_ms: 500, max_buffer_ms: 2000 }
    }
}

/// Configuration of a stream session.
#[derive(Debug, Clone, Copy)]
pub struct StreamConfig {
    pub low_latency: bool,
    /// Target latency (milliseconds).
    pub target_latency_ms: u32,
    /// Processing latency above which an alert is sent (milliseconds).
    pub latency_alert_threshold_ms: u32,
    pub buffer_config: BufferConfig,
}

impl Default for StreamConfig {
    /// Low latency, 100 ms target, 200 ms alert threshold, default
    /// buffers.
    fn default() -> (c: Self)
        ensures
            c.low_latency,
            c.target_latency_ms == 100,
            c.latency_alert_threshold_ms == 200,
            c.buffer_config.min_buffer_ms == 100,
            c.buffer_config.target_buffer_ms == 500,
            c.buffer_config.max_buffer_ms == 2000,
    {
        StreamConfig {
            low_latency: true,
            target_latency_ms: 100,
            latency_alert_threshold_ms: 200,
            buffer_config: BufferConfig::default(),
        }
    }
}

/// Latencies kept by the running statistics.
pub const STREAM_STATS_HISTORY: usize = 1000;

/// Running statistics of a stream session.
#[derive(Debug, Clone)]
pub struct StreamStats {
    pub total_segments: u64,
    pub total_bytes: u64,
    /// Exponential moving average of the latency (microseconds).
    pub average_latency_us: u64,
    pub current_latency_us: u64,
    /// `u64::MAX` until the first latency.
    pub min_latency_us: u64,
    pub max_latency_us: u64,
    pub p50_latency_us: u64,
    pub p95_latency_us: u64,
    pub p99_latency_us: u64,
    /// Throughput (thousandths of Mbps).
    pub throughput_mbps_milli: u64,
    /// Loss rate (parts per million).
    pub packet_loss_ppm: u64,
    /// The most recent latencies, oldest first.
    pub latency_history: Vec<u64>,
    /// When the statistics started (microseconds since the epoch).
    pub start_time_us: Option<u64>,
}

/// The moving average after a new latency: the latency itself at first
/// (or while the average is zero), else nine tenths of the old average
/// plus a tenth of the latency.
pub open spec fn ema(avg: u64, latency: u64) -> int {
    if avg == 0 {
        latency as int
    } else {
        (avg * 9 + latency) / 10
    }
}

/// The history after a new latency: appended, the oldest dropped beyond
/// the limit.
pub open spec fn history_push(h: Seq<u64>, latency: u64) -> Seq<u64> {
    if h.len() + 1 > STREAM_STATS_HISTORY {
        h.push(latency).drop_first()
    } else {
        h.push(latency)
    }
}

/// Median of an ascending sequence: the middle value, or the mean (rounded
/// down) of the two middle values.
pub open spec fn median_of_sorted(s: Seq<u64>) -> int {
    let n = s.len() as int;
    if n % 2 == 0 {
        (s[n / 2 - 1] + s[n / 2]) / 2
    } else {
        s[n / 2] as int
    }
}

/// The value at `floor(len * p_milli / 1000)` of an ascending sequence,
/// capped at the last position.
pub open spec fn upper_percentile_of_sorted(s: Seq<u64>, p_milli: int) -> u64 {
    let n = s.len() as int;
    let i = n * p_milli / 1000;
    if i < n - 1 {
        s[i]
    } else {
        s[n - 1]
    }
}

impl StreamStats {
    /// Empty statistics started at `now_us`.
    pub fn new(now_us: u64) -> (s: Self)
        ensures
            s.total_segments == 0,
            s.total_bytes == 0,
            s.average_latency_us == 0,
            s.current_latency_us == 0,
            s.min_latency_us == u64::MAX,
            s.max_latency_us == 0,
            s.p50_latency_us == 0,
            s.p95_latency_us == 0,
            s.p99_latency_us == 0,
            s.throughput_mbps_milli == 0,
            s.packet_loss_ppm == 0,
            s.latency_history@.len() == 0,
            s.start_time_us == Some(now_us),
    {
        StreamStats {
            total_segments: 0,
            total_bytes: 0,
            average_latency_us: 0,
            current_latency_us: 0,
            min_latency_us: u64::MAX,
            max_latency_us: 0,
            p50_latency_us: 0,
            p95_latency_us: 0,
            p99_latency_us: 0,
            throughput_mbps_milli: 0,
            packet_loss_ppm: 0,
            latency_history: Vec::new(),
            start_time_us: Some(now_us),
        }
    }

    /// Takes a new latency into the current, minimum, maximum and average
    /// latencies and the history; every hundredth segment (by the segment
    /// count) the percentiles are recomputed.
    pub fn update_latency(&mut self, latency_us: u64)
        ensures
            final(self).current_latency_us == latency_us,
            final(self).min_latency_us == if latency_us < old(self).min_latency_us {
                latency_us
            } else {
                old(self).min_latency_us
            },
            final(self).max_latency_us == if latency_us > old(self).max_latency_us {
                latency_us
            } else {
                old(self).max_latency_us
            },
            final(self).average_latency_us == ema(old(self).average_latency_us, latency_us),
            final(self).latency_history@ == history_push(old(self).latency_history@, latency_us),
            final(self).total_segments == old(self).total_segments,
            final(self).total_bytes == old(self).total_bytes,
            final(self).throughput_mbps_milli == old(self).throughput_mbps_milli,
            final(self).packet_loss_ppm == old(self).packet_loss_ppm,
            final(self).start_time_us == old(self).start_time_us,
            old(self).total_segments % 100 == 0 ==> percentiles_of(
                *final(self),
                final(self).latency_history@,
            ),
            old(self).total_segments % 100 != 0 ==> {
                &&& final(self).p50_latency_us == old(self).p50_latency_us
                &&& final(self).p95_latency_us == old(self).p95_latency_us
                &&& final(self).p99_latency_us == old(self).p99_latency_us
            },
    {
        self.current_latency_us = latency_us;
        if latency_us < self.min_latency_us {
            self.min_latency_us = latency_us;
        }
        if latency_us > self.max_latency_us {
            self.max_latency_us = latency_us;
        }
        if self.average_latency_us == 0 {
            self.average_latency_us = latency_us;
        } else {
            let v: u128 = ((self.average_latency_us as u128) * 9 + latency_us as u128) / 10;
            self.average_latency_us = v as u64;
        }
        self.latency_history.push(latency_us);
        if self.latency_history.len() > STREAM_STATS_HISTORY {
            self.latency_history.remove(0);
        }
        proof {
            assert(self.latency_history@ =~= history_push(old(self).latency_history@, latency_us));
        }
        if self.total_segments % 100 == 0 {
            self.update_percentiles();
        }
    }

    /// Recomputes the median, 95th and 99th percentiles from the history;
    /// nothing changes when it is empty.
    pub fn update_percentiles(&mut self)
        ensures
            percentiles_of(*final(self), old(self).latency_history@),
            final(self).latency_history@ == old(self).latency_history@,
            final(self).current_latency_us == old(self).current_latency_us,
            final(self).min_latency_us == old(self).min_latency_us,
            final(self).max_latency_us == old(self).max_latency_us,
            final(self).average_latency_us == old(self).average_latency_us,
            final(self).total_segments == old(self).total_segments,
            final(self).total_bytes == old(self).total_bytes,
            final(self).throughput_mbps_milli == old(self).throughput_mbps_milli,
            final(self).packet_loss_ppm == old(self).packet_loss_ppm,
            final(self).start_time_us == old(self).start_time_us,
            old(self).latency_history@.len() == 0 ==> {
                &&& final(self).p50_latency_us == old(self).p50_latency_us
                &&& final(self).p95_latency_us == old(self).p95_latency_us
                &&& final(self).p99_latency_us == old(self).p99_latency_us
            },
    {
        let len = self.latency_history.len();
        if len == 0 {
            return;
        }
        let sorted = sort_ascending(&self.latency_history);
        let ghost s = sorted_values(self.latency_history@);
        if len % 2 == 0 {
            let a = sorted[len / 2 - 1] as u128;
            let b = sorted[len / 2] as u128;
            self.p50_latency_us = ((a + b) / 2) as u64;
        } else {
            self.p50_latency_us = sorted[len / 2];
        }
        let i95: u128 = (len as u128) * 950 / 1000;
        self.p95_latency_us = if i95 < (len - 1) as u128 {
            sorted[i95 as usize]
        } else {
            sorted[len - 1]
        };
        let i99: u128 = (len as u128) * 990 / 1000;
        self.p99_latency_us = if i99 < (len - 1) as u128 {
            sorted[i99 as usize]
        } else {
            sorted[len - 1]
        };
    }

    /// Adds `bytes` to the total and, once time has passed since the start,
    /// recomputes the throughput at `now_us`.
    pub fn update_throughput(&mut self, bytes: u64, now_us: u64)
        requires
            old(self).total_bytes + bytes <= u64::MAX,
        ensures
            final(self).total_bytes == old(self).total_bytes + bytes,
            final(self).throughput_mbps_milli == match old(self).start_time_us {
                Some(start) => if now_us > start && throughput_milli(
                    final(self).total_bytes as int,
                    now_us - start,
                ) <= u64::MAX {
                    throughput_milli(final(self).total_bytes as int, now_us - start)
                } else if now_us > start {
                    u64::MAX as int
                } else {
                    old(self).throughput_mbps_milli as int
                },
                None => old(self).throughput_mbps_milli as int,
            },
            final(self).latency_history@ == old(self).latency_history@,
            final(self).total_segments == old(self).total_segments,
            final(self).current_latency_us == old(self).current_latency_us,
            final(self).average_latency_us == old(self).average_latency_us,
            final(self).min_latency_us == old(self).min_latency_us,
            final(self).max_latency_us == old(self).max_latency_us,
            final(self).p50_latency_us == old(self).p50_latency_us,
            final(self).p95_latency_us == old(self).p95_latency_us,
            final(self).p99_latency_us == old(self).p99_latency_us,
            final(self).start_time_us == old(self).start_time_us,
            final(self).packet_loss_ppm == old(self).packet_loss_ppm,
    {
        self.total_bytes = self.total_bytes + bytes;
        if let Some(start) = self.start_time_us {
            if now_us > start {
                let elapsed = (now_us - start) as u128;
                let t: u128 = (self.total_bytes as u128) * 8_000 / elapsed;
                self.throughput_mbps_milli = if t <= u64::MAX as u128 {
                    t as u64
                } else {
                    u64::MAX
                };
            }
        }
    }
}

impl StreamStats {
    /// Records a segment forwarded at `now_us` with `bytes` bytes and its
    /// processing latency: the segment is counted first, then its latency
    /// and its size are taken in.
    pub fn record_forwarded(&mut self, latency_us: u64, bytes: u64, now_us: u64)
        requires
            old(self).total_segments < u64::MAX,
            old(self).total_bytes + bytes <= u64::MAX,
        ensures
            records_forwarded(*old(self), *final(self), latency_us, bytes, now_us),
    {
        self.total_segments = self.total_segments + 1;
        self.update_latency(latency_us);
        self.update_throughput(bytes, now_us);
    }
}

/// Whether `after` is `before` with one more forwarded segment of `bytes`
/// bytes, whose processing latency was `latency_us`, taken in at `now_us`:
/// counted, its latency in the current, minimum, maximum and average
/// latencies and the history (percentiles recomputed on every hundredth
/// segment), its bytes in the total and the throughput.
pub open spec fn records_forwarded(
    before: StreamStats,
    after: StreamStats,
    latency_us: u64,
    bytes: u64,
    now_us: u64,
) -> bool {
    &&& after.total_segments == before.total_segments + 1
    &&& after.total_bytes == before.total_bytes + bytes
    &&& after.current_latency_us == latency_us
    &&& after.min_latency_us == if latency_us < before.min_latency_us {
        latency_us
    } else {
        before.min_latency_us
    }
    &&& after.max_latency_us == if latency_us > before.max_latency_us {
        latency_us
    } else {
        before.max_latency_us
    }
    &&& after.average_latency_us == ema(before.average_latency_us, latency_us)
    &&& after.latency_history@ == history_push(before.latency_history@, latency_us)
    &&& (before.total_segments + 1) % 100 == 0 ==> percentiles_of(after, after.latency_history@)
    &&& (before.total_segments + 1) % 100 != 0 ==> {
        &&& after.p50_latency_us == before.p50_latency_us
        &&& after.p95_latency_us == before.p95_latency_us
        &&& after.p99_latency_us == before.p99_latency_us
    }
    &&& after.throughput_mbps_milli == match before.start_time_us {
        Some(start) => if now_us > start && throughput_milli(after.total_bytes as int, now_us - start)
            <= u64::MAX {
            throughput_milli(after.total_bytes as int, now_us - start)
        } else if now_us > start {
            u64::MAX as int
        } else {
            before.throughput_mbps_milli as int
        },
        None => before.throughput_mbps_milli as int,
    }
    &&& after.packet_loss_ppm == before.packet_loss_ppm
    &&& after.start_time_us == before.start_time_us
}

/// Throughput in thousandths of Mbps of `bytes` over `elapsed_us`.
pub open spec fn throughput_milli(bytes: int, elapsed_us: int) -> int {
    bytes * 8_000 / elapsed_us
}

/// The percentiles of `st` are those of the history `h` (unchanged when
/// it is empty).
pub open spec fn percentiles_of(st: StreamStats, h: Seq<u64>) -> bool {
    h.len() > 0 ==> {
        let s = sorted_values(h);
        &&& st.p50_latency_us == median_of_sorted(s)
        &&& st.p95_latency_us == upper_percentile_of_sorted(s, 950)
        &&& st.p99_latency_us == upper_percentile_of_sorted(s, 990)
    }
}

/// A processing latency over the session's threshold.
#[derive(Debug, Clone, Copy)]
pub struct LatencyAlert {
    pub session_id: u128,
    /// The processing latency (microseconds).
    pub current_latency_us: u64,
    pub threshold_ms: u32,
    /// When the alert was raised (microseconds since the epoch).
    pub timestamp_us: u64,
}

/// What the forwarding loop records for one forwarded segment.
#[derive(Debug, Clone, Copy)]
pub struct ForwardOutcome {
    /// Receive time of the segment (set to the forward start when it had
    /// none).
    pub receive_time_us: u64,
    /// Time from receipt to the start of forwarding (microseconds).
    pub processing_latency_us: u64,
    /// The alert to send, if the latency is over the threshold.
    pub alert: Option<LatencyAlert>,
}

/// The processing latency from `receive` to `forward_start`; zero when the
/// clock reads earlier.
pub open spec fn processing_latency(receive: u64, forward_start: u64) -> u64 {
    if forward_start >= receive {
        (forward_start - receive) as u64
    } else {
        0
    }
}

/// Whether `o` is what forwarding a segment received at `receive_time_us`
/// (the forward start when unknown) from `forward_start_us` records: its
/// receive time, its processing latency, and an alert exactly when that
/// latency is over the threshold.
pub open spec fn forward_outcome_of(
    o: ForwardOutcome,
    session_id: u128,
    receive_time_us: Option<u64>,
    forward_start_us: u64,
    latency_alert_threshold_ms: u32,
) -> bool {
    &&& o.receive_time_us == match receive_time_us {
        Some(t) => t,
        None => forward_start_us,
    }
    &&& o.processing_latency_us == processing_latency(o.receive_time_us, forward_start_us)
    &&& o.alert.is_some() <==> o.processing_latency_us > latency_alert_threshold_ms as int * 1000
    &&& o.alert matches Some(a) ==> a.session_id == session_id && a.current_latency_us
        == o.processing_latency_us && a.threshold_ms == latency_alert_threshold_ms
        && a.timestamp_us == forward_start_us
}

/// The segment as it is delivered to the session's receivers: unchanged
/// but for its receive time, set to the forward start when it had none.
pub open spec fn forwarded(segment: VideoSegment, forward_start_us: u64) -> VideoSegment {
    VideoSegment {
        receive_time_us: Some(
            match segment.receive_time_us {
                Some(t) => t,
                None => forward_start_us,
            },
        ),
        ..segment
    }
}

/// Forwards one segment of session `session_id` from `forward_start_us`:
/// gives back the segment to deliver and what to record, and takes it into
/// the statistics at `now_us` (counted, with its bytes and its processing
/// latency).
pub fn forward_segment(
    stats: &mut StreamStats,
    session_id: u128,
    segment: VideoSegment,
    forward_start_us: u64,
    latency_alert_threshold_ms: u32,
    now_us: u64,
) -> (r: (VideoSegment, ForwardOutcome))
    requires
        old(stats).total_segments < u64::MAX,
        old(stats).total_bytes + segment.data.len() <= u64::MAX,
    ensures
        r.0 == forwarded(segment, forward_start_us),
        r.0.data@ == segment.data@,
        forward_outcome_of(
            r.1,
            session_id,
            segment.receive_time_us,
            forward_start_us,
            latency_alert_threshold_ms,
        ),
        records_forwarded(
            *old(stats),
            *final(stats),
            r.1.processing_latency_us,
            segment.data.len() as u64,
            now_us,
        ),
{
    let outcome = forward_decision(
        session_id,
        segment.receive_time_us,
        forward_start_us,
        latency_alert_threshold_ms,
    );
    let mut segment = segment;
    segment.receive_time_us = Some(outcome.receive_time_us);
    let bytes = segment.data.len() as u64;
    stats.record_forwarded(outcome.processing_latency_us, bytes, now_us);
    (segment, outcome)
}

/// The bytes of a run of segments.
pub open spec fn data_bytes(s: Seq<VideoSegment>) -> int
    decreases s.len(),
{
    if s.len() == 0 {
        0
    } else {
        data_bytes(s.drop_last()) + s.last().data.len()
    }
}

proof fn lemma_forwarding_totals(s: Seq<VideoSegment>, states: Seq<StreamStats>, n: int)
    requires
        0 <= n <= s.len(),
        states.len() == s.len() + 1,
        forall|k: int|
            0 <= k < s.len() ==> (#[trigger] states[k + 1]).total_segments == states[k].total_segments
                + 1 && states[k + 1].total_bytes == states[k].total_bytes + s[k].data.len(),
    ensures
        states[n].total_segments == states[0].total_segments + n,
        states[n].total_bytes == states[0].total_bytes + data_bytes(s.take(n)),
    decreases n,
{
    if n == 0 {
        assert(s.take(0).len() == 0);
    } else {
        lemma_forwarding_totals(s, states, n - 1);
        assert(s.take(n).drop_last() =~= s.take(n - 1));
        assert(states[(n - 1) + 1] == states[n]);
    }
}

/// Law: forwarding a run of segments s1..sn (the statistics `states[k]`
/// before the k-th, each step a `forward_segment`) delivers them in their
/// order, each with its id and its bytes and a receive time, one it had
/// kept; the statistics end with n more segments and the run's bytes.
pub proof fn lemma_forwarding_run(s: Seq<VideoSegment>, starts: Seq<u64>, states: Seq<StreamStats>)
    requires
        starts.len() == s.len(),
        states.len() == s.len() + 1,
        forall|k: int|
            #![trigger states[k + 1]]
            0 <= k < s.len() ==> exists|latency: u64, now: u64|
                #[trigger] records_forwarded(
                    states[k],
                    states[k + 1],
                    latency,
                    s[k].data.len() as u64,
                    now,
                ),
    ensures
        forall|k: int|
            0 <= k < s.len() ==> {
                let d = #[trigger] forwarded(s[k], starts[k]);
                &&& d.segment_id == s[k].segment_id
                &&& d.data@ == s[k].data@
                &&& d.timestamp_us == s[k].timestamp_us
                &&& d.receive_time_us.is_some()
                &&& s[k].receive_time_us.is_some() ==> d.receive_time_us == s[k].receive_time_us
            },
        states[s.len() as int].total_segments == states[0].total_segments + s.len(),
        states[s.len() as int].total_bytes == states[0].total_bytes + data_bytes(s),
{
    assert forall|k: int| 0 <= k < s.len() implies (#[trigger] states[k + 1]).total_segments
        == states[k].total_segments + 1 && states[k + 1].total_bytes == states[k].total_bytes
        + s[k].data.len() by {
        let (latency, now) = choose|latency: u64, now: u64|
            #[trigger] records_forwarded(
                states[k],
                states[k + 1],
                latency,
                s[k].data.len() as u64,
                now,
            );
    }
    lemma_forwarding_totals(s, states, s.len() as int);
    assert(s.take(s.len() as int) =~= s);
}

/// Decides what the forwarding loop records for a segment whose receive
/// time is `receive_time_us`, forwarded from `forward_start_us`: the
/// processing latency, and an alert when it is over the threshold.
pub fn forward_decision(
    session_id: u128,
    receive_time_us: Option<u64>,
    forward_start_us: u64,
    latency_alert_threshold_ms: u32,
) -> (o: ForwardOutcome)
    ensures
        forward_outcome_of(o, session_id, receive_time_us, forward_start_us, latency_alert_threshold_ms),
{
    let receive = match receive_time_us {
        Some(t) => t,
        None => forward_start_us,
    };
    let latency = if forward_start_us >= receive {
        forward_start_us - receive
    } else {
        0
    };
    let alert = if (latency as u128) > (latency_alert_threshold_ms as u128) * 1000 {
        Some(
            LatencyAlert {
                session_id,
                current_latency_us: latency,
                threshold_ms: latency_alert_threshold_ms,
                timestamp_us: forward_start_us,
            },
        )
    } else {
        None
    };
    ForwardOutcome { receive_time_us: receive, processing_latency_us: latency, alert }
}

/// What the forwarding loop does after a source error.
#[derive(Debug, Clone, Copy, PartialEq, Eq, Structural)]
pub enum ErrorAction {
    /// Skip the segment and go on.
    Skip,
    /// Wait 100 ms and go on.
    RetryAfterPause,
    /// End the forwarding.
    Stop,
}

/// How the forwarding loop reacts to a source error: corrupted segments
/// are skipped, file-read errors are retried after a pause, everything
/// else ends the stream.
pub fn error_action(e: &StreamError) -> (a: ErrorAction)
    ensures
        a == match *e {
            StreamError::SegmentCorrupted => ErrorAction::Skip,
            StreamError::FileReadError(_) => ErrorAction::RetryAfterPause,
            _ => ErrorAction::Stop,
        },
{
    match e {
        StreamError::SegmentCorrupted => ErrorAction::Skip,
        StreamError::FileReadError(_) => ErrorAction::RetryAfterPause,
        _ => ErrorAction::Stop,
    }
}

/// Pause before retrying after a file-read error (milliseconds).
pub const READ_RETRY_PAUSE_MS: u64 = 100;

/// The source a session holds while its real source is moved to the
/// forwarding task: it yields nothing and supports only pausing.
#[derive(Debug, Clone, Copy)]
pub struct DummySource {
    pub paused: bool,
}

impl DummySource {
    pub fn new() -> (d: Self)
        ensures
            !d.paused,
    {
        DummySource { paused: false }
    }

    /// The end of the stream.
    pub fn next_segment(&mut self) -> (r: Result<Option<VideoSegment>, StreamError>)
        ensures
            r matches Ok(None),
            *final(self) == *old(self),
    {
        Ok(None)
    }

    /// Not supported.
    pub fn seek(&mut self, position_us: i64) -> (r: Result<(), StreamError>)
        ensures
            r matches Err(StreamError::OperationNotSupported),
            *final(self) == *old(self),
    {
        Err(StreamError::OperationNotSupported)
    }

    /// Not supported.
    pub fn set_rate(&mut self, rate_milli: i64) -> (r: Result<(), StreamError>)
        ensures
            r matches Err(StreamError::OperationNotSupported),
            *final(self) == *old(self),
    {
        Err(StreamError::OperationNotSupported)
    }

    pub fn pause(&mut self) -> (r: Result<(), StreamError>)
        ensures
            r.is_ok(),
            final(self).paused,
    {
        self.paused = true;
        Ok(())
    }

    pub fn resume(&mut self) -> (r: Result<(), StreamError>)
        ensures
            r.is_ok(),
            !final(self).paused,
    {
        self.paused = false;
        Ok(())
    }

    /// A live description for the device `dummy`: paused or stopped.
    pub fn get_info(&self) -> (i: StreamInfo)
        ensures
            i.mode matches StreamMode::Live { device_id } && device_id@ == "dummy"@,
            i.state == if self.paused {
                StreamState::Paused
            } else {
                StreamState::Stopped
            },
            i.resolution.is_none(),
            i.frame_rate_milli.is_none(),
            i.bitrate.is_none(),
            i.duration_us.is_none(),
            i.current_position_us == 0,
            i.playback_rate_milli == 1000,
    {
        StreamInfo {
            mode: StreamMode::Live { device_id: "dummy".to_owned() },
            state: if self.paused {
                StreamState::Paused
            } else {
                StreamState::Stopped
            },
            resolution: None,
            frame_rate_milli: None,
            bitrate: None,
            duration_us: None,
            current_position_us: 0,
            playback_rate_milli: 1000,
        }
    }
}

} // verus!
