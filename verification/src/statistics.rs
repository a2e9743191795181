//! Latency statistics of one streaming session: a window of the most
//! recent latencies, with mean, minimum, maximum and percentiles, and the
//! throughput and loss rate of the session.
//!
//! Latencies and times are in microseconds; minimum, maximum and
//! percentiles are reported in whole milliseconds (rounded down), the
//! throughput in thousandths of a megabit per second and the loss rate in
//! parts per million.

use vstd::prelude::*;
use crate::sorting::{sort_ascending, sorted_values};

verus! {

/// Latencies kept per session.
pub const STATS_WINDOW_SIZE: usize = 1000;

/// Statistics of a session, as reported.
#[derive(Debug, Clone, Copy)]
pub struct LatencyStatistics {
    pub session_id: u128,
    /// Start of the statistics (microseconds).
    pub start_time_us: u64,
    /// Last update (microseconds).
    pub last_update_us: u64,
    pub total_segments: u64,
    pub total_bytes: u64,
    /// Mean latency (microseconds).
    pub average_latency_us: u64,
    /// Most recent latency (microseconds).
    pub current_latency_us: u64,
    pub min_latency_ms: u64,
    pub max_latency_ms: u64,
    pub p50_latency_ms: u64,
    pub p95_latency_ms: u64,
    pub p99_latency_ms: u64,
    /// Throughput (thousandths of Mbps).
    pub throughput_mbps_milli: u128,
    /// Loss rate (parts per million).
    pub packet_loss_ppm: u128,
}

/// Statistics kept for one session.
#[derive(Debug)]
pub struct SessionStats {
    pub session_id: u128,
    /// When the session started (microseconds).
    pub start_time_us: u64,
    /// When a latency was last recorded (microseconds).
    pub last_update_us: u64,
    pub total_segments: u64,
    pub total_bytes: u64,
    pub expected_segments: u64,
    pub lost_segments: u64,
    /// The most recent latencies (microseconds), oldest first.
    pub latency_history: Vec<u64>,
}

/// Sum of a sequence.
pub open spec fn sum_of(s: Seq<u64>) -> int
    decreases s.len(),
{
    if s.len() == 0 {
        0
    } else {
        sum_of(s.drop_last()) + s.last()
    }
}

/// Smallest element of a non-empty sequence.
pub open spec fn min_of(s: Seq<u64>) -> u64
    decreases s.len(),
{
    if s.len() <= 1 {
        s[0]
    } else if s.last() < min_of(s.drop_last()) {
        s.last()
    } else {
        min_of(s.drop_last())
    }
}

/// Largest element of a non-empty sequence.
pub open spec fn max_of(s: Seq<u64>) -> u64
    decreases s.len(),
{
    if s.len() <= 1 {
        s[0]
    } else if s.last() > max_of(s.drop_last()) {
        s.last()
    } else {
        max_of(s.drop_last())
    }
}

/// The latencies in whole milliseconds.
pub open spec fn in_ms(s: Seq<u64>) -> Seq<u64> {
    s.map_values(|us: u64| (us / 1000) as u64)
}

/// Mean of the latencies (rounded down), 0 for none.
pub open spec fn average_of(s: Seq<u64>) -> int {
    if s.len() == 0 {
        0
    } else {
        sum_of(s) / (s.len() as int)
    }
}

/// Position in ascending order of the percentile `p_milli` (thousandths)
/// of `len` values: `ceil(len * p) - 1`, at least 0.
pub open spec fn percentile_index(len: int, p_milli: int) -> int {
    let c = (len * p_milli + 999) / 1000;
    if c >= 1 {
        c - 1
    } else {
        0
    }
}

/// The percentile `p_milli` of `s`: the value at the percentile's position
/// in ascending order, 0 when there is none.
pub open spec fn percentile_of(s: Seq<u64>, p_milli: int) -> u64 {
    let idx = percentile_index(s.len() as int, p_milli);
    if 0 <= idx < s.len() {
        sorted_values(s)[idx]
    } else {
        0
    }
}

/// The history after adding a latency: the oldest entry leaves once the
/// window is full.
pub open spec fn window_push(h: Seq<u64>, latency: u64) -> Seq<u64> {
    if h.len() >= STATS_WINDOW_SIZE {
        h.drop_first().push(latency)
    } else {
        h.push(latency)
    }
}

/// Throughput in thousandths of Mbps after `elapsed_us`; 0 when no time
/// has passed.
pub open spec fn throughput_of(total_bytes: int, elapsed_us: int) -> int {
    if elapsed_us <= 0 {
        0
    } else {
        total_bytes * 8_000 / elapsed_us
    }
}

/// Loss rate in parts per million; 0 when nothing was expected.
pub open spec fn loss_ppm_of(lost: int, expected: int) -> int {
    if expected == 0 {
        0
    } else {
        lost * 1_000_000 / expected
    }
}

proof fn lemma_sum_bound(s: Seq<u64>)
    ensures
        0 <= sum_of(s) <= s.len() * u64::MAX,
    decreases s.len(),
{
    if s.len() > 0 {
        lemma_sum_bound(s.drop_last());
    }
}

proof fn lemma_min_max_members(s: Seq<u64>)
    requires
        s.len() > 0,
    ensures
        s.contains(min_of(s)),
        s.contains(max_of(s)),
        forall|i: int| 0 <= i < s.len() ==> min_of(s) <= #[trigger] s[i] <= max_of(s),
    decreases s.len(),
{
    if s.len() > 1 {
        lemma_min_max_members(s.drop_last());
        let t = s.drop_last();
        assert forall|i: int| 0 <= i < s.len() implies min_of(s) <= #[trigger] s[i] <= max_of(s) by {
            if i < s.len() - 1 {
                assert(s[i] == t[i]);
            }
        }
        if s.last() < min_of(t) {
            assert(s[s.len() - 1] == s.last());
        } else {
            let k = choose|k: int| 0 <= k < t.len() && t[k] == min_of(t);
            assert(s[k] == t[k]);
        }
        if s.last() > max_of(t) {
            assert(s[s.len() - 1] == s.last());
        } else {
            let k = choose|k: int| 0 <= k < t.len() && t[k] == max_of(t);
            assert(s[k] == t[k]);
        }
    } else {
        assert(s[0] == s[0]);
    }
}

/// Whether `r` reports the statistics of `s`.
pub open spec fn reports(r: LatencyStatistics, s: SessionStats) -> bool {
    let h = s.latency_history@;
    &&& r.session_id == s.session_id
    &&& r.start_time_us == s.start_time_us
    &&& r.last_update_us == s.last_update_us
    &&& r.total_segments == s.total_segments
    &&& r.total_bytes == s.total_bytes
    &&& r.average_latency_us == average_of(h)
    &&& r.current_latency_us == if h.len() == 0 {
        0
    } else {
        h.last()
    }
    &&& r.min_latency_ms == if h.len() == 0 {
        0
    } else {
        min_of(in_ms(h))
    }
    &&& r.max_latency_ms == if h.len() == 0 {
        0
    } else {
        max_of(in_ms(h))
    }
    &&& r.p50_latency_ms == percentile_of(in_ms(h), 500)
    &&& r.p95_latency_ms == percentile_of(in_ms(h), 950)
    &&& r.p99_latency_ms == percentile_of(in_ms(h), 990)
    &&& r.throughput_mbps_milli == throughput_of(
        s.total_bytes as int,
        if s.last_update_us >= s.start_time_us {
            s.last_update_us - s.start_time_us
        } else {
            0
        },
    )
    &&& r.packet_loss_ppm == loss_ppm_of(s.lost_segments as int, s.expected_segments as int)
}

impl SessionStats {
    /// Statistics of a session started at `now_us`, with nothing recorded.
    pub fn new(session_id: u128, now_us: u64) -> (s: Self)
        ensures
            s.session_id == session_id,
            s.start_time_us == now_us,
            s.last_update_us == now_us,
            s.total_segments == 0,
            s.total_bytes == 0,
            s.expected_segments == 0,
            s.lost_segments == 0,
            s.latency_history@.len() == 0,
    {
        SessionStats {
            session_id,
            start_time_us: now_us,
            last_update_us: now_us,
            total_segments: 0,
            total_bytes: 0,
            expected_segments: 0,
            lost_segments: 0,
            latency_history: Vec::new(),
        }
    }

    /// Adds a latency measured at `now_us` to the window.
    pub fn add_latency(&mut self, latency_us: u64, now_us: u64)
        ensures
            final(self).latency_history@ == window_push(old(self).latency_history@, latency_us),
            final(self).last_update_us == now_us,
            final(self).session_id == old(self).session_id,
            final(self).start_time_us == old(self).start_time_us,
            final(self).total_segments == old(self).total_segments,
            final(self).total_bytes == old(self).total_bytes,
            final(self).expected_segments == old(self).expected_segments,
            final(self).lost_segments == old(self).lost_segments,
    {
        if self.latency_history.len() >= STATS_WINDOW_SIZE {
            self.latency_history.remove(0);
        }
        self.latency_history.push(latency_us);
        self.last_update_us = now_us;
        proof {
            assert(final(self).latency_history@ =~= window_push(
                old(self).latency_history@,
                latency_us,
            ));
        }
    }

    /// Records a delivered segment of `segment_size` bytes with its latency.
    pub fn record_segment_latency(&mut self, latency_us: u64, segment_size: u64, now_us: u64)
        requires
            old(self).total_segments < u64::MAX,
            old(self).expected_segments < u64::MAX,
            old(self).total_bytes + segment_size <= u64::MAX,
        ensures
            final(self).latency_history@ == window_push(old(self).latency_history@, latency_us),
            final(self).last_update_us == now_us,
            final(self).total_segments == old(self).total_segments + 1,
            final(self).total_bytes == old(self).total_bytes + segment_size,
            final(self).expected_segments == old(self).expected_segments + 1,
            final(self).lost_segments == old(self).lost_segments,
            final(self).session_id == old(self).session_id,
            final(self).start_time_us == old(self).start_time_us,
    {
        self.add_latency(latency_us, now_us);
        self.total_segments = self.total_segments + 1;
        self.total_bytes = self.total_bytes + segment_size;
        self.expected_segments = self.expected_segments + 1;
    }

    /// Records a segment that never arrived.
    pub fn record_lost_segment(&mut self)
        requires
            old(self).lost_segments < u64::MAX,
            old(self).expected_segments < u64::MAX,
        ensures
            final(self).lost_segments == old(self).lost_segments + 1,
            final(self).expected_segments == old(self).expected_segments + 1,
            final(self).latency_history@ == old(self).latency_history@,
            final(self).total_segments == old(self).total_segments,
            final(self).total_bytes == old(self).total_bytes,
            final(self).last_update_us == old(self).last_update_us,
            final(self).session_id == old(self).session_id,
            final(self).start_time_us == old(self).start_time_us,
    {
        self.lost_segments = self.lost_segments + 1;
        self.expected_segments = self.expected_segments + 1;
    }

    /// Mean latency of the window (microseconds, rounded down); 0 when
    /// empty.
    pub fn average_latency(&self) -> (r: u64)
        ensures
            r == average_of(self.latency_history@),
    {
        let n = self.latency_history.len();
        if n == 0 {
            return 0;
        }
        let ghost h = self.latency_history@;
        let mut sum: u128 = 0;
        let mut i: usize = 0;
        while i < n
            invariant
                h == self.latency_history@,
                n == h.len(),
                i <= n,
                sum == sum_of(h.take(i as int)),
                sum <= i * u64::MAX,
            decreases n - i,
        {
            proof {
                assert(h.take(i + 1).drop_last() =~= h.take(i as int));
            }
            sum = sum + self.latency_history[i] as u128;
            i = i + 1;
        }
        proof {
            assert(h.take(n as int) =~= h);
        }
        assert(sum / (n as u128) <= u64::MAX) by (nonlinear_arith)
            requires
                sum <= n * u64::MAX,
                n > 0,
        ;
        (sum / (n as u128)) as u64
    }

    /// The most recent latency (microseconds); 0 when empty.
    pub fn current_latency(&self) -> (r: u64)
        ensures
            r == if self.latency_history@.len() == 0 {
                0
            } else {
                self.latency_history@.last()
            },
    {
        let n = self.latency_history.len();
        if n == 0 {
            0
        } else {
            self.latency_history[n - 1]
        }
    }

    /// Smallest latency of the window in milliseconds; 0 when empty.
    pub fn min_latency(&self) -> (r: u64)
        ensures
            r == if self.latency_history@.len() == 0 {
                0
            } else {
                min_of(in_ms(self.latency_history@))
            },
    {
        let n = self.latency_history.len();
        if n == 0 {
            return 0;
        }
        let ghost ms = in_ms(self.latency_history@);
        let mut best: u64 = self.latency_history[0] / 1000;
        let mut i: usize = 1;
        while i < n
            invariant
                ms == in_ms(self.latency_history@),
                n == self.latency_history@.len(),
                1 <= i <= n,
                best == min_of(ms.take(i as int)),
            decreases n - i,
        {
            let v = self.latency_history[i] / 1000;
            proof {
                assert(ms.take(i + 1).drop_last() =~= ms.take(i as int));
                assert(ms.take(i + 1).last() == v);
            }
            if v < best {
                best = v;
            }
            i = i + 1;
        }
        proof {
            assert(ms.take(n as int) =~= ms);
        }
        best
    }

    /// Largest latency of the window in milliseconds; 0 when empty.
    pub fn max_latency(&self) -> (r: u64)
        ensures
            r == if self.latency_history@.len() == 0 {
                0
            } else {
                max_of(in_ms(self.latency_history@))
            },
    {
        let n = self.latency_history.len();
        if n == 0 {
            return 0;
        }
        let ghost ms = in_ms(self.latency_history@);
        let mut best: u64 = self.latency_history[0] / 1000;
        let mut i: usize = 1;
        while i < n
            invariant
                ms == in_ms(self.latency_history@),
                n == self.latency_history@.len(),
                1 <= i <= n,
                best == max_of(ms.take(i as int)),
            decreases n - i,
        {
            let v = self.latency_history[i] / 1000;
            proof {
                assert(ms.take(i + 1).drop_last() =~= ms.take(i as int));
                assert(ms.take(i + 1).last() == v);
            }
            if v > best {
                best = v;
            }
            i = i + 1;
        }
        proof {
            assert(ms.take(n as int) =~= ms);
        }
        best
    }

    /// The latency percentile `p_milli` (thousandths, 500 is the median)
    /// of the window in milliseconds; 0 when empty or out of range.
    pub fn percentile_latency(&self, p_milli: u64) -> (r: u64)
        ensures
            r == percentile_of(in_ms(self.latency_history@), p_milli as int),
    {
        let n = self.latency_history.len();
        let mut ms: Vec<u64> = Vec::new();
        let mut i: usize = 0;
        while i < n
            invariant
                n == self.latency_history@.len(),
                i <= n,
                ms@ == in_ms(self.latency_history@).take(i as int),
            decreases n - i,
        {
            ms.push(self.latency_history[i] / 1000);
            proof {
                assert(ms@ =~= in_ms(self.latency_history@).take(i + 1));
            }
            i = i + 1;
        }
        proof {
            assert(ms@ =~= in_ms(self.latency_history@));
        }
        if n == 0 {
            return 0;
        }
        let sorted = sort_ascending(&ms);
        assert((n as u128) * (p_milli as u128) <= u64::MAX * u64::MAX) by (nonlinear_arith);
        let c: u128 = ((n as u128) * (p_milli as u128) + 999) / 1000;
        let index: u128 = if c >= 1 {
            c - 1
        } else {
            0
        };
        if index < n as u128 {
            sorted[index as usize]
        } else {
            0
        }
    }

    /// Throughput of the session in thousandths of Mbps; 0 when no time
    /// has passed.
    pub fn throughput_mbps(&self) -> (r: u128)
        ensures
            r == throughput_of(
                self.total_bytes as int,
                if self.last_update_us >= self.start_time_us {
                    self.last_update_us - self.start_time_us
                } else {
                    0
                },
            ),
    {
        let elapsed: u64 = if self.last_update_us >= self.start_time_us {
            self.last_update_us - self.start_time_us
        } else {
            0
        };
        if elapsed == 0 {
            return 0;
        }
        (self.total_bytes as u128) * 8_000 / (elapsed as u128)
    }

    /// Fraction of expected segments that were lost, in parts per million.
    pub fn packet_loss_rate(&self) -> (r: u128)
        ensures
            r == loss_ppm_of(self.lost_segments as int, self.expected_segments as int),
    {
        if self.expected_segments == 0 {
            return 0;
        }
        (self.lost_segments as u128) * 1_000_000 / (self.expected_segments as u128)
    }

    /// The statistics as reported.
    pub fn to_statistics(&self) -> (r: LatencyStatistics)
        ensures
            reports(r, *self),
    {
        LatencyStatistics {
            session_id: self.session_id,
            start_time_us: self.start_time_us,
            last_update_us: self.last_update_us,
            total_segments: self.total_segments,
            total_bytes: self.total_bytes,
            average_latency_us: self.average_latency(),
            current_latency_us: self.current_latency(),
            min_latency_ms: self.min_latency(),
            max_latency_ms: self.max_latency(),
            p50_latency_ms: self.percentile_latency(500),
            p95_latency_ms: self.percentile_latency(950),
            p99_latency_ms: self.percentile_latency(990),
            throughput_mbps_milli: self.throughput_mbps(),
            packet_loss_ppm: self.packet_loss_rate(),
        }
    }
}

/// Law: the window never holds more than `STATS_WINDOW_SIZE` latencies
/// once it holds no more than that.
pub proof fn lemma_window_bounded(h: Seq<u64>, latency: u64)
    requires
        h.len() <= STATS_WINDOW_SIZE,
    ensures
        window_push(h, latency).len() <= STATS_WINDOW_SIZE,
        window_push(h, latency).last() == latency,
{
}

/// Law: the minimum and maximum are values of the window, and every value
/// lies between them.
pub proof fn lemma_min_max_bound(s: Seq<u64>)
    requires
        s.len() > 0,
    ensures
        s.contains(min_of(s)),
        s.contains(max_of(s)),
        forall|i: int| 0 <= i < s.len() ==> min_of(s) <= #[trigger] s[i] <= max_of(s),
{
    lemma_min_max_members(s);
}

/// Law: the loss rate never exceeds one million parts per million when no
/// more segments were lost than expected.
pub proof fn lemma_loss_rate_bounded(lost: nat, expected: nat)
    requires
        lost <= expected,
    ensures
        0 <= loss_ppm_of(lost as int, expected as int) <= 1_000_000,
{
    if expected > 0 {
        assert(lost * 1_000_000 / expected <= 1_000_000) by (nonlinear_arith)
            requires
                lost <= expected,
                expected > 0,
        {
            assert(lost * 1_000_000 <= expected * 1_000_000);
        }
    }
}

/// No two sessions share an id.
pub open spec fn session_ids_unique(s: Seq<SessionStats>) -> bool {
    forall|i: int, j: int| 0 <= i < j < s.len() ==> s[i].session_id != s[j].session_id
}

/// Whether a session with an id is among `s`.
pub open spec fn has_session(s: Seq<SessionStats>, id: u128) -> bool {
    exists|i: int| 0 <= i < s.len() && s[i].session_id == id
}

/// `new` is `old` after recording a delivered segment of `size` bytes with
/// latency `latency_us` at `now_us`.
pub open spec fn segment_recorded(old: SessionStats, new: SessionStats, latency_us: u64, size: u64, now_us: u64) -> bool {
    &&& new.latency_history@ == window_push(old.latency_history@, latency_us)
    &&& new.last_update_us == now_us
    &&& new.total_segments == old.total_segments + 1
    &&& new.total_bytes == old.total_bytes + size
    &&& new.expected_segments == old.expected_segments + 1
    &&& new.lost_segments == old.lost_segments
    &&& new.session_id == old.session_id
    &&& new.start_time_us == old.start_time_us
}

/// `new` is `old` after recording a lost segment.
pub open spec fn loss_recorded(old: SessionStats, new: SessionStats) -> bool {
    &&& new.lost_segments == old.lost_segments + 1
    &&& new.expected_segments == old.expected_segments + 1
    &&& new.latency_history@ == old.latency_history@
    &&& new.total_segments == old.total_segments
    &&& new.total_bytes == old.total_bytes
    &&& new.last_update_us == old.last_update_us
    &&& new.session_id == old.session_id
    &&& new.start_time_us == old.start_time_us
}

/// A fresh session with an id, started at `now_us`.
pub open spec fn fresh_session(s: SessionStats, id: u128, now_us: u64) -> bool {
    &&& s.session_id == id
    &&& s.start_time_us == now_us
    &&& s.last_update_us == now_us
    &&& s.total_segments == 0
    &&& s.total_bytes == 0
    &&& s.expected_segments == 0
    &&& s.lost_segments == 0
    &&& s.latency_history@.len() == 0
}

/// The latency statistics of all sessions.
pub struct LatencyStatisticsManager {
    sessions: Vec<SessionStats>,
}

impl LatencyStatisticsManager {
    /// The sessions, in the order they started.
    pub closed spec fn view(&self) -> Seq<SessionStats> {
        self.sessions@
    }

    pub closed spec fn wf(&self) -> bool {
        session_ids_unique(self.sessions@)
    }

    /// No session.
    pub fn new() -> (m: Self)
        ensures
            m.wf(),
            m.view().len() == 0,
    {
        LatencyStatisticsManager { sessions: Vec::new() }
    }

    fn position(&self, session_id: u128) -> (r: Option<usize>)
        ensures
            match r {
                Some(i) => i < self.sessions@.len() && self.sessions@[i as int].session_id == session_id,
                None => !has_session(self.sessions@, session_id),
            },
    {
        let mut i: usize = 0;
        while i < self.sessions.len()
            invariant
                i <= self.sessions@.len(),
                forall|k: int| 0 <= k < i ==> self.sessions@[k].session_id != session_id,
            decreases self.sessions@.len() - i,
        {
            if self.sessions[i].session_id == session_id {
                return Some(i);
            }
            i = i + 1;
        }
        None
    }

    /// Starts the statistics of a session at `now_us`, replacing any kept
    /// under the same id.
    pub fn start_session(&mut self, session_id: u128, now_us: u64)
        requires
            old(self).wf(),
        ensures
            final(self).wf(),
            has_session(old(self).view(), session_id) ==> {
                &&& final(self).view().len() == old(self).view().len()
                &&& forall|i: int|
                    0 <= i < old(self).view().len() ==> if old(self).view()[i].session_id == session_id {
                        fresh_session(#[trigger] final(self).view()[i], session_id, now_us)
                    } else {
                        final(self).view()[i] == old(self).view()[i]
                    }
            },
            !has_session(old(self).view(), session_id) ==> {
                &&& final(self).view().len() == old(self).view().len() + 1
                &&& final(self).view().drop_last() == old(self).view()
                &&& fresh_session(final(self).view().last(), session_id, now_us)
            },
    {
        let stats = SessionStats::new(session_id, now_us);
        match self.position(session_id) {
            Some(i) => {
                let ghost before = self.sessions@;
                let _ = self.sessions.remove(i);
                self.sessions.insert(i, stats);
                proof {
                    assert(self.sessions@ =~= before.update(i as int, stats));
                    assert forall|a: int, b: int| 0 <= a < b < self.sessions@.len() implies self.sessions@[a].session_id
                        != self.sessions@[b].session_id by {
                        assert(self.sessions@[a].session_id == before[a].session_id);
                        assert(self.sessions@[b].session_id == before[b].session_id);
                    }
                }
            },
            None => {
                let ghost before = self.sessions@;
                self.sessions.push(stats);
                proof {
                    assert(self.sessions@.drop_last() =~= before);
                    assert forall|a: int, b: int| 0 <= a < b < self.sessions@.len() implies self.sessions@[a].session_id
                        != self.sessions@[b].session_id by {
                        if b == before.len() {
                            assert(self.sessions@[a] == before[a]);
                        }
                    }
                }
            },
        }
    }

    /// Records a delivered segment for a session; nothing for an unknown
    /// session.
    pub fn record_segment_latency(&mut self, session_id: u128, latency_us: u64, segment_size: u64, now_us: u64)
        requires
            old(self).wf(),
            forall|i: int|
                0 <= i < old(self).view().len() && (#[trigger] old(self).view()[i]).session_id == session_id ==> {
                    &&& old(self).view()[i].total_segments < u64::MAX
                    &&& old(self).view()[i].expected_segments < u64::MAX
                    &&& old(self).view()[i].total_bytes + segment_size <= u64::MAX
                },
        ensures
            final(self).wf(),
            final(self).view().len() == old(self).view().len(),
            forall|i: int|
                0 <= i < old(self).view().len() ==> if old(self).view()[i].session_id == session_id {
                    segment_recorded(old(self).view()[i], #[trigger] final(self).view()[i], latency_us, segment_size, now_us)
                } else {
                    final(self).view()[i] == old(self).view()[i]
                },
    {
        match self.position(session_id) {
            Some(i) => {
                let ghost before = self.sessions@;
                assert(old(self).view()[i as int].session_id == session_id);
                let mut s = self.sessions.remove(i);
                s.record_segment_latency(latency_us, segment_size, now_us);
                self.sessions.insert(i, s);
                proof {
                    assert(self.sessions@ =~= before.update(i as int, s));
                    assert forall|a: int, b: int| 0 <= a < b < self.sessions@.len() implies self.sessions@[a].session_id
                        != self.sessions@[b].session_id by {
                        assert(self.sessions@[a].session_id == before[a].session_id);
                        assert(self.sessions@[b].session_id == before[b].session_id);
                    }
                    assert forall|k: int| 0 <= k < before.len() && before[k].session_id == session_id implies k
                        == i by {}
                }
            },
            None => {},
        }
    }

    /// Whether a delivered segment of `segment_size` bytes can be recorded
    /// for a session without a counter overflowing.
    pub fn can_record_segment(&self, session_id: u128, segment_size: u64) -> (b: bool)
        ensures
            b == forall|i: int|
                0 <= i < self.view().len() && (#[trigger] self.view()[i]).session_id == session_id ==> {
                    &&& self.view()[i].total_segments < u64::MAX
                    &&& self.view()[i].expected_segments < u64::MAX
                    &&& self.view()[i].total_bytes + segment_size <= u64::MAX
                },
    {
        let mut i: usize = 0;
        while i < self.sessions.len()
            invariant
                i <= self.sessions@.len(),
                forall|k: int|
                    0 <= k < i && (#[trigger] self.sessions@[k]).session_id == session_id ==> {
                        &&& self.sessions@[k].total_segments < u64::MAX
                        &&& self.sessions@[k].expected_segments < u64::MAX
                        &&& self.sessions@[k].total_bytes + segment_size <= u64::MAX
                    },
            decreases self.sessions@.len() - i,
        {
            let s = &self.sessions[i];
            if s.session_id == session_id {
                if s.total_segments == u64::MAX || s.expected_segments == u64::MAX || s.total_bytes
                    > u64::MAX - segment_size {
                    proof {
                        assert(self.view()[i as int] == self.sessions@[i as int]);
                    }
                    return false;
                }
            }
            i = i + 1;
        }
        true
    }

    /// Whether a lost segment can be recorded for a session without a
    /// counter overflowing.
    pub fn can_record_loss(&self, session_id: u128) -> (b: bool)
        ensures
            b == forall|i: int|
                0 <= i < self.view().len() && (#[trigger] self.view()[i]).session_id == session_id ==> {
                    &&& self.view()[i].lost_segments < u64::MAX
                    &&& self.view()[i].expected_segments < u64::MAX
                },
    {
        let mut i: usize = 0;
        while i < self.sessions.len()
            invariant
                i <= self.sessions@.len(),
                forall|k: int|
                    0 <= k < i && (#[trigger] self.sessions@[k]).session_id == session_id ==> {
                        &&& self.sessions@[k].lost_segments < u64::MAX
                        &&& self.sessions@[k].expected_segments < u64::MAX
                    },
            decreases self.sessions@.len() - i,
        {
            let s = &self.sessions[i];
            if s.session_id == session_id {
                if s.lost_segments == u64::MAX || s.expected_segments == u64::MAX {
                    proof {
                        assert(self.view()[i as int] == self.sessions@[i as int]);
                    }
                    return false;
                }
            }
            i = i + 1;
        }
        true
    }

    /// Records a lost segment for a session; nothing for an unknown session.
    pub fn record_lost_segment(&mut self, session_id: u128)
        requires
            old(self).wf(),
            forall|i: int|
                0 <= i < old(self).view().len() && (#[trigger] old(self).view()[i]).session_id == session_id ==> {
                    &&& old(self).view()[i].lost_segments < u64::MAX
                    &&& old(self).view()[i].expected_segments < u64::MAX
                },
        ensures
            final(self).wf(),
            final(self).view().len() == old(self).view().len(),
            forall|i: int|
                0 <= i < old(self).view().len() ==> if old(self).view()[i].session_id == session_id {
                    loss_recorded(old(self).view()[i], #[trigger] final(self).view()[i])
                } else {
                    final(self).view()[i] == old(self).view()[i]
                },
    {
        match self.position(session_id) {
            Some(i) => {
                let ghost before = self.sessions@;
                assert(old(self).view()[i as int].session_id == session_id);
                let mut s = self.sessions.remove(i);
                s.record_lost_segment();
                self.sessions.insert(i, s);
                proof {
                    assert(self.sessions@ =~= before.update(i as int, s));
                    assert forall|a: int, b: int| 0 <= a < b < self.sessions@.len() implies self.sessions@[a].session_id
                        != self.sessions@[b].session_id by {
                        assert(self.sessions@[a].session_id == before[a].session_id);
                        assert(self.sessions@[b].session_id == before[b].session_id);
                    }
                }
            },
            None => {},
        }
    }

    /// The statistics of a session, if it is kept.
    pub fn get_statistics(&self, session_id: u128) -> (r: Option<LatencyStatistics>)
        requires
            self.wf(),
        ensures
            !has_session(self.view(), session_id) ==> r.is_none(),
            has_session(self.view(), session_id) ==> (r matches Some(st) && exists|i: int|
                0 <= i < self.view().len() && self.view()[i].session_id == session_id && reports(
                    st,
                    self.view()[i],
                )),
    {
        match self.position(session_id) {
            Some(i) => Some(self.sessions[i].to_statistics()),
            None => None,
        }
    }

    /// The statistics of every session, in the order the sessions started.
    pub fn get_all_statistics(&self) -> (r: Vec<LatencyStatistics>)
        ensures
            r@.len() == self.view().len(),
            forall|i: int| 0 <= i < r@.len() ==> reports(#[trigger] r@[i], self.view()[i]),
    {
        let mut out: Vec<LatencyStatistics> = Vec::new();
        let mut i: usize = 0;
        while i < self.sessions.len()
            invariant
                i <= self.sessions@.len(),
                out@.len() == i,
                forall|k: int| 0 <= k < i ==> reports(#[trigger] out@[k], self.sessions@[k]),
            decreases self.sessions@.len() - i,
        {
            out.push(self.sessions[i].to_statistics());
            i = i + 1;
        }
        out
    }

    /// Stops the statistics of a session.
    pub fn stop_session(&mut self, session_id: u128)
        requires
            old(self).wf(),
        ensures
            final(self).wf(),
            !has_session(old(self).view(), session_id) ==> final(self).view() == old(self).view(),
            has_session(old(self).view(), session_id) ==> exists|i: int|
                0 <= i < old(self).view().len() && old(self).view()[i].session_id == session_id
                    && final(self).view() == old(self).view().remove(i),
            !has_session(final(self).view(), session_id),
    {
        match self.position(session_id) {
            Some(i) => {
                let ghost before = self.sessions@;
                let _ = self.sessions.remove(i);
                proof {
                    assert(self.sessions@ == before.remove(i as int));
                    assert forall|a: int, b: int| 0 <= a < b < self.sessions@.len() implies self.sessions@[a].session_id
                        != self.sessions@[b].session_id by {
                        let a0 = if a < i { a } else { a + 1 };
                        let b0 = if b < i { b } else { b + 1 };
                        assert(self.sessions@[a] == before[a0] && self.sessions@[b] == before[b0]);
                    }
                    assert forall|k: int| 0 <= k < self.sessions@.len() implies self.sessions@[k].session_id
                        != session_id by {
                        let k0 = if k < i { k } else { k + 1 };
                        assert(self.sessions@[k] == before[k0]);
                    }
                }
            },
            None => {},
        }
    }

    /// Stops every session.
    pub fn clear_all(&mut self)
        ensures
            final(self).wf(),
            final(self).view().len() == 0,
    {
        self.sessions.clear();
    }
}

impl Default for LatencyStatisticsManager {
    fn default() -> (m: Self)
        ensures
            m.wf(),
            m.view().len() == 0,
    {
        Self::new()
    }
}

} // verus!
