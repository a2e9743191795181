//! Keyframe indexes of raw H.264 recordings: how they are built from the
//! keyframes found in the file, how they are searched for the keyframe at
//! or before a time, and how duration and rates are estimated.
//!
//! Times are in microseconds; the index assumes 30 frames per second.

use vstd::prelude::*;
use crate::errors::FileError;
use crate::h264::{DefaultFileStreamReader, KeyframeInfo, keyframes_before, keyframe_scan_len, estimated_bitrate_for};

verus! {

/// Frame kinds.
#[derive(Debug, Clone, Copy, PartialEq, Eq, Structural)]
pub enum FrameType {
    /// Intra (keyframe).
    I,
    /// Predicted.
    P,
    /// Bidirectional.
    B,
}

/// How densely an index records keyframes.
#[derive(Debug, Clone, Copy, PartialEq, Eq, Structural)]
pub enum IndexOptimizationStrategy {
    /// Every keyframe.
    Full,
    /// Every thirtieth frame.
    Sparse,
    /// Every keyframe while memory allows, then every sixtieth frame.
    Adaptive,
    /// Every keyframe in the first ten seconds, then every thirtieth frame.
    Hierarchical,
}

/// An index entry.
#[derive(Debug, Clone, Copy)]
pub struct KeyframeEntry {
    /// Time of the keyframe (microseconds).
    pub timestamp_us: u64,
    pub file_offset: u64,
    pub frame_size: u32,
    pub gop_size: u32,
    pub frame_type: FrameType,
}

/// A keyframe index.
#[derive(Debug, Clone)]
pub struct KeyframeIndex {
    pub entries: Vec<KeyframeEntry>,
    /// Length of the recording (microseconds).
    pub total_duration_us: u64,
    /// Mean spacing of the entries (microseconds).
    pub index_precision_us: u64,
    pub memory_optimized: bool,
    pub optimization_strategy: IndexOptimizationStrategy,
    /// Bytes taken by the entries.
    pub memory_usage: usize,
}

/// Frames per second assumed when indexing.
pub const INDEX_FPS: u64 = 30;

/// One frame at 30 fps (microseconds, rounded down).
pub const FRAME_US: u64 = 33_333;

/// Bytes counted per index entry (the size of an entry record).
pub const ENTRY_BYTES: usize = 32;

/// Memory budget of an adaptive index (10 MiB).
pub const INDEX_MEMORY_LIMIT: usize = 10 * 1024 * 1024;

/// Indexing stops after this many bytes (100 MiB).
pub const INDEX_SCAN_LIMIT: u64 = 100 * 1024 * 1024;

/// The strategy for a memory budget in MiB.
pub open spec fn strategy_for(memory_limit_mb: usize) -> IndexOptimizationStrategy {
    if memory_limit_mb >= 50 {
        IndexOptimizationStrategy::Full
    } else if memory_limit_mb >= 20 {
        IndexOptimizationStrategy::Adaptive
    } else if memory_limit_mb >= 10 {
        IndexOptimizationStrategy::Sparse
    } else {
        IndexOptimizationStrategy::Hierarchical
    }
}

/// Chooses the indexing strategy for a memory budget in MiB.
pub fn strategy_for_memory_limit(memory_limit_mb: usize) -> (s: IndexOptimizationStrategy)
    ensures
        s == strategy_for(memory_limit_mb),
{
    if memory_limit_mb >= 50 {
        IndexOptimizationStrategy::Full
    } else if memory_limit_mb >= 20 {
        IndexOptimizationStrategy::Adaptive
    } else if memory_limit_mb >= 10 {
        IndexOptimizationStrategy::Sparse
    } else {
        IndexOptimizationStrategy::Hierarchical
    }
}

/// Read size used by each strategy.
pub open spec fn buffer_size_for(s: IndexOptimizationStrategy) -> usize {
    match s {
        IndexOptimizationStrategy::Full => 65_536usize,
        IndexOptimizationStrategy::Sparse => 131_072usize,
        IndexOptimizationStrategy::Adaptive => 98_304usize,
        IndexOptimizationStrategy::Hierarchical => 32_768usize,
    }
}

/// Time of the frame numbered `frame` at 30 fps (microseconds).
pub open spec fn frame_time_us(frame: u64) -> int {
    frame * 1_000_000 / 30
}

/// Whether the keyframe that is frame number `frame` is recorded, with
/// `memory` bytes already used.
pub open spec fn should_include(s: IndexOptimizationStrategy, frame: u64, memory: usize) -> bool {
    match s {
        IndexOptimizationStrategy::Full => true,
        IndexOptimizationStrategy::Sparse => frame % 30 == 0,
        IndexOptimizationStrategy::Adaptive => memory < INDEX_MEMORY_LIMIT || frame % 60 == 0,
        IndexOptimizationStrategy::Hierarchical => frame < 300 || frame % 30 == 0,
    }
}

/// Builds a keyframe index from the file's bytes, buffer by buffer.
#[derive(Debug, Clone)]
pub struct IndexBuilder {
    pub strategy: IndexOptimizationStrategy,
    pub file_size: u64,
    pub entries: Vec<KeyframeEntry>,
    /// Bytes read so far.
    pub current_offset: u64,
    /// Keyframes seen so far.
    pub frame_count: u64,
    pub memory_usage: usize,
}

/// The state of a builder after it considers `kfs` (the keyframes of one
/// buffer) from position `k` on; `Adaptive` stops at the first keyframe
/// that leaves the memory over budget.
pub open spec fn consider(
    s: IndexOptimizationStrategy,
    kfs: Seq<KeyframeInfo>,
    k: int,
    entries: Seq<KeyframeEntry>,
    frame: u64,
    memory: usize,
) -> (Seq<KeyframeEntry>, u64, usize)
    decreases kfs.len() - k,
{
    if k < 0 || k >= kfs.len() {
        (entries, frame, memory)
    } else {
        let kf = kfs[k];
        let inc = should_include(s, frame, memory);
        let e2 = if inc {
            entries.push(
                KeyframeEntry {
                    timestamp_us: frame_time_us(frame) as u64,
                    file_offset: kf.offset,
                    frame_size: kf.size,
                    gop_size: kf.gop_size,
                    frame_type: FrameType::I,
                },
            )
        } else {
            entries
        };
        let m2 = if inc {
            (memory + ENTRY_BYTES) as usize
        } else {
            memory
        };
        let f2 = (frame + 1) as u64;
        if s == IndexOptimizationStrategy::Adaptive && m2 > INDEX_MEMORY_LIMIT {
            (e2, f2, m2)
        } else {
            consider(s, kfs, k + 1, e2, f2, m2)
        }
    }
}

impl IndexBuilder {
    /// A builder for a file of `file_size` bytes.
    pub fn new(strategy: IndexOptimizationStrategy, file_size: u64) -> (b: Self)
        ensures
            b.strategy == strategy,
            b.file_size == file_size,
            b.entries@.len() == 0,
            b.current_offset == 0,
            b.frame_count == 0,
            b.memory_usage == 0,
    {
        IndexBuilder {
            strategy,
            file_size,
            entries: Vec::new(),
            current_offset: 0,
            frame_count: 0,
            memory_usage: 0,
        }
    }

    /// How many bytes to read at a time.
    pub fn buffer_size(&self) -> (n: usize)
        ensures
            n == buffer_size_for(self.strategy),
    {
        match self.strategy {
            IndexOptimizationStrategy::Full => 64 * 1024,
            IndexOptimizationStrategy::Sparse => 128 * 1024,
            IndexOptimizationStrategy::Adaptive => 96 * 1024,
            IndexOptimizationStrategy::Hierarchical => 32 * 1024,
        }
    }

    /// Whether more of the file should be read.
    pub fn wants_more(&self) -> (r: bool)
        ensures
            r == (self.current_offset < self.file_size && self.current_offset <= INDEX_SCAN_LIMIT),
    {
        self.current_offset < self.file_size && self.current_offset <= INDEX_SCAN_LIMIT
    }

    /// Takes the next bytes read from the file: their keyframes are
    /// considered in order and the offset advances.
    pub fn feed(&mut self, buffer: &[u8])
        requires
            old(self).current_offset + buffer@.len() <= u64::MAX,
            old(self).frame_count + buffer@.len() <= u64::MAX,
            old(self).memory_usage + buffer@.len() * ENTRY_BYTES <= usize::MAX,
        ensures
            ({
                let kfs = keyframes_before(
                    buffer@,
                    old(self).current_offset,
                    keyframe_scan_len(buffer@),
                );
                let r = consider(
                    old(self).strategy,
                    kfs,
                    0,
                    old(self).entries@,
                    old(self).frame_count,
                    old(self).memory_usage,
                );
                &&& final(self).entries@ == r.0
                &&& final(self).frame_count == r.1
                &&& final(self).memory_usage == r.2
            }),
            final(self).current_offset == old(self).current_offset + buffer@.len(),
            final(self).strategy == old(self).strategy,
            final(self).file_size == old(self).file_size,
    {
        let reader = DefaultFileStreamReader::new();
        let kfs = match reader.find_keyframes_in_buffer(buffer, self.current_offset) {
            Ok(v) => v,
            Err(_) => Vec::new(),
        };
        let ghost all = kfs@;
        proof {
            lemma_keyframes_len(buffer@, self.current_offset, keyframe_scan_len(buffer@));
        }
        let mut k: usize = 0;
        let mut stop = false;
        while !stop && k < kfs.len()
            invariant
                all == kfs@,
                all.len() <= buffer@.len(),
                k <= all.len(),
                self.strategy == old(self).strategy,
                self.file_size == old(self).file_size,
                self.current_offset == old(self).current_offset,
                self.frame_count == old(self).frame_count + k,
                self.memory_usage <= old(self).memory_usage + k * ENTRY_BYTES,
                old(self).frame_count + buffer@.len() <= u64::MAX,
                old(self).memory_usage + buffer@.len() * ENTRY_BYTES <= usize::MAX,
                consider(
                    old(self).strategy,
                    all,
                    0,
                    old(self).entries@,
                    old(self).frame_count,
                    old(self).memory_usage,
                ) == if stop {
                    (self.entries@, self.frame_count, self.memory_usage)
                } else {
                    consider(
                        self.strategy,
                        all,
                        k as int,
                        self.entries@,
                        self.frame_count,
                        self.memory_usage,
                    )
                },
            decreases all.len() - k,
        {
            let kf = kfs[k];
            let frame = self.frame_count;
            let inc = match self.strategy {
                IndexOptimizationStrategy::Full => true,
                IndexOptimizationStrategy::Sparse => frame % 30 == 0,
                IndexOptimizationStrategy::Adaptive => self.memory_usage < INDEX_MEMORY_LIMIT
                    || frame % 60 == 0,
                IndexOptimizationStrategy::Hierarchical => frame < 300 || frame % 30 == 0,
            };
            if inc {
                let ts = (frame as u128 * 1_000_000 / 30) as u64;
                self.entries.push(
                    KeyframeEntry {
                        timestamp_us: ts,
                        file_offset: kf.offset,
                        frame_size: kf.size,
                        gop_size: kf.gop_size,
                        frame_type: FrameType::I,
                    },
                );
                self.memory_usage = self.memory_usage + ENTRY_BYTES;
            }
            self.frame_count = frame + 1;
            if self.strategy == IndexOptimizationStrategy::Adaptive && self.memory_usage
                > INDEX_MEMORY_LIMIT {
                stop = true;
            }
            k = k + 1;
        }
        self.current_offset = self.current_offset + buffer.len() as u64;
    }

    /// The finished index: spacing of the entries (at least one frame),
    /// and the duration as the greatest of one second per entry, the last
    /// entry plus a frame, and one second, or from the file size and an
    /// assumed bitrate when no keyframe was found.
    pub fn finish(self) -> (index: KeyframeIndex)
        ensures
            index.entries@ == self.entries@,
            index.optimization_strategy == self.strategy,
            index.memory_optimized == (self.strategy != IndexOptimizationStrategy::Full),
            index.memory_usage == self.memory_usage,
            index.index_precision_us == index_precision_of(self.entries@),
            index.total_duration_us == total_duration_of(self.entries@, self.file_size),
    {
        let n = self.entries.len();
        let precision: u64 = if n > 1 {
            let first = self.entries[0].timestamp_us;
            let last = self.entries[n - 1].timestamp_us;
            let span: u64 = if last >= first {
                last - first
            } else {
                0
            };
            let p = span / (n as u64);
            if p > FRAME_US {
                p
            } else {
                FRAME_US
            }
        } else {
            FRAME_US
        };
        let duration: u64 = if n > 0 {
            let last = self.entries[n - 1].timestamp_us;
            let by_count: u128 = (n as u128) * 1_000_000;
            let by_time: u128 = last as u128 + FRAME_US as u128;
            let d = if by_count > by_time {
                by_count
            } else {
                by_time
            };
            let d = if d > 1_000_000 {
                d
            } else {
                1_000_000
            };
            if d > u64::MAX as u128 {
                u64::MAX
            } else {
                d as u64
            }
        } else {
            let bitrate: u128 = if self.file_size <= 10_000_000 {
                1_500_000
            } else if self.file_size <= 100_000_000 {
                3_000_000
            } else {
                5_000_000
            };
            let d: u128 = (self.file_size as u128) * 8_000_000 / bitrate;
            let d = if d > 1_000_000 {
                d
            } else {
                1_000_000
            };
            if d > u64::MAX as u128 {
                u64::MAX
            } else {
                d as u64
            }
        };
        KeyframeIndex {
            entries: self.entries,
            total_duration_us: duration,
            index_precision_us: precision,
            memory_optimized: match self.strategy {
                IndexOptimizationStrategy::Full => false,
                _ => true,
            },
            optimization_strategy: self.strategy,
            memory_usage: self.memory_usage,
        }
    }
}

proof fn lemma_keyframes_len(b: Seq<u8>, base: u64, n: int)
    requires
        0 <= n,
    ensures
        keyframes_before(b, base, n).len() <= n,
    decreases n,
{
    if n > 0 {
        lemma_keyframes_len(b, base, n - 1);
    }
}

/// Spacing of the entries: the time from the first to the last over their
/// number, at least one frame.
pub open spec fn index_precision_of(e: Seq<KeyframeEntry>) -> u64 {
    if e.len() > 1 {
        let span = if e.last().timestamp_us >= e[0].timestamp_us {
            e.last().timestamp_us - e[0].timestamp_us
        } else {
            0
        };
        let p = span / (e.len() as int);
        if p > FRAME_US {
            p as u64
        } else {
            FRAME_US
        }
    } else {
        FRAME_US
    }
}

/// Length of the indexed recording.
pub open spec fn total_duration_of(e: Seq<KeyframeEntry>, file_size: u64) -> u64 {
    if e.len() > 0 {
        let by_count: int = (e.len() as int) * 1_000_000;
        let by_time: int = e.last().timestamp_us + FRAME_US;
        let d = if by_count > by_time {
            by_count
        } else {
            by_time
        };
        let d = if d > 1_000_000 {
            d
        } else {
            1_000_000
        };
        if d > u64::MAX {
            u64::MAX
        } else {
            d as u64
        }
    } else {
        let bitrate = if file_size <= 10_000_000 {
            1_500_000int
        } else if file_size <= 100_000_000 {
            3_000_000
        } else {
            5_000_000
        };
        let d = file_size * 8_000_000 / bitrate;
        if d > u64::MAX {
            u64::MAX
        } else if d > 1_000_000 {
            d as u64
        } else {
            1_000_000
        }
    }
}

/// Where a search by binary halving ends: the number of leading entries
/// whose time is at most `t`, when the entries are in time order.
pub open spec fn search_end(e: Seq<KeyframeEntry>, t: u64, lo: int, hi: int) -> int
    decreases hi - lo,
{
    if lo >= hi || lo < 0 || hi > e.len() {
        lo
    } else {
        let mid = lo + (hi - lo) / 2;
        if e[mid].timestamp_us <= t {
            search_end(e, t, mid + 1, hi)
        } else {
            search_end(e, t, lo, mid)
        }
    }
}

/// The entry a search for `t` settles on: the one before where the search
/// ends, or the first.
pub open spec fn entry_at_or_before(e: Seq<KeyframeEntry>, t: u64) -> KeyframeEntry {
    let l = search_end(e, t, 0, e.len() as int);
    if l > 0 {
        e[l - 1]
    } else {
        e[0]
    }
}

fn binary_search_end(e: &Vec<KeyframeEntry>, t: u64) -> (l: usize)
    ensures
        l == search_end(e@, t, 0, e@.len() as int),
        l <= e@.len(),
{
    let mut left: usize = 0;
    let mut right: usize = e.len();
    while left < right
        invariant
            left <= right <= e@.len(),
            search_end(e@, t, 0, e@.len() as int) == search_end(e@, t, left as int, right as int),
        decreases right - left,
    {
        let mid = left + (right - left) / 2;
        if e[mid].timestamp_us <= t {
            left = mid + 1;
        } else {
            right = mid;
        }
    }
    left
}

/// Law: on entries in time order, the search ends after exactly the
/// entries at or before `t`.
pub proof fn lemma_search_end_sorted(e: Seq<KeyframeEntry>, t: u64, lo: int, hi: int)
    requires
        0 <= lo <= hi <= e.len(),
        forall|i: int, j: int| 0 <= i <= j < e.len() ==> e[i].timestamp_us <= e[j].timestamp_us,
        forall|i: int| 0 <= i < lo ==> e[i].timestamp_us <= t,
        forall|i: int| hi <= i < e.len() ==> e[i].timestamp_us > t,
    ensures
        lo <= search_end(e, t, lo, hi) <= hi,
        forall|i: int| 0 <= i < search_end(e, t, lo, hi) ==> e[i].timestamp_us <= t,
        forall|i: int| search_end(e, t, lo, hi) <= i < e.len() ==> e[i].timestamp_us > t,
    decreases hi - lo,
{
    if lo < hi {
        let mid = lo + (hi - lo) / 2;
        if e[mid].timestamp_us <= t {
            lemma_search_end_sorted(e, t, mid + 1, hi);
        } else {
            lemma_search_end_sorted(e, t, lo, mid);
        }
    }
}

/// Law: on entries in time order, the entry found for `t` is the last one
/// at or before `t` (the first when all are later).
#[verifier::rlimit(40)]
pub proof fn lemma_nearest_keyframe_sorted(e: Seq<KeyframeEntry>, t: u64)
    requires
        e.len() > 0,
        forall|i: int, j: int| 0 <= i <= j < e.len() ==> e[i].timestamp_us <= e[j].timestamp_us,
    ensures
        entry_at_or_before(e, t).timestamp_us <= t || entry_at_or_before(e, t) == e[0],
        forall|i: int|
            0 <= i < e.len() && e[i].timestamp_us <= t ==> e[i].timestamp_us
                <= entry_at_or_before(e, t).timestamp_us,
        (exists|i: int| 0 <= i < e.len() && e[i].timestamp_us <= t) ==> exists|k: int|
            0 <= k < e.len() && entry_at_or_before(e, t) == e[k] && e[k].timestamp_us <= t && forall|j: int|
                k < j < e.len() ==> e[j].timestamp_us > t,
        (forall|i: int| 0 <= i < e.len() ==> e[i].timestamp_us > t) ==> entry_at_or_before(e, t) == e[0],
{
    lemma_search_end_sorted(e, t, 0, e.len() as int);
    let l = search_end(e, t, 0, e.len() as int);
    if l > 0 {
        let k = l - 1;
        assert(entry_at_or_before(e, t) == e[k]);
        assert(e[k].timestamp_us <= t);
        assert(forall|j: int| k < j < e.len() ==> e[j].timestamp_us > t);
    } else {
        assert(entry_at_or_before(e, t) == e[0]);
        assert forall|i: int| 0 <= i < e.len() && e[i].timestamp_us <= t implies false by {
            assert(l <= i);
        }
    }
}

/// The entry at or before `t` in an index, if it has any.
pub fn find_nearest_keyframe(timestamp_us: u64, index: &KeyframeIndex) -> (r: Option<KeyframeEntry>)
    ensures
        index.entries@.len() == 0 ==> r.is_none(),
        index.entries@.len() > 0 ==> r == Some(entry_at_or_before(index.entries@, timestamp_us)),
{
    if index.entries.len() == 0 {
        return None;
    }
    let l = binary_search_end(&index.entries, timestamp_us);
    if l > 0 {
        Some(index.entries[l - 1])
    } else {
        Some(index.entries[0])
    }
}

/// Where a seek by time goes in the file.
#[derive(Debug, Clone, Copy)]
pub struct SeekPlan {
    /// The file offset to seek to.
    pub offset: u64,
    /// The keyframe used (a zero entry at the start when the index is
    /// empty).
    pub keyframe: KeyframeEntry,
    /// Distance from the requested time to the keyframe (microseconds).
    pub precision_us: u64,
}

/// Whether `k` is the last of the entries `e` at or before `t`, or the
/// first entry when every one is later.
pub open spec fn is_last_at_or_before(e: Seq<KeyframeEntry>, t: u64, k: KeyframeEntry) -> bool {
    ||| exists|i: int|
        0 <= i < e.len() && #[trigger] e[i] == k && e[i].timestamp_us <= t && forall|j: int|
            i < j < e.len() ==> e[j].timestamp_us > t
    ||| (forall|i: int| 0 <= i < e.len() ==> e[i].timestamp_us > t) && k == e[0]
}

/// Law: on entries in time order, the entry a search for `t` settles on
/// is the last one at or before `t`, or the first when all are later.
#[verifier::rlimit(40)]
#[verifier::spinoff_prover]
pub proof fn lemma_found_is_last_at_or_before(e: Seq<KeyframeEntry>, t: u64)
    requires
        e.len() > 0,
        entries_time_ordered(e),
    ensures
        is_last_at_or_before(e, t, entry_at_or_before(e, t)),
{
    lemma_search_end_sorted(e, t, 0, e.len() as int);
    let l = search_end(e, t, 0, e.len() as int);
    if l > 0 {
        let k = l - 1;
        assert(e[k] == entry_at_or_before(e, t));
        assert(e[k].timestamp_us <= t);
        assert(forall|j: int| k < j < e.len() ==> e[j].timestamp_us > t);
    } else {
        assert(entry_at_or_before(e, t) == e[0]);
        assert(forall|i: int| 0 <= i < e.len() ==> e[i].timestamp_us > t);
    }
}

/// Whether index entries are in time order.
pub open spec fn entries_time_ordered(e: Seq<KeyframeEntry>) -> bool {
    forall|i: int, j: int| 0 <= i <= j < e.len() ==> e[i].timestamp_us <= e[j].timestamp_us
}

/// The plan of a seek to `time_us`: negative times and times past the end
/// are refused; the keyframe at or before the time is used, the start of
/// the file when there is none.
pub fn seek_plan(time_us: i64, index: &KeyframeIndex) -> (r: Result<SeekPlan, FileError>)
    ensures
        time_us < 0 ==> r matches Err(FileError::InvalidSeekPosition),
        time_us >= 0 && time_us > index.total_duration_us ==> r matches Err(FileError::SeekBeyondEnd),
        0 <= time_us <= index.total_duration_us ==> (r matches Ok(p) && if index.entries@.len() > 0 {
            let k = entry_at_or_before(index.entries@, time_us as u64);
            &&& p.keyframe == k
            &&& p.offset == k.file_offset
            &&& p.precision_us == if time_us >= k.timestamp_us {
                time_us - k.timestamp_us
            } else {
                k.timestamp_us - time_us
            }
        } else {
            &&& p.offset == 0
            &&& p.keyframe.timestamp_us == 0
            &&& p.keyframe.file_offset == 0
            &&& p.precision_us == time_us
        }),
        0 <= time_us <= index.total_duration_us && index.entries@.len() > 0
            && entries_time_ordered(index.entries@) ==> (r matches Ok(p) && is_last_at_or_before(
            index.entries@,
            time_us as u64,
            p.keyframe,
        )),
{
    if time_us >= 0 && index.entries.len() > 0 {
        proof {
            if entries_time_ordered(index.entries@) {
                lemma_found_is_last_at_or_before(index.entries@, time_us as u64);
            }
        }
    }
    if time_us < 0 {
        return Err(FileError::InvalidSeekPosition);
    }
    let t = time_us as u64;
    if t > index.total_duration_us {
        return Err(FileError::SeekBeyondEnd);
    }
    match find_nearest_keyframe(t, index) {
        Some(k) => {
            let precision = if t >= k.timestamp_us {
                t - k.timestamp_us
            } else {
                k.timestamp_us - t
            };
            Ok(SeekPlan { offset: k.file_offset, keyframe: k, precision_us: precision })
        },
        None => Ok(
            SeekPlan {
                offset: 0,
                keyframe: KeyframeEntry {
                    timestamp_us: 0,
                    file_offset: 0,
                    frame_size: 0,
                    gop_size: 0,
                    frame_type: FrameType::I,
                },
                precision_us: t,
            },
        ),
    }
}

/// After seeking, the position must be the planned one.
pub fn check_seek_position(actual: u64, expected: u64) -> (r: Result<(), FileError>)
    ensures
        r.is_ok() == (actual == expected),
        r.is_err() ==> r matches Err(FileError::SeekFailed),
{
    if actual != expected {
        Err(FileError::SeekFailed)
    } else {
        Ok(())
    }
}

/// A seek outcome.
#[derive(Debug, Clone, Copy)]
pub struct SeekResult {
    pub requested_time_us: u64,
    pub actual_time_us: u64,
    pub keyframe_offset: u64,
    /// Precision reached (parts per million for the controller, distance
    /// in microseconds for the file reader).
    pub precision_achieved: u64,
    pub keyframe_used: KeyframeEntry,
    pub execution_time_us: u64,
}

/// Frame counts gathered over the first part of a file.
#[derive(Debug, Clone, Copy)]
pub struct DurationScan {
    pub keyframes: u32,
    pub total_frames: u32,
    pub bytes_analyzed: u64,
    /// Bytes to analyze: the first 10 MiB at most.
    pub limit: u64,
}

/// Estimated timing of a raw H.264 file.
#[derive(Debug, Clone, Copy)]
pub struct H264DurationInfo {
    pub duration_us: u64,
    /// Thousandths of fps.
    pub estimated_frame_rate_milli: u64,
    pub estimated_bitrate: u64,
    pub keyframe_count: u32,
    pub total_frames: u32,
}

/// Bytes of a file analyzed for its duration.
pub const DURATION_SCAN_LIMIT: u64 = 10 * 1024 * 1024;

impl DurationScan {
    pub fn new(file_size: u64) -> (s: Self)
        ensures
            s.keyframes == 0,
            s.total_frames == 0,
            s.bytes_analyzed == 0,
            s.limit == if file_size < DURATION_SCAN_LIMIT {
                file_size
            } else {
                DURATION_SCAN_LIMIT
            },
    {
        DurationScan {
            keyframes: 0,
            total_frames: 0,
            bytes_analyzed: 0,
            limit: if file_size < DURATION_SCAN_LIMIT {
                file_size
            } else {
                DURATION_SCAN_LIMIT
            },
        }
    }

    pub fn wants_more(&self) -> (r: bool)
        ensures
            r == (self.bytes_analyzed < self.limit),
    {
        self.bytes_analyzed < self.limit
    }

    /// Adds the frames of the next bytes read.
    pub fn feed(&mut self, buffer: &[u8])
        requires
            buffer@.len() <= u32::MAX,
            old(self).bytes_analyzed + buffer@.len() <= u64::MAX,
            old(self).total_frames + buffer@.len() <= u32::MAX,
            old(self).keyframes <= old(self).total_frames,
        ensures
            final(self).keyframes <= final(self).total_frames,
            final(self).keyframes == old(self).keyframes + crate::h264::frame_counts_from(buffer@, 0).0,
            final(self).total_frames == old(self).total_frames + crate::h264::frame_counts_from(
                buffer@,
                0,
            ).1,
            final(self).bytes_analyzed == old(self).bytes_analyzed + buffer@.len(),
            final(self).limit == old(self).limit,
    {
        let reader = DefaultFileStreamReader::new();
        let a = reader.analyze_h264_frames_in_buffer(buffer);
        proof {
            crate::h264::lemma_frame_counts_bounded(buffer@, 0);
        }
        self.keyframes = self.keyframes + a.keyframes;
        self.total_frames = self.total_frames + a.total_frames;
        self.bytes_analyzed = self.bytes_analyzed + buffer.len() as u64;
    }

    /// The estimated timing of a file of `file_size` bytes: one second per
    /// keyframe (or the size over the assumed bitrate), a frame rate
    /// extrapolated from the analyzed part between 15 and 60 fps (30 when
    /// unknown), a bitrate of at least 500 kbps (2 Mbps when unknown), and
    /// at least 0.1 s.
    pub fn finish(&self, file_size: u64) -> (r: H264DurationInfo)
        ensures
            r.keyframe_count == self.keyframes,
            r.total_frames == self.total_frames,
            r.duration_us == (if raw_duration_us(self.keyframes, file_size) > 100_000 {
                raw_duration_us(self.keyframes, file_size)
            } else {
                100_000
            }),
            r.estimated_bitrate == bitrate_estimate(raw_duration_us(self.keyframes, file_size), file_size),
            r.estimated_frame_rate_milli == frame_rate_estimate(
                raw_duration_us(self.keyframes, file_size),
                self.total_frames,
                self.bytes_analyzed,
                file_size,
            ),
    {
        let raw: u64 = if self.keyframes > 0 {
            (self.keyframes as u64) * 1_000_000
        } else {
            let b = estimated_bitrate_u64(file_size);
            let d: u128 = (file_size as u128) * 8_000_000 / (b as u128);
            proof {
                vstd::arithmetic::div_mod::lemma_div_is_ordered_by_denominator(
                    (file_size as int) * 8_000_000,
                    500_000,
                    b as int,
                );
            }
            if d > u64::MAX as u128 {
                u64::MAX
            } else {
                d as u64
            }
        };
        let frame_rate: u64 = if raw > 0 && self.total_frames > 0 && self.bytes_analyzed > 0 {
            assert((self.total_frames as u128) * (file_size as u128) * 1_000_000_000 <= u32::MAX
                * u64::MAX * 1_000_000_000) by (nonlinear_arith);
            let num: u128 = (self.total_frames as u128) * (file_size as u128) * 1_000_000_000;
            assert((self.bytes_analyzed as u128) * (raw as u128) <= u64::MAX * u64::MAX) by (nonlinear_arith);
            let den: u128 = (self.bytes_analyzed as u128) * (raw as u128);
            assert(den > 0) by (nonlinear_arith)
                requires
                    self.bytes_analyzed > 0,
                    raw > 0,
                    den == (self.bytes_analyzed as u128) * (raw as u128),
            ;
            let f = num / den;
            if f > 60_000 {
                60_000
            } else if f < 15_000 {
                15_000
            } else {
                f as u64
            }
        } else {
            30_000
        };
        let bitrate: u64 = if raw > 0 {
            let b: u128 = (file_size as u128) * 8_000_000 / (raw as u128);
            proof {
                vstd::arithmetic::div_mod::lemma_div_is_ordered_by_denominator(
                    (file_size as int) * 8_000_000,
                    1,
                    raw as int,
                );
            }
            if b < 500_000 {
                500_000
            } else if b > u64::MAX as u128 {
                u64::MAX
            } else {
                b as u64
            }
        } else {
            2_000_000
        };
        H264DurationInfo {
            duration_us: if raw > 100_000 {
                raw
            } else {
                100_000
            },
            estimated_frame_rate_milli: frame_rate,
            estimated_bitrate: bitrate,
            keyframe_count: self.keyframes,
            total_frames: self.total_frames,
        }
    }
}

fn estimated_bitrate_u64(file_size: u64) -> (b: u64)
    ensures
        b == estimated_bitrate_for(file_size),
        b >= 500_000,
{
    DefaultFileStreamReader::new().estimate_h264_bitrate(file_size)
}

/// One second per keyframe, or the time the file lasts at the assumed
/// bitrate.
pub open spec fn raw_duration_us(keyframes: u32, file_size: u64) -> u64 {
    if keyframes > 0 {
        (keyframes * 1_000_000) as u64
    } else {
        let d = file_size * 8_000_000 / (estimated_bitrate_for(file_size) as int);
        if d > u64::MAX {
            u64::MAX
        } else {
            d as u64
        }
    }
}

/// The bitrate from size and duration, at least 500 kbps; 2 Mbps when the
/// duration is zero.
pub open spec fn bitrate_estimate(duration_us: u64, file_size: u64) -> u64 {
    if duration_us > 0 {
        let b = file_size * 8_000_000 / (duration_us as int);
        if b < 500_000 {
            500_000
        } else if b > u64::MAX {
            u64::MAX
        } else {
            b as u64
        }
    } else {
        2_000_000
    }
}

/// The frame rate extrapolated from the analyzed part, between 15 and 60
/// fps; 30 fps without data.
pub open spec fn frame_rate_estimate(duration_us: u64, total_frames: u32, analyzed: u64, file_size: u64) -> u64 {
    if duration_us > 0 && total_frames > 0 && analyzed > 0 {
        let f = total_frames * file_size * 1_000_000_000 / (analyzed * duration_us);
        if f > 60_000 {
            60_000
        } else if f < 15_000 {
            15_000
        } else {
            f as u64
        }
    } else {
        30_000
    }
}

/// Frames a builder may count for its entry times to stay exact.
pub const INDEX_FRAME_LIMIT: u64 = 1_000_000_000_000;

/// Whether index entries are keyframes (`I`) in strictly increasing order
/// of time and of file offset, all before the time of frame `frame` and
/// before `offset`, with `memory` bytes counted for them.
pub open spec fn entries_sound(e: Seq<KeyframeEntry>, frame: u64, memory: usize, offset: u64) -> bool {
    &&& memory == e.len() * ENTRY_BYTES
    &&& forall|i: int|
        0 <= i < e.len() ==> (#[trigger] e[i]).frame_type == FrameType::I && e[i].timestamp_us
            < frame_time_us(frame) && e[i].file_offset < offset
    &&& forall|i: int, j: int|
        0 <= i < j < e.len() ==> (#[trigger] e[i]).timestamp_us < (#[trigger] e[j]).timestamp_us
            && e[i].file_offset < e[j].file_offset
}

proof fn lemma_keyframes_before_ordered(b: Seq<u8>, base: u64, n: int)
    requires
        0 <= n,
        base + n <= u64::MAX,
    ensures
        ({
            let k = keyframes_before(b, base, n);
            &&& k.len() <= n
            &&& forall|i: int| 0 <= i < k.len() ==> base <= (#[trigger] k[i]).offset < base + n
            &&& forall|i: int, j: int| 0 <= i < j < k.len() ==> (#[trigger] k[i]).offset < (#[trigger] k[j]).offset
        }),
    decreases n,
{
    if n > 0 {
        lemma_keyframes_before_ordered(b, base, n - 1);
    }
}

proof fn lemma_frame_time_increases(f: u64)
    requires
        f < u64::MAX,
    ensures
        frame_time_us(f) < frame_time_us((f + 1) as u64),
{
    assert((f * 1_000_000) / 30 < ((f + 1) * 1_000_000) / 30) by (nonlinear_arith);
}

proof fn lemma_consider_sound(
    s: IndexOptimizationStrategy,
    kfs: Seq<KeyframeInfo>,
    k: int,
    entries: Seq<KeyframeEntry>,
    frame: u64,
    memory: usize,
    lo: u64,
    top: u64,
)
    requires
        0 <= k <= kfs.len(),
        entries_sound(entries, frame, memory, lo),
        lo <= top,
        forall|i: int| k <= i < kfs.len() ==> lo <= (#[trigger] kfs[i]).offset < top,
        forall|i: int, j: int| k <= i < j < kfs.len() ==> (#[trigger] kfs[i]).offset < (#[trigger] kfs[j]).offset,
        frame + (kfs.len() - k) <= INDEX_FRAME_LIMIT,
        memory + (kfs.len() - k) * ENTRY_BYTES <= usize::MAX,
    ensures
        ({
            let r = consider(s, kfs, k, entries, frame, memory);
            entries_sound(r.0, r.1, r.2, top)
        }),
    decreases kfs.len() - k,
{
    if k >= kfs.len() {
        assert(entries_sound(entries, frame, memory, top));
    } else {
        let kf = kfs[k];
        let inc = should_include(s, frame, memory);
        let ts = frame_time_us(frame);
        assert(0 <= ts <= u64::MAX) by (nonlinear_arith)
            requires
                ts == (frame * 1_000_000) / 30,
                frame <= INDEX_FRAME_LIMIT,
        ;
        lemma_frame_time_increases(frame);
        let e = KeyframeEntry {
            timestamp_us: ts as u64,
            file_offset: kf.offset,
            frame_size: kf.size,
            gop_size: kf.gop_size,
            frame_type: FrameType::I,
        };
        let e2 = if inc { entries.push(e) } else { entries };
        let m2 = if inc { (memory + ENTRY_BYTES) as usize } else { memory };
        let f2 = (frame + 1) as u64;
        let lo2: u64 = if inc { (kf.offset + 1) as u64 } else { lo };
        assert(entries_sound(e2, f2, m2, lo2)) by {
            if inc {
                assert(e2.len() == entries.len() + 1);
                assert forall|i: int, j: int| 0 <= i < j < e2.len() implies (#[trigger] e2[i]).timestamp_us
                    < (#[trigger] e2[j]).timestamp_us && e2[i].file_offset < e2[j].file_offset by {
                    if j == entries.len() {
                        assert(e2[i] == entries[i]);
                    } else {
                        assert(e2[i] == entries[i] && e2[j] == entries[j]);
                    }
                }
                assert forall|i: int| 0 <= i < e2.len() implies (#[trigger] e2[i]).frame_type == FrameType::I
                    && e2[i].timestamp_us < frame_time_us(f2) && e2[i].file_offset < lo2 by {
                    if i < entries.len() {
                        assert(e2[i] == entries[i]);
                    }
                }
            }
        }
        if s == IndexOptimizationStrategy::Adaptive && m2 > INDEX_MEMORY_LIMIT {
        } else {
            lemma_consider_sound(s, kfs, k + 1, e2, f2, m2, lo2, top);
        }
    }
}

/// Law: feeding a builder keeps its entries sound: keyframes (`I`) in
/// strictly increasing order of time and of file offset, every one before
/// the bytes still to come, with `ENTRY_BYTES` counted for each. A new
/// builder's entries are sound, and `finish` hands over the entries and
/// the count, so every index built this way is sound.
pub proof fn lemma_feed_keeps_entries_sound(
    s: IndexOptimizationStrategy,
    buffer: Seq<u8>,
    entries: Seq<KeyframeEntry>,
    frame: u64,
    memory: usize,
    offset: u64,
)
    requires
        entries_sound(entries, frame, memory, offset),
        offset + buffer.len() <= u64::MAX,
        frame + buffer.len() <= INDEX_FRAME_LIMIT,
        memory + buffer.len() * ENTRY_BYTES <= usize::MAX,
    ensures
        ({
            let r = consider(
                s,
                keyframes_before(buffer, offset, keyframe_scan_len(buffer)),
                0,
                entries,
                frame,
                memory,
            );
            entries_sound(r.0, r.1, r.2, (offset + buffer.len()) as u64)
        }),
{
    let n = keyframe_scan_len(buffer);
    lemma_keyframes_before_ordered(buffer, offset, n);
    let kfs = keyframes_before(buffer, offset, n);
    assert(kfs.len() * ENTRY_BYTES <= buffer.len() * ENTRY_BYTES) by (nonlinear_arith)
        requires
            kfs.len() <= buffer.len(),
    ;
    lemma_consider_sound(s, kfs, 0, entries, frame, memory, offset, (offset + buffer.len()) as u64);
}

/// Law: every built index lasts at least one second.
pub proof fn lemma_index_lasts_a_second(e: Seq<KeyframeEntry>, file_size: u64)
    ensures
        total_duration_of(e, file_size) >= 1_000_000,
{
}

/// Law: a new builder's entries are sound.
pub proof fn lemma_new_builder_sound(b: IndexBuilder)
    requires
        b.entries@.len() == 0,
        b.frame_count == 0,
        b.memory_usage == 0,
    ensures
        entries_sound(b.entries@, b.frame_count, b.memory_usage, b.current_offset),
{
}

proof fn lemma_consider_counts(
    s: IndexOptimizationStrategy,
    kfs: Seq<KeyframeInfo>,
    k: int,
    entries: Seq<KeyframeEntry>,
    frame: u64,
    memory: usize,
)
    requires
        0 <= k <= kfs.len(),
        frame + (kfs.len() - k) <= u64::MAX,
        memory + (kfs.len() - k) * ENTRY_BYTES <= usize::MAX,
    ensures
        ({
            let r = consider(s, kfs, k, entries, frame, memory);
            &&& frame <= r.1 <= frame + (kfs.len() - k)
            &&& entries.len() <= r.0.len() <= entries.len() + (r.1 - frame)
        }),
    decreases kfs.len() - k,
{
    if k < kfs.len() {
        let inc = should_include(s, frame, memory);
        let e2 = if inc {
            entries.push(
                KeyframeEntry {
                    timestamp_us: frame_time_us(frame) as u64,
                    file_offset: kfs[k].offset,
                    frame_size: kfs[k].size,
                    gop_size: kfs[k].gop_size,
                    frame_type: FrameType::I,
                },
            )
        } else {
            entries
        };
        let m2 = if inc {
            (memory + ENTRY_BYTES) as usize
        } else {
            memory
        };
        let f2 = (frame + 1) as u64;
        if !(s == IndexOptimizationStrategy::Adaptive && m2 > INDEX_MEMORY_LIMIT) {
            lemma_consider_counts(s, kfs, k + 1, e2, f2, m2);
        }
    }
}

/// The bytes in a run of buffers.
pub open spec fn bytes_fed(buffers: Seq<Seq<u8>>) -> nat
    decreases buffers.len(),
{
    if buffers.len() == 0 {
        0
    } else {
        bytes_fed(buffers.drop_last()) + buffers.last().len()
    }
}

/// The entries, keyframe count, memory and offset of a new builder with
/// strategy `s` after it has been fed `buffers` in turn.
pub open spec fn fed(s: IndexOptimizationStrategy, buffers: Seq<Seq<u8>>) -> (
    Seq<KeyframeEntry>,
    u64,
    usize,
    u64,
)
    decreases buffers.len(),
{
    if buffers.len() == 0 {
        (seq![], 0, 0, 0)
    } else {
        let prev = fed(s, buffers.drop_last());
        let b = buffers.last();
        let r = consider(s, keyframes_before(b, prev.3, keyframe_scan_len(b)), 0, prev.0, prev.1, prev.2);
        (r.0, r.1, r.2, (prev.3 + b.len()) as u64)
    }
}

/// Law: a whole index build (a new builder fed the file's buffers in turn,
/// then finished) gives entries that are all keyframes (`I`) in strictly
/// increasing order of time and of file offset, within the bytes read,
/// with `ENTRY_BYTES` of memory counted for each, and an index that lasts
/// at least one second.
pub proof fn lemma_whole_build_sound(
    s: IndexOptimizationStrategy,
    buffers: Seq<Seq<u8>>,
    file_size: u64,
)
    requires
        bytes_fed(buffers) <= INDEX_FRAME_LIMIT,
        bytes_fed(buffers) * ENTRY_BYTES <= usize::MAX,
    ensures
        ({
            let r = fed(s, buffers);
            &&& entries_sound(r.0, r.1, r.2, r.3)
            &&& r.2 == r.0.len() * ENTRY_BYTES
            &&& r.3 == bytes_fed(buffers)
            &&& r.0.len() <= r.1 <= r.3
            &&& total_duration_of(r.0, file_size) >= 1_000_000
        }),
    decreases buffers.len(),
{
    if buffers.len() > 0 {
        let rest = buffers.drop_last();
        let b = buffers.last();
        assert(bytes_fed(rest) <= bytes_fed(buffers));
        assert(bytes_fed(rest) * ENTRY_BYTES <= bytes_fed(buffers) * ENTRY_BYTES) by (nonlinear_arith)
            requires
                0 <= bytes_fed(rest) <= bytes_fed(buffers),
        ;
        lemma_whole_build_sound(s, rest, file_size);
        let prev = fed(s, rest);
        let n = keyframe_scan_len(b);
        lemma_keyframes_len(b, prev.3, n);
        let kfs = keyframes_before(b, prev.3, n);
        assert(prev.2 + b.len() * ENTRY_BYTES <= usize::MAX) by (nonlinear_arith)
            requires
                prev.2 == prev.0.len() * ENTRY_BYTES,
                prev.0.len() <= prev.3,
                prev.3 + b.len() == bytes_fed(buffers),
                bytes_fed(buffers) * ENTRY_BYTES <= usize::MAX,
        ;
        assert(kfs.len() * ENTRY_BYTES <= b.len() * ENTRY_BYTES) by (nonlinear_arith)
            requires
                kfs.len() <= b.len(),
        ;
        lemma_feed_keeps_entries_sound(s, b, prev.0, prev.1, prev.2, prev.3);
        lemma_consider_counts(s, kfs, 0, prev.0, prev.1, prev.2);
    }
    lemma_index_lasts_a_second(fed(s, buffers).0, file_size);
}

/// Where a keyframe index is looked for: the timeline cache, FFmpeg, or a
/// scan of the file's bytes.
#[derive(Debug, Clone, Copy, PartialEq, Eq, Structural)]
pub enum IndexSourceStep {
    Cache,
    Ffmpeg,
    Scan,
}

/// What follows one attempt to get an index.
#[derive(Debug, Clone, Copy, PartialEq, Eq, Structural)]
pub enum IndexStepDecision {
    /// Use the index found, saving it to the timeline cache if `save`.
    Use { save: bool },
    /// Try the next source.
    Try(IndexSourceStep),
    /// No index can be had.
    GiveUp,
}

/// The first source to try: the cache when it is enabled, else FFmpeg when
/// it is enabled, else a scan.
pub open spec fn first_index_source(cache_enabled: bool, ffmpeg_enabled: bool) -> IndexSourceStep {
    if cache_enabled {
        IndexSourceStep::Cache
    } else if ffmpeg_enabled {
        IndexSourceStep::Ffmpeg
    } else {
        IndexSourceStep::Scan
    }
}

/// After trying `step`: an index found is used (and cached when it did not
/// come from the cache and the cache is enabled); otherwise the cache is
/// followed by FFmpeg when enabled, FFmpeg by a scan, and a failed scan
/// ends the search.
pub open spec fn index_step_after(
    step: IndexSourceStep,
    found: bool,
    cache_enabled: bool,
    ffmpeg_enabled: bool,
) -> IndexStepDecision {
    if found {
        IndexStepDecision::Use { save: cache_enabled && step != IndexSourceStep::Cache }
    } else {
        match step {
            IndexSourceStep::Cache => IndexStepDecision::Try(
                if ffmpeg_enabled {
                    IndexSourceStep::Ffmpeg
                } else {
                    IndexSourceStep::Scan
                },
            ),
            IndexSourceStep::Ffmpeg => IndexStepDecision::Try(IndexSourceStep::Scan),
            IndexSourceStep::Scan => IndexStepDecision::GiveUp,
        }
    }
}

/// The first source to look for a keyframe index in.
pub fn first_index_step(cache_enabled: bool, ffmpeg_enabled: bool) -> (s: IndexSourceStep)
    ensures
        s == first_index_source(cache_enabled, ffmpeg_enabled),
{
    if cache_enabled {
        IndexSourceStep::Cache
    } else if ffmpeg_enabled {
        IndexSourceStep::Ffmpeg
    } else {
        IndexSourceStep::Scan
    }
}

/// What to do after looking for a keyframe index in `step`.
pub fn next_index_step(step: IndexSourceStep, found: bool, cache_enabled: bool, ffmpeg_enabled: bool) -> (d:
    IndexStepDecision)
    ensures
        d == index_step_after(step, found, cache_enabled, ffmpeg_enabled),
{
    if found {
        let from_cache = match step {
            IndexSourceStep::Cache => true,
            _ => false,
        };
        return IndexStepDecision::Use { save: cache_enabled && !from_cache };
    }
    match step {
        IndexSourceStep::Cache => IndexStepDecision::Try(
            if ffmpeg_enabled {
                IndexSourceStep::Ffmpeg
            } else {
                IndexSourceStep::Scan
            },
        ),
        IndexSourceStep::Ffmpeg => IndexStepDecision::Try(IndexSourceStep::Scan),
        IndexSourceStep::Scan => IndexStepDecision::GiveUp,
    }
}

/// Law: the `Sparse` strategy records exactly every thirtieth keyframe:
/// considering the keyframes `kfs` from `k` on, counted on from `frame`,
/// keeps the entries already there and adds one entry for each keyframe
/// whose number is a multiple of 30, in order, at that keyframe's offset
/// and at the time of its number; so a new builder fed n keyframes records
/// ceil(n / 30) of them, keyframes 0, 30, 60, and so on.
pub proof fn lemma_sparse_keeps_every_thirtieth(
    kfs: Seq<KeyframeInfo>,
    k: int,
    entries: Seq<KeyframeEntry>,
    frame: u64,
    memory: usize,
)
    requires
        0 <= k <= kfs.len(),
        frame + (kfs.len() - k) <= INDEX_FRAME_LIMIT,
    ensures
        ({
            let r = consider(IndexOptimizationStrategy::Sparse, kfs, k, entries, frame, memory);
            let n = kfs.len() - k;
            let first = (frame + 29) / 30;
            &&& r.1 == frame + n
            &&& r.0.len() == entries.len() + (frame + n + 29) / 30 - first
            &&& forall|i: int| 0 <= i < entries.len() ==> #[trigger] r.0[i] == entries[i]
            &&& forall|i: int|
                entries.len() <= i < r.0.len() ==> {
                    let g = 30 * (first + i - entries.len());
                    &&& frame <= g < frame + n
                    &&& (#[trigger] r.0[i]).timestamp_us == frame_time_us(g as u64)
                    &&& r.0[i].file_offset == kfs[k + g - frame].offset
                    &&& r.0[i].frame_type == FrameType::I
                }
        }),
    decreases kfs.len() - k,
{
    let s = IndexOptimizationStrategy::Sparse;
    if k < kfs.len() {
        let inc = should_include(s, frame, memory);
        let e = KeyframeEntry {
            timestamp_us: frame_time_us(frame) as u64,
            file_offset: kfs[k].offset,
            frame_size: kfs[k].size,
            gop_size: kfs[k].gop_size,
            frame_type: FrameType::I,
        };
        let e2 = if inc { entries.push(e) } else { entries };
        let m2 = if inc { (memory + ENTRY_BYTES) as usize } else { memory };
        let f2 = (frame + 1) as u64;
        assert(0 <= frame_time_us(frame) <= u64::MAX) by (nonlinear_arith)
            requires
                frame <= INDEX_FRAME_LIMIT,
        ;
        lemma_sparse_keeps_every_thirtieth(kfs, k + 1, e2, f2, m2);
        let r = consider(s, kfs, k, entries, frame, memory);
        assert(r == consider(s, kfs, k + 1, e2, f2, m2));
        let first = (frame + 29) / 30;
        if inc {
            assert(frame % 30 == 0);
            assert((f2 + 29) / 30 == first + 1);
            assert(r.0[entries.len() as int] == e2[entries.len() as int]);
            assert(30 * first == frame);
        } else {
            assert((f2 + 29) / 30 == first);
        }
        assert forall|i: int| 0 <= i < entries.len() implies #[trigger] r.0[i] == entries[i] by {
            assert(r.0[i] == e2[i]);
        }
    }
}

/// Law: the `Full` strategy records every keyframe: considering the
/// keyframes `kfs` from `k` on, counted on from `frame`, keeps the entries
/// already there and adds one entry per keyframe, in order, at its offset
/// and at the time of its number.
pub proof fn lemma_full_keeps_every_keyframe(
    kfs: Seq<KeyframeInfo>,
    k: int,
    entries: Seq<KeyframeEntry>,
    frame: u64,
    memory: usize,
)
    requires
        0 <= k <= kfs.len(),
        frame + (kfs.len() - k) <= INDEX_FRAME_LIMIT,
    ensures
        ({
            let r = consider(IndexOptimizationStrategy::Full, kfs, k, entries, frame, memory);
            &&& r.1 == frame + (kfs.len() - k)
            &&& r.0.len() == entries.len() + (kfs.len() - k)
            &&& forall|i: int| 0 <= i < entries.len() ==> #[trigger] r.0[i] == entries[i]
            &&& forall|i: int|
                entries.len() <= i < r.0.len() ==> {
                    let g = frame + (i - entries.len());
                    &&& (#[trigger] r.0[i]).timestamp_us == frame_time_us(g as u64)
                    &&& r.0[i].file_offset == kfs[k + (i - entries.len())].offset
                    &&& r.0[i].frame_type == FrameType::I
                }
        }),
    decreases kfs.len() - k,
{
    let s = IndexOptimizationStrategy::Full;
    if k < kfs.len() {
        let e = KeyframeEntry {
            timestamp_us: frame_time_us(frame) as u64,
            file_offset: kfs[k].offset,
            frame_size: kfs[k].size,
            gop_size: kfs[k].gop_size,
            frame_type: FrameType::I,
        };
        let e2 = entries.push(e);
        let m2 = (memory + ENTRY_BYTES) as usize;
        let f2 = (frame + 1) as u64;
        assert(0 <= frame_time_us(frame) <= u64::MAX) by (nonlinear_arith)
            requires
                frame <= INDEX_FRAME_LIMIT,
        ;
        lemma_full_keeps_every_keyframe(kfs, k + 1, e2, f2, m2);
        let r = consider(s, kfs, k, entries, frame, memory);
        assert(r == consider(s, kfs, k + 1, e2, f2, m2));
        assert(r.0[entries.len() as int] == e2[entries.len() as int]);
        assert forall|i: int| 0 <= i < entries.len() implies #[trigger] r.0[i] == entries[i] by {
            assert(r.0[i] == e2[i]);
        }
    }
}

} // verus!
