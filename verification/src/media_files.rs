//! Video files on the device and their timeline caches: format detection,
//! content hashes, and when a cached keyframe index may be reused.
//!
//! Times are in microseconds since the epoch.

use vstd::prelude::*;
use vstd::string::StringExecFns;
use sha2::Digest;
use crate::keyframe_index::KeyframeIndex;
use crate::playback::Resolution;
use crate::text::str_equals;
use crate::http::{lowercase_of, to_lowercase};

verus! {

/// Container formats of recordings.
#[derive(Debug, Clone, Copy, PartialEq, Eq, Structural)]
pub enum VideoFormat {
    H264,
    MP4,
}

/// A recording found on the device.
#[derive(Debug, Clone)]
pub struct VideoFile {
    pub path: std::path::PathBuf,
    pub name: String,
    pub format: VideoFormat,
    pub size: u64,
}

/// The file-name extension of a path, as `Path::extension` gives it,
/// lossily decoded.
pub uninterp spec fn lossy_extension_of(path: std::path::PathBuf) -> Option<Seq<char>>;

/// The file-name extension of a path, if it has one (lossily decoded).
#[verifier::external_body]
fn lossy_extension(path: &std::path::PathBuf) -> (r: Option<String>)
    ensures
        match r {
            Some(e) => lossy_extension_of(*path) == Some(e@),
            None => lossy_extension_of(*path).is_none(),
        },
{
    path.extension().map(|e| e.to_string_lossy().into_owned())
}

/// The lower-cased extension of a path, if it has one.
pub open spec fn lowercase_extension_of(path: std::path::PathBuf) -> Option<Seq<char>> {
    match lossy_extension_of(path) {
        Some(e) => Some(lowercase_of(e)),
        None => None,
    }
}

/// The format of a recording with a (lower-cased) extension: MP4 for
/// `mp4`, raw H.264 otherwise.
pub open spec fn format_of(ext: Option<Seq<char>>) -> VideoFormat {
    match ext {
        Some(e) => if e == "mp4"@ {
            VideoFormat::MP4
        } else {
            VideoFormat::H264
        },
        None => VideoFormat::H264,
    }
}

/// Whether a (lower-cased) extension names a recording.
pub open spec fn is_video_extension_of(e: Seq<char>) -> bool {
    e == "h264"@ || e == "264"@ || e == "mp4"@
}

/// The format for an extension.
pub fn format_for_extension(ext: Option<&str>) -> (f: VideoFormat)
    ensures
        f == format_of(
            match ext {
                Some(e) => Some(e@),
                None => None,
            },
        ),
{
    match ext {
        Some(e) => {
            if str_equals(e, "mp4") {
                VideoFormat::MP4
            } else {
                VideoFormat::H264
            }
        },
        None => VideoFormat::H264,
    }
}

/// Whether an extension names a recording.
pub fn is_video_extension(ext: &str) -> (r: bool)
    ensures
        r == is_video_extension_of(ext@),
{
    str_equals(ext, "h264") || str_equals(ext, "264") || str_equals(ext, "mp4")
}

/// The format of a recording, from its extension.
pub fn detect_format(path: &std::path::PathBuf) -> (f: VideoFormat)
    ensures
        f == format_of(lowercase_extension_of(*path)),
{
    let ext = match lossy_extension(path) {
        Some(e) => Some(to_lowercase(e.as_str())),
        None => None,
    };
    let f = match &ext {
        Some(e) => format_for_extension(Some(e.as_str())),
        None => format_for_extension(None),
    };
    proof {
        match ext {
            Some(e) => {
                assert(f == format_of(Some(e@)));
            },
            None => {
                assert(f == format_of(None));
            },
        }
    }
    f
}

/// The SHA-256 digest of some bytes.
pub uninterp spec fn sha256_of(data: Seq<u8>) -> Seq<u8>;

/// The SHA-256 digest (32 bytes) of `data`, as `sha2` computes it.
#[verifier::external_body]
fn sha256(data: &[u8]) -> (r: Vec<u8>)
    ensures
        r@ == sha256_of(data@),
        r@.len() == 32,
{
    sha2::Sha256::digest(data).to_vec()
}

/// A lower-case hexadecimal digit.
pub open spec fn hex_digit(n: int) -> char {
    if n < 10 {
        ((n + 48) as u8) as char
    } else {
        ((n + 87) as u8) as char
    }
}

/// Bytes as lower-case hexadecimal, two digits each.
pub open spec fn hex_of(b: Seq<u8>) -> Seq<char>
    decreases b.len(),
{
    if b.len() == 0 {
        seq![]
    } else {
        hex_of(b.drop_last()) + seq![hex_digit((b.last() / 16) as int), hex_digit((b.last() % 16) as int)]
    }
}

/// The one-character string of the hexadecimal digit `n`.
fn hex_str(n: u8) -> (s: &'static str)
    requires
        n < 16,
    ensures
        s@ == seq![hex_digit(n as int)],
{
    let s = match n {
        0 => "0",
        1 => "1",
        2 => "2",
        3 => "3",
        4 => "4",
        5 => "5",
        6 => "6",
        7 => "7",
        8 => "8",
        9 => "9",
        10 => "a",
        11 => "b",
        12 => "c",
        13 => "d",
        14 => "e",
        _ => "f",
    };
    proof {
        reveal_strlit("0");
        reveal_strlit("1");
        reveal_strlit("2");
        reveal_strlit("3");
        reveal_strlit("4");
        reveal_strlit("5");
        reveal_strlit("6");
        reveal_strlit("7");
        reveal_strlit("8");
        reveal_strlit("9");
        reveal_strlit("a");
        reveal_strlit("b");
        reveal_strlit("c");
        reveal_strlit("d");
        reveal_strlit("e");
        reveal_strlit("f");
        assert(s@ =~= seq![hex_digit(n as int)]);
    }
    s
}

/// Bytes as lower-case hexadecimal.
pub fn to_hex(bytes: &[u8]) -> (s: String)
    ensures
        s@ == hex_of(bytes@),
{
    let mut s = String::new();
    let mut i: usize = 0;
    while i < bytes.len()
        invariant
            i <= bytes@.len(),
            s@ == hex_of(bytes@.take(i as int)),
        decreases bytes@.len() - i,
    {
        let b = bytes[i];
        s.append(hex_str(b / 16));
        s.append(hex_str(b % 16));
        proof {
            assert(bytes@.take(i + 1).drop_last() =~= bytes@.take(i as int));
            assert(s@ =~= hex_of(bytes@.take(i + 1)));
        }
        i = i + 1;
    }
    proof {
        assert(bytes@.take(bytes@.len() as int) =~= bytes@);
    }
    s
}

/// The content hash of a recording: its SHA-256 digest in lower-case hex.
pub fn file_hash(data: &[u8]) -> (h: String)
    ensures
        h@ == hex_of(sha256_of(data@)),
{
    let d = sha256(data);
    to_hex(d.as_slice())
}

/// A cached keyframe index of a recording.
#[derive(Debug, Clone)]
pub struct TimelineFile {
    pub version: u32,
    pub video_file_path: std::path::PathBuf,
    pub video_file_hash: String,
    pub video_file_size: u64,
    /// Microseconds since the epoch.
    pub video_file_modified_us: u64,
    pub duration_us: u64,
    pub resolution: Resolution,
    /// Thousandths of fps.
    pub frame_rate_milli: u64,
    pub keyframe_index: KeyframeIndex,
    /// Microseconds since the epoch.
    pub created_at_us: u64,
    pub ffmpeg_version: Option<String>,
}

#[verifier::external_type_specification]
#[verifier::external_body]
pub struct ExJsonError(serde_json::Error);

/// Errors of timeline caches.
#[derive(Debug)]
pub enum TimelineError {
    NotFound { path: std::path::PathBuf },
    Corrupted { reason: String },
    Outdated,
    CacheFull { current_size: u64, limit: u64 },
    ValidationFailed { reason: String },
    IncompatibleVersion { version: u32 },
    Io(std::io::Error),
    JsonSerialization(serde_json::Error),
    HashMismatch { expected: String, actual: String },
    SizeMismatch { expected: u64, actual: u64 },
}

/// `timeline` as characters.
pub open spec fn timeline_extension() -> Seq<char> {
    seq!['t', 'i', 'm', 'e', 'l', 'i', 'n', 'e']
}

/// Current timeline format.
pub const TIMELINE_VERSION: u32 = 1;

/// What `PathBuf::set_extension` makes of a path and an extension.
pub uninterp spec fn with_extension_of(path: std::path::PathBuf, ext: Seq<char>) -> std::path::PathBuf;

/// Whether a text holds no path separator (`/` or `\\`).
pub open spec fn no_separator(s: Seq<char>) -> bool {
    forall|i: int| 0 <= i < s.len() ==> s[i] != '/' && s[i] != '\\'
}

/// The path with its extension replaced, as `PathBuf::set_extension`
/// does; that call panics on an extension holding a path separator.
#[verifier::external_body]
fn with_extension(path: &std::path::PathBuf, ext: &str) -> (r: std::path::PathBuf)
    requires
        no_separator(ext@),
    ensures
        r == with_extension_of(*path, ext@),
{
    let mut p = path.clone();
    p.set_extension(ext);
    p
}

/// Manages the timeline caches of recordings.
#[derive(Debug, Clone, Copy)]
pub struct DefaultTimelineManager {
    pub version: u32,
}

/// Whether a timeline still describes a recording of `size` bytes last
/// modified at `modified_us` with content hash `hash`.
pub open spec fn timeline_matches(t: TimelineFile, size: u64, modified_us: u64, hash: Seq<char>) -> bool {
    &&& size == t.video_file_size
    &&& modified_us <= t.video_file_modified_us
    &&& hash == t.video_file_hash@
}

impl DefaultTimelineManager {
    pub fn new() -> (m: Self)
        ensures
            m.version == TIMELINE_VERSION,
    {
        DefaultTimelineManager { version: TIMELINE_VERSION }
    }

    /// The cache file of a recording: its path with the extension
    /// `timeline`.
    pub fn get_timeline_path(&self, video_path: &std::path::PathBuf) -> (r: std::path::PathBuf)
        ensures
            r == with_extension_of(*video_path, timeline_extension()),
    {
        let ext = "timeline";
        proof {
            reveal_strlit("timeline");
            assert(ext@ =~= timeline_extension());
        }
        with_extension(video_path, ext)
    }

    /// A cache is usable by time when it is not older than the recording.
    pub fn is_timeline_valid_by_time(&self, video_modified_us: u64, timeline_modified_us: u64) -> (r: bool)
        ensures
            r == (timeline_modified_us >= video_modified_us),
    {
        timeline_modified_us >= video_modified_us
    }

    /// A loaded cache must have the current version.
    pub fn check_version(&self, timeline: &TimelineFile) -> (r: Result<(), TimelineError>)
        ensures
            r.is_ok() == (timeline.version == self.version),
            r.is_err() ==> (r matches Err(TimelineError::IncompatibleVersion { version })
                && version == timeline.version),
    {
        if timeline.version != self.version {
            return Err(TimelineError::IncompatibleVersion { version: timeline.version });
        }
        Ok(())
    }

    /// Whether a cache still matches the recording: same size, not
    /// modified since, same content hash.
    pub fn validate_timeline(&self, timeline: &TimelineFile, current_size: u64, current_modified_us: u64, current_hash: &str) -> (r:
        bool)
        ensures
            r == timeline_matches(*timeline, current_size, current_modified_us, current_hash@),
    {
        if current_size != timeline.video_file_size {
            return false;
        }
        if current_modified_us > timeline.video_file_modified_us {
            return false;
        }
        str_equals(current_hash, timeline.video_file_hash.as_str())
    }
}

impl Default for DefaultTimelineManager {
    fn default() -> (m: Self)
        ensures
            m.version == TIMELINE_VERSION,
    {
        Self::new()
    }
}

/// The frame rate estimated from an index: the number of entries over the
/// time they span, between 15 and 60 fps; 30 fps when unknown.
pub open spec fn index_frame_rate(e: Seq<crate::keyframe_index::KeyframeEntry>) -> u64 {
    if e.len() > 1 && e.last().timestamp_us > e[0].timestamp_us {
        let f = (e.len() as int) * 1_000_000_000 / ((e.last().timestamp_us - e[0].timestamp_us) as int);
        if f > 60_000 {
            60_000
        } else if f < 15_000 {
            15_000
        } else {
            f as u64
        }
    } else {
        30_000
    }
}

/// Assembles the cache of a recording.
#[derive(Debug, Clone)]
pub struct TimelineFileBuilder {
    pub video_file_path: std::path::PathBuf,
    pub keyframe_index: KeyframeIndex,
    pub ffmpeg_version: Option<String>,
}

impl TimelineFileBuilder {
    pub fn new(video_file_path: std::path::PathBuf, keyframe_index: KeyframeIndex) -> (b: Self)
        ensures
            b.video_file_path == video_file_path,
            b.keyframe_index.entries@ == keyframe_index.entries@,
            b.keyframe_index.total_duration_us == keyframe_index.total_duration_us,
            b.ffmpeg_version.is_none(),
    {
        TimelineFileBuilder { video_file_path, keyframe_index, ffmpeg_version: None }
    }

    pub fn with_ffmpeg_version(self, version: String) -> (b: Self)
        ensures
            b.ffmpeg_version == Some(version),
            b.video_file_path == self.video_file_path,
            b.keyframe_index.entries@ == self.keyframe_index.entries@,
    {
        TimelineFileBuilder { ffmpeg_version: Some(version), ..self }
    }

    /// The cache for a recording of `size` bytes modified at `modified_us`
    /// with content hash `hash`, made at `now_us`: the index's duration,
    /// 1920x1080 when the index has entries (else 0x0), and the frame rate
    /// estimated from the entries.
    pub fn build(self, manager: &DefaultTimelineManager, size: u64, modified_us: u64, hash: String, now_us: u64) -> (t:
        TimelineFile)
        ensures
            t.version == manager.version,
            t.video_file_path == self.video_file_path,
            t.video_file_hash == hash,
            t.video_file_size == size,
            t.video_file_modified_us == modified_us,
            t.duration_us == self.keyframe_index.total_duration_us,
            t.resolution == if self.keyframe_index.entries@.len() > 0 {
                Resolution { width: 1920, height: 1080 }
            } else {
                Resolution { width: 0, height: 0 }
            },
            t.frame_rate_milli == index_frame_rate(self.keyframe_index.entries@),
            t.keyframe_index.entries@ == self.keyframe_index.entries@,
            t.created_at_us == now_us,
            t.ffmpeg_version == self.ffmpeg_version,
    {
        let n = self.keyframe_index.entries.len();
        let resolution = if n > 0 {
            Resolution { width: 1920, height: 1080 }
        } else {
            Resolution { width: 0, height: 0 }
        };
        let frame_rate: u64 = if n > 1 {
            let first = self.keyframe_index.entries[0].timestamp_us;
            let last = self.keyframe_index.entries[n - 1].timestamp_us;
            if last > first {
                let f: u128 = (n as u128) * 1_000_000_000 / ((last - first) as u128);
                if f > 60_000 {
                    60_000
                } else if f < 15_000 {
                    15_000
                } else {
                    f as u64
                }
            } else {
                30_000
            }
        } else {
            30_000
        };
        TimelineFile {
            version: manager.version,
            video_file_path: self.video_file_path,
            video_file_hash: hash,
            video_file_size: size,
            video_file_modified_us: modified_us,
            duration_us: self.keyframe_index.total_duration_us,
            resolution,
            frame_rate_milli: frame_rate,
            keyframe_index: self.keyframe_index,
            created_at_us: now_us,
            ffmpeg_version: self.ffmpeg_version,
        }
    }
}

/// Law: a cache built for a recording matches that recording, as long as
/// it has not changed since.
pub proof fn lemma_built_timeline_matches(t: TimelineFile, size: u64, modified_us: u64, hash: Seq<char>)
    requires
        t.video_file_size == size,
        t.video_file_modified_us == modified_us,
        t.video_file_hash@ == hash,
    ensures
        timeline_matches(t, size, modified_us, hash),
        forall|later: u64| later > modified_us ==> !timeline_matches(t, size, later, hash),
{
}

/// Law: the recordings are the raw H.264 files (`h264`, `264`) and the MP4
/// files: every extension whose format is MP4 names a recording, and so do
/// both raw H.264 extensions, whose format is raw H.264.
pub proof fn lemma_recording_extensions(e: Seq<char>)
    ensures
        format_of(Some(e)) == VideoFormat::MP4 ==> is_video_extension_of(e),
        is_video_extension_of("mp4"@) && format_of(Some("mp4"@)) == VideoFormat::MP4,
        is_video_extension_of("h264"@) && format_of(Some("h264"@)) == VideoFormat::H264,
        is_video_extension_of("264"@) && format_of(Some("264"@)) == VideoFormat::H264,
        is_video_extension_of(e) && format_of(Some(e)) == VideoFormat::H264 ==> e.len() > 0
            && e.last() == '4',
{
    reveal_strlit("mp4");
    reveal_strlit("h264");
    reveal_strlit("264");
    assert("mp4"@.len() == 3 && "h264"@.len() == 4 && "264"@.len() == 3);
    assert("264"@[0] != "mp4"@[0]);
    assert("h264"@ != "mp4"@ && "264"@ != "mp4"@);
}

} // verus!
