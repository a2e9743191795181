//! Scanning of raw H.264 Annex B byte streams: start codes, NAL unit types,
//! frame counting, keyframe location and NAL unit extraction.

use vstd::prelude::*;
use crate::byte_buf::{append_all, copy_range};
use crate::errors::FileError;

verus! {

/// NAL unit type of a non-IDR slice.
pub const NAL_NON_IDR: u8 = 1;
/// NAL unit type of an IDR slice (a keyframe).
pub const NAL_IDR: u8 = 5;
/// NAL unit type of a sequence parameter set.
pub const NAL_SPS: u8 = 7;
/// NAL unit type of a picture parameter set.
pub const NAL_PPS: u8 = 8;

/// A four-byte start code `00 00 00 01` begins at `i`.
pub open spec fn is_start4(b: Seq<u8>, i: int) -> bool {
    &&& 0 <= i
    &&& i + 4 <= b.len()
    &&& b[i] == 0
    &&& b[i + 1] == 0
    &&& b[i + 2] == 0
    &&& b[i + 3] == 1
}

/// A three-byte start code `00 00 01` begins at `i`.
pub open spec fn is_start3(b: Seq<u8>, i: int) -> bool {
    &&& 0 <= i
    &&& i + 3 <= b.len()
    &&& b[i] == 0
    &&& b[i + 1] == 0
    &&& b[i + 2] == 1
}

/// NAL unit type carried in the low five bits of a NAL header byte.
pub open spec fn nal_type_of(header: u8) -> u8 {
    header % 32
}

/// NAL unit types that mark a stream as H.264: slices and parameter sets.
pub open spec fn is_common_nal_type(t: u8) -> bool {
    t == NAL_NON_IDR || t == NAL_IDR || t == NAL_SPS || t == NAL_PPS
}

/// At `i` begins a start code followed by a common NAL unit type.
pub open spec fn h264_marker_at(b: Seq<u8>, i: int) -> bool {
    ||| (is_start4(b, i) && i + 4 < b.len() && is_common_nal_type(nal_type_of(b[i + 4])))
    ||| (i + 3 < b.len() && is_start3(b, i) && is_common_nal_type(nal_type_of(b[i + 3])))
}

/// A buffer looks like H.264 when it has at least four bytes and a marker
/// begins somewhere before its last four bytes.
pub open spec fn looks_like_h264(b: Seq<u8>) -> bool {
    b.len() >= 4 && exists|i: int| 0 <= i < b.len() - 4 && #[trigger] h264_marker_at(b, i)
}

/// Adds one NAL header to a (keyframes, frames) count.
pub open spec fn count_nal(header: u8, c: (nat, nat)) -> (nat, nat) {
    let t = nal_type_of(header);
    if t == NAL_IDR {
        (c.0 + 1, c.1 + 1)
    } else if t == NAL_NON_IDR {
        (c.0, c.1 + 1)
    } else {
        c
    }
}

/// Keyframes and frames found by a scan that starts at `i`, stops five bytes
/// before the end, and skips over each start code it finds.
pub open spec fn frame_counts_from(b: Seq<u8>, i: int) -> (nat, nat)
    decreases b.len() - i,
{
    if i < 0 || i >= b.len() - 5 {
        (0, 0)
    } else if is_start4(b, i) {
        count_nal(b[i + 4], frame_counts_from(b, i + 4))
    } else if is_start3(b, i) {
        count_nal(b[i + 3], frame_counts_from(b, i + 3))
    } else {
        frame_counts_from(b, i + 1)
    }
}

/// An IDR NAL unit begins at `i` (the four-byte form takes precedence).
pub open spec fn keyframe_at(b: Seq<u8>, i: int) -> bool {
    if is_start4(b, i) {
        i + 4 < b.len() && nal_type_of(b[i + 4]) == NAL_IDR
    } else {
        is_start3(b, i) && i + 3 < b.len() && nal_type_of(b[i + 3]) == NAL_IDR
    }
}

/// The first position at or after `k`, and before the last four bytes, at
/// which a start code begins.
pub open spec fn first_start_code(b: Seq<u8>, k: int) -> Option<int>
    decreases b.len() - k,
{
    if k < 0 || k >= b.len() - 4 {
        None
    } else if is_start4(b, k) || is_start3(b, k) {
        Some(k)
    } else {
        first_start_code(b, k + 1)
    }
}

/// Estimated size of the frame that starts at `start`: the distance to the
/// next start code at least four bytes further on.
pub open spec fn frame_size_estimate_at(b: Seq<u8>, start: int) -> Option<u32> {
    match first_start_code(b, start + 4) {
        Some(k) => Some((k - start) as u32),
        None => None,
    }
}

/// A keyframe found in a buffer.
#[derive(Debug, Clone, Copy)]
pub struct KeyframeInfo {
    pub offset: u64,
    pub size: u32,
    pub gop_size: u32,
}

/// Frame counts of a buffer.
#[derive(Debug, Clone, Copy)]
pub struct H264FrameAnalysis {
    pub keyframes: u32,
    pub total_frames: u32,
}

/// The keyframe record for the keyframe that begins at `i`.
pub open spec fn keyframe_info_at(b: Seq<u8>, base_offset: u64, i: int) -> KeyframeInfo {
    KeyframeInfo {
        offset: (base_offset + i) as u64,
        size: match frame_size_estimate_at(b, i) {
            Some(s) => s,
            None => 1024,
        },
        gop_size: 1,
    }
}

/// Keyframes that begin before position `n`, in order.
pub open spec fn keyframes_before(b: Seq<u8>, base_offset: u64, n: int) -> Seq<KeyframeInfo>
    decreases n,
{
    if n <= 0 {
        Seq::empty()
    } else {
        let prev = keyframes_before(b, base_offset, n - 1);
        if keyframe_at(b, n - 1) {
            prev.push(keyframe_info_at(b, base_offset, n - 1))
        } else {
            prev
        }
    }
}

/// The positions scanned for keyframes: all but the last five bytes.
pub open spec fn keyframe_scan_len(b: Seq<u8>) -> int {
    if b.len() >= 5 { b.len() - 5 } else { 0 }
}

/// Bitrate in bits per second assumed for a raw H.264 file of the given size.
pub open spec fn estimated_bitrate_for(file_size: u64) -> u64 {
    if file_size <= 1_000_000 {
        500_000
    } else if file_size <= 10_000_000 {
        1_500_000
    } else if file_size <= 100_000_000 {
        3_000_000
    } else if file_size <= 500_000_000 {
        5_000_000
    } else {
        8_000_000
    }
}

fn start4_at(b: &[u8], i: usize) -> (r: bool)
    requires
        i + 4 <= b@.len(),
    ensures
        r == is_start4(b@, i as int),
{
    b[i] == 0 && b[i + 1] == 0 && b[i + 2] == 0 && b[i + 3] == 1
}

fn start3_at(b: &[u8], i: usize) -> (r: bool)
    requires
        i + 3 <= b@.len(),
    ensures
        r == is_start3(b@, i as int),
{
    b[i] == 0 && b[i + 1] == 0 && b[i + 2] == 1
}

/// The NAL unit type of a NAL header byte (its low five bits).
pub fn nal_type(header: u8) -> (t: u8)
    ensures
        t == nal_type_of(header),
{
    let t = header & 0x1F;
    assert(header & 0x1F == header % 32) by (bit_vector);
    t
}

/// Scanner for raw H.264 files on the device side.
pub struct DefaultFileStreamReader;

impl DefaultFileStreamReader {
    pub fn new() -> (r: Self) {
        DefaultFileStreamReader
    }

    /// Whether `buffer` holds H.264 data: a start code followed by a slice or
    /// parameter-set NAL unit.
    pub fn is_h264_format(&self, buffer: &[u8]) -> (r: Result<bool, FileError>)
        ensures
            r matches Ok(found) && found == looks_like_h264(buffer@),
    {
        let len = buffer.len();
        if len < 4 {
            return Ok(false);
        }
        let end = len - 4;
        let mut i: usize = 0;
        while i < end
            invariant
                len == buffer@.len(),
                len >= 4,
                end == len - 4,
                i <= end,
                forall|j: int| 0 <= j < i ==> !#[trigger] h264_marker_at(buffer@, j),
            decreases end - i,
        {
            if start4_at(buffer, i) {
                if i + 4 < len {
                    let t = nal_type(buffer[i + 4]);
                    if t == NAL_NON_IDR || t == NAL_IDR || t == NAL_SPS || t == NAL_PPS {
                        assert(h264_marker_at(buffer@, i as int));
                        return Ok(true);
                    }
                }
            }
            if i + 3 < len && start3_at(buffer, i) {
                let t = nal_type(buffer[i + 3]);
                if t == NAL_NON_IDR || t == NAL_IDR || t == NAL_SPS || t == NAL_PPS {
                    assert(h264_marker_at(buffer@, i as int));
                    return Ok(true);
                }
            }
            i = i + 1;
        }
        Ok(false)
    }

    /// Counts keyframes (IDR slices) and frames (IDR and non-IDR slices),
    /// skipping over each start code found.
    pub fn analyze_h264_frames_in_buffer(&self, buffer: &[u8]) -> (r: H264FrameAnalysis)
        requires
            buffer@.len() <= u32::MAX,
        ensures
            r.keyframes == frame_counts_from(buffer@, 0).0,
            r.total_frames == frame_counts_from(buffer@, 0).1,
            r.keyframes <= r.total_frames,
    {
        let len = buffer.len();
        let stop = if len >= 5 { len - 5 } else { 0 };
        let mut keyframes: u32 = 0;
        let mut total_frames: u32 = 0;
        let mut i: usize = 0;
        proof {
            lemma_frame_counts_bounded(buffer@, 0);
        }
        while i < stop
            invariant
                len == buffer@.len(),
                len <= u32::MAX,
                stop == (if len >= 5 { len - 5 } else { 0 }),
                i <= len,
                keyframes <= total_frames <= i,
                keyframes + frame_counts_from(buffer@, i as int).0 == frame_counts_from(buffer@, 0).0,
                total_frames + frame_counts_from(buffer@, i as int).1 == frame_counts_from(buffer@, 0).1,
            decreases len - i,
        {
            if start4_at(buffer, i) {
                let t = nal_type(buffer[i + 4]);
                if t == NAL_IDR {
                    keyframes = keyframes + 1;
                    total_frames = total_frames + 1;
                } else if t == NAL_NON_IDR {
                    total_frames = total_frames + 1;
                }
                i = i + 4;
            } else if start3_at(buffer, i) {
                let t = nal_type(buffer[i + 3]);
                if t == NAL_IDR {
                    keyframes = keyframes + 1;
                    total_frames = total_frames + 1;
                } else if t == NAL_NON_IDR {
                    total_frames = total_frames + 1;
                }
                i = i + 3;
            } else {
                i = i + 1;
            }
        }
        H264FrameAnalysis { keyframes, total_frames }
    }

    /// Bitrate in bits per second assumed for a raw H.264 file.
    pub fn estimate_h264_bitrate(&self, file_size: u64) -> (r: u64)
        ensures
            r == estimated_bitrate_for(file_size),
    {
        if file_size <= 1_000_000 {
            500_000
        } else if file_size <= 10_000_000 {
            1_500_000
        } else if file_size <= 100_000_000 {
            3_000_000
        } else if file_size <= 500_000_000 {
            5_000_000
        } else {
            8_000_000
        }
    }

    /// Locates IDR NAL units; each record gets the buffer offset plus
    /// `base_offset`, and a size estimated from the next start code (1024
    /// when there is none).
    pub fn find_keyframes_in_buffer(&self, buffer: &[u8], base_offset: u64) -> (r: Result<
        Vec<KeyframeInfo>,
        FileError,
    >)
        requires
            base_offset + buffer@.len() <= u64::MAX,
        ensures
            r matches Ok(v) && v@ == keyframes_before(
                buffer@,
                base_offset,
                keyframe_scan_len(buffer@),
            ),
    {
        let len = buffer.len();
        let stop = if len >= 5 { len - 5 } else { 0 };
        let mut keyframes: Vec<KeyframeInfo> = Vec::new();
        let mut i: usize = 0;
        while i < stop
            invariant
                len == buffer@.len(),
                base_offset + len <= u64::MAX,
                stop == keyframe_scan_len(buffer@),
                i <= stop,
                keyframes@ == keyframes_before(buffer@, base_offset, i as int),
            decreases stop - i,
        {
            let mut found = false;
            if start4_at(buffer, i) {
                if i + 4 < len && nal_type(buffer[i + 4]) == NAL_IDR {
                    found = true;
                }
            } else if start3_at(buffer, i) {
                if i + 3 < len && nal_type(buffer[i + 3]) == NAL_IDR {
                    found = true;
                }
            }
            if found {
                let size = match self.estimate_frame_size_at(buffer, i) {
                    Some(s) => s,
                    None => 1024,
                };
                keyframes.push(KeyframeInfo { offset: base_offset + i as u64, size, gop_size: 1 });
            }
            i = i + 1;
        }
        Ok(keyframes)
    }

    /// Estimated size of the frame at the start of `buffer`: the position of
    /// the first start code at index 4 or later.
    pub fn estimate_frame_size(&self, buffer: &[u8]) -> (r: Option<u32>)
        ensures
            r == frame_size_estimate_at(buffer@, 0),
    {
        if buffer.len() == 0 {
            return None;
        }
        self.estimate_frame_size_at(buffer, 0)
    }

    /// Estimated size of the frame that begins at `start` in `buffer`.
    pub fn estimate_frame_size_at(&self, buffer: &[u8], start: usize) -> (r: Option<u32>)
        requires
            start < buffer@.len(),
        ensures
            r == frame_size_estimate_at(buffer@, start as int),
    {
        let len = buffer.len();
        if len < 8 || start >= len - 8 {
            return None;
        }
        let end = len - 4;
        let mut k = start + 4;
        while k < end
            invariant
                len == buffer@.len(),
                len >= 4,
                end == len - 4,
                start + 4 <= k <= end,
                first_start_code(buffer@, start + 4) == first_start_code(buffer@, k as int),
            decreases end - k,
        {
            if start4_at(buffer, k) || start3_at(buffer, k) {
                return Some(#[verifier::truncate] ((k - start) as u32));
            }
            k = k + 1;
        }
        None
    }
}

/// Offset of the NAL header byte in a NAL unit that begins with a start code
/// (0 when it begins with none).
pub open spec fn nal_header_offset(n: Seq<u8>) -> int {
    if n.len() >= 4 && n[0] == 0 && n[1] == 0 && n[2] == 0 && n[3] == 1 {
        4
    } else if n.len() >= 3 && n[0] == 0 && n[1] == 0 && n[2] == 1 {
        3
    } else {
        0
    }
}

/// The NAL unit type of a NAL unit (0 when it has no header byte).
pub open spec fn nal_unit_type(n: Seq<u8>) -> u8 {
    let s = nal_header_offset(n);
    if s < n.len() {
        nal_type_of(n[s])
    } else {
        0
    }
}

/// Keyframe NAL units: IDR slices and parameter sets.
pub open spec fn is_keyframe_unit(n: Seq<u8>) -> bool {
    let t = nal_unit_type(n);
    t == NAL_IDR || t == NAL_SPS || t == NAL_PPS
}

/// A NAL unit begins at `i`: `00 00 01`, or `00 00 00 01`, with at least
/// four bytes from `i` on.
pub open spec fn is_unit_start(d: Seq<u8>, i: int) -> bool {
    &&& 0 <= i
    &&& i + 3 < d.len()
    &&& d[i] == 0
    &&& d[i + 1] == 0
    &&& ((d[i + 2] == 0 && d[i + 3] == 1) || d[i + 2] == 1)
}

/// Length of the start code of the NAL unit that begins at `i`.
pub open spec fn start_code_len(d: Seq<u8>, i: int) -> int {
    if d[i + 2] == 0 && d[i + 3] == 1 {
        4
    } else {
        3
    }
}

/// The end of a NAL unit whose payload starts at `j`: the next unit start,
/// or the end of the data.
pub open spec fn unit_end(d: Seq<u8>, j: int) -> int
    decreases d.len() - j,
{
    if j >= d.len() - 3 {
        d.len() as int
    } else if is_unit_start(d, j) {
        j
    } else {
        unit_end(d, j + 1)
    }
}

/// NAL units (start code included) from position `i` on, in stream order.
pub open spec fn nal_units_from(d: Seq<u8>, i: int) -> Seq<Seq<u8>>
    decreases d.len() - i,
{
    if i < 0 || i >= d.len() {
        Seq::empty()
    } else if is_unit_start(d, i) {
        let end = unit_end(d, i + start_code_len(d, i));
        if i < end <= d.len() {
            seq![d.subrange(i, end)] + nal_units_from(d, end)
        } else {
            Seq::empty()
        }
    } else {
        nal_units_from(d, i + 1)
    }
}

/// The NAL units of `d` in stream order.
pub open spec fn nal_units_in_order(d: Seq<u8>) -> Seq<Seq<u8>> {
    nal_units_from(d, 0)
}

/// Selects NAL units of type `t`.
pub open spec fn of_nal_type(t: u8) -> spec_fn(Seq<u8>) -> bool {
    |n: Seq<u8>| nal_unit_type(n) == t
}

/// Selects NAL units that are neither SPS, PPS nor IDR.
pub open spec fn of_other_nal_type() -> spec_fn(Seq<u8>) -> bool {
    |n: Seq<u8>|
        {
            let t = nal_unit_type(n);
            t != NAL_SPS && t != NAL_PPS && t != NAL_IDR
        }
}

/// The NAL units of `d` regrouped so that initialization data comes first:
/// all SPS, then all PPS, then all IDR units, then the rest, each group in
/// stream order.
pub open spec fn regrouped_nal_units(d: Seq<u8>) -> Seq<Seq<u8>> {
    let u = nal_units_in_order(d);
    u.filter(of_nal_type(NAL_SPS)) + u.filter(of_nal_type(NAL_PPS)) + u.filter(
        of_nal_type(NAL_IDR),
    ) + u.filter(of_other_nal_type())
}

/// The views of a vector of byte vectors.
pub open spec fn byte_seqs(v: Seq<Vec<u8>>) -> Seq<Seq<u8>> {
    v.map_values(|x: Vec<u8>| x@)
}

fn unit_start_at(d: &[u8], i: usize) -> (r: bool)
    requires
        i + 3 < d@.len(),
    ensures
        r == is_unit_start(d@, i as int),
{
    d[i] == 0 && d[i + 1] == 0 && ((d[i + 2] == 0 && d[i + 3] == 1) || d[i + 2] == 1)
}

/// The NAL unit type of a NAL unit, looking past its start code.
pub fn get_nal_type(nal_data: &[u8]) -> (t: u8)
    ensures
        t == nal_unit_type(nal_data@),
{
    let len = nal_data.len();
    let start: usize = if len >= 4 && nal_data[0] == 0 && nal_data[1] == 0 && nal_data[2] == 0
        && nal_data[3] == 1 {
        4
    } else if len >= 3 && nal_data[0] == 0 && nal_data[1] == 0 && nal_data[2] == 1 {
        3
    } else {
        0
    };
    if start < len {
        nal_type(nal_data[start])
    } else {
        0
    }
}

/// Whether a NAL unit is an IDR slice or a parameter set.
pub fn is_keyframe_nal(nal_data: &[u8]) -> (r: bool)
    ensures
        r == is_keyframe_unit(nal_data@),
{
    let t = get_nal_type(nal_data);
    t == NAL_IDR || t == NAL_SPS || t == NAL_PPS
}

/// Splits an Annex B stream into NAL units (each with its start code) and
/// regroups them: SPS, then PPS, then IDR, then all others.
pub fn find_nal_units(data: &[u8]) -> (units: Vec<Vec<u8>>)
    ensures
        byte_seqs(units@) == regrouped_nal_units(data@),
{
    let len = data.len();
    let mut sps_units: Vec<Vec<u8>> = Vec::new();
    let mut pps_units: Vec<Vec<u8>> = Vec::new();
    let mut idr_units: Vec<Vec<u8>> = Vec::new();
    let mut other_units: Vec<Vec<u8>> = Vec::new();
    let ghost mut found: Seq<Seq<u8>> = Seq::empty();
    let mut i: usize = 0;
    while i < len
        invariant
            len == data@.len(),
            i <= len,
            nal_units_in_order(data@) == found + nal_units_from(data@, i as int),
            byte_seqs(sps_units@) == found.filter(of_nal_type(NAL_SPS)),
            byte_seqs(pps_units@) == found.filter(of_nal_type(NAL_PPS)),
            byte_seqs(idr_units@) == found.filter(of_nal_type(NAL_IDR)),
            byte_seqs(other_units@) == found.filter(of_other_nal_type()),
        decreases len - i,
    {
        if len >= 4 && i < len - 3 && unit_start_at(data, i) {
            let code_len: usize = if data[i + 2] == 0 && data[i + 3] == 1 {
                4
            } else {
                3
            };
            let nal_start = i;
            let mut nal_end = len;
            let mut j = i + code_len;
            let ghost payload = j as int;
            while j < len - 3
                invariant_except_break
                    nal_end == len,
                invariant
                    len == data@.len(),
                    len >= 4,
                    nal_start + 3 < len,
                    payload == nal_start + start_code_len(data@, nal_start as int),
                    payload <= j <= len,
                    unit_end(data@, payload) == unit_end(data@, j as int),
                ensures
                    nal_end == unit_end(data@, payload),
                decreases len - j,
            {
                if unit_start_at(data, j) {
                    nal_end = j;
                    break;
                }
                j = j + 1;
            }
            proof {
                lemma_unit_end_bounds(data@, payload);
            }
            let unit = copy_range(data, nal_start, nal_end);
            let t = get_nal_type(unit.as_slice());
            proof {
                let u = unit@;
                assert(nal_units_from(data@, i as int) =~= seq![u] + nal_units_from(
                    data@,
                    nal_end as int,
                ));
                assert(found + (seq![u] + nal_units_from(data@, nal_end as int)) =~= found.push(u)
                    + nal_units_from(data@, nal_end as int));
                found.lemma_filter_push(u, of_nal_type(NAL_SPS));
                found.lemma_filter_push(u, of_nal_type(NAL_PPS));
                found.lemma_filter_push(u, of_nal_type(NAL_IDR));
                found.lemma_filter_push(u, of_other_nal_type());
                found = found.push(u);
            }
            if t == NAL_SPS {
                sps_units.push(unit);
                assert(byte_seqs(sps_units@) =~= found.filter(of_nal_type(NAL_SPS)));
            } else if t == NAL_PPS {
                pps_units.push(unit);
                assert(byte_seqs(pps_units@) =~= found.filter(of_nal_type(NAL_PPS)));
            } else if t == NAL_IDR {
                idr_units.push(unit);
                assert(byte_seqs(idr_units@) =~= found.filter(of_nal_type(NAL_IDR)));
            } else {
                other_units.push(unit);
                assert(byte_seqs(other_units@) =~= found.filter(of_other_nal_type()));
            }
            i = nal_end;
        } else {
            i = i + 1;
        }
    }
    assert(found =~= nal_units_in_order(data@));
    let mut nal_units: Vec<Vec<u8>> = Vec::new();
    nal_units.append(&mut sps_units);
    nal_units.append(&mut pps_units);
    nal_units.append(&mut idr_units);
    nal_units.append(&mut other_units);
    assert(byte_seqs(nal_units@) =~= regrouped_nal_units(data@));
    nal_units
}

/// A unit's end lies between its payload start and the end of the data.
pub proof fn lemma_unit_end_bounds(d: Seq<u8>, j: int)
    requires
        0 <= j <= d.len(),
    ensures
        j <= unit_end(d, j) <= d.len(),
    decreases d.len() - j,
{
    if j >= d.len() - 3 {
    } else if is_unit_start(d, j) {
    } else {
        lemma_unit_end_bounds(d, j + 1);
    }
}

/// Where a unit's end lies before the end of the data, the next unit starts
/// there.
pub proof fn lemma_unit_end_is_start(d: Seq<u8>, j: int)
    requires
        0 <= j <= d.len(),
        unit_end(d, j) < d.len(),
    ensures
        is_unit_start(d, unit_end(d, j)),
    decreases d.len() - j,
{
    if j >= d.len() - 3 {
    } else if is_unit_start(d, j) {
    } else {
        lemma_unit_end_is_start(d, j + 1);
    }
}

/// Law: the NAL units found from a unit start on, taken in stream order,
/// tile the data from that start to its end: no byte is lost or repeated.
pub proof fn lemma_nal_units_tile(d: Seq<u8>, i: int)
    requires
        is_unit_start(d, i),
    ensures
        nal_units_from(d, i).flatten() == d.subrange(i, d.len() as int),
    decreases d.len() - i,
{
    let p = i + start_code_len(d, i);
    lemma_unit_end_bounds(d, p);
    let end = unit_end(d, p);
    let first = d.subrange(i, end);
    let rest = nal_units_from(d, end);
    let units = nal_units_from(d, i);
    assert(units == seq![first] + rest);
    assert(units.first() == first);
    assert(units.drop_first() =~= rest);
    if end < d.len() {
        lemma_unit_end_is_start(d, p);
        lemma_nal_units_tile(d, end);
        assert(first + d.subrange(end, d.len() as int) =~= d.subrange(i, d.len() as int));
    } else {
        assert(rest.len() == 0);
        assert(rest.flatten() =~= Seq::<u8>::empty());
        assert(first + Seq::<u8>::empty() =~= d.subrange(i, d.len() as int));
    }
}

/// Splitting a sequence of NAL units by type into SPS, PPS, IDR and other
/// units keeps every unit exactly once.
pub proof fn lemma_regroup_is_permutation(u: Seq<Seq<u8>>)
    ensures
        (u.filter(of_nal_type(NAL_SPS)) + u.filter(of_nal_type(NAL_PPS)) + u.filter(
            of_nal_type(NAL_IDR),
        ) + u.filter(of_other_nal_type())).to_multiset() =~= u.to_multiset(),
    decreases u.len(),
{
    broadcast use vstd::seq_lib::group_to_multiset_ensures;

    let f7 = u.filter(of_nal_type(NAL_SPS));
    let f8 = u.filter(of_nal_type(NAL_PPS));
    let f5 = u.filter(of_nal_type(NAL_IDR));
    let fo = u.filter(of_other_nal_type());
    vstd::seq_lib::lemma_multiset_commutative(f7 + f8 + f5, fo);
    vstd::seq_lib::lemma_multiset_commutative(f7 + f8, f5);
    vstd::seq_lib::lemma_multiset_commutative(f7, f8);
    if u.len() == 0 {
        reveal(Seq::filter);
        assert(f7.len() == 0 && f8.len() == 0 && f5.len() == 0 && fo.len() == 0);
    } else {
        let s = u.drop_last();
        let x = u.last();
        assert(u =~= s.push(x));
        lemma_regroup_is_permutation(s);
        s.lemma_filter_push(x, of_nal_type(NAL_SPS));
        s.lemma_filter_push(x, of_nal_type(NAL_PPS));
        s.lemma_filter_push(x, of_nal_type(NAL_IDR));
        s.lemma_filter_push(x, of_other_nal_type());
        let g7 = s.filter(of_nal_type(NAL_SPS));
        let g8 = s.filter(of_nal_type(NAL_PPS));
        let g5 = s.filter(of_nal_type(NAL_IDR));
        let go = s.filter(of_other_nal_type());
        vstd::seq_lib::lemma_multiset_commutative(g7 + g8 + g5, go);
        vstd::seq_lib::lemma_multiset_commutative(g7 + g8, g5);
        vstd::seq_lib::lemma_multiset_commutative(g7, g8);
    }
}

/// Law: `find_nal_units` returns exactly the NAL units of the stream, each
/// once, and the units in stream order tile the data from the first unit
/// start on.
pub proof fn lemma_find_nal_units_complete(d: Seq<u8>, first: int)
    requires
        is_unit_start(d, first),
        forall|k: int| 0 <= k < first ==> !is_unit_start(d, k),
    ensures
        regrouped_nal_units(d).to_multiset() =~= nal_units_in_order(d).to_multiset(),
        nal_units_in_order(d).flatten() == d.subrange(first, d.len() as int),
{
    lemma_regroup_is_permutation(nal_units_in_order(d));
    lemma_skip_to_first_unit(d, 0, first);
    lemma_nal_units_tile(d, first);
}

proof fn lemma_no_units_from(d: Seq<u8>, i: int)
    requires
        0 <= i,
        forall|k: int| i <= k ==> !is_unit_start(d, k),
    ensures
        nal_units_from(d, i).len() == 0,
    decreases d.len() - i,
{
    if i < d.len() {
        lemma_no_units_from(d, i + 1);
    }
}

/// Law: what `find_nal_units` returns (`regrouped_nal_units`) is a
/// rearrangement of the stream's NAL units: first every SPS unit, then
/// every PPS unit, then every IDR unit, then the rest, each group in
/// stream order. Units in stream order tile the data from the first start
/// code on; data without a start code has no unit.
pub proof fn lemma_nal_units_regrouped(d: Seq<u8>)
    ensures
        ({
            let u = nal_units_in_order(d);
            let r = regrouped_nal_units(d);
            let a = u.filter(of_nal_type(NAL_SPS)).len() as int;
            let b = u.filter(of_nal_type(NAL_PPS)).len() as int;
            let c = u.filter(of_nal_type(NAL_IDR)).len() as int;
            &&& r.to_multiset() == u.to_multiset()
            &&& r.len() == u.len()
            &&& r.take(a) == u.filter(of_nal_type(NAL_SPS))
            &&& r.subrange(a, a + b) == u.filter(of_nal_type(NAL_PPS))
            &&& r.subrange(a + b, a + b + c) == u.filter(of_nal_type(NAL_IDR))
            &&& r.skip(a + b + c) == u.filter(of_other_nal_type())
            &&& forall|i: int| 0 <= i < a ==> nal_unit_type(#[trigger] r[i]) == NAL_SPS
            &&& forall|i: int| a <= i < a + b ==> nal_unit_type(#[trigger] r[i]) == NAL_PPS
            &&& forall|i: int| a + b <= i < a + b + c ==> nal_unit_type(#[trigger] r[i]) == NAL_IDR
            &&& forall|i: int|
                a + b + c <= i < r.len() ==> {
                    let t = nal_unit_type(#[trigger] r[i]);
                    t != NAL_SPS && t != NAL_PPS && t != NAL_IDR
                }
        }),
        forall|first: int|
            is_unit_start(d, first) && (forall|k: int| 0 <= k < first ==> !is_unit_start(d, k))
                ==> #[trigger] nal_units_in_order(d).flatten() == d.subrange(first, d.len() as int),
        (forall|k: int| !is_unit_start(d, k)) ==> regrouped_nal_units(d).len() == 0,
{
    broadcast use vstd::seq_lib::group_filter_ensures;
    broadcast use vstd::seq_lib::group_to_multiset_ensures;

    let u = nal_units_in_order(d);
    let r = regrouped_nal_units(d);
    let f1 = u.filter(of_nal_type(NAL_SPS));
    let f2 = u.filter(of_nal_type(NAL_PPS));
    let f3 = u.filter(of_nal_type(NAL_IDR));
    let f4 = u.filter(of_other_nal_type());
    let a = f1.len() as int;
    let b = f2.len() as int;
    let c = f3.len() as int;
    lemma_regroup_is_permutation(u);
    assert(r == f1 + f2 + f3 + f4);
    assert(r.to_multiset().len() == r.len());
    assert(u.to_multiset().len() == u.len());
    assert(r.take(a) =~= f1);
    assert(r.subrange(a, a + b) =~= f2);
    assert(r.subrange(a + b, a + b + c) =~= f3);
    assert(r.skip(a + b + c) =~= f4);
    assert forall|i: int| 0 <= i < a implies nal_unit_type(#[trigger] r[i]) == NAL_SPS by {
        assert(r[i] == f1[i]);
        u.lemma_filter_pred(of_nal_type(NAL_SPS), i);
    }
    assert forall|i: int| a <= i < a + b implies nal_unit_type(#[trigger] r[i]) == NAL_PPS by {
        assert(r[i] == f2[i - a]);
        u.lemma_filter_pred(of_nal_type(NAL_PPS), i - a);
    }
    assert forall|i: int| a + b <= i < a + b + c implies nal_unit_type(#[trigger] r[i]) == NAL_IDR by {
        assert(r[i] == f3[i - a - b]);
        u.lemma_filter_pred(of_nal_type(NAL_IDR), i - a - b);
    }
    assert forall|i: int| a + b + c <= i < r.len() implies {
        let t = nal_unit_type(#[trigger] r[i]);
        t != NAL_SPS && t != NAL_PPS && t != NAL_IDR
    } by {
        assert(r[i] == f4[i - a - b - c]);
        u.lemma_filter_pred(of_other_nal_type(), i - a - b - c);
    }
    assert forall|first: int|
        is_unit_start(d, first) && (forall|k: int| 0 <= k < first ==> !is_unit_start(d, k)) implies
        #[trigger] nal_units_in_order(d).flatten() == d.subrange(first, d.len() as int) by {
        lemma_find_nal_units_complete(d, first);
    }
    if forall|k: int| !is_unit_start(d, k) {
        lemma_no_units_from(d, 0);
        assert(u.len() == 0);
    }
}

/// Scanning from before the first unit start finds the same units as
/// scanning from it.
proof fn lemma_skip_to_first_unit(d: Seq<u8>, i: int, first: int)
    requires
        0 <= i <= first,
        is_unit_start(d, first),
        forall|k: int| i <= k < first ==> !is_unit_start(d, k),
    ensures
        nal_units_from(d, i) == nal_units_from(d, first),
    decreases first - i,
{
    if i < first {
        lemma_skip_to_first_unit(d, i + 1, first);
    }
}

/// The frame counts of a scan from `i` never exceed the bytes left.
pub proof fn lemma_frame_counts_bounded(b: Seq<u8>, i: int)
    requires
        0 <= i,
    ensures
        frame_counts_from(b, i).0 <= frame_counts_from(b, i).1,
        i <= b.len() ==> frame_counts_from(b, i).1 <= b.len() - i,
    decreases b.len() - i,
{
    if i >= b.len() - 5 {
    } else if is_start4(b, i) {
        lemma_frame_counts_bounded(b, i + 4);
    } else if is_start3(b, i) {
        lemma_frame_counts_bounded(b, i + 3);
    } else {
        lemma_frame_counts_bounded(b, i + 1);
    }
}

} // verus!
