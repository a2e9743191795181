//! Segment assembly for live streaming from a file of NAL units, and the
//! synthetic frames of the mock stream generator.

use vstd::prelude::*;
use crate::byte_buf::append_all;
use crate::protocol::{new_segment_id, VideoSegment, FLAG_IS_KEYFRAME};
use crate::h264::{
    byte_seqs, get_nal_type, is_keyframe_nal, is_keyframe_unit, lemma_nal_units_regrouped, nal_unit_type,
    nal_units_in_order, of_nal_type, regrouped_nal_units, NAL_IDR, NAL_PPS, NAL_SPS,
};

verus! {

/// Size up to which NAL units are gathered into one segment.
pub const TARGET_SEGMENT_SIZE: usize = 50_000;

/// Every this many frames the stream restarts from the first NAL unit, so
/// that newly joined clients receive SPS and PPS.
pub const PARAMETER_SET_RESEND_FRAMES: u64 = 30;

/// One segment of a live stream and where the next one starts.
pub struct LiveSegment {
    pub data: Vec<u8>,
    pub has_keyframe: bool,
    pub next_index: usize,
}

/// The index past the run of units of type `t` that starts at `k`.
pub open spec fn run_end(units: Seq<Seq<u8>>, k: int, t: u8) -> int
    decreases units.len() - k,
{
    if 0 <= k < units.len() && nal_unit_type(units[k]) == t {
        run_end(units, k + 1, t)
    } else {
        k
    }
}

/// The index past the units gathered after a non-SPS first unit: units are
/// added while the segment is below the target size, up to the next SPS.
pub open spec fn fill_end(units: Seq<Seq<u8>>, k: int, size: int) -> int
    decreases units.len() - k,
{
    if size < TARGET_SEGMENT_SIZE && 0 <= k < units.len() && nal_unit_type(units[k]) != NAL_SPS {
        fill_end(units, k + 1, size + units[k].len())
    } else {
        k
    }
}

/// The index past the last unit of the segment that starts at `idx`. A
/// segment that starts with an SPS takes all following SPS, all following
/// PPS and one IDR.
pub open spec fn segment_end(units: Seq<Seq<u8>>, idx: int) -> int {
    if nal_unit_type(units[idx]) == NAL_SPS {
        let p = run_end(units, run_end(units, idx + 1, NAL_SPS), NAL_PPS);
        if p < units.len() && nal_unit_type(units[p]) == NAL_IDR {
            p + 1
        } else {
            p
        }
    } else {
        fill_end(units, idx + 1, units[idx].len() as int)
    }
}

/// Some unit in `units[a..b]` is an IDR slice or a parameter set.
pub open spec fn has_keyframe_unit(units: Seq<Seq<u8>>, a: int, b: int) -> bool {
    exists|j: int| a <= j < b && #[trigger] is_keyframe_unit(units[j])
}

/// Where the following segment starts: back at the first unit every
/// `PARAMETER_SET_RESEND_FRAMES` frames, and when the units run out.
pub open spec fn next_segment_index(units: Seq<Seq<u8>>, idx: int, frame_count: u64) -> int {
    let e = segment_end(units, idx);
    let e2 = if frame_count > 0 && frame_count % PARAMETER_SET_RESEND_FRAMES == 0 {
        0
    } else {
        e
    };
    if e2 >= units.len() {
        0
    } else {
        e2
    }
}

proof fn lemma_run_end_bounds(units: Seq<Seq<u8>>, k: int, t: u8)
    requires
        0 <= k <= units.len(),
    ensures
        k <= run_end(units, k, t) <= units.len(),
    decreases units.len() - k,
{
    if k < units.len() && nal_unit_type(units[k]) == t {
        lemma_run_end_bounds(units, k + 1, t);
    }
}

proof fn lemma_fill_end_bounds(units: Seq<Seq<u8>>, k: int, size: int)
    requires
        0 <= k <= units.len(),
    ensures
        k <= fill_end(units, k, size) <= units.len(),
    decreases units.len() - k,
{
    if size < TARGET_SEGMENT_SIZE && k < units.len() && nal_unit_type(units[k]) != NAL_SPS {
        lemma_fill_end_bounds(units, k + 1, size + units[k].len());
    }
}

/// Adds `units[k]` to the concatenation of `units[a..k]`.
proof fn lemma_flatten_extend(units: Seq<Seq<u8>>, a: int, k: int)
    requires
        0 <= a <= k < units.len(),
    ensures
        units.subrange(a, k + 1).flatten() == units.subrange(a, k).flatten() + units[k],
{
    assert(units.subrange(a, k + 1) =~= units.subrange(a, k).push(units[k]));
    units.subrange(a, k).lemma_flatten_push(units[k]);
}

proof fn lemma_run_end_at(units: Seq<Seq<u8>>, k: int, m: int, t: u8)
    requires
        0 <= k <= m <= units.len(),
        forall|i: int| k <= i < m ==> nal_unit_type(#[trigger] units[i]) == t,
        m < units.len() ==> nal_unit_type(units[m]) != t,
    ensures
        run_end(units, k, t) == m,
    decreases m - k,
{
    if k < m {
        lemma_run_end_at(units, k + 1, m, t);
    }
}

/// Law: when a file holds at least one SPS, one PPS and one IDR unit, the
/// first segment of its live stream (from unit 0 of the regrouped units)
/// is every SPS unit, then every PPS unit, then the first IDR unit, each
/// in stream order, and it holds a keyframe.
pub proof fn lemma_first_live_segment(d: Seq<u8>)
    requires
        nal_units_in_order(d).filter(of_nal_type(NAL_SPS)).len() > 0,
        nal_units_in_order(d).filter(of_nal_type(NAL_PPS)).len() > 0,
        nal_units_in_order(d).filter(of_nal_type(NAL_IDR)).len() > 0,
    ensures
        ({
            let u = nal_units_in_order(d);
            let r = regrouped_nal_units(d);
            let a = u.filter(of_nal_type(NAL_SPS)).len() as int;
            let b = u.filter(of_nal_type(NAL_PPS)).len() as int;
            &&& segment_end(r, 0) == a + b + 1
            &&& r.take(a + b + 1).flatten() == u.filter(of_nal_type(NAL_SPS)).flatten() + u.filter(
                of_nal_type(NAL_PPS),
            ).flatten() + u.filter(of_nal_type(NAL_IDR))[0]
            &&& has_keyframe_unit(r, 0, a + b + 1)
        }),
{
    lemma_nal_units_regrouped(d);
    let u = nal_units_in_order(d);
    let r = regrouped_nal_units(d);
    let f1 = u.filter(of_nal_type(NAL_SPS));
    let f2 = u.filter(of_nal_type(NAL_PPS));
    let f3 = u.filter(of_nal_type(NAL_IDR));
    let a = f1.len() as int;
    let b = f2.len() as int;
    let c = f3.len() as int;
    assert(nal_unit_type(r[0]) == NAL_SPS);
    assert(nal_unit_type(r[a]) == NAL_PPS);
    assert(nal_unit_type(r[a + b]) == NAL_IDR);
    lemma_run_end_at(r, 1, a, NAL_SPS);
    lemma_run_end_at(r, a, a + b, NAL_PPS);
    assert(segment_end(r, 0) == a + b + 1);
    assert(r.take(a) == f1);
    assert(r.subrange(a, a + b) == f2);
    assert(r.subrange(a + b, a + b + c) == f3);
    assert(r[a + b] == f3[0]);
    assert(r.take(a + b + 1) =~= f1 + f2 + seq![f3[0]]);
    vstd::seq_lib::lemma_flatten_concat(f1, f2);
    vstd::seq_lib::lemma_flatten_concat(f1 + f2, seq![f3[0]]);
    assert(seq![f3[0]].flatten() =~= f3[0]) by {
        reveal_with_fuel(Seq::flatten, 2);
    }
    assert(is_keyframe_unit(r[0]));
}

/// Assembles the next live segment from the regrouped NAL units, starting
/// at `nal_index`; `frame_count` counts the segments sent before it.
pub fn assemble_live_segment(nal_units: &Vec<Vec<u8>>, nal_index: usize, frame_count: u64) -> (seg:
    LiveSegment)
    requires
        nal_index < nal_units@.len(),
    ensures
        ({
            let units = byte_seqs(nal_units@);
            let end = segment_end(units, nal_index as int);
            &&& nal_index < end <= units.len()
            &&& seg.data@ == units.subrange(nal_index as int, end).flatten()
            &&& seg.has_keyframe == has_keyframe_unit(units, nal_index as int, end)
            &&& seg.next_index == next_segment_index(units, nal_index as int, frame_count)
            &&& seg.next_index < units.len()
        }),
{
    let ghost units = byte_seqs(nal_units@);
    let n = nal_units.len();
    let first = &nal_units[nal_index];
    let first_type = get_nal_type(first.as_slice());
    let mut data: Vec<u8> = Vec::new();
    append_all(&mut data, first.as_slice());
    let mut has_keyframe = is_keyframe_nal(first.as_slice());
    let mut idx = nal_index + 1;
    proof {
        assert(units[nal_index as int] == first@);
        assert(units.subrange(nal_index as int, idx as int) =~= seq![first@]);
        assert(seq![first@].flatten() =~= first@) by {
            reveal_with_fuel(Seq::flatten, 2);
        }
        assert(Seq::<u8>::empty() + first@ =~= first@);
    }
    if first_type == NAL_SPS {
        while idx < n && get_nal_type(nal_units[idx].as_slice()) == NAL_SPS
            invariant
                n == nal_units@.len(),
                units == byte_seqs(nal_units@),
                nal_index < idx <= n,
                nal_unit_type(units[nal_index as int]) == NAL_SPS,
                run_end(units, idx as int, NAL_SPS) == run_end(units, nal_index + 1, NAL_SPS),
                data@ == units.subrange(nal_index as int, idx as int).flatten(),
                has_keyframe == has_keyframe_unit(units, nal_index as int, idx as int),
            decreases n - idx,
        {
            proof {
                lemma_flatten_extend(units, nal_index as int, idx as int);
            }
            append_all(&mut data, nal_units[idx].as_slice());
            proof {
                assert(is_keyframe_unit(units[nal_index as int]));
                assert(has_keyframe_unit(units, nal_index as int, idx + 1));
            }
            idx = idx + 1;
        }
        let ghost s_end = idx as int;
        while idx < n && get_nal_type(nal_units[idx].as_slice()) == NAL_PPS
            invariant
                n == nal_units@.len(),
                units == byte_seqs(nal_units@),
                nal_index < s_end <= idx <= n,
                s_end == run_end(units, nal_index + 1, NAL_SPS),
                run_end(units, idx as int, NAL_PPS) == run_end(units, s_end, NAL_PPS),
                data@ == units.subrange(nal_index as int, idx as int).flatten(),
                has_keyframe == has_keyframe_unit(units, nal_index as int, idx as int),
            decreases n - idx,
        {
            proof {
                lemma_flatten_extend(units, nal_index as int, idx as int);
                assert(is_keyframe_unit(units[idx as int]));
            }
            append_all(&mut data, nal_units[idx].as_slice());
            has_keyframe = true;
            idx = idx + 1;
        }
        if idx < n && get_nal_type(nal_units[idx].as_slice()) == NAL_IDR {
            proof {
                lemma_flatten_extend(units, nal_index as int, idx as int);
                assert(is_keyframe_unit(units[idx as int]));
            }
            append_all(&mut data, nal_units[idx].as_slice());
            has_keyframe = true;
            idx = idx + 1;
        }
    } else {
        let ghost size0 = first@.len() as int;
        while data.len() < TARGET_SEGMENT_SIZE && idx < n && get_nal_type(nal_units[idx].as_slice())
            != NAL_SPS
            invariant
                n == nal_units@.len(),
                units == byte_seqs(nal_units@),
                nal_index < idx <= n,
                nal_unit_type(units[nal_index as int]) != NAL_SPS,
                fill_end(units, idx as int, data@.len() as int) == fill_end(
                    units,
                    nal_index + 1,
                    size0,
                ),
                size0 == units[nal_index as int].len(),
                data@ == units.subrange(nal_index as int, idx as int).flatten(),
                has_keyframe == has_keyframe_unit(units, nal_index as int, idx as int),
            decreases n - idx,
        {
            proof {
                lemma_flatten_extend(units, nal_index as int, idx as int);
            }
            append_all(&mut data, nal_units[idx].as_slice());
            if is_keyframe_nal(nal_units[idx].as_slice()) {
                has_keyframe = true;
            }
            idx = idx + 1;
        }
    }
    let mut next_index = idx;
    if frame_count > 0 && frame_count % PARAMETER_SET_RESEND_FRAMES == 0 {
        next_index = 0;
    }
    if next_index >= n {
        next_index = 0;
    }
    LiveSegment { data, has_keyframe, next_index }
}

/// The sequence parameter set sent with each keyframe of the mock stream
/// (1280x720, baseline profile), start code included.
pub open spec fn mock_sps() -> Seq<u8> {
    seq![
        0x00u8, 0x00, 0x00, 0x01, 0x67, 0x42, 0xC0, 0x1E, 0xFF, 0xE1, 0x00, 0x19, 0x67, 0x42,
        0xC0, 0x1E, 0xDA, 0x01, 0x40, 0x16, 0xE8, 0x06, 0xD0, 0xA1, 0x35, 0x00, 0x00, 0x03,
        0x00, 0x01, 0x00, 0x00, 0x03, 0x00, 0x32, 0x0F, 0x16, 0x2D, 0x96,
    ]
}

/// The picture parameter set of the mock stream, start code included.
pub open spec fn mock_pps() -> Seq<u8> {
    seq![0x00u8, 0x00, 0x00, 0x01, 0x68, 0xCE, 0x3C, 0x80]
}

/// Header of a mock frame: SPS, PPS and an IDR NAL header on keyframes
/// (every `fps`-th frame), a non-IDR NAL header otherwise.
pub open spec fn mock_frame_header(frame_count: u64, fps: u32) -> Seq<u8> {
    if frame_count % (fps as u64) == 0 {
        mock_sps() + mock_pps() + seq![0x00u8, 0x00, 0x00, 0x01, 0x65]
    } else {
        seq![0x00u8, 0x00, 0x00, 0x01, 0x41]
    }
}

/// Byte `i` of the padding that fills a mock frame to its target size.
pub open spec fn mock_fill_byte(frame_count: u64, i: int) -> u8 {
    ((frame_count + i) % 256) as u8
}

/// A mock frame: its header, padded to `bytes_per_frame` bytes.
pub open spec fn mock_frame(frame_count: u64, fps: u32, bytes_per_frame: usize) -> Seq<u8> {
    let h = mock_frame_header(frame_count, fps);
    let remaining = if bytes_per_frame >= h.len() { bytes_per_frame - h.len() } else { 0 };
    h + Seq::new(remaining as nat, |i: int| mock_fill_byte(frame_count, i))
}

/// Bytes per mock frame for a bitrate in bits per second at `fps` frames
/// per second.
pub fn mock_bytes_per_frame(bitrate: usize, fps: u32) -> (n: usize)
    requires
        fps > 0,
    ensures
        n == bitrate / (fps as usize) / 8,
{
    bitrate / (fps as usize) / 8
}

/// Whether mock frame `frame_count` is a keyframe.
pub fn mock_is_keyframe(frame_count: u64, fps: u32) -> (r: bool)
    requires
        fps > 0,
    ensures
        r == (frame_count % (fps as u64) == 0),
{
    frame_count % (fps as u64) == 0
}

/// Generates the data of mock frame `frame_count`.
pub fn mock_frame_data(frame_count: u64, fps: u32, bytes_per_frame: usize) -> (data: Vec<u8>)
    requires
        fps > 0,
        frame_count + bytes_per_frame <= u64::MAX,
    ensures
        data@ == mock_frame(frame_count, fps, bytes_per_frame),
{
    let mut data: Vec<u8> = Vec::new();
    if mock_is_keyframe(frame_count, fps) {
        let sps: [u8; 39] = [
            0x00, 0x00, 0x00, 0x01, 0x67, 0x42, 0xC0, 0x1E, 0xFF, 0xE1, 0x00, 0x19, 0x67, 0x42,
            0xC0, 0x1E, 0xDA, 0x01, 0x40, 0x16, 0xE8, 0x06, 0xD0, 0xA1, 0x35, 0x00, 0x00, 0x03,
            0x00, 0x01, 0x00, 0x00, 0x03, 0x00, 0x32, 0x0F, 0x16, 0x2D, 0x96,
        ];
        let pps: [u8; 8] = [0x00, 0x00, 0x00, 0x01, 0x68, 0xCE, 0x3C, 0x80];
        let idr: [u8; 5] = [0x00, 0x00, 0x00, 0x01, 0x65];
        append_all(&mut data, &sps);
        append_all(&mut data, &pps);
        append_all(&mut data, &idr);
        assert(sps@ =~= mock_sps());
        assert(pps@ =~= mock_pps());
        assert(data@ =~= mock_frame_header(frame_count, fps));
    } else {
        let p: [u8; 5] = [0x00, 0x00, 0x00, 0x01, 0x41];
        append_all(&mut data, &p);
        assert(data@ =~= mock_frame_header(frame_count, fps));
    }
    let ghost header = data@;
    let remaining = if bytes_per_frame >= data.len() {
        bytes_per_frame - data.len()
    } else {
        0
    };
    let mut i: usize = 0;
    while i < remaining
        invariant
            header == mock_frame_header(frame_count, fps),
            remaining <= bytes_per_frame,
            frame_count + bytes_per_frame <= u64::MAX,
            i <= remaining,
            data@ == header + Seq::new(i as nat, |k: int| mock_fill_byte(frame_count, k)),
        decreases remaining - i,
    {
        data.push(((frame_count + i as u64) % 256) as u8);
        assert(header + Seq::new((i + 1) as nat, |k: int| mock_fill_byte(frame_count, k))
            =~= (header + Seq::new(i as nat, |k: int| mock_fill_byte(frame_count, k))).push(
            mock_fill_byte(frame_count, i as int),
        ));
        i = i + 1;
    }
    data
}

/// Checks that a file of NAL units has any: a live stream from a file
/// without a start code fails with `No NAL units found in file`.
pub fn nal_units_found(units: &Vec<Vec<u8>>) -> (r: Result<(), String>)
    ensures
        units@.len() > 0 <==> r.is_ok(),
        units@.len() == 0 ==> (r matches Err(m) && m@ == "No NAL units found in file"@),
{
    if units.len() == 0 {
        Err("No NAL units found in file".to_owned())
    } else {
        Ok(())
    }
}

/// The segment that a live stream at `fps` frames per second sends as
/// frame `frame_count` of session `session_id`: one frame of `data`,
/// stamped with the frame's time and lasting one frame, flagged as a
/// keyframe when `has_keyframe` holds, with a fresh identifier.
pub fn live_frame_segment(session_id: u128, frame_count: u64, fps: u32, data: Vec<u8>, has_keyframe: bool) -> (s:
    VideoSegment)
    requires
        fps > 0,
        frame_count * 1_000_000 <= u64::MAX,
    ensures
        s.stream_type == 1,
        s.session_id == session_id,
        s.timestamp_us == frame_count * 1_000_000 / (fps as int),
        s.duration_us == 1_000_000int / (fps as int),
        s.frame_count == 1,
        s.flags == if has_keyframe {
            FLAG_IS_KEYFRAME
        } else {
            0u8
        },
        s.data_length == data@.len() % 0x1_0000_0000,
        s.data@ == data@,
{
    let len = data.len();
    let data_length: u32 = ((len as u64) % 0x1_0000_0000) as u32;
    VideoSegment {
        stream_type: 0x01,
        segment_id: new_segment_id(),
        session_id,
        timestamp_us: frame_count * 1_000_000 / (fps as u64),
        duration_us: 1_000_000 / (fps as u64),
        frame_count: 1,
        flags: if has_keyframe {
            FLAG_IS_KEYFRAME
        } else {
            0
        },
        data_length,
        data,
    }
}

/// Whether `s` is the segment the mock generator sends as frame
/// `frame_count` of session `session_id` at `fps` frames per second with
/// frames of `bytes_per_frame` bytes: a video segment of one frame, at the
/// frame's time, flagged as a keyframe every `fps` frames, holding the
/// mock frame (a keyframe as long as the frame size but at least its 52
/// header bytes, any other frame at least its 5).
pub open spec fn is_mock_segment(
    s: VideoSegment,
    session_id: u128,
    frame_count: u64,
    fps: u32,
    bytes_per_frame: usize,
) -> bool {
    &&& s.stream_type == 1
    &&& s.session_id == session_id
    &&& s.timestamp_us == frame_count * 1_000_000 / (fps as int)
    &&& s.duration_us == 1_000_000int / (fps as int)
    &&& s.frame_count == 1
    &&& s.flags == if frame_count % (fps as u64) == 0 {
        FLAG_IS_KEYFRAME
    } else {
        0u8
    }
    &&& s.data@ == mock_frame(frame_count, fps, bytes_per_frame)
    &&& s.data@.len() == if frame_count % (fps as u64) == 0 {
        if bytes_per_frame >= 52 { bytes_per_frame as int } else { 52 }
    } else {
        if bytes_per_frame >= 5 { bytes_per_frame as int } else { 5 }
    }
    &&& s.data_length == s.data@.len() % 0x1_0000_0000
}

/// The segment that the mock generator sends as frame `frame_count` of
/// session `session_id` at `fps` frames per second with frames of
/// `bytes_per_frame` bytes: the mock frame, a keyframe every `fps` frames.
pub fn mock_segment(session_id: u128, frame_count: u64, fps: u32, bytes_per_frame: usize) -> (s: VideoSegment)
    requires
        fps > 0,
        frame_count + bytes_per_frame <= u64::MAX,
        frame_count * 1_000_000 <= u64::MAX,
    ensures
        is_mock_segment(s, session_id, frame_count, fps, bytes_per_frame),
{
    proof {
        lemma_mock_frame_len(frame_count, fps, bytes_per_frame);
    }
    let data = mock_frame_data(frame_count, fps, bytes_per_frame);
    let key = mock_is_keyframe(frame_count, fps);
    live_frame_segment(session_id, frame_count, fps, data, key)
}

/// Law: a mock keyframe is as long as the frame size but at least its 52
/// header bytes, and begins with the SPS, the PPS and the IDR start code;
/// any other frame is at least its 5 header bytes long and begins with
/// the start of a P slice.
pub proof fn lemma_mock_frame_len(frame_count: u64, fps: u32, bytes_per_frame: usize)
    requires
        fps > 0,
    ensures
        mock_frame(frame_count, fps, bytes_per_frame).len() == if frame_count % (fps as u64) == 0 {
            if bytes_per_frame >= 52 { bytes_per_frame as int } else { 52 }
        } else {
            if bytes_per_frame >= 5 { bytes_per_frame as int } else { 5 }
        },
        frame_count % (fps as u64) == 0 ==> mock_frame(frame_count, fps, bytes_per_frame).take(52)
            == mock_sps() + mock_pps() + seq![0x00u8, 0x00, 0x00, 0x01, 0x65],
        frame_count % (fps as u64) != 0 ==> mock_frame(frame_count, fps, bytes_per_frame).take(5)
            == seq![0x00u8, 0x00, 0x00, 0x01, 0x41],
{
    assert(mock_sps().len() == 39);
    assert(mock_pps().len() == 8);
    let f = mock_frame(frame_count, fps, bytes_per_frame);
    let h = mock_frame_header(frame_count, fps);
    assert(f.take(h.len() as int) =~= h);
}

/// The mock stream generator of a session: frames of `bytes_per_frame`
/// bytes at `fps` frames per second, counted from 0.
#[derive(Debug, Clone, Copy)]
pub struct MockStream {
    pub session_id: u128,
    pub fps: u32,
    pub bytes_per_frame: usize,
    /// The number of the next frame.
    pub frame_count: u64,
}

impl MockStream {
    /// A generator for session `session_id` at `fps` frames per second and
    /// `bitrate` bits per second.
    pub fn new(session_id: u128, fps: u32, bitrate: usize) -> (m: Self)
        requires
            fps > 0,
        ensures
            m.session_id == session_id,
            m.fps == fps,
            m.bytes_per_frame == bitrate / (fps as usize) / 8,
            m.frame_count == 0,
    {
        MockStream { session_id, fps, bytes_per_frame: mock_bytes_per_frame(bitrate, fps), frame_count: 0 }
    }

    /// The next segment to send; the frame count moves on.
    pub fn next_segment(&mut self) -> (s: VideoSegment)
        requires
            old(self).fps > 0,
            old(self).frame_count + old(self).bytes_per_frame <= u64::MAX,
            old(self).frame_count * 1_000_000 <= u64::MAX,
        ensures
            is_mock_segment(
                s,
                old(self).session_id,
                old(self).frame_count,
                old(self).fps,
                old(self).bytes_per_frame,
            ),
            final(self).frame_count == old(self).frame_count + 1,
            final(self).session_id == old(self).session_id,
            final(self).fps == old(self).fps,
            final(self).bytes_per_frame == old(self).bytes_per_frame,
    {
        let s = mock_segment(self.session_id, self.frame_count, self.fps, self.bytes_per_frame);
        self.frame_count = self.frame_count + 1;
        s
    }
}

/// Law: the k-th segment (from 0) that a new mock generator sends, taking
/// `states[k]` to `states[k + 1]`, is mock frame k: keyframe-flagged
/// exactly when k is a multiple of the frame rate, beginning with the SPS,
/// the PPS and the IDR start code if so and with a P slice otherwise, and
/// as long as the frame size with at least those header bytes.
pub proof fn lemma_kth_mock_segment(states: Seq<MockStream>, segs: Seq<VideoSegment>)
    requires
        states.len() == segs.len() + 1,
        states[0].frame_count == 0,
        states[0].fps > 0,
        forall|k: int|
            0 <= k < segs.len() ==> {
                &&& (#[trigger] states[k + 1]).frame_count == states[k].frame_count + 1
                &&& states[k + 1].session_id == states[k].session_id
                &&& states[k + 1].fps == states[k].fps
                &&& states[k + 1].bytes_per_frame == states[k].bytes_per_frame
                &&& is_mock_segment(
                    segs[k],
                    states[k].session_id,
                    states[k].frame_count,
                    states[k].fps,
                    states[k].bytes_per_frame,
                )
            },
    ensures
        forall|k: int|
            0 <= k < segs.len() ==> {
                let m = states[0];
                let s = #[trigger] segs[k];
                &&& is_mock_segment(s, m.session_id, k as u64, m.fps, m.bytes_per_frame)
                &&& (s.flags == FLAG_IS_KEYFRAME) == (k % (m.fps as int) == 0)
                &&& k % (m.fps as int) == 0 ==> s.data@.take(52) == mock_sps() + mock_pps() + seq![
                    0x00u8,
                    0x00,
                    0x00,
                    0x01,
                    0x65,
                ]
                &&& k % (m.fps as int) != 0 ==> s.data@.take(5) == seq![0x00u8, 0x00, 0x00, 0x01, 0x41]
            },
{
    lemma_mock_states(states, segs, segs.len() as int);
    assert forall|k: int| 0 <= k < segs.len() implies {
        let m = states[0];
        let s = #[trigger] segs[k];
        &&& is_mock_segment(s, m.session_id, k as u64, m.fps, m.bytes_per_frame)
        &&& (s.flags == FLAG_IS_KEYFRAME) == (k % (m.fps as int) == 0)
        &&& k % (m.fps as int) == 0 ==> s.data@.take(52) == mock_sps() + mock_pps() + seq![
            0x00u8,
            0x00,
            0x00,
            0x01,
            0x65,
        ]
        &&& k % (m.fps as int) != 0 ==> s.data@.take(5) == seq![0x00u8, 0x00, 0x00, 0x01, 0x41]
    } by {
        let m = states[0];
        assert(states[k + 1].frame_count == states[k].frame_count + 1);
        assert(states[k].frame_count == k && states[k].fps == m.fps);
        assert(states[k].frame_count == k as u64);
        lemma_mock_frame_len(k as u64, m.fps, m.bytes_per_frame);
    }
}

proof fn lemma_mock_states(states: Seq<MockStream>, segs: Seq<VideoSegment>, n: int)
    requires
        0 <= n <= segs.len(),
        states.len() == segs.len() + 1,
        states[0].frame_count == 0,
        forall|k: int|
            0 <= k < segs.len() ==> {
                &&& (#[trigger] states[k + 1]).frame_count == states[k].frame_count + 1
                &&& states[k + 1].session_id == states[k].session_id
                &&& states[k + 1].fps == states[k].fps
                &&& states[k + 1].bytes_per_frame == states[k].bytes_per_frame
            },
    ensures
        forall|k: int|
            0 <= k <= n ==> (#[trigger] states[k]).frame_count == k && states[k].session_id
                == states[0].session_id && states[k].fps == states[0].fps && states[k].bytes_per_frame
                == states[0].bytes_per_frame,
    decreases n,
{
    if n > 0 {
        lemma_mock_states(states, segs, n - 1);
        assert(states[(n - 1) + 1] == states[n]);
    }
}

} // verus!
