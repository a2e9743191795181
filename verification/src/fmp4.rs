//! Conversion of raw H.264 segments to fragmented MP4 for MSE players:
//! the initialization segment (`ftyp` + `moov`) and media segments
//! (`moof` + `mdat`), written box by box in ISO BMFF layout.

use vstd::prelude::*;
use crate::be_bytes::{be16, be24, be32, be32_value, be48, be64, lemma_be32_round_trip, put_low_u32, put_u8, put_u16, put_u24, put_u32, put_u48, put_u64};
use crate::byte_buf::append_all;
use crate::stream_types::{SegmentFormat, StreamError, VideoSegment};

verus! {

/// ISO BMFF box types used by the converter.
#[derive(Debug, Clone, Copy)]
pub enum BoxType {
    Ftyp,
    Moov,
    Moof,
    Mdat,
    Mvhd,
    Trak,
    Tkhd,
    Mdia,
    Mdhd,
    Hdlr,
    Minf,
    Vmhd,
    Dinf,
    Dref,
    Stbl,
    Stsd,
    Stts,
    Stsc,
    Stsz,
    Stco,
    Mvex,
    Trex,
    Mfhd,
    Traf,
    Tfhd,
    Tfdt,
    Trun,
    Avc1,
    AvcC,
}

impl BoxType {
    /// The four-character code of the box type as a big-endian number.
    pub open spec fn code(self) -> u32 {
        match self {
            BoxType::Ftyp => 0x66747970,
            BoxType::Moov => 0x6d6f6f76,
            BoxType::Moof => 0x6d6f6f66,
            BoxType::Mdat => 0x6d646174,
            BoxType::Mvhd => 0x6d766864,
            BoxType::Trak => 0x7472616b,
            BoxType::Tkhd => 0x746b6864,
            BoxType::Mdia => 0x6d646961,
            BoxType::Mdhd => 0x6d646864,
            BoxType::Hdlr => 0x68646c72,
            BoxType::Minf => 0x6d696e66,
            BoxType::Vmhd => 0x766d6864,
            BoxType::Dinf => 0x64696e66,
            BoxType::Dref => 0x64726566,
            BoxType::Stbl => 0x7374626c,
            BoxType::Stsd => 0x73747364,
            BoxType::Stts => 0x73747473,
            BoxType::Stsc => 0x73747363,
            BoxType::Stsz => 0x7374737a,
            BoxType::Stco => 0x7374636f,
            BoxType::Mvex => 0x6d766578,
            BoxType::Trex => 0x74726578,
            BoxType::Mfhd => 0x6d666864,
            BoxType::Traf => 0x74726166,
            BoxType::Tfhd => 0x74666864,
            BoxType::Tfdt => 0x74666474,
            BoxType::Trun => 0x7472756e,
            BoxType::Avc1 => 0x61766331,
            BoxType::AvcC => 0x61766343,
        }
    }

    /// The four-character code of the box type.
    pub fn fourcc(&self) -> (c: u32)
        ensures
            c == self.code(),
    {
        match self {
            BoxType::Ftyp => 0x66747970,
            BoxType::Moov => 0x6d6f6f76,
            BoxType::Moof => 0x6d6f6f66,
            BoxType::Mdat => 0x6d646174,
            BoxType::Mvhd => 0x6d766864,
            BoxType::Trak => 0x7472616b,
            BoxType::Tkhd => 0x746b6864,
            BoxType::Mdia => 0x6d646961,
            BoxType::Mdhd => 0x6d646864,
            BoxType::Hdlr => 0x68646c72,
            BoxType::Minf => 0x6d696e66,
            BoxType::Vmhd => 0x766d6864,
            BoxType::Dinf => 0x64696e66,
            BoxType::Dref => 0x64726566,
            BoxType::Stbl => 0x7374626c,
            BoxType::Stsd => 0x73747364,
            BoxType::Stts => 0x73747473,
            BoxType::Stsc => 0x73747363,
            BoxType::Stsz => 0x7374737a,
            BoxType::Stco => 0x7374636f,
            BoxType::Mvex => 0x6d766578,
            BoxType::Trex => 0x74726578,
            BoxType::Mfhd => 0x6d666864,
            BoxType::Traf => 0x74726166,
            BoxType::Tfhd => 0x74666864,
            BoxType::Tfdt => 0x74666474,
            BoxType::Trun => 0x7472756e,
            BoxType::Avc1 => 0x61766331,
            BoxType::AvcC => 0x61766343,
        }
    }
}

/// `iso5`, `iso6` and `mp41` brand codes.
pub const BRAND_ISO5: u32 = 0x69736f35;
pub const BRAND_ISO6: u32 = 0x69736f36;
pub const BRAND_MP41: u32 = 0x6d703431;
/// `vide` handler type.
pub const HANDLER_VIDE: u32 = 0x76696465;

/// The value of `data_offset` written in each `trun` box: the size of the
/// `moof` box (92 bytes) plus the 8-byte `mdat` header, which is where the
/// first sample byte of a media segment lies.
pub const TRUN_DATA_OFFSET: u32 = 100;

/// Configuration of the converter.
#[derive(Debug, Clone)]
pub struct FMP4ConverterConfig {
    pub width: u16,
    pub height: u16,
    /// Media time scale (ticks per second).
    pub timescale: u32,
    /// Frame rate (thousandths of a frame per second).
    pub frame_rate_milli: u64,
}

/// 1920x1080 at 30 fps with the 90 kHz H.264 time scale.
pub open spec fn default_converter_config() -> FMP4ConverterConfig {
    FMP4ConverterConfig { width: 1920, height: 1080, timescale: 90_000, frame_rate_milli: 30_000 }
}

impl Default for FMP4ConverterConfig {
    fn default() -> (c: Self)
        ensures
            c == default_converter_config(),
    {
        FMP4ConverterConfig { width: 1920, height: 1080, timescale: 90_000, frame_rate_milli: 30_000 }
    }
}

/// A box: 32-bit size (header included), four-character code, payload.
pub open spec fn mp4_box(code: u32, payload: Seq<u8>) -> Seq<u8> {
    be32(8 + payload.len() as int) + be32(code as int) + payload
}

/// Version byte and 24-bit flags of a full box.
pub open spec fn full_box_header(version: u8, flags: int) -> Seq<u8> {
    seq![version] + be24(flags)
}

/// The unity transformation matrix.
pub open spec fn unity_matrix() -> Seq<u8> {
    be32(0x10000) + be32(0) + be32(0) + be32(0) + be32(0x10000) + be32(0) + be32(0) + be32(0)
        + be32(0x40000000)
}

pub open spec fn ftyp_box() -> Seq<u8> {
    mp4_box(
        BoxType::Ftyp.code(),
        be32(BRAND_ISO5 as int) + be32(0) + be32(BRAND_ISO5 as int) + be32(BRAND_ISO6 as int)
            + be32(BRAND_MP41 as int),
    )
}

pub open spec fn mvhd_box(timescale: u32) -> Seq<u8> {
    mp4_box(
        BoxType::Mvhd.code(),
        full_box_header(1, 0) + be64(0) + be64(0) + be32(timescale as int) + be64(0) + be32(
            0x10000,
        ) + be16(0x100) + be16(0) + be64(0) + unity_matrix() + be32(0) + be32(0) + be32(0)
            + be32(0) + be32(0) + be32(0) + be32(2),
    )
}

pub open spec fn tkhd_box(width: u16, height: u16) -> Seq<u8> {
    mp4_box(
        BoxType::Tkhd.code(),
        full_box_header(1, 7) + be64(0) + be64(0) + be32(1) + be32(0) + be64(0) + be64(0)
            + be16(0) + be16(0) + be16(0) + be16(0) + unity_matrix() + be32(width * 0x10000)
            + be32(height * 0x10000),
    )
}

pub open spec fn mdhd_box(timescale: u32) -> Seq<u8> {
    mp4_box(
        BoxType::Mdhd.code(),
        full_box_header(1, 0) + be64(0) + be64(0) + be32(timescale as int) + be64(0) + be16(
            0x55c4,
        ) + be16(0),
    )
}

/// `VideoHandler` followed by a zero byte.
pub open spec fn video_handler_name() -> Seq<u8> {
    seq![0x56u8, 0x69, 0x64, 0x65, 0x6f, 0x48, 0x61, 0x6e, 0x64, 0x6c, 0x65, 0x72, 0x00]
}

pub open spec fn hdlr_box() -> Seq<u8> {
    mp4_box(
        BoxType::Hdlr.code(),
        full_box_header(0, 0) + be32(0) + be32(HANDLER_VIDE as int) + be32(0) + be32(0) + be32(0)
            + video_handler_name(),
    )
}

pub open spec fn vmhd_box() -> Seq<u8> {
    mp4_box(BoxType::Vmhd.code(), full_box_header(0, 1) + be16(0) + be16(0) + be16(0) + be16(0))
}

/// The data-information box. Its data-entry box carries the `dref` code.
pub open spec fn dinf_box() -> Seq<u8> {
    mp4_box(
        BoxType::Dinf.code(),
        mp4_box(
            BoxType::Dref.code(),
            full_box_header(0, 0) + be32(1) + mp4_box(BoxType::Dref.code(), full_box_header(0, 1)),
        ),
    )
}

pub open spec fn avcc_payload() -> Seq<u8> {
    seq![1u8, 0x64, 0x00, 0x1f, 0xff, 0xe0, 0]
}

pub open spec fn avc1_box(width: u16, height: u16) -> Seq<u8> {
    mp4_box(
        BoxType::Avc1.code(),
        be48(0) + be16(1) + be16(0) + be16(0) + be32(0) + be32(0) + be32(0) + be16(width as int)
            + be16(height as int) + be32(0x00480000) + be32(0x00480000) + be32(0) + be16(1)
            + Seq::new(32, |i: int| 0u8) + be16(0x0018) + be16(0xffff) + mp4_box(
            BoxType::AvcC.code(),
            avcc_payload(),
        ),
    )
}

pub open spec fn stsd_box(width: u16, height: u16) -> Seq<u8> {
    mp4_box(BoxType::Stsd.code(), full_box_header(0, 0) + be32(1) + avc1_box(width, height))
}

pub open spec fn stbl_box(width: u16, height: u16) -> Seq<u8> {
    mp4_box(
        BoxType::Stbl.code(),
        stsd_box(width, height) + mp4_box(BoxType::Stts.code(), full_box_header(0, 0) + be32(0))
            + mp4_box(BoxType::Stsc.code(), full_box_header(0, 0) + be32(0)) + mp4_box(
            BoxType::Stsz.code(),
            full_box_header(0, 0) + be32(0) + be32(0),
        ) + mp4_box(BoxType::Stco.code(), full_box_header(0, 0) + be32(0)),
    )
}

pub open spec fn minf_box(width: u16, height: u16) -> Seq<u8> {
    mp4_box(BoxType::Minf.code(), vmhd_box() + dinf_box() + stbl_box(width, height))
}

pub open spec fn mdia_box(c: FMP4ConverterConfig) -> Seq<u8> {
    mp4_box(BoxType::Mdia.code(), mdhd_box(c.timescale) + hdlr_box() + minf_box(c.width, c.height))
}

pub open spec fn trak_box(c: FMP4ConverterConfig) -> Seq<u8> {
    mp4_box(BoxType::Trak.code(), tkhd_box(c.width, c.height) + mdia_box(c))
}

pub open spec fn mvex_box() -> Seq<u8> {
    mp4_box(
        BoxType::Mvex.code(),
        mp4_box(
            BoxType::Trex.code(),
            full_box_header(0, 0) + be32(1) + be32(1) + be32(0) + be32(0) + be32(0),
        ),
    )
}

pub open spec fn moov_box(c: FMP4ConverterConfig) -> Seq<u8> {
    mp4_box(BoxType::Moov.code(), mvhd_box(c.timescale) + trak_box(c) + mvex_box())
}

/// The initialization segment: `ftyp` then `moov`.
pub open spec fn init_segment(c: FMP4ConverterConfig) -> Seq<u8> {
    ftyp_box() + moov_box(c)
}

pub open spec fn traf_box(decode_time: u64, sample_duration: u32) -> Seq<u8> {
    mp4_box(
        BoxType::Traf.code(),
        mp4_box(BoxType::Tfhd.code(), full_box_header(0, 0x020000) + be32(1)) + mp4_box(
            BoxType::Tfdt.code(),
            full_box_header(1, 0) + be64(decode_time as int),
        ) + mp4_box(
            BoxType::Trun.code(),
            full_box_header(0, 0x000301) + be32(1) + be32(TRUN_DATA_OFFSET as int) + be32(
                sample_duration as int,
            ),
        ),
    )
}

pub open spec fn moof_box(sequence_number: u32, decode_time: u64, sample_duration: u32) -> Seq<u8> {
    mp4_box(
        BoxType::Moof.code(),
        mp4_box(BoxType::Mfhd.code(), full_box_header(0, 0) + be32(sequence_number as int))
            + traf_box(decode_time, sample_duration),
    )
}

/// A media segment: `moof` then `mdat` with the sample data.
pub open spec fn media_segment(
    sequence_number: u32,
    decode_time: u64,
    sample_duration: u32,
    data: Seq<u8>,
) -> Seq<u8> {
    moof_box(sequence_number, decode_time, sample_duration) + mp4_box(BoxType::Mdat.code(), data)
}

/// Media-clock ticks for a time in microseconds, saturating like a float
/// to integer conversion.
pub open spec fn ticks_for_us(us: u64, timescale: u32) -> int {
    let t = (us * timescale) / 1_000_000;
    if t > u64::MAX {
        u64::MAX as int
    } else {
        t
    }
}

/// Converter from raw H.264 segments to fragmented MP4.
pub struct FMP4Converter {
    pub config: FMP4ConverterConfig,
    /// Sequence number of the next media segment.
    pub sequence_number: u32,
}

impl Default for FMP4Converter {
    fn default() -> (c: Self)
        ensures
            c.config == default_converter_config(),
            c.sequence_number == 0,
    {
        FMP4Converter { config: FMP4ConverterConfig::default(), sequence_number: 0 }
    }
}

/// Appends a box with the given type and payload. The size field holds the
/// low 32 bits of the box length.
pub fn write_box(buffer: &mut Vec<u8>, box_type: BoxType, data: &[u8])
    ensures
        final(buffer)@ == old(buffer)@ + mp4_box(box_type.code(), data@),
{
    let size: u128 = 8 + data.len() as u128;
    put_low_u32(buffer, size);
    put_u32(buffer, box_type.fourcc());
    append_all(buffer, data);
    assert(final(buffer)@ =~= old(buffer)@ + mp4_box(box_type.code(), data@));
}

fn put_full_box_header(buffer: &mut Vec<u8>, version: u8, flags: u32)
    ensures
        final(buffer)@ == old(buffer)@ + full_box_header(version, flags as int),
{
    put_u8(buffer, version);
    put_u24(buffer, flags);
    assert(final(buffer)@ =~= old(buffer)@ + full_box_header(version, flags as int));
}

fn put_unity_matrix(buffer: &mut Vec<u8>)
    ensures
        final(buffer)@ == old(buffer)@ + unity_matrix(),
{
    put_u32(buffer, 0x00010000);
    put_u32(buffer, 0);
    put_u32(buffer, 0);
    put_u32(buffer, 0);
    put_u32(buffer, 0x00010000);
    put_u32(buffer, 0);
    put_u32(buffer, 0);
    put_u32(buffer, 0);
    put_u32(buffer, 0x40000000);
    assert(final(buffer)@ =~= old(buffer)@ + unity_matrix());
}

impl FMP4Converter {
    /// A converter whose first media segment has sequence number 0.
    pub fn new(config: FMP4ConverterConfig) -> (c: Self)
        ensures
            c.config == config,
            c.sequence_number == 0,
    {
        FMP4Converter { config, sequence_number: 0 }
    }


    /// Builds the initialization segment (`ftyp` + `moov`).
    pub fn generate_init_segment(&self) -> (r: Result<Vec<u8>, StreamError>)
        ensures
            r matches Ok(v) && v@ == init_segment(self.config),
    {
        let mut buffer: Vec<u8> = Vec::new();
        self.write_ftyp_box(&mut buffer);
        self.write_moov_box(&mut buffer);
        assert(buffer@ =~= init_segment(self.config));
        Ok(buffer)
    }

    fn write_ftyp_box(&self, buffer: &mut Vec<u8>)
        ensures
            final(buffer)@ == old(buffer)@ + ftyp_box(),
    {
        let mut data: Vec<u8> = Vec::new();
        put_u32(&mut data, BRAND_ISO5);
        put_u32(&mut data, 0);
        put_u32(&mut data, BRAND_ISO5);
        put_u32(&mut data, BRAND_ISO6);
        put_u32(&mut data, BRAND_MP41);
        write_box(buffer, BoxType::Ftyp, data.as_slice());
        assert(ftyp_box() == mp4_box(BoxType::Ftyp.code(), data@));
    }

    fn write_moov_box(&self, buffer: &mut Vec<u8>)
        ensures
            final(buffer)@ == old(buffer)@ + moov_box(self.config),
    {
        let mut moov: Vec<u8> = Vec::new();
        self.write_mvhd_box(&mut moov);
        self.write_trak_box(&mut moov);
        self.write_mvex_box(&mut moov);
        assert(moov@ =~= mvhd_box(self.config.timescale) + trak_box(self.config) + mvex_box());
        write_box(buffer, BoxType::Moov, moov.as_slice());
    }

    fn write_mvhd_box(&self, buffer: &mut Vec<u8>)
        ensures
            final(buffer)@ == old(buffer)@ + mvhd_box(self.config.timescale),
    {
        let mut data: Vec<u8> = Vec::new();
        put_full_box_header(&mut data, 1, 0);
        put_u64(&mut data, 0);
        put_u64(&mut data, 0);
        put_u32(&mut data, self.config.timescale);
        put_u64(&mut data, 0);
        put_u32(&mut data, 0x00010000);
        put_u16(&mut data, 0x0100);
        put_u16(&mut data, 0);
        put_u64(&mut data, 0);
        put_unity_matrix(&mut data);
        put_u32(&mut data, 0);
        put_u32(&mut data, 0);
        put_u32(&mut data, 0);
        put_u32(&mut data, 0);
        put_u32(&mut data, 0);
        put_u32(&mut data, 0);
        put_u32(&mut data, 2);
        assert(mvhd_box(self.config.timescale) =~= mp4_box(BoxType::Mvhd.code(), data@));
        write_box(buffer, BoxType::Mvhd, data.as_slice());
    }

    fn write_trak_box(&self, buffer: &mut Vec<u8>)
        ensures
            final(buffer)@ == old(buffer)@ + trak_box(self.config),
    {
        let mut trak: Vec<u8> = Vec::new();
        self.write_tkhd_box(&mut trak);
        self.write_mdia_box(&mut trak);
        assert(trak@ =~= tkhd_box(self.config.width, self.config.height) + mdia_box(self.config));
        write_box(buffer, BoxType::Trak, trak.as_slice());
    }

    fn write_tkhd_box(&self, buffer: &mut Vec<u8>)
        ensures
            final(buffer)@ == old(buffer)@ + tkhd_box(self.config.width, self.config.height),
    {
        let mut data: Vec<u8> = Vec::new();
        put_full_box_header(&mut data, 1, 0x000007);
        put_u64(&mut data, 0);
        put_u64(&mut data, 0);
        put_u32(&mut data, 1);
        put_u32(&mut data, 0);
        put_u64(&mut data, 0);
        put_u64(&mut data, 0);
        put_u16(&mut data, 0);
        put_u16(&mut data, 0);
        put_u16(&mut data, 0);
        put_u16(&mut data, 0);
        put_unity_matrix(&mut data);
        put_u32(&mut data, (self.config.width as u32) * 0x10000);
        put_u32(&mut data, (self.config.height as u32) * 0x10000);
        assert(tkhd_box(self.config.width, self.config.height) =~= mp4_box(
            BoxType::Tkhd.code(),
            data@,
        ));
        write_box(buffer, BoxType::Tkhd, data.as_slice());
    }

    fn write_mdia_box(&self, buffer: &mut Vec<u8>)
        ensures
            final(buffer)@ == old(buffer)@ + mdia_box(self.config),
    {
        let mut mdia: Vec<u8> = Vec::new();
        self.write_mdhd_box(&mut mdia);
        self.write_hdlr_box(&mut mdia);
        self.write_minf_box(&mut mdia);
        assert(mdia@ =~= mdhd_box(self.config.timescale) + hdlr_box() + minf_box(
            self.config.width,
            self.config.height,
        ));
        write_box(buffer, BoxType::Mdia, mdia.as_slice());
    }

    fn write_mdhd_box(&self, buffer: &mut Vec<u8>)
        ensures
            final(buffer)@ == old(buffer)@ + mdhd_box(self.config.timescale),
    {
        let mut data: Vec<u8> = Vec::new();
        put_full_box_header(&mut data, 1, 0);
        put_u64(&mut data, 0);
        put_u64(&mut data, 0);
        put_u32(&mut data, self.config.timescale);
        put_u64(&mut data, 0);
        put_u16(&mut data, 0x55c4);
        put_u16(&mut data, 0);
        assert(mdhd_box(self.config.timescale) =~= mp4_box(BoxType::Mdhd.code(), data@));
        write_box(buffer, BoxType::Mdhd, data.as_slice());
    }

    fn write_hdlr_box(&self, buffer: &mut Vec<u8>)
        ensures
            final(buffer)@ == old(buffer)@ + hdlr_box(),
    {
        let mut data: Vec<u8> = Vec::new();
        put_full_box_header(&mut data, 0, 0);
        put_u32(&mut data, 0);
        put_u32(&mut data, HANDLER_VIDE);
        put_u32(&mut data, 0);
        put_u32(&mut data, 0);
        put_u32(&mut data, 0);
        let name: [u8; 13] = [
            0x56, 0x69, 0x64, 0x65, 0x6f, 0x48, 0x61, 0x6e, 0x64, 0x6c, 0x65, 0x72, 0x00,
        ];
        append_all(&mut data, &name);
        assert(name@ =~= video_handler_name());
        assert(hdlr_box() =~= mp4_box(BoxType::Hdlr.code(), data@));
        write_box(buffer, BoxType::Hdlr, data.as_slice());
    }

    fn write_minf_box(&self, buffer: &mut Vec<u8>)
        ensures
            final(buffer)@ == old(buffer)@ + minf_box(self.config.width, self.config.height),
    {
        let mut minf: Vec<u8> = Vec::new();
        self.write_vmhd_box(&mut minf);
        self.write_dinf_box(&mut minf);
        self.write_stbl_box(&mut minf);
        assert(minf@ =~= vmhd_box() + dinf_box() + stbl_box(self.config.width, self.config.height));
        write_box(buffer, BoxType::Minf, minf.as_slice());
    }

    fn write_vmhd_box(&self, buffer: &mut Vec<u8>)
        ensures
            final(buffer)@ == old(buffer)@ + vmhd_box(),
    {
        let mut data: Vec<u8> = Vec::new();
        put_full_box_header(&mut data, 0, 1);
        put_u16(&mut data, 0);
        put_u16(&mut data, 0);
        put_u16(&mut data, 0);
        put_u16(&mut data, 0);
        assert(vmhd_box() =~= mp4_box(BoxType::Vmhd.code(), data@));
        write_box(buffer, BoxType::Vmhd, data.as_slice());
    }

    fn write_dinf_box(&self, buffer: &mut Vec<u8>)
        ensures
            final(buffer)@ == old(buffer)@ + dinf_box(),
    {
        let mut url: Vec<u8> = Vec::new();
        put_full_box_header(&mut url, 0, 1);
        let mut dref: Vec<u8> = Vec::new();
        put_full_box_header(&mut dref, 0, 0);
        put_u32(&mut dref, 1);
        write_box(&mut dref, BoxType::Dref, url.as_slice());
        let mut dinf: Vec<u8> = Vec::new();
        write_box(&mut dinf, BoxType::Dref, dref.as_slice());
        write_box(buffer, BoxType::Dinf, dinf.as_slice());
        assert(dinf@ =~= mp4_box(
            BoxType::Dref.code(),
            full_box_header(0, 0) + be32(1) + mp4_box(BoxType::Dref.code(), full_box_header(0, 1)),
        ));
    }

    fn write_stbl_box(&self, buffer: &mut Vec<u8>)
        ensures
            final(buffer)@ == old(buffer)@ + stbl_box(self.config.width, self.config.height),
    {
        let mut stbl: Vec<u8> = Vec::new();
        self.write_stsd_box(&mut stbl);
        let mut stts: Vec<u8> = Vec::new();
        put_full_box_header(&mut stts, 0, 0);
        put_u32(&mut stts, 0);
        write_box(&mut stbl, BoxType::Stts, stts.as_slice());
        let mut stsc: Vec<u8> = Vec::new();
        put_full_box_header(&mut stsc, 0, 0);
        put_u32(&mut stsc, 0);
        write_box(&mut stbl, BoxType::Stsc, stsc.as_slice());
        let mut stsz: Vec<u8> = Vec::new();
        put_full_box_header(&mut stsz, 0, 0);
        put_u32(&mut stsz, 0);
        put_u32(&mut stsz, 0);
        write_box(&mut stbl, BoxType::Stsz, stsz.as_slice());
        let mut stco: Vec<u8> = Vec::new();
        put_full_box_header(&mut stco, 0, 0);
        put_u32(&mut stco, 0);
        write_box(&mut stbl, BoxType::Stco, stco.as_slice());
        assert(stbl@ =~= stsd_box(self.config.width, self.config.height) + mp4_box(
            BoxType::Stts.code(),
            full_box_header(0, 0) + be32(0),
        ) + mp4_box(BoxType::Stsc.code(), full_box_header(0, 0) + be32(0)) + mp4_box(
            BoxType::Stsz.code(),
            full_box_header(0, 0) + be32(0) + be32(0),
        ) + mp4_box(BoxType::Stco.code(), full_box_header(0, 0) + be32(0)));
        write_box(buffer, BoxType::Stbl, stbl.as_slice());
    }

    fn write_stsd_box(&self, buffer: &mut Vec<u8>)
        ensures
            final(buffer)@ == old(buffer)@ + stsd_box(self.config.width, self.config.height),
    {
        let mut avc1: Vec<u8> = Vec::new();
        put_u48(&mut avc1, 0);
        put_u16(&mut avc1, 1);
        put_u16(&mut avc1, 0);
        put_u16(&mut avc1, 0);
        put_u32(&mut avc1, 0);
        put_u32(&mut avc1, 0);
        put_u32(&mut avc1, 0);
        put_u16(&mut avc1, self.config.width);
        put_u16(&mut avc1, self.config.height);
        put_u32(&mut avc1, 0x00480000);
        put_u32(&mut avc1, 0x00480000);
        put_u32(&mut avc1, 0);
        put_u16(&mut avc1, 1);
        let ghost before_name = avc1@;
        let mut k: usize = 0;
        while k < 32
            invariant
                k <= 32,
                avc1@ == before_name + Seq::new(k as nat, |i: int| 0u8),
            decreases 32 - k,
        {
            put_u8(&mut avc1, 0);
            assert(before_name + Seq::new((k + 1) as nat, |i: int| 0u8) =~= (before_name
                + Seq::new(k as nat, |i: int| 0u8)).push(0u8));
            k = k + 1;
        }
        put_u16(&mut avc1, 0x0018);
        put_u16(&mut avc1, 0xffff);
        let avcc: [u8; 7] = [1, 0x64, 0x00, 0x1f, 0xff, 0xe0, 0];
        assert(avcc@ =~= avcc_payload());
        write_box(&mut avc1, BoxType::AvcC, &avcc);
        let mut stsd: Vec<u8> = Vec::new();
        put_full_box_header(&mut stsd, 0, 0);
        put_u32(&mut stsd, 1);
        assert(avc1_box(self.config.width, self.config.height) =~= mp4_box(
            BoxType::Avc1.code(),
            avc1@,
        ));
        write_box(&mut stsd, BoxType::Avc1, avc1.as_slice());
        assert(stsd_box(self.config.width, self.config.height) =~= mp4_box(
            BoxType::Stsd.code(),
            stsd@,
        ));
        write_box(buffer, BoxType::Stsd, stsd.as_slice());
    }

    fn write_mvex_box(&self, buffer: &mut Vec<u8>)
        ensures
            final(buffer)@ == old(buffer)@ + mvex_box(),
    {
        let mut trex: Vec<u8> = Vec::new();
        put_full_box_header(&mut trex, 0, 0);
        put_u32(&mut trex, 1);
        put_u32(&mut trex, 1);
        put_u32(&mut trex, 0);
        put_u32(&mut trex, 0);
        put_u32(&mut trex, 0);
        let mut mvex: Vec<u8> = Vec::new();
        write_box(&mut mvex, BoxType::Trex, trex.as_slice());
        assert(mvex_box() =~= mp4_box(BoxType::Mvex.code(), mvex@));
        write_box(buffer, BoxType::Mvex, mvex.as_slice());
    }

    /// Builds the media segment of one sample with the current sequence
    /// number, and advances the sequence number.
    pub fn build_media_segment(&mut self, decode_time: u64, sample_duration: u32, data: &[u8]) -> (v:
        Vec<u8>)
        requires
            old(self).sequence_number < u32::MAX,
        ensures
            v@ == media_segment(old(self).sequence_number, decode_time, sample_duration, data@),
            final(self).sequence_number == old(self).sequence_number + 1,
            final(self).config == old(self).config,
    {
        let mut buffer: Vec<u8> = Vec::new();
        self.write_moof_box(&mut buffer, decode_time, sample_duration);
        write_box(&mut buffer, BoxType::Mdat, data);
        self.sequence_number = self.sequence_number + 1;
        assert(buffer@ =~= media_segment(old(self).sequence_number, decode_time, sample_duration, data@));
        buffer
    }

    /// Converts a raw H.264 segment to a fragmented-MP4 media segment; the
    /// decode time and sample duration are its timestamp and duration on
    /// the media clock. Other formats are refused.
    pub fn convert_segment(&mut self, segment: VideoSegment) -> (r: Result<VideoSegment, StreamError>)
        requires
            old(self).sequence_number < u32::MAX,
        ensures
            segment.format != SegmentFormat::H264Raw ==> (r matches Err(StreamError::Internal(m))
                && m@ == "Only H264Raw format can be converted to fMP4"@) && *final(self) == *old(self),
            segment.format == SegmentFormat::H264Raw ==> {
                &&& r matches Ok(out)
                &&& out.segment_id == segment.segment_id
                &&& out.timestamp_us == segment.timestamp_us
                &&& out.duration_us == segment.duration_us
                &&& out.is_keyframe == segment.is_keyframe
                &&& out.format == SegmentFormat::FMP4
                &&& out.source_type == segment.source_type
                &&& out.receive_time_us == segment.receive_time_us
                &&& out.forward_time_us == segment.forward_time_us
                &&& out.data@ == media_segment(
                    old(self).sequence_number,
                    ticks_for_us(segment.timestamp_us, old(self).config.timescale) as u64,
                    clamp_u32(ticks_for_us(segment.duration_us, old(self).config.timescale)),
                    segment.data@,
                )
                &&& final(self).sequence_number == old(self).sequence_number + 1
                &&& final(self).config == old(self).config
            },
    {
        if segment.format != SegmentFormat::H264Raw {
            return Err(StreamError::Internal(only_h264_message()));
        }
        let decode_time = ticks_saturating(segment.timestamp_us, self.config.timescale);
        let d = ticks_saturating(segment.duration_us, self.config.timescale);
        let sample_duration: u32 = if d > u32::MAX as u64 {
            u32::MAX
        } else {
            d as u32
        };
        let data = self.build_media_segment(decode_time, sample_duration, segment.data.as_slice());
        Ok(VideoSegment {
            segment_id: segment.segment_id,
            timestamp_us: segment.timestamp_us,
            duration_us: segment.duration_us,
            data,
            is_keyframe: segment.is_keyframe,
            format: SegmentFormat::FMP4,
            source_type: segment.source_type,
            receive_time_us: segment.receive_time_us,
            forward_time_us: segment.forward_time_us,
        })
    }

    fn write_moof_box(&self, buffer: &mut Vec<u8>, decode_time: u64, sample_duration: u32)
        ensures
            final(buffer)@ == old(buffer)@ + moof_box(
                self.sequence_number,
                decode_time,
                sample_duration,
            ),
    {
        let mut moof: Vec<u8> = Vec::new();
        let mut mfhd: Vec<u8> = Vec::new();
        put_full_box_header(&mut mfhd, 0, 0);
        put_u32(&mut mfhd, self.sequence_number);
        write_box(&mut moof, BoxType::Mfhd, mfhd.as_slice());
        self.write_traf_box(&mut moof, decode_time, sample_duration);
        assert(moof@ =~= mp4_box(
            BoxType::Mfhd.code(),
            full_box_header(0, 0) + be32(self.sequence_number as int),
        ) + traf_box(decode_time, sample_duration));
        write_box(buffer, BoxType::Moof, moof.as_slice());
    }

    fn write_traf_box(&self, buffer: &mut Vec<u8>, decode_time: u64, sample_duration: u32)
        ensures
            final(buffer)@ == old(buffer)@ + traf_box(decode_time, sample_duration),
    {
        let mut traf: Vec<u8> = Vec::new();
        let mut tfhd: Vec<u8> = Vec::new();
        put_full_box_header(&mut tfhd, 0, 0x020000);
        put_u32(&mut tfhd, 1);
        write_box(&mut traf, BoxType::Tfhd, tfhd.as_slice());
        let mut tfdt: Vec<u8> = Vec::new();
        put_full_box_header(&mut tfdt, 1, 0);
        put_u64(&mut tfdt, decode_time);
        write_box(&mut traf, BoxType::Tfdt, tfdt.as_slice());
        let mut trun: Vec<u8> = Vec::new();
        put_full_box_header(&mut trun, 0, 0x000301);
        put_u32(&mut trun, 1);
        put_u32(&mut trun, TRUN_DATA_OFFSET);
        put_u32(&mut trun, sample_duration);
        write_box(&mut traf, BoxType::Trun, trun.as_slice());
        assert(traf_box(decode_time, sample_duration) =~= mp4_box(BoxType::Traf.code(), traf@));
        write_box(buffer, BoxType::Traf, traf.as_slice());
    }
}

/// `v` capped at `u32::MAX`.
pub open spec fn clamp_u32(v: int) -> u32 {
    if v > u32::MAX {
        u32::MAX
    } else {
        v as u32
    }
}

/// Media-clock ticks for `us` microseconds at `timescale` ticks per second,
/// saturating at `u64::MAX`.
pub fn ticks_saturating(us: u64, timescale: u32) -> (t: u64)
    ensures
        t == ticks_for_us(us, timescale),
{
    assert((us as u128) * (timescale as u128) <= u64::MAX * u32::MAX) by (nonlinear_arith);
    let wide: u128 = (us as u128) * (timescale as u128) / 1_000_000;
    if wide > u64::MAX as u128 {
        u64::MAX
    } else {
        wide as u64
    }
}

/// Law: a box's size field gives back the box's length, and its type field
/// the box's code, whenever the length fits in 32 bits.
pub proof fn lemma_box_header_round_trip(code: u32, payload: Seq<u8>)
    requires
        payload.len() + 8 <= u32::MAX,
    ensures
        be32_value(mp4_box(code, payload).take(4)) == mp4_box(code, payload).len(),
        be32_value(mp4_box(code, payload).subrange(4, 8)) == code,
        mp4_box(code, payload).skip(8) == payload,
{
    let b = mp4_box(code, payload);
    lemma_be32_round_trip((8 + payload.len()) as u32);
    lemma_be32_round_trip(code);
    assert(b.take(4) =~= be32(8 + payload.len() as int));
    assert(b.subrange(4, 8) =~= be32(code as int));
    assert(b.skip(8) =~= payload);
}

/// Law: every initialization segment opens with an `ftyp` box (its type
/// field sits at bytes 4..8) and is longer than a hundred bytes.
pub proof fn lemma_init_segment_starts_with_ftyp(c: FMP4ConverterConfig)
    ensures
        init_segment(c).subrange(4, 8) == be32(BoxType::Ftyp.code() as int),
        init_segment(c).len() > 100,
{
    lemma_ftyp_type_field();
    lemma_prefix_window(ftyp_box(), moov_box(c));
    lemma_moov_len(c);
}

proof fn lemma_prefix_window(a: Seq<u8>, b: Seq<u8>)
    requires
        a.len() >= 8,
    ensures
        (a + b).subrange(4, 8) == a.subrange(4, 8),
{
    assert((a + b).subrange(4, 8) =~= a.subrange(4, 8));
}

proof fn lemma_ftyp_type_field()
    ensures
        ftyp_box().len() == 28,
        ftyp_box().subrange(4, 8) == be32(BoxType::Ftyp.code() as int),
{
    assert(ftyp_box().subrange(4, 8) =~= be32(BoxType::Ftyp.code() as int));
}

proof fn lemma_mvhd_len(timescale: u32)
    ensures
        mvhd_box(timescale).len() == 120,
{
    assert(unity_matrix().len() == 36);
}

proof fn lemma_moov_len(c: FMP4ConverterConfig)
    ensures
        moov_box(c).len() >= 128,
{
    lemma_mvhd_len(c.timescale);
    let p = mvhd_box(c.timescale) + trak_box(c) + mvex_box();
    assert(p.len() >= mvhd_box(c.timescale).len());
    assert(moov_box(c) == mp4_box(BoxType::Moov.code(), p));
}

/// Law: a media segment ends with its sample data, as the payload of the
/// closing `mdat` box.
pub proof fn lemma_media_segment_carries_data(
    sequence_number: u32,
    decode_time: u64,
    sample_duration: u32,
    data: Seq<u8>,
)
    ensures
        ({
            let s = media_segment(sequence_number, decode_time, sample_duration, data);
            s.subrange(s.len() - data.len(), s.len() as int) == data
        }),
{
    let s = media_segment(sequence_number, decode_time, sample_duration, data);
    assert(s.subrange(s.len() - data.len(), s.len() as int) =~= data);
}

/// Law: the `trun` data offset is the size of the `moof` box plus the
/// `mdat` header, so it points at the first sample byte of the segment.
pub proof fn lemma_trun_offset_points_at_data(
    sequence_number: u32,
    decode_time: u64,
    sample_duration: u32,
    data: Seq<u8>,
)
    ensures
        moof_box(sequence_number, decode_time, sample_duration).len() + 8 == TRUN_DATA_OFFSET,
        ({
            let s = media_segment(sequence_number, decode_time, sample_duration, data);
            s.subrange(TRUN_DATA_OFFSET as int, TRUN_DATA_OFFSET + data.len()) == data
        }),
{
    let m = moof_box(sequence_number, decode_time, sample_duration);
    assert(traf_box(decode_time, sample_duration).len() == 68);
    assert(m.len() == 92);
    let s = media_segment(sequence_number, decode_time, sample_duration, data);
    assert(s.subrange(TRUN_DATA_OFFSET as int, TRUN_DATA_OFFSET + data.len()) =~= data);
}

/// Message of the error for a segment that is not raw H.264.
fn only_h264_message() -> (s: String)
    ensures
        s@ == "Only H264Raw format can be converted to fMP4"@,
{
    "Only H264Raw format can be converted to fMP4".to_owned()
}

} // verus!
