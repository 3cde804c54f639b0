//! How each video format is offered over WebRTC, and which formats a browser's codec names.
use vstd::prelude::*;
use vstd::string::StringSliceAdditionalSpecFns;

use crate::stream::{SupportedVideoFormats, VideoFormat, spec_all_video_formats, spec_video_format_bits};
use vstd::utf8::{encode_utf8, is_ascii_chars, is_ascii_chars_encode_utf8};

verus! {

/// The MIME type of H.264 video in WebRTC.
pub const MIME_TYPE_H264: &'static str = "video/H264";
/// The MIME type of H.265 video in WebRTC.
pub const MIME_TYPE_HEVC: &'static str = "video/H265";
/// The MIME type of AV1 video in WebRTC.
pub const MIME_TYPE_AV1: &'static str = "video/AV1";

/// A kind of RTCP feedback a codec accepts.
#[derive(Debug, Clone)]
pub struct RtcpFeedback {
    pub typ: String,
    pub parameter: String,
}

/// How a codec is offered: its MIME type, clock rate, channels, SDP format parameters, RTCP
/// feedback and RTP payload type.
#[derive(Debug, Clone)]
pub struct CodecParameters {
    pub mime_type: String,
    pub clock_rate: u32,
    pub channels: u16,
    pub sdp_fmtp_line: String,
    pub rtcp_feedback: Vec<RtcpFeedback>,
    pub payload_type: u8,
}

/// The MIME type a format is offered under.
pub open spec fn spec_codec_mime(f: VideoFormat) -> Seq<char> {
    match f {
        VideoFormat::H264 | VideoFormat::H264High8_444 => MIME_TYPE_H264@,
        VideoFormat::H265 | VideoFormat::H265Main10 | VideoFormat::H265Rext8_444
        | VideoFormat::H265Rext10_444 => MIME_TYPE_HEVC@,
        _ => MIME_TYPE_AV1@,
    }
}

/// The SDP format parameters a format is offered with.
pub open spec fn spec_codec_fmtp(f: VideoFormat) -> Seq<char> {
    match f {
        VideoFormat::H264 => "level-asymmetry-allowed=1;packetization-mode=1;profile-level-id=42e01f"@,
        VideoFormat::H264High8_444 => "level-asymmetry-allowed=1;packetization-mode=1;profile-level-id=640032"@,
        VideoFormat::H265 => ""@,
        VideoFormat::H265Main10 => "profile-id=2;tier-flag=0;level-id=93;tx-mode=SRST"@,
        VideoFormat::H265Rext8_444 => "profile-id=4;tier-flag=0;level-id=120;tx-mode=SRST"@,
        VideoFormat::H265Rext10_444 => "profile-id=5;tier-flag=0;level-id=93;tx-mode=SRST"@,
        VideoFormat::Av1Main8 | VideoFormat::Av1Main10 => "profile=0"@,
        VideoFormat::Av1High8_444 | VideoFormat::Av1High10_444 => "profile=1"@,
    }
}

/// The RTP payload type of a format: 96 to 103 in the order of the formats, both AV1 4:2:0
/// profiles sharing one and both AV1 4:4:4 profiles another.
pub open spec fn spec_codec_payload_type(f: VideoFormat) -> u8 {
    match f {
        VideoFormat::H264 => 96,
        VideoFormat::H264High8_444 => 97,
        VideoFormat::H265 => 98,
        VideoFormat::H265Main10 => 99,
        VideoFormat::H265Rext8_444 => 100,
        VideoFormat::H265Rext10_444 => 101,
        VideoFormat::Av1Main8 | VideoFormat::Av1Main10 => 102,
        VideoFormat::Av1High8_444 | VideoFormat::Av1High10_444 => 103,
    }
}

/// The feedback every video codec accepts: NACK, NACK with picture loss indication, and
/// receiver-estimated maximum bitrate.
pub open spec fn spec_video_feedback() -> Seq<(Seq<char>, Seq<char>)> {
    seq![("nack"@, ""@), ("nack"@, "pli"@), ("goog-remb"@, ""@)]
}

/// Feedback entries by their characters.
pub open spec fn feedback_view(v: Seq<RtcpFeedback>) -> Seq<(Seq<char>, Seq<char>)> {
    v.map_values(|f: RtcpFeedback| (f.typ@, f.parameter@))
}

fn push_feedback(v: &mut Vec<RtcpFeedback>, typ: &str, parameter: &str)
    ensures
        feedback_view(final(v)@) == feedback_view(old(v)@).push((typ@, parameter@)),
{
    let ghost before = v@;
    let f = RtcpFeedback { typ: typ.to_owned(), parameter: parameter.to_owned() };
    let ghost g = f;
    v.push(f);
    assert(v@ =~= before.push(g));
    assert(feedback_view(v@) =~= feedback_view(before).push((typ@, parameter@)));
}

fn video_feedback() -> (res: Vec<RtcpFeedback>)
    ensures
        feedback_view(res@) == spec_video_feedback(),
{
    let mut v: Vec<RtcpFeedback> = Vec::new();
    assert(feedback_view(v@) =~= Seq::<(Seq<char>, Seq<char>)>::empty());
    push_feedback(&mut v, "nack", "");
    push_feedback(&mut v, "nack", "pli");
    push_feedback(&mut v, "goog-remb", "");
    assert(feedback_view(v@) =~= spec_video_feedback());
    v
}

/// `c` is how the format `f` is offered.
pub open spec fn is_video_codec(c: CodecParameters, f: VideoFormat) -> bool {
    &&& c.mime_type@ == spec_codec_mime(f)
    &&& c.clock_rate == 90000
    &&& c.channels == 0
    &&& c.sdp_fmtp_line@ == spec_codec_fmtp(f)
    &&& feedback_view(c.rtcp_feedback@) == spec_video_feedback()
    &&& c.payload_type == spec_codec_payload_type(f)
}

/// How each video format is offered: the H.264 baseline (`42e01f`) and high 4:4:4
/// (`640032`) profiles, HEVC Main without parameters, Main10 as profile 2, RExt 4:4:4 8-bit
/// as profile 4 and 10-bit as profile 5, AV1 4:2:0 as profile 0 and 4:4:4 as profile 1, each
/// with its own payload type from 96 on, always at a 90 kHz clock.
pub proof fn law_video_codec_profiles(c: CodecParameters, f: VideoFormat)
    requires
        is_video_codec(c, f),
    ensures
        c.clock_rate == 90000,
        f == VideoFormat::H264 ==> c.mime_type@ == "video/H264"@ && c.payload_type == 96
            && c.sdp_fmtp_line@ == "level-asymmetry-allowed=1;packetization-mode=1;profile-level-id=42e01f"@,
        f == VideoFormat::H264High8_444 ==> c.mime_type@ == "video/H264"@ && c.payload_type == 97
            && c.sdp_fmtp_line@ == "level-asymmetry-allowed=1;packetization-mode=1;profile-level-id=640032"@,
        f == VideoFormat::H265 ==> c.mime_type@ == "video/H265"@ && c.payload_type == 98
            && c.sdp_fmtp_line@ == ""@,
        f == VideoFormat::H265Main10 ==> c.mime_type@ == "video/H265"@ && c.payload_type == 99
            && c.sdp_fmtp_line@ == "profile-id=2;tier-flag=0;level-id=93;tx-mode=SRST"@,
        f == VideoFormat::H265Rext8_444 ==> c.mime_type@ == "video/H265"@ && c.payload_type == 100
            && c.sdp_fmtp_line@ == "profile-id=4;tier-flag=0;level-id=120;tx-mode=SRST"@,
        f == VideoFormat::H265Rext10_444 ==> c.mime_type@ == "video/H265"@ && c.payload_type == 101
            && c.sdp_fmtp_line@ == "profile-id=5;tier-flag=0;level-id=93;tx-mode=SRST"@,
        (f == VideoFormat::Av1Main8 || f == VideoFormat::Av1Main10) ==> c.mime_type@ == "video/AV1"@
            && c.payload_type == 102 && c.sdp_fmtp_line@ == "profile=0"@,
        (f == VideoFormat::Av1High8_444 || f == VideoFormat::Av1High10_444) ==> c.mime_type@
            == "video/AV1"@ && c.payload_type == 103 && c.sdp_fmtp_line@ == "profile=1"@,
{
}

/// How a video format is offered over WebRTC: at a 90 kHz clock, without channels, with the
/// format's MIME type, format parameters and payload type and the usual video feedback.
pub fn video_format_to_codec(format: VideoFormat) -> (res: Option<CodecParameters>)
    ensures
        res matches Some(c) && is_video_codec(c, format),
{
    let (mime, fmtp, payload_type): (&str, &str, u8) = match format {
        VideoFormat::H264 => (
            MIME_TYPE_H264,
            "level-asymmetry-allowed=1;packetization-mode=1;profile-level-id=42e01f",
            96,
        ),
        VideoFormat::H264High8_444 => (
            MIME_TYPE_H264,
            "level-asymmetry-allowed=1;packetization-mode=1;profile-level-id=640032",
            97,
        ),
        VideoFormat::H265 => (MIME_TYPE_HEVC, "", 98),
        VideoFormat::H265Main10 => (MIME_TYPE_HEVC, "profile-id=2;tier-flag=0;level-id=93;tx-mode=SRST", 99),
        VideoFormat::H265Rext8_444 => (MIME_TYPE_HEVC, "profile-id=4;tier-flag=0;level-id=120;tx-mode=SRST", 100),
        VideoFormat::H265Rext10_444 => (MIME_TYPE_HEVC, "profile-id=5;tier-flag=0;level-id=93;tx-mode=SRST", 101),
        VideoFormat::Av1Main8 | VideoFormat::Av1Main10 => (MIME_TYPE_AV1, "profile=0", 102),
        VideoFormat::Av1High8_444 | VideoFormat::Av1High10_444 => (MIME_TYPE_AV1, "profile=1", 103),
    };
    Some(
        CodecParameters {
            mime_type: mime.to_owned(),
            clock_rate: 90000,
            channels: 0,
            sdp_fmtp_line: fmtp.to_owned(),
            rtcp_feedback: video_feedback(),
            payload_type,
        },
    )
}

/// An ASCII letter in lower case; other bytes unchanged.
pub open spec fn ascii_lower(b: u8) -> u8 {
    if 65 <= b <= 90 {
        (b + 32) as u8
    } else {
        b
    }
}

/// The two texts are equal but for the case of ASCII letters.
pub open spec fn eq_ignore_ascii_case(a: Seq<u8>, b: Seq<u8>) -> bool {
    a.len() == b.len() && forall|i: int| 0 <= i < a.len() ==> ascii_lower(#[trigger] a[i]) == ascii_lower(b[i])
}

/// `str::eq_ignore_ascii_case`.
pub fn str_eq_ignore_ascii_case(a: &str, b: &str) -> (res: bool)
    ensures
        res == eq_ignore_ascii_case(a.spec_bytes(), b.spec_bytes()),
{
    let x = a.as_bytes();
    let y = b.as_bytes();
    if x.len() != y.len() {
        return false;
    }
    let mut i: usize = 0;
    while i < x.len()
        invariant
            x@ == a.spec_bytes(),
            y@ == b.spec_bytes(),
            x@.len() == y@.len(),
            i <= x@.len(),
            forall|j: int| 0 <= j < i ==> ascii_lower(#[trigger] x@[j]) == ascii_lower(y@[j]),
        decreases x@.len() - i,
    {
        let p = if 65 <= x[i] && x[i] <= 90 { x[i] + 32 } else { x[i] };
        let q = if 65 <= y[i] && y[i] <= 90 { y[i] + 32 } else { y[i] };
        assert(p == ascii_lower(x@[i as int]) && q == ascii_lower(y@[i as int]));
        if p != q {
            return false;
        }
        i = i + 1;
    }
    true
}

/// The formats a MIME type stands for.
pub open spec fn spec_formats_from_mime(m: Seq<u8>) -> u32 {
    if eq_ignore_ascii_case(m, MIME_TYPE_H264.spec_bytes()) {
        SupportedVideoFormats::MASK_H264
    } else if eq_ignore_ascii_case(m, MIME_TYPE_AV1.spec_bytes()) {
        SupportedVideoFormats::MASK_AV1
    } else if eq_ignore_ascii_case(m, MIME_TYPE_HEVC.spec_bytes()) {
        SupportedVideoFormats::MASK_H265
    } else {
        0u32
    }
}

/// The formats a browser's codec stands for: every H.264, AV1 or H.265 format for the
/// matching MIME type, compared without regard to ASCII case; none for another.
pub fn supported_formats_from_mime(mime_type: &str) -> (res: SupportedVideoFormats)
    ensures
        res.bits == spec_formats_from_mime(mime_type.spec_bytes()),
{
    if str_eq_ignore_ascii_case(mime_type, MIME_TYPE_H264) {
        return SupportedVideoFormats { bits: SupportedVideoFormats::MASK_H264 };
    } else if str_eq_ignore_ascii_case(mime_type, MIME_TYPE_AV1) {
        return SupportedVideoFormats { bits: SupportedVideoFormats::MASK_AV1 };
    } else if str_eq_ignore_ascii_case(mime_type, MIME_TYPE_HEVC) {
        return SupportedVideoFormats { bits: SupportedVideoFormats::MASK_H265 };
    }
    SupportedVideoFormats::empty()
}

/// The bytes of `buf` in `start..end`, cut at the end of `buf`.
pub fn trim_bytes_to_range(buf: Vec<u8>, start: usize, end: usize) -> (res: Vec<u8>)
    requires
        start <= buf@.len(),
        start <= end,
    ensures
        res@ == buf@.subrange(start as int, if end <= buf@.len() { end as int } else { buf@.len() as int }),
{
    let stop = if end <= buf.len() { end } else { buf.len() };
    crate::text::copy_range(buf.as_slice(), start, stop)
}

/// The MIME type a format is offered under stands, read back, for a set of formats that
/// holds the format.
pub proof fn law_codec_mime_covers_format(f: VideoFormat)
    ensures
        spec_formats_from_mime(encode_utf8(spec_codec_mime(f))) & spec_video_format_bits(f)
            == spec_video_format_bits(f),
{
    reveal_strlit("video/H264");
    reveal_strlit("video/H265");
    reveal_strlit("video/AV1");
    let h264 = "video/H264"@;
    let hevc = "video/H265"@;
    let av1 = "video/AV1"@;
    assert(MIME_TYPE_H264@ == h264);
    assert(MIME_TYPE_HEVC@ == hevc);
    assert(MIME_TYPE_AV1@ == av1);
    assert(is_ascii_chars(h264));
    assert(is_ascii_chars(hevc));
    assert(is_ascii_chars(av1));
    is_ascii_chars_encode_utf8(h264);
    is_ascii_chars_encode_utf8(hevc);
    is_ascii_chars_encode_utf8(av1);
    let bh = encode_utf8(h264);
    let bv = encode_utf8(hevc);
    let ba = encode_utf8(av1);
    assert(eq_ignore_ascii_case(bh, bh));
    assert(eq_ignore_ascii_case(bv, bv));
    assert(eq_ignore_ascii_case(ba, ba));
    assert(bv[9] == 53u8 && bh[9] == 52u8);
    assert(!eq_ignore_ascii_case(bv, bh));
    assert(!eq_ignore_ascii_case(bv, ba));
    assert(!eq_ignore_ascii_case(ba, bh));
    let b = spec_video_format_bits(f);
    match f {
        VideoFormat::H264 | VideoFormat::H264High8_444 => {
            assert(spec_formats_from_mime(bh) == 0xfu32);
            assert(0xfu32 & b == b) by (bit_vector)
                requires
                    b == 0x1u32 || b == 0x4u32,
            ;
        },
        VideoFormat::H265 | VideoFormat::H265Main10 | VideoFormat::H265Rext8_444
        | VideoFormat::H265Rext10_444 => {
            assert(spec_formats_from_mime(bv) == 0xf00u32);
            assert(0xf00u32 & b == b) by (bit_vector)
                requires
                    b == 0x100u32 || b == 0x200u32 || b == 0x400u32 || b == 0x800u32,
            ;
        },
        _ => {
            assert(spec_formats_from_mime(ba) == 0xf000u32);
            assert(0xf000u32 & b == b) by (bit_vector)
                requires
                    b == 0x1000u32 || b == 0x2000u32 || b == 0x4000u32 || b == 0x8000u32,
            ;
        },
    }
}

/// The MIME type of Opus audio in WebRTC.
pub const MIME_TYPE_OPUS: &'static str = "audio/opus";

/// How Opus audio is offered: stereo at 48 kHz, with frames of at least 10 ms and in-band
/// forward error correction, without RTCP feedback, as payload type 111.
pub fn opus_codec() -> (res: CodecParameters)
    ensures
        res.mime_type@ == MIME_TYPE_OPUS@,
        res.clock_rate == 48000,
        res.channels == 2,
        res.sdp_fmtp_line@ == "minptime=10;useinbandfec=1"@,
        res.rtcp_feedback@.len() == 0,
        res.payload_type == 111,
{
    CodecParameters {
        mime_type: MIME_TYPE_OPUS.to_owned(),
        clock_rate: 48000,
        channels: 2,
        sdp_fmtp_line: "minptime=10;useinbandfec=1".to_owned(),
        rtcp_feedback: Vec::new(),
        payload_type: 111,
    }
}

/// The formats of `formats` that the set `supported` holds, in their order.
pub open spec fn formats_in(formats: Seq<VideoFormat>, supported: u32) -> Seq<VideoFormat>
    decreases formats.len(),
{
    if formats.len() == 0 {
        Seq::empty()
    } else {
        let rest = formats_in(formats.drop_last(), supported);
        let f = formats.last();
        if supported & spec_video_format_bits(f) == spec_video_format_bits(f) {
            rest.push(f)
        } else {
            rest
        }
    }
}

/// The video codecs to offer for the formats a stream supports: one for each supported format,
/// by ascending bit.
pub fn video_codecs_to_register(supported: SupportedVideoFormats) -> (res: Vec<CodecParameters>)
    ensures
        res@.len() == formats_in(spec_all_video_formats(), supported.bits).len(),
        forall|i: int|
            0 <= i < res@.len() ==> is_video_codec(
                #[trigger] res@[i],
                formats_in(spec_all_video_formats(), supported.bits)[i],
            ),
{
    let all = VideoFormat::all();
    let mut out: Vec<CodecParameters> = Vec::new();
    let mut i: usize = 0;
    while i < all.len()
        invariant
            all@ == spec_all_video_formats(),
            i <= all@.len(),
            out@.len() == formats_in(all@.take(i as int), supported.bits).len(),
            forall|j: int|
                0 <= j < out@.len() ==> is_video_codec(
                    #[trigger] out@[j],
                    formats_in(all@.take(i as int), supported.bits)[j],
                ),
        decreases all@.len() - i,
    {
        let format = all[i];
        assert(all@.take(i + 1).drop_last() =~= all@.take(i as int));
        assert(all@.take(i + 1).last() == format);
        if format.contained_in(supported) {
            match video_format_to_codec(format) {
                Some(codec) => out.push(codec),
                None => {},
            }
        }
        i = i + 1;
    }
    assert(all@.take(all@.len() as int) =~= all@);
    out
}

} // verus!
