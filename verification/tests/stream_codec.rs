use moonlight_web::codec::{
    opus_codec, video_codecs_to_register, MIME_TYPE_OPUS, supported_formats_from_mime, trim_bytes_to_range, video_format_to_codec, MIME_TYPE_AV1, MIME_TYPE_H264,
    MIME_TYPE_HEVC,
};
use moonlight_web::h264::{NALHeader, NALUnitType};
use moonlight_web::stream::{
    AudioConfig, ColorRange, Colorspace, ConnectionStatus, DecodeResult, EncryptionFlags, KeyAction,
    MouseButton, MouseButtonAction, ServerCodeModeSupport, Stage, StreamingConfig, SupportedVideoFormats,
    TouchEventType, VideoFormat,
};

#[test]
fn encryption_flags_raw_values() {
    assert_eq!(EncryptionFlags::all().raw(), 3);
    assert_eq!(EncryptionFlags::video().raw(), 2);
    assert_eq!(EncryptionFlags::audio().raw(), 1);
    assert_eq!(EncryptionFlags::none().raw(), 0);
}

#[test]
fn stream_enums_raw_values() {
    assert_eq!(StreamingConfig::Auto.raw(), 2);
    assert_eq!(Colorspace::Rec2020.raw(), 2);
    assert_eq!(ColorRange::Full.raw(), 1);
    assert_eq!(Stage::InputStreamStart.raw(), 11);
    assert_eq!(Stage::from_raw(5), Some(Stage::ControlStreamInit));
    assert_eq!(Stage::from_raw(13), None);
    assert_eq!(TouchEventType::CancelAll.raw(), 7);
    assert_eq!(KeyAction::Down.raw(), 3);
    assert_eq!(MouseButtonAction::Release.raw(), 8);
    assert_eq!(MouseButton::X2.raw(), 5);
    assert_eq!(DecodeResult::NeedIdr.raw(), -1);
    assert_eq!(ConnectionStatus::from_raw(1), Some(ConnectionStatus::Poor));
    assert_eq!(ConnectionStatus::from_raw(2), None);
}

#[test]
fn audio_configurations() {
    assert_eq!(AudioConfig::new(2, 0x3), AudioConfig::stereo());
    assert_eq!(AudioConfig::new(6, 0x3f), AudioConfig::surround_51());
    assert_eq!(AudioConfig::new(8, 0x63f), AudioConfig::surround_71());
    assert_eq!(AudioConfig::stereo().0, 0x0003_02ca);
}

#[test]
fn supported_video_formats() {
    assert_eq!(SupportedVideoFormats::all().raw(), 0xff05);
    assert_eq!(SupportedVideoFormats::from_bits(0x10), None);
    assert!(VideoFormat::H265Main10.contained_in(SupportedVideoFormats::all()));
    assert!(!VideoFormat::H265Main10.contained_in(SupportedVideoFormats { bits: SupportedVideoFormats::MASK_H264 }));
    assert_eq!(VideoFormat::all().len(), 10);
    for f in VideoFormat::all() {
        assert_eq!(VideoFormat::from_bits(f.bits()), Some(f));
    }
}

#[test]
fn server_codec_mode_support_bits() {
    assert!(ServerCodeModeSupport::from_bits(0x7f0301).is_some());
    assert!(ServerCodeModeSupport::from_bits(0x2).is_none());
    let s = ServerCodeModeSupport::from_bits(0x201).unwrap();
    assert!(s.contains(ServerCodeModeSupport::HEVC_MAIN10));
    assert!(!s.contains(ServerCodeModeSupport::AV1_MAIN10));
}

#[test]
fn codecs_of_formats() {
    let c = video_format_to_codec(VideoFormat::H264).unwrap();
    assert_eq!(c.mime_type, "video/H264");
    assert_eq!(c.payload_type, 96);
    assert_eq!(c.clock_rate, 90000);
    assert_eq!(c.sdp_fmtp_line, "level-asymmetry-allowed=1;packetization-mode=1;profile-level-id=42e01f");
    assert_eq!(c.rtcp_feedback.len(), 3);
    assert_eq!(c.rtcp_feedback[1].parameter, "pli");
    let c = video_format_to_codec(VideoFormat::Av1High10_444).unwrap();
    assert_eq!(c.mime_type, "video/AV1");
    assert_eq!(c.payload_type, 103);
    assert_eq!(c.sdp_fmtp_line, "profile=1");
    assert_eq!(video_format_to_codec(VideoFormat::H265).unwrap().sdp_fmtp_line, "");
}

#[test]
fn formats_of_mime_types() {
    assert_eq!(supported_formats_from_mime("VIDEO/h264").bits, SupportedVideoFormats::MASK_H264);
    assert_eq!(supported_formats_from_mime(MIME_TYPE_AV1).bits, SupportedVideoFormats::MASK_AV1);
    assert_eq!(supported_formats_from_mime(MIME_TYPE_HEVC).bits, SupportedVideoFormats::MASK_H265);
    assert_eq!(supported_formats_from_mime("video/VP8").bits, 0);
    for f in VideoFormat::all() {
        let c = video_format_to_codec(f).unwrap();
        assert!(f.contained_in(supported_formats_from_mime(&c.mime_type)));
    }
    assert_eq!(MIME_TYPE_H264, "video/H264");
}

#[test]
fn trimming_bytes() {
    assert_eq!(trim_bytes_to_range(vec![1, 2, 3, 4, 5], 1, 3), vec![2, 3]);
    assert_eq!(trim_bytes_to_range(vec![1, 2, 3], 1, 9), vec![2, 3]);
}

#[test]
fn nal_headers() {
    let h = NALHeader::parse([0x67]);
    assert!(!h.forbidden_zero_bit);
    assert_eq!(h.nal_ref_idc, 3);
    assert_eq!(h.nal_unit_type, NALUnitType::Sps);
    let h = NALHeader::parse([0x86]);
    assert!(h.forbidden_zero_bit);
    assert_eq!(h.nal_unit_type, NALUnitType::Sei);
    assert_eq!(NALUnitType::from_u8(32), None);
}

#[test]
fn codecs_registered_for_supported_formats() {
    let supported = SupportedVideoFormats::from_bits(0x0101).unwrap();
    let codecs = video_codecs_to_register(supported);
    assert_eq!(codecs.len(), 2);
    assert_eq!(codecs[0].mime_type, MIME_TYPE_H264);
    assert_eq!(codecs[0].payload_type, 96);
    assert_eq!(codecs[1].mime_type, MIME_TYPE_HEVC);
    assert_eq!(codecs[1].payload_type, 98);
    assert_eq!(video_codecs_to_register(SupportedVideoFormats::all()).len(), 10);
    assert!(video_codecs_to_register(SupportedVideoFormats::empty()).is_empty());
}

#[test]
fn opus_is_offered_in_stereo() {
    let opus = opus_codec();
    assert_eq!(opus.mime_type, MIME_TYPE_OPUS);
    assert_eq!(opus.clock_rate, 48000);
    assert_eq!(opus.channels, 2);
    assert_eq!(opus.sdp_fmtp_line, "minptime=10;useinbandfec=1");
    assert!(opus.rtcp_feedback.is_empty());
    assert_eq!(opus.payload_type, 111);
}
