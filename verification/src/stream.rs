//! The numbers that describe a stream to the streaming protocol: codecs, encryption, audio
//! layout, connection stages and input events.
use vstd::prelude::*;

use crate::network::ServerVersion;

verus! {

/// The codecs a host can encode, as reported in its `ServerCodecModeSupport`.
#[derive(Debug, Clone, Copy, PartialEq, Eq, Structural)]
pub struct ServerCodeModeSupport {
    pub bits: u32,
}

impl ServerCodeModeSupport {
    pub const H264: u32 = 0x1;
    pub const HEVC: u32 = 0x100;
    pub const HEVC_MAIN10: u32 = 0x200;
    pub const AV1_MAIN8: u32 = 0x10000;
    pub const AV1_MAIN10: u32 = 0x20000;
    pub const H264_HIGH8_444: u32 = 0x40000;
    pub const HEVC_REXT8_444: u32 = 0x80000;
    pub const HEVC_REXT10_444: u32 = 0x100000;
    pub const AV1_HIGH8_444: u32 = 0x200000;
    pub const AV1_HIGH10_444: u32 = 0x400000;
    /// Every known codec.
    pub const ALL: u32 = 0x7f0301;

    /// The set of codecs in `bits`; `None` when a bit names no known codec.
    pub fn from_bits(bits: u32) -> (res: Option<Self>)
        ensures
            res is Some <==> bits & !Self::ALL == 0,
            res matches Some(s) ==> s.bits == bits,
    {
        if bits & !Self::ALL == 0 {
            Some(ServerCodeModeSupport { bits })
        } else {
            None
        }
    }

    /// Every codec of `flag` is supported.
    pub fn contains(&self, flag: u32) -> (res: bool)
        ensures
            res == (self.bits & flag == flag),
    {
        self.bits & flag == flag
    }
}

/// The video formats a client can decode, one bit each.
#[derive(Debug, Clone, Copy, PartialEq, Eq, Structural)]
pub struct SupportedVideoFormats {
    pub bits: u32,
}

impl SupportedVideoFormats {
    pub const H264: u32 = 0x1;
    pub const H264_HIGH8_444: u32 = 0x4;
    pub const H265: u32 = 0x100;
    pub const H265_MAIN10: u32 = 0x200;
    pub const H265_REXT8_444: u32 = 0x400;
    pub const H265_REXT10_444: u32 = 0x800;
    pub const AV1_MAIN8: u32 = 0x1000;
    pub const AV1_MAIN10: u32 = 0x2000;
    pub const AV1_HIGH8_444: u32 = 0x4000;
    pub const AV1_HIGH10_444: u32 = 0x8000;
    pub const MASK_H264: u32 = 0xf;
    pub const MASK_H265: u32 = 0xf00;
    pub const MASK_AV1: u32 = 0xf000;
    pub const MASK_10BIT: u32 = 0xaa00;
    pub const MASK_YUV444: u32 = 0xcc04;
    /// Every bit a format or a mask names.
    pub const KNOWN: u32 = 0xff0f;

    /// Every format.
    pub fn all() -> (res: Self)
        ensures
            res.bits == 0xff05,
    {
        SupportedVideoFormats { bits: 0xff05 }
    }

    /// No format.
    pub fn empty() -> (res: Self)
        ensures
            res.bits == 0,
    {
        SupportedVideoFormats { bits: 0 }
    }

    /// The formats in `bits`; `None` when a bit names no format or mask.
    pub fn from_bits(bits: u32) -> (res: Option<Self>)
        ensures
            res is Some <==> bits & !Self::KNOWN == 0,
            res matches Some(s) ==> s.bits == bits,
    {
        if bits & !Self::KNOWN == 0 {
            Some(SupportedVideoFormats { bits })
        } else {
            None
        }
    }

    /// Every format of `other` is in `self`.
    pub fn contains(&self, other: u32) -> (res: bool)
        ensures
            res == (self.bits & other == other),
    {
        self.bits & other == other
    }

    /// Some format of `other` is in `self`.
    pub fn intersects(&self, other: u32) -> (res: bool)
        ensures
            res == (self.bits & other != 0),
    {
        self.bits & other != 0
    }

    /// The formats as the protocol's number.
    pub fn raw(self) -> (res: i32)
        ensures
            res == self.bits as i32,
    {
        self.bits as i32
    }
}

/// A video format the stream can be in.
#[derive(Debug, Clone, Copy, PartialEq, Eq, Structural)]
pub enum VideoFormat {
    H264,
    H264High8_444,
    H265,
    H265Main10,
    H265Rext8_444,
    H265Rext10_444,
    Av1Main8,
    Av1Main10,
    Av1High8_444,
    Av1High10_444,
}

/// The protocol's bit for a video format.
pub open spec fn spec_video_format_bits(f: VideoFormat) -> u32 {
    match f {
        VideoFormat::H264 => 0x1,
        VideoFormat::H264High8_444 => 0x4,
        VideoFormat::H265 => 0x100,
        VideoFormat::H265Main10 => 0x200,
        VideoFormat::H265Rext8_444 => 0x400,
        VideoFormat::H265Rext10_444 => 0x800,
        VideoFormat::Av1Main8 => 0x1000,
        VideoFormat::Av1Main10 => 0x2000,
        VideoFormat::Av1High8_444 => 0x4000,
        VideoFormat::Av1High10_444 => 0x8000,
    }
}

/// Every format, by ascending bit.
pub open spec fn spec_all_video_formats() -> Seq<VideoFormat> {
    seq![
        VideoFormat::H264,
        VideoFormat::H264High8_444,
        VideoFormat::H265,
        VideoFormat::H265Main10,
        VideoFormat::H265Rext8_444,
        VideoFormat::H265Rext10_444,
        VideoFormat::Av1Main8,
        VideoFormat::Av1Main10,
        VideoFormat::Av1High8_444,
        VideoFormat::Av1High10_444,
    ]
}

impl VideoFormat {
    /// The protocol's bit for the format.
    pub fn bits(&self) -> (res: u32)
        ensures
            res == spec_video_format_bits(*self),
    {
        match self {
            VideoFormat::H264 => 0x1,
            VideoFormat::H264High8_444 => 0x4,
            VideoFormat::H265 => 0x100,
            VideoFormat::H265Main10 => 0x200,
            VideoFormat::H265Rext8_444 => 0x400,
            VideoFormat::H265Rext10_444 => 0x800,
            VideoFormat::Av1Main8 => 0x1000,
            VideoFormat::Av1Main10 => 0x2000,
            VideoFormat::Av1High8_444 => 0x4000,
            VideoFormat::Av1High10_444 => 0x8000,
        }
    }

    /// The format with the protocol's bit `bits`.
    pub fn from_bits(bits: u32) -> (res: Option<VideoFormat>)
        ensures
            res matches Some(f) ==> spec_video_format_bits(f) == bits,
            res is None ==> forall|f: VideoFormat| spec_video_format_bits(f) != bits,
    {
        match bits {
            0x1 => Some(VideoFormat::H264),
            0x4 => Some(VideoFormat::H264High8_444),
            0x100 => Some(VideoFormat::H265),
            0x200 => Some(VideoFormat::H265Main10),
            0x400 => Some(VideoFormat::H265Rext8_444),
            0x800 => Some(VideoFormat::H265Rext10_444),
            0x1000 => Some(VideoFormat::Av1Main8),
            0x2000 => Some(VideoFormat::Av1Main10),
            0x4000 => Some(VideoFormat::Av1High8_444),
            0x8000 => Some(VideoFormat::Av1High10_444),
            _ => None,
        }
    }

    /// Every format, by ascending bit.
    pub fn all() -> (res: Vec<VideoFormat>)
        ensures
            res@ == spec_all_video_formats(),
    {
        let v = vec![
            VideoFormat::H264,
            VideoFormat::H264High8_444,
            VideoFormat::H265,
            VideoFormat::H265Main10,
            VideoFormat::H265Rext8_444,
            VideoFormat::H265Rext10_444,
            VideoFormat::Av1Main8,
            VideoFormat::Av1Main10,
            VideoFormat::Av1High8_444,
            VideoFormat::Av1High10_444,
        ];
        v
    }

    /// The format is among `supported`.
    pub fn contained_in(&self, supported: SupportedVideoFormats) -> (res: bool)
        ensures
            res == (supported.bits & spec_video_format_bits(*self) == spec_video_format_bits(*self)),
    {
        let single = self.bits();
        match SupportedVideoFormats::from_bits(single) {
            None => {
                assert(single & !SupportedVideoFormats::KNOWN == 0) by (bit_vector)
                    requires
                        single == 0x1 || single == 0x4 || single == 0x100 || single == 0x200 || single
                            == 0x400 || single == 0x800 || single == 0x1000 || single == 0x2000
                            || single == 0x4000 || single == 0x8000,
                ;
                false
            },
            Some(f) => supported.contains(f.bits),
        }
    }
}

/// Which of the streams are encrypted.
#[derive(Debug, Clone, Copy, PartialEq, Eq, Structural)]
pub struct EncryptionFlags {
    pub audio: bool,
    pub video: bool,
}

impl EncryptionFlags {
    /// Audio and video encrypted.
    pub fn all() -> (res: Self)
        ensures
            res == (EncryptionFlags { audio: true, video: true }),
    {
        EncryptionFlags { audio: true, video: true }
    }

    /// Only video encrypted.
    pub fn video() -> (res: Self)
        ensures
            res == (EncryptionFlags { audio: false, video: true }),
    {
        EncryptionFlags { audio: false, video: true }
    }

    /// Only audio encrypted.
    pub fn audio() -> (res: Self)
        ensures
            res == (EncryptionFlags { audio: true, video: false }),
    {
        EncryptionFlags { audio: true, video: false }
    }

    /// Nothing encrypted.
    pub fn none() -> (res: Self)
        ensures
            res == (EncryptionFlags { audio: false, video: false }),
    {
        EncryptionFlags { audio: false, video: false }
    }

    /// The protocol's number: bit 0 for audio, bit 1 for video.
    pub fn raw(self) -> (res: i32)
        ensures
            res == (if self.audio { 1int } else { 0int }) + (if self.video { 2int } else { 0int }),
    {
        let mut flags: i32 = 0;
        if self.audio {
            flags = flags + 1;
        }
        if self.video {
            flags = flags + 2;
        }
        flags
    }
}

/// Whether the host is on the local network.
#[derive(Debug, Clone, Copy, PartialEq, Eq, Structural)]
pub enum StreamingConfig {
    Local,
    Remote,
    Auto,
}

impl StreamingConfig {
    /// The protocol's number.
    pub fn raw(self) -> (res: i32)
        ensures
            res == (match self {
                StreamingConfig::Local => 0i32,
                StreamingConfig::Remote => 1i32,
                StreamingConfig::Auto => 2i32,
            }),
    {
        match self {
            StreamingConfig::Local => 0,
            StreamingConfig::Remote => 1,
            StreamingConfig::Auto => 2,
        }
    }
}

/// The colorspace of the video.
#[derive(Debug, Clone, Copy, PartialEq, Eq, Structural)]
pub enum Colorspace {
    Rec601,
    Rec709,
    Rec2020,
}

impl Colorspace {
    /// The protocol's number.
    pub fn raw(self) -> (res: i32)
        ensures
            res == (match self {
                Colorspace::Rec601 => 0i32,
                Colorspace::Rec709 => 1i32,
                Colorspace::Rec2020 => 2i32,
            }),
    {
        match self {
            Colorspace::Rec601 => 0,
            Colorspace::Rec709 => 1,
            Colorspace::Rec2020 => 2,
        }
    }
}

/// The range of the video's color values.
#[derive(Debug, Clone, Copy, PartialEq, Eq, Structural)]
pub enum ColorRange {
    Limited,
    Full,
}

impl ColorRange {
    /// The protocol's number.
    pub fn raw(self) -> (res: i32)
        ensures
            res == (match self {
                ColorRange::Limited => 0i32,
                ColorRange::Full => 1i32,
            }),
    {
        match self {
            ColorRange::Limited => 0,
            ColorRange::Full => 1,
        }
    }
}

/// The stages of setting up a connection, in order.
#[derive(Debug, Clone, Copy, PartialEq, Eq, Structural)]
pub enum Stage {
    StageNone,
    PlatformInit,
    NameResolution,
    AudioStreamInit,
    RtspHandshake,
    ControlStreamInit,
    VideoStreamInit,
    InputStreamInit,
    ControlStreamStart,
    VideoStreamStart,
    AudioStreamStart,
    InputStreamStart,
    Max,
}

/// The protocol's number of a stage: its position in the order of stages.
pub open spec fn spec_stage_raw(stage: Stage) -> i32 {
    match stage {
        Stage::StageNone => 0,
        Stage::PlatformInit => 1,
        Stage::NameResolution => 2,
        Stage::AudioStreamInit => 3,
        Stage::RtspHandshake => 4,
        Stage::ControlStreamInit => 5,
        Stage::VideoStreamInit => 6,
        Stage::InputStreamInit => 7,
        Stage::ControlStreamStart => 8,
        Stage::VideoStreamStart => 9,
        Stage::AudioStreamStart => 10,
        Stage::InputStreamStart => 11,
        Stage::Max => 12,
    }
}

impl Stage {
    /// The protocol's number.
    pub fn raw(self) -> (res: i32)
        ensures
            res == spec_stage_raw(self),
    {
        match self {
            Stage::StageNone => 0,
            Stage::PlatformInit => 1,
            Stage::NameResolution => 2,
            Stage::AudioStreamInit => 3,
            Stage::RtspHandshake => 4,
            Stage::ControlStreamInit => 5,
            Stage::VideoStreamInit => 6,
            Stage::InputStreamInit => 7,
            Stage::ControlStreamStart => 8,
            Stage::VideoStreamStart => 9,
            Stage::AudioStreamStart => 10,
            Stage::InputStreamStart => 11,
            Stage::Max => 12,
        }
    }

    /// The stage with the protocol's number `raw`.
    pub fn from_raw(raw: i32) -> (res: Option<Stage>)
        ensures
            res matches Some(s) ==> spec_stage_raw(s) == raw,
            res is None <==> !(0 <= raw <= 12),
    {
        match raw {
            0 => Some(Stage::StageNone),
            1 => Some(Stage::PlatformInit),
            2 => Some(Stage::NameResolution),
            3 => Some(Stage::AudioStreamInit),
            4 => Some(Stage::RtspHandshake),
            5 => Some(Stage::ControlStreamInit),
            6 => Some(Stage::VideoStreamInit),
            7 => Some(Stage::InputStreamInit),
            8 => Some(Stage::ControlStreamStart),
            9 => Some(Stage::VideoStreamStart),
            10 => Some(Stage::AudioStreamStart),
            11 => Some(Stage::InputStreamStart),
            12 => Some(Stage::Max),
            _ => None,
        }
    }
}

/// The quality of the connection the host reports.
#[derive(Debug, Clone, Copy, PartialEq, Eq, Structural)]
pub enum ConnectionStatus {
    Okay,
    Poor,
}

impl ConnectionStatus {
    /// The status with the protocol's number `raw`: 0 for okay, 1 for poor.
    pub fn from_raw(raw: i32) -> (res: Option<ConnectionStatus>)
        ensures
            res == (if raw == 0 {
                Some(ConnectionStatus::Okay)
            } else if raw == 1 {
                Some(ConnectionStatus::Poor)
            } else {
                None::<ConnectionStatus>
            }),
    {
        if raw == 0 {
            Some(ConnectionStatus::Okay)
        } else if raw == 1 {
            Some(ConnectionStatus::Poor)
        } else {
            None
        }
    }
}

/// The kinds of touch events.
#[derive(Debug, Clone, Copy, PartialEq, Eq, Structural)]
pub enum TouchEventType {
    Hover,
    Down,
    Up,
    Move,
    Cancel,
    ButtonOnly,
    HoverLeave,
    CancelAll,
}

impl TouchEventType {
    /// The protocol's number.
    pub fn raw(self) -> (res: u8)
        ensures
            res == (match self {
                TouchEventType::Hover => 0u8,
                TouchEventType::Down => 1u8,
                TouchEventType::Up => 2u8,
                TouchEventType::Move => 3u8,
                TouchEventType::Cancel => 4u8,
                TouchEventType::ButtonOnly => 5u8,
                TouchEventType::HoverLeave => 6u8,
                TouchEventType::CancelAll => 7u8,
            }),
    {
        match self {
            TouchEventType::Hover => 0,
            TouchEventType::Down => 1,
            TouchEventType::Up => 2,
            TouchEventType::Move => 3,
            TouchEventType::Cancel => 4,
            TouchEventType::ButtonOnly => 5,
            TouchEventType::HoverLeave => 6,
            TouchEventType::CancelAll => 7,
        }
    }
}

/// A key goes up or down.
#[derive(Debug, Clone, Copy, PartialEq, Eq, Structural)]
pub enum KeyAction {
    Up,
    Down,
}

impl KeyAction {
    /// The protocol's number: 4 for up, 3 for down.
    pub fn raw(self) -> (res: i8)
        ensures
            res == (match self {
                KeyAction::Up => 4i8,
                KeyAction::Down => 3i8,
            }),
    {
        match self {
            KeyAction::Up => 4,
            KeyAction::Down => 3,
        }
    }
}

/// A mouse button is pressed or released.
#[derive(Debug, Clone, Copy, PartialEq, Eq, Structural)]
pub enum MouseButtonAction {
    Press,
    Release,
}

impl MouseButtonAction {
    /// The protocol's number: 7 for press, 8 for release.
    pub fn raw(self) -> (res: i8)
        ensures
            res == (match self {
                MouseButtonAction::Press => 7i8,
                MouseButtonAction::Release => 8i8,
            }),
    {
        match self {
            MouseButtonAction::Press => 7,
            MouseButtonAction::Release => 8,
        }
    }
}

/// The mouse buttons.
#[derive(Debug, Clone, Copy, PartialEq, Eq, Structural)]
pub enum MouseButton {
    Left,
    Middle,
    Right,
    X1,
    X2,
}

impl MouseButton {
    /// The protocol's number, 1 to 5 from left to the second extra button.
    pub fn raw(self) -> (res: i32)
        ensures
            res == (match self {
                MouseButton::Left => 1i32,
                MouseButton::Middle => 2i32,
                MouseButton::Right => 3i32,
                MouseButton::X1 => 4i32,
                MouseButton::X2 => 5i32,
            }),
    {
        match self {
            MouseButton::Left => 1,
            MouseButton::Middle => 2,
            MouseButton::Right => 3,
            MouseButton::X1 => 4,
            MouseButton::X2 => 5,
        }
    }
}

/// The kind of a buffer of a video frame.
#[derive(Debug, Clone, Copy, PartialEq, Eq, Structural)]
pub enum BufferType {
    PicData,
    Sps,
    Pps,
    Vps,
}

/// The kind of a video frame.
#[derive(Debug, Clone, Copy, PartialEq, Eq, Structural)]
pub enum FrameType {
    PFrame,
    Idr,
}

/// What a decoder answers for a frame.
#[derive(Debug, Clone, Copy, PartialEq, Eq, Structural)]
pub enum DecodeResult {
    Success,
    NeedIdr,
}

impl DecodeResult {
    /// The protocol's number: 0, or -1 to ask for an IDR frame.
    pub fn raw(self) -> (res: i32)
        ensures
            res == (match self {
                DecodeResult::Success => 0i32,
                DecodeResult::NeedIdr => -1i32,
            }),
    {
        match self {
            DecodeResult::Success => 0,
            DecodeResult::NeedIdr => -1,
        }
    }
}

/// The number that tells the host the audio layout: channel mask, channel count and a tag.
#[derive(Debug, Clone, Copy, PartialEq, Eq, Structural)]
pub struct AudioConfig(pub u32);

impl AudioConfig {
    /// Stereo, the default.
    pub fn stereo() -> (res: Self)
        ensures
            res.0 == 0x302ca,
    {
        AudioConfig(0x302ca)
    }

    /// 5.1 surround sound, when the host can.
    pub fn surround_51() -> (res: Self)
        ensures
            res.0 == 0x3f06ca,
    {
        AudioConfig(0x3f06ca)
    }

    /// 7.1 surround sound, when the host can.
    pub fn surround_71() -> (res: Self)
        ensures
            res.0 == 0x63f08ca,
    {
        AudioConfig(0x63f08ca)
    }

    /// An audio configuration by channel count and channel mask.
    pub fn new(channel_count: u32, channel_mask: u32) -> (res: Self)
        ensures
            res.0 == (channel_mask << 16u32) | (channel_count << 8u32) | 0xca,
            channel_count < 256 && channel_mask < 0x10000 ==> res.0 == channel_mask * 0x10000
                + channel_count * 0x100 + 0xca,
    {
        let v = (channel_mask << 16u32) | (channel_count << 8u32) | 0xca;
        proof {
            if channel_count < 256 && channel_mask < 0x10000 {
                assert(v == channel_mask * 0x10000 + channel_count * 0x100 + 0xca) by (bit_vector)
                    requires
                        v == (channel_mask << 16u32) | (channel_count << 8u32) | 0xca,
                        channel_count < 256,
                        channel_mask < 0x10000,
                ;
            }
        }
        AudioConfig(v)
    }
}

/// The Opus multistream decoder parameters of the audio stream.
#[derive(Debug, Clone, Copy)]
pub struct OpusMultistreamConfig {
    pub sample_rate: u32,
    pub channel_count: u32,
    pub streams: u32,
    pub coupled_streams: u32,
    pub samples_per_frame: u32,
    pub mapping: [u8; 8],
}

/// The round trip time of the connection and its variance, in milliseconds.
#[derive(Debug, Clone, Copy, PartialEq, Eq, Structural)]
pub struct EstimatedRttInfo {
    pub rtt_ms: u32,
    pub rtt_variance_ms: u32,
}

/// What the protocol needs to know of the host to connect.
#[derive(Debug, Clone)]
pub struct ServerInfo {
    pub address: String,
    pub app_version: ServerVersion,
    pub gfe_version: String,
    pub rtsp_session_url: String,
    pub server_codec_mode_support: ServerCodeModeSupport,
}

/// How the stream is to be set up.
#[derive(Debug, Clone, Copy)]
pub struct StreamConfiguration {
    pub width: i32,
    pub height: i32,
    pub fps: i32,
    pub bitrate: i32,
    pub packet_size: i32,
    pub streaming_remotely: StreamingConfig,
    pub audio_configuration: i32,
    pub supported_video_formats: SupportedVideoFormats,
    pub client_refresh_rate_x100: i32,
    pub color_space: Colorspace,
    pub color_range: ColorRange,
    pub encryption_flags: EncryptionFlags,
    /// The key of the remote input stream, the same as the launch request's `rikey`.
    pub remote_input_aes_key: [u8; 16],
    /// The initialisation vector of the remote input stream, the same as the launch
    /// request's `rikeyid`.
    pub remote_input_aes_iv: i32,
}

/// Each video format has a bit of its own.
pub proof fn law_video_format_bits_distinct(f: VideoFormat, g: VideoFormat)
    ensures
        spec_video_format_bits(f) == spec_video_format_bits(g) ==> f == g,
{
}

/// Each stage has a number of its own.
pub proof fn law_stage_raw_distinct(a: Stage, b: Stage)
    ensures
        spec_stage_raw(a) == spec_stage_raw(b) ==> a == b,
{
}

} // verus!
