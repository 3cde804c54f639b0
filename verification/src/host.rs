//! What a client decides about a host from what the host tells about itself: whether a
//! stream setting is possible there, and how a stream is to be set up.
use vstd::prelude::*;

use crate::launch::{ClientStreamRequest, decimal_string};
use crate::network::{ApiError, App, ClientInfo, DEFAULT_UNIQUE_ID};
use crate::pair::PairError;
use crate::text::{ascii_chars, decimal_digits};
use crate::network::{HostInfo, PairStatus};
use crate::stream::{
    ColorRange, Colorspace, EncryptionFlags, ServerCodeModeSupport, ServerInfo, StreamConfiguration,
    StreamingConfig, SupportedVideoFormats,
};
use crate::text::str_chars;

verus! {

/// Why a stream cannot be set up as asked.
#[derive(Debug, Clone, Copy, PartialEq, Eq, Structural)]
pub enum StreamConfigError {
    /// HDR is not supported.
    NotSupportedHdr,
    /// 4K is not supported.
    NotSupported4k,
    /// 4K needs HEVC or AV1 on the client.
    NotSupported4kCodecMissing,
    /// 4K needs a newer GeForce Experience.
    NotSupported4kUpdateGfe,
}

/// `needle` occurs in `hay` at position `i`.
pub open spec fn occurs_at(hay: Seq<char>, needle: Seq<char>, i: int) -> bool {
    0 <= i && i + needle.len() <= hay.len() && hay.subrange(i, i + needle.len()) == needle
}

/// `needle` occurs somewhere in `hay`.
pub open spec fn contains_text(hay: Seq<char>, needle: Seq<char>) -> bool {
    exists|i: int| occurs_at(hay, needle, i)
}

fn chars_at(hay: &Vec<char>, needle: &Vec<char>, i: usize) -> (res: bool)
    requires
        i + needle@.len() <= hay@.len(),
    ensures
        res == occurs_at(hay@, needle@, i as int),
{
    let hay_len = hay.len();
    let mut j: usize = 0;
    while j < needle.len()
        invariant
            hay_len == hay@.len(),
            i + needle@.len() <= hay@.len(),
            j <= needle@.len(),
            forall|k: int| 0 <= k < j ==> hay@[i + k] == needle@[k],
        decreases needle@.len() - j,
    {
        if hay[i + j] != needle[j] {
            assert(hay@.subrange(i as int, i + needle@.len())[j as int] != needle@[j as int]);
            return false;
        }
        j = j + 1;
    }
    assert(hay@.subrange(i as int, i + needle@.len()) =~= needle@);
    true
}

/// Whether `needle` occurs in `hay`.
pub fn str_contains(hay: &str, needle: &str) -> (res: bool)
    ensures
        res == contains_text(hay@, needle@),
{
    let h = str_chars(hay);
    let n = str_chars(needle);
    if n.len() == 0 {
        assert(occurs_at(hay@, needle@, 0)) by {
            assert(hay@.subrange(0, 0) =~= needle@);
        }
        return true;
    }
    if n.len() > h.len() {
        return false;
    }
    let hay_len = h.len();
    let last = h.len() - n.len();
    let mut i: usize = 0;
    while i <= last
        invariant
            h@ == hay@,
            n@ == needle@,
            last + n@.len() == h@.len(),
            hay_len == h@.len(),
            n@.len() >= 1,
            i <= last + 1,
            forall|k: int| 0 <= k < i ==> !occurs_at(hay@, needle@, k),
        decreases last + 1 - i,
    {
        if chars_at(&h, &n, i) {
            return true;
        }
        i = i + 1;
    }
    assert forall|k: int| !occurs_at(hay@, needle@, k) by {
        if 0 <= k < i {
        }
    }
    false
}

/// The state string of Nvidia's own host software (GeForce Experience and RTX Experience)
/// holds the code name `Mjolnir`; no version of Sunshine's does.
pub open spec fn spec_is_nvidia(info: HostInfo) -> bool {
    contains_text(info.state_string@, "Mjolnir"@)
}

/// The host codec support has every bit of `flag`.
pub open spec fn supports(info: HostInfo, flag: u32) -> bool {
    info.server_codec_mode_support.bits & flag == flag
}

/// The host runs Nvidia's own software rather than Sunshine.
pub fn is_nvidia_software(info: &HostInfo) -> (res: bool)
    ensures
        res == spec_is_nvidia(*info),
{
    str_contains(info.state_string.as_str(), "Mjolnir")
}

/// HDR needs HEVC Main10 or AV1 Main10 on the host.
pub fn is_hdr_supported(info: &HostInfo) -> (res: bool)
    ensures
        res == (supports(*info, ServerCodeModeSupport::HEVC_MAIN10) || supports(*info, ServerCodeModeSupport::AV1_MAIN10)),
{
    info.server_codec_mode_support.contains(ServerCodeModeSupport::HEVC_MAIN10)
        || info.server_codec_mode_support.contains(ServerCodeModeSupport::AV1_MAIN10)
}

/// 4K needs HEVC Main10 on Nvidia's host software; Sunshine always allows it.
pub fn is_4k_supported(info: &HostInfo) -> (res: bool)
    ensures
        res == (supports(*info, ServerCodeModeSupport::HEVC_MAIN10) || !spec_is_nvidia(*info)),
{
    let is_nvidia = is_nvidia_software(info);
    info.server_codec_mode_support.contains(ServerCodeModeSupport::HEVC_MAIN10) || !is_nvidia
}

/// The GeForce Experience version is recent enough for 4K: it does not start with `2.`.
pub open spec fn gfe_supports_4k(info: HostInfo) -> bool {
    !("2."@.is_prefix_of(info.gfe_version@))
}

/// Whether the GeForce Experience version is recent enough for 4K: it does not start with
/// `2.`.
pub fn is_4k_supported_gfe(info: &HostInfo) -> (res: bool)
    ensures
        res == gfe_supports_4k(*info),
{
    let gfe = str_chars(info.gfe_version.as_str());
    proof {
        reveal_strlit("2.");
    }
    if gfe.len() >= 2 && gfe[0] == '2' && gfe[1] == '.' {
        assert("2."@ =~= gfe@.subrange(0, 2));
        false
    } else {
        proof {
            if "2."@.is_prefix_of(info.gfe_version@) {
                assert(gfe@.subrange(0, 2)[0] == '2');
                assert(gfe@.subrange(0, 2)[1] == '.');
            }
        }
        true
    }
}

/// Every format a decoder could offer besides H.264.
pub const ALL_BUT_H264: u32 = 0xff00;

/// Whether a resolution can be streamed from the host: above 4096 in either dimension it
/// needs 4K support on the host and a decoder that offers HEVC or AV1; above 2160 rows it
/// needs a GeForce Experience recent enough for 4K.
pub open spec fn spec_resolution_supported(info: HostInfo, width: usize, height: usize, formats: SupportedVideoFormats) -> Result<(), StreamConfigError> {
    let above_4k = width > 4096 || height > 4096;
    if above_4k && !(supports(info, ServerCodeModeSupport::HEVC_MAIN10) || !spec_is_nvidia(info)) {
        Err(StreamConfigError::NotSupported4k)
    } else if above_4k && formats.bits & ALL_BUT_H264 == 0 {
        Err(StreamConfigError::NotSupported4kCodecMissing)
    } else if height > 2160 && !gfe_supports_4k(info) {
        Err(StreamConfigError::NotSupported4kUpdateGfe)
    } else {
        Ok(())
    }
}

/// Whether a resolution can be streamed from the host.
pub fn is_resolution_supported(info: &HostInfo, width: usize, height: usize, formats: SupportedVideoFormats) -> (res: Result<(), StreamConfigError>)
    ensures
        res == spec_resolution_supported(*info, width, height, formats),
{
    let above_4k = width > 4096 || height > 4096;
    if above_4k && !is_4k_supported(info) {
        Err(StreamConfigError::NotSupported4k)
    } else if above_4k && !formats.intersects(ALL_BUT_H264) {
        Err(StreamConfigError::NotSupported4kCodecMissing)
    } else if height > 2160 && !is_4k_supported_gfe(info) {
        Err(StreamConfigError::NotSupported4kUpdateGfe)
    } else {
        Ok(())
    }
}

/// The resolutions Nvidia's host software streams without forcing 720p.
pub open spec fn nvidia_resolution(width: usize, height: usize) -> bool {
    (width == 1280 && height == 720) || (width == 1920 && height == 1080) || (width == 3840 && height
        == 2160)
}

/// Optimizing the game's settings is turned off on Nvidia's host software for a resolution of
/// 720 rows or more other than 720p, 1080p or 4K: there the host would force 720p60. Below
/// 720 rows that is fine, and optimizing stays.
pub open spec fn spec_disable_sops(info: HostInfo, width: usize, height: usize) -> bool {
    height >= 720 && !nvidia_resolution(width, height) && spec_is_nvidia(info)
}

/// Whether optimizing the game's settings is turned off for a resolution.
pub fn should_disable_sops(info: &HostInfo, width: usize, height: usize) -> (res: bool)
    ensures
        res == spec_disable_sops(*info, width, height),
{
    let listed = (width == 1280 && height == 720) || (width == 1920 && height == 1080) || (width == 3840
        && height == 2160);
    let is_nvidia = is_nvidia_software(info);
    height >= 720 && !listed && is_nvidia
}

/// The frame rate and game-optimization setting a stream goes out with, or why it cannot:
/// HDR must be supported, the resolution must be; on Nvidia's host software a frame rate
/// above 60 becomes 0 and optimizing is turned off for resolutions of 720 rows or more other
/// than 720p, 1080p and 4K.
pub open spec fn spec_stream_settings(info: HostInfo, width: u32, height: u32, fps: u32, hdr: bool, sops: bool, formats: SupportedVideoFormats) -> Result<(u32, bool), StreamConfigError> {
    if hdr && !(supports(info, ServerCodeModeSupport::HEVC_MAIN10) || supports(info, ServerCodeModeSupport::AV1_MAIN10)) {
        Err(StreamConfigError::NotSupportedHdr)
    } else {
        match spec_resolution_supported(info, width as usize, height as usize, formats) {
            Err(e) => Err(e),
            Ok(()) => if spec_is_nvidia(info) {
                Ok((
                    if fps > 60 { 0 } else { fps },
                    if spec_disable_sops(info, width as usize, height as usize) { false } else { sops },
                ))
            } else {
                Ok((fps, sops))
            },
        }
    }
}

/// The frame rate and game-optimization setting a stream goes out with.
pub fn adjust_stream_settings(info: &HostInfo, width: u32, height: u32, fps: u32, hdr: bool, sops: bool, formats: SupportedVideoFormats) -> (res: Result<(u32, bool), StreamConfigError>)
    ensures
        res == spec_stream_settings(*info, width, height, fps, hdr, sops, formats),
{
    if hdr && !is_hdr_supported(info) {
        return Err(StreamConfigError::NotSupportedHdr);
    }
    match is_resolution_supported(info, width as usize, height as usize, formats) {
        Err(e) => return Err(e),
        Ok(()) => {},
    }
    let mut fps = fps;
    let mut sops = sops;
    if is_nvidia_software(info) {
        if fps > 60 {
            fps = 0;
        }
        if should_disable_sops(info, width as usize, height as usize) {
            sops = false;
        }
    }
    Ok((fps, sops))
}

/// A big-endian 32-bit integer from four bytes.
pub open spec fn spec_i32_from_be(b: Seq<u8>) -> i32 {
    (b[0] * 0x1000000 + b[1] * 0x10000 + b[2] * 0x100 + b[3]) as i32
}

/// `i32::from_be_bytes`.
pub fn i32_from_be_bytes(b: [u8; 4]) -> (res: i32)
    ensures
        res == spec_i32_from_be(b@),
{
    let b0 = b[0];
    let b1 = b[1];
    let b2 = b[2];
    let b3 = b[3];
    let u: u32 = ((b0 as u32) << 24u32) | ((b1 as u32) << 16u32) | ((b2 as u32) << 8u32) | (b3 as u32);
    assert(u == b0 * 0x1000000 + b1 * 0x10000 + b2 * 0x100 + b3) by (bit_vector)
        requires
            u == ((b0 as u32) << 24u32) | ((b1 as u32) << 16u32) | ((b2 as u32) << 8u32) | (b3 as u32),
    ;
    u as i32
}

/// The request that launches or resumes `app_id`; the input key is `ri_key` and its id the
/// big-endian reading of `iv`.
pub fn stream_request(app_id: u32, width: u32, height: u32, fps: u32, ri_key: [u8; 16], iv: [u8; 4]) -> (res: ClientStreamRequest)
    ensures
        res.app_id == app_id,
        res.mode_width == width,
        res.mode_height == height,
        res.mode_fps == fps,
        res.ri_key == ri_key,
        res.ri_key_id == spec_i32_from_be(iv@),
{
    ClientStreamRequest {
        app_id,
        mode_width: width,
        mode_height: height,
        mode_fps: fps,
        ri_key,
        ri_key_id: i32_from_be_bytes(iv),
    }
}

/// A game runs already exactly when `current_game` is not 0; then it is resumed, else the
/// application is launched.
pub fn should_launch(current_game: u32) -> (res: bool)
    ensures
        res == (current_game == 0),
{
    current_game == 0
}

/// How the stream of `request` is set up: its mode, the given bitrate, packet size, audio
/// layout, formats and colors, a refresh rate of the frame rate times 100, automatic remote
/// detection, no encryption of audio or video, and the request's input key.
pub fn stream_configuration(
    request: &ClientStreamRequest,
    bitrate: u32,
    packet_size: u32,
    audio_configuration: crate::stream::AudioConfig,
    supported_video_formats: SupportedVideoFormats,
    color_space: Colorspace,
    color_range: ColorRange,
) -> (res: StreamConfiguration)
    requires
        request.mode_fps * 100 <= u32::MAX,
    ensures
        res.width == request.mode_width as i32,
        res.height == request.mode_height as i32,
        res.fps == request.mode_fps as i32,
        res.bitrate == bitrate as i32,
        res.packet_size == packet_size as i32,
        res.streaming_remotely == StreamingConfig::Auto,
        res.audio_configuration == audio_configuration.0 as i32,
        res.supported_video_formats == supported_video_formats,
        res.client_refresh_rate_x100 == (request.mode_fps * 100) as i32,
        res.color_space == color_space,
        res.color_range == color_range,
        res.encryption_flags == (EncryptionFlags { audio: false, video: false }),
        res.remote_input_aes_key == request.ri_key,
        res.remote_input_aes_iv == request.ri_key_id,
{
    StreamConfiguration {
        width: request.mode_width as i32,
        height: request.mode_height as i32,
        fps: request.mode_fps as i32,
        bitrate: bitrate as i32,
        packet_size: packet_size as i32,
        streaming_remotely: StreamingConfig::Auto,
        audio_configuration: audio_configuration.0 as i32,
        supported_video_formats,
        client_refresh_rate_x100: (request.mode_fps * 100) as i32,
        color_space,
        color_range,
        encryption_flags: EncryptionFlags::none(),
        remote_input_aes_key: request.ri_key,
        remote_input_aes_iv: request.ri_key_id,
    }
}

/// What the streaming protocol needs to know of the host.
pub fn server_info(address: &str, info: &HostInfo, rtsp_session_url: &str) -> (res: ServerInfo)
    ensures
        res.address@ == address@,
        res.app_version == info.app_version,
        res.gfe_version@ == info.gfe_version@,
        res.rtsp_session_url@ == rtsp_session_url@,
        res.server_codec_mode_support == info.server_codec_mode_support,
{
    ServerInfo {
        address: address.to_owned(),
        app_version: info.app_version,
        gfe_version: info.gfe_version.clone(),
        rtsp_session_url: rtsp_session_url.to_owned(),
        server_codec_mode_support: info.server_codec_mode_support,
    }
}

/// Why an action on a host failed.
#[derive(Debug, Clone)]
pub enum HostError<E> {
    /// The action requires pairing.
    NotPaired,
    Api(ApiError<E>),
    Pair(PairError<E>),
    StreamConfig(StreamConfigError),
    /// The host did not answer before and nothing is known of it: it is likely offline.
    LikelyOffline,
}

/// What pairing left to talk to a host over HTTPS: the client's key and certificate and the
/// host's certificate, as PEM text.
#[derive(Debug, Clone)]
pub struct PairInfo {
    pub client_private_key: String,
    pub client_certificate: String,
    pub server_certificate: String,
}

/// The wake-on-LAN packet for the network card `mac`: six bytes 0xFF, then the address
/// sixteen times.
pub fn magic_packet(mac: [u8; 6]) -> (res: [u8; 102])
    ensures
        forall|i: int| 0 <= i < 6 ==> #[trigger] res@[i] == 255u8,
        forall|i: int| 6 <= i < 102 ==> #[trigger] res@[i] == mac@[i % 6],
{
    let mut packet: [u8; 102] = [255u8; 102];
    let mut i: usize = 6;
    while i < 102
        invariant
            6 <= i <= 102,
            forall|j: int| 0 <= j < 6 ==> #[trigger] packet@[j] == 255u8,
            forall|j: int| 6 <= j < i ==> #[trigger] packet@[j] == mac@[j % 6],
        decreases 102 - i,
    {
        packet.set(i, mac[i % 6]);
        i = i + 1;
    }
    packet
}

/// A host and what the client remembers of it.
pub struct MoonlightHost {
    client_unique_id: String,
    address: String,
    http_port: u16,
    tried_connect: bool,
    info: Option<HostInfo>,
    app_list: Option<Vec<App>>,
    paired: Option<PairInfo>,
}

/// `address:port`.
pub open spec fn spec_host_port(address: Seq<char>, port: u16) -> Seq<char> {
    address + ":"@ + ascii_chars(decimal_digits(port as nat))
}

/// What a request for the host's information meets: `None` when a request was made since the
/// cache was cleared and still nothing is known (the host is likely offline), else whether
/// the host must be asked (nothing is cached).
pub open spec fn begin_outcome(h: MoonlightHost) -> Option<bool> {
    if h.tried() && h.cached_info() is None {
        None
    } else {
        Some(h.cached_info() is None)
    }
}

/// `after` is `before` with a request counted as made.
pub open spec fn request_counted(before: MoonlightHost, after: MoonlightHost) -> bool {
    &&& after.tried()
    &&& after.cached_info() == before.cached_info()
    &&& after.cached_apps() == before.cached_apps()
    &&& after.pair_info_view() == before.pair_info_view()
    &&& after.address_view() == before.address_view()
    &&& after.http_port_view() == before.http_port_view()
    &&& after.unique_id_view() == before.unique_id_view()
}

/// `after` is `before` with the host's answer `info` remembered.
pub open spec fn info_stored(before: MoonlightHost, after: MoonlightHost, info: HostInfo) -> bool {
    &&& after.cached_info() == Some(info)
    &&& after.tried() == before.tried()
    &&& after.cached_apps() == before.cached_apps()
    &&& after.pair_info_view() == before.pair_info_view()
    &&& after.address_view() == before.address_view()
    &&& after.http_port_view() == before.http_port_view()
    &&& after.unique_id_view() == before.unique_id_view()
}

/// `after` is `before` with what the host told, and that it was asked, forgotten.
pub open spec fn cache_cleared(before: MoonlightHost, after: MoonlightHost) -> bool {
    &&& !after.tried()
    &&& after.cached_info() is None
    &&& after.cached_apps() is None
    &&& after.pair_info_view() == before.pair_info_view()
    &&& after.address_view() == before.address_view()
    &&& after.http_port_view() == before.http_port_view()
    &&& after.unique_id_view() == before.unique_id_view()
}

/// The host's information is asked once and then served from the cache: a request on a host
/// with nothing cached asks the host; once its answer is remembered, later requests are
/// served from it; when the request was made and no answer came, the host is taken as
/// offline; clearing the cache makes the next request ask the host again.
pub proof fn law_host_info_cache(h0: MoonlightHost, h1: MoonlightHost, h2: MoonlightHost, h3: MoonlightHost, info: HostInfo)
    requires
        h0.cached_info() is None,
        begin_outcome(h0) is Some,
        request_counted(h0, h1),
        info_stored(h1, h2, info),
        cache_cleared(h2, h3),
    ensures
        begin_outcome(h0) == Some(true),
        begin_outcome(h1) is None,
        begin_outcome(h2) == Some(false),
        h2.cached_info() == Some(info),
        begin_outcome(h3) == Some(true),
        h3.pair_info_view() == h0.pair_info_view(),
{
}

impl MoonlightHost {
    /// The client's unique id towards the host.
    pub closed spec fn unique_id_view(&self) -> Seq<char> {
        self.client_unique_id@
    }

    /// The host's address.
    pub closed spec fn address_view(&self) -> Seq<char> {
        self.address@
    }

    /// The host's HTTP port.
    pub closed spec fn http_port_view(&self) -> u16 {
        self.http_port
    }

    /// A request to the host was made since the cache was last cleared.
    pub closed spec fn tried(&self) -> bool {
        self.tried_connect
    }

    /// What the host last told about itself.
    pub closed spec fn cached_info(&self) -> Option<HostInfo> {
        self.info
    }

    /// The host's applications, as last listed.
    pub closed spec fn cached_apps(&self) -> Option<Seq<App>> {
        match self.app_list {
            Some(v) => Some(v@),
            None => None,
        }
    }

    /// The pairing with the host.
    pub closed spec fn pair_info_view(&self) -> Option<PairInfo> {
        self.paired
    }

    /// A host at `address` and `http_port`, known under `unique_id` or the default id; nothing
    /// asked of it yet, not paired.
    pub fn new(address: String, http_port: u16, unique_id: Option<String>) -> (res: Self)
        ensures
            res.address_view() == address@,
            res.http_port_view() == http_port,
            res.unique_id_view() == (match unique_id {
                Some(id) => id@,
                None => DEFAULT_UNIQUE_ID@,
            }),
            !res.tried(),
            res.cached_info() is None,
            res.cached_apps() is None,
            res.pair_info_view() is None,
    {
        let client_unique_id = match unique_id {
            Some(id) => id,
            None => DEFAULT_UNIQUE_ID.to_owned(),
        };
        MoonlightHost {
            client_unique_id,
            address,
            http_port,
            tried_connect: false,
            info: None,
            app_list: None,
            paired: None,
        }
    }

    /// The host's address.
    pub fn address(&self) -> (res: &str)
        ensures
            res@ == self.address_view(),
    {
        self.address.as_str()
    }

    /// The host's HTTP port.
    pub fn http_port(&self) -> (res: u16)
        ensures
            res == self.http_port_view(),
    {
        self.http_port
    }

    /// `address:http_port`.
    pub fn http_address(&self) -> (res: String)
        ensures
            res@ == spec_host_port(self.address_view(), self.http_port_view()),
    {
        build_host_port(self.address.as_str(), self.http_port)
    }

    /// `address:https_port`.
    pub fn build_https_address(address: &str, https_port: u16) -> (res: String)
        ensures
            res@ == spec_host_port(address@, https_port),
    {
        build_host_port(address, https_port)
    }

    /// Who the client is towards the host, with a fresh random UUID.
    pub fn client_info(&self) -> (res: ClientInfo)
        ensures
            res.unique_id@ == self.unique_id_view(),
    {
        let mut info = ClientInfo::new_default();
        info.unique_id = self.client_unique_id.clone();
        info
    }

    /// Before asking the host about itself: refused as likely offline when a request was
    /// made since the cache was cleared and still nothing is known; otherwise a request counts
    /// as made, and the answer says whether the host must be asked.
    pub fn begin_host_info<E>(&mut self) -> (res: Result<bool, HostError<E>>)
        ensures
            match begin_outcome(*old(self)) {
                None => res matches Err(HostError::LikelyOffline) && *final(self) == *old(self),
                Some(ask) => res == Ok::<bool, HostError<E>>(ask) && request_counted(*old(self), *final(self)),
            },
    {
        let has_cache = self.info.is_some();
        if self.tried_connect && !has_cache {
            return Err(HostError::LikelyOffline);
        }
        self.tried_connect = true;
        Ok(!has_cache)
    }

    /// The host's answer over HTTP is remembered; when the client is paired, the host is to
    /// be asked again over HTTPS, at the port it named.
    pub fn on_http_info(&mut self, info: HostInfo) -> (res: Option<u16>)
        ensures
            info_stored(*old(self), *final(self), info),
            res == (if old(self).pair_info_view() is Some { Some(info.https_port) } else { None::<u16> }),
    {
        let https_port = info.https_port;
        self.info = Some(info);
        if self.paired.is_some() {
            Some(https_port)
        } else {
            None
        }
    }

    /// The host's answer over HTTPS replaces what it said over HTTP.
    pub fn on_https_info(&mut self, info: HostInfo)
        ensures
            info_stored(*old(self), *final(self), info),
    {
        self.info = Some(info);
    }

    /// What the host last told about itself; likely offline when nothing.
    pub fn host_info<E>(&self) -> (res: Result<&HostInfo, HostError<E>>)
        ensures
            match self.cached_info() {
                Some(info) => res matches Ok(r) && *r == info,
                None => res matches Err(HostError::LikelyOffline),
            },
    {
        match &self.info {
            Some(info) => Ok(info),
            None => Err(HostError::LikelyOffline),
        }
    }

    /// Forgets what the host told and that it was asked.
    pub fn clear_cache(&mut self)
        ensures
            cache_cleared(*old(self), *final(self)),
    {
        self.tried_connect = false;
        self.info = None;
        self.app_list = None;
    }

    /// Whether the client is paired with the host.
    pub fn is_paired(&self) -> (res: PairStatus)
        ensures
            res == (if self.pair_info_view() is Some { PairStatus::Paired } else { PairStatus::NotPaired }),
    {
        if self.paired.is_some() {
            PairStatus::Paired
        } else {
            PairStatus::NotPaired
        }
    }

    /// Refuses what needs pairing when the client is not paired.
    pub fn check_paired<E>(&self) -> (res: Result<(), HostError<E>>)
        ensures
            self.pair_info_view() is Some <==> res is Ok,
            res is Err ==> res matches Err(HostError::NotPaired),
    {
        if self.paired.is_some() {
            Ok(())
        } else {
            Err(HostError::NotPaired)
        }
    }

    /// Remembers the pairing.
    pub fn set_pair_info(&mut self, pair_info: PairInfo)
        ensures
            final(self).pair_info_view() == Some(pair_info),
            final(self).tried() == old(self).tried(),
            final(self).cached_info() == old(self).cached_info(),
            final(self).cached_apps() == old(self).cached_apps(),
            final(self).address_view() == old(self).address_view(),
            final(self).http_port_view() == old(self).http_port_view(),
            final(self).unique_id_view() == old(self).unique_id_view(),
    {
        self.paired = Some(pair_info);
    }

    /// Forgets the pairing.
    pub fn clear_pair_info(&mut self)
        ensures
            final(self).pair_info_view() is None,
            final(self).tried() == old(self).tried(),
            final(self).cached_info() == old(self).cached_info(),
            final(self).cached_apps() == old(self).cached_apps(),
            final(self).address_view() == old(self).address_view(),
            final(self).http_port_view() == old(self).http_port_view(),
            final(self).unique_id_view() == old(self).unique_id_view(),
    {
        self.paired = None;
    }

    /// The pairing with the host.
    pub fn pair_info(&self) -> (res: Option<PairInfo>)
        ensures
            res == self.pair_info_view(),
    {
        match &self.paired {
            None => None,
            Some(p) => Some(
                PairInfo {
                    client_private_key: p.client_private_key.clone(),
                    client_certificate: p.client_certificate.clone(),
                    server_certificate: p.server_certificate.clone(),
                },
            ),
        }
    }

    /// The host's applications as last listed, if they were.
    pub fn cached_app_list(&self) -> (res: Option<Vec<App>>)
        ensures
            match res {
                Some(v) => self.cached_apps() == Some(v@),
                None => self.cached_apps() is None,
            },
    {
        match &self.app_list {
            None => None,
            Some(apps) => {
                let mut out: Vec<App> = Vec::new();
                let mut i: usize = 0;
                while i < apps.len()
                    invariant
                        i <= apps@.len(),
                        out@ == apps@.take(i as int),
                    decreases apps@.len() - i,
                {
                    let a = &apps[i];
                    out.push(App { id: a.id, title: a.title.clone(), is_hdr_supported: a.is_hdr_supported });
                    i = i + 1;
                    assert(out@ =~= apps@.take(i as int));
                }
                assert(apps@.take(i as int) =~= apps@);
                Some(out)
            },
        }
    }

    /// Remembers the host's applications.
    pub fn on_app_list(&mut self, apps: Vec<App>)
        ensures
            final(self).cached_apps() == Some(apps@),
            final(self).tried() == old(self).tried(),
            final(self).cached_info() == old(self).cached_info(),
            final(self).pair_info_view() == old(self).pair_info_view(),
            final(self).address_view() == old(self).address_view(),
            final(self).http_port_view() == old(self).http_port_view(),
            final(self).unique_id_view() == old(self).unique_id_view(),
    {
        self.app_list = Some(apps);
    }
}

fn build_host_port(address: &str, port: u16) -> (res: String)
    ensures
        res@ == spec_host_port(address@, port),
{
    let mut s = address.to_owned();
    let colon = ":";
    let p = decimal_string(port as u64);
    let mut t = s.concat(colon);
    t.append(p.as_str());
    t
}

} // verus!
