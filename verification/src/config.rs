//! The web server's configuration and the values it takes when the file leaves them out.
use vstd::prelude::*;

verus! {

/// How much is logged.
#[derive(Debug, Clone, Copy, PartialEq, Eq, Structural)]
pub enum LevelFilter {
    Off,
    Error,
    Warn,
    Info,
    Debug,
    Trace,
}

/// Where logs go and how much.
#[derive(Debug, Clone)]
pub struct LogConfig {
    pub level_filter: LevelFilter,
    pub file_path: Option<String>,
}

impl Default for LogConfig {
    fn default() -> (res: Self)
        ensures
            res.level_filter == LevelFilter::Info,
            res.file_path is None,
    {
        LogConfig { level_filter: LevelFilter::Info, file_path: None }
    }
}

/// Where the server keeps its data: a JSON file, checked for expired sessions every
/// `session_expiration_check_interval_secs` seconds.
#[derive(Debug, Clone)]
pub enum StorageConfig {
    Json { path: String, session_expiration_check_interval_secs: u64 },
}

/// Five minutes, in seconds.
pub fn default_session_expiration_check_interval() -> (res: u64)
    ensures
        res == 300,
{
    300
}

/// A JSON file at `server/data.json`, checked every five minutes.
pub fn default_data_storage() -> (res: StorageConfig)
    ensures
        res matches StorageConfig::Json { path, session_expiration_check_interval_secs } && path@
            == "server/data.json"@ && session_expiration_check_interval_secs == 300,
{
    StorageConfig::Json {
        path: "server/data.json".to_owned(),
        session_expiration_check_interval_secs: default_session_expiration_check_interval(),
    }
}

/// A STUN or TURN server for WebRTC.
#[derive(Debug, Clone)]
pub struct RtcIceServer {
    pub urls: Vec<String>,
    pub username: String,
    pub credential: String,
}

/// The kinds of network WebRTC may use.
#[derive(Debug, Clone, Copy, PartialEq, Eq, Structural)]
pub enum WebRtcNetworkType {
    Udp4,
    Udp6,
    Tcp4,
    Tcp6,
}

/// The kind of ICE candidate a 1:1 NAT mapping announces.
#[derive(Debug, Clone, Copy, PartialEq, Eq, Structural)]
pub enum WebRtcNat1To1IceCandidateType {
    Srflx,
    Host,
}

/// The public addresses of a 1:1 NAT.
#[derive(Debug, Clone)]
pub struct WebRtcNat1To1Mapping {
    pub ips: Vec<String>,
    pub ice_candidate_type: WebRtcNat1To1IceCandidateType,
}

/// A range of ports.
#[derive(Debug, Clone, Copy, PartialEq, Eq, Structural)]
pub struct PortRange {
    pub min: u16,
    pub max: u16,
}

/// How WebRTC connections are made.
#[derive(Debug, Clone)]
pub struct WebRtcConfig {
    pub ice_servers: Vec<RtcIceServer>,
    pub port_range: Option<PortRange>,
    pub nat_1to1: Option<WebRtcNat1To1Mapping>,
    pub network_types: Vec<WebRtcNetworkType>,
    pub include_loopback_candidates: bool,
}

/// The public STUN servers of Google that WebRTC uses unless told otherwise.
pub open spec fn spec_default_ice_urls() -> Seq<Seq<char>> {
    seq![
        "stun:stun.l.google.com:19302"@,
        "stun:stun.l.google.com:5349"@,
        "stun:stun1.l.google.com:3478"@,
        "stun:stun1.l.google.com:5349"@,
        "stun:stun2.l.google.com:19302"@,
        "stun:stun2.l.google.com:5349"@,
        "stun:stun3.l.google.com:3478"@,
        "stun:stun3.l.google.com:5349"@,
        "stun:stun4.l.google.com:19302"@,
        "stun:stun4.l.google.com:5349"@,
    ]
}

/// Strings by their characters.
pub open spec fn strings_view(v: Seq<String>) -> Seq<Seq<char>> {
    v.map_values(|s: String| s@)
}

fn push_string(v: &mut Vec<String>, s: &str)
    ensures
        strings_view(final(v)@) == strings_view(old(v)@).push(s@),
{
    let ghost before = v@;
    let owned = s.to_owned();
    let ghost o = owned;
    v.push(owned);
    assert(v@ =~= before.push(o));
    assert(strings_view(v@) =~= strings_view(before).push(s@));
}

/// One ICE server with Google's public STUN servers and no credentials.
pub fn default_ice_servers() -> (res: Vec<RtcIceServer>)
    ensures
        res@.len() == 1,
        strings_view(res@[0].urls@) == spec_default_ice_urls(),
        res@[0].username@.len() == 0,
        res@[0].credential@.len() == 0,
{
    let mut urls: Vec<String> = Vec::new();
    assert(strings_view(urls@) =~= Seq::<Seq<char>>::empty());
    push_string(&mut urls, "stun:stun.l.google.com:19302");
    push_string(&mut urls, "stun:stun.l.google.com:5349");
    push_string(&mut urls, "stun:stun1.l.google.com:3478");
    push_string(&mut urls, "stun:stun1.l.google.com:5349");
    push_string(&mut urls, "stun:stun2.l.google.com:19302");
    push_string(&mut urls, "stun:stun2.l.google.com:5349");
    push_string(&mut urls, "stun:stun3.l.google.com:3478");
    push_string(&mut urls, "stun:stun3.l.google.com:5349");
    push_string(&mut urls, "stun:stun4.l.google.com:19302");
    push_string(&mut urls, "stun:stun4.l.google.com:5349");
    assert(strings_view(urls@) =~= spec_default_ice_urls());
    let server = RtcIceServer { urls, username: String::new(), credential: String::new() };
    let mut servers: Vec<RtcIceServer> = Vec::new();
    servers.push(server);
    servers
}

/// UDP over IPv4 and IPv6.
pub fn default_network_types() -> (res: Vec<WebRtcNetworkType>)
    ensures
        res@ == seq![WebRtcNetworkType::Udp4, WebRtcNetworkType::Udp6],
{
    let mut v: Vec<WebRtcNetworkType> = Vec::new();
    v.push(WebRtcNetworkType::Udp4);
    v.push(WebRtcNetworkType::Udp6);
    assert(v@ =~= seq![WebRtcNetworkType::Udp4, WebRtcNetworkType::Udp6]);
    v
}

/// Loopback candidates are offered.
pub fn default_include_loopback_candidates() -> (res: bool)
    ensures
        res,
{
    true
}

impl Default for WebRtcConfig {
    fn default() -> (res: Self)
        ensures
            res.ice_servers@.len() == 1,
            strings_view(res.ice_servers@[0].urls@) == spec_default_ice_urls(),
            res.port_range is None,
            res.nat_1to1 is None,
            res.network_types@ == seq![WebRtcNetworkType::Udp4, WebRtcNetworkType::Udp6],
            res.include_loopback_candidates,
    {
        WebRtcConfig {
            ice_servers: default_ice_servers(),
            port_range: None,
            nat_1to1: None,
            network_types: default_network_types(),
            include_loopback_candidates: default_include_loopback_candidates(),
        }
    }
}

/// An address and port to listen on.
#[derive(Debug, Clone, Copy, PartialEq, Eq)]
pub enum SocketAddress {
    V4 { ip: [u8; 4], port: u16 },
    V6 { ip: [u16; 8], port: u16 },
}

/// Every IPv4 interface, port 8080.
pub fn default_bind_address() -> (res: SocketAddress)
    ensures
        res == (SocketAddress::V4 { ip: [0u8, 0u8, 0u8, 0u8], port: 8080 }),
{
    SocketAddress::V4 { ip: [0, 0, 0, 0], port: 8080 }
}

/// The TLS key and certificate of the web server.
#[derive(Debug, Clone)]
pub struct ConfigSsl {
    pub private_key_pem: String,
    pub certificate_pem: String,
}

/// The header a reverse proxy names the user in.
#[derive(Debug, Clone)]
pub struct ForwardedHeaders {
    pub username_header: String,
    pub auto_create_missing_user: bool,
}

/// A user named by a proxy that does not exist yet is created.
pub fn default_forwarded_headers_auto_create_user() -> (res: bool)
    ensures
        res,
{
    true
}

/// Session cookies are sent over plain HTTP too.
pub fn default_session_cookie_secure() -> (res: bool)
    ensures
        !res,
{
    false
}

/// A session lasts a day, in seconds.
pub fn default_session_cookie_expiration() -> (res: u64)
    ensures
        res == 24 * 60 * 60,
{
    24 * 60 * 60
}

/// How the web server serves.
#[derive(Debug, Clone)]
pub struct WebServerConfig {
    pub bind_address: SocketAddress,
    pub certificate: Option<ConfigSsl>,
    pub url_path_prefix: String,
    pub session_cookie_secure: bool,
    /// In seconds.
    pub session_cookie_expiration: u64,
    pub first_login_create_admin: bool,
    pub first_login_assign_global_hosts: bool,
    pub default_user_id: Option<u32>,
    pub forwarded_header: Option<ForwardedHeaders>,
}

impl Default for WebServerConfig {
    fn default() -> (res: Self)
        ensures
            res.bind_address == (SocketAddress::V4 { ip: [0u8, 0u8, 0u8, 0u8], port: 8080 }),
            res.certificate is None,
            res.url_path_prefix@.len() == 0,
            !res.session_cookie_secure,
            res.session_cookie_expiration == 24 * 60 * 60,
            res.first_login_create_admin,
            res.first_login_assign_global_hosts,
            res.default_user_id is None,
            res.forwarded_header is None,
    {
        WebServerConfig {
            bind_address: default_bind_address(),
            certificate: None,
            url_path_prefix: String::new(),
            session_cookie_secure: default_session_cookie_secure(),
            session_cookie_expiration: default_session_cookie_expiration(),
            first_login_create_admin: true,
            first_login_assign_global_hosts: true,
            default_user_id: None,
            forwarded_header: None,
        }
    }
}

/// How the server talks to hosts.
#[derive(Debug, Clone)]
pub struct MoonlightConfig {
    pub default_http_port: u16,
    pub pair_device_name: String,
}

/// The HTTP port of a host unless told otherwise.
pub fn default_moonlight_http_port() -> (res: u16)
    ensures
        res == 47989,
{
    47989
}

/// The name the server pairs as.
pub fn default_pair_device_name() -> (res: String)
    ensures
        res@ == "roth"@,
{
    "roth".to_owned()
}

impl Default for MoonlightConfig {
    fn default() -> (res: Self)
        ensures
            res.default_http_port == 47989,
            res.pair_device_name@ == "roth"@,
    {
        MoonlightConfig {
            default_http_port: default_moonlight_http_port(),
            pair_device_name: default_pair_device_name(),
        }
    }
}

/// The program that streams, next to the server.
pub fn default_streamer_path() -> (res: String)
    ensures
        res@ == "./streamer"@,
{
    "./streamer".to_owned()
}

/// The data file of the older single-user configuration.
pub fn data_path_default() -> (res: String)
    ensures
        res@ == "server/data.json"@,
{
    "server/data.json".to_owned()
}

/// The HTTP port of a host in the older single-user configuration.
pub fn moonlight_default_http_port_default() -> (res: u16)
    ensures
        res == 47989,
{
    47989
}

/// The whole configuration.
#[derive(Debug, Clone)]
pub struct Config {
    pub data_storage: StorageConfig,
    pub webrtc: WebRtcConfig,
    pub web_server: WebServerConfig,
    pub moonlight: MoonlightConfig,
    pub streamer_path: String,
    pub log: LogConfig,
}

impl Default for Config {
    fn default() -> (res: Self)
        ensures
            res.data_storage matches StorageConfig::Json { path, session_expiration_check_interval_secs }
                && path@ == "server/data.json"@ && session_expiration_check_interval_secs == 300,
            res.streamer_path@ == "./streamer"@,
            res.moonlight.default_http_port == 47989,
            res.moonlight.pair_device_name@ == "roth"@,
            res.web_server.bind_address == (SocketAddress::V4 { ip: [0u8, 0u8, 0u8, 0u8], port: 8080 }),
            res.webrtc.network_types@ == seq![WebRtcNetworkType::Udp4, WebRtcNetworkType::Udp6],
            res.log.level_filter == LevelFilter::Info,
    {
        Config {
            data_storage: default_data_storage(),
            streamer_path: default_streamer_path(),
            web_server: WebServerConfig::default(),
            moonlight: MoonlightConfig::default(),
            webrtc: WebRtcConfig::default(),
            log: LogConfig::default(),
        }
    }
}

} // verus!
