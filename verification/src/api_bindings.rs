//! The messages the web server's HTTP API exchanges with the browser.
use vstd::prelude::*;

use crate::network::{self as ml, HostInfo, ServerState};
use crate::network::{spec_uuid_hyphenated, spec_version_text, uuid_hyphenated};
use crate::text::ascii_chars;
use crate::pair::{PairPin, spec_pin_text};

verus! {

/// Whether a host is streaming.
#[derive(Debug, Clone, Copy, PartialEq, Eq, Structural)]
pub enum HostState {
    Free,
    Busy,
}

impl From<ServerState> for HostState {
    fn from(value: ServerState) -> (res: Self) {
        match value {
            ServerState::Free => HostState::Free,
            ServerState::Busy => HostState::Busy,
        }
    }
}

impl vstd::std_specs::convert::FromSpecImpl<ServerState> for HostState {
    open spec fn obeys_from_spec() -> bool {
        true
    }

    open spec fn from_spec(value: ServerState) -> HostState {
        match value {
            ServerState::Free => HostState::Free,
            ServerState::Busy => HostState::Busy,
        }
    }
}

/// Whether the server is paired with a host.
#[derive(Debug, Clone, Copy, PartialEq, Eq, Structural)]
pub enum PairStatus {
    NotPaired,
    Paired,
}

impl From<ml::PairStatus> for PairStatus {
    fn from(value: ml::PairStatus) -> (res: Self) {
        match value {
            ml::PairStatus::NotPaired => PairStatus::NotPaired,
            ml::PairStatus::Paired => PairStatus::Paired,
        }
    }
}

impl vstd::std_specs::convert::FromSpecImpl<ml::PairStatus> for PairStatus {
    open spec fn obeys_from_spec() -> bool {
        true
    }

    open spec fn from_spec(value: ml::PairStatus) -> PairStatus {
        match value {
            ml::PairStatus::NotPaired => PairStatus::NotPaired,
            ml::PairStatus::Paired => PairStatus::Paired,
        }
    }
}

/// A host in a list.
#[derive(Debug, Clone)]
pub struct UndetailedHost {
    pub host_id: u32,
    pub name: String,
    pub paired: PairStatus,
    pub server_state: HostState,
}

/// A host with everything it tells about itself.
#[derive(Debug, Clone)]
pub struct DetailedHost {
    pub host_id: u32,
    pub name: String,
    pub paired: PairStatus,
    pub server_state: HostState,
    pub address: String,
    pub http_port: u16,
    pub https_port: u16,
    pub external_port: u16,
    pub version: String,
    pub gfe_version: String,
    pub unique_id: String,
    pub mac: String,
    pub local_ip: String,
    pub current_game: u32,
    pub max_luma_pixels_hevc: u32,
    pub server_codec_mode_support: u32,
}

/// An application of a host.
#[derive(Debug, Clone)]
pub struct App {
    pub app_id: u32,
    pub title: String,
    pub is_hdr_supported: bool,
}

/// The application a host offers, as the browser sees it.
pub fn app_from(value: ml::App) -> (res: App)
    ensures
        res.app_id == value.id,
        res.title@ == value.title@,
        res.is_hdr_supported == value.is_hdr_supported,
{
    App { app_id: value.id, title: value.title, is_hdr_supported: value.is_hdr_supported }
}

/// Converts with `From` on the pairing status.
fn pair_status_of(p: ml::PairStatus) -> (res: PairStatus)
    ensures
        res == (match p {
            ml::PairStatus::NotPaired => PairStatus::NotPaired,
            ml::PairStatus::Paired => PairStatus::Paired,
        }),
{
    PairStatus::from(p)
}

fn host_state_of(s: ServerState) -> (res: HostState)
    ensures
        res == (match s {
            ServerState::Free => HostState::Free,
            ServerState::Busy => HostState::Busy,
        }),
{
    HostState::from(s)
}

/// A host in the list: its position (cut to 32 bits), name, pairing and state.
pub fn undetailed_host(id: usize, info: &HostInfo, paired: ml::PairStatus) -> (res: UndetailedHost)
    ensures
        res.host_id == id as u32,
        res.name@ == info.host_name@,
        res.paired == pair_status_of_spec(paired),
        res.server_state == host_state_of_spec(info.state),
{
    UndetailedHost {
        host_id: id as u32,
        name: info.host_name.clone(),
        paired: pair_status_of(paired),
        server_state: host_state_of(info.state),
    }
}

/// The browser's pairing status of a host's.
pub open spec fn pair_status_of_spec(p: ml::PairStatus) -> PairStatus {
    match p {
        ml::PairStatus::NotPaired => PairStatus::NotPaired,
        ml::PairStatus::Paired => PairStatus::Paired,
    }
}

/// The browser's state of a host's.
pub open spec fn host_state_of_spec(s: ServerState) -> HostState {
    match s {
        ServerState::Free => HostState::Free,
        ServerState::Busy => HostState::Busy,
    }
}

/// A host with everything it tells: its version as `a.b.c.d`, its unique id as a hyphenated
/// UUID.
pub fn detailed_host(id: usize, address: &str, http_port: u16, info: &HostInfo, paired: ml::PairStatus) -> (res: DetailedHost)
    ensures
        res.host_id == id as u32,
        res.name@ == info.host_name@,
        res.paired == pair_status_of_spec(paired),
        res.server_state == host_state_of_spec(info.state),
        res.address@ == address@,
        res.http_port == http_port,
        res.https_port == info.https_port,
        res.external_port == info.external_port,
        res.version@ == ascii_chars(spec_version_text(info.app_version)),
        res.gfe_version@ == info.gfe_version@,
        res.unique_id@ == ascii_chars(spec_uuid_hyphenated(info.unique_id@)),
        res.mac@ == info.mac@,
        res.local_ip@ == info.local_ip@,
        res.current_game == info.current_game,
        res.max_luma_pixels_hevc == info.max_luma_pixels_hevc,
        res.server_codec_mode_support == info.server_codec_mode_support.bits,
{
    DetailedHost {
        host_id: id as u32,
        name: info.host_name.clone(),
        paired: pair_status_of(paired),
        server_state: host_state_of(info.state),
        address: address.to_owned(),
        http_port,
        https_port: info.https_port,
        external_port: info.external_port,
        version: info.app_version.to_string(),
        gfe_version: info.gfe_version.clone(),
        unique_id: uuid_hyphenated(info.unique_id),
        mac: info.mac.clone(),
        local_ip: info.local_ip.clone(),
        current_game: info.current_game,
        max_luma_pixels_hevc: info.max_luma_pixels_hevc,
        server_codec_mode_support: info.server_codec_mode_support.bits,
    }
}

/// The hosts of a user.
#[derive(Debug, Clone)]
pub struct GetHostsResponse {
    pub hosts: Vec<UndetailedHost>,
}

/// Which host to describe.
#[derive(Debug, Clone, Copy)]
pub struct GetHostQuery {
    pub host_id: u32,
}

/// A host described.
#[derive(Debug, Clone)]
pub struct GetHostResponse {
    pub host: DetailedHost,
}

/// A host to add.
#[derive(Debug, Clone)]
pub struct PutHostRequest {
    pub address: String,
    pub http_port: Option<u16>,
}

/// The host added.
#[derive(Debug, Clone)]
pub struct PutHostResponse {
    pub host: DetailedHost,
}

/// Which host to remove.
#[derive(Debug, Clone, Copy)]
pub struct DeleteHostQuery {
    pub host_id: u32,
}

/// Which host to pair with.
#[derive(Debug, Clone, Copy)]
pub struct PostPairRequest {
    pub host_id: u32,
}

/// The first answer to a pairing request: the pin to enter on the host, or why pairing could
/// not begin.
#[derive(Debug, Clone)]
pub enum PostPairResponse1 {
    InternalServerError,
    PairError,
    Pin(String),
}

/// The last answer to a pairing request.
#[derive(Debug, Clone)]
pub enum PostPairResponse2 {
    PairError,
    Paired(DetailedHost),
}

/// How a pairing request is answered before anything is asked of the host.
#[derive(Debug, Clone, Copy, PartialEq, Eq, Structural)]
pub enum PairHostStatus {
    /// No host has the id: not found.
    NotFound,
    /// The host is paired already: not modified.
    NotModified,
    /// Pairing goes ahead; the pin, then the outcome, are streamed to the browser.
    Pairing,
}

/// How a pairing request is answered: an unknown host is not found, a paired one is not
/// modified, any other is paired.
pub fn pair_host_status(host_known: bool, paired: ml::PairStatus) -> (res: PairHostStatus)
    ensures
        res == (if !host_known {
            PairHostStatus::NotFound
        } else if paired == ml::PairStatus::Paired {
            PairHostStatus::NotModified
        } else {
            PairHostStatus::Pairing
        }),
{
    if !host_known {
        PairHostStatus::NotFound
    } else {
        match paired {
            ml::PairStatus::Paired => PairHostStatus::NotModified,
            ml::PairStatus::NotPaired => PairHostStatus::Pairing,
        }
    }
}

/// The first message of a pairing that goes ahead: the pin to enter on the host.
pub fn pair_pin_response(pin: &PairPin) -> (res: PostPairResponse1)
    ensures
        res matches PostPairResponse1::Pin(text) && text@ == ascii_chars(spec_pin_text(pin@)),
{
    PostPairResponse1::Pin(pin.to_string())
}

/// Which host's applications to list.
#[derive(Debug, Clone, Copy)]
pub struct GetAppsQuery {
    pub host_id: u32,
}

/// The applications of a host.
#[derive(Debug, Clone)]
pub struct GetAppsResponse {
    pub apps: Vec<App>,
}

} // verus!
