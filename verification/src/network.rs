//! What a client asks a host over HTTP and how it reads the answers.
use vstd::prelude::*;
use vstd::string::StringSliceAdditionalSpecFns;

use crate::hex::{FromHexError, encode_upper, push_hex_lower, spec_hex_lower, spec_hex_upper, lemma_hex_lower_ascii, decode, spec_hex_decode};
use crate::pair::SALT_LENGTH;
use crate::stream::ServerCodeModeSupport;
use crate::xml::{
    XmlNode, XmlNodeView, nodes_view, parse_document, spec_child_text, spec_parse_xml, spec_root_node,
    xml_child_text, xml_root_node,
};
use vstd::utf8::{encode_utf8, valid_utf8, decode_utf8};
use crate::xml::{spec_child_paired, xml_child_paired, paired_result, is_child_named};
use crate::text::string_from_utf8;
use crate::text::{
    ParseIntError, parse_u16, parse_u32, spec_parse_unsigned, ascii_chars, ascii_string, lemma_decimal_digits, parse_i32_bytes, push_signed_decimal,
    signed_decimal, spec_parse_i32, split_bytes, split_n, all_ascii, lemma_all_ascii_concat, digits_value, decimal_digits, IntErrorKind, is_digit, index_of_from,
};

verus! {

/// Why a request to a host failed.
#[derive(Debug, Clone)]
pub enum ApiError<E> {
    /// The transport failed.
    RequestClient(E),
    /// The response is invalid XML.
    ParseXmlError,
    /// The returned document has a 4xx status code.
    InvalidXmlStatusCode { message: Option<String> },
    /// The returned document doesn't have the root node.
    XmlRootNotFound,
    /// The text contents of a node aren't present.
    XmlTextNotFound(&'static str),
    /// A detail was not found.
    DetailNotFound(&'static str),
    ParseServerStateError(ParseServerStateError),
    ParseServerVersionError(ParseServerVersionError),
    /// The codec support bits name an unknown codec.
    ParseServerCodecModeSupport,
    ParseIntError(ParseIntError),
    /// A unique id is no UUID.
    ParseUuidError,
    ParseHexError(FromHexError),
    /// Decoded bytes are no UTF-8 text.
    Utf8Error,
}

/// An `ApiError` with its message taken by its characters.
pub enum ApiErrorView<E> {
    RequestClient(E),
    ParseXmlError,
    InvalidXmlStatusCode { message: Option<Seq<char>> },
    XmlRootNotFound,
    XmlTextNotFound(&'static str),
    DetailNotFound(&'static str),
    ParseServerStateError(ParseServerStateError),
    ParseServerVersionError(ParseServerVersionError),
    ParseServerCodecModeSupport,
    ParseIntError(ParseIntError),
    ParseUuidError,
    ParseHexError(FromHexError),
    Utf8Error,
}

impl<E> View for ApiError<E> {
    type V = ApiErrorView<E>;

    open spec fn view(&self) -> ApiErrorView<E> {
        match self {
            ApiError::RequestClient(e) => ApiErrorView::RequestClient(*e),
            ApiError::ParseXmlError => ApiErrorView::ParseXmlError,
            ApiError::InvalidXmlStatusCode { message } => ApiErrorView::InvalidXmlStatusCode {
                message: message.deep_view(),
            },
            ApiError::XmlRootNotFound => ApiErrorView::XmlRootNotFound,
            ApiError::XmlTextNotFound(n) => ApiErrorView::XmlTextNotFound(*n),
            ApiError::DetailNotFound(n) => ApiErrorView::DetailNotFound(*n),
            ApiError::ParseServerStateError(e) => ApiErrorView::ParseServerStateError(*e),
            ApiError::ParseServerVersionError(e) => ApiErrorView::ParseServerVersionError(*e),
            ApiError::ParseServerCodecModeSupport => ApiErrorView::ParseServerCodecModeSupport,
            ApiError::ParseIntError(e) => ApiErrorView::ParseIntError(*e),
            ApiError::ParseUuidError => ApiErrorView::ParseUuidError,
            ApiError::ParseHexError(e) => ApiErrorView::ParseHexError(*e),
            ApiError::Utf8Error => ApiErrorView::Utf8Error,
        }
    }
}

/// The state of a host could not be read.
#[derive(Debug, Clone, Copy, PartialEq, Eq, Structural)]
pub struct ParseServerStateError;

/// Whether a host is streaming.
#[derive(Debug, Clone, Copy, PartialEq, Eq, Structural)]
pub enum ServerState {
    Busy,
    Free,
}

/// Whether a host knows the client.
#[derive(Debug, Clone, Copy, PartialEq, Eq, Structural)]
pub enum PairStatus {
    NotPaired,
    Paired,
}

/// `suffix` ends `bytes`.
pub open spec fn ends_with(bytes: Seq<u8>, suffix: Seq<u8>) -> bool {
    suffix.is_suffix_of(bytes)
}

/// The state named at the end of a host's state string: `..._FREE` or `..._BUSY`.
pub open spec fn spec_server_state(bytes: Seq<u8>) -> Result<ServerState, ParseServerStateError> {
    if ends_with(bytes, seq![70u8, 82u8, 69u8, 69u8]) {
        Ok(ServerState::Free)
    } else if ends_with(bytes, seq![66u8, 85u8, 83u8, 89u8]) {
        Ok(ServerState::Busy)
    } else {
        Err(ParseServerStateError)
    }
}

fn bytes_end_with(bytes: &[u8], suffix: &[u8]) -> (res: bool)
    ensures
        res == ends_with(bytes@, suffix@),
{
    if suffix.len() > bytes.len() {
        return false;
    }
    let offset = bytes.len() - suffix.len();
    let mut i: usize = 0;
    while i < suffix.len()
        invariant
            offset + suffix@.len() == bytes@.len(),
            bytes@.len() <= usize::MAX,
            i <= suffix@.len(),
            forall|j: int| 0 <= j < i ==> suffix@[j] == bytes@[offset + j],
        decreases suffix@.len() - i,
    {
        if suffix[i] != bytes[offset + i] {
            assert(bytes@.subrange(offset as int, bytes@.len() as int)[i as int] != suffix@[i as int]);
            return false;
        }
        i = i + 1;
    }
    assert(suffix@ =~= bytes@.subrange(offset as int, bytes@.len() as int));
    true
}

impl ServerState {
    /// Reads the state a host reports, by the end of the string.
    pub fn from_str(s: &str) -> (res: Result<ServerState, ParseServerStateError>)
        ensures
            res == spec_server_state(s.spec_bytes()),
    {
        let bytes = s.as_bytes();
        let free: [u8; 4] = [70, 82, 69, 69];
        let busy: [u8; 4] = [66, 85, 83, 89];
        assert(free@ == seq![70u8, 82u8, 69u8, 69u8]);
        assert(busy@ == seq![66u8, 85u8, 83u8, 89u8]);
        if bytes_end_with(bytes, &free) {
            Ok(ServerState::Free)
        } else if bytes_end_with(bytes, &busy) {
            Ok(ServerState::Busy)
        } else {
            Err(ParseServerStateError)
        }
    }
}

/// A version string could not be read.
#[derive(Debug, Clone, Copy, PartialEq, Eq, Structural)]
pub enum ParseServerVersionError {
    ParseIntError(ParseIntError),
    InvalidPattern,
}

/// The version a host reports, four dot-separated integers.
#[derive(Debug, Clone, Copy, PartialEq, Eq, Structural)]
pub struct ServerVersion {
    pub major: i32,
    pub minor: i32,
    pub patch: i32,
    pub mini_patch: i32,
}

/// Piece `k` of a version string read as an `i32`.
pub open spec fn spec_version_part(parts: Seq<Seq<u8>>, k: int) -> Result<i32, ParseServerVersionError> {
    if k >= parts.len() {
        Err(ParseServerVersionError::InvalidPattern)
    } else {
        match spec_parse_i32(parts[k]) {
            Ok(v) => Ok(v as i32),
            Err(kind) => Err(ParseServerVersionError::ParseIntError(ParseIntError { kind })),
        }
    }
}

/// The version in `bytes`: at most four pieces split at dots, each read as an `i32` in
/// order, the first failure deciding the error.
pub open spec fn spec_server_version(bytes: Seq<u8>) -> Result<ServerVersion, ParseServerVersionError> {
    let parts = split_n(bytes, 4, 46);
    match spec_version_part(parts, 0) {
        Err(e) => Err(e),
        Ok(major) => match spec_version_part(parts, 1) {
            Err(e) => Err(e),
            Ok(minor) => match spec_version_part(parts, 2) {
                Err(e) => Err(e),
                Ok(patch) => match spec_version_part(parts, 3) {
                    Err(e) => Err(e),
                    Ok(mini_patch) => Ok(ServerVersion { major, minor, patch, mini_patch }),
                },
            },
        },
    }
}

/// The text of a version: its four numbers in decimal joined by dots.
pub open spec fn spec_version_text(v: ServerVersion) -> Seq<u8> {
    signed_decimal(v.major as int) + seq![46u8] + signed_decimal(v.minor as int) + seq![46u8]
        + signed_decimal(v.patch as int) + seq![46u8] + signed_decimal(v.mini_patch as int)
}

fn version_part(parts: &Vec<Vec<u8>>, k: usize) -> (res: Result<i32, ParseServerVersionError>)
    ensures
        res == spec_version_part(parts@.map_values(|v: Vec<u8>| v@), k as int),
{
    if k >= parts.len() {
        return Err(ParseServerVersionError::InvalidPattern);
    }
    match parse_i32_bytes(parts[k].as_slice()) {
        Ok(v) => Ok(v),
        Err(e) => Err(ParseServerVersionError::ParseIntError(e)),
    }
}

impl ServerVersion {
    /// Reads `major.minor.patch.mini_patch`.
    pub fn from_str(s: &str) -> (res: Result<ServerVersion, ParseServerVersionError>)
        ensures
            res == spec_server_version(s.spec_bytes()),
    {
        let parts = split_bytes(s.as_bytes(), 4, 46);
        let major = match version_part(&parts, 0) {
            Ok(v) => v,
            Err(e) => return Err(e),
        };
        let minor = match version_part(&parts, 1) {
            Ok(v) => v,
            Err(e) => return Err(e),
        };
        let patch = match version_part(&parts, 2) {
            Ok(v) => v,
            Err(e) => return Err(e),
        };
        let mini_patch = match version_part(&parts, 3) {
            Ok(v) => v,
            Err(e) => return Err(e),
        };
        Ok(ServerVersion { major, minor, patch, mini_patch })
    }

    /// The version as `major.minor.patch.mini_patch`.
    pub fn to_string(&self) -> (res: String)
        ensures
            res@ == ascii_chars(spec_version_text(*self)),
    {
        let mut out: Vec<u8> = Vec::new();
        push_signed_decimal(&mut out, self.major);
        out.push(46);
        push_signed_decimal(&mut out, self.minor);
        out.push(46);
        push_signed_decimal(&mut out, self.patch);
        out.push(46);
        push_signed_decimal(&mut out, self.mini_patch);
        assert(out@ =~= spec_version_text(*self));
        proof {
            lemma_version_text_ascii(*self);
        }
        ascii_string(out)
    }
}

/// The bytes of a signed decimal are ASCII: digits, after a `-` when negative.
pub proof fn lemma_signed_decimal_ascii(v: int)
    ensures
        all_ascii(signed_decimal(v)),
{
    if v < 0 {
        lemma_decimal_digits((-v) as nat);
        lemma_all_ascii_concat(seq![45u8], crate::text::decimal_digits((-v) as nat));
    } else {
        lemma_decimal_digits(v as nat);
    }
}

proof fn lemma_version_text_ascii(v: ServerVersion)
    ensures
        all_ascii(spec_version_text(v)),
{
    let dot = seq![46u8];
    lemma_signed_decimal_ascii(v.major as int);
    lemma_signed_decimal_ascii(v.minor as int);
    lemma_signed_decimal_ascii(v.patch as int);
    lemma_signed_decimal_ascii(v.mini_patch as int);
    let a = signed_decimal(v.major as int) + dot;
    lemma_all_ascii_concat(signed_decimal(v.major as int), dot);
    let b = a + signed_decimal(v.minor as int);
    lemma_all_ascii_concat(a, signed_decimal(v.minor as int));
    let c = b + dot;
    lemma_all_ascii_concat(b, dot);
    let d = c + signed_decimal(v.patch as int);
    lemma_all_ascii_concat(c, signed_decimal(v.patch as int));
    let e = d + dot;
    lemma_all_ascii_concat(d, dot);
    lemma_all_ascii_concat(e, signed_decimal(v.mini_patch as int));
}

#[verifier::external_type_specification]
#[verifier::external_body]
pub struct ExUuidError(uuid::Error);

/// The sixteen bytes of the UUID that `text` spells, as `uuid::Uuid::parse_str` reads it
/// (simple, hyphenated, URN or braced form); `None` when it spells none.
pub uninterp spec fn spec_parse_uuid(text: Seq<char>) -> Option<Seq<u8>>;

/// `uuid::Uuid::parse_str`, taking the UUID by its bytes.
#[verifier::external_body]
fn parse_uuid(text: &str) -> (res: Result<[u8; 16], uuid::Error>)
    ensures
        res is Ok <==> spec_parse_uuid(text@) is Some,
        res matches Ok(b) ==> spec_parse_uuid(text@) == Some(b@),
{
    uuid::Uuid::parse_str(text).map(|u| *u.as_bytes())
}

/// A result with the error taken by its view.
pub open spec fn plain_result<T, E>(r: Result<T, ApiError<E>>) -> Result<T, ApiErrorView<E>> {
    match r {
        Ok(v) => Ok(v),
        Err(e) => Err(e@),
    }
}

pub const TAG_STATE: &'static str = "state";
pub const TAG_HOSTNAME: &'static str = "hostname";
pub const TAG_APP_VERSION: &'static str = "appversion";
pub const TAG_GFE_VERSION: &'static str = "GfeVersion";
pub const TAG_UNIQUE_ID: &'static str = "uniqueid";
pub const TAG_HTTPS_PORT: &'static str = "HttpsPort";
pub const TAG_EXTERNAL_PORT: &'static str = "ExternalPort";
pub const TAG_MAX_LUMA_PIXELS_HEVC: &'static str = "MaxLumaPixelsHEVC";
pub const TAG_MAC: &'static str = "mac";
pub const TAG_LOCAL_IP: &'static str = "LocalIP";
pub const TAG_CODEC_MODE_SUPPORT: &'static str = "ServerCodecModeSupport";
pub const TAG_PAIR_STATUS: &'static str = "PairStatus";
pub const TAG_CURRENT_GAME: &'static str = "currentgame";

/// The child `name` read as an unsigned integer no greater than `max`.
pub open spec fn spec_child_unsigned<E>(nodes: Seq<XmlNodeView>, parent: int, name: &'static str, max: int) -> Result<int, ApiErrorView<E>> {
    match spec_child_text::<E>(nodes, parent, name) {
        Err(e) => Err(e),
        Ok(t) => match spec_parse_unsigned(encode_utf8(t), max) {
            Err(kind) => Err(ApiErrorView::ParseIntError(ParseIntError { kind })),
            Ok(v) => Ok(v),
        },
    }
}

/// A number with the error taken by its view.
pub open spec fn int_result<T: Integer, E>(r: Result<T, ApiError<E>>) -> Result<int, ApiErrorView<E>> {
    match r {
        Ok(v) => Ok(v as int),
        Err(e) => Err(e@),
    }
}

/// The text of the child `name` read as a `u32`.
pub fn xml_child_u32<E>(nodes: &Vec<XmlNode>, parent: usize, name: &'static str) -> (res: Result<u32, ApiError<E>>)
    ensures
        int_result(res) == spec_child_unsigned::<E>(nodes_view(nodes@), parent as int, name, u32::MAX as int),
{
    let t = match xml_child_text::<E>(nodes, parent, name) {
        Ok(t) => t,
        Err(e) => return Err(e),
    };
    match parse_u32(t.as_str()) {
        Ok(v) => Ok(v),
        Err(e) => Err(ApiError::ParseIntError(e)),
    }
}

/// The text of the child `name` read as a `u16`.
pub fn xml_child_u16<E>(nodes: &Vec<XmlNode>, parent: usize, name: &'static str) -> (res: Result<u16, ApiError<E>>)
    ensures
        int_result(res) == spec_child_unsigned::<E>(nodes_view(nodes@), parent as int, name, u16::MAX as int),
{
    let t = match xml_child_text::<E>(nodes, parent, name) {
        Ok(t) => t,
        Err(e) => return Err(e),
    };
    match parse_u16(t.as_str()) {
        Ok(v) => Ok(v),
        Err(e) => Err(ApiError::ParseIntError(e)),
    }
}

/// What a host tells about itself.
#[derive(Debug, Clone)]
pub struct HostInfo {
    pub host_name: String,
    pub app_version: ServerVersion,
    pub gfe_version: String,
    pub unique_id: [u8; 16],
    pub https_port: u16,
    pub external_port: u16,
    pub max_luma_pixels_hevc: u32,
    pub mac: String,
    pub local_ip: String,
    pub server_codec_mode_support: ServerCodeModeSupport,
    pub pair_status: PairStatus,
    pub current_game: u32,
    pub state_string: String,
    pub state: ServerState,
}

/// What a host tells about itself, its texts taken by their characters.
pub struct HostInfoView {
    pub host_name: Seq<char>,
    pub app_version: ServerVersion,
    pub gfe_version: Seq<char>,
    pub unique_id: Seq<u8>,
    pub https_port: u16,
    pub external_port: u16,
    pub max_luma_pixels_hevc: u32,
    pub mac: Seq<char>,
    pub local_ip: Seq<char>,
    pub server_codec_mode_support: ServerCodeModeSupport,
    pub pair_status: PairStatus,
    pub current_game: u32,
    pub state_string: Seq<char>,
    pub state: ServerState,
}

impl View for HostInfo {
    type V = HostInfoView;

    open spec fn view(&self) -> HostInfoView {
        HostInfoView {
            host_name: self.host_name@,
            app_version: self.app_version,
            gfe_version: self.gfe_version@,
            unique_id: self.unique_id@,
            https_port: self.https_port,
            external_port: self.external_port,
            max_luma_pixels_hevc: self.max_luma_pixels_hevc,
            mac: self.mac@,
            local_ip: self.local_ip@,
            server_codec_mode_support: self.server_codec_mode_support,
            pair_status: self.pair_status,
            current_game: self.current_game,
            state_string: self.state_string@,
            state: self.state,
        }
    }
}

/// A result with the value and the error taken by their views.
pub open spec fn view_result<T: View, E>(r: Result<T, ApiError<E>>) -> Result<T::V, ApiErrorView<E>> {
    match r {
        Ok(v) => Ok(v@),
        Err(e) => Err(e@),
    }
}

/// What a host's `serverinfo` answer says, read field by field in the order `state`,
/// `hostname`, `appversion`, `GfeVersion`, `uniqueid`, `HttpsPort`, `ExternalPort`,
/// `MaxLumaPixelsHEVC`, `mac`, `LocalIP`, `ServerCodecModeSupport`, `PairStatus`,
/// `currentgame`, and finally the state named by `state`; the first failure is the answer.
pub open spec fn spec_host_info<E>(nodes: Seq<XmlNodeView>) -> Result<HostInfoView, ApiErrorView<E>> {
    match spec_root_node::<E>(nodes) {
        Err(e) => Err(e),
        Ok(root) => match spec_child_text::<E>(nodes, root, TAG_STATE) {
            Err(e) => Err(e),
            Ok(state_string) => match spec_child_text::<E>(nodes, root, TAG_HOSTNAME) {
                Err(e) => Err(e),
                Ok(host_name) => match spec_child_text::<E>(nodes, root, TAG_APP_VERSION) {
                    Err(e) => Err(e),
                    Ok(app_version_text) => match spec_server_version(encode_utf8(app_version_text)) {
                        Err(e) => Err(ApiErrorView::ParseServerVersionError(e)),
                        Ok(app_version) => spec_host_info_rest::<E>(nodes, root, state_string, host_name, app_version),
                    },
                },
            },
        },
    }
}

/// The fields of a `serverinfo` answer from `GfeVersion` on.
pub open spec fn spec_host_info_rest<E>(
    nodes: Seq<XmlNodeView>,
    root: int,
    state_string: Seq<char>,
    host_name: Seq<char>,
    app_version: ServerVersion,
) -> Result<HostInfoView, ApiErrorView<E>> {
    match spec_child_text::<E>(nodes, root, TAG_GFE_VERSION) {
        Err(e) => Err(e),
        Ok(gfe_version) => match spec_child_text::<E>(nodes, root, TAG_UNIQUE_ID) {
            Err(e) => Err(e),
            Ok(unique_id_text) => match spec_parse_uuid(unique_id_text) {
                None => Err(ApiErrorView::ParseUuidError),
                Some(unique_id) => match spec_child_unsigned::<E>(nodes, root, TAG_HTTPS_PORT, u16::MAX as int) {
                    Err(e) => Err(e),
                    Ok(https_port) => match spec_child_unsigned::<E>(nodes, root, TAG_EXTERNAL_PORT, u16::MAX as int) {
                        Err(e) => Err(e),
                        Ok(external_port) => match spec_child_unsigned::<E>(nodes, root, TAG_MAX_LUMA_PIXELS_HEVC, u32::MAX as int) {
                            Err(e) => Err(e),
                            Ok(max_luma) => spec_host_info_tail::<E>(
                                nodes,
                                root,
                                HostInfoView {
                                    host_name,
                                    app_version,
                                    gfe_version,
                                    unique_id,
                                    https_port: https_port as u16,
                                    external_port: external_port as u16,
                                    max_luma_pixels_hevc: max_luma as u32,
                                    mac: Seq::empty(),
                                    local_ip: Seq::empty(),
                                    server_codec_mode_support: ServerCodeModeSupport { bits: 0 },
                                    pair_status: PairStatus::NotPaired,
                                    current_game: 0,
                                    state_string,
                                    state: ServerState::Busy,
                                },
                            ),
                        },
                    },
                },
            },
        },
    }
}

/// The fields of a `serverinfo` answer from `mac` on, filled into `head`.
pub open spec fn spec_host_info_tail<E>(nodes: Seq<XmlNodeView>, root: int, head: HostInfoView) -> Result<HostInfoView, ApiErrorView<E>> {
    match spec_child_text::<E>(nodes, root, TAG_MAC) {
        Err(e) => Err(e),
        Ok(mac) => match spec_child_text::<E>(nodes, root, TAG_LOCAL_IP) {
            Err(e) => Err(e),
            Ok(local_ip) => match spec_child_unsigned::<E>(nodes, root, TAG_CODEC_MODE_SUPPORT, u32::MAX as int) {
                Err(e) => Err(e),
                Ok(codec_bits) => if (codec_bits as u32) & !ServerCodeModeSupport::ALL != 0 {
                    Err(ApiErrorView::ParseServerCodecModeSupport)
                } else {
                    match spec_child_unsigned::<E>(nodes, root, TAG_PAIR_STATUS, u32::MAX as int) {
                        Err(e) => Err(e),
                        Ok(pair) => match spec_child_unsigned::<E>(nodes, root, TAG_CURRENT_GAME, u32::MAX as int) {
                            Err(e) => Err(e),
                            Ok(current_game) => match spec_server_state(encode_utf8(head.state_string)) {
                                Err(e) => Err(ApiErrorView::ParseServerStateError(e)),
                                Ok(state) => Ok(
                                    HostInfoView {
                                        mac,
                                        local_ip,
                                        server_codec_mode_support: ServerCodeModeSupport { bits: codec_bits as u32 },
                                        pair_status: if pair == 0 {
                                            PairStatus::NotPaired
                                        } else {
                                            PairStatus::Paired
                                        },
                                        current_game: current_game as u32,
                                        state,
                                        ..head
                                    },
                                ),
                            },
                        },
                    }
                },
            },
        },
    }
}

/// The pairing status a host reports: when its `serverinfo` answer is read, the client is
/// not paired exactly when the text of `PairStatus` reads as the number 0; any other number
/// means paired.
pub proof fn law_host_info_pair_status<E>(nodes: Seq<XmlNodeView>)
    ensures
        spec_host_info::<E>(nodes) matches Ok(info) ==> (spec_root_node::<E>(nodes) matches Ok(root)
            && spec_child_text::<E>(nodes, root, TAG_PAIR_STATUS) matches Ok(t)
            && spec_parse_unsigned(encode_utf8(t), u32::MAX as int) matches Ok(v)
            && (info.pair_status == PairStatus::NotPaired <==> v == 0)
            && (info.pair_status == PairStatus::Paired <==> v != 0)),
{
}

/// Reads what a host tells about itself from the nodes of its `serverinfo` answer.
pub fn host_info_from_nodes<E>(nodes: &Vec<XmlNode>) -> (res: Result<HostInfo, ApiError<E>>)
    ensures
        view_result(res) == spec_host_info::<E>(nodes_view(nodes@)),
{
    let root = match xml_root_node::<E>(nodes) {
        Ok(r) => r,
        Err(e) => return Err(e),
    };
    let state_string = match xml_child_text::<E>(nodes, root, TAG_STATE) {
        Ok(t) => t,
        Err(e) => return Err(e),
    };
    let host_name = match xml_child_text::<E>(nodes, root, TAG_HOSTNAME) {
        Ok(t) => t,
        Err(e) => return Err(e),
    };
    let app_version_text = match xml_child_text::<E>(nodes, root, TAG_APP_VERSION) {
        Ok(t) => t,
        Err(e) => return Err(e),
    };
    let app_version = match ServerVersion::from_str(app_version_text.as_str()) {
        Ok(v) => v,
        Err(e) => return Err(ApiError::ParseServerVersionError(e)),
    };
    let gfe_version = match xml_child_text::<E>(nodes, root, TAG_GFE_VERSION) {
        Ok(t) => t,
        Err(e) => return Err(e),
    };
    let unique_id_text = match xml_child_text::<E>(nodes, root, TAG_UNIQUE_ID) {
        Ok(t) => t,
        Err(e) => return Err(e),
    };
    let unique_id = match parse_uuid(unique_id_text.as_str()) {
        Ok(b) => b,
        Err(_) => return Err(ApiError::ParseUuidError),
    };
    let https_port = match xml_child_u16::<E>(nodes, root, TAG_HTTPS_PORT) {
        Ok(v) => v,
        Err(e) => return Err(e),
    };
    let external_port = match xml_child_u16::<E>(nodes, root, TAG_EXTERNAL_PORT) {
        Ok(v) => v,
        Err(e) => return Err(e),
    };
    let max_luma_pixels_hevc = match xml_child_u32::<E>(nodes, root, TAG_MAX_LUMA_PIXELS_HEVC) {
        Ok(v) => v,
        Err(e) => return Err(e),
    };
    let mac = match xml_child_text::<E>(nodes, root, TAG_MAC) {
        Ok(t) => t,
        Err(e) => return Err(e),
    };
    let local_ip = match xml_child_text::<E>(nodes, root, TAG_LOCAL_IP) {
        Ok(t) => t,
        Err(e) => return Err(e),
    };
    let codec_bits = match xml_child_u32::<E>(nodes, root, TAG_CODEC_MODE_SUPPORT) {
        Ok(v) => v,
        Err(e) => return Err(e),
    };
    let server_codec_mode_support = match ServerCodeModeSupport::from_bits(codec_bits) {
        Some(s) => s,
        None => return Err(ApiError::ParseServerCodecModeSupport),
    };
    let pair = match xml_child_u32::<E>(nodes, root, TAG_PAIR_STATUS) {
        Ok(v) => v,
        Err(e) => return Err(e),
    };
    let current_game = match xml_child_u32::<E>(nodes, root, TAG_CURRENT_GAME) {
        Ok(v) => v,
        Err(e) => return Err(e),
    };
    let state = match ServerState::from_str(state_string.as_str()) {
        Ok(s) => s,
        Err(e) => return Err(ApiError::ParseServerStateError(e)),
    };
    Ok(HostInfo {
        host_name,
        app_version,
        gfe_version,
        unique_id,
        https_port,
        external_port,
        max_luma_pixels_hevc,
        mac,
        local_ip,
        server_codec_mode_support,
        pair_status: if pair == 0 {
            PairStatus::NotPaired
        } else {
            PairStatus::Paired
        },
        current_game,
        state_string,
        state,
    })
}

/// Reads a host's `serverinfo` answer.
pub fn parse_host_info<E>(response: &str) -> (res: Result<HostInfo, ApiError<E>>)
    ensures
        match spec_parse_xml(response@) {
            None => view_result(res) == Err::<HostInfoView, ApiErrorView<E>>(ApiErrorView::ParseXmlError),
            Some(nodes) => view_result(res) == spec_host_info::<E>(nodes),
        },
{
    match parse_document::<E>(response) {
        Err(e) => Err(e),
        Ok(nodes) => host_info_from_nodes(&nodes),
    }
}

/// The unique id every client sends unless told otherwise, so that a client can quit a game
/// another client started.
pub const DEFAULT_UNIQUE_ID: &'static str = "0123456789ABCDEF";

/// Query parameters by their characters.
pub open spec fn params_view(params: Seq<(String, String)>) -> Seq<(Seq<char>, Seq<char>)> {
    params.map_values(|kv: (String, String)| (kv.0@, kv.1@))
}

/// Appends the query parameter `name=value`.
pub fn push_param(params: &mut Vec<(String, String)>, name: &str, value: String)
    ensures
        params_view(final(params)@) == params_view(old(params)@).push((name@, value@)),
{
    let ghost before = params@;
    let key = name.to_owned();
    let ghost kv = (key, value);
    params.push((key, value));
    assert(params@ =~= before.push(kv));
    assert(params_view(params@) =~= params_view(before).push((name@, kv.1@)));
}

/// Appends the query parameter `name=value` for a literal value.
pub fn push_param_str(params: &mut Vec<(String, String)>, name: &str, value: &str)
    ensures
        params_view(final(params)@) == params_view(old(params)@).push((name@, value@)),
{
    push_param(params, name, value.to_owned());
}

/// The text form of a UUID: lower-case hexadecimal in groups of 8, 4, 4, 4 and 12 digits
/// joined by hyphens.
pub open spec fn spec_uuid_hyphenated(b: Seq<u8>) -> Seq<u8> {
    spec_hex_lower(b.subrange(0, 4)) + seq![45u8] + spec_hex_lower(b.subrange(4, 6)) + seq![45u8]
        + spec_hex_lower(b.subrange(6, 8)) + seq![45u8] + spec_hex_lower(b.subrange(8, 10)) + seq![45u8]
        + spec_hex_lower(b.subrange(10, 16))
}

proof fn lemma_uuid_hyphenated_ascii(b: Seq<u8>)
    ensures
        all_ascii(spec_uuid_hyphenated(b)),
{
    let dash = seq![45u8];
    lemma_hex_lower_ascii(b.subrange(0, 4));
    lemma_hex_lower_ascii(b.subrange(4, 6));
    lemma_hex_lower_ascii(b.subrange(6, 8));
    lemma_hex_lower_ascii(b.subrange(8, 10));
    lemma_hex_lower_ascii(b.subrange(10, 16));
    let a = spec_hex_lower(b.subrange(0, 4)) + dash;
    lemma_all_ascii_concat(spec_hex_lower(b.subrange(0, 4)), dash);
    let c = a + spec_hex_lower(b.subrange(4, 6));
    lemma_all_ascii_concat(a, spec_hex_lower(b.subrange(4, 6)));
    let d = c + dash;
    lemma_all_ascii_concat(c, dash);
    let e = d + spec_hex_lower(b.subrange(6, 8));
    lemma_all_ascii_concat(d, spec_hex_lower(b.subrange(6, 8)));
    let f = e + dash;
    lemma_all_ascii_concat(e, dash);
    let g = f + spec_hex_lower(b.subrange(8, 10));
    lemma_all_ascii_concat(f, spec_hex_lower(b.subrange(8, 10)));
    let h = g + dash;
    lemma_all_ascii_concat(g, dash);
    lemma_all_ascii_concat(h, spec_hex_lower(b.subrange(10, 16)));
}

/// The hyphenated lower-case text of a UUID.
pub fn uuid_hyphenated(uuid: [u8; 16]) -> (res: String)
    ensures
        res@ == ascii_chars(spec_uuid_hyphenated(uuid@)),
{
    let mut out: Vec<u8> = Vec::new();
    push_hex_lower(&mut out, &uuid, 0, 4);
    out.push(45);
    push_hex_lower(&mut out, &uuid, 4, 6);
    out.push(45);
    push_hex_lower(&mut out, &uuid, 6, 8);
    out.push(45);
    push_hex_lower(&mut out, &uuid, 8, 10);
    out.push(45);
    push_hex_lower(&mut out, &uuid, 10, 16);
    assert(out@ =~= spec_uuid_hyphenated(uuid@));
    proof {
        lemma_uuid_hyphenated_ascii(uuid@);
    }
    ascii_string(out)
}

/// A random version-4 UUID, as `uuid::Uuid::new_v4` makes one: random bytes whose version
/// nibble is 4 and whose variant bits are `10`.
#[verifier::external_body]
fn new_uuid_v4() -> (res: [u8; 16])
    ensures
        res[6] / 16 == 4,
        res[8] / 64 == 2,
{
    *uuid::Uuid::new_v4().as_bytes()
}

/// Who the client is to a host.
#[derive(Debug, Clone)]
pub struct ClientInfo {
    /// The same id for all clients is recommended, so that one can quit games another started.
    pub unique_id: String,
    pub uuid: [u8; 16],
}

/// The query parameters that identify a client.
pub open spec fn spec_info_params(unique_id: Seq<char>, uuid: Seq<u8>) -> Seq<(Seq<char>, Seq<char>)> {
    seq![("uniqueid"@, unique_id), ("uuid"@, ascii_chars(spec_uuid_hyphenated(uuid)))]
}

impl ClientInfo {
    /// The default unique id and a fresh random UUID.
    pub fn new_default() -> (res: ClientInfo)
        ensures
            res.unique_id@ == DEFAULT_UNIQUE_ID@,
            res.uuid[6] / 16 == 4,
            res.uuid[8] / 64 == 2,
    {
        ClientInfo { unique_id: DEFAULT_UNIQUE_ID.to_owned(), uuid: new_uuid_v4() }
    }

    /// Appends the query parameters that identify the client.
    pub fn add_query_params(&self, params: &mut Vec<(String, String)>)
        ensures
            params_view(final(params)@) == params_view(old(params)@) + spec_info_params(
                self.unique_id@,
                self.uuid@,
            ),
    {
        let ghost before = params_view(params@);
        push_param(params, "uniqueid", self.unique_id.clone());
        let uuid = uuid_hyphenated(self.uuid);
        push_param(params, "uuid", uuid);
        assert(params_view(params@) =~= before + spec_info_params(self.unique_id@, self.uuid@));
    }

    /// The query parameters that identify the client, alone.
    pub fn query_params(&self) -> (res: Vec<(String, String)>)
        ensures
            params_view(res@) == spec_info_params(self.unique_id@, self.uuid@),
    {
        let mut params: Vec<(String, String)> = Vec::new();
        assert(params_view(params@) =~= Seq::empty());
        self.add_query_params(&mut params);
        assert(params_view(params@) =~= spec_info_params(self.unique_id@, self.uuid@));
        params
    }
}

/// The first pairing request: the salt and the client's certificate.
#[derive(Debug, Clone)]
pub struct ClientPairRequest1 {
    pub device_name: String,
    pub salt: [u8; SALT_LENGTH],
    pub client_cert_pem: Vec<u8>,
}

/// The second pairing request: the client's encrypted challenge.
#[derive(Debug, Clone)]
pub struct ClientPairRequest2 {
    pub device_name: String,
    pub encrypted_challenge: Vec<u8>,
}

/// The third pairing request: the encrypted hash of the client's answer to the host.
#[derive(Debug, Clone)]
pub struct ClientPairRequest3 {
    pub device_name: String,
    pub encrypted_challenge_response_hash: Vec<u8>,
}

/// The fourth pairing request: the client's secret and its signature.
#[derive(Debug, Clone)]
pub struct ClientPairRequest4 {
    pub device_name: String,
    pub client_pairing_secret: Vec<u8>,
}

/// The last pairing request.
#[derive(Debug, Clone)]
pub struct ClientPairRequest5 {
    pub device_name: String,
}

/// The host's answer to the first pairing request.
#[derive(Debug, Clone)]
pub struct HostPairResponse1 {
    pub paired: PairStatus,
    pub cert: Option<String>,
}

/// The host's answer to the second pairing request.
#[derive(Debug, Clone)]
pub struct HostPairResponse2 {
    pub paired: PairStatus,
    pub encrypted_response: Vec<u8>,
}

/// The host's answer to the third pairing request.
#[derive(Debug, Clone)]
pub struct HostPairResponse3 {
    pub paired: PairStatus,
    pub server_pairing_secret: Vec<u8>,
}

/// The host's answer to the fourth pairing request.
#[derive(Debug, Clone, Copy, PartialEq, Eq, Structural)]
pub struct HostPairResponse4 {
    pub paired: PairStatus,
}

/// The host's answer to the last pairing request.
#[derive(Debug, Clone, Copy, PartialEq, Eq, Structural)]
pub struct ServerPairResponse5 {
    pub paired: PairStatus,
}

/// The query of the first pairing request.
pub open spec fn spec_pair1_params(info: ClientInfo, request: ClientPairRequest1) -> Seq<(Seq<char>, Seq<char>)> {
    spec_info_params(info.unique_id@, info.uuid@) + seq![
        ("devicename"@, request.device_name@),
        ("updateState"@, "1"@),
        ("phrase"@, "getservercert"@),
        ("salt"@, ascii_chars(spec_hex_upper(request.salt@))),
        ("clientcert"@, ascii_chars(spec_hex_upper(request.client_cert_pem@))),
    ]
}

/// The query of the first pairing request.
pub fn pair1_query(info: &ClientInfo, request: &ClientPairRequest1) -> (res: Vec<(String, String)>)
    requires
        request.client_cert_pem@.len() <= usize::MAX / 2,
    ensures
        params_view(res@) == spec_pair1_params(*info, *request),
{
    let mut params = info.query_params();
    let ghost base = params_view(params@);
    push_param(&mut params, "devicename", request.device_name.clone());
    push_param_str(&mut params, "updateState", "1");
    push_param_str(&mut params, "phrase", "getservercert");
    push_param(&mut params, "salt", encode_upper(&request.salt));
    push_param(&mut params, "clientcert", encode_upper(request.client_cert_pem.as_slice()));
    assert(params_view(params@) =~= spec_pair1_params(*info, *request));
    params
}

/// The query of a pairing request that sends the device name and one hexadecimal value.
pub open spec fn spec_pair_value_params(info: ClientInfo, device_name: Seq<char>, name: Seq<char>, value: Seq<u8>) -> Seq<(Seq<char>, Seq<char>)> {
    spec_info_params(info.unique_id@, info.uuid@) + seq![
        ("devicename"@, device_name),
        ("updateState"@, "1"@),
        (name, ascii_chars(spec_hex_upper(value))),
    ]
}

fn pair_value_query(info: &ClientInfo, device_name: &String, name: &str, value: &[u8]) -> (res: Vec<(String, String)>)
    requires
        value@.len() <= usize::MAX / 2,
    ensures
        params_view(res@) == spec_pair_value_params(*info, device_name@, name@, value@),
{
    let mut params = info.query_params();
    push_param(&mut params, "devicename", device_name.clone());
    push_param_str(&mut params, "updateState", "1");
    push_param(&mut params, name, encode_upper(value));
    assert(params_view(params@) =~= spec_pair_value_params(*info, device_name@, name@, value@));
    params
}

/// The query of the second pairing request.
pub fn pair2_query(info: &ClientInfo, request: &ClientPairRequest2) -> (res: Vec<(String, String)>)
    requires
        request.encrypted_challenge@.len() <= usize::MAX / 2,
    ensures
        params_view(res@) == spec_pair_value_params(*info, request.device_name@, "clientchallenge"@, request.encrypted_challenge@),
{
    pair_value_query(info, &request.device_name, "clientchallenge", request.encrypted_challenge.as_slice())
}

/// The query of the third pairing request.
pub fn pair3_query(info: &ClientInfo, request: &ClientPairRequest3) -> (res: Vec<(String, String)>)
    requires
        request.encrypted_challenge_response_hash@.len() <= usize::MAX / 2,
    ensures
        params_view(res@) == spec_pair_value_params(
            *info,
            request.device_name@,
            "serverchallengeresp"@,
            request.encrypted_challenge_response_hash@,
        ),
{
    pair_value_query(info, &request.device_name, "serverchallengeresp", request.encrypted_challenge_response_hash.as_slice())
}

/// The query of the fourth pairing request.
pub fn pair4_query(info: &ClientInfo, request: &ClientPairRequest4) -> (res: Vec<(String, String)>)
    requires
        request.client_pairing_secret@.len() <= usize::MAX / 2,
    ensures
        params_view(res@) == spec_pair_value_params(
            *info,
            request.device_name@,
            "clientpairingsecret"@,
            request.client_pairing_secret@,
        ),
{
    pair_value_query(info, &request.device_name, "clientpairingsecret", request.client_pairing_secret.as_slice())
}

/// The query of the last pairing request.
pub open spec fn spec_pair5_params(info: ClientInfo, request: ClientPairRequest5) -> Seq<(Seq<char>, Seq<char>)> {
    spec_info_params(info.unique_id@, info.uuid@) + seq![
        ("phrase"@, "pairchallenge"@),
        ("devicename"@, request.device_name@),
        ("updateState"@, "1"@),
    ]
}

/// The query of the last pairing request.
pub fn pair5_query(info: &ClientInfo, request: &ClientPairRequest5) -> (res: Vec<(String, String)>)
    ensures
        params_view(res@) == spec_pair5_params(*info, *request),
{
    let mut params = info.query_params();
    push_param_str(&mut params, "phrase", "pairchallenge");
    push_param(&mut params, "devicename", request.device_name.clone());
    push_param_str(&mut params, "updateState", "1");
    assert(params_view(params@) =~= spec_pair5_params(*info, *request));
    params
}

pub const TAG_PAIRED: &'static str = "paired";
pub const TAG_PLAIN_CERT: &'static str = "plaincert";
pub const TAG_CHALLENGE_RESPONSE: &'static str = "challengeresponse";
pub const TAG_PAIRING_SECRET: &'static str = "pairingsecret";

/// The text of the child `name`, read as hexadecimal bytes.
pub open spec fn spec_child_hex<E>(nodes: Seq<XmlNodeView>, parent: int, name: &'static str) -> Result<Seq<u8>, ApiErrorView<E>> {
    match spec_child_text::<E>(nodes, parent, name) {
        Err(e) => Err(e),
        Ok(t) => match spec_hex_decode(encode_utf8(t)) {
            Err(e) => Err(ApiErrorView::ParseHexError(e)),
            Ok(b) => Ok(b),
        },
    }
}

/// Bytes with the error taken by its view.
pub open spec fn bytes_result<E>(r: Result<Vec<u8>, ApiError<E>>) -> Result<Seq<u8>, ApiErrorView<E>> {
    match r {
        Ok(v) => Ok(v@),
        Err(e) => Err(e@),
    }
}

/// The text of the child `name`, read as hexadecimal bytes.
pub fn xml_child_hex<E>(nodes: &Vec<XmlNode>, parent: usize, name: &'static str) -> (res: Result<Vec<u8>, ApiError<E>>)
    ensures
        bytes_result(res) == spec_child_hex::<E>(nodes_view(nodes@), parent as int, name),
{
    let t = match xml_child_text::<E>(nodes, parent, name) {
        Ok(t) => t,
        Err(e) => return Err(e),
    };
    match decode(t.as_str()) {
        Ok(b) => Ok(b),
        Err(e) => Err(ApiError::ParseHexError(e)),
    }
}

/// The host's certificate in an answer to the first pairing request: absent when the
/// answer has no `plaincert`, else hexadecimal UTF-8 text.
pub open spec fn spec_plain_cert<E>(nodes: Seq<XmlNodeView>, root: int) -> Result<Option<Seq<char>>, ApiErrorView<E>> {
    match spec_child_hex::<E>(nodes, root, TAG_PLAIN_CERT) {
        Err(ApiErrorView::DetailNotFound(_)) => Ok(None),
        Err(e) => Err(e),
        Ok(b) => if valid_utf8(b) {
            Ok(Some(decode_utf8(b)))
        } else {
            Err(ApiErrorView::Utf8Error)
        },
    }
}

/// The host's answer to the first pairing request.
pub open spec fn spec_pair1_response<E>(nodes: Seq<XmlNodeView>) -> Result<(PairStatus, Option<Seq<char>>), ApiErrorView<E>> {
    match spec_root_node::<E>(nodes) {
        Err(e) => Err(e),
        Ok(root) => match spec_child_paired::<E>(nodes, root, TAG_PAIRED) {
            Err(e) => Err(e),
            Ok(paired) => match spec_plain_cert::<E>(nodes, root) {
                Err(e) => Err(e),
                Ok(cert) => Ok((paired, cert)),
            },
        },
    }
}

/// The answer to the first pairing request by its characters.
pub open spec fn pair1_result<E>(r: Result<HostPairResponse1, ApiError<E>>) -> Result<(PairStatus, Option<Seq<char>>), ApiErrorView<E>> {
    match r {
        Ok(v) => Ok((v.paired, v.cert.deep_view())),
        Err(e) => Err(e@),
    }
}

/// Reads the host's answer to the first pairing request.
pub fn host_pair1_response<E>(nodes: &Vec<XmlNode>) -> (res: Result<HostPairResponse1, ApiError<E>>)
    ensures
        pair1_result(res) == spec_pair1_response::<E>(nodes_view(nodes@)),
{
    let root = match xml_root_node::<E>(nodes) {
        Ok(r) => r,
        Err(e) => return Err(e),
    };
    let paired = match xml_child_paired::<E>(nodes, root, TAG_PAIRED) {
        Ok(p) => p,
        Err(e) => return Err(e),
    };
    let cert = match xml_child_hex::<E>(nodes, root, TAG_PLAIN_CERT) {
        Err(ApiError::DetailNotFound(n)) => None,
        Err(e) => return Err(e),
        Ok(bytes) => match string_from_utf8(bytes) {
            Some(text) => Some(text),
            None => return Err(ApiError::Utf8Error),
        },
    };
    Ok(HostPairResponse1 { paired, cert })
}

/// The host's answer to a pairing request that carries hexadecimal bytes in `name`.
pub open spec fn spec_pair_bytes_response<E>(nodes: Seq<XmlNodeView>, name: &'static str) -> Result<(PairStatus, Seq<u8>), ApiErrorView<E>> {
    match spec_root_node::<E>(nodes) {
        Err(e) => Err(e),
        Ok(root) => match spec_child_paired::<E>(nodes, root, TAG_PAIRED) {
            Err(e) => Err(e),
            Ok(paired) => match spec_child_hex::<E>(nodes, root, name) {
                Err(e) => Err(e),
                Ok(b) => Ok((paired, b)),
            },
        },
    }
}

/// The answer to the second pairing request by its bytes.
pub open spec fn pair2_result<E>(r: Result<HostPairResponse2, ApiError<E>>) -> Result<(PairStatus, Seq<u8>), ApiErrorView<E>> {
    match r {
        Ok(v) => Ok((v.paired, v.encrypted_response@)),
        Err(e) => Err(e@),
    }
}

/// The answer to the third pairing request by its bytes.
pub open spec fn pair3_result<E>(r: Result<HostPairResponse3, ApiError<E>>) -> Result<(PairStatus, Seq<u8>), ApiErrorView<E>> {
    match r {
        Ok(v) => Ok((v.paired, v.server_pairing_secret@)),
        Err(e) => Err(e@),
    }
}

fn pair_bytes_response<E>(nodes: &Vec<XmlNode>, name: &'static str) -> (res: Result<(PairStatus, Vec<u8>), ApiError<E>>)
    ensures
        match res {
            Ok((p, b)) => spec_pair_bytes_response::<E>(nodes_view(nodes@), name) == Ok::<(PairStatus, Seq<u8>), ApiErrorView<E>>((p, b@)),
            Err(e) => spec_pair_bytes_response::<E>(nodes_view(nodes@), name) == Err::<(PairStatus, Seq<u8>), ApiErrorView<E>>(e@),
        },
{
    let root = match xml_root_node::<E>(nodes) {
        Ok(r) => r,
        Err(e) => return Err(e),
    };
    let paired = match xml_child_paired::<E>(nodes, root, TAG_PAIRED) {
        Ok(p) => p,
        Err(e) => return Err(e),
    };
    match xml_child_hex::<E>(nodes, root, name) {
        Ok(b) => Ok((paired, b)),
        Err(e) => Err(e),
    }
}

/// Reads the host's answer to the second pairing request.
pub fn host_pair2_response<E>(nodes: &Vec<XmlNode>) -> (res: Result<HostPairResponse2, ApiError<E>>)
    ensures
        pair2_result(res) == spec_pair_bytes_response::<E>(nodes_view(nodes@), TAG_CHALLENGE_RESPONSE),
{
    match pair_bytes_response::<E>(nodes, TAG_CHALLENGE_RESPONSE) {
        Ok((paired, encrypted_response)) => Ok(HostPairResponse2 { paired, encrypted_response }),
        Err(e) => Err(e),
    }
}

/// Reads the host's answer to the third pairing request.
pub fn host_pair3_response<E>(nodes: &Vec<XmlNode>) -> (res: Result<HostPairResponse3, ApiError<E>>)
    ensures
        pair3_result(res) == spec_pair_bytes_response::<E>(nodes_view(nodes@), TAG_PAIRING_SECRET),
{
    match pair_bytes_response::<E>(nodes, TAG_PAIRING_SECRET) {
        Ok((paired, server_pairing_secret)) => Ok(HostPairResponse3 { paired, server_pairing_secret }),
        Err(e) => Err(e),
    }
}

/// The host's answer that carries only whether the client is paired.
pub open spec fn spec_pair_status_response<E>(nodes: Seq<XmlNodeView>) -> Result<PairStatus, ApiErrorView<E>> {
    match spec_root_node::<E>(nodes) {
        Err(e) => Err(e),
        Ok(root) => spec_child_paired::<E>(nodes, root, TAG_PAIRED),
    }
}

fn pair_status_response<E>(nodes: &Vec<XmlNode>) -> (res: Result<PairStatus, ApiError<E>>)
    ensures
        paired_result(res) == spec_pair_status_response::<E>(nodes_view(nodes@)),
{
    let root = match xml_root_node::<E>(nodes) {
        Ok(r) => r,
        Err(e) => return Err(e),
    };
    xml_child_paired::<E>(nodes, root, TAG_PAIRED)
}

/// Reads the host's answer to the fourth pairing request.
pub fn host_pair4_response<E>(nodes: &Vec<XmlNode>) -> (res: Result<HostPairResponse4, ApiError<E>>)
    ensures
        plain_result(res) == (match spec_pair_status_response::<E>(nodes_view(nodes@)) {
            Ok(paired) => Ok(HostPairResponse4 { paired }),
            Err(e) => Err(e),
        }),
{
    match pair_status_response::<E>(nodes) {
        Ok(paired) => Ok(HostPairResponse4 { paired }),
        Err(e) => Err(e),
    }
}

/// Reads the host's answer to the last pairing request.
pub fn host_pair5_response<E>(nodes: &Vec<XmlNode>) -> (res: Result<ServerPairResponse5, ApiError<E>>)
    ensures
        plain_result(res) == (match spec_pair_status_response::<E>(nodes_view(nodes@)) {
            Ok(paired) => Ok(ServerPairResponse5 { paired }),
            Err(e) => Err(e),
        }),
{
    match pair_status_response::<E>(nodes) {
        Ok(paired) => Ok(ServerPairResponse5 { paired }),
        Err(e) => Err(e),
    }
}

/// The length of a pairing challenge.
pub const CHALLENGE_LENGTH: usize = 16;

/// The opening request of the two-request pairing exchange: the salt and a short client
/// certificate, sent as lower-case hexadecimal.
#[derive(Debug, Clone)]
pub struct ClientPairRequest {
    pub device_name: String,
    pub salt: [u8; SALT_LENGTH],
    pub client_cert_pem: [u8; 16],
}

/// The host's answer to it: whether the client is paired, and the host's certificate as text.
#[derive(Debug, Clone)]
pub struct HostPairResponse {
    pub paired: PairStatus,
    pub cert: Option<String>,
}

/// The challenge request of the two-request pairing exchange.
#[derive(Debug, Clone)]
pub struct ClientPairChallengeRequest {
    pub encrypted_challenge: [u8; CHALLENGE_LENGTH],
}

/// The host's answer to the challenge.
#[derive(Debug, Clone)]
pub struct ServerPairChallengeResponse {
    pub paired: PairStatus,
    pub encrypted_response: Vec<u8>,
}

/// The host's answer to an application list request, of which nothing is read.
#[derive(Debug, Clone, Copy)]
pub struct HostAppListResponse {}

fn hex_lower_string(bytes: &[u8]) -> (res: String)
    ensures
        res@ == ascii_chars(spec_hex_lower(bytes@)),
{
    let mut out: Vec<u8> = Vec::new();
    push_hex_lower(&mut out, bytes, 0, bytes.len());
    assert(bytes@.subrange(0, bytes@.len() as int) =~= bytes@);
    assert(out@ =~= spec_hex_lower(bytes@));
    proof {
        lemma_hex_lower_ascii(bytes@);
    }
    ascii_string(out)
}

/// The query of the opening request of the two-request exchange; salt and certificate in
/// lower-case hexadecimal.
pub open spec fn spec_pair_initiate_params(info: ClientInfo, request: ClientPairRequest) -> Seq<(Seq<char>, Seq<char>)> {
    spec_info_params(info.unique_id@, info.uuid@) + seq![
        ("devicename"@, request.device_name@),
        ("updateState"@, "1"@),
        ("phrase"@, "getservercert"@),
        ("salt"@, ascii_chars(spec_hex_lower(request.salt@))),
        ("clientcert"@, ascii_chars(spec_hex_lower(request.client_cert_pem@))),
    ]
}

/// The query of the opening request of the two-request exchange.
pub fn pair_initiate_query(info: &ClientInfo, request: &ClientPairRequest) -> (res: Vec<(String, String)>)
    ensures
        params_view(res@) == spec_pair_initiate_params(*info, *request),
{
    let mut params = info.query_params();
    push_param(&mut params, "devicename", request.device_name.clone());
    push_param_str(&mut params, "updateState", "1");
    push_param_str(&mut params, "phrase", "getservercert");
    push_param(&mut params, "salt", hex_lower_string(&request.salt));
    push_param(&mut params, "clientcert", hex_lower_string(&request.client_cert_pem));
    assert(params_view(params@) =~= spec_pair_initiate_params(*info, *request));
    params
}

/// The query of the challenge request of the two-request exchange.
pub fn pair_challenge_query(info: &ClientInfo, request: &ClientPairChallengeRequest) -> (res: Vec<(String, String)>)
    ensures
        params_view(res@) == spec_info_params(info.unique_id@, info.uuid@) + seq![
            ("clientchallenge"@, ascii_chars(spec_hex_lower(request.encrypted_challenge@))),
        ],
{
    let mut params = info.query_params();
    let ghost base = params_view(params@);
    push_param(&mut params, "clientchallenge", hex_lower_string(&request.encrypted_challenge));
    params
}

/// The host's certificate in an answer of the two-request exchange: absent when there is no
/// `plaincert`, else its text as it stands.
pub open spec fn spec_plain_cert_text<E>(nodes: Seq<XmlNodeView>, root: int) -> Result<Option<Seq<char>>, ApiErrorView<E>> {
    match spec_child_text::<E>(nodes, root, TAG_PLAIN_CERT) {
        Err(ApiErrorView::DetailNotFound(_)) => Ok(None),
        Err(e) => Err(e),
        Ok(t) => Ok(Some(t)),
    }
}

/// The host's answer to the opening request of the two-request exchange.
pub open spec fn spec_pair_initiate_response<E>(nodes: Seq<XmlNodeView>) -> Result<(PairStatus, Option<Seq<char>>), ApiErrorView<E>> {
    match spec_root_node::<E>(nodes) {
        Err(e) => Err(e),
        Ok(root) => match spec_child_paired::<E>(nodes, root, TAG_PAIRED) {
            Err(e) => Err(e),
            Ok(paired) => match spec_plain_cert_text::<E>(nodes, root) {
                Err(e) => Err(e),
                Ok(cert) => Ok((paired, cert)),
            },
        },
    }
}

/// Reads the host's answer to the opening request of the two-request exchange.
pub fn host_pair_initiate_response<E>(nodes: &Vec<XmlNode>) -> (res: Result<HostPairResponse, ApiError<E>>)
    ensures
        (match res {
            Ok(v) => Ok((v.paired, v.cert.deep_view())),
            Err(e) => Err(e@),
        }) == spec_pair_initiate_response::<E>(nodes_view(nodes@)),
{
    let root = match xml_root_node::<E>(nodes) {
        Ok(r) => r,
        Err(e) => return Err(e),
    };
    let paired = match xml_child_paired::<E>(nodes, root, TAG_PAIRED) {
        Ok(p) => p,
        Err(e) => return Err(e),
    };
    let cert = match xml_child_text::<E>(nodes, root, TAG_PLAIN_CERT) {
        Err(ApiError::DetailNotFound(n)) => None,
        Err(e) => return Err(e),
        Ok(text) => Some(text),
    };
    Ok(HostPairResponse { paired, cert })
}

/// Reads the host's answer to the challenge request of the two-request exchange.
pub fn host_pair_challenge_response<E>(nodes: &Vec<XmlNode>) -> (res: Result<ServerPairChallengeResponse, ApiError<E>>)
    ensures
        (match res {
            Ok(v) => Ok((v.paired, v.encrypted_response@)),
            Err(e) => Err(e@),
        }) == spec_pair_bytes_response::<E>(nodes_view(nodes@), TAG_CHALLENGE_RESPONSE),
{
    match pair_bytes_response::<E>(nodes, TAG_CHALLENGE_RESPONSE) {
        Ok((paired, encrypted_response)) => Ok(ServerPairChallengeResponse { paired, encrypted_response }),
        Err(e) => Err(e),
    }
}

/// An application a host offers.
#[derive(Debug, Clone)]
pub struct App {
    pub id: u32,
    pub title: String,
    pub is_hdr_supported: bool,
}

/// An application by its characters.
pub struct AppView {
    pub id: u32,
    pub title: Seq<char>,
    pub is_hdr_supported: bool,
}

impl View for App {
    type V = AppView;

    open spec fn view(&self) -> AppView {
        AppView { id: self.id, title: self.title@, is_hdr_supported: self.is_hdr_supported }
    }
}

/// The applications a host offers.
#[derive(Debug, Clone)]
pub struct ServerAppListResponse {
    pub apps: Vec<App>,
}

pub const TAG_APP: &'static str = "App";
pub const TAG_APP_TITLE: &'static str = "AppTitle";
pub const TAG_ID: &'static str = "ID";
pub const TAG_IS_HDR_SUPPORTED: &'static str = "IsHdrSupported";

/// The application described by node `app`: `AppTitle`, then `ID`, then `IsHdrSupported`,
/// which reads as 0 where it or its text is absent and means HDR when it is 1.
pub open spec fn spec_app<E>(nodes: Seq<XmlNodeView>, app: int) -> Result<AppView, ApiErrorView<E>> {
    match spec_child_text::<E>(nodes, app, TAG_APP_TITLE) {
        Err(e) => Err(e),
        Ok(title) => match spec_child_unsigned::<E>(nodes, app, TAG_ID, u32::MAX as int) {
            Err(e) => Err(e),
            Ok(id) => {
                let hdr_text = match spec_child_text::<E>(nodes, app, TAG_IS_HDR_SUPPORTED) {
                    Ok(t) => encode_utf8(t),
                    Err(_) => seq![48u8],
                };
                match spec_parse_unsigned(hdr_text, u32::MAX as int) {
                    Err(kind) => Err(ApiErrorView::ParseIntError(ParseIntError { kind })),
                    Ok(hdr) => Ok(AppView { id: id as u32, title, is_hdr_supported: hdr == 1 }),
                }
            },
        },
    }
}

/// Every child `App` of `root` from position `from` on, in order; the first failure is the
/// answer.
pub open spec fn spec_apps_from<E>(nodes: Seq<XmlNodeView>, root: int, from: int) -> Result<Seq<AppView>, ApiErrorView<E>>
    decreases nodes.len() - from,
{
    if from < 0 || from >= nodes.len() {
        Ok(Seq::empty())
    } else if is_child_named(nodes, root, TAG_APP@, from) {
        match spec_app::<E>(nodes, from) {
            Err(e) => Err(e),
            Ok(a) => match spec_apps_from::<E>(nodes, root, from + 1) {
                Err(e) => Err(e),
                Ok(rest) => Ok(seq![a] + rest),
            },
        }
    } else {
        spec_apps_from::<E>(nodes, root, from + 1)
    }
}

/// The applications of a host's `applist` answer.
pub open spec fn spec_app_list<E>(nodes: Seq<XmlNodeView>) -> Result<Seq<AppView>, ApiErrorView<E>> {
    match spec_root_node::<E>(nodes) {
        Err(e) => Err(e),
        Ok(root) => spec_apps_from::<E>(nodes, root, 0),
    }
}

/// `done` followed by what `rest` holds, or the failure of `rest`.
pub open spec fn prepend_apps<E>(done: Seq<AppView>, rest: Result<Seq<AppView>, ApiErrorView<E>>) -> Result<Seq<AppView>, ApiErrorView<E>> {
    match rest {
        Ok(r) => Ok(done + r),
        Err(e) => Err(e),
    }
}

/// An application supports HDR exactly when its `IsHdrSupported` text reads as the number 1;
/// when the text is 0, any other number, or absent, it does not.
pub proof fn law_app_hdr<E>(nodes: Seq<XmlNodeView>, app: int)
    ensures
        spec_app::<E>(nodes, app) matches Ok(a) ==> a.is_hdr_supported == (match spec_child_text::<E>(
            nodes,
            app,
            TAG_IS_HDR_SUPPORTED,
        ) {
            Ok(t) => spec_parse_unsigned(encode_utf8(t), u32::MAX as int) == Ok::<int, IntErrorKind>(1),
            Err(_) => false,
        }),
{
}

/// Reads the application described by node `app`.
pub fn read_app<E>(nodes: &Vec<XmlNode>, app: usize) -> (res: Result<App, ApiError<E>>)
    ensures
        view_result(res) == spec_app::<E>(nodes_view(nodes@), app as int),
{
    let title = match xml_child_text::<E>(nodes, app, TAG_APP_TITLE) {
        Ok(t) => t,
        Err(e) => return Err(e),
    };
    let id = match xml_child_u32::<E>(nodes, app, TAG_ID) {
        Ok(v) => v,
        Err(e) => return Err(e),
    };
    let hdr_text = match xml_child_text::<E>(nodes, app, TAG_IS_HDR_SUPPORTED) {
        Ok(t) => t,
        Err(_) => "0".to_owned(),
    };
    proof {
        reveal_strlit("0");
        vstd::utf8::is_ascii_chars_encode_utf8("0"@);
        assert(encode_utf8("0"@) =~= seq![48u8]);
    }
    match parse_u32(hdr_text.as_str()) {
        Err(e) => Err(ApiError::ParseIntError(e)),
        Ok(hdr) => Ok(App { id, title, is_hdr_supported: hdr == 1 }),
    }
}

/// Reads the applications of a host's `applist` answer.
pub fn host_app_list_from_nodes<E>(nodes: &Vec<XmlNode>) -> (res: Result<ServerAppListResponse, ApiError<E>>)
    ensures
        match res {
            Ok(list) => spec_app_list::<E>(nodes_view(nodes@)) == Ok::<Seq<AppView>, ApiErrorView<E>>(
                list.apps@.map_values(|a: App| a@),
            ),
            Err(e) => spec_app_list::<E>(nodes_view(nodes@)) == Err::<Seq<AppView>, ApiErrorView<E>>(e@),
        },
{
    let root = match xml_root_node::<E>(nodes) {
        Ok(r) => r,
        Err(e) => return Err(e),
    };
    let app_name = TAG_APP.to_owned();
    let ghost view = nodes_view(nodes@);
    let mut apps: Vec<App> = Vec::new();
    let mut k: usize = 0;
    assert(apps@.map_values(|a: App| a@) =~= Seq::<AppView>::empty());
    assert(prepend_apps(Seq::<AppView>::empty(), spec_apps_from::<E>(view, root as int, 0))
        == spec_apps_from::<E>(view, root as int, 0));
    while k < nodes.len()
        invariant
            k <= nodes@.len(),
            view == nodes_view(nodes@),
            app_name@ == TAG_APP@,
            spec_root_node::<E>(view) == Ok::<int, ApiErrorView<E>>(root as int),
            spec_apps_from::<E>(view, root as int, 0) == prepend_apps(
                apps@.map_values(|a: App| a@),
                spec_apps_from::<E>(view, root as int, k as int),
            ),
        decreases nodes@.len() - k,
    {
        let node = &nodes[k];
        assert(view[k as int] == node@);
        let same_parent = match node.parent {
            Some(p) => p == root,
            None => false,
        };
        if same_parent && node.name == app_name {
            let ghost done = apps@.map_values(|a: App| a@);
            assert(is_child_named(view, root as int, TAG_APP@, k as int));
            match read_app::<E>(nodes, k) {
                Err(e) => {
                    assert(spec_apps_from::<E>(view, root as int, k as int) == Err::<Seq<AppView>, ApiErrorView<E>>(e@));
                    return Err(e);
                },
                Ok(a) => {
                    apps.push(a);
                    assert(apps@.map_values(|a: App| a@) =~= done.push(a@));
                    assert(done.push(a@) =~= done + seq![a@]);
                    proof {
                        let rest = spec_apps_from::<E>(view, root as int, k + 1);
                        if rest is Ok {
                            assert(done + (seq![a@] + rest->Ok_0) =~= done.push(a@) + rest->Ok_0);
                        }
                    }
                },
            }
        }
        k = k + 1;
    }
    assert(apps@.map_values(|a: App| a@) + Seq::<AppView>::empty() =~= apps@.map_values(|a: App| a@));
    Ok(ServerAppListResponse { apps })
}

proof fn lemma_digits_value_concat(a: Seq<u8>, b: Seq<u8>, acc: int, limit: int, overflow: IntErrorKind)
    ensures
        digits_value(a + b, acc, limit, overflow) == (match digits_value(a, acc, limit, overflow) {
            Ok(v) => digits_value(b, v, limit, overflow),
            Err(e) => Err(e),
        }),
    decreases a.len(),
{
    if a.len() == 0 {
        assert(a + b =~= b);
    } else {
        assert((a + b)[0] == a[0]);
        assert((a + b).drop_first() =~= a.drop_first() + b);
        if is_digit(a[0]) && acc * 10 + (a[0] - 48) <= limit {
            lemma_digits_value_concat(a.drop_first(), b, acc * 10 + (a[0] - 48), limit, overflow);
        }
    }
}

proof fn lemma_decimal_reads_back(n: nat, limit: int, overflow: IntErrorKind)
    requires
        n <= limit,
    ensures
        digits_value(decimal_digits(n), 0, limit, overflow) == Ok::<int, IntErrorKind>(n as int),
    decreases n,
{
    if n < 10 {
        let s = decimal_digits(n);
        assert(s == seq![(48 + n) as u8]);
        assert(s[0] - 48 == n);
        assert(s.drop_first() =~= Seq::<u8>::empty());
        assert(digits_value(s.drop_first(), n as int, limit, overflow) == Ok::<int, IntErrorKind>(n as int));
    } else {
        lemma_decimal_reads_back(n / 10, limit, overflow);
        let d = seq![(48 + n % 10) as u8];
        assert(decimal_digits(n) =~= decimal_digits(n / 10) + d);
        lemma_digits_value_concat(decimal_digits(n / 10), d, 0, limit, overflow);
        assert(d.drop_first() =~= Seq::<u8>::empty());
        assert((n / 10) * 10 + (n % 10) == n);
        assert(d[0] - 48 == n % 10);
        assert(digits_value(d.drop_first(), n as int, limit, overflow) == Ok::<int, IntErrorKind>(n as int));
        assert(digits_value(d, (n / 10) as int, limit, overflow) == Ok::<int, IntErrorKind>(n as int));
    }
}

proof fn lemma_signed_decimal_reads_back(v: i32)
    ensures
        spec_parse_i32(signed_decimal(v as int)) == Ok::<int, IntErrorKind>(v as int),
{
    lemma_decimal_digits(if v < 0 { (-v) as nat } else { v as nat });
    if v < 0 {
        let digits = decimal_digits((-v) as nat);
        lemma_decimal_reads_back((-v) as nat, 0x8000_0000, IntErrorKind::NegOverflow);
        assert((seq![45u8] + digits).drop_first() =~= digits);
    } else {
        lemma_decimal_reads_back(v as nat, i32::MAX as int, IntErrorKind::PosOverflow);
        assert(is_digit(decimal_digits(v as nat)[0]));
    }
}

proof fn lemma_no_dot_in_signed_decimal(v: int)
    ensures
        forall|i: int| 0 <= i < signed_decimal(v).len() ==> #[trigger] signed_decimal(v)[i] != 46,
{
    lemma_decimal_digits(if v < 0 { (-v) as nat } else { v as nat });
    if v < 0 {
        assert forall|i: int| 0 <= i < signed_decimal(v).len() implies #[trigger] signed_decimal(v)[i] != 46 by {
            if i > 0 {
                assert(signed_decimal(v)[i] == decimal_digits((-v) as nat)[i - 1]);
            }
        }
    }
}

proof fn lemma_index_of_first(x: Seq<u8>, y: Seq<u8>, sep: u8, from: int)
    requires
        0 <= from <= x.len(),
        forall|i: int| 0 <= i < x.len() ==> x[i] != sep,
    ensures
        index_of_from(x + seq![sep] + y, sep, from) == Some(x.len() as int),
    decreases x.len() - from,
{
    let s = x + seq![sep] + y;
    if from < x.len() {
        assert(s[from] == x[from]);
        lemma_index_of_first(x, y, sep, from + 1);
    } else {
        assert(s[from] == sep);
    }
}

proof fn lemma_split_piece(x: Seq<u8>, y: Seq<u8>, n: nat)
    requires
        n >= 2,
        forall|i: int| 0 <= i < x.len() ==> x[i] != 46,
    ensures
        split_n(x + seq![46u8] + y, n, 46) == seq![x] + split_n(y, (n - 1) as nat, 46),
{
    let s = x + seq![46u8] + y;
    lemma_index_of_first(x, y, 46, 0);
    assert(s.take(x.len() as int) =~= x);
    assert(s.skip(x.len() as int + 1) =~= y);
}

/// A version's text reads back as the same version.
pub proof fn law_version_round_trip(v: ServerVersion)
    ensures
        spec_server_version(spec_version_text(v)) == Ok::<ServerVersion, ParseServerVersionError>(v),
{
    let a = signed_decimal(v.major as int);
    let b = signed_decimal(v.minor as int);
    let c = signed_decimal(v.patch as int);
    let d = signed_decimal(v.mini_patch as int);
    let dot = seq![46u8];
    lemma_no_dot_in_signed_decimal(v.major as int);
    lemma_no_dot_in_signed_decimal(v.minor as int);
    lemma_no_dot_in_signed_decimal(v.patch as int);
    lemma_no_dot_in_signed_decimal(v.mini_patch as int);
    let rest3 = c + dot + d;
    let rest2 = b + dot + rest3;
    assert(spec_version_text(v) =~= a + dot + rest2);
    lemma_split_piece(a, rest2, 4);
    lemma_split_piece(b, rest3, 3);
    lemma_split_piece(c, d, 2);
    let parts = split_n(spec_version_text(v), 4, 46);
    assert(split_n(d, 1, 46) == seq![d]);
    assert(parts =~= seq![a, b, c, d]);
    lemma_signed_decimal_reads_back(v.major);
    lemma_signed_decimal_reads_back(v.minor);
    lemma_signed_decimal_reads_back(v.patch);
    lemma_signed_decimal_reads_back(v.mini_patch);
}

} // verus!
