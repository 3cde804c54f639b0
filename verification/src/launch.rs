//! Starting and resuming a game on a host, and fetching an application's box art.
use vstd::prelude::*;
use vstd::string::StringSliceAdditionalSpecFns;

use crate::hex::{lemma_hex_lower_ascii, push_hex_lower, spec_hex_lower};
use crate::network::{
    ApiError, ApiErrorView, ClientInfo, params_view, push_param, push_param_str,
    spec_child_unsigned, spec_info_params, xml_child_u32,
};
use crate::text::{
    all_ascii, ascii_chars, ascii_string, decimal_digits, lemma_all_ascii_concat, lemma_decimal_digits,
    push_decimal, push_signed_decimal, signed_decimal,
};
use crate::xml::{
    XmlNode, XmlNodeView, find_child, find_child_node, nodes_view, spec_child_text, spec_root_node,
    xml_child_text, xml_root_node, ROOT,
};
use crate::network::lemma_signed_decimal_ascii;

verus! {

/// Which application to start, in which mode, and the key for encrypted input.
#[derive(Debug, Clone, Copy)]
pub struct ClientStreamRequest {
    pub app_id: u32,
    pub mode_width: u32,
    pub mode_height: u32,
    pub mode_fps: u32,
    pub ri_key: [u8; 16],
    pub ri_key_id: i32,
}

/// The host's answer to a launch.
#[derive(Debug, Clone)]
pub struct HostLaunchResponse {
    pub game_session: u32,
    pub rtsp_session_url: String,
}

/// The host's answer to a resume.
#[derive(Debug, Clone)]
pub struct HostResumeResponse {
    pub resume: u32,
    pub rtsp_session_url: String,
}

/// Which box art to fetch.
#[derive(Debug, Clone, Copy)]
pub struct ClientAppBoxArtRequest {
    pub app_id: u32,
}

/// The pairs of `input` read as `application/x-www-form-urlencoded`, as
/// `form_urlencoded::parse` reads them.
pub uninterp spec fn spec_parse_urlencoded(input: Seq<u8>) -> Seq<(Seq<char>, Seq<char>)>;

/// `form_urlencoded::parse`, each pair taken as two owned strings.
#[verifier::external_body]
fn parse_urlencoded(input: &[u8]) -> (res: Vec<(String, String)>)
    ensures
        params_view(res@) == spec_parse_urlencoded(input@),
{
    form_urlencoded::parse(input).map(|(k, v)| (k.into_owned(), v.into_owned())).collect()
}

/// The decimal text of `n`.
pub fn decimal_string(n: u64) -> (res: String)
    ensures
        res@ == ascii_chars(decimal_digits(n as nat)),
{
    let mut out: Vec<u8> = Vec::new();
    push_decimal(&mut out, n);
    assert(out@ =~= decimal_digits(n as nat));
    proof {
        lemma_decimal_digits(n as nat);
        assert(all_ascii(out@));
    }
    ascii_string(out)
}

/// The launch mode: width, height and frame rate joined by `x`.
pub open spec fn spec_mode(w: u32, h: u32, fps: u32) -> Seq<u8> {
    decimal_digits(w as nat) + seq![120u8] + decimal_digits(h as nat) + seq![120u8] + decimal_digits(fps as nat)
}

/// The key id as it goes out: its decimal text, padded with zero bytes to twelve bytes.
pub open spec fn spec_ri_key_id(id: i32) -> Seq<u8> {
    signed_decimal(id as int) + Seq::new((12 - signed_decimal(id as int).len()) as nat, |i: int| 0u8)
}

/// The query of a launch or a resume.
pub open spec fn spec_launch_params(
    info: ClientInfo,
    launch_url_query: Seq<u8>,
    request: ClientStreamRequest,
) -> Seq<(Seq<char>, Seq<char>)> {
    spec_info_params(info.unique_id@, info.uuid@) + spec_parse_urlencoded(launch_url_query) + seq![
        ("appid"@, ascii_chars(decimal_digits(request.app_id as nat))),
        ("mode"@, ascii_chars(spec_mode(request.mode_width, request.mode_height, request.mode_fps))),
        ("additionalStates"@, "1"@),
        ("rikey"@, ascii_chars(spec_hex_lower(request.ri_key@))),
        ("rikeyid"@, ascii_chars(spec_ri_key_id(request.ri_key_id))),
        ("localAudioPlayMode"@, "todo"@),
        ("surroundAudioInfo"@, "todo"@),
        ("remoteControllersBitmap"@, "todo"@),
        ("gcmap"@, "todo"@),
        ("gcpersist"@, "todo"@),
    ]
}

proof fn lemma_signed_decimal_len(v: int)
    requires
        i32::MIN <= v <= i32::MAX,
    ensures
        signed_decimal(v).len() <= 11,
{
    lemma_decimal_len(if v < 0 { -v } else { v });
}

proof fn lemma_decimal_len(n: int)
    requires
        0 <= n <= 0x8000_0000,
    ensures
        decimal_digits(n as nat).len() <= 10,
{
    reveal_with_fuel(decimal_digits, 11);
}

/// The launch mode text.
fn mode_string(w: u32, h: u32, fps: u32) -> (res: String)
    ensures
        res@ == ascii_chars(spec_mode(w, h, fps)),
{
    let mut out: Vec<u8> = Vec::new();
    push_decimal(&mut out, w as u64);
    out.push(120);
    push_decimal(&mut out, h as u64);
    out.push(120);
    push_decimal(&mut out, fps as u64);
    assert(out@ =~= spec_mode(w, h, fps));
    proof {
        let x = seq![120u8];
        lemma_decimal_digits(w as nat);
        lemma_decimal_digits(h as nat);
        lemma_decimal_digits(fps as nat);
        lemma_all_ascii_concat(decimal_digits(w as nat), x);
        lemma_all_ascii_concat(decimal_digits(w as nat) + x, decimal_digits(h as nat));
        lemma_all_ascii_concat(decimal_digits(w as nat) + x + decimal_digits(h as nat), x);
        lemma_all_ascii_concat(decimal_digits(w as nat) + x + decimal_digits(h as nat) + x, decimal_digits(fps as nat));
    }
    ascii_string(out)
}

/// The key id text, padded with zero bytes.
fn ri_key_id_string(id: i32) -> (res: String)
    ensures
        res@ == ascii_chars(spec_ri_key_id(id)),
{
    let mut out: Vec<u8> = Vec::new();
    push_signed_decimal(&mut out, id);
    proof {
        lemma_signed_decimal_len(id as int);
    }
    let ghost digits = out@;
    while out.len() < 12
        invariant
            digits == signed_decimal(id as int),
            digits.len() <= out@.len() <= 12,
            out@ == digits + Seq::new((out@.len() - digits.len()) as nat, |i: int| 0u8),
        decreases 12 - out@.len(),
    {
        out.push(0);
        assert(out@ =~= digits + Seq::new((out@.len() - digits.len()) as nat, |i: int| 0u8));
    }
    assert(out@ =~= spec_ri_key_id(id));
    proof {
        lemma_signed_decimal_ascii(id as int);
        let zeros = Seq::new((12 - digits.len()) as nat, |i: int| 0u8);
        assert(all_ascii(zeros));
        lemma_all_ascii_concat(digits, zeros);
    }
    ascii_string(out)
}

/// The input key as lower-case hexadecimal text.
fn ri_key_string(key: [u8; 16]) -> (res: String)
    ensures
        res@ == ascii_chars(spec_hex_lower(key@)),
{
    let mut out: Vec<u8> = Vec::new();
    push_hex_lower(&mut out, &key, 0, 16);
    assert(key@.subrange(0, 16) =~= key@);
    assert(out@ =~= spec_hex_lower(key@));
    proof {
        lemma_hex_lower_ascii(key@);
    }
    ascii_string(out)
}

/// The query of a launch or a resume: the client, the protocol's own launch parameters,
/// then the application, its mode and the key for encrypted input.
pub fn launch_query(info: &ClientInfo, launch_url_query: &str, request: &ClientStreamRequest) -> (res: Vec<(String, String)>)
    ensures
        params_view(res@) == spec_launch_params(*info, launch_url_query.spec_bytes(), *request),
{
    let mut params = info.query_params();
    let ghost head = params_view(params@);
    let launch = parse_urlencoded(launch_url_query.as_bytes());
    let mut i: usize = 0;
    while i < launch.len()
        invariant
            i <= launch@.len(),
            params_view(params@) == head + params_view(launch@).take(i as int),
        decreases launch@.len() - i,
    {
        let (k, v) = &launch[i];
        push_param(&mut params, k.as_str(), v.clone());
        assert(params_view(launch@)[i as int] == (k@, v@));
        i = i + 1;
        assert(params_view(params@) =~= head + params_view(launch@).take(i as int));
    }
    assert(params_view(launch@).take(i as int) =~= params_view(launch@));
    push_param(&mut params, "appid", decimal_string(request.app_id as u64));
    push_param(&mut params, "mode", mode_string(request.mode_width, request.mode_height, request.mode_fps));
    push_param_str(&mut params, "additionalStates", "1");
    push_param(&mut params, "rikey", ri_key_string(request.ri_key));
    push_param(&mut params, "rikeyid", ri_key_id_string(request.ri_key_id));
    push_param_str(&mut params, "localAudioPlayMode", "todo");
    push_param_str(&mut params, "surroundAudioInfo", "todo");
    push_param_str(&mut params, "remoteControllersBitmap", "todo");
    push_param_str(&mut params, "gcmap", "todo");
    push_param_str(&mut params, "gcpersist", "todo");
    assert(params_view(params@) =~= spec_launch_params(
        *info,
        launch_url_query.spec_bytes(),
        *request,
    ));
    params
}

pub const TAG_GAME_SESSION: &'static str = "gamesession";
pub const TAG_SESSION_URL: &'static str = "sessionUrl0";
pub const TAG_RESUME: &'static str = "resume";

/// A launch answer by its characters.
pub open spec fn launch_result<E>(r: Result<HostLaunchResponse, ApiError<E>>) -> Result<(u32, Seq<char>), ApiErrorView<E>> {
    match r {
        Ok(v) => Ok((v.game_session, v.rtsp_session_url@)),
        Err(e) => Err(e@),
    }
}

/// A resume answer by its characters.
pub open spec fn resume_result<E>(r: Result<HostResumeResponse, ApiError<E>>) -> Result<(u32, Seq<char>), ApiErrorView<E>> {
    match r {
        Ok(v) => Ok((v.resume, v.rtsp_session_url@)),
        Err(e) => Err(e@),
    }
}

/// A number and a session URL under `root`: the number's child first.
pub open spec fn spec_session<E>(nodes: Seq<XmlNodeView>, root: int, number: &'static str) -> Result<(u32, Seq<char>), ApiErrorView<E>> {
    match spec_child_unsigned::<E>(nodes, root, number, u32::MAX as int) {
        Err(e) => Err(e),
        Ok(n) => match spec_child_text::<E>(nodes, root, TAG_SESSION_URL) {
            Err(e) => Err(e),
            Ok(url) => Ok((n as u32, url)),
        },
    }
}

/// The host's answer to a launch: the game session and the RTSP session URL.
pub open spec fn spec_launch_response<E>(nodes: Seq<XmlNodeView>) -> Result<(u32, Seq<char>), ApiErrorView<E>> {
    match spec_root_node::<E>(nodes) {
        Err(e) => Err(e),
        Ok(root) => spec_session::<E>(nodes, root, TAG_GAME_SESSION),
    }
}

/// The host's answer to a resume; its status code is not looked at.
pub open spec fn spec_resume_response<E>(nodes: Seq<XmlNodeView>) -> Result<(u32, Seq<char>), ApiErrorView<E>> {
    match find_child(nodes, 0, ROOT@) {
        None => Err(ApiErrorView::XmlRootNotFound),
        Some(root) => spec_session::<E>(nodes, root, TAG_RESUME),
    }
}

fn read_session<E>(nodes: &Vec<XmlNode>, root: usize, number: &'static str) -> (res: Result<(u32, String), ApiError<E>>)
    ensures
        match res {
            Ok((n, url)) => spec_session::<E>(nodes_view(nodes@), root as int, number) == Ok::<(u32, Seq<char>), ApiErrorView<E>>((n, url@)),
            Err(e) => spec_session::<E>(nodes_view(nodes@), root as int, number) == Err::<(u32, Seq<char>), ApiErrorView<E>>(e@),
        },
{
    let n = match xml_child_u32::<E>(nodes, root, number) {
        Ok(n) => n,
        Err(e) => return Err(e),
    };
    match xml_child_text::<E>(nodes, root, TAG_SESSION_URL) {
        Ok(url) => Ok((n, url)),
        Err(e) => Err(e),
    }
}

/// Reads the host's answer to a launch.
pub fn host_launch_response<E>(nodes: &Vec<XmlNode>) -> (res: Result<HostLaunchResponse, ApiError<E>>)
    ensures
        launch_result(res) == spec_launch_response::<E>(nodes_view(nodes@)),
{
    let root = match xml_root_node::<E>(nodes) {
        Ok(r) => r,
        Err(e) => return Err(e),
    };
    match read_session::<E>(nodes, root, TAG_GAME_SESSION) {
        Ok((game_session, rtsp_session_url)) => Ok(HostLaunchResponse { game_session, rtsp_session_url }),
        Err(e) => Err(e),
    }
}

/// Reads the host's answer to a resume.
pub fn host_resume_response<E>(nodes: &Vec<XmlNode>) -> (res: Result<HostResumeResponse, ApiError<E>>)
    ensures
        resume_result(res) == spec_resume_response::<E>(nodes_view(nodes@)),
{
    let root = match find_child_node(nodes, 0, ROOT) {
        Some(r) => r,
        None => return Err(ApiError::XmlRootNotFound),
    };
    match read_session::<E>(nodes, root, TAG_RESUME) {
        Ok((resume, rtsp_session_url)) => Ok(HostResumeResponse { resume, rtsp_session_url }),
        Err(e) => Err(e),
    }
}

/// The query that fetches an application's box art.
pub open spec fn spec_box_art_params(info: ClientInfo, request: ClientAppBoxArtRequest) -> Seq<(Seq<char>, Seq<char>)> {
    spec_info_params(info.unique_id@, info.uuid@) + seq![
        ("appid"@, ascii_chars(decimal_digits(request.app_id as nat))),
        ("AssetType"@, "2"@),
        ("AssetIdx"@, "0"@),
    ]
}

/// The query that fetches an application's box art.
pub fn box_art_query(info: &ClientInfo, request: &ClientAppBoxArtRequest) -> (res: Vec<(String, String)>)
    ensures
        params_view(res@) == spec_box_art_params(*info, *request),
{
    let mut params = info.query_params();
    push_param(&mut params, "appid", decimal_string(request.app_id as u64));
    push_param_str(&mut params, "AssetType", "2");
    push_param_str(&mut params, "AssetIdx", "0");
    assert(params_view(params@) =~= spec_box_art_params(*info, *request));
    params
}

} // verus!
