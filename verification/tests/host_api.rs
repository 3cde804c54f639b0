use moonlight_web::launch::{
    box_art_query, host_launch_response, host_resume_response, launch_query, ClientAppBoxArtRequest,
    ClientStreamRequest,
};
use moonlight_web::network::{
    host_app_list_from_nodes, host_pair1_response, host_pair2_response, host_pair3_response,
    host_pair4_response, host_pair5_response, pair1_query, pair2_query, pair5_query, parse_host_info,
    uuid_hyphenated, ApiError, ClientInfo, ClientPairRequest1, ClientPairRequest2, ClientPairRequest5,
    PairStatus, ServerState, ServerVersion, DEFAULT_UNIQUE_ID,
};
use moonlight_web::xml::parse_document;

fn server_info(codec: &str, state: &str, uniqueid: &str) -> String {
    format!(
        "<?xml version=\"1.0\" encoding=\"utf-8\"?>\n<root status_code=\"200\">\
<hostname>DESKTOP</hostname><appversion>7.1.431.-1</appversion><GfeVersion>3.23.0.74</GfeVersion>\
<uniqueid>{uniqueid}</uniqueid><HttpsPort>47984</HttpsPort><ExternalPort>47989</ExternalPort>\
<MaxLumaPixelsHEVC>1869449984</MaxLumaPixelsHEVC><mac>00:11:22:33:44:55</mac><LocalIP>192.168.1.2</LocalIP>\
<ServerCodecModeSupport>{codec}</ServerCodecModeSupport><PairStatus>1</PairStatus><currentgame>0</currentgame>\
<state>{state}</state></root>"
    )
}

const UUID: &str = "01234567-89ab-cdef-0123-456789abcdef";

fn info() -> ClientInfo {
    ClientInfo {
        unique_id: DEFAULT_UNIQUE_ID.to_string(),
        uuid: [0x01, 0x23, 0x45, 0x67, 0x89, 0xab, 0xcd, 0xef, 0x01, 0x23, 0x45, 0x67, 0x89, 0xab, 0xcd, 0xef],
    }
}

fn pairs(params: &[(String, String)]) -> Vec<(&str, &str)> {
    params.iter().map(|(k, v)| (k.as_str(), v.as_str())).collect()
}

#[test]
fn host_info_reads_every_field() {
    let info = parse_host_info::<()>(&server_info("257", "SUNSHINE_SERVER_FREE", UUID)).unwrap();
    assert_eq!(info.host_name, "DESKTOP");
    assert_eq!(info.app_version, ServerVersion { major: 7, minor: 1, patch: 431, mini_patch: -1 });
    assert_eq!(info.gfe_version, "3.23.0.74");
    assert_eq!(uuid_hyphenated(info.unique_id), UUID);
    assert_eq!(info.https_port, 47984);
    assert_eq!(info.external_port, 47989);
    assert_eq!(info.max_luma_pixels_hevc, 1869449984);
    assert_eq!(info.mac, "00:11:22:33:44:55");
    assert_eq!(info.local_ip, "192.168.1.2");
    assert_eq!(info.server_codec_mode_support.bits, 257);
    assert_eq!(info.pair_status, PairStatus::Paired);
    assert_eq!(info.current_game, 0);
    assert_eq!(info.state_string, "SUNSHINE_SERVER_FREE");
    assert_eq!(info.state, ServerState::Free);
}

#[test]
fn host_info_refuses_unknown_codecs() {
    let err = parse_host_info::<()>(&server_info("2", "SUNSHINE_SERVER_FREE", UUID)).unwrap_err();
    assert!(matches!(err, ApiError::ParseServerCodecModeSupport));
}

#[test]
fn host_info_refuses_an_unknown_state() {
    let err = parse_host_info::<()>(&server_info("1", "SUNSHINE_SERVER", UUID)).unwrap_err();
    assert!(matches!(err, ApiError::ParseServerStateError(_)));
}

#[test]
fn host_info_refuses_a_bad_unique_id() {
    let err = parse_host_info::<()>(&server_info("1", "SUNSHINE_SERVER_FREE", "not-a-uuid")).unwrap_err();
    assert!(matches!(err, ApiError::ParseUuidError));
}

#[test]
fn host_info_reports_a_missing_detail() {
    let err = parse_host_info::<()>("<root status_code=\"200\"><state>X_FREE</state></root>").unwrap_err();
    assert!(matches!(err, ApiError::DetailNotFound("hostname")));
}

#[test]
fn host_info_reports_missing_text() {
    let err = parse_host_info::<()>("<root status_code=\"200\"><state/></root>").unwrap_err();
    assert!(matches!(err, ApiError::XmlTextNotFound("state")));
}

#[test]
fn host_info_refuses_a_client_error_status() {
    let err = parse_host_info::<()>("<root status_code=\"401\" status_message=\"The client is not authorized\"/>")
        .unwrap_err();
    match err {
        ApiError::InvalidXmlStatusCode { message } => {
            assert_eq!(message.as_deref(), Some("The client is not authorized"))
        },
        other => panic!("unexpected {:?}", other),
    }
}

#[test]
fn host_info_needs_a_root() {
    let err = parse_host_info::<()>("<other status_code=\"200\"/>").unwrap_err();
    assert!(matches!(err, ApiError::XmlRootNotFound));
}

#[test]
fn host_info_needs_xml() {
    let err = parse_host_info::<()>("<root").unwrap_err();
    assert!(matches!(err, ApiError::ParseXmlError));
}

#[test]
fn host_info_needs_a_status_code() {
    let err = parse_host_info::<()>("<root/>").unwrap_err();
    assert!(matches!(err, ApiError::DetailNotFound("status_code")));
}

#[test]
fn pair1_response_reads_the_certificate() {
    let nodes = parse_document::<()>(
        "<root status_code=\"200\"><paired>1</paired><plaincert>48656C6C6F</plaincert></root>",
    )
    .unwrap();
    let response = host_pair1_response::<()>(&nodes).unwrap();
    assert_eq!(response.paired, PairStatus::Paired);
    assert_eq!(response.cert.as_deref(), Some("Hello"));
}

#[test]
fn pair1_response_without_certificate() {
    let nodes = parse_document::<()>("<root status_code=\"200\"><paired>0</paired></root>").unwrap();
    let response = host_pair1_response::<()>(&nodes).unwrap();
    assert_eq!(response.paired, PairStatus::NotPaired);
    assert!(response.cert.is_none());
}

#[test]
fn pair1_response_refuses_bad_hex() {
    let nodes =
        parse_document::<()>("<root status_code=\"200\"><paired>1</paired><plaincert>4G</plaincert></root>").unwrap();
    assert!(matches!(host_pair1_response::<()>(&nodes), Err(ApiError::ParseHexError(_))));
}

#[test]
fn pair1_response_refuses_bad_utf8() {
    let nodes =
        parse_document::<()>("<root status_code=\"200\"><paired>1</paired><plaincert>FF</plaincert></root>").unwrap();
    assert!(matches!(host_pair1_response::<()>(&nodes), Err(ApiError::Utf8Error)));
}

#[test]
fn pair_responses_read_their_bytes() {
    let nodes = parse_document::<()>(
        "<root status_code=\"200\"><paired>1</paired><challengeresponse>0A0b</challengeresponse></root>",
    )
    .unwrap();
    assert_eq!(host_pair2_response::<()>(&nodes).unwrap().encrypted_response, vec![10, 11]);
    let nodes = parse_document::<()>(
        "<root status_code=\"200\"><paired>1</paired><pairingsecret>FF00</pairingsecret></root>",
    )
    .unwrap();
    assert_eq!(host_pair3_response::<()>(&nodes).unwrap().server_pairing_secret, vec![255, 0]);
    let nodes = parse_document::<()>("<root status_code=\"200\"><paired>2</paired></root>").unwrap();
    assert_eq!(host_pair4_response::<()>(&nodes).unwrap().paired, PairStatus::NotPaired);
    let nodes = parse_document::<()>("<root status_code=\"200\"><paired>1</paired></root>").unwrap();
    assert_eq!(host_pair5_response::<()>(&nodes).unwrap().paired, PairStatus::Paired);
}

#[test]
fn app_list_reads_every_app_in_order() {
    let nodes = parse_document::<()>(
        "<root status_code=\"200\"><App><AppTitle>Desktop</AppTitle><ID>881448767</ID>\
<IsHdrSupported>1</IsHdrSupported></App><Other/><App><AppTitle>Steam</AppTitle><ID>1</ID></App></root>",
    )
    .unwrap();
    let list = host_app_list_from_nodes::<()>(&nodes).unwrap();
    assert_eq!(list.apps.len(), 2);
    assert_eq!(list.apps[0].title, "Desktop");
    assert_eq!(list.apps[0].id, 881448767);
    assert!(list.apps[0].is_hdr_supported);
    assert_eq!(list.apps[1].title, "Steam");
    assert!(!list.apps[1].is_hdr_supported);
}

#[test]
fn app_list_fails_on_the_first_bad_app() {
    let nodes = parse_document::<()>(
        "<root status_code=\"200\"><App><AppTitle>Desktop</AppTitle><ID>x</ID></App></root>",
    )
    .unwrap();
    assert!(matches!(host_app_list_from_nodes::<()>(&nodes), Err(ApiError::ParseIntError(_))));
}

#[test]
fn client_info_sends_unique_id_and_uuid() {
    assert_eq!(pairs(&info().query_params()), vec![("uniqueid", DEFAULT_UNIQUE_ID), ("uuid", UUID)]);
}

#[test]
fn default_client_info_has_a_version_4_uuid() {
    let i = ClientInfo::new_default();
    assert_eq!(i.unique_id, "0123456789ABCDEF");
    assert_eq!(i.uuid[6] >> 4, 4);
    assert_eq!(i.uuid[8] >> 6, 2);
}

#[test]
fn pair1_query_carries_salt_and_certificate() {
    let request = ClientPairRequest1 { device_name: "roth".to_string(), salt: [0xab; 16], client_cert_pem: b"AB".to_vec() };
    let params = pair1_query(&info(), &request);
    assert_eq!(
        pairs(&params)[2..],
        [
            ("devicename", "roth"),
            ("updateState", "1"),
            ("phrase", "getservercert"),
            ("salt", "ABABABABABABABABABABABABABABABAB"),
            ("clientcert", "4142"),
        ]
    );
}

#[test]
fn pair2_and_pair5_queries() {
    let request = ClientPairRequest2 { device_name: "roth".to_string(), encrypted_challenge: vec![1, 255] };
    assert_eq!(
        pairs(&pair2_query(&info(), &request))[2..],
        [("devicename", "roth"), ("updateState", "1"), ("clientchallenge", "01FF")]
    );
    let request = ClientPairRequest5 { device_name: "roth".to_string() };
    assert_eq!(
        pairs(&pair5_query(&info(), &request))[2..],
        [("phrase", "pairchallenge"), ("devicename", "roth"), ("updateState", "1")]
    );
}

#[test]
fn launch_query_carries_mode_and_key() {
    let request = ClientStreamRequest {
        app_id: 881448767,
        mode_width: 1920,
        mode_height: 1080,
        mode_fps: 60,
        ri_key: [0xab; 16],
        ri_key_id: -5,
    };
    let params = launch_query(&info(), "corever=1&x=a%20b", &request);
    assert_eq!(
        pairs(&params)[2..],
        [
            ("corever", "1"),
            ("x", "a b"),
            ("appid", "881448767"),
            ("mode", "1920x1080x60"),
            ("additionalStates", "1"),
            ("rikey", "abababababababababababababababab"),
            ("rikeyid", "-5\0\0\0\0\0\0\0\0\0\0"),
            ("localAudioPlayMode", "todo"),
            ("surroundAudioInfo", "todo"),
            ("remoteControllersBitmap", "todo"),
            ("gcmap", "todo"),
            ("gcpersist", "todo"),
        ]
    );
}

#[test]
fn box_art_query_names_the_app() {
    let params = box_art_query(&info(), &ClientAppBoxArtRequest { app_id: 7 });
    assert_eq!(pairs(&params)[2..], [("appid", "7"), ("AssetType", "2"), ("AssetIdx", "0")]);
}

#[test]
fn launch_and_resume_answers() {
    let nodes = parse_document::<()>(
        "<root status_code=\"200\"><gamesession>1</gamesession><sessionUrl0>rtsp://h:48010</sessionUrl0></root>",
    )
    .unwrap();
    let launch = host_launch_response::<()>(&nodes).unwrap();
    assert_eq!(launch.game_session, 1);
    assert_eq!(launch.rtsp_session_url, "rtsp://h:48010");
    let nodes = parse_document::<()>(
        "<root status_code=\"400\"><resume>1</resume><sessionUrl0>rtsp://h:48010</sessionUrl0></root>",
    )
    .unwrap();
    let resume = host_resume_response::<()>(&nodes).unwrap();
    assert_eq!(resume.resume, 1);
    assert!(matches!(host_launch_response::<()>(&nodes), Err(ApiError::InvalidXmlStatusCode { .. })));
}

#[test]
fn host_answers_other_than_200_are_refused() {
    for code in ["500", "302", "201"] {
        let text = format!("<root status_code=\"{code}\" status_message=\"no\"><paired>1</paired></root>");
        let nodes = parse_document::<()>(&text).unwrap();
        match host_pair4_response::<()>(&nodes) {
            Err(ApiError::InvalidXmlStatusCode { message }) => assert_eq!(message.as_deref(), Some("no")),
            other => panic!("unexpected {other:?}"),
        }
    }
}
