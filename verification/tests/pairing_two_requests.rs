use moonlight_web::network::{
    host_pair_challenge_response, host_pair_initiate_response, pair_challenge_query, pair_initiate_query,
    ApiError, ClientInfo, ClientPairChallengeRequest, ClientPairRequest, PairStatus,
};
use moonlight_web::xml::parse_document;

fn info() -> ClientInfo {
    ClientInfo { unique_id: "0123456789ABCDEF".to_string(), uuid: [0xab; 16] }
}

fn pairs(params: &[(String, String)]) -> Vec<(&str, &str)> {
    params.iter().map(|(k, v)| (k.as_str(), v.as_str())).collect()
}

#[test]
fn initiate_query_uses_lower_case_hex() {
    let request = ClientPairRequest {
        device_name: "roth".to_string(),
        salt: [0xAB; 16],
        client_cert_pem: [0x0F; 16],
    };
    let params = pair_initiate_query(&info(), &request);
    let tail = &pairs(&params)[2..];
    assert_eq!(
        tail,
        &[
            ("devicename", "roth"),
            ("updateState", "1"),
            ("phrase", "getservercert"),
            ("salt", "abababababababababababababababab"),
            ("clientcert", "0f0f0f0f0f0f0f0f0f0f0f0f0f0f0f0f"),
        ]
    );
    assert_eq!(pairs(&params)[0], ("uniqueid", "0123456789ABCDEF"));
}

#[test]
fn challenge_query_carries_the_challenge() {
    let mut challenge = [0u8; 16];
    challenge[15] = 0xC3;
    let params = pair_challenge_query(&info(), &ClientPairChallengeRequest { encrypted_challenge: challenge });
    assert_eq!(params.len(), 3);
    assert_eq!(pairs(&params)[2], ("clientchallenge", "000000000000000000000000000000c3"));
}

#[test]
fn initiate_response_keeps_certificate_text() {
    let nodes = parse_document::<()>(
        "<root status_code=\"200\"><paired>1</paired><plaincert>41</plaincert></root>",
    )
    .unwrap();
    let response = host_pair_initiate_response::<()>(&nodes).unwrap();
    assert_eq!(response.paired, PairStatus::Paired);
    assert_eq!(response.cert.as_deref(), Some("41"));

    let nodes = parse_document::<()>("<root status_code=\"200\"><paired>0</paired></root>").unwrap();
    let response = host_pair_initiate_response::<()>(&nodes).unwrap();
    assert_eq!(response.paired, PairStatus::NotPaired);
    assert!(response.cert.is_none());

    let nodes = parse_document::<()>("<root status_code=\"200\"></root>").unwrap();
    assert!(matches!(
        host_pair_initiate_response::<()>(&nodes),
        Err(ApiError::DetailNotFound("paired"))
    ));
}

#[test]
fn challenge_response_decodes_hex() {
    let nodes = parse_document::<()>(
        "<root status_code=\"200\"><paired>1</paired><challengeresponse>0aFF10</challengeresponse></root>",
    )
    .unwrap();
    let response = host_pair_challenge_response::<()>(&nodes).unwrap();
    assert_eq!(response.paired, PairStatus::Paired);
    assert_eq!(response.encrypted_response, vec![0x0a, 0xff, 0x10]);

    let nodes = parse_document::<()>(
        "<root status_code=\"200\"><paired>1</paired><challengeresponse>0aF</challengeresponse></root>",
    )
    .unwrap();
    assert!(matches!(host_pair_challenge_response::<()>(&nodes), Err(ApiError::ParseHexError(_))));
}
