use moonlight_web::network::{ParseServerVersionError, ServerState, ServerVersion};
use moonlight_web::text::IntErrorKind;

#[test]
fn server_version_reads_four_numbers() {
    let v = ServerVersion::from_str("7.1.431.-1").unwrap();
    assert_eq!(v, ServerVersion { major: 7, minor: 1, patch: 431, mini_patch: -1 });
}

#[test]
fn server_version_needs_four_pieces() {
    assert_eq!(ServerVersion::from_str("7.1.431"), Err(ParseServerVersionError::InvalidPattern));
}

#[test]
fn server_version_rejects_bad_numbers() {
    match ServerVersion::from_str("7.x.1.1") {
        Err(ParseServerVersionError::ParseIntError(e)) => assert_eq!(e.kind, IntErrorKind::InvalidDigit),
        other => panic!("unexpected {:?}", other),
    }
}

#[test]
fn server_version_text_round_trips() {
    let v = ServerVersion { major: 7, minor: 1, patch: 431, mini_patch: -1 };
    assert_eq!(v.to_string(), "7.1.431.-1");
    assert_eq!(ServerVersion::from_str(&v.to_string()), Ok(v));
}

#[test]
fn server_state_reads_the_end() {
    assert_eq!(ServerState::from_str("SUNSHINE_SERVER_FREE"), Ok(ServerState::Free));
    assert_eq!(ServerState::from_str("SUNSHINE_SERVER_BUSY"), Ok(ServerState::Busy));
    assert!(ServerState::from_str("SUNSHINE").is_err());
}
