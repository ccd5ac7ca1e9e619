use faucet_server::client::websockets::{
    build_ws_uri, calculate_sec_websocket_accept, parse_usize, purged_close_reason,
    query_params, session_params, AfterBridge, BridgeEnd, ConnectionManager, InitDecision, PURGED_CLOSE_REASON,
};
use faucet_server::error::{BadRequestReason, FaucetError};
use faucet_server::session::Uuid;

#[test]
fn test_calculate_sec_websocket_accept() {
    let key = "dGhlIHNhbXBsZSBub25jZQ==";
    let accept = calculate_sec_websocket_accept(key.as_bytes());
    assert_eq!(accept, b"s3pPLMBiTxaQ9kYGzzhZRbK+xOo=");
}

#[test]
fn test_build_uri() {
    let uri = build_ws_uri("127.0.0.1:8000", Some("/test?a=1"));
    assert_eq!(uri, "ws://127.0.0.1:8000/test?a=1");
}

#[test]
fn build_uri_no_path() {
    let uri = build_ws_uri("127.0.0.1:8000", None);
    assert_eq!(uri, "ws://127.0.0.1:8000/");
}

#[test]
fn parse_usize_values() {
    assert_eq!(parse_usize("0"), Some(0));
    assert_eq!(parse_usize("+12"), Some(12));
    assert_eq!(parse_usize("18446744073709551615"), Some(usize::MAX));
    assert_eq!(parse_usize("18446744073709551616"), None);
    assert_eq!(parse_usize(""), None);
    assert_eq!(parse_usize("-1"), None);
    assert_eq!(parse_usize("1a"), None);
}

#[test]
fn session_params_from_query() {
    let q = b"sessionId=01234567-89ab-cdef-0123-456789abcdef&attempt=2";
    let (sid, attempt) = session_params(Some(q)).ok().unwrap();
    assert_eq!(sid, Uuid::from_u128(0x0123_4567_89ab_cdef_0123_4567_89ab_cdef));
    assert_eq!(attempt, 2);
}

#[test]
fn session_params_errors() {
    match session_params(None) {
        Err(FaucetError::BadRequest(BadRequestReason::MissingQueryParam(p))) => {
            assert_eq!(p, "sessionId")
        }
        _ => panic!("expected a missing session"),
    }
    match session_params(Some(b"sessionId=nope&attempt=1")) {
        Err(FaucetError::BadRequest(BadRequestReason::MissingQueryParam(p))) => {
            assert_eq!(p, "sessionId")
        }
        _ => panic!("expected a missing session"),
    }
    match session_params(Some(b"sessionId=01234567-89ab-cdef-0123-456789abcdef")) {
        Err(FaucetError::BadRequest(BadRequestReason::MissingQueryParam(p))) => {
            assert_eq!(p, "attempt")
        }
        _ => panic!("expected a missing attempt"),
    }
}

#[test]
fn connection_cache_round_trip() {
    let mut m: ConnectionManager<&'static str> = ConnectionManager::new();
    let s = Uuid::from_u128(9);
    assert!(matches!(
        m.initialize_if_not(s, 0),
        Ok(InitDecision::Connect)
    ));
    assert!(matches!(
        m.initialize_if_not(s, 0),
        Ok(InitDecision::AlreadyInitialized)
    ));
    assert!(matches!(
        m.attempt_take(s),
        Err(FaucetError::WebSocketConnectionInUse)
    ));
    assert_eq!(m.end_bridge(s, BridgeEnd::ClientLeft, "pair"), AfterBridge::RecheckLater);
    assert!(m.is_takeable(s));
    assert!(matches!(m.attempt_take(s), Ok("pair")));
    m.put_back(s, "pair again");
    assert_eq!(m.recheck(s), Some("pair again"));
    assert!(!m.is_takeable(s));
    assert_eq!(m.purge_count, 1);
}

#[test]
fn connection_cache_refuses_unknown_reconnect() {
    let mut m: ConnectionManager<u8> = ConnectionManager::new();
    let s = Uuid::from_u128(1);
    assert!(matches!(
        m.initialize_if_not(s, 3),
        Err(FaucetError::WebSocketConnectionPurged)
    ));
    let t = Uuid::from_u128(2);
    assert!(matches!(m.initialize_if_not(t, 0), Ok(InitDecision::Connect)));
    assert_eq!(m.end_bridge(t, BridgeEnd::WorkerLeft, 5), AfterBridge::Done);
    assert!(matches!(
        m.initialize_if_not(t, 1),
        Err(FaucetError::WebSocketConnectionPurged)
    ));
}

#[test]
fn close_reason_for_purged_sessions() {
    assert_eq!(
        purged_close_reason(&FaucetError::WebSocketConnectionPurged),
        Some(PURGED_CLOSE_REASON)
    );
    assert_eq!(purged_close_reason(&FaucetError::ConnectionClosed), None);
}

#[test]
fn query_params_later_pairs_replace_earlier() {
    let pairs = vec![
        ("sessionId".to_string(), "nope".to_string()),
        ("attempt".to_string(), "3".to_string()),
        ("other".to_string(), "x".to_string()),
        ("sessionId".to_string(), "01234567-89ab-cdef-0123-456789abcdef".to_string()),
    ];
    assert_eq!(
        query_params(&pairs),
        (Some(Uuid::from_u128(0x0123_4567_89ab_cdef_0123_4567_89ab_cdef)), Some(3))
    );
    let pairs = vec![
        ("attempt".to_string(), "3".to_string()),
        ("attempt".to_string(), "x".to_string()),
    ];
    assert_eq!(query_params(&pairs), (None, None));
    assert_eq!(query_params(&Vec::new()), (None, None));
}
