use faucet_server::error::{
    BadRequestReason, FaucetError, PoolErrorKind, WsErrorKind, WsUrlErrorKind,
};

#[test]
fn test_faucet_error() {
    let err = FaucetError::unknown("test");
    assert_eq!(err.to_string(), "Unknown error: test");
}

#[test]
fn test_faucet_error_debug() {
    let err = FaucetError::unknown("test");
    assert_eq!(err.debug_string(), r#"Unknown error: test"#);
}

#[test]
fn test_faucet_error_displat_missing_header() {
    let err = FaucetError::BadRequest(BadRequestReason::MissingHeader("test"));
    assert_eq!(err.to_string(), "Missing header: test");
}

#[test]
fn test_faucet_error_displat_invalid_header() {
    let err = FaucetError::BadRequest(BadRequestReason::InvalidHeader("test"));
    assert_eq!(err.to_string(), "Invalid header: test");
}

#[test]
fn test_faucet_error_from_io_error() {
    let err = FaucetError::Io("test".to_string());
    assert_eq!(err.to_string(), "IO error: test");
    let err = FaucetError::from_ws_error(WsErrorKind::Io("test".to_string()));
    assert_eq!(err.to_string(), "IO error: test");
}

#[test]
fn test_faucet_error_from_pool_error() {
    let err = FaucetError::from_pool_error(PoolErrorKind::Backend(FaucetError::unknown("test")));
    assert_eq!(err.to_string(), "Unknown error: test");
}

#[test]
fn test_faucet_error_from_pool_timeout_error() {
    let err = FaucetError::from_pool_error(PoolErrorKind::Timeout("Create".to_string()));
    assert_eq!(err.to_string(), "Pool timeout error: Create");
}

#[test]
fn test_faucet_error_from_pool_closed_error() {
    let err = FaucetError::from_pool_error(PoolErrorKind::Closed);
    assert_eq!(err.to_string(), "Pool closed error");
}

#[test]
fn test_faucet_error_from_pool_post_create_hook_error() {
    let err = FaucetError::from_pool_error(PoolErrorKind::PostCreateHook);
    assert_eq!(err.to_string(), "Pool post create hook error");
}

#[test]
fn test_faucet_error_from_pool_no_runtime_specified_error() {
    let err = FaucetError::from_pool_error(PoolErrorKind::NoRuntimeSpecified);
    assert_eq!(err.to_string(), "Pool no runtime specified error");
}

#[test]
fn test_from_fauct_error_to_hyper_response() {
    let err = FaucetError::unknown("test");
    let (status, body) = err.response_parts();
    assert_eq!(status, 500);
    assert_eq!(body, "Unknown error: test");
}

#[test]
fn error_messages() {
    assert_eq!(
        FaucetError::DuplicateRoute("/a".to_string()).to_string(),
        "Route '/a' is duplicated"
    );
    assert_eq!(
        FaucetError::MissingArgument("qmd").to_string(),
        "Missing argument: qmd"
    );
    assert_eq!(
        FaucetError::BadRequest(BadRequestReason::MissingQueryParam("sessionId")).to_string(),
        "Missing query parameter: sessionId"
    );
    assert_eq!(
        FaucetError::BadRequest(BadRequestReason::UnsupportedUrlScheme).to_string(),
        "UnsupportedUrlScheme use ws:// or wss://"
    );
    assert_eq!(
        FaucetError::no_sec_web_socket_key().to_string(),
        "Missing header: Sec-WebSocket-Key"
    );
    assert_eq!(
        FaucetError::WebSocketConnectionPurged.to_string(),
        "WebSocket Connection purged. The client is trying to access a Shiny connection that does not exist."
    );
}

#[test]
fn websocket_error_conversions() {
    assert_eq!(
        FaucetError::from_ws_error(WsErrorKind::Url(WsUrlErrorKind::EmptyHostName)).to_string(),
        "No Host Name"
    );
    assert_eq!(
        FaucetError::from_ws_error(WsErrorKind::Url(WsUrlErrorKind::NoPathOrQuery)).to_string(),
        "No path and/or query"
    );
    assert_eq!(
        FaucetError::from_ws_error(WsErrorKind::Url(WsUrlErrorKind::UnableToConnect(
            "x".to_string()
        )))
        .to_string(),
        "Unknown error: x"
    );
    assert_eq!(
        FaucetError::from_ws_error(WsErrorKind::AlreadyClosed).to_string(),
        "Connection closed"
    );
    assert_eq!(
        FaucetError::from_ws_error(WsErrorKind::Utf8).to_string(),
        "Utf8 Coding error: UTF-8 encoding error"
    );
    assert_eq!(
        FaucetError::from_ws_error(WsErrorKind::Http).to_string(),
        "Unknown error: Unknown HTTP error"
    );
    assert_eq!(
        FaucetError::from_ws_error(WsErrorKind::AttackAttempt).to_string(),
        "Attack attempt detected"
    );
}
