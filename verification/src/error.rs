use vstd::prelude::*;

verus! {

/// Why a client request was refused before it reached a worker.
pub enum BadRequestReason {
    MissingHeader(&'static str),
    InvalidHeader(&'static str),
    MissingQueryParam(&'static str),
    InvalidQueryParam(&'static str),
    NoPathOrQuery,
    NoHostName,
    UnsupportedUrlScheme,
}

impl BadRequestReason {
    /// The human readable text of the reason.
    pub open spec fn spec_message(&self) -> Seq<char> {
        match self {
            BadRequestReason::MissingQueryParam(p) => "Missing query parameter: "@ + p@,
            BadRequestReason::InvalidQueryParam(p) => "Invalid query parameter: "@ + p@,
            BadRequestReason::UnsupportedUrlScheme => "UnsupportedUrlScheme use ws:// or wss://"@,
            BadRequestReason::NoHostName => "No Host Name"@,
            BadRequestReason::MissingHeader(h) => "Missing header: "@ + h@,
            BadRequestReason::InvalidHeader(h) => "Invalid header: "@ + h@,
            BadRequestReason::NoPathOrQuery => "No path and/or query"@,
        }
    }

    /// Renders the reason as text.
    pub fn to_string(&self) -> (s: String)
        ensures
            s@ == self.spec_message(),
    {
        match self {
            BadRequestReason::MissingQueryParam(p) => {
                let mut s = String::from_str("Missing query parameter: ");
                s.append(p);
                s
            },
            BadRequestReason::InvalidQueryParam(p) => {
                let mut s = String::from_str("Invalid query parameter: ");
                s.append(p);
                s
            },
            BadRequestReason::UnsupportedUrlScheme => String::from_str(
                "UnsupportedUrlScheme use ws:// or wss://",
            ),
            BadRequestReason::NoHostName => String::from_str("No Host Name"),
            BadRequestReason::MissingHeader(h) => {
                let mut s = String::from_str("Missing header: ");
                s.append(h);
                s
            },
            BadRequestReason::InvalidHeader(h) => {
                let mut s = String::from_str("Invalid header: ");
                s.append(h);
                s
            },
            BadRequestReason::NoPathOrQuery => String::from_str("No path and/or query"),
        }
    }
}

/// Every failure the server can report.
///
/// Errors that originate in a transport or pool library carry the text that
/// the library gave for them.
pub enum FaucetError {
    PoolBuild(String),
    PoolTimeout(String),
    PoolPostCreateHook,
    PoolClosed,
    PoolNoRuntimeSpecified,
    NoSocketsAvailable,
    ConnectionClosed,
    Io(String),
    Unknown(String),
    HostParseError(String),
    Hyper(String),
    BadRequest(BadRequestReason),
    InvalidHeaderValues(String),
    Http(String),
    MissingArgument(&'static str),
    DuplicateRoute(String),
    Utf8Coding(String),
    BufferCapacity(String),
    ProtocolViolation(String),
    WSWriteBufferFull(String),
    PostgreSQL(String),
    WebSocketConnectionInUse,
    WebSocketConnectionPurged,
    AttackAttempt,
}

/// Result type used throughout the server.
pub type FaucetResult<T> = Result<T, FaucetError>;

/// The text that describes an error.
pub open spec fn error_message(e: &FaucetError) -> Seq<char> {
    match e {
        FaucetError::PoolBuild(s) => "Pool build error: "@ + s@,
        FaucetError::PoolTimeout(s) => "Pool timeout error: "@ + s@,
        FaucetError::PoolPostCreateHook => "Pool post create hook error"@,
        FaucetError::PoolClosed => "Pool closed error"@,
        FaucetError::PoolNoRuntimeSpecified => "Pool no runtime specified error"@,
        FaucetError::NoSocketsAvailable => "No sockets available"@,
        FaucetError::ConnectionClosed => "Connection closed"@,
        FaucetError::Io(s) => "IO error: "@ + s@,
        FaucetError::Unknown(s) => "Unknown error: "@ + s@,
        FaucetError::HostParseError(s) => "Error parsing host address: "@ + s@,
        FaucetError::Hyper(s) => "Hyper error: "@ + s@,
        FaucetError::BadRequest(r) => r.spec_message(),
        FaucetError::InvalidHeaderValues(s) => "Invalid header values: "@ + s@,
        FaucetError::Http(s) => "Http error: "@ + s@,
        FaucetError::MissingArgument(a) => "Missing argument: "@ + a@,
        FaucetError::DuplicateRoute(r) => "Route '"@ + r@ + "' is duplicated"@,
        FaucetError::Utf8Coding(s) => "Utf8 Coding error: "@ + s@,
        FaucetError::BufferCapacity(s) => "Buffer Capacity: "@ + s@,
        FaucetError::ProtocolViolation(s) => "Protocol violation: "@ + s@,
        FaucetError::WSWriteBufferFull(s) => "Web Socket Write buffer full, "@ + s@,
        FaucetError::PostgreSQL(s) => "PostgreSQL error: "@ + s@,
        FaucetError::WebSocketConnectionInUse => "WebSocket Connection in use"@,
        FaucetError::WebSocketConnectionPurged =>
            "WebSocket Connection purged. The client is trying to access a Shiny connection that does not exist."@,
        FaucetError::AttackAttempt => "Attack attempt detected"@,
    }
}

/// `prefix` followed by `tail`.
fn prefixed(prefix: &str, tail: &str) -> (s: String)
    ensures
        s@ == prefix@ + tail@,
{
    let mut s = String::from_str(prefix);
    s.append(tail);
    s
}

impl FaucetError {
    /// The error raised when a WebSocket upgrade lacks its key header.
    pub fn no_sec_web_socket_key() -> (e: Self)
        ensures
            e == FaucetError::BadRequest(BadRequestReason::MissingHeader("Sec-WebSocket-Key")),
    {
        FaucetError::BadRequest(BadRequestReason::MissingHeader("Sec-WebSocket-Key"))
    }

    /// An error that only carries a description.
    pub fn unknown(s: &str) -> (e: Self)
        ensures
            e matches FaucetError::Unknown(m) && m@ == s@,
    {
        FaucetError::Unknown(String::from_str(s))
    }

    /// The text that describes the error.
    pub fn to_string(&self) -> (s: String)
        ensures
            s@ == error_message(self),
    {
        match self {
            FaucetError::PoolBuild(s) => prefixed("Pool build error: ", s.as_str()),
            FaucetError::PoolTimeout(s) => prefixed("Pool timeout error: ", s.as_str()),
            FaucetError::PoolPostCreateHook => String::from_str("Pool post create hook error"),
            FaucetError::PoolClosed => String::from_str("Pool closed error"),
            FaucetError::PoolNoRuntimeSpecified => String::from_str(
                "Pool no runtime specified error",
            ),
            FaucetError::NoSocketsAvailable => String::from_str("No sockets available"),
            FaucetError::ConnectionClosed => String::from_str("Connection closed"),
            FaucetError::Io(s) => prefixed("IO error: ", s.as_str()),
            FaucetError::Unknown(s) => prefixed("Unknown error: ", s.as_str()),
            FaucetError::HostParseError(s) => prefixed("Error parsing host address: ", s.as_str()),
            FaucetError::Hyper(s) => prefixed("Hyper error: ", s.as_str()),
            FaucetError::BadRequest(r) => r.to_string(),
            FaucetError::InvalidHeaderValues(s) => prefixed("Invalid header values: ", s.as_str()),
            FaucetError::Http(s) => prefixed("Http error: ", s.as_str()),
            FaucetError::MissingArgument(a) => prefixed("Missing argument: ", a),
            FaucetError::DuplicateRoute(r) => {
                let mut s = prefixed("Route '", r.as_str());
                s.append("' is duplicated");
                s
            },
            FaucetError::Utf8Coding(s) => prefixed("Utf8 Coding error: ", s.as_str()),
            FaucetError::BufferCapacity(s) => prefixed("Buffer Capacity: ", s.as_str()),
            FaucetError::ProtocolViolation(s) => prefixed("Protocol violation: ", s.as_str()),
            FaucetError::WSWriteBufferFull(s) => prefixed(
                "Web Socket Write buffer full, ",
                s.as_str(),
            ),
            FaucetError::PostgreSQL(s) => prefixed("PostgreSQL error: ", s.as_str()),
            FaucetError::WebSocketConnectionInUse => String::from_str("WebSocket Connection in use"),
            FaucetError::WebSocketConnectionPurged => String::from_str(
                "WebSocket Connection purged. The client is trying to access a Shiny connection that does not exist.",
            ),
            FaucetError::AttackAttempt => String::from_str("Attack attempt detected"),
        }
    }

    /// The HTTP response that reports the error: status 500, with the
    /// error's description as a plain text body.
    pub fn response_parts(&self) -> (r: (u16, String))
        ensures
            r.0 == 500,
            r.1@ == error_message(self),
    {
        (500, self.to_string())
    }

    /// The debug rendering of an error is its description.
    pub fn debug_string(&self) -> (s: String)
        ensures
            s@ == error_message(self),
    {
        self.to_string()
    }
}

/// What a WebSocket URL error says, by kind.
pub enum WsUrlErrorKind {
    TlsFeatureNotEnabled,
    NoHostName,
    /// Connecting failed; the text names the address.
    UnableToConnect(String),
    UnsupportedUrlScheme,
    EmptyHostName,
    NoPathOrQuery,
}

/// What a WebSocket error says, by kind; where the error wraps another one,
/// the text of that one.
pub enum WsErrorKind {
    ConnectionClosed,
    AlreadyClosed,
    Io(String),
    Tls(String),
    Capacity(String),
    Protocol(String),
    /// The write buffer is full; the text of the message that did not fit.
    WriteBufferFull(String),
    Utf8,
    AttackAttempt,
    Url(WsUrlErrorKind),
    Http,
    HttpFormat(String),
}

/// What a connection pool error says, by kind.
pub enum PoolErrorKind {
    /// Creating or recycling a connection failed with this error.
    Backend(FaucetError),
    /// Waiting timed out; the text names the stage that timed out.
    Timeout(String),
    Closed,
    PostCreateHook,
    NoRuntimeSpecified,
}

/// The server error that a WebSocket error becomes. An error for a URL
/// that needs TLS has none.
pub open spec fn ws_error_becomes(e: WsErrorKind, r: FaucetError) -> bool {
    match e {
        WsErrorKind::Io(s) => r == FaucetError::Io(s),
        WsErrorKind::Url(u) => match u {
            WsUrlErrorKind::NoPathOrQuery => r == FaucetError::BadRequest(
                BadRequestReason::NoPathOrQuery,
            ),
            WsUrlErrorKind::NoHostName => r == FaucetError::BadRequest(BadRequestReason::NoHostName),
            WsUrlErrorKind::EmptyHostName => r == FaucetError::BadRequest(
                BadRequestReason::NoHostName,
            ),
            WsUrlErrorKind::UnableToConnect(s) => r == FaucetError::Unknown(s),
            WsUrlErrorKind::UnsupportedUrlScheme => r == FaucetError::BadRequest(
                BadRequestReason::UnsupportedUrlScheme,
            ),
            WsUrlErrorKind::TlsFeatureNotEnabled => false,
        },
        WsErrorKind::Tls(s) => r == FaucetError::Unknown(s),
        WsErrorKind::Utf8 => r matches FaucetError::Utf8Coding(t) && t@ == "UTF-8 encoding error"@,
        WsErrorKind::Http => r matches FaucetError::Unknown(t) && t@ == "Unknown HTTP error"@,
        WsErrorKind::Capacity(s) => r == FaucetError::BufferCapacity(s),
        WsErrorKind::HttpFormat(s) => r == FaucetError::Http(s),
        WsErrorKind::Protocol(s) => r == FaucetError::ProtocolViolation(s),
        WsErrorKind::AlreadyClosed => r == FaucetError::ConnectionClosed,
        WsErrorKind::ConnectionClosed => r == FaucetError::ConnectionClosed,
        WsErrorKind::AttackAttempt => r == FaucetError::AttackAttempt,
        WsErrorKind::WriteBufferFull(s) => r == FaucetError::WSWriteBufferFull(s),
    }
}

/// The server error that a pool error becomes: an error of the backend
/// is passed on as it is.
pub open spec fn spec_from_pool_error(e: PoolErrorKind) -> FaucetError {
    match e {
        PoolErrorKind::Backend(inner) => inner,
        PoolErrorKind::Timeout(s) => FaucetError::PoolTimeout(s),
        PoolErrorKind::Closed => FaucetError::PoolClosed,
        PoolErrorKind::PostCreateHook => FaucetError::PoolPostCreateHook,
        PoolErrorKind::NoRuntimeSpecified => FaucetError::PoolNoRuntimeSpecified,
    }
}

impl FaucetError {
    /// Turns a WebSocket error into a server error. A URL that needs TLS
    /// is never handed over: the server has no TLS for WebSockets.
    pub fn from_ws_error(e: WsErrorKind) -> (r: Self)
        requires
            !(e matches WsErrorKind::Url(WsUrlErrorKind::TlsFeatureNotEnabled)),
        ensures
            ws_error_becomes(e, r),
    {
        match e {
            WsErrorKind::Io(s) => FaucetError::Io(s),
            WsErrorKind::Url(u) => match u {
                WsUrlErrorKind::NoPathOrQuery => FaucetError::BadRequest(
                    BadRequestReason::NoPathOrQuery,
                ),
                WsUrlErrorKind::NoHostName => FaucetError::BadRequest(BadRequestReason::NoHostName),
                WsUrlErrorKind::EmptyHostName => FaucetError::BadRequest(
                    BadRequestReason::NoHostName,
                ),
                WsUrlErrorKind::UnableToConnect(s) => FaucetError::Unknown(s),
                WsUrlErrorKind::UnsupportedUrlScheme => FaucetError::BadRequest(
                    BadRequestReason::UnsupportedUrlScheme,
                ),
                WsUrlErrorKind::TlsFeatureNotEnabled => {
                    assert(false);
                    FaucetError::ConnectionClosed
                },
            },
            WsErrorKind::Tls(s) => FaucetError::Unknown(s),
            WsErrorKind::Utf8 => {
                proof {
                    reveal_strlit("UTF-8 encoding error");
                }
                FaucetError::Utf8Coding(String::from_str("UTF-8 encoding error"))
            },
            WsErrorKind::Http => {
                proof {
                    reveal_strlit("Unknown HTTP error");
                }
                FaucetError::Unknown(String::from_str("Unknown HTTP error"))
            },
            WsErrorKind::Capacity(s) => FaucetError::BufferCapacity(s),
            WsErrorKind::HttpFormat(s) => FaucetError::Http(s),
            WsErrorKind::Protocol(s) => FaucetError::ProtocolViolation(s),
            WsErrorKind::AlreadyClosed => FaucetError::ConnectionClosed,
            WsErrorKind::ConnectionClosed => FaucetError::ConnectionClosed,
            WsErrorKind::AttackAttempt => FaucetError::AttackAttempt,
            WsErrorKind::WriteBufferFull(s) => FaucetError::WSWriteBufferFull(s),
        }
    }

    /// Turns a pool error into a server error.
    pub fn from_pool_error(e: PoolErrorKind) -> (r: Self)
        ensures
            r == spec_from_pool_error(e),
    {
        match e {
            PoolErrorKind::Backend(inner) => inner,
            PoolErrorKind::Timeout(s) => FaucetError::PoolTimeout(s),
            PoolErrorKind::Closed => FaucetError::PoolClosed,
            PoolErrorKind::PostCreateHook => FaucetError::PoolPostCreateHook,
            PoolErrorKind::NoRuntimeSpecified => FaucetError::PoolNoRuntimeSpecified,
        }
    }
}

} // verus!
