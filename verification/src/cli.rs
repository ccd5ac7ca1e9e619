use vstd::prelude::*;

use crate::client::load_balancing;
use crate::client::worker::WorkerType;

verus! {

/// TLS behaviour requested for the telemetry database connection.
#[derive(Debug, Clone, Copy, PartialEq, Eq, Structural)]
pub enum PgSslMode {
    Disable,
    Prefer,
    Require,
    VerifyCa,
    VerifyFull,
}

impl PgSslMode {
    /// The libpq spelling of the mode.
    pub open spec fn spec_name(self) -> Seq<char> {
        match self {
            PgSslMode::Disable => "disable"@,
            PgSslMode::Prefer => "prefer"@,
            PgSslMode::Require => "require"@,
            PgSslMode::VerifyCa => "verify-ca"@,
            PgSslMode::VerifyFull => "verify-full"@,
        }
    }

    pub fn as_str(self) -> (s: &'static str)
        ensures
            s@ == self.spec_name(),
    {
        match self {
            PgSslMode::Disable => "disable",
            PgSslMode::Prefer => "prefer",
            PgSslMode::Require => "require",
            PgSslMode::VerifyCa => "verify-ca",
            PgSslMode::VerifyFull => "verify-full",
        }
    }

    /// Whether the mode checks the server's certificate, so that a
    /// certificate file must be given.
    pub fn needs_certificate(self) -> (r: bool)
        ensures
            r == (self == PgSslMode::VerifyCa || self == PgSslMode::VerifyFull),
    {
        match self {
            PgSslMode::VerifyCa | PgSslMode::VerifyFull => true,
            _ => false,
        }
    }
}


/// The kind of application to start, as asked for on the command line.
#[derive(Debug, Clone, Copy, PartialEq, Eq, Structural)]
pub enum ServerType {
    FastAPI,
    Plumber,
    Shiny,
    QuartoShiny,
    Auto,
}

/// The load balancing strategy, as asked for on the command line.
#[derive(Debug, Clone, Copy, PartialEq, Eq, Structural)]
pub enum Strategy {
    /// Sends requests to workers in a round-robin fashion.
    RoundRobin,
    /// Hashes the IP address of the client to determine which worker to send the request to.
    IpHash,
    /// Adds a cookie to the requests to identify the worker to send the
    /// request to. This is useful for sticky sessions from within the same
    /// network.
    CookieHash,
    /// Round-robin with RPS (Requests Per Second) scaling.
    Rps,
}

impl Strategy {
    /// The load balancer's strategy of the same name.
    pub fn into_strategy(self) -> (s: load_balancing::Strategy)
        ensures
            s == match self {
                Strategy::RoundRobin => load_balancing::Strategy::RoundRobin,
                Strategy::IpHash => load_balancing::Strategy::IpHash,
                Strategy::CookieHash => load_balancing::Strategy::CookieHash,
                Strategy::Rps => load_balancing::Strategy::Rps,
            },
    {
        match self {
            Strategy::RoundRobin => load_balancing::Strategy::RoundRobin,
            Strategy::IpHash => load_balancing::Strategy::IpHash,
            Strategy::CookieHash => load_balancing::Strategy::CookieHash,
            Strategy::Rps => load_balancing::Strategy::Rps,
        }
    }
}

/// Where the address of a client is taken from, as asked for on the command line.
#[derive(Debug, Clone, Copy, PartialEq, Eq, Structural)]
pub enum IpFrom {
    Client,
    XForwardedFor,
    XRealIp,
}

impl IpFrom {
    /// The address extractor that reads the same source.
    pub fn into_extractor(self) -> (x: load_balancing::IpExtractor)
        ensures
            x == match self {
                IpFrom::Client => load_balancing::IpExtractor::ClientAddr,
                IpFrom::XForwardedFor => load_balancing::IpExtractor::XForwardedFor,
                IpFrom::XRealIp => load_balancing::IpExtractor::XRealIp,
            },
    {
        match self {
            IpFrom::Client => load_balancing::IpExtractor::ClientAddr,
            IpFrom::XForwardedFor => load_balancing::IpExtractor::XForwardedFor,
            IpFrom::XRealIp => load_balancing::IpExtractor::XRealIp,
        }
    }
}

/// How the server stops on a termination signal.
#[derive(Debug, Clone, Copy, PartialEq, Eq, Structural)]
pub enum Shutdown {
    Graceful,
    Immediate,
}

impl Shutdown {
    /// Stopping at once is the default.
    pub fn default_mode() -> (s: Shutdown)
        ensures
            s == Shutdown::Immediate,
    {
        Shutdown::Immediate
    }
}

/// Arguments of router mode.
pub struct RouterArgs {
    /// Router config file.
    pub conf: String,
}

/// Which of the entry files of an application directory exist.
#[derive(Debug, Clone, Copy, PartialEq, Eq, Structural)]
pub struct AppDirFiles {
    pub plumber_r: bool,
    pub entrypoint_r: bool,
    pub app_r: bool,
    pub ui_r: bool,
    pub server_r: bool,
}

/// A directory holds a Plumber API if it has `plumber.R` or `entrypoint.R`.
pub fn is_plumber(dir: &AppDirFiles) -> (r: bool)
    ensures
        r == (dir.plumber_r || dir.entrypoint_r),
{
    dir.plumber_r || dir.entrypoint_r
}

/// A directory holds a Shiny application if it has `app.R`, or both `ui.R`
/// and `server.R`.
pub fn is_shiny(dir: &AppDirFiles) -> (r: bool)
    ensures
        r == (dir.app_r || (dir.ui_r && dir.server_r)),
{
    dir.app_r || (dir.ui_r && dir.server_r)
}

/// The worker type to start: the one asked for, or for `Auto` the one that
/// the directory's files show (a Plumber API first). `None` when `Auto`
/// finds neither, which the command line reports as an error.
pub fn server_type(type_: ServerType, dir: &AppDirFiles) -> (r: Option<WorkerType>)
    ensures
        r == match type_ {
            ServerType::FastAPI => Some(WorkerType::FastAPI),
            ServerType::Plumber => Some(WorkerType::Plumber),
            ServerType::Shiny => Some(WorkerType::Shiny),
            ServerType::QuartoShiny => Some(WorkerType::QuartoShiny),
            ServerType::Auto => if dir.plumber_r || dir.entrypoint_r {
                Some(WorkerType::Plumber)
            } else if dir.app_r || (dir.ui_r && dir.server_r) {
                Some(WorkerType::Shiny)
            } else {
                None
            },
        },
{
    match type_ {
        ServerType::FastAPI => Some(WorkerType::FastAPI),
        ServerType::Plumber => Some(WorkerType::Plumber),
        ServerType::Shiny => Some(WorkerType::Shiny),
        ServerType::QuartoShiny => Some(WorkerType::QuartoShiny),
        ServerType::Auto => {
            if is_plumber(dir) {
                Some(WorkerType::Plumber)
            } else if is_shiny(dir) {
                Some(WorkerType::Shiny)
            } else {
                None
            }
        },
    }
}

} // verus!
