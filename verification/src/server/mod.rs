use vstd::prelude::*;

pub mod logging;
pub mod onion;
pub mod router;
pub mod service;

use crate::client::load_balancing::{IpExtractor, Strategy};
use crate::client::worker::WorkerType;
use crate::error::{FaucetError, FaucetResult};
use crate::networking::SocketAddress;

verus! {

/// The strategy a server uses: the one asked for where it suits the kind of
/// application. APIs default to round robin. Shiny applications need every
/// request of a client to reach the same worker: they default to the
/// address hash, and round robin or requests per second are replaced by it;
/// the cookie hash is kept.
pub open spec fn spec_determine_strategy(server_type: WorkerType, strategy: Option<Strategy>) -> Strategy {
    match server_type {
        WorkerType::Plumber | WorkerType::FastAPI => match strategy {
            Some(s) => s,
            None => Strategy::RoundRobin,
        },
        WorkerType::Shiny | WorkerType::QuartoShiny => match strategy {
            Some(Strategy::CookieHash) => Strategy::CookieHash,
            _ => Strategy::IpHash,
        },
    }
}

pub fn determine_strategy(server_type: WorkerType, strategy: Option<Strategy>) -> (s: Strategy)
    ensures
        s == spec_determine_strategy(server_type, strategy),
{
    match server_type {
        WorkerType::Plumber | WorkerType::FastAPI => match strategy {
            Some(s) => s,
            None => Strategy::RoundRobin,
        },
        WorkerType::Shiny | WorkerType::QuartoShiny => match strategy {
            None => Strategy::IpHash,
            Some(Strategy::Rps) => Strategy::IpHash,
            Some(Strategy::CookieHash) => Strategy::CookieHash,
            Some(Strategy::RoundRobin) => Strategy::IpHash,
            Some(Strategy::IpHash) => Strategy::IpHash,
        },
    }
}

/// A Shiny application is never served by round robin or requests per second.
pub proof fn lemma_shiny_is_sticky(server_type: WorkerType, strategy: Option<Strategy>)
    requires
        server_type == WorkerType::Shiny || server_type == WorkerType::QuartoShiny,
    ensures
        spec_determine_strategy(server_type, strategy) == Strategy::IpHash
            || spec_determine_strategy(server_type, strategy) == Strategy::CookieHash,
{
}

/// A Plumber or FastAPI application is served by the strategy that was
/// asked for, whichever it is, and by round robin where none was; a Shiny
/// application keeps the cookie hash when asked for it and is otherwise
/// served by the address hash.
pub proof fn lemma_strategy_choice(server_type: WorkerType, strategy: Option<Strategy>)
    ensures
        (server_type == WorkerType::Plumber || server_type == WorkerType::FastAPI) ==> {
            &&& (strategy matches Some(s) ==> spec_determine_strategy(server_type, strategy) == s)
            &&& (strategy is None ==> spec_determine_strategy(server_type, strategy)
                == Strategy::RoundRobin)
        },
        (server_type == WorkerType::Shiny || server_type == WorkerType::QuartoShiny) ==> {
            &&& (strategy == Some(Strategy::CookieHash) ==> spec_determine_strategy(
                server_type,
                strategy,
            ) == Strategy::CookieHash)
            &&& (strategy != Some(Strategy::CookieHash) ==> spec_determine_strategy(
                server_type,
                strategy,
            ) == Strategy::IpHash)
        },
{
}

/// Calls `num_cpus::get`. The contract claims what the crate documents:
/// the count is at least 1. The count itself depends on the machine.
#[verifier::external_body]
fn logical_cpus() -> (n: usize)
    ensures
        n >= 1,
{
    num_cpus::get()
}

/// Collects the settings of a server; `T` is the telemetry sink.
pub struct FaucetServerBuilder<T> {
    pub strategy: Option<Strategy>,
    pub bind: Option<SocketAddress>,
    pub n_workers: Option<usize>,
    pub server_type: Option<WorkerType>,
    pub workdir: Option<String>,
    pub extractor: Option<IpExtractor>,
    pub rscript: Option<String>,
    pub app_dir: Option<String>,
    pub quarto: Option<String>,
    pub qmd: Option<String>,
    pub route: Option<String>,
    pub telemetry: Option<T>,
}

/// The settings of a server, defaults filled in.
pub struct FaucetServerConfig<T> {
    pub strategy: Strategy,
    pub bind: Option<SocketAddress>,
    /// At least 1.
    pub n_workers: usize,
    pub server_type: WorkerType,
    pub workdir: String,
    pub extractor: IpExtractor,
    pub rscript: String,
    pub quarto: String,
    pub telemetry: Option<T>,
    pub app_dir: Option<String>,
    pub route: Option<String>,
    pub qmd: Option<String>,
}

/// The text of an optional string.
pub open spec fn opt_view(s: Option<String>) -> Option<Seq<char>> {
    match s {
        Some(v) => Some(v@),
        None => None,
    }
}

/// The text of an optional string, `default` where there is none.
pub open spec fn view_or(s: Option<String>, default: Seq<char>) -> Seq<char> {
    match s {
        Some(v) => v@,
        None => default,
    }
}

impl<T> FaucetServerBuilder<T> {
    /// A builder with nothing set.
    pub fn new() -> (b: Self)
        ensures
            b.strategy is None,
            b.bind is None,
            b.n_workers is None,
            b.server_type is None,
            b.workdir is None,
            b.extractor is None,
            b.rscript is None,
            b.app_dir is None,
            b.quarto is None,
            b.qmd is None,
            b.route is None,
            b.telemetry is None,
    {
        FaucetServerBuilder {
            strategy: None,
            bind: None,
            n_workers: None,
            server_type: None,
            workdir: None,
            extractor: None,
            rscript: None,
            app_dir: None,
            route: None,
            quarto: None,
            qmd: None,
            telemetry: None,
        }
    }

    pub fn app_dir(self, app_dir: Option<String>) -> (b: Self)
        ensures
            b == (FaucetServerBuilder { app_dir, ..self }),
    {
        FaucetServerBuilder { app_dir, ..self }
    }

    pub fn strategy(self, strategy: Option<Strategy>) -> (b: Self)
        ensures
            b == (FaucetServerBuilder { strategy, ..self }),
    {
        FaucetServerBuilder { strategy, ..self }
    }

    pub fn bind(self, bind: SocketAddress) -> (b: Self)
        ensures
            b == (FaucetServerBuilder { bind: Some(bind), ..self }),
    {
        FaucetServerBuilder { bind: Some(bind), ..self }
    }

    pub fn extractor(self, extractor: IpExtractor) -> (b: Self)
        ensures
            b == (FaucetServerBuilder { extractor: Some(extractor), ..self }),
    {
        FaucetServerBuilder { extractor: Some(extractor), ..self }
    }

    /// Sets the number of workers, which must be at least 1 (the command
    /// line stops the program otherwise).
    pub fn workers(self, n: usize) -> (b: Self)
        requires
            n > 0,
        ensures
            b == (FaucetServerBuilder { n_workers: Some(n), ..self }),
    {
        FaucetServerBuilder { n_workers: Some(n), ..self }
    }

    pub fn server_type(self, server_type: WorkerType) -> (b: Self)
        ensures
            b == (FaucetServerBuilder { server_type: Some(server_type), ..self }),
    {
        FaucetServerBuilder { server_type: Some(server_type), ..self }
    }

    pub fn workdir(self, workdir: String) -> (b: Self)
        ensures
            b == (FaucetServerBuilder { workdir: Some(workdir), ..self }),
    {
        FaucetServerBuilder { workdir: Some(workdir), ..self }
    }

    pub fn rscript(self, rscript: String) -> (b: Self)
        ensures
            b == (FaucetServerBuilder { rscript: Some(rscript), ..self }),
    {
        FaucetServerBuilder { rscript: Some(rscript), ..self }
    }

    pub fn quarto(self, quarto: String) -> (b: Self)
        ensures
            b == (FaucetServerBuilder { quarto: Some(quarto), ..self }),
    {
        FaucetServerBuilder { quarto: Some(quarto), ..self }
    }

    pub fn qmd(self, qmd: Option<String>) -> (b: Self)
        ensures
            b == (FaucetServerBuilder { qmd, ..self }),
    {
        FaucetServerBuilder { qmd, ..self }
    }

    pub fn telemetry(self, telemetry: Option<T>) -> (b: Self)
        ensures
            b == (FaucetServerBuilder { telemetry, ..self }),
    {
        FaucetServerBuilder { telemetry, ..self }
    }

    pub fn route(self, route: String) -> (b: Self)
        ensures
            b == (FaucetServerBuilder { route: Some(route), ..self }),
    {
        FaucetServerBuilder { route: Some(route), ..self }
    }

    /// Fills in the defaults: the strategy that suits the kind of
    /// application, one worker per logical CPU, the current directory,
    /// `Rscript`, `quarto` and the socket address of the client. The kind of
    /// application must have been set. The number of logical CPUs is read
    /// only where no number of workers was set.
    pub fn build(self) -> (r: FaucetResult<FaucetServerConfig<T>>)
        requires
            self.n_workers matches Some(n) ==> n > 0,
        ensures
            match self.server_type {
                None => r matches Err(FaucetError::MissingArgument(a)) && a@ == "server_type"@,
                Some(st) => r matches Ok(c) && c.n_workers >= 1 && built_from(self, c.n_workers, c),
            },
    {
        let default_workers = match self.n_workers {
            Some(n) => n,
            None => logical_cpus(),
        };
        self.build_with_cpus(default_workers)
    }

    /// Fills in the defaults as `build` does, with `ncpu` as the number of
    /// logical CPUs: the number of workers is the one set, else `ncpu`.
    pub fn build_with_cpus(self, ncpu: usize) -> (r: FaucetResult<FaucetServerConfig<T>>)
        requires
            self.n_workers matches Some(n) ==> n > 0,
            ncpu > 0,
        ensures
            match self.server_type {
                None => r matches Err(FaucetError::MissingArgument(a)) && a@ == "server_type"@,
                Some(st) => r matches Ok(c) && built_from(self, ncpu, c),
            },
    {
        let server_type = match self.server_type {
            Some(st) => st,
            None => {
                return Err(FaucetError::MissingArgument("server_type"));
            },
        };
        let strategy = determine_strategy(server_type, self.strategy);
        let n_workers = match self.n_workers {
            Some(n) => n,
            None => ncpu,
        };
        let workdir = match self.workdir {
            Some(w) => w,
            None => String::from_str("."),
        };
        let rscript = match self.rscript {
            Some(r) => r,
            None => String::from_str("Rscript"),
        };
        let extractor = match self.extractor {
            Some(x) => x,
            None => IpExtractor::ClientAddr,
        };
        let quarto = match self.quarto {
            Some(q) => q,
            None => String::from_str("quarto"),
        };
        Ok(FaucetServerConfig {
            strategy,
            bind: self.bind,
            n_workers,
            server_type,
            workdir,
            extractor,
            rscript,
            app_dir: self.app_dir,
            route: self.route,
            quarto,
            telemetry: self.telemetry,
            qmd: self.qmd,
        })
    }
}

/// `c` is what a builder with its kind of application set gives, with
/// `ncpu` as the number of logical CPUs: each setting that was set, else
/// its default.
pub open spec fn built_from<T>(b: FaucetServerBuilder<T>, ncpu: usize, c: FaucetServerConfig<T>) -> bool {
    &&& b.server_type == Some(c.server_type)
    &&& c.strategy == spec_determine_strategy(c.server_type, b.strategy)
    &&& c.bind == b.bind
    &&& c.n_workers == (match b.n_workers {
        Some(n) => n,
        None => ncpu,
    })
    &&& c.workdir@ == view_or(b.workdir, "."@)
    &&& c.rscript@ == view_or(b.rscript, "Rscript"@)
    &&& c.quarto@ == view_or(b.quarto, "quarto"@)
    &&& c.extractor == (match b.extractor {
        Some(x) => x,
        None => IpExtractor::ClientAddr,
    })
    &&& opt_view(c.app_dir) == opt_view(b.app_dir)
    &&& opt_view(c.qmd) == opt_view(b.qmd)
    &&& opt_view(c.route) == opt_view(b.route)
    &&& c.telemetry == b.telemetry
}

impl<T> FaucetServerConfig<T> {
    /// The address to listen on, which a server that runs on its own needs.
    pub fn bind_address(&self) -> (r: FaucetResult<SocketAddress>)
        ensures
            match self.bind {
                Some(b) => r == Ok::<SocketAddress, FaucetError>(b),
                None => r matches Err(FaucetError::MissingArgument(a)) && a@ == "bind"@,
            },
    {
        match self.bind {
            Some(b) => Ok(b),
            None => Err(FaucetError::MissingArgument("bind")),
        }
    }
}

} // verus!
