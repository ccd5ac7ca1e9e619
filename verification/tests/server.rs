use faucet_server::cli::{is_plumber, is_shiny, server_type, AppDirFiles, IpFrom, ServerType};
use faucet_server::client::load_balancing::{IpExtractor, Strategy};
use faucet_server::client::worker::WorkerType;
use faucet_server::error::FaucetError;
use faucet_server::networking::{
    candidate_port, is_unsafe_port, port_candidate, IpAddress, SocketAddress, PORT_RANGE_END,
    PORT_RANGE_START,
};
use faucet_server::server::router::{
    default_workdir, strip_prefix, PathAndQuery, ReducedServerConfig, RouteConfig, RouterConfig,
    RouterService,
};
use faucet_server::server::{determine_strategy, FaucetServerBuilder};

fn pq(path: &str, query: Option<&str>) -> PathAndQuery {
    PathAndQuery {
        path: path.to_string(),
        query: query.map(|q| q.to_string()),
    }
}

#[test]
fn strategies_per_application_kind() {
    assert_eq!(determine_strategy(WorkerType::Plumber, None), Strategy::RoundRobin);
    assert_eq!(
        determine_strategy(WorkerType::Plumber, Some(Strategy::Rps)),
        Strategy::Rps
    );
    assert_eq!(determine_strategy(WorkerType::FastAPI, None), Strategy::RoundRobin);
    assert_eq!(determine_strategy(WorkerType::Shiny, None), Strategy::IpHash);
    assert_eq!(
        determine_strategy(WorkerType::Shiny, Some(Strategy::RoundRobin)),
        Strategy::IpHash
    );
    assert_eq!(
        determine_strategy(WorkerType::QuartoShiny, Some(Strategy::CookieHash)),
        Strategy::CookieHash
    );
}

#[test]
fn builder_defaults() {
    let config = FaucetServerBuilder::<()>::new()
        .server_type(WorkerType::Shiny)
        .build()
        .ok()
        .expect("server type is set");
    assert_eq!(config.strategy, Strategy::IpHash);
    assert!(config.n_workers >= 1);
    assert_eq!(config.workdir, ".");
    assert_eq!(config.rscript, "Rscript");
    assert_eq!(config.quarto, "quarto");
    assert_eq!(config.extractor, IpExtractor::ClientAddr);
    assert!(matches!(
        config.bind_address(),
        Err(FaucetError::MissingArgument("bind"))
    ));
}

#[test]
fn builder_workers_default_to_cpu_count() {
    let config = FaucetServerBuilder::<()>::new()
        .server_type(WorkerType::Shiny)
        .build_with_cpus(6)
        .ok()
        .expect("server type is set");
    assert_eq!(config.n_workers, 6);
    let config = FaucetServerBuilder::<()>::new()
        .server_type(WorkerType::Shiny)
        .workers(2)
        .build_with_cpus(6)
        .ok()
        .expect("server type is set");
    assert_eq!(config.n_workers, 2);
    assert!(matches!(
        FaucetServerBuilder::<()>::new().build_with_cpus(6),
        Err(FaucetError::MissingArgument("server_type"))
    ));
}

#[test]
fn builder_settings_and_missing_type() {
    let bind = SocketAddress {
        ip: IpAddress::V4(0x7f00_0001),
        port: 3838,
    };
    let config = FaucetServerBuilder::<()>::new()
        .server_type(WorkerType::Plumber)
        .workers(3)
        .bind(bind)
        .workdir("/srv".to_string())
        .extractor(IpExtractor::XRealIp)
        .build()
        .ok()
        .expect("server type is set");
    assert_eq!(config.n_workers, 3);
    assert_eq!(config.workdir, "/srv");
    assert_eq!(config.strategy, Strategy::RoundRobin);
    assert!(matches!(config.bind_address(), Ok(b) if b == bind));
    assert!(matches!(
        FaucetServerBuilder::<()>::new().build(),
        Err(FaucetError::MissingArgument("server_type"))
    ));
}

#[test]
fn route_prefixes() {
    let p = pq("/app/page", Some("a=1"));
    let r = strip_prefix(Some(&p), "/app/").unwrap();
    assert_eq!(r.path, "/page");
    assert_eq!(r.query.as_deref(), Some("a=1"));
    let r = strip_prefix(Some(&pq("/appx", None)), "/app/");
    assert!(r.is_none());
    let r = strip_prefix(Some(&pq("/app", None)), "/app").unwrap();
    assert_eq!(r.path, "/");
    assert!(strip_prefix(Some(&pq("/app/x", None)), "/app").is_none());
    assert!(strip_prefix(None, "/").is_none());
    let r = strip_prefix(Some(&pq("/x//y", None)), "/x/").unwrap();
    assert_eq!(r.path, "/y");
}

#[test]
fn router_picks_first_matching_route() {
    let router = RouterService {
        routes: vec!["/api/".to_string(), "/".to_string()],
    };
    let (i, target) = router.route(Some(&pq("/api/v1", None))).unwrap();
    assert_eq!(i, 0);
    assert_eq!(target.path, "/v1");
    let (i, target) = router.route(Some(&pq("/other", None))).unwrap();
    assert_eq!(i, 1);
    assert_eq!(target.path, "/other");
    let strict = RouterService {
        routes: vec!["/api".to_string()],
    };
    assert!(strict.route(Some(&pq("/other", None))).is_none());
}

fn route(name: &str, server_type: WorkerType) -> RouteConfig {
    RouteConfig {
        route: name.to_string(),
        config: ReducedServerConfig::new(None, None, None, 2, server_type, None),
    }
}

#[test]
fn router_configs() {
    let conf = RouterConfig {
        route: vec![route("/", WorkerType::Shiny), route("/api/", WorkerType::Plumber)],
    };
    let (names, configs) = conf
        .into_configs("Rscript", "quarto", IpExtractor::XForwardedFor)
        .ok()
        .expect("no duplicate routes");
    assert_eq!(names, vec!["/", "/api/"]);
    assert_eq!(configs[0].strategy, Strategy::IpHash);
    assert_eq!(configs[1].strategy, Strategy::RoundRobin);
    assert_eq!(configs[1].n_workers, 2);
    assert_eq!(configs[0].workdir, default_workdir());
}

#[test]
fn router_refuses_duplicate_routes() {
    let conf = RouterConfig {
        route: vec![
            route("/a/", WorkerType::Shiny),
            route("/b/", WorkerType::Shiny),
            route("/a/", WorkerType::Plumber),
        ],
    };
    match conf.into_configs("Rscript", "quarto", IpExtractor::ClientAddr) {
        Err(FaucetError::DuplicateRoute(r)) => assert_eq!(r, "/a/"),
        _ => panic!("expected a duplicate route"),
    }
}

#[test]
fn server_type_detection() {
    let none = AppDirFiles {
        plumber_r: false,
        entrypoint_r: false,
        app_r: false,
        ui_r: false,
        server_r: false,
    };
    let plumber = AppDirFiles {
        entrypoint_r: true,
        ..none
    };
    let shiny = AppDirFiles {
        ui_r: true,
        server_r: true,
        ..none
    };
    assert!(is_plumber(&plumber));
    assert!(is_shiny(&shiny));
    assert!(!is_shiny(&AppDirFiles { ui_r: true, ..none }));
    assert_eq!(server_type(ServerType::Auto, &plumber), Some(WorkerType::Plumber));
    assert_eq!(server_type(ServerType::Auto, &shiny), Some(WorkerType::Shiny));
    assert_eq!(server_type(ServerType::Auto, &none), None);
    assert_eq!(server_type(ServerType::FastAPI, &none), Some(WorkerType::FastAPI));
    assert_eq!(IpFrom::XRealIp.into_extractor(), IpExtractor::XRealIp);
}

#[test]
fn unsafe_ports() {
    assert!(is_unsafe_port(6000));
    assert!(!is_unsafe_port(8080));
}

#[test]
fn worker_port_candidates() {
    assert_eq!(port_candidate(6000), None);
    assert_eq!(port_candidate(8080), Some(8080));
    for _ in 0..100 {
        if let Some(p) = candidate_port() {
            assert!((PORT_RANGE_START..=PORT_RANGE_END).contains(&p));
            assert!(!is_unsafe_port(p));
        }
    }
}
