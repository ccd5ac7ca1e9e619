use faucet_server::cli::{PgSslMode};
use faucet_server::client::worker::{
    spawn_plan, worker_target, Program, WorkerAction, WorkerEvent, WorkerPhase, WorkerSupervisor,
    WorkerType,
};
use faucet_server::error::FaucetError;
use faucet_server::global_conn::{
    add_connection, current_connections, may_finish_shutdown, remove_connection,
    ConnectionCounter,
};
use faucet_server::map_mutex::{Lock, Locks, State};
use faucet_server::server::onion::{Layer, ServiceBuilder};
use faucet_server::workers::{get_port, PlumberDispatcherBuilder};

#[test]
fn connection_counter() {
    let mut c = ConnectionCounter::new();
    assert_eq!(current_connections(&mut c), 0);
    add_connection(&mut c);
    add_connection(&mut c);
    assert_eq!(current_connections(&mut c), 2);
    remove_connection(&mut c);
    assert_eq!(current_connections(&mut c), 1);
    assert!(!may_finish_shutdown(1));
    assert!(may_finish_shutdown(0));
    assert!(may_finish_shutdown(-1));
}

#[test]
fn connection_count_is_opened_minus_closed() {
    let mut c = ConnectionCounter::new();
    for _ in 0..5 {
        add_connection(&mut c);
    }
    for _ in 0..3 {
        remove_connection(&mut c);
    }
    add_connection(&mut c);
    assert_eq!(current_connections(&mut c), 5 - 3 + 1);
    assert_eq!(current_connections(&mut c), 3);
}

#[test]
fn connection_counter_wraps() {
    let mut c = ConnectionCounter::new();
    add_connection(&mut c);
    remove_connection(&mut c);
    remove_connection(&mut c);
    assert_eq!(current_connections(&mut c), -1);
}

#[test]
fn test_locking() {
    let mut locks = Locks::new();
    for _ in 0..3 {
        let lock = locks.try_acquire(1).expect("lock is valid");
        assert!(locks.try_acquire(1).is_none());
        locks.release(lock);
    }
}

#[test]
fn test_release() {
    let mut locks = Locks::new();
    let lock = locks.try_acquire(1).expect("lock is valid");
    assert_eq!(lock.state(), State::Locked);
    assert_eq!(lock.key, 1);
    locks.release(lock);
    let lock = locks.try_acquire(1).expect("lock is valid");
    locks.release(lock);
    assert_eq!(Lock::new(4).state(), State::Open);
}

#[test]
fn locks_are_per_key() {
    let mut locks = Locks::new();
    let a = locks.try_acquire(1).unwrap();
    let b = locks.try_acquire(2).unwrap();
    assert!(locks.try_acquire(1).is_none());
    locks.release(a);
    assert!(locks.try_acquire(2).is_none());
    locks.release(b);
}

#[test]
fn plumber_dispatcher_builder() {
    let b = PlumberDispatcherBuilder::new("/srv/api".to_string());
    assert_eq!(b.dir(), "/srv/api");
    assert_eq!(b.get_base_port(), 8000);
    assert_eq!(b.get_n_workers(), 1);
    let b = b.base_port(9000).n_workers(4);
    assert_eq!(b.get_base_port(), 9000);
    assert_eq!(b.get_n_workers(), 4);
    assert_eq!(get_port(9000, 3), 9003);
    assert_eq!(get_port(1, 65536 + 2), 3);
}

struct Twice;

impl Layer<u32> for Twice {
    type Service = u64;
    fn layer(&self, inner: u32) -> u64 {
        inner as u64 * 2
    }
}

#[test]
fn service_builder_layers() {
    assert_eq!(ServiceBuilder::new(5u32).build(), 5);
    assert_eq!(ServiceBuilder::new(5u32).layer(Twice).build(), 10);
}

#[test]
fn ssl_modes() {
    assert_eq!(PgSslMode::VerifyFull.as_str(), "verify-full");
    assert!(PgSslMode::VerifyCa.needs_certificate());
    assert!(!PgSslMode::Require.needs_certificate());
}

#[test]
fn worker_spawn_plans() {
    let plan = spawn_plan(WorkerType::Shiny, 3838, None, None).ok().unwrap();
    assert_eq!(plan.program, Program::Rscript);
    assert_eq!(plan.args[0], "-e");
    assert_eq!(
        plan.args[1],
        "\n        options(\"shiny.port\" = 3838)\n        shiny::runApp(\".\")\n        "
    );
    let plan = spawn_plan(WorkerType::QuartoShiny, 80, None, Some("doc.qmd")).ok().unwrap();
    assert_eq!(plan.program, Program::Quarto);
    assert_eq!(plan.args, vec!["serve", "--port", "80", "doc.qmd"]);
    assert!(matches!(
        spawn_plan(WorkerType::QuartoShiny, 80, None, None),
        Err(FaucetError::MissingArgument("qmd"))
    ));
    assert_eq!(worker_target(12), "Worker::12");
}

#[test]
fn worker_supervision() {
    let (mut s, first) = WorkerSupervisor::start();
    assert_eq!(first, WorkerAction::SpawnProcess);
    assert_eq!(
        s.step(WorkerEvent::Probe { reachable: false, exited: false }),
        WorkerAction::WaitAndProbe
    );
    assert!(!s.online);
    assert_eq!(
        s.step(WorkerEvent::Probe { reachable: true, exited: false }),
        WorkerAction::WaitForExit
    );
    assert!(s.online);
    assert_eq!(s.step(WorkerEvent::Exited), WorkerAction::SpawnProcess);
    assert!(!s.online);
    assert_eq!(s.phase, WorkerPhase::Starting);
    assert_eq!(
        s.step(WorkerEvent::Probe { reachable: false, exited: true }),
        WorkerAction::SpawnProcess
    );
    assert_eq!(s.step(WorkerEvent::Shutdown), WorkerAction::KillProcess);
    assert_eq!(s.phase, WorkerPhase::Stopped);
}
