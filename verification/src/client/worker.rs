use vstd::prelude::*;

use crate::error::{FaucetError, FaucetResult};
use crate::text::{decimal, decimal_string, push_decimal};

verus! {

/// The kind of application a worker runs.
#[derive(Clone, Copy, PartialEq, Eq, Structural, Debug)]
pub enum WorkerType {
    Plumber,
    Shiny,
    QuartoShiny,
    FastAPI,
}

/// The R code that starts a Plumber API on `port`.
pub open spec fn spec_plumber_command(port: u16) -> Seq<char> {
    "\n        options(\"plumber.port\" = "@ + decimal(port as nat)
        + ")\n        plumber::pr_run(plumber::plumb())\n        "@
}

/// The R code that starts the Shiny application in `app_dir` on `port`.
pub open spec fn spec_shiny_command(port: u16, app_dir: Seq<char>) -> Seq<char> {
    "\n        options(\"shiny.port\" = "@ + decimal(port as nat) + ")\n        shiny::runApp(\""@
        + app_dir + "\")\n        "@
}

/// Builds the R code that starts a Plumber API listening on `port`.
pub fn plumber_command(port: u16) -> (s: String)
    ensures
        s@ == spec_plumber_command(port),
{
    let mut s = String::from_str("\n        options(\"plumber.port\" = ");
    push_decimal(&mut s, port as u64);
    s.append(")\n        plumber::pr_run(plumber::plumb())\n        ");
    s
}

/// Builds the R code that starts a Shiny application listening on `port`;
/// without an application directory the current one (`.`) is used.
pub fn shiny_command(port: u16, app_dir: Option<&str>) -> (s: String)
    ensures
        s@ == spec_shiny_command(
            port,
            match app_dir {
                Some(d) => d@,
                None => "."@,
            },
        ),
{
    let mut s = String::from_str("\n        options(\"shiny.port\" = ");
    push_decimal(&mut s, port as u64);
    s.append(")\n        shiny::runApp(\"");
    match app_dir {
        Some(d) => s.append(d),
        None => s.append("."),
    }
    s.append("\")\n        ");
    s
}

/// The name under which a worker's output is logged.
pub open spec fn spec_worker_target(worker_id: usize) -> Seq<char> {
    "Worker::"@ + decimal(worker_id as nat)
}

/// Builds the name under which worker `worker_id` logs.
pub fn worker_target(worker_id: usize) -> (s: String)
    ensures
        s@ == spec_worker_target(worker_id),
{
    let mut s = String::from_str("Worker::");
    push_decimal(&mut s, worker_id as u64);
    s
}

/// The program that runs a worker.
#[derive(Clone, Copy, PartialEq, Eq, Structural, Debug)]
pub enum Program {
    /// The configured `Rscript`.
    Rscript,
    /// The configured `quarto`.
    Quarto,
}

/// How a worker process is started: the program and its arguments.
pub struct SpawnPlan {
    pub program: Program,
    pub args: Vec<String>,
}

/// The arguments that start a worker of kind `wtype` on `port`, `None` for
/// a kind whose start the server cannot plan (a Quarto document without a
/// document, a FastAPI application).
pub open spec fn spec_spawn_args(
    wtype: WorkerType,
    port: u16,
    app_dir: Option<Seq<char>>,
    qmd: Option<Seq<char>>,
) -> Option<(Program, Seq<Seq<char>>)> {
    match wtype {
        WorkerType::Plumber => Some((Program::Rscript, seq!["-e"@, spec_plumber_command(port)])),
        WorkerType::Shiny => Some(
            (
                Program::Rscript,
                seq![
                    "-e"@,
                    spec_shiny_command(
                        port,
                        match app_dir {
                            Some(d) => d,
                            None => "."@,
                        },
                    ),
                ],
            ),
        ),
        WorkerType::QuartoShiny => match qmd {
            Some(q) => Some((Program::Quarto, seq!["serve"@, "--port"@, decimal(port as nat), q])),
            None => None,
        },
        WorkerType::FastAPI => None,
    }
}

/// The text of each argument.
pub open spec fn arg_views(args: Seq<String>) -> Seq<Seq<char>> {
    args.map_values(|a: String| a@)
}

/// Plans the start of a worker on `port`. A Quarto worker without a
/// document fails with a missing `qmd` argument; the server has no way to
/// start a FastAPI worker.
pub fn spawn_plan(wtype: WorkerType, port: u16, app_dir: Option<&str>, qmd: Option<&str>) -> (r:
    FaucetResult<SpawnPlan>)
    ensures
        match r {
            Ok(plan) => spec_spawn_args(
                wtype,
                port,
                match app_dir {
                    Some(d) => Some(d@),
                    None => None,
                },
                match qmd {
                    Some(q) => Some(q@),
                    None => None,
                },
            ) == Some((plan.program, arg_views(plan.args@))),
            Err(e) => match wtype {
                WorkerType::QuartoShiny => qmd is None && e == FaucetError::MissingArgument("qmd"),
                WorkerType::FastAPI => e matches FaucetError::Unknown(_),
                _ => false,
            },
        },
{
    proof {
        reveal_strlit("-e");
        reveal_strlit("serve");
        reveal_strlit("--port");
        reveal_strlit(".");
    }
    match wtype {
        WorkerType::Plumber => {
            let args = vec![String::from_str("-e"), plumber_command(port)];
            assert(arg_views(args@) =~= seq!["-e"@, spec_plumber_command(port)]);
            Ok(SpawnPlan { program: Program::Rscript, args })
        },
        WorkerType::Shiny => {
            let args = vec![String::from_str("-e"), shiny_command(port, app_dir)];
            assert(arg_views(args@) =~= seq![
                "-e"@,
                spec_shiny_command(
                    port,
                    match app_dir {
                        Some(d) => d@,
                        None => "."@,
                    },
                ),
            ]);
            Ok(SpawnPlan { program: Program::Rscript, args })
        },
        WorkerType::QuartoShiny => match qmd {
            Some(q) => {
                let args = vec![
                    String::from_str("serve"),
                    String::from_str("--port"),
                    decimal_string(port as u64),
                    String::from_str(q),
                ];
                assert(arg_views(args@) =~= seq!["serve"@, "--port"@, decimal(port as nat), q@]);
                Ok(SpawnPlan { program: Program::Quarto, args })
            },
            None => Err(FaucetError::MissingArgument("qmd")),
        },
        WorkerType::FastAPI => Err(
            FaucetError::Unknown(String::from_str("FastAPI workers cannot be started by this server")),
        ),
    }
}

/// The R code of a start command is `a + setting + b + call + c` for some
/// texts `a`, `b`, `c`: it sets the option and then makes the call.
pub open spec fn sets_then_calls(code: Seq<char>, setting: Seq<char>, call: Seq<char>) -> bool {
    exists|a: Seq<char>, b: Seq<char>, c: Seq<char>| code == a + setting + b + call + c
}

/// A Plumber worker is started by `Rscript -e` with code that sets the
/// option `plumber.port` to the worker's port and then runs the API of the
/// working directory.
pub proof fn lemma_plumber_listens_on_its_port(
    port: u16,
    app_dir: Option<Seq<char>>,
    qmd: Option<Seq<char>>,
)
    ensures
        spec_spawn_args(WorkerType::Plumber, port, app_dir, qmd) matches Some((prog, args)) && prog
            == Program::Rscript && args.len() == 2 && args[0] == "-e"@ && sets_then_calls(
            args[1],
            "options(\"plumber.port\" = "@ + decimal(port as nat) + ")"@,
            "plumber::pr_run(plumber::plumb())"@,
        ),
{
    reveal_strlit("-e");
    reveal_strlit("\n        options(\"plumber.port\" = ");
    reveal_strlit(")\n        plumber::pr_run(plumber::plumb())\n        ");
    reveal_strlit("options(\"plumber.port\" = ");
    reveal_strlit(")");
    reveal_strlit("plumber::pr_run(plumber::plumb())");
    let d = decimal(port as nat);
    let code = spec_plumber_command(port);
    let a = seq!['\n', ' ', ' ', ' ', ' ', ' ', ' ', ' ', ' '];
    let b = a;
    let c = a;
    assert(code =~= a + ("options(\"plumber.port\" = "@ + d + ")"@) + b
        + "plumber::pr_run(plumber::plumb())"@ + c);
}

/// A Shiny worker is started by `Rscript -e` with code that sets the option
/// `shiny.port` to the worker's port and then runs the application in the
/// given directory, the working directory where none is given.
pub proof fn lemma_shiny_runs_its_app_on_its_port(
    port: u16,
    app_dir: Option<Seq<char>>,
    qmd: Option<Seq<char>>,
)
    ensures
        spec_spawn_args(WorkerType::Shiny, port, app_dir, qmd) matches Some((prog, args)) && prog
            == Program::Rscript && args.len() == 2 && args[0] == "-e"@ && sets_then_calls(
            args[1],
            "options(\"shiny.port\" = "@ + decimal(port as nat) + ")"@,
            "shiny::runApp(\""@ + (match app_dir {
                Some(d) => d,
                None => seq!['.'],
            }) + "\")"@,
        ),
{
    reveal_strlit("-e");
    reveal_strlit(".");
    reveal_strlit("\n        options(\"shiny.port\" = ");
    reveal_strlit(")\n        shiny::runApp(\"");
    reveal_strlit("\")\n        ");
    reveal_strlit("options(\"shiny.port\" = ");
    reveal_strlit(")");
    reveal_strlit("shiny::runApp(\"");
    reveal_strlit("\")");
    let dir = match app_dir {
        Some(d) => d,
        None => seq!['.'],
    };
    let d = decimal(port as nat);
    let code = spec_shiny_command(port, dir);
    let a = seq!['\n', ' ', ' ', ' ', ' ', ' ', ' ', ' ', ' '];
    assert("."@ =~= seq!['.']);
    let setting = "options(\"shiny.port\" = "@ + d + ")"@;
    let call = "shiny::runApp(\""@ + dir + "\")"@;
    assert(code =~= a + setting + a + call + a);
    assert(sets_then_calls(code, setting, call));
    let (_, args) = spec_spawn_args(WorkerType::Shiny, port, app_dir, qmd).unwrap();
    assert(args[1] == code);
}

/// Shiny workers of two different application directories are started by
/// different commands.
pub proof fn lemma_shiny_app_dir_decides(port: u16, d1: Seq<char>, d2: Seq<char>)
    requires
        d1 != d2,
    ensures
        spec_spawn_args(WorkerType::Shiny, port, Some(d1), None) != spec_spawn_args(
            WorkerType::Shiny,
            port,
            Some(d2),
            None,
        ),
{
    let c1 = spec_shiny_command(port, d1);
    let c2 = spec_shiny_command(port, d2);
    let pre = "\n        options(\"shiny.port\" = "@ + decimal(port as nat) + ")\n        shiny::runApp(\""@;
    let post = "\")\n        "@;
    assert(c1 =~= pre + d1 + post);
    assert(c2 =~= pre + d2 + post);
    if c1 == c2 {
        assert(d1.len() == d2.len());
        assert(c1.subrange(pre.len() as int, (pre.len() + d1.len()) as int) =~= d1);
        assert(c2.subrange(pre.len() as int, (pre.len() + d2.len()) as int) =~= d2);
    }
    let (_, args1) = spec_spawn_args(WorkerType::Shiny, port, Some(d1), None).unwrap();
    let (_, args2) = spec_spawn_args(WorkerType::Shiny, port, Some(d2), None).unwrap();
    assert(args1[1] == c1);
    assert(args2[1] == c2);
}

/// How long a starting worker is left alone between two checks, in
/// milliseconds.
pub const RECHECK_INTERVAL_MS: u64 = 250;

/// Where a worker's supervision stands.
#[derive(Clone, Copy, PartialEq, Eq, Structural, Debug)]
pub enum WorkerPhase {
    /// A process was started and is not reachable yet.
    Starting,
    /// The process is reachable and serves requests.
    Serving,
    /// The server shut down and the process was killed.
    Stopped,
}

/// What happened to a supervised worker.
#[derive(Clone, Copy, PartialEq, Eq, Structural, Debug)]
pub enum WorkerEvent {
    /// A check of the worker's socket: whether it accepted a connection,
    /// and whether the process had exited by then.
    Probe { reachable: bool, exited: bool },
    /// The process exited.
    Exited,
    /// The server is shutting down.
    Shutdown,
}

/// What the supervisor does next.
#[derive(Clone, Copy, PartialEq, Eq, Structural, Debug)]
pub enum WorkerAction {
    /// Start a new process, then check it.
    SpawnProcess,
    /// Wait `RECHECK_INTERVAL_MS`, then check again.
    WaitAndProbe,
    /// Wait for the process to exit.
    WaitForExit,
    /// Kill the process and stop supervising.
    KillProcess,
}

/// The supervision of one worker: it restarts the process whenever it
/// exits, and marks the worker online while its socket is known to accept
/// connections.
pub struct WorkerSupervisor {
    pub phase: WorkerPhase,
    pub online: bool,
}

/// The supervisor's reaction to an event: its new phase, whether the
/// worker is online, and what it does.
pub open spec fn spec_worker_step(phase: WorkerPhase, online: bool, event: WorkerEvent) -> (
    WorkerPhase,
    bool,
    WorkerAction,
) {
    match event {
        WorkerEvent::Shutdown => (WorkerPhase::Stopped, online, WorkerAction::KillProcess),
        WorkerEvent::Exited => (WorkerPhase::Starting, false, WorkerAction::SpawnProcess),
        WorkerEvent::Probe { reachable, exited } => if reachable {
            (WorkerPhase::Serving, true, WorkerAction::WaitForExit)
        } else if exited {
            (WorkerPhase::Starting, false, WorkerAction::SpawnProcess)
        } else {
            (phase, online, WorkerAction::WaitAndProbe)
        },
    }
}

impl WorkerSupervisor {
    /// A supervisor that starts the first process; the worker is offline.
    pub fn start() -> (r: (Self, WorkerAction))
        ensures
            r.0.phase == WorkerPhase::Starting,
            !r.0.online,
            r.1 == WorkerAction::SpawnProcess,
    {
        (WorkerSupervisor { phase: WorkerPhase::Starting, online: false }, WorkerAction::SpawnProcess)
    }

    /// Reacts to an event. A stopped supervisor gets no more events, and
    /// a serving worker is not checked.
    pub fn step(&mut self, event: WorkerEvent) -> (action: WorkerAction)
        requires
            old(self).phase != WorkerPhase::Stopped,
            old(self).phase == WorkerPhase::Serving ==> !(event is Probe),
        ensures
            (final(self).phase, final(self).online, action) == spec_worker_step(
                old(self).phase,
                old(self).online,
                event,
            ),
    {
        match event {
            WorkerEvent::Shutdown => {
                self.phase = WorkerPhase::Stopped;
                WorkerAction::KillProcess
            },
            WorkerEvent::Exited => {
                self.phase = WorkerPhase::Starting;
                self.online = false;
                WorkerAction::SpawnProcess
            },
            WorkerEvent::Probe { reachable, exited } => {
                if reachable {
                    self.phase = WorkerPhase::Serving;
                    self.online = true;
                    WorkerAction::WaitForExit
                } else if exited {
                    self.phase = WorkerPhase::Starting;
                    self.online = false;
                    WorkerAction::SpawnProcess
                } else {
                    WorkerAction::WaitAndProbe
                }
            },
        }
    }
}

/// A worker is marked online only by a check that reached it, and a
/// worker whose process exited is offline and started again.
pub proof fn lemma_online_only_when_reached(phase: WorkerPhase, online: bool, event: WorkerEvent)
    ensures
        !online && spec_worker_step(phase, online, event).1 ==> (event matches WorkerEvent::Probe {
            reachable,
            ..
        } && reachable),
        event is Exited ==> !spec_worker_step(phase, online, event).1 && spec_worker_step(
            phase,
            online,
            event,
        ).2 == WorkerAction::SpawnProcess,
{
}

} // verus!
