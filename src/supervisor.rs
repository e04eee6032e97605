//! The process supervisor: the single slot that owns the worker handle, the
//! decisions of start and stop, and the relay of the worker's output.
use vstd::prelude::*;
use crate::text::{decode_lossy, lossy_text};

verus! {

/// The worker program, launched as a sidecar of the shell.
pub const WORKER_PROGRAM: &'static str = "search-ads-server";

/// Loopback address the worker binds to.
pub const WORKER_HOST: &'static str = "127.0.0.1";

/// Port the worker listens on.
pub const WORKER_PORT: &'static str = "9527";

/// The line written to the worker's standard input to ask it to shut down.
pub const SHUTDOWN_SENTINEL: &'static str = "SHUTDOWN\n";

pub const MSG_ALREADY_RUNNING: &'static str = "Server already running";

pub const MSG_STARTED: &'static str = "Server started successfully";

pub const MSG_STOPPED: &'static str = "Server stopped";

pub const MSG_NOT_RUNNING: &'static str = "Server was not running";

pub const EVENT_LOG: &'static str = "server-log";

pub const EVENT_ERROR: &'static str = "server-error";

pub const EVENT_TERMINATED: &'static str = "server-terminated";

/// The arguments the worker is launched with.
pub open spec fn worker_args() -> Seq<Seq<char>> {
    seq!["--port"@, WORKER_PORT@, "--host"@, WORKER_HOST@]
}

/// The state of the worker slot. Each launched worker gets a generation
/// number, so that the end of an old worker cannot clear a newer one.
pub enum WorkerState<H> {
    Stopped,
    Running { handle: H, generation: u64 },
    Stopping { generation: u64 },
}

/// The worker slot's state as plain values.
pub ghost enum Phase {
    Stopped,
    Running(u64),
    Stopping(u64),
}

/// The supervisor as plain values: its phase and the generation the next
/// launched worker will get.
pub ghost struct SupervisorView {
    pub phase: Phase,
    pub next_generation: u64,
}

/// What the supervisor is told or asked.
pub ghost enum SupervisorOp {
    /// A start was asked for.
    StartRequest,
    /// The worker was launched.
    Spawned,
    /// Launching the worker failed.
    SpawnFailed,
    /// A stop was asked for.
    StopRequest,
    /// The worker of this generation printed a line.
    Output,
    /// The worker of this generation terminated.
    Terminated(u64),
}

/// The generation after `g`, wrapping at the top of the range.
pub open spec fn generation_after(g: u64) -> u64 {
    if g < u64::MAX {
        (g + 1) as u64
    } else {
        0
    }
}

/// The generation of the worker a phase refers to, if any.
pub open spec fn phase_generation(p: Phase) -> Option<u64> {
    match p {
        Phase::Stopped => None,
        Phase::Running(g) => Some(g),
        Phase::Stopping(g) => Some(g),
    }
}

/// How one operation changes the supervisor.
pub open spec fn step(v: SupervisorView, op: SupervisorOp) -> SupervisorView {
    match op {
        SupervisorOp::Spawned => if v.phase is Running {
            v
        } else {
            SupervisorView {
                phase: Phase::Running(v.next_generation),
                next_generation: generation_after(v.next_generation),
            }
        },
        SupervisorOp::StopRequest => match v.phase {
            Phase::Running(g) => SupervisorView { phase: Phase::Stopping(g), ..v },
            _ => v,
        },
        SupervisorOp::Terminated(g) => if phase_generation(v.phase) == Some(g) {
            SupervisorView { phase: Phase::Stopped, ..v }
        } else {
            v
        },
        _ => v,
    }
}

/// The supervisor after a sequence of operations.
pub open spec fn run(v: SupervisorView, ops: Seq<SupervisorOp>) -> SupervisorView
    decreases ops.len(),
{
    if ops.len() == 0 {
        v
    } else {
        step(run(v, ops.drop_last()), ops.last())
    }
}

/// A launch command: the program and its arguments.
#[derive(Clone, Debug, PartialEq, Eq)]
pub struct SpawnCommand {
    pub program: String,
    pub args: Vec<String>,
}

/// What a start asks of the host.
#[derive(Clone, Debug, PartialEq, Eq)]
pub enum StartStep {
    /// A worker is already running; nothing is launched.
    AlreadyRunning(String),
    /// Launch the worker with this command.
    Spawn(SpawnCommand),
}

/// Why a start failed.
#[derive(Clone, Debug, PartialEq, Eq)]
pub enum StartError {
    /// The worker could not be launched, with the launcher's message.
    Spawn(String),
}

/// What a stop hands to the host.
pub enum StopStep<H> {
    /// No worker was running.
    NotRunning(String),
    /// Shut down this worker: write the sentinel to its input, and kill it
    /// if the write fails.
    Shutdown { handle: H, reply: String },
}

/// What the host does after writing the shutdown sentinel.
#[derive(Clone, Copy, Debug, PartialEq, Eq, Structural)]
pub enum ShutdownAction {
    /// The request reached the worker; it ends on its own.
    AwaitExit,
    /// The request could not be written; kill the worker now.
    ForceKill,
}

/// The escalation policy of a stop: a failed shutdown request becomes a kill.
pub fn after_shutdown_write(write_ok: bool) -> (r: ShutdownAction)
    ensures
        r == (if write_ok {
            ShutdownAction::AwaitExit
        } else {
            ShutdownAction::ForceKill
        }),
{
    if write_ok {
        ShutdownAction::AwaitExit
    } else {
        ShutdownAction::ForceKill
    }
}

/// Output of the worker, as the launcher reports it.
#[derive(Clone, Debug, PartialEq, Eq)]
pub enum WorkerOutput {
    /// A line on standard output.
    Stdout(Vec<u8>),
    /// A line on standard error.
    Stderr(Vec<u8>),
    /// The worker of this generation ended; the exit status, described.
    Terminated { generation: u64, status: String },
    /// Anything else the launcher reports.
    Other,
}

/// An event about the worker, published unscoped.
#[derive(Clone, Debug, PartialEq, Eq)]
pub enum ServerEvent {
    Log(String),
    Error(String),
    Terminated(String),
}

/// A server event as plain values: its name and payload.
pub open spec fn server_event_view(e: ServerEvent) -> (Seq<char>, Seq<char>) {
    match e {
        ServerEvent::Log(t) => (EVENT_LOG@, t@),
        ServerEvent::Error(t) => (EVENT_ERROR@, t@),
        ServerEvent::Terminated(t) => (EVENT_TERMINATED@, t@),
    }
}

impl ServerEvent {
    /// The name of the event.
    pub fn name(&self) -> (r: &'static str)
        ensures
            r@ == server_event_view(*self).0,
    {
        match self {
            ServerEvent::Log(_) => EVENT_LOG,
            ServerEvent::Error(_) => EVENT_ERROR,
            ServerEvent::Terminated(_) => EVENT_TERMINATED,
        }
    }

    /// The text the event carries.
    pub fn payload(&self) -> (r: &str)
        ensures
            r@ == server_event_view(*self).1,
    {
        match self {
            ServerEvent::Log(t) => t.as_str(),
            ServerEvent::Error(t) => t.as_str(),
            ServerEvent::Terminated(t) => t.as_str(),
        }
    }
}

/// The event published for a piece of worker output, if any.
pub open spec fn output_event(o: WorkerOutput) -> Option<(Seq<char>, Seq<char>)> {
    match o {
        WorkerOutput::Stdout(b) => Some((EVENT_LOG@, lossy_text(b@))),
        WorkerOutput::Stderr(b) => Some((EVENT_ERROR@, lossy_text(b@))),
        WorkerOutput::Terminated { generation: _, status } => Some((EVENT_TERMINATED@, status@)),
        WorkerOutput::Other => None,
    }
}

/// The supervision state: the slot that owns the worker handle.
pub struct ServerState<H> {
    state: WorkerState<H>,
    next_generation: u64,
}

impl<H> ServerState<H> {
    pub closed spec fn view(&self) -> SupervisorView {
        SupervisorView {
            phase: match self.state {
                WorkerState::Stopped => Phase::Stopped,
                WorkerState::Running { handle: _, generation } => Phase::Running(generation),
                WorkerState::Stopping { generation } => Phase::Stopping(generation),
            },
            next_generation: self.next_generation,
        }
    }

    /// The handle of the running worker, if one runs.
    pub closed spec fn handle(&self) -> Option<H> {
        match self.state {
            WorkerState::Running { handle, generation: _ } => Some(handle),
            _ => None,
        }
    }

    /// Nothing runs yet.
    pub fn new() -> (r: Self)
        ensures
            r.view().phase == Phase::Stopped,
            r.view().next_generation == 0,
    {
        ServerState { state: WorkerState::Stopped, next_generation: 0 }
    }

    /// True exactly when a worker is running.
    pub fn status(&self) -> (r: bool)
        ensures
            r == (self.view().phase is Running),
    {
        match self.state {
            WorkerState::Running { .. } => true,
            _ => false,
        }
    }

    /// Begins a start: a running worker is left alone and the reply says so;
    /// otherwise the host is asked to launch the worker with its fixed
    /// arguments.
    pub fn start(&self) -> (r: StartStep)
        ensures
            self.view().phase is Running ==> r is AlreadyRunning && r->AlreadyRunning_0@
                == MSG_ALREADY_RUNNING@,
            !(self.view().phase is Running) ==> r is Spawn && r->Spawn_0.program@ == WORKER_PROGRAM@
                && r->Spawn_0.args@.map_values(|a: String| a@) == worker_args(),
    {
        if self.status() {
            StartStep::AlreadyRunning(MSG_ALREADY_RUNNING.to_owned())
        } else {
            let args = vec![
                "--port".to_owned(),
                WORKER_PORT.to_owned(),
                "--host".to_owned(),
                WORKER_HOST.to_owned(),
            ];
            let r = StartStep::Spawn(SpawnCommand { program: WORKER_PROGRAM.to_owned(), args });
            assert(r->Spawn_0.args@.map_values(|a: String| a@) =~= worker_args());
            r
        }
    }

    /// Records the outcome of a launch. A launched worker becomes the running
    /// one, under a fresh generation; a failed launch changes nothing and is
    /// reported as a spawn error.
    pub fn spawned(&mut self, outcome: Result<H, String>) -> (r: Result<Started, StartError>)
        requires
            !(old(self).view().phase is Running),
        ensures
            match outcome {
                Ok(h) => {
                    &&& final(self).view() == step(old(self).view(), SupervisorOp::Spawned)
                    &&& final(self).handle() == Some(h)
                    &&& r is Ok
                    &&& r->Ok_0.message@ == MSG_STARTED@
                    &&& r->Ok_0.generation == old(self).view().next_generation
                },
                Err(m) => {
                    &&& final(self).view() == step(old(self).view(), SupervisorOp::SpawnFailed)
                    &&& final(self).handle() == old(self).handle()
                    &&& r == Err::<Started, StartError>(StartError::Spawn(m))
                },
            },
    {
        match outcome {
            Ok(h) => {
                let generation = self.next_generation;
                self.state = WorkerState::Running { handle: h, generation };
                self.next_generation = if generation < u64::MAX {
                    generation + 1
                } else {
                    0
                };
                Ok(Started { message: MSG_STARTED.to_owned(), generation })
            },
            Err(m) => Err(StartError::Spawn(m)),
        }
    }

    /// Begins a stop. A running worker's handle is taken out of the slot and
    /// handed to the host to shut down; the slot waits for its termination.
    /// Without a running worker this is a no-op reply, never an error.
    pub fn stop(&mut self) -> (r: StopStep<H>)
        ensures
            final(self).view() == step(old(self).view(), SupervisorOp::StopRequest),
            final(self).handle() is None,
            old(self).view().phase is Running ==> r is Shutdown && Some(r->Shutdown_handle)
                == old(self).handle() && r->Shutdown_reply@ == MSG_STOPPED@,
            !(old(self).view().phase is Running) ==> r is NotRunning && r->NotRunning_0@
                == MSG_NOT_RUNNING@,
    {
        let mut state = WorkerState::Stopped;
        core::mem::swap(&mut self.state, &mut state);
        match state {
            WorkerState::Running { handle, generation } => {
                self.state = WorkerState::Stopping { generation };
                StopStep::Shutdown { handle, reply: MSG_STOPPED.to_owned() }
            },
            other => {
                self.state = other;
                StopStep::NotRunning(MSG_NOT_RUNNING.to_owned())
            },
        }
    }

    /// Takes one report of the worker's launcher and returns the event to
    /// publish. The termination of the worker the slot refers to empties the
    /// slot; that of an older worker leaves it alone.
    pub fn on_output(&mut self, output: WorkerOutput) -> (r: Option<ServerEvent>)
        ensures
            match output {
                WorkerOutput::Terminated { generation, status: _ } => final(self).view() == step(
                    old(self).view(),
                    SupervisorOp::Terminated(generation),
                ),
                _ => final(self).view() == step(old(self).view(), SupervisorOp::Output),
            },
            final(self).view() == old(self).view() ==> final(self).handle() == old(self).handle(),
            match r {
                None => output_event(output) is None,
                Some(e) => output_event(output) == Some(server_event_view(e)),
            },
    {
        match output {
            WorkerOutput::Stdout(b) => Some(ServerEvent::Log(decode_lossy(b.as_slice()))),
            WorkerOutput::Stderr(b) => Some(ServerEvent::Error(decode_lossy(b.as_slice()))),
            WorkerOutput::Terminated { generation, status } => {
                let current = match &self.state {
                    WorkerState::Stopped => None,
                    WorkerState::Running { handle: _, generation } => Some(*generation),
                    WorkerState::Stopping { generation } => Some(*generation),
                };
                if current == Some(generation) {
                    self.state = WorkerState::Stopped;
                }
                Some(ServerEvent::Terminated(status))
            },
            WorkerOutput::Other => None,
        }
    }
}

/// The reply of a successful launch, and the generation of the new worker.
#[derive(Clone, Debug, PartialEq, Eq)]
pub struct Started {
    pub message: String,
    pub generation: u64,
}

/// A run of `n` start requests.
pub open spec fn start_requests(n: nat) -> Seq<SupervisorOp> {
    Seq::new(n, |i: int| SupervisorOp::StartRequest)
}

/// Starts while a worker runs change nothing: however many come, the same
/// worker stays, and no second one is launched.
pub proof fn lemma_repeated_start(v: SupervisorView, n: nat)
    requires
        v.phase is Running,
    ensures
        run(v, start_requests(n)) == v,
    decreases n,
{
    if n > 0 {
        lemma_repeated_start(v, (n - 1) as nat);
        assert(start_requests(n).drop_last() == start_requests((n - 1) as nat));
    }
}

/// After a successful launch the worker counts as running through any
/// sequence of operations that holds neither a stop nor that worker's
/// termination.
pub proof fn lemma_running_until_stopped(v: SupervisorView, ops: Seq<SupervisorOp>)
    requires
        !(v.phase is Running),
        forall|i: int|
            0 <= i < ops.len() ==> #[trigger] ops[i] != SupervisorOp::StopRequest && ops[i]
                != SupervisorOp::Terminated(v.next_generation),
    ensures
        run(step(v, SupervisorOp::Spawned), ops).phase == Phase::Running(v.next_generation),
    decreases ops.len(),
{
    if ops.len() > 0 {
        let prev = ops.drop_last();
        assert forall|i: int| 0 <= i < prev.len() implies #[trigger] prev[i]
            != SupervisorOp::StopRequest && prev[i] != SupervisorOp::Terminated(v.next_generation) by {
            assert(prev[i] == ops[i]);
        }
        lemma_running_until_stopped(v, prev);
        assert(ops.last() == ops[ops.len() - 1]);
    }
}

/// A stop takes the running worker out of the running state at once, and
/// that worker's termination then leaves the slot stopped.
pub proof fn lemma_stop_then_terminated(v: SupervisorView)
    requires
        v.phase is Running,
    ensures
        !(step(v, SupervisorOp::StopRequest).phase is Running),
        step(step(v, SupervisorOp::StopRequest), SupervisorOp::Terminated(v.phase->Running_0)).phase
            == Phase::Stopped,
{
}

} // verus!
