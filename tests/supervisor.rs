use sidecar_bridge::supervisor::{
    after_shutdown_write, ServerEvent, ServerState, ShutdownAction, StartError, StartStep,
    StopStep, WorkerOutput,
};

fn running() -> (ServerState<u32>, u64) {
    let mut s: ServerState<u32> = ServerState::new();
    let started = s.spawned(Ok(7)).unwrap();
    (s, started.generation)
}

#[test]
fn new_state_is_stopped() {
    let s: ServerState<u32> = ServerState::new();
    assert!(!s.status());
}

#[test]
fn start_when_stopped_asks_for_spawn_with_fixed_arguments() {
    let s: ServerState<u32> = ServerState::new();
    match s.start() {
        StartStep::Spawn(cmd) => {
            assert_eq!(cmd.program, "search-ads-server");
            assert_eq!(cmd.args, vec!["--port", "9527", "--host", "127.0.0.1"]);
        }
        StartStep::AlreadyRunning(_) => panic!("nothing was running"),
    }
}

#[test]
fn repeated_start_while_running_is_idempotent() {
    let (s, _) = running();
    for _ in 0..5 {
        assert_eq!(s.start(), StartStep::AlreadyRunning("Server already running".to_string()));
        assert!(s.status());
    }
}

#[test]
fn successful_spawn_reports_started() {
    let mut s: ServerState<u32> = ServerState::new();
    let started = s.spawned(Ok(1)).unwrap();
    assert_eq!(started.message, "Server started successfully");
    assert_eq!(started.generation, 0);
    assert!(s.status());
}

#[test]
fn spawn_failure_is_reported_and_leaves_stopped() {
    let mut s: ServerState<u32> = ServerState::new();
    let r = s.spawned(Err("binary missing".to_string()));
    assert_eq!(r, Err(StartError::Spawn("binary missing".to_string())));
    assert!(!s.status());
}

#[test]
fn stop_when_not_running_replies_without_error() {
    let mut s: ServerState<u32> = ServerState::new();
    match s.stop() {
        StopStep::NotRunning(msg) => assert_eq!(msg, "Server was not running"),
        StopStep::Shutdown { .. } => panic!("nothing was running"),
    }
    assert!(!s.status());
}

#[test]
fn stop_hands_out_the_handle_once() {
    let (mut s, _) = running();
    match s.stop() {
        StopStep::Shutdown { handle, reply } => {
            assert_eq!(handle, 7);
            assert_eq!(reply, "Server stopped");
        }
        StopStep::NotRunning(_) => panic!("a worker was running"),
    }
    assert!(!s.status());
    assert!(matches!(s.stop(), StopStep::NotRunning(_)));
}

#[test]
fn status_stays_true_until_termination() {
    let (mut s, generation) = running();
    let ev = s.on_output(WorkerOutput::Stdout(b"ready".to_vec()));
    assert_eq!(ev, Some(ServerEvent::Log("ready".to_string())));
    assert!(s.status());
    let ev = s.on_output(WorkerOutput::Stderr(b"warn".to_vec()));
    assert_eq!(ev, Some(ServerEvent::Error("warn".to_string())));
    assert!(s.status());
    let ev = s.on_output(WorkerOutput::Terminated { generation, status: "exit 0".to_string() });
    assert_eq!(ev, Some(ServerEvent::Terminated("exit 0".to_string())));
    assert!(!s.status());
    assert!(matches!(s.start(), StartStep::Spawn(_)));
}

#[test]
fn termination_of_an_old_worker_keeps_the_new_one() {
    let (mut s, old_generation) = running();
    assert!(matches!(s.stop(), StopStep::Shutdown { .. }));
    let started = s.spawned(Ok(8)).unwrap();
    assert_ne!(started.generation, old_generation);
    s.on_output(WorkerOutput::Terminated { generation: old_generation, status: "killed".to_string() });
    assert!(s.status());
}

#[test]
fn stop_then_termination_leaves_stopped() {
    let (mut s, generation) = running();
    s.stop();
    assert!(!s.status());
    s.on_output(WorkerOutput::Terminated { generation, status: "exit 0".to_string() });
    assert!(!s.status());
    assert!(matches!(s.start(), StartStep::Spawn(_)));
}

#[test]
fn other_launcher_reports_publish_nothing() {
    let (mut s, _) = running();
    assert_eq!(s.on_output(WorkerOutput::Other), None);
    assert!(s.status());
}

#[test]
fn log_lines_are_decoded_lossily() {
    let (mut s, _) = running();
    let ev = s.on_output(WorkerOutput::Stdout(vec![b'a', 0xff, b'b']));
    assert_eq!(ev, Some(ServerEvent::Log("a\u{FFFD}b".to_string())));
    let e = ev.unwrap();
    assert_eq!(e.name(), "server-log");
    assert_eq!(e.payload(), "a\u{FFFD}b");
    assert_eq!(ServerEvent::Error(String::new()).name(), "server-error");
    assert_eq!(ServerEvent::Terminated(String::new()).name(), "server-terminated");
}

#[test]
fn failed_shutdown_write_escalates_to_kill() {
    assert_eq!(after_shutdown_write(true), ShutdownAction::AwaitExit);
    assert_eq!(after_shutdown_write(false), ShutdownAction::ForceKill);
}
